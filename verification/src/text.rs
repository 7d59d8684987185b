//! Comparing and searching text by its characters.

use vstd::prelude::*;

verus! {

/// Whether `needle` stands in `haystack` at position `at`.
pub open spec fn occurs_at(needle: Seq<char>, haystack: Seq<char>, at: int) -> bool {
    &&& 0 <= at
    &&& at + needle.len() <= haystack.len()
    &&& haystack.subrange(at, at + needle.len()) == needle
}

/// Whether `needle` stands somewhere in `haystack`. The empty text stands
/// in every text.
pub open spec fn occurs_in(needle: Seq<char>, haystack: Seq<char>) -> bool {
    exists|at: int| occurs_at(needle, haystack, at)
}

/// The characters of a text, in order.
pub fn chars_of(text: &str) -> (chars: Vec<char>)
    ensures
        chars@ == text@,
{
    let mut chars: Vec<char> = Vec::new();
    for c in it: text.chars()
        invariant
            it.seq() == text@,
            chars@ == it.seq().take(it.index() as int),
    {
        chars.push(c);
    }
    chars
}

/// Whether two texts are the same, character by character.
pub fn same_text(a: &str, b: &str) -> (same: bool)
    ensures
        same == (a@ == b@),
{
    let left = chars_of(a);
    let right = chars_of(b);
    if left.len() != right.len() {
        return false;
    }
    let mut at: usize = 0;
    while at < left.len()
        invariant
            left@ == a@,
            right@ == b@,
            left.len() == right.len(),
            at <= left.len(),
            left@.take(at as int) == right@.take(at as int),
        decreases left.len() - at,
    {
        if left[at] != right[at] {
            return false;
        }
        assert(left@.take(at + 1) == left@.take(at as int).push(left@[at as int]));
        assert(right@.take(at + 1) == right@.take(at as int).push(right@[at as int]));
        at = at + 1;
    }
    assert(left@ == left@.take(at as int));
    assert(right@ == right@.take(at as int));
    true
}

/// Whether `needle` stands in `haystack` at position `at`.
fn matches_at(haystack: &Vec<char>, needle: &Vec<char>, at: usize) -> (matches: bool)
    requires
        at + needle.len() <= haystack.len(),
    ensures
        matches == occurs_at(needle@, haystack@, at as int),
{
    let mut offset: usize = 0;
    while offset < needle.len()
        invariant
            at + needle.len() <= haystack.len(),
            offset <= needle.len(),
            haystack@.subrange(at as int, at + offset) == needle@.take(offset as int),
        decreases needle.len() - offset,
    {
        if haystack[at + offset] != needle[offset] {
            proof {
                let window = haystack@.subrange(at as int, at + needle.len());
                assert(window[offset as int] != needle@[offset as int]);
            }
            return false;
        }
        assert(haystack@.subrange(at as int, at + offset + 1) == haystack@.subrange(
            at as int,
            at + offset,
        ).push(haystack@[at + offset]));
        assert(needle@.take(offset + 1) == needle@.take(offset as int).push(
            needle@[offset as int],
        ));
        offset = offset + 1;
    }
    assert(needle@ == needle@.take(offset as int));
    true
}

/// Whether `needle` stands somewhere in `haystack`.
pub fn contains_text(haystack: &str, needle: &str) -> (found: bool)
    ensures
        found == occurs_in(needle@, haystack@),
{
    let hay = chars_of(haystack);
    let pattern = chars_of(needle);
    if pattern.len() > hay.len() {
        return false;
    }
    let last: usize = hay.len() - pattern.len();
    let mut at: usize = 0;
    loop
        invariant
            hay@ == haystack@,
            pattern@ == needle@,
            pattern.len() <= hay.len(),
            last == hay.len() - pattern.len(),
            at <= last,
            forall|earlier: int| 0 <= earlier < at ==> !occurs_at(needle@, haystack@, earlier),
        decreases last - at,
    {
        if matches_at(&hay, &pattern, at) {
            return true;
        }
        if at == last {
            return false;
        }
        at = at + 1;
    }
}

} // verus!
