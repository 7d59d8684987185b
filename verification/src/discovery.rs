//! Finding the platform headers at build time: which header directory
//! belongs to the target, which candidate directory holds the wanted header,
//! and what to tell the declaration generator about them.

use crate::text::{contains_text, occurs_in, same_text};
use vstd::prelude::*;

verus! {

/// A candidate directory as the build finds it on disk.
#[derive(Debug)]
pub struct Directory {
    /// The path of the directory.
    pub path: String,
    /// The names of the regular files that were found in it.
    pub files: Vec<String>,
}

/// Why the build cannot go on.
#[derive(Clone, Copy, Debug, PartialEq, Eq, Structural)]
pub enum BuildError {
    /// The variable that names the root of the platform kit is not set.
    KitRootNotSet,
    /// The variable that names the target platform is not set.
    TargetNotSet,
    /// No candidate directory holds the wanted header.
    HeaderNotFound,
    /// The declaration generator failed.
    GeneratorFailed,
}

/// The name of the header directory that belongs to a target platform.
pub open spec fn include_subdir(target: Seq<char>) -> Seq<char> {
    if occurs_in("windows"@, target) {
        "win32"@
    } else if occurs_in("darwin"@, target) {
        "darwin"@
    } else {
        "linux"@
    }
}

/// Whether a directory lists a file of the given name.
pub open spec fn lists(directory: Directory, file: Seq<char>) -> bool {
    exists|at: int| 0 <= at < directory.files@.len() && (#[trigger] directory.files@[at])@ == file
}

/// Whether `at` is the first of the directories that lists the file.
pub open spec fn first_listing(dirs: Seq<Directory>, file: Seq<char>, at: int) -> bool {
    &&& 0 <= at < dirs.len()
    &&& lists(dirs[at], file)
    &&& forall|earlier: int| 0 <= earlier < at ==> !lists(#[trigger] dirs[earlier], file)
}

/// The sentence that a failed build ends with.
pub open spec fn failure_text(error: BuildError) -> Seq<char> {
    match error {
        BuildError::KitRootNotSet => "JAVA_HOME env variable not set"@,
        BuildError::TargetNotSet => "target env var not set"@,
        BuildError::HeaderNotFound => "Can't find jni.h"@,
        BuildError::GeneratorFailed => "gen_binding failed"@,
    }
}

impl BuildError {
    /// The sentence that a failed build ends with.
    pub fn message(&self) -> (text: &'static str)
        ensures
            text@ == failure_text(*self),
    {
        match self {
            BuildError::KitRootNotSet => "JAVA_HOME env variable not set",
            BuildError::TargetNotSet => "target env var not set",
            BuildError::HeaderNotFound => "Can't find jni.h",
            BuildError::GeneratorFailed => "gen_binding failed",
        }
    }
}

/// Picks the header directory of a target platform: the one for Windows
/// where the target names it, else the one for macOS where the target names
/// that, else the one for Linux.
pub fn platform_include_subdir(target: &str) -> (name: &'static str)
    ensures
        name@ == include_subdir(target@),
{
    if contains_text(target, "windows") {
        "win32"
    } else if contains_text(target, "darwin") {
        "darwin"
    } else {
        "linux"
    }
}

/// Whether a directory lists a file of the given name.
fn directory_lists(directory: &Directory, file: &str) -> (listed: bool)
    ensures
        listed == lists(*directory, file@),
{
    let mut at: usize = 0;
    while at < directory.files.len()
        invariant
            at <= directory.files.len(),
            forall|earlier: int|
                0 <= earlier < at ==> (#[trigger] directory.files@[earlier])@ != file@,
        decreases directory.files.len() - at,
    {
        if same_text(directory.files[at].as_str(), file) {
            return true;
        }
        at = at + 1;
    }
    false
}

/// Searches the candidate directories in order for a file and returns the
/// position of the first that holds it; fails if none does.
pub fn search_file_in_directory(dirs: &Vec<Directory>, file: &str) -> (found: Result<usize, ()>)
    ensures
        match found {
            Ok(at) => first_listing(dirs@, file@, at as int),
            Err(_) => forall|at: int| 0 <= at < dirs@.len() ==> !lists(#[trigger] dirs@[at], file@),
        },
{
    let mut at: usize = 0;
    while at < dirs.len()
        invariant
            at <= dirs.len(),
            forall|earlier: int| 0 <= earlier < at ==> !lists(#[trigger] dirs@[earlier], file@),
        decreases dirs.len() - at,
    {
        if directory_lists(&dirs[at], file) {
            return Ok(at);
        }
        at = at + 1;
    }
    Err(())
}

/// The arguments that tell the declaration generator where to look for
/// headers: one per directory, the directory's path behind `-I`.
pub fn include_arguments(include_dirs: &Vec<String>) -> (arguments: Vec<String>)
    ensures
        arguments@.len() == include_dirs@.len(),
        forall|at: int|
            0 <= at < include_dirs@.len() ==> (#[trigger] arguments@[at])@ == "-I"@
                + include_dirs@[at]@,
{
    let mut arguments: Vec<String> = Vec::new();
    let mut at: usize = 0;
    while at < include_dirs.len()
        invariant
            at <= include_dirs.len(),
            arguments@.len() == at,
            forall|done: int|
                0 <= done < at ==> (#[trigger] arguments@[done])@ == "-I"@ + include_dirs@[done]@,
        decreases include_dirs.len() - at,
    {
        let argument = "-I".to_owned().concat(include_dirs[at].as_str());
        arguments.push(argument);
        at = at + 1;
    }
    arguments
}

/// The first listing is unique: a search has one right answer.
pub proof fn lemma_first_listing_unique(dirs: Seq<Directory>, file: Seq<char>, a: int, b: int)
    requires
        first_listing(dirs, file, a),
        first_listing(dirs, file, b),
    ensures
        a == b,
{
}

/// The four sentences are pairwise different: a failed build tells which
/// step failed.
pub proof fn lemma_failure_texts_distinct(a: BuildError, b: BuildError)
    requires
        failure_text(a) == failure_text(b),
    ensures
        a == b,
{
    reveal_strlit("JAVA_HOME env variable not set");
    reveal_strlit("target env var not set");
    reveal_strlit("Can't find jni.h");
    reveal_strlit("gen_binding failed");
    assert("JAVA_HOME env variable not set"@.len() == 30);
    assert("target env var not set"@.len() == 22);
    assert("Can't find jni.h"@.len() == 16);
    assert("gen_binding failed"@.len() == 18);
}

} // verus!
