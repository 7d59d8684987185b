//! The effect builder: a shared accumulator of target gamepads and base
//! effects, reached through a handle into a table that owns every builder.
//!
//! A chain of calls hands the same handle on, so each call adds to the same
//! accumulator. A gamepad is a target once, however often it is added.

use crate::effect::BaseEffect;
use crate::event::GamepadId;
use vstd::prelude::*;

verus! {

/// What a builder has accumulated: the target gamepads in the order they
/// were first added, and the base effects in the order they were added.
pub struct BuilderContent {
    pub gamepads: Seq<GamepadId>,
    pub base_effects: Seq<BaseEffect>,
}

/// One call on a builder.
pub enum BuilderCall {
    AddGamepad(GamepadId),
    AddEffect(BaseEffect),
}

/// The content of a new builder.
pub open spec fn empty_content() -> BuilderContent {
    BuilderContent { gamepads: Seq::empty(), base_effects: Seq::empty() }
}

/// The targets after one more gamepad is added.
pub open spec fn with_target(gamepads: Seq<GamepadId>, gamepad: GamepadId) -> Seq<GamepadId> {
    if gamepads.contains(gamepad) {
        gamepads
    } else {
        gamepads.push(gamepad)
    }
}

/// The content after one call.
pub open spec fn after_call(content: BuilderContent, call: BuilderCall) -> BuilderContent {
    match call {
        BuilderCall::AddGamepad(gamepad) => BuilderContent {
            gamepads: with_target(content.gamepads, gamepad),
            base_effects: content.base_effects,
        },
        BuilderCall::AddEffect(effect) => BuilderContent {
            gamepads: content.gamepads,
            base_effects: content.base_effects.push(effect),
        },
    }
}

/// The content after a sequence of calls, made in order.
pub open spec fn after_calls(content: BuilderContent, calls: Seq<BuilderCall>) -> BuilderContent
    decreases calls.len(),
{
    if calls.len() == 0 {
        content
    } else {
        after_call(after_calls(content, calls.drop_last()), calls.last())
    }
}

/// The gamepads that a sequence of calls adds, in order.
pub open spec fn gamepads_added(calls: Seq<BuilderCall>) -> Seq<GamepadId>
    decreases calls.len(),
{
    if calls.len() == 0 {
        Seq::empty()
    } else {
        match calls.last() {
            BuilderCall::AddGamepad(gamepad) => gamepads_added(calls.drop_last()).push(gamepad),
            BuilderCall::AddEffect(_) => gamepads_added(calls.drop_last()),
        }
    }
}

/// The base effects that a sequence of calls adds, in order.
pub open spec fn effects_added(calls: Seq<BuilderCall>) -> Seq<BaseEffect>
    decreases calls.len(),
{
    if calls.len() == 0 {
        Seq::empty()
    } else {
        match calls.last() {
            BuilderCall::AddGamepad(_) => effects_added(calls.drop_last()),
            BuilderCall::AddEffect(effect) => effects_added(calls.drop_last()).push(effect),
        }
    }
}

/// The targets after each of `added` has been added in order.
pub open spec fn with_targets(gamepads: Seq<GamepadId>, added: Seq<GamepadId>) -> Seq<GamepadId>
    decreases added.len(),
{
    if added.len() == 0 {
        gamepads
    } else {
        with_target(with_targets(gamepads, added.drop_last()), added.last())
    }
}

/// The table after a call through `handle`: the content under the handle
/// changes, every other content stays. A handle that the table does not
/// hold changes nothing.
pub open spec fn table_after_call(
    table: Seq<BuilderContent>,
    handle: int,
    call: BuilderCall,
) -> Seq<BuilderContent> {
    if 0 <= handle < table.len() {
        table.update(handle, after_call(table[handle], call))
    } else {
        table
    }
}

/// One builder as the table stores it.
struct BuilderSlot {
    gamepads: Vec<GamepadId>,
    base_effects: Vec<BaseEffect>,
}

impl View for BuilderSlot {
    type V = BuilderContent;

    closed spec fn view(&self) -> BuilderContent {
        BuilderContent { gamepads: self.gamepads@, base_effects: self.base_effects@ }
    }
}

/// The table that owns the state of every effect builder.
pub struct EffectBuilders {
    slots: Vec<BuilderSlot>,
}

impl View for EffectBuilders {
    type V = Seq<BuilderContent>;

    closed spec fn view(&self) -> Seq<BuilderContent> {
        Seq::new(self.slots@.len(), |at: int| self.slots@[at]@)
    }
}

/// Handle of one effect builder. Copies of a handle reach the same builder.
#[derive(Clone, Copy, Debug, PartialEq, Eq, Structural)]
pub struct EffectBuilderWrapper {
    pub handle: usize,
}

/// What finishing a builder hands to the force-feedback layer: the targets
/// and the base effects of the effect to create.
#[derive(Clone, Debug)]
pub struct EffectPlan {
    pub gamepads: Vec<GamepadId>,
    pub base_effects: Vec<BaseEffect>,
}

impl View for EffectPlan {
    type V = BuilderContent;

    open spec fn view(&self) -> BuilderContent {
        BuilderContent { gamepads: self.gamepads@, base_effects: self.base_effects@ }
    }
}

/// A copy of a vector of plain values.
fn copy_of<T: Copy>(items: &Vec<T>) -> (copy: Vec<T>)
    ensures
        copy@ == items@,
{
    let mut copy: Vec<T> = Vec::new();
    let mut at: usize = 0;
    while at < items.len()
        invariant
            at <= items.len(),
            copy@ == items@.take(at as int),
        decreases items.len() - at,
    {
        copy.push(items[at]);
        assert(items@.take(at + 1) == items@.take(at as int).push(items@[at as int]));
        at = at + 1;
    }
    assert(items@ == items@.take(at as int));
    copy
}

/// Whether a gamepad is among the targets.
fn is_target(gamepads: &Vec<GamepadId>, gamepad: GamepadId) -> (found: bool)
    ensures
        found == gamepads@.contains(gamepad),
{
    let mut at: usize = 0;
    while at < gamepads.len()
        invariant
            at <= gamepads.len(),
            forall|earlier: int| 0 <= earlier < at ==> gamepads@[earlier] != gamepad,
        decreases gamepads.len() - at,
    {
        if gamepads[at].0 == gamepad.0 {
            return true;
        }
        at = at + 1;
    }
    false
}

impl EffectBuilders {
    /// No builder in the table has a gamepad twice among its targets.
    #[verifier::type_invariant]
    closed spec fn targets_once(self) -> bool {
        forall|at: int|
            0 <= at < self.slots@.len() ==> (#[trigger] self.slots@[at]).gamepads@.no_duplicates()
    }

    /// A table without builders.
    pub fn new() -> (table: EffectBuilders)
        ensures
            table@ == Seq::<BuilderContent>::empty(),
    {
        let table = EffectBuilders { slots: Vec::new() };
        assert(table@ =~= Seq::<BuilderContent>::empty());
        table
    }

    /// The number of builders in the table.
    pub fn len(&self) -> (count: usize)
        ensures
            count == self@.len(),
    {
        self.slots.len()
    }
}

/// Moves the builders out of the table, which is left empty.
fn take_slots(builders: &mut EffectBuilders) -> (slots: Vec<BuilderSlot>)
    ensures
        slots == old(builders).slots,
        forall|at: int|
            0 <= at < slots@.len() ==> (#[trigger] slots@[at]).gamepads@.no_duplicates(),
{
    proof {
        use_type_invariant(&*builders);
    }
    let mut taken = EffectBuilders { slots: Vec::new() };
    std::mem::swap(builders, &mut taken);
    taken.slots
}

impl EffectBuilderWrapper {
    /// Whether the table holds the builder of this handle.
    pub open spec fn held_by(self, table: Seq<BuilderContent>) -> bool {
        self.handle < table.len()
    }

    /// Creates a builder without gamepads and without base effects, and
    /// returns its handle.
    pub fn new(builders: &mut EffectBuilders) -> (created: EffectBuilderWrapper)
        ensures
            created.handle == old(builders)@.len(),
            final(builders)@ == old(builders)@.push(empty_content()),
    {
        let mut slots = take_slots(builders);
        let handle = slots.len();
        slots.push(BuilderSlot { gamepads: Vec::new(), base_effects: Vec::new() });
        *builders = EffectBuilders { slots };
        assert(builders@ =~= old(builders)@.push(empty_content()));
        EffectBuilderWrapper { handle }
    }

    /// Adds a gamepad to the targets of the builder and hands the handle on.
    pub fn add_gamepad(&self, builders: &mut EffectBuilders, gamepad: GamepadId) -> (same:
        EffectBuilderWrapper)
        ensures
            same == *self,
            final(builders)@ == table_after_call(
                old(builders)@,
                self.handle as int,
                BuilderCall::AddGamepad(gamepad),
            ),
    {
        let mut slots = take_slots(builders);
        if self.handle < slots.len() {
            if !is_target(&slots[self.handle].gamepads, gamepad) {
                proof {
                    lemma_targets_reflect_all(slots[self.handle as int].gamepads@, seq![gamepad]);
                    assert(seq![gamepad].drop_last() =~= Seq::<GamepadId>::empty());
                }
                slots[self.handle].gamepads.push(gamepad);
            }
        }
        *builders = EffectBuilders { slots };
        assert(builders@ =~= table_after_call(
            old(builders)@,
            self.handle as int,
            BuilderCall::AddGamepad(gamepad),
        ));
        *self
    }

    /// Adds a base effect to the builder and hands the handle on.
    pub fn add_effect(&self, builders: &mut EffectBuilders, effect: BaseEffect) -> (same:
        EffectBuilderWrapper)
        ensures
            same == *self,
            final(builders)@ == table_after_call(
                old(builders)@,
                self.handle as int,
                BuilderCall::AddEffect(effect),
            ),
    {
        let mut slots = take_slots(builders);
        if self.handle < slots.len() {
            slots[self.handle].base_effects.push(effect);
        }
        *builders = EffectBuilders { slots };
        assert(builders@ =~= table_after_call(
            old(builders)@,
            self.handle as int,
            BuilderCall::AddEffect(effect),
        ));
        *self
    }

    /// The effect to create from what the builder has accumulated; nothing
    /// for a handle that the table does not hold. The builder stays as it
    /// is and can be added to and finished again.
    pub fn finish(&self, builders: &EffectBuilders) -> (plan: Option<EffectPlan>)
        ensures
            self.held_by(builders@) ==> plan.is_some() && plan.unwrap()@
                == builders@[self.handle as int],
            self.held_by(builders@) ==> plan.unwrap()@.gamepads.no_duplicates(),
            !self.held_by(builders@) ==> plan.is_none(),
    {
        proof {
            use_type_invariant(builders);
        }
        if self.handle < builders.slots.len() {
            let slot = &builders.slots[self.handle];
            Some(
                EffectPlan {
                    gamepads: copy_of(&slot.gamepads),
                    base_effects: copy_of(&slot.base_effects),
                },
            )
        } else {
            None
        }
    }
}

/// Every call of a sequence is either an added gamepad or an added effect.
pub proof fn lemma_calls_counted(calls: Seq<BuilderCall>)
    ensures
        gamepads_added(calls).len() + effects_added(calls).len() == calls.len(),
    decreases calls.len(),
{
    if calls.len() > 0 {
        lemma_calls_counted(calls.drop_last());
    }
}

/// After a sequence of calls the base effects are those before it followed
/// by every added effect in order, and the targets are those before it with
/// every added gamepad added: each half depends on its own calls alone.
pub proof fn lemma_calls_accumulate(content: BuilderContent, calls: Seq<BuilderCall>)
    ensures
        after_calls(content, calls).base_effects == content.base_effects + effects_added(calls),
        after_calls(content, calls).gamepads == with_targets(
            content.gamepads,
            gamepads_added(calls),
        ),
    decreases calls.len(),
{
    if calls.len() == 0 {
        assert(content.base_effects + Seq::<BaseEffect>::empty() =~= content.base_effects);
    } else {
        let before = calls.drop_last();
        lemma_calls_accumulate(content, before);
        match calls.last() {
            BuilderCall::AddGamepad(gamepad) => {
                assert(gamepads_added(calls).drop_last() =~= gamepads_added(before));
            },
            BuilderCall::AddEffect(effect) => {
                assert((content.base_effects + effects_added(before)).push(effect)
                    =~= content.base_effects + effects_added(before).push(effect));
            },
        }
    }
}

/// The targets after gamepads are added are exactly the earlier targets and
/// the added gamepads, and none of them occurs twice if none did before.
pub proof fn lemma_targets_reflect_all(gamepads: Seq<GamepadId>, added: Seq<GamepadId>)
    ensures
        forall|gamepad: GamepadId| #[trigger]
            with_targets(gamepads, added).contains(gamepad) <==> gamepads.contains(gamepad)
                || added.contains(gamepad),
        gamepads.no_duplicates() ==> with_targets(gamepads, added).no_duplicates(),
    decreases added.len(),
{
    if added.len() > 0 {
        let before = added.drop_last();
        let last = added.last();
        let earlier = with_targets(gamepads, before);
        lemma_targets_reflect_all(gamepads, before);
        assert(added =~= before.push(last));
        assert forall|gamepad: GamepadId| #[trigger]
            with_targets(gamepads, added).contains(gamepad) <==> gamepads.contains(gamepad)
                || added.contains(gamepad) by {
            lemma_push_contains(earlier, last, gamepad);
            lemma_push_contains(before, last, gamepad);
        }
        if gamepads.no_duplicates() && !earlier.contains(last) {
            let longer = earlier.push(last);
            assert forall|i: int, j: int|
                0 <= i < longer.len() && 0 <= j < longer.len() && i != j implies longer[i]
                != longer[j] by {
                if i < earlier.len() {
                    assert(earlier.contains(earlier[i]));
                }
                if j < earlier.len() {
                    assert(earlier.contains(earlier[j]));
                }
            }
        }
    }
}

/// What a sequence holds once one more item is appended.
proof fn lemma_push_contains(items: Seq<GamepadId>, last: GamepadId, wanted: GamepadId)
    ensures
        items.push(last).contains(wanted) <==> items.contains(wanted) || wanted == last,
{
    let longer = items.push(last);
    if items.contains(wanted) {
        let at = choose|at: int| 0 <= at < items.len() && items[at] == wanted;
        assert(longer[at] == wanted);
    }
    if wanted == last {
        assert(longer[items.len() as int] == wanted);
    }
}

/// The order in which gamepad calls and effect calls are interleaved does
/// not matter: two sequences that add the same gamepads in the same order
/// and the same effects in the same order leave the same content.
pub proof fn lemma_interleaving_irrelevant(
    content: BuilderContent,
    first: Seq<BuilderCall>,
    second: Seq<BuilderCall>,
)
    requires
        gamepads_added(first) == gamepads_added(second),
        effects_added(first) == effects_added(second),
    ensures
        after_calls(content, first) == after_calls(content, second),
{
    lemma_calls_accumulate(content, first);
    lemma_calls_accumulate(content, second);
}

/// A builder that starts empty and takes a sequence of calls ends with
/// every added effect, in order, and with every added gamepad as a target
/// once, and with nothing else.
pub proof fn lemma_chain_reflects_every_call(calls: Seq<BuilderCall>)
    ensures
        after_calls(empty_content(), calls).base_effects == effects_added(calls),
        after_calls(empty_content(), calls).gamepads.no_duplicates(),
        forall|gamepad: GamepadId| #[trigger]
            after_calls(empty_content(), calls).gamepads.contains(gamepad) <==> gamepads_added(
                calls,
            ).contains(gamepad),
{
    lemma_calls_accumulate(empty_content(), calls);
    lemma_targets_reflect_all(Seq::empty(), gamepads_added(calls));
    assert(Seq::<BaseEffect>::empty() + effects_added(calls) =~= effects_added(calls));
}

/// A call through one handle leaves the builder of every other handle as
/// it was, and the table as long as it was.
pub proof fn lemma_other_builders_untouched(
    table: Seq<BuilderContent>,
    handle: int,
    call: BuilderCall,
    other: int,
)
    requires
        0 <= other < table.len(),
        other != handle,
    ensures
        table_after_call(table, handle, call).len() == table.len(),
        table_after_call(table, handle, call)[other] == table[other],
{
}

} // verus!
