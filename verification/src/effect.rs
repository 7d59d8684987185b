//! Force-feedback base effects: the vibration primitives, their timing and
//! their envelope.

use crate::precision::Single;
use vstd::prelude::*;

verus! {

/// Length of one tick in milliseconds.
pub const TICK_DURATION: u32 = 50;

/// The tag of a base effect's kind: which motor it drives.
#[derive(Clone, Copy, Debug, PartialEq, Eq, Structural)]
pub enum BaseEffectTypeWrapper {
    Weak,
    Strong,
}

/// Kind of a base effect as the force-feedback layer holds it.
#[derive(Clone, Copy, Debug, PartialEq, Eq, Structural)]
pub enum BaseEffectType {
    /// The weak motor, at the given strength.
    Weak { magnitude: u16 },
    /// The strong motor, at the given strength.
    Strong { magnitude: u16 },
    /// A kind that has no tag here.
    Other,
}

/// What can go wrong when a native value is flattened.
#[derive(Clone, Copy, Debug, PartialEq, Eq, Structural)]
pub enum Error {
    /// A base effect is of a kind that has no tag.
    UnrecognizedBaseEffectKind,
}

/// A duration in ticks. It is not a precise measure of time.
#[derive(Clone, Copy, Debug, PartialEq, Eq, Structural)]
pub struct Ticks {
    pub count: u32,
}

/// When a base effect plays: it starts `after` ticks, plays for `play_for`
/// ticks, and waits `with_delay` ticks before each repetition.
#[derive(Clone, Copy, Debug, PartialEq, Eq, Structural)]
pub struct Replay {
    pub after: Ticks,
    pub play_for: Ticks,
    pub with_delay: Ticks,
}

/// How the strength of a base effect rises at its start and falls at its
/// end. The two levels are single-precision numbers.
#[derive(Clone, Copy, Debug, PartialEq, Eq, Structural)]
pub struct Envelope {
    pub attack_length: Ticks,
    pub attack_level: Single,
    pub fade_length: Ticks,
    pub fade_level: Single,
}

/// A vibration primitive: which motor, how strong, when, and how shaped.
#[derive(Clone, Copy, Debug, PartialEq, Eq, Structural)]
pub struct BaseEffect {
    pub kind: BaseEffectType,
    pub scheduling: Replay,
    pub envelope: Envelope,
}

/// The number of ticks that cover a duration in milliseconds: the duration
/// divided by the length of a tick, rounded up.
pub open spec fn ticks_covering(ms: nat) -> nat {
    (ms + TICK_DURATION - 1) as nat / TICK_DURATION as nat
}

/// The native kind for a tag and a strength.
pub open spec fn native_kind(kind: BaseEffectTypeWrapper, magnitude: u16) -> BaseEffectType {
    match kind {
        BaseEffectTypeWrapper::Weak => BaseEffectType::Weak { magnitude },
        BaseEffectTypeWrapper::Strong => BaseEffectType::Strong { magnitude },
    }
}

/// The tag of a native kind, or the error for a kind without one.
pub open spec fn kind_tag(kind: BaseEffectType) -> Result<BaseEffectTypeWrapper, Error> {
    match kind {
        BaseEffectType::Weak { .. } => Ok(BaseEffectTypeWrapper::Weak),
        BaseEffectType::Strong { .. } => Ok(BaseEffectTypeWrapper::Strong),
        BaseEffectType::Other => Err(Error::UnrecognizedBaseEffectKind),
    }
}

impl Error {
    /// A sentence that describes the error.
    pub fn message(&self) -> (text: String)
        ensures
            text@ == "base effect is of an unrecognized kind"@,
    {
        match self {
            Error::UnrecognizedBaseEffectKind => {
                "base effect is of an unrecognized kind".to_owned()
            },
        }
    }
}

/// Builds a base effect of the tagged kind.
pub fn base_effect(
    kind: BaseEffectTypeWrapper,
    magnitude: u16,
    scheduling: Replay,
    envelope: Envelope,
) -> (effect: BaseEffect)
    ensures
        effect.kind == native_kind(kind, magnitude),
        effect.scheduling == scheduling,
        effect.envelope == envelope,
{
    match kind {
        BaseEffectTypeWrapper::Weak => BaseEffect {
            kind: BaseEffectType::Weak { magnitude },
            scheduling,
            envelope,
        },
        BaseEffectTypeWrapper::Strong => BaseEffect {
            kind: BaseEffectType::Strong { magnitude },
            scheduling,
            envelope,
        },
    }
}

/// The tag of a base effect's kind. A kind without a tag is an error, not
/// silently one of the two tags.
pub fn base_effect_kind(effect: &BaseEffect) -> (tag: Result<BaseEffectTypeWrapper, Error>)
    ensures
        tag == kind_tag(effect.kind),
{
    match effect.kind {
        BaseEffectType::Weak { magnitude: _ } => Ok(BaseEffectTypeWrapper::Weak),
        BaseEffectType::Strong { magnitude: _ } => Ok(BaseEffectTypeWrapper::Strong),
        BaseEffectType::Other => Err(Error::UnrecognizedBaseEffectKind),
    }
}

/// The timing of a base effect.
pub fn base_effect_scheduling(effect: &BaseEffect) -> (scheduling: Replay)
    ensures
        scheduling == effect.scheduling,
{
    effect.scheduling
}

/// The envelope of a base effect.
pub fn base_effect_envelope(effect: &BaseEffect) -> (envelope: Envelope)
    ensures
        envelope == effect.envelope,
{
    effect.envelope
}

/// Converts milliseconds to ticks, rounding up.
pub fn ticks(ms: u32) -> (time: Ticks)
    ensures
        time.count == ticks_covering(ms as nat),
{
    if ms == 0 {
        Ticks { count: 0 }
    } else {
        Ticks { count: 1 + (ms - 1) / TICK_DURATION }
    }
}

/// Builds a timing from three durations in milliseconds.
pub fn replay(after: u32, play_for: u32, with_delay: u32) -> (scheduling: Replay)
    ensures
        scheduling.after.count == ticks_covering(after as nat),
        scheduling.play_for.count == ticks_covering(play_for as nat),
        scheduling.with_delay.count == ticks_covering(with_delay as nat),
{
    Replay { after: ticks(after), play_for: ticks(play_for), with_delay: ticks(with_delay) }
}

/// The delay before the first playback.
pub fn replay_after(replay: &Replay) -> (time: Ticks)
    ensures
        time == replay.after,
{
    replay.after
}

/// The duration of one playback.
pub fn replay_play_for(replay: &Replay) -> (time: Ticks)
    ensures
        time == replay.play_for,
{
    replay.play_for
}

/// The delay before each repetition.
pub fn replay_with_delay(replay: &Replay) -> (time: Ticks)
    ensures
        time == replay.with_delay,
{
    replay.with_delay
}

/// Builds an envelope from two durations in milliseconds and two levels.
pub fn envelope(
    attack_length: u32,
    attack_level: Single,
    fade_length: u32,
    fade_level: Single,
) -> (shape: Envelope)
    ensures
        shape.attack_length.count == ticks_covering(attack_length as nat),
        shape.attack_level == attack_level,
        shape.fade_length.count == ticks_covering(fade_length as nat),
        shape.fade_level == fade_level,
{
    Envelope {
        attack_length: ticks(attack_length),
        attack_level,
        fade_length: ticks(fade_length),
        fade_level,
    }
}

/// The ticks that cover a duration reach it, and no smaller count of ticks
/// does.
pub proof fn lemma_ticks_least_cover(ms: nat, count: nat)
    ensures
        ticks_covering(ms) * TICK_DURATION >= ms,
        count * TICK_DURATION >= ms ==> count >= ticks_covering(ms),
{
}

/// Building an effect and reading its kind back gives the tag it was built
/// with: the two tags never fall into the error.
pub proof fn lemma_kind_round_trip(kind: BaseEffectTypeWrapper, magnitude: u16)
    ensures
        kind_tag(native_kind(kind, magnitude)) == Ok::<BaseEffectTypeWrapper, Error>(kind),
{
}

} // verus!
