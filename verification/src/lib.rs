//! Flattened, host-friendly forms of gamepad values: power status, input
//! events, force-feedback descriptions and the rules that pick the platform
//! headers at build time.
//!
//! Every native value is modelled by a plain type of this crate; each
//! flattening function states in its contract exactly which record it
//! returns.

pub mod builder;
pub mod discovery;
pub mod distance;
pub mod effect;
pub mod event;
pub mod gamepad;
pub mod power;
pub mod precision;
pub mod text;

pub use builder::{EffectBuilderWrapper, EffectBuilders, EffectPlan};
pub use discovery::{
    include_arguments, platform_include_subdir, search_file_in_directory, BuildError, Directory,
};
pub use distance::{DistanceModel, DistanceModelWrapper};
pub use effect::{
    base_effect, base_effect_envelope, base_effect_kind, base_effect_scheduling, envelope, replay,
    replay_after, replay_play_for, replay_with_delay, ticks, BaseEffect, BaseEffectType,
    BaseEffectTypeWrapper, Envelope, Error, Replay, Ticks,
};
pub use event::{Axis, Button, Code, Event, EventType, EventWrapper, GamepadId};
pub use gamepad::{gamepad_deadzone, gamepad_map_name, next_event};
pub use power::{PowerInfo, PowerInfoWrapper};
pub use precision::{Double, Single};
