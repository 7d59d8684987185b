use jgilrs::{
    base_effect, base_effect_envelope, base_effect_kind, base_effect_scheduling, envelope, replay,
    replay_after, replay_play_for, replay_with_delay, ticks, BaseEffect, BaseEffectType,
    BaseEffectTypeWrapper, Envelope, Error, Replay, Single, Ticks,
};

fn single(value: f32) -> Single {
    Single::from_bits(value.to_bits())
}

#[test]
fn ticks_round_milliseconds_up_to_fifty() {
    assert_eq!(ticks(0), Ticks { count: 0 });
    assert_eq!(ticks(1), Ticks { count: 1 });
    assert_eq!(ticks(49), Ticks { count: 1 });
    assert_eq!(ticks(50), Ticks { count: 1 });
    assert_eq!(ticks(51), Ticks { count: 2 });
    assert_eq!(ticks(100), Ticks { count: 2 });
    assert_eq!(ticks(101), Ticks { count: 3 });
    assert_eq!(ticks(150), Ticks { count: 3 });
}

#[test]
fn ticks_are_not_a_precise_measure() {
    assert_eq!(ticks(110), ticks(130));
    assert_eq!(ticks(110), Ticks { count: 3 });
}

#[test]
fn ticks_of_the_longest_duration_fit() {
    assert_eq!(ticks(u32::MAX), Ticks { count: 85_899_346 });
    assert_eq!(ticks(u32::MAX - 45), Ticks { count: 85_899_345 });
    assert_eq!(ticks(u32::MAX - 44), Ticks { count: 85_899_346 });
}

#[test]
fn ticks_cover_the_duration_with_the_fewest() {
    for ms in (0u32..2000).chain([u32::MAX - 1, u32::MAX, 1 << 31]) {
        let count = ticks(ms).count as u64;
        assert!(count * 50 >= ms as u64);
        assert!(count == 0 || (count - 1) * 50 < ms as u64);
    }
}

#[test]
fn replay_converts_each_duration() {
    let scheduling = replay(100, 250, 1);
    assert_eq!(
        scheduling,
        Replay {
            after: Ticks { count: 2 },
            play_for: Ticks { count: 5 },
            with_delay: Ticks { count: 1 },
        }
    );
    assert_eq!(replay_after(&scheduling), Ticks { count: 2 });
    assert_eq!(replay_play_for(&scheduling), Ticks { count: 5 });
    assert_eq!(replay_with_delay(&scheduling), Ticks { count: 1 });
}

#[test]
fn replay_of_zero_durations() {
    let scheduling = replay(0, 0, 0);
    assert_eq!(replay_after(&scheduling), Ticks { count: 0 });
    assert_eq!(replay_play_for(&scheduling), Ticks { count: 0 });
    assert_eq!(replay_with_delay(&scheduling), Ticks { count: 0 });
}

#[test]
fn envelope_converts_lengths_and_keeps_levels() {
    let shape = envelope(120, single(0.2), 30, single(0.9));
    assert_eq!(
        shape,
        Envelope {
            attack_length: Ticks { count: 3 },
            attack_level: single(0.2),
            fade_length: Ticks { count: 1 },
            fade_level: single(0.9),
        }
    );
}

#[test]
fn base_effect_of_each_kind() {
    let scheduling = replay(0, 500, 100);
    let shape = envelope(50, single(0.0), 50, single(1.0));
    let weak = base_effect(BaseEffectTypeWrapper::Weak, 12_000, scheduling, shape);
    assert_eq!(
        weak,
        BaseEffect { kind: BaseEffectType::Weak { magnitude: 12_000 }, scheduling, envelope: shape }
    );
    let strong = base_effect(BaseEffectTypeWrapper::Strong, 60_000, scheduling, shape);
    assert_eq!(
        strong,
        BaseEffect {
            kind: BaseEffectType::Strong { magnitude: 60_000 },
            scheduling,
            envelope: shape
        }
    );
}

#[test]
fn base_effect_kind_reads_the_tag_back() {
    let scheduling = replay(0, 500, 100);
    let shape = envelope(50, single(0.0), 50, single(1.0));
    for magnitude in [0u16, 1, 32_768, u16::MAX] {
        let weak = base_effect(BaseEffectTypeWrapper::Weak, magnitude, scheduling, shape);
        assert_eq!(base_effect_kind(&weak), Ok(BaseEffectTypeWrapper::Weak));
        let strong = base_effect(BaseEffectTypeWrapper::Strong, magnitude, scheduling, shape);
        assert_eq!(base_effect_kind(&strong), Ok(BaseEffectTypeWrapper::Strong));
    }
}

#[test]
fn base_effect_kind_of_an_unrecognized_kind_is_an_error() {
    let effect = BaseEffect {
        kind: BaseEffectType::Other,
        scheduling: replay(0, 50, 0),
        envelope: envelope(0, single(1.0), 0, single(1.0)),
    };
    assert_eq!(base_effect_kind(&effect), Err(Error::UnrecognizedBaseEffectKind));
}

#[test]
fn base_effect_parts_are_read_back() {
    let scheduling = replay(75, 1000, 2000);
    let shape = envelope(10, single(0.1), 20, single(0.2));
    let effect = base_effect(BaseEffectTypeWrapper::Strong, 7, scheduling, shape);
    assert_eq!(base_effect_scheduling(&effect), scheduling);
    assert_eq!(base_effect_envelope(&effect), shape);
    assert_eq!(base_effect_scheduling(&effect).after, Ticks { count: 2 });
    assert_eq!(base_effect_envelope(&effect).fade_level, single(0.2));
}

#[test]
fn the_error_describes_itself() {
    assert_eq!(
        Error::UnrecognizedBaseEffectKind.message(),
        "base effect is of an unrecognized kind"
    );
}
