use jgilrs::{PowerInfo, PowerInfoWrapper};

#[test]
fn unknown_power_flattens_to_unknown_and_zero() {
    let flat = PowerInfoWrapper::from(PowerInfo::Unknown);
    assert_eq!(flat.status(), "unknown");
    assert_eq!(flat.value(), 0);
}

#[test]
fn wired_power_flattens_to_wired_and_zero() {
    let flat = PowerInfoWrapper::from(PowerInfo::Wired);
    assert_eq!(flat.status(), "wired");
    assert_eq!(flat.value(), 0);
}

#[test]
fn discharging_power_keeps_its_level() {
    let flat = PowerInfoWrapper::from(PowerInfo::Discharging(37));
    assert_eq!(flat.status(), "discharging");
    assert_eq!(flat.value(), 37);
}

#[test]
fn charging_power_keeps_its_level() {
    let flat = PowerInfoWrapper::from(PowerInfo::Charging(99));
    assert_eq!(flat.status(), "charging");
    assert_eq!(flat.value(), 99);
}

#[test]
fn charged_power_flattens_to_charged_and_zero() {
    let flat = PowerInfoWrapper::from(PowerInfo::Charged);
    assert_eq!(flat.status(), "charged");
    assert_eq!(flat.value(), 0);
}

#[test]
fn power_levels_pass_through_at_both_ends() {
    assert_eq!(PowerInfoWrapper::from(PowerInfo::Discharging(0)).value(), 0);
    assert_eq!(PowerInfoWrapper::from(PowerInfo::Discharging(255)).value(), 255);
    assert_eq!(PowerInfoWrapper::from(PowerInfo::Charging(0)).value(), 0);
    assert_eq!(PowerInfoWrapper::from(PowerInfo::Charging(255)).value(), 255);
}

#[test]
fn power_flattening_is_deterministic() {
    let first = PowerInfoWrapper::from(PowerInfo::Charging(12));
    let second = PowerInfoWrapper::from(PowerInfo::Charging(12));
    assert_eq!(first.status(), second.status());
    assert_eq!(first.value(), second.value());
}

#[test]
fn power_tags_are_pairwise_different() {
    let tags = vec![
        PowerInfoWrapper::from(PowerInfo::Unknown).status,
        PowerInfoWrapper::from(PowerInfo::Wired).status,
        PowerInfoWrapper::from(PowerInfo::Discharging(1)).status,
        PowerInfoWrapper::from(PowerInfo::Charging(1)).status,
        PowerInfoWrapper::from(PowerInfo::Charged).status,
    ];
    for (i, a) in tags.iter().enumerate() {
        for (j, b) in tags.iter().enumerate() {
            assert_eq!(i == j, a == b);
        }
    }
}

#[test]
fn power_record_fields_match_the_getters() {
    let flat = PowerInfoWrapper::from(PowerInfo::Discharging(5));
    assert_eq!(flat.status, "discharging");
    assert_eq!(flat.value, 5);
}
