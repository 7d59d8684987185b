use jgilrs::{DistanceModel, DistanceModelWrapper, Single};

fn single(value: f32) -> Single {
    Single::from_bits(value.to_bits())
}

fn record(name: &str) -> DistanceModelWrapper {
    DistanceModelWrapper::new(name, single(1.5), single(0.25), single(40.0))
}

#[test]
fn linear_is_reconstructed_with_three_coefficients() {
    assert_eq!(
        DistanceModelWrapper::to(record("Linear")),
        DistanceModel::Linear {
            ref_distance: single(1.5),
            rolloff_factor: single(0.25),
            max_distance: single(40.0),
        }
    );
}

#[test]
fn linear_clamped_is_reconstructed_with_three_coefficients() {
    assert_eq!(
        DistanceModelWrapper::to(record("LinearClamped")),
        DistanceModel::LinearClamped {
            ref_distance: single(1.5),
            rolloff_factor: single(0.25),
            max_distance: single(40.0),
        }
    );
}

#[test]
fn inverse_is_reconstructed_without_the_maximal_distance() {
    assert_eq!(
        DistanceModelWrapper::to(record("Inverse")),
        DistanceModel::Inverse { ref_distance: single(1.5), rolloff_factor: single(0.25) }
    );
}

#[test]
fn inverse_clamped_is_reconstructed_with_three_coefficients() {
    assert_eq!(
        DistanceModelWrapper::to(record("InverseClamped")),
        DistanceModel::InverseClamped {
            ref_distance: single(1.5),
            rolloff_factor: single(0.25),
            max_distance: single(40.0),
        }
    );
}

#[test]
fn exponential_is_reconstructed_without_the_maximal_distance() {
    assert_eq!(
        DistanceModelWrapper::to(record("Exponential")),
        DistanceModel::Exponential { ref_distance: single(1.5), rolloff_factor: single(0.25) }
    );
}

#[test]
fn exponential_clamped_is_reconstructed_with_three_coefficients() {
    assert_eq!(
        DistanceModelWrapper::to(record("ExponentialClamped")),
        DistanceModel::ExponentialClamped {
            ref_distance: single(1.5),
            rolloff_factor: single(0.25),
            max_distance: single(40.0),
        }
    );
}

#[test]
fn any_other_name_gives_the_model_without_attenuation() {
    for name in ["", "None", "linear", "LINEAR", "Linear ", " Linear", "Linea", "Quadratic",
        "LinearClampedX", "Inverse\u{0}", "Exponentiäl"]
    {
        assert_eq!(DistanceModelWrapper::to(record(name)), DistanceModel::Unattenuated);
    }
}

#[test]
fn every_model_survives_flattening_and_reconstruction() {
    let a = single(2.0);
    let b = single(0.5);
    let c = single(100.0);
    let models = vec![
        DistanceModel::Unattenuated,
        DistanceModel::Linear { ref_distance: a, rolloff_factor: b, max_distance: c },
        DistanceModel::LinearClamped { ref_distance: a, rolloff_factor: b, max_distance: c },
        DistanceModel::Inverse { ref_distance: a, rolloff_factor: b },
        DistanceModel::InverseClamped { ref_distance: a, rolloff_factor: b, max_distance: c },
        DistanceModel::Exponential { ref_distance: a, rolloff_factor: b },
        DistanceModel::ExponentialClamped { ref_distance: a, rolloff_factor: b, max_distance: c },
    ];
    for model in models {
        assert_eq!(DistanceModelWrapper::to(DistanceModelWrapper::from(model)), model);
    }
}

#[test]
fn flattening_names_each_model() {
    let a = single(2.0);
    let b = single(0.5);
    let c = single(100.0);
    let flat = DistanceModelWrapper::from(DistanceModel::InverseClamped {
        ref_distance: a,
        rolloff_factor: b,
        max_distance: c,
    });
    assert_eq!(flat.name, "InverseClamped");
    assert_eq!(flat.ref_distance, a);
    assert_eq!(flat.rolloff_factor, b);
    assert_eq!(flat.max_distance, c);
    let flat = DistanceModelWrapper::from(DistanceModel::Exponential {
        ref_distance: a,
        rolloff_factor: b,
    });
    assert_eq!(flat.name, "Exponential");
    assert_eq!(flat.ref_distance, a);
    assert_eq!(flat.rolloff_factor, b);
    assert_eq!(flat.max_distance, Single::from_bits(0));
    let flat = DistanceModelWrapper::from(DistanceModel::Unattenuated);
    assert_eq!(flat.name, "None");
    assert_eq!(flat.ref_distance, Single::from_bits(0));
    assert_eq!(flat.rolloff_factor, Single::from_bits(0));
    assert_eq!(flat.max_distance, Single::from_bits(0));
    assert_eq!(
        DistanceModelWrapper::from(DistanceModel::Linear {
            ref_distance: a,
            rolloff_factor: b,
            max_distance: c
        })
        .name,
        "Linear"
    );
    assert_eq!(
        DistanceModelWrapper::from(DistanceModel::LinearClamped {
            ref_distance: a,
            rolloff_factor: b,
            max_distance: c
        })
        .name,
        "LinearClamped"
    );
    assert_eq!(
        DistanceModelWrapper::from(DistanceModel::Inverse { ref_distance: a, rolloff_factor: b })
            .name,
        "Inverse"
    );
    assert_eq!(
        DistanceModelWrapper::from(DistanceModel::ExponentialClamped {
            ref_distance: a,
            rolloff_factor: b,
            max_distance: c
        })
        .name,
        "ExponentialClamped"
    );
}

#[test]
fn a_record_of_a_model_with_three_coefficients_survives_the_other_way() {
    let flat = DistanceModelWrapper::from(DistanceModelWrapper::to(record("LinearClamped")));
    assert_eq!(flat.name, "LinearClamped");
    assert_eq!(flat.ref_distance, single(1.5));
    assert_eq!(flat.rolloff_factor, single(0.25));
    assert_eq!(flat.max_distance, single(40.0));
}

#[test]
fn coefficients_are_carried_bit_for_bit() {
    let odd = Single::from_bits(0x7fc0_1234);
    let model = DistanceModelWrapper::to(DistanceModelWrapper::new(
        "Inverse",
        odd,
        Single::from_bits(0x8000_0000),
        Single::from_bits(1),
    ));
    assert_eq!(
        model,
        DistanceModel::Inverse { ref_distance: odd, rolloff_factor: Single::from_bits(0x8000_0000) }
    );
}
