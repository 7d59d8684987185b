//! Distance models: how the distance between the source of an effect and
//! the listener attenuates it, and the flat record that names one.

use crate::precision::Single;
use crate::text::same_text;
use vstd::prelude::*;

verus! {

/// A distance model with its coefficients, each a single-precision number.
#[derive(Clone, Copy, Debug, PartialEq, Eq, Structural)]
pub enum DistanceModel {
    /// The effect is not attenuated by distance.
    Unattenuated,
    Linear { ref_distance: Single, rolloff_factor: Single, max_distance: Single },
    LinearClamped { ref_distance: Single, rolloff_factor: Single, max_distance: Single },
    Inverse { ref_distance: Single, rolloff_factor: Single },
    InverseClamped { ref_distance: Single, rolloff_factor: Single, max_distance: Single },
    Exponential { ref_distance: Single, rolloff_factor: Single },
    ExponentialClamped { ref_distance: Single, rolloff_factor: Single, max_distance: Single },
}

/// Mathematical content of a [`DistanceModelWrapper`].
pub struct DistanceModelRecord {
    pub name: Seq<char>,
    pub ref_distance: Single,
    pub rolloff_factor: Single,
    pub max_distance: Single,
}

/// The model that a record names. A name that is none of the six model
/// names gives the model without attenuation; the two models without a
/// maximal distance ignore that coefficient.
pub open spec fn reconstruct(record: DistanceModelRecord) -> DistanceModel {
    let ref_distance = record.ref_distance;
    let rolloff_factor = record.rolloff_factor;
    let max_distance = record.max_distance;
    if record.name == "Linear"@ {
        DistanceModel::Linear { ref_distance, rolloff_factor, max_distance }
    } else if record.name == "LinearClamped"@ {
        DistanceModel::LinearClamped { ref_distance, rolloff_factor, max_distance }
    } else if record.name == "Inverse"@ {
        DistanceModel::Inverse { ref_distance, rolloff_factor }
    } else if record.name == "InverseClamped"@ {
        DistanceModel::InverseClamped { ref_distance, rolloff_factor, max_distance }
    } else if record.name == "Exponential"@ {
        DistanceModel::Exponential { ref_distance, rolloff_factor }
    } else if record.name == "ExponentialClamped"@ {
        DistanceModel::ExponentialClamped { ref_distance, rolloff_factor, max_distance }
    } else {
        DistanceModel::Unattenuated
    }
}

/// The name of a model.
pub open spec fn model_name(model: DistanceModel) -> Seq<char> {
    match model {
        DistanceModel::Unattenuated => "None"@,
        DistanceModel::Linear { .. } => "Linear"@,
        DistanceModel::LinearClamped { .. } => "LinearClamped"@,
        DistanceModel::Inverse { .. } => "Inverse"@,
        DistanceModel::InverseClamped { .. } => "InverseClamped"@,
        DistanceModel::Exponential { .. } => "Exponential"@,
        DistanceModel::ExponentialClamped { .. } => "ExponentialClamped"@,
    }
}

/// The record of a model: its name and its coefficients, with positive zero
/// for each coefficient that the model does not have.
pub open spec fn flatten_model(model: DistanceModel) -> DistanceModelRecord {
    let zero = Single { bits: 0 };
    let name = model_name(model);
    match model {
        DistanceModel::Unattenuated => DistanceModelRecord {
            name,
            ref_distance: zero,
            rolloff_factor: zero,
            max_distance: zero,
        },
        DistanceModel::Linear {
            ref_distance,
            rolloff_factor,
            max_distance,
        } => DistanceModelRecord { name, ref_distance, rolloff_factor, max_distance },
        DistanceModel::LinearClamped {
            ref_distance,
            rolloff_factor,
            max_distance,
        } => DistanceModelRecord { name, ref_distance, rolloff_factor, max_distance },
        DistanceModel::Inverse { ref_distance, rolloff_factor } => DistanceModelRecord {
            name,
            ref_distance,
            rolloff_factor,
            max_distance: zero,
        },
        DistanceModel::InverseClamped {
            ref_distance,
            rolloff_factor,
            max_distance,
        } => DistanceModelRecord { name, ref_distance, rolloff_factor, max_distance },
        DistanceModel::Exponential { ref_distance, rolloff_factor } => DistanceModelRecord {
            name,
            ref_distance,
            rolloff_factor,
            max_distance: zero,
        },
        DistanceModel::ExponentialClamped {
            ref_distance,
            rolloff_factor,
            max_distance,
        } => DistanceModelRecord { name, ref_distance, rolloff_factor, max_distance },
    }
}

/// Flat form of a distance model: a name and three coefficients.
#[derive(Clone, Debug)]
pub struct DistanceModelWrapper {
    pub name: String,
    pub ref_distance: Single,
    pub rolloff_factor: Single,
    pub max_distance: Single,
}

impl View for DistanceModelWrapper {
    type V = DistanceModelRecord;

    open spec fn view(&self) -> DistanceModelRecord {
        DistanceModelRecord {
            name: self.name@,
            ref_distance: self.ref_distance,
            rolloff_factor: self.rolloff_factor,
            max_distance: self.max_distance,
        }
    }
}

impl DistanceModelWrapper {
    /// A record with the given name and coefficients.
    pub fn new(
        name: &str,
        ref_distance: Single,
        rolloff_factor: Single,
        max_distance: Single,
    ) -> (record: DistanceModelWrapper)
        ensures
            record@ == (DistanceModelRecord {
                name: name@,
                ref_distance,
                rolloff_factor,
                max_distance,
            }),
    {
        DistanceModelWrapper { name: name.to_owned(), ref_distance, rolloff_factor, max_distance }
    }

    /// Reconstructs the model that the record names.
    pub fn to(model: DistanceModelWrapper) -> (native: DistanceModel)
        ensures
            native == reconstruct(model@),
    {
        let name = model.name.as_str();
        let ref_distance = model.ref_distance;
        let rolloff_factor = model.rolloff_factor;
        let max_distance = model.max_distance;
        if same_text(name, "Linear") {
            DistanceModel::Linear { ref_distance, rolloff_factor, max_distance }
        } else if same_text(name, "LinearClamped") {
            DistanceModel::LinearClamped { ref_distance, rolloff_factor, max_distance }
        } else if same_text(name, "Inverse") {
            DistanceModel::Inverse { ref_distance, rolloff_factor }
        } else if same_text(name, "InverseClamped") {
            DistanceModel::InverseClamped { ref_distance, rolloff_factor, max_distance }
        } else if same_text(name, "Exponential") {
            DistanceModel::Exponential { ref_distance, rolloff_factor }
        } else if same_text(name, "ExponentialClamped") {
            DistanceModel::ExponentialClamped { ref_distance, rolloff_factor, max_distance }
        } else {
            DistanceModel::Unattenuated
        }
    }

    /// Flattens a model into its record.
    pub fn from(model: DistanceModel) -> (flat: DistanceModelWrapper)
        ensures
            flat@ == flatten_model(model),
    {
        let zero = Single { bits: 0 };
        match model {
            DistanceModel::Unattenuated => DistanceModelWrapper {
                name: "None".to_owned(),
                ref_distance: zero,
                rolloff_factor: zero,
                max_distance: zero,
            },
            DistanceModel::Linear { ref_distance, rolloff_factor, max_distance } => {
                DistanceModelWrapper {
                    name: "Linear".to_owned(),
                    ref_distance,
                    rolloff_factor,
                    max_distance,
                }
            },
            DistanceModel::LinearClamped { ref_distance, rolloff_factor, max_distance } => {
                DistanceModelWrapper {
                    name: "LinearClamped".to_owned(),
                    ref_distance,
                    rolloff_factor,
                    max_distance,
                }
            },
            DistanceModel::Inverse { ref_distance, rolloff_factor } => DistanceModelWrapper {
                name: "Inverse".to_owned(),
                ref_distance,
                rolloff_factor,
                max_distance: zero,
            },
            DistanceModel::InverseClamped { ref_distance, rolloff_factor, max_distance } => {
                DistanceModelWrapper {
                    name: "InverseClamped".to_owned(),
                    ref_distance,
                    rolloff_factor,
                    max_distance,
                }
            },
            DistanceModel::Exponential { ref_distance, rolloff_factor } => DistanceModelWrapper {
                name: "Exponential".to_owned(),
                ref_distance,
                rolloff_factor,
                max_distance: zero,
            },
            DistanceModel::ExponentialClamped { ref_distance, rolloff_factor, max_distance } => {
                DistanceModelWrapper {
                    name: "ExponentialClamped".to_owned(),
                    ref_distance,
                    rolloff_factor,
                    max_distance,
                }
            },
        }
    }
}

/// Whether a name is one of the six model names.
pub open spec fn is_model_name(name: Seq<char>) -> bool {
    name == "Linear"@ || name == "LinearClamped"@ || name == "Inverse"@ || name
        == "InverseClamped"@ || name == "Exponential"@ || name == "ExponentialClamped"@
}

/// The seven names have seven different lengths.
proof fn lemma_model_names_distinct()
    ensures
        "None"@.len() == 4,
        "Linear"@.len() == 6,
        "LinearClamped"@.len() == 13,
        "Inverse"@.len() == 7,
        "InverseClamped"@.len() == 14,
        "Exponential"@.len() == 11,
        "ExponentialClamped"@.len() == 18,
{
    reveal_strlit("None");
    reveal_strlit("Linear");
    reveal_strlit("LinearClamped");
    reveal_strlit("Inverse");
    reveal_strlit("InverseClamped");
    reveal_strlit("Exponential");
    reveal_strlit("ExponentialClamped");
}

/// Flattening a model and reconstructing it gives the model back.
pub proof fn lemma_distance_round_trip(model: DistanceModel)
    ensures
        reconstruct(flatten_model(model)) == model,
{
    lemma_model_names_distinct();
}

/// A record whose name is none of the six model names reconstructs to the
/// model without attenuation, whatever its coefficients.
pub proof fn lemma_unnamed_model_is_none(record: DistanceModelRecord)
    requires
        !is_model_name(record.name),
    ensures
        reconstruct(record) == DistanceModel::Unattenuated,
{
}

/// A record with one of the six model names reconstructs to the model of
/// that name, with the record's coefficients.
pub proof fn lemma_named_model_keeps_name(record: DistanceModelRecord)
    requires
        is_model_name(record.name),
    ensures
        model_name(reconstruct(record)) == record.name,
        flatten_model(reconstruct(record)).ref_distance == record.ref_distance,
        flatten_model(reconstruct(record)).rolloff_factor == record.rolloff_factor,
        !(reconstruct(record) is Inverse) && !(reconstruct(record) is Exponential)
            ==> flatten_model(reconstruct(record)) == record,
{
    lemma_model_names_distinct();
}

} // verus!
