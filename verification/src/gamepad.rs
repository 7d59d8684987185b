//! What is read from a gamepad or from the input context, brought into the
//! flat conventions: an absent mapping name is the empty text, a dead zone
//! is widened to double precision, and a polled event is flattened.

use crate::event::{flatten_event, Event, EventWrapper};
use crate::precision::{widened, Double, Single};
use vstd::prelude::*;

verus! {

/// The name of a gamepad's mapping as text: the empty text stands for a
/// gamepad without a mapping.
pub open spec fn map_name_text(name: Option<&str>) -> Seq<char> {
    match name {
        Some(text) => text@,
        None => Seq::empty(),
    }
}

/// The record of the event that polling returned, if it returned one.
pub fn next_event(polled: Option<Event>) -> (flat: Option<EventWrapper>)
    ensures
        flat.is_some() == polled.is_some(),
        polled.is_some() ==> flat.unwrap()@ == flatten_event(polled.unwrap()),
{
    match polled {
        Some(event) => Some(EventWrapper::from(event)),
        None => None,
    }
}

/// The name of a gamepad's mapping, empty if it has none.
pub fn gamepad_map_name(name: Option<&str>) -> (text: String)
    ensures
        text@ == map_name_text(name),
{
    match name {
        Some(given) => given.to_owned(),
        None => String::new(),
    }
}

/// The dead zone of an axis in double precision, if the axis has one.
pub fn gamepad_deadzone(deadzone: Option<Single>) -> (wide: Option<Double>)
    ensures
        wide == match deadzone {
            Some(narrow) => Some(widened(narrow)),
            None => None,
        },
{
    match deadzone {
        Some(narrow) => Some(narrow.widen()),
        None => None,
    }
}

} // verus!
