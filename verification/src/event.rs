//! Input events of a gamepad, and the uniform record each one flattens to.

use crate::precision::{widened, Double, Single};
use std::time::SystemTime;
use vstd::prelude::*;

verus! {

/// Makes `std::time::SystemTime` known to the verifier as an opaque type.
/// Nothing is claimed of its values: the time of an event is carried into
/// its record and never read.
#[verifier::external_type_specification]
#[verifier::external_body]
pub struct ExSystemTime(SystemTime);

/// Identifier of a gamepad, valid for the lifetime of the input context.
#[derive(Clone, Copy, Debug, PartialEq, Eq, Hash, Structural)]
pub struct GamepadId(pub usize);

/// Platform-specific event code of a button or an axis.
#[derive(Clone, Copy, Debug, PartialEq, Eq, Hash, Structural)]
pub struct Code(pub u32);

/// Elements of a gamepad whose state is a value from 0 to 1.
#[derive(Clone, Copy, Debug, PartialEq, Eq, Hash, Structural)]
pub enum Button {
    South,
    East,
    North,
    West,
    C,
    Z,
    LeftTrigger,
    LeftTrigger2,
    RightTrigger,
    RightTrigger2,
    Select,
    Start,
    Mode,
    LeftThumb,
    RightThumb,
    DPadUp,
    DPadDown,
    DPadLeft,
    DPadRight,
    /// No button, or one that has no name.
    Unknown,
}

/// Elements of a gamepad whose state is a value from -1 to 1.
#[derive(Clone, Copy, Debug, PartialEq, Eq, Hash, Structural)]
pub enum Axis {
    LeftStickX,
    LeftStickY,
    LeftZ,
    RightStickX,
    RightStickY,
    RightZ,
    DPadX,
    DPadY,
    /// No axis, or one that has no name.
    Unknown,
}

/// What happened on a gamepad.
#[derive(Clone, Copy, Debug, PartialEq, Eq, Structural)]
pub enum EventType {
    /// A button has been pressed.
    ButtonPressed(Button, Code),
    /// A held button repeats.
    ButtonRepeated(Button, Code),
    /// A pressed button has been released.
    ButtonReleased(Button, Code),
    /// The value of a button has changed.
    ButtonChanged(Button, Single, Code),
    /// The value of an axis has changed.
    AxisChanged(Axis, Single, Code),
    /// The gamepad has been connected.
    Connected,
    /// The gamepad has been disconnected.
    Disconnected,
    /// An event that a filter dropped; to be ignored.
    Dropped,
}

/// An event together with its origin and the time it was emitted.
#[derive(Clone, Copy, Debug, PartialEq)]
pub struct Event {
    pub id: GamepadId,
    pub event: EventType,
    pub time: SystemTime,
}

/// Mathematical content of an [`EventWrapper`].
pub struct EventRecord {
    pub message: Seq<char>,
    pub gamepad: GamepadId,
    pub button: Button,
    pub axis: Axis,
    pub code: Option<Code>,
    pub value: Option<Double>,
    pub time: SystemTime,
}

/// The tag that names a kind of event.
pub open spec fn event_tag(event: EventType) -> Seq<char> {
    match event {
        EventType::ButtonPressed(..) => "button-pressed"@,
        EventType::ButtonRepeated(..) => "button-repeated"@,
        EventType::ButtonReleased(..) => "button-released"@,
        EventType::ButtonChanged(..) => "button-changed"@,
        EventType::AxisChanged(..) => "axis-changed"@,
        EventType::Connected => "connected"@,
        EventType::Disconnected => "disconnected"@,
        EventType::Dropped => "dropped"@,
    }
}

/// Whether a kind of event is about a button.
pub open spec fn concerns_button(event: EventType) -> bool {
    event is ButtonPressed || event is ButtonRepeated || event is ButtonReleased
        || event is ButtonChanged
}

/// Whether a kind of event is about an axis.
pub open spec fn concerns_axis(event: EventType) -> bool {
    event is AxisChanged
}

/// Whether a kind of event carries a numeric value.
pub open spec fn carries_value(event: EventType) -> bool {
    event is ButtonChanged || event is AxisChanged
}

/// The button of an event; the sentinel where the event is not about one.
pub open spec fn event_button(event: EventType) -> Button {
    match event {
        EventType::ButtonPressed(button, _) => button,
        EventType::ButtonRepeated(button, _) => button,
        EventType::ButtonReleased(button, _) => button,
        EventType::ButtonChanged(button, _, _) => button,
        _ => Button::Unknown,
    }
}

/// The axis of an event; the sentinel where the event is not about one.
pub open spec fn event_axis(event: EventType) -> Axis {
    match event {
        EventType::AxisChanged(axis, _, _) => axis,
        _ => Axis::Unknown,
    }
}

/// The input code of an event, where it has one.
pub open spec fn event_code(event: EventType) -> Option<Code> {
    match event {
        EventType::ButtonPressed(_, code) => Some(code),
        EventType::ButtonRepeated(_, code) => Some(code),
        EventType::ButtonReleased(_, code) => Some(code),
        EventType::ButtonChanged(_, _, code) => Some(code),
        EventType::AxisChanged(_, _, code) => Some(code),
        _ => None,
    }
}

/// The numeric value of an event, widened to double precision, where it has
/// one.
pub open spec fn event_value(event: EventType) -> Option<Double> {
    match event {
        EventType::ButtonChanged(_, value, _) => Some(widened(value)),
        EventType::AxisChanged(_, value, _) => Some(widened(value)),
        _ => None,
    }
}

/// The record that flattening an event yields.
pub open spec fn flatten_event(incoming: Event) -> EventRecord {
    EventRecord {
        message: event_tag(incoming.event),
        gamepad: incoming.id,
        button: event_button(incoming.event),
        axis: event_axis(incoming.event),
        code: event_code(incoming.event),
        value: event_value(incoming.event),
        time: incoming.time,
    }
}

/// Flattened input event: one shape for every kind.
#[derive(Debug)]
pub struct EventWrapper {
    pub message: String,
    pub gamepad: GamepadId,
    pub button: Button,
    pub axis: Axis,
    pub code: Option<Code>,
    pub value: Option<Double>,
    pub time: SystemTime,
}

impl View for EventWrapper {
    type V = EventRecord;

    open spec fn view(&self) -> EventRecord {
        EventRecord {
            message: self.message@,
            gamepad: self.gamepad,
            button: self.button,
            axis: self.axis,
            code: self.code,
            value: self.value,
            time: self.time,
        }
    }
}

impl EventWrapper {
    /// The tag of the event's kind.
    pub fn message(&self) -> (tag: &str)
        ensures
            tag@ == self@.message,
    {
        self.message.as_str()
    }

    /// The gamepad the event came from.
    pub fn gamepad(&self) -> (id: GamepadId)
        ensures
            id == self@.gamepad,
    {
        self.gamepad
    }

    /// The button, or the sentinel.
    pub fn button(&self) -> (button: Button)
        ensures
            button == self@.button,
    {
        self.button
    }

    /// The axis, or the sentinel.
    pub fn axis(&self) -> (axis: Axis)
        ensures
            axis == self@.axis,
    {
        self.axis
    }

    /// The input code, where the event has one.
    pub fn code(&self) -> (code: Option<Code>)
        ensures
            code == self@.code,
    {
        self.code
    }

    /// The numeric value, where the event has one.
    pub fn value(&self) -> (value: Option<Double>)
        ensures
            value == self@.value,
    {
        self.value
    }

    /// The time the event was emitted.
    pub fn time(&self) -> (time: SystemTime)
        ensures
            time == self@.time,
    {
        self.time
    }

    /// Flattens an event into the uniform record.
    pub fn from(incoming: Event) -> (flat: EventWrapper)
        ensures
            flat@ == flatten_event(incoming),
    {
        match incoming.event {
            EventType::ButtonPressed(button, code) => EventWrapper {
                message: "button-pressed".to_owned(),
                gamepad: incoming.id,
                button,
                axis: Axis::Unknown,
                code: Some(code),
                value: None,
                time: incoming.time,
            },
            EventType::ButtonRepeated(button, code) => EventWrapper {
                message: "button-repeated".to_owned(),
                gamepad: incoming.id,
                button,
                axis: Axis::Unknown,
                code: Some(code),
                value: None,
                time: incoming.time,
            },
            EventType::ButtonReleased(button, code) => EventWrapper {
                message: "button-released".to_owned(),
                gamepad: incoming.id,
                button,
                axis: Axis::Unknown,
                code: Some(code),
                value: None,
                time: incoming.time,
            },
            EventType::ButtonChanged(button, value, code) => EventWrapper {
                message: "button-changed".to_owned(),
                gamepad: incoming.id,
                button,
                axis: Axis::Unknown,
                code: Some(code),
                value: Some(value.widen()),
                time: incoming.time,
            },
            EventType::AxisChanged(axis, value, code) => EventWrapper {
                message: "axis-changed".to_owned(),
                gamepad: incoming.id,
                button: Button::Unknown,
                axis,
                code: Some(code),
                value: Some(value.widen()),
                time: incoming.time,
            },
            EventType::Connected => EventWrapper {
                message: "connected".to_owned(),
                gamepad: incoming.id,
                button: Button::Unknown,
                axis: Axis::Unknown,
                code: None,
                value: None,
                time: incoming.time,
            },
            EventType::Disconnected => EventWrapper {
                message: "disconnected".to_owned(),
                gamepad: incoming.id,
                button: Button::Unknown,
                axis: Axis::Unknown,
                code: None,
                value: None,
                time: incoming.time,
            },
            EventType::Dropped => EventWrapper {
                message: "dropped".to_owned(),
                gamepad: incoming.id,
                button: Button::Unknown,
                axis: Axis::Unknown,
                code: None,
                value: None,
                time: incoming.time,
            },
        }
    }
}

/// A flattened event holds a numeric value exactly when its kind is one of
/// the two that report a change of value, and an input code exactly when
/// its kind is about a button or an axis; where the kind is about neither a
/// button nor an axis, the respective field is the sentinel.
pub proof fn lemma_event_fields_by_kind(incoming: Event)
    ensures
        flatten_event(incoming).value.is_some() <==> carries_value(incoming.event),
        flatten_event(incoming).code.is_some() <==> (concerns_button(incoming.event)
            || concerns_axis(incoming.event)),
        !concerns_button(incoming.event) ==> flatten_event(incoming).button == Button::Unknown,
        !concerns_axis(incoming.event) ==> flatten_event(incoming).axis == Axis::Unknown,
{
}

/// For an event that names a known button or axis, the button field is the
/// sentinel exactly when the kind is not about a button, and the axis field
/// exactly when it is not about an axis.
pub proof fn lemma_event_sentinels_exact(incoming: Event)
    requires
        concerns_button(incoming.event) ==> event_button(incoming.event) != Button::Unknown,
        concerns_axis(incoming.event) ==> event_axis(incoming.event) != Axis::Unknown,
    ensures
        flatten_event(incoming).button == Button::Unknown <==> !concerns_button(incoming.event),
        flatten_event(incoming).axis == Axis::Unknown <==> !concerns_axis(incoming.event),
{
}

/// The tag of a flattened event tells its kind: events with the same tag
/// are of the same variant.
pub proof fn lemma_event_tag_identifies_kind(a: EventType, b: EventType)
    requires
        event_tag(a) == event_tag(b),
    ensures
        a is ButtonPressed <==> b is ButtonPressed,
        a is ButtonRepeated <==> b is ButtonRepeated,
        a is ButtonReleased <==> b is ButtonReleased,
        a is ButtonChanged <==> b is ButtonChanged,
        a is AxisChanged <==> b is AxisChanged,
        a is Connected <==> b is Connected,
        a is Disconnected <==> b is Disconnected,
        a is Dropped <==> b is Dropped,
{
    lemma_event_tags_distinct();
}

/// The eight tags are pairwise different.
proof fn lemma_event_tags_distinct()
    ensures
        "button-pressed"@.len() == 14,
        "button-repeated"@.len() == 15,
        "button-released"@.len() == 15,
        "button-changed"@.len() == 14,
        "axis-changed"@.len() == 12,
        "connected"@.len() == 9,
        "disconnected"@.len() == 12,
        "dropped"@.len() == 7,
        "button-pressed"@ != "button-changed"@,
        "button-repeated"@ != "button-released"@,
        "axis-changed"@ != "disconnected"@,
{
    reveal_strlit("button-pressed");
    reveal_strlit("button-repeated");
    reveal_strlit("button-released");
    reveal_strlit("button-changed");
    reveal_strlit("axis-changed");
    reveal_strlit("connected");
    reveal_strlit("disconnected");
    reveal_strlit("dropped");
    assert("button-pressed"@[7] == 'p' && "button-changed"@[7] == 'c');
    assert("button-repeated"@[9] == 'p' && "button-released"@[9] == 'l');
    assert("axis-changed"@[0] == 'a' && "disconnected"@[0] == 'd');
}

} // verus!
