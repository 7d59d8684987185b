use jgilrs::{Axis, Button, Code, Double, Event, EventType, EventWrapper, GamepadId, Single};
use std::time::{Duration, SystemTime};

fn moment() -> SystemTime {
    SystemTime::UNIX_EPOCH + Duration::from_millis(1_600_000_000_123)
}

fn event(kind: EventType) -> Event {
    Event { id: GamepadId(3), event: kind, time: moment() }
}

fn single(value: f32) -> Single {
    Single::from_bits(value.to_bits())
}

fn as_number(value: Option<Double>) -> Option<f64> {
    value.map(|wide| f64::from_bits(wide.to_bits()))
}

#[test]
fn button_pressed_flattens() {
    let flat = EventWrapper::from(event(EventType::ButtonPressed(Button::South, Code(304))));
    assert_eq!(flat.message(), "button-pressed");
    assert_eq!(flat.gamepad(), GamepadId(3));
    assert_eq!(flat.button(), Button::South);
    assert_eq!(flat.axis(), Axis::Unknown);
    assert_eq!(flat.code(), Some(Code(304)));
    assert_eq!(flat.value(), None);
    assert_eq!(flat.time(), moment());
}

#[test]
fn button_repeated_flattens() {
    let flat = EventWrapper::from(event(EventType::ButtonRepeated(Button::DPadUp, Code(17))));
    assert_eq!(flat.message(), "button-repeated");
    assert_eq!(flat.gamepad(), GamepadId(3));
    assert_eq!(flat.button(), Button::DPadUp);
    assert_eq!(flat.axis(), Axis::Unknown);
    assert_eq!(flat.code(), Some(Code(17)));
    assert_eq!(flat.value(), None);
    assert_eq!(flat.time(), moment());
}

#[test]
fn button_released_flattens() {
    let flat = EventWrapper::from(event(EventType::ButtonReleased(Button::Start, Code(315))));
    assert_eq!(flat.message(), "button-released");
    assert_eq!(flat.gamepad(), GamepadId(3));
    assert_eq!(flat.button(), Button::Start);
    assert_eq!(flat.axis(), Axis::Unknown);
    assert_eq!(flat.code(), Some(Code(315)));
    assert_eq!(flat.value(), None);
    assert_eq!(flat.time(), moment());
}

#[test]
fn button_changed_flattens_with_its_value() {
    let flat = EventWrapper::from(event(EventType::ButtonChanged(
        Button::LeftTrigger2,
        single(0.73),
        Code(312),
    )));
    assert_eq!(flat.message(), "button-changed");
    assert_eq!(flat.gamepad(), GamepadId(3));
    assert_eq!(flat.button(), Button::LeftTrigger2);
    assert_eq!(flat.axis(), Axis::Unknown);
    assert_eq!(flat.code(), Some(Code(312)));
    assert_eq!(as_number(flat.value()), Some(0.73f32 as f64));
    assert_eq!(flat.time(), moment());
}

#[test]
fn button_changed_value_is_widened_not_rounded_again() {
    let flat = EventWrapper::from(event(EventType::ButtonChanged(
        Button::South,
        single(0.73),
        Code(1),
    )));
    let value = as_number(flat.value()).unwrap();
    assert_eq!(value, 0.7300000190734863f64);
    assert_ne!(value, 0.73f64);
    assert_eq!(flat.value().unwrap().to_bits(), (0.73f32 as f64).to_bits());
}

#[test]
fn axis_changed_flattens_with_its_value() {
    let flat = EventWrapper::from(event(EventType::AxisChanged(
        Axis::LeftStickX,
        single(-0.25),
        Code(0),
    )));
    assert_eq!(flat.message(), "axis-changed");
    assert_eq!(flat.gamepad(), GamepadId(3));
    assert_eq!(flat.button(), Button::Unknown);
    assert_eq!(flat.axis(), Axis::LeftStickX);
    assert_eq!(flat.code(), Some(Code(0)));
    assert_eq!(as_number(flat.value()), Some(-0.25f64));
    assert_eq!(flat.time(), moment());
}

#[test]
fn connected_flattens_without_element_code_or_value() {
    let flat = EventWrapper::from(event(EventType::Connected));
    assert_eq!(flat.message(), "connected");
    assert_eq!(flat.gamepad(), GamepadId(3));
    assert_eq!(flat.button(), Button::Unknown);
    assert_eq!(flat.axis(), Axis::Unknown);
    assert_eq!(flat.code(), None);
    assert_eq!(flat.value(), None);
    assert_eq!(flat.time(), moment());
}

#[test]
fn disconnected_flattens_without_element_code_or_value() {
    let flat = EventWrapper::from(event(EventType::Disconnected));
    assert_eq!(flat.message(), "disconnected");
    assert_eq!(flat.gamepad(), GamepadId(3));
    assert_eq!(flat.button(), Button::Unknown);
    assert_eq!(flat.axis(), Axis::Unknown);
    assert_eq!(flat.code(), None);
    assert_eq!(flat.value(), None);
    assert_eq!(flat.time(), moment());
}

#[test]
fn dropped_flattens_without_element_code_or_value() {
    let flat = EventWrapper::from(event(EventType::Dropped));
    assert_eq!(flat.message(), "dropped");
    assert_eq!(flat.gamepad(), GamepadId(3));
    assert_eq!(flat.button(), Button::Unknown);
    assert_eq!(flat.axis(), Axis::Unknown);
    assert_eq!(flat.code(), None);
    assert_eq!(flat.value(), None);
    assert_eq!(flat.time(), moment());
}

#[test]
fn value_is_present_only_for_the_two_changed_kinds() {
    let code = Code(9);
    let kinds = vec![
        (EventType::ButtonPressed(Button::East, code), false),
        (EventType::ButtonRepeated(Button::East, code), false),
        (EventType::ButtonReleased(Button::East, code), false),
        (EventType::ButtonChanged(Button::East, single(1.0), code), true),
        (EventType::AxisChanged(Axis::RightZ, single(1.0), code), true),
        (EventType::Connected, false),
        (EventType::Disconnected, false),
        (EventType::Dropped, false),
    ];
    for (kind, present) in kinds {
        assert_eq!(EventWrapper::from(event(kind)).value().is_some(), present);
    }
}

#[test]
fn sentinels_stand_exactly_where_the_kind_has_no_element() {
    let code = Code(9);
    let kinds = vec![
        (EventType::ButtonPressed(Button::West, code), true, false),
        (EventType::ButtonRepeated(Button::West, code), true, false),
        (EventType::ButtonReleased(Button::West, code), true, false),
        (EventType::ButtonChanged(Button::West, single(0.5), code), true, false),
        (EventType::AxisChanged(Axis::DPadY, single(0.5), code), false, true),
        (EventType::Connected, false, false),
        (EventType::Disconnected, false, false),
        (EventType::Dropped, false, false),
    ];
    for (kind, has_button, has_axis) in kinds {
        let flat = EventWrapper::from(event(kind));
        assert_eq!(flat.button() != Button::Unknown, has_button);
        assert_eq!(flat.axis() != Axis::Unknown, has_axis);
        assert_eq!(flat.code().is_some(), has_button || has_axis);
    }
}

#[test]
fn an_event_that_reports_the_unknown_button_keeps_it() {
    let flat = EventWrapper::from(event(EventType::ButtonPressed(Button::Unknown, Code(700))));
    assert_eq!(flat.message(), "button-pressed");
    assert_eq!(flat.button(), Button::Unknown);
    assert_eq!(flat.code(), Some(Code(700)));
}

#[test]
fn event_tags_are_pairwise_different() {
    let code = Code(1);
    let tags = vec![
        EventWrapper::from(event(EventType::ButtonPressed(Button::C, code))).message,
        EventWrapper::from(event(EventType::ButtonRepeated(Button::C, code))).message,
        EventWrapper::from(event(EventType::ButtonReleased(Button::C, code))).message,
        EventWrapper::from(event(EventType::ButtonChanged(Button::C, single(0.0), code))).message,
        EventWrapper::from(event(EventType::AxisChanged(Axis::LeftZ, single(0.0), code))).message,
        EventWrapper::from(event(EventType::Connected)).message,
        EventWrapper::from(event(EventType::Disconnected)).message,
        EventWrapper::from(event(EventType::Dropped)).message,
    ];
    for (i, a) in tags.iter().enumerate() {
        for (j, b) in tags.iter().enumerate() {
            assert_eq!(i == j, a == b);
        }
    }
}

#[test]
fn every_button_and_axis_passes_through() {
    let buttons = vec![
        Button::South,
        Button::East,
        Button::North,
        Button::West,
        Button::C,
        Button::Z,
        Button::LeftTrigger,
        Button::LeftTrigger2,
        Button::RightTrigger,
        Button::RightTrigger2,
        Button::Select,
        Button::Start,
        Button::Mode,
        Button::LeftThumb,
        Button::RightThumb,
        Button::DPadUp,
        Button::DPadDown,
        Button::DPadLeft,
        Button::DPadRight,
        Button::Unknown,
    ];
    for button in buttons {
        let flat = EventWrapper::from(event(EventType::ButtonReleased(button, Code(2))));
        assert_eq!(flat.button(), button);
    }
    let axes = vec![
        Axis::LeftStickX,
        Axis::LeftStickY,
        Axis::LeftZ,
        Axis::RightStickX,
        Axis::RightStickY,
        Axis::RightZ,
        Axis::DPadX,
        Axis::DPadY,
        Axis::Unknown,
    ];
    for axis in axes {
        let flat = EventWrapper::from(event(EventType::AxisChanged(axis, single(0.0), Code(2))));
        assert_eq!(flat.axis(), axis);
    }
}

#[test]
fn the_gamepad_and_the_time_are_those_of_the_event() {
    let earlier = SystemTime::UNIX_EPOCH;
    let first = EventWrapper::from(Event {
        id: GamepadId(0),
        event: EventType::Connected,
        time: earlier,
    });
    let second = EventWrapper::from(Event {
        id: GamepadId(usize::MAX),
        event: EventType::Connected,
        time: moment(),
    });
    assert_eq!(first.gamepad(), GamepadId(0));
    assert_eq!(first.time(), earlier);
    assert_eq!(second.gamepad(), GamepadId(usize::MAX));
    assert_eq!(second.time(), moment());
    assert_ne!(first.time(), second.time());
}
