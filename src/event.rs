use vstd::prelude::*;

verus! {

/// The kinds of event that travel through the event channel.
#[derive(Debug, Clone, Copy, PartialEq, Eq, Structural)]
pub enum EventType {
    InputEvent,
}

/// The logical keys of the unit: five joystick directions and three buttons.
#[derive(Debug, Clone, Copy, PartialEq, Eq, Structural)]
pub enum InputKey {
    JoyUp,
    JoyDown,
    JoyLeft,
    JoyRight,
    JoyPress,
    Key1,
    Key2,
    Key3,
}

/// Payload of an input event.
#[derive(Debug, Clone, Copy, PartialEq, Eq, Structural)]
pub struct InputEventData {
    pub key: Option<InputKey>,
}

/// One event of the ordered event stream.
#[derive(Debug, Clone, Copy, PartialEq, Eq, Structural)]
pub struct Event {
    pub event_type: EventType,
    pub input_data: Option<InputEventData>,
}

/// The key an event carries, if it is an input event with a key.
pub open spec fn event_key(e: Event) -> Option<InputKey> {
    match e.input_data {
        Some(d) => if e.event_type == EventType::InputEvent { d.key } else { None },
        None => None,
    }
}

impl Event {
    /// The event raised by a rising edge on the line of `key`.
    pub fn new_input_event(key: InputKey) -> (r: Event)
        ensures
            r.event_type == EventType::InputEvent,
            r.input_data == Some(InputEventData { key: Some(key) }),
            event_key(r) == Some(key),
    {
        Event {
            event_type: EventType::InputEvent,
            input_data: Some(InputEventData { key: Some(key) }),
        }
    }
}

} // verus!
