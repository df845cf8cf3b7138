//! Keyboard events.

use crate::events::event::{category_flags, Event, EventData, EventType};
use vstd::prelude::*;

verus! {

/// A key went down.
#[derive(Debug, PartialEq)]
pub struct KeyPressedEvent {
    event_type: EventType,
    category_flags: u32,
    msg: String,
    data: EventData,
    handled: bool,
}

impl KeyPressedEvent {
    #[verifier::type_invariant]
    spec fn well_formed(self) -> bool {
        &&& self.event_type == EventType::KeyPressed
        &&& self.category_flags == category_flags(EventType::KeyPressed)
        &&& self.data matches EventData::I32p(_, _, kind) && kind == EventType::KeyPressed
    }

    pub fn new(message: String, keycode: i32, modifiers: i32) -> (event: KeyPressedEvent)
        ensures
            event.message() == message@,
            event.payload() == Some(EventData::I32p(keycode, modifiers, EventType::KeyPressed)),
            !event.handled(),
    {
        KeyPressedEvent {
            event_type: EventType::KeyPressed,
            category_flags: EventType::KeyPressed.category_flags(),
            msg: message,
            data: EventData::I32p(keycode, modifiers, EventType::KeyPressed),
            handled: false,
        }
    }
}

impl Event for KeyPressedEvent {
    open spec fn kind() -> EventType {
        EventType::KeyPressed
    }

    closed spec fn payload(&self) -> Option<EventData> {
        Some(
            match self.data {
                EventData::I32p(v0, v1, _) => EventData::I32p(v0, v1, EventType::KeyPressed),
                _ => EventData::I32p(arbitrary(), arbitrary(), EventType::KeyPressed),
            },
        )
    }

    closed spec fn message(&self) -> Seq<char> {
        self.msg@
    }

    closed spec fn handled(&self) -> bool {
        self.handled
    }

    fn static_type() -> (t: EventType) {
        EventType::KeyPressed
    }

    fn get_event_type(&self) -> (t: EventType) {
        proof {
            use_type_invariant(self);
        }
        self.event_type
    }

    fn get_category_flags(&self) -> (flags: u32) {
        proof {
            use_type_invariant(self);
        }
        self.category_flags
    }

    fn get_msg(&self) -> (msg: &String) {
        &self.msg
    }

    fn get_data(&self) -> (data: Option<&EventData>) {
        proof {
            use_type_invariant(self);
        }
        Some(&self.data)
    }

    fn get_handled(&self) -> (handled: bool) {
        self.handled
    }

    proof fn lemma_payload_fits(&self) {
    }

    fn set_handled(&mut self, handled: bool) {
        proof {
            use_type_invariant(&*self);
        }
        self.handled = handled;
    }
}

/// A key went up.
#[derive(Debug, PartialEq)]
pub struct KeyReleasedEvent {
    event_type: EventType,
    category_flags: u32,
    msg: String,
    data: EventData,
    handled: bool,
}

impl KeyReleasedEvent {
    #[verifier::type_invariant]
    spec fn well_formed(self) -> bool {
        &&& self.event_type == EventType::KeyReleased
        &&& self.category_flags == category_flags(EventType::KeyReleased)
        &&& self.data matches EventData::I32p(_, _, kind) && kind == EventType::KeyReleased
    }

    pub fn new(message: String, keycode: i32, modifiers: i32) -> (event: KeyReleasedEvent)
        ensures
            event.message() == message@,
            event.payload() == Some(EventData::I32p(keycode, modifiers, EventType::KeyReleased)),
            !event.handled(),
    {
        KeyReleasedEvent {
            event_type: EventType::KeyReleased,
            category_flags: EventType::KeyReleased.category_flags(),
            msg: message,
            data: EventData::I32p(keycode, modifiers, EventType::KeyReleased),
            handled: false,
        }
    }
}

impl Event for KeyReleasedEvent {
    open spec fn kind() -> EventType {
        EventType::KeyReleased
    }

    closed spec fn payload(&self) -> Option<EventData> {
        Some(
            match self.data {
                EventData::I32p(v0, v1, _) => EventData::I32p(v0, v1, EventType::KeyReleased),
                _ => EventData::I32p(arbitrary(), arbitrary(), EventType::KeyReleased),
            },
        )
    }

    closed spec fn message(&self) -> Seq<char> {
        self.msg@
    }

    closed spec fn handled(&self) -> bool {
        self.handled
    }

    fn static_type() -> (t: EventType) {
        EventType::KeyReleased
    }

    fn get_event_type(&self) -> (t: EventType) {
        proof {
            use_type_invariant(self);
        }
        self.event_type
    }

    fn get_category_flags(&self) -> (flags: u32) {
        proof {
            use_type_invariant(self);
        }
        self.category_flags
    }

    fn get_msg(&self) -> (msg: &String) {
        &self.msg
    }

    fn get_data(&self) -> (data: Option<&EventData>) {
        proof {
            use_type_invariant(self);
        }
        Some(&self.data)
    }

    fn get_handled(&self) -> (handled: bool) {
        self.handled
    }

    proof fn lemma_payload_fits(&self) {
    }

    fn set_handled(&mut self, handled: bool) {
        proof {
            use_type_invariant(&*self);
        }
        self.handled = handled;
    }
}

/// A character was typed.
#[derive(Debug, PartialEq)]
pub struct TextInputEvent {
    event_type: EventType,
    category_flags: u32,
    msg: String,
    data: EventData,
    handled: bool,
}

impl TextInputEvent {
    #[verifier::type_invariant]
    spec fn well_formed(self) -> bool {
        &&& self.event_type == EventType::TextInput
        &&& self.category_flags == category_flags(EventType::TextInput)
        &&& self.data matches EventData::U32p(_, _, kind) && kind == EventType::TextInput
    }

    pub fn new(message: String, keycode: u32, modifiers: u32) -> (event: TextInputEvent)
        ensures
            event.message() == message@,
            event.payload() == Some(EventData::U32p(keycode, modifiers, EventType::TextInput)),
            !event.handled(),
    {
        TextInputEvent {
            event_type: EventType::TextInput,
            category_flags: EventType::TextInput.category_flags(),
            msg: message,
            data: EventData::U32p(keycode, modifiers, EventType::TextInput),
            handled: false,
        }
    }
}

impl Event for TextInputEvent {
    open spec fn kind() -> EventType {
        EventType::TextInput
    }

    closed spec fn payload(&self) -> Option<EventData> {
        Some(
            match self.data {
                EventData::U32p(v0, v1, _) => EventData::U32p(v0, v1, EventType::TextInput),
                _ => EventData::U32p(arbitrary(), arbitrary(), EventType::TextInput),
            },
        )
    }

    closed spec fn message(&self) -> Seq<char> {
        self.msg@
    }

    closed spec fn handled(&self) -> bool {
        self.handled
    }

    fn static_type() -> (t: EventType) {
        EventType::TextInput
    }

    fn get_event_type(&self) -> (t: EventType) {
        proof {
            use_type_invariant(self);
        }
        self.event_type
    }

    fn get_category_flags(&self) -> (flags: u32) {
        proof {
            use_type_invariant(self);
        }
        self.category_flags
    }

    fn get_msg(&self) -> (msg: &String) {
        &self.msg
    }

    fn get_data(&self) -> (data: Option<&EventData>) {
        proof {
            use_type_invariant(self);
        }
        Some(&self.data)
    }

    fn get_handled(&self) -> (handled: bool) {
        self.handled
    }

    proof fn lemma_payload_fits(&self) {
    }

    fn set_handled(&mut self, handled: bool) {
        proof {
            use_type_invariant(&*self);
        }
        self.handled = handled;
    }
}

} // verus!
