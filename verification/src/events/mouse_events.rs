//! Mouse events.

use crate::events::event::{category_flags, Event, EventData, EventType};
use vstd::prelude::*;

verus! {

/// A mouse button went down.
#[derive(Debug, PartialEq)]
pub struct MouseButtonPressedEvent {
    event_type: EventType,
    category_flags: u32,
    msg: String,
    data: EventData,
    handled: bool,
}

impl MouseButtonPressedEvent {
    #[verifier::type_invariant]
    spec fn well_formed(self) -> bool {
        &&& self.event_type == EventType::MouseButtonPressed
        &&& self.category_flags == category_flags(EventType::MouseButtonPressed)
        &&& self.data matches EventData::I32p(_, _, kind) && kind == EventType::MouseButtonPressed
    }

    pub fn new(message: String, button: i32, modifiers: i32) -> (event: MouseButtonPressedEvent)
        ensures
            event.message() == message@,
            event.payload() == Some(
                EventData::I32p(button, modifiers, EventType::MouseButtonPressed),
            ),
            !event.handled(),
    {
        MouseButtonPressedEvent {
            event_type: EventType::MouseButtonPressed,
            category_flags: EventType::MouseButtonPressed.category_flags(),
            msg: message,
            data: EventData::I32p(button, modifiers, EventType::MouseButtonPressed),
            handled: false,
        }
    }
}

impl Event for MouseButtonPressedEvent {
    open spec fn kind() -> EventType {
        EventType::MouseButtonPressed
    }

    closed spec fn payload(&self) -> Option<EventData> {
        Some(
            match self.data {
                EventData::I32p(v0, v1, _) => {
                    EventData::I32p(v0, v1, EventType::MouseButtonPressed)
                },
                _ => EventData::I32p(arbitrary(), arbitrary(), EventType::MouseButtonPressed),
            },
        )
    }

    closed spec fn message(&self) -> Seq<char> {
        self.msg@
    }

    closed spec fn handled(&self) -> bool {
        self.handled
    }

    fn static_type() -> (t: EventType) {
        EventType::MouseButtonPressed
    }

    fn get_event_type(&self) -> (t: EventType) {
        proof {
            use_type_invariant(self);
        }
        self.event_type
    }

    fn get_category_flags(&self) -> (flags: u32) {
        proof {
            use_type_invariant(self);
        }
        self.category_flags
    }

    fn get_msg(&self) -> (msg: &String) {
        &self.msg
    }

    fn get_data(&self) -> (data: Option<&EventData>) {
        proof {
            use_type_invariant(self);
        }
        Some(&self.data)
    }

    fn get_handled(&self) -> (handled: bool) {
        self.handled
    }

    proof fn lemma_payload_fits(&self) {
    }

    fn set_handled(&mut self, handled: bool) {
        proof {
            use_type_invariant(&*self);
        }
        self.handled = handled;
    }
}

/// A mouse button went up.
#[derive(Debug, PartialEq)]
pub struct MouseButtonReleasedEvent {
    event_type: EventType,
    category_flags: u32,
    msg: String,
    data: EventData,
    handled: bool,
}

impl MouseButtonReleasedEvent {
    #[verifier::type_invariant]
    spec fn well_formed(self) -> bool {
        &&& self.event_type == EventType::MouseButtonReleased
        &&& self.category_flags == category_flags(EventType::MouseButtonReleased)
        &&& self.data matches EventData::I32p(_, _, kind) && kind == EventType::MouseButtonReleased
    }

    pub fn new(message: String, button: i32, modifiers: i32) -> (event: MouseButtonReleasedEvent)
        ensures
            event.message() == message@,
            event.payload() == Some(
                EventData::I32p(button, modifiers, EventType::MouseButtonReleased),
            ),
            !event.handled(),
    {
        MouseButtonReleasedEvent {
            event_type: EventType::MouseButtonReleased,
            category_flags: EventType::MouseButtonReleased.category_flags(),
            msg: message,
            data: EventData::I32p(button, modifiers, EventType::MouseButtonReleased),
            handled: false,
        }
    }
}

impl Event for MouseButtonReleasedEvent {
    open spec fn kind() -> EventType {
        EventType::MouseButtonReleased
    }

    closed spec fn payload(&self) -> Option<EventData> {
        Some(
            match self.data {
                EventData::I32p(v0, v1, _) => {
                    EventData::I32p(v0, v1, EventType::MouseButtonReleased)
                },
                _ => EventData::I32p(arbitrary(), arbitrary(), EventType::MouseButtonReleased),
            },
        )
    }

    closed spec fn message(&self) -> Seq<char> {
        self.msg@
    }

    closed spec fn handled(&self) -> bool {
        self.handled
    }

    fn static_type() -> (t: EventType) {
        EventType::MouseButtonReleased
    }

    fn get_event_type(&self) -> (t: EventType) {
        proof {
            use_type_invariant(self);
        }
        self.event_type
    }

    fn get_category_flags(&self) -> (flags: u32) {
        proof {
            use_type_invariant(self);
        }
        self.category_flags
    }

    fn get_msg(&self) -> (msg: &String) {
        &self.msg
    }

    fn get_data(&self) -> (data: Option<&EventData>) {
        proof {
            use_type_invariant(self);
        }
        Some(&self.data)
    }

    fn get_handled(&self) -> (handled: bool) {
        self.handled
    }

    proof fn lemma_payload_fits(&self) {
    }

    fn set_handled(&mut self, handled: bool) {
        proof {
            use_type_invariant(&*self);
        }
        self.handled = handled;
    }
}

/// The cursor entered the window.
#[derive(Debug, PartialEq)]
pub struct MouseEnteredEvent {
    event_type: EventType,
    category_flags: u32,
    msg: String,
    handled: bool,
}

impl MouseEnteredEvent {
    #[verifier::type_invariant]
    spec fn well_formed(self) -> bool {
        &&& self.event_type == EventType::MouseEntered
        &&& self.category_flags == category_flags(EventType::MouseEntered)
    }

    pub fn new(message: String) -> (event: MouseEnteredEvent)
        ensures
            event.message() == message@,
            event.payload() is None,
            !event.handled(),
    {
        MouseEnteredEvent {
            event_type: EventType::MouseEntered,
            category_flags: EventType::MouseEntered.category_flags(),
            msg: message,
            handled: false,
        }
    }
}

impl Event for MouseEnteredEvent {
    open spec fn kind() -> EventType {
        EventType::MouseEntered
    }

    open spec fn payload(&self) -> Option<EventData> {
        None
    }

    closed spec fn message(&self) -> Seq<char> {
        self.msg@
    }

    closed spec fn handled(&self) -> bool {
        self.handled
    }

    fn static_type() -> (t: EventType) {
        EventType::MouseEntered
    }

    fn get_event_type(&self) -> (t: EventType) {
        proof {
            use_type_invariant(self);
        }
        self.event_type
    }

    fn get_category_flags(&self) -> (flags: u32) {
        proof {
            use_type_invariant(self);
        }
        self.category_flags
    }

    fn get_msg(&self) -> (msg: &String) {
        &self.msg
    }

    fn get_data(&self) -> (data: Option<&EventData>) {
        None
    }

    fn get_handled(&self) -> (handled: bool) {
        self.handled
    }

    proof fn lemma_payload_fits(&self) {
    }

    fn set_handled(&mut self, handled: bool) {
        proof {
            use_type_invariant(&*self);
        }
        self.handled = handled;
    }
}

/// The cursor moved. The coordinates are `f32` bit patterns.
#[derive(Debug, PartialEq)]
pub struct MouseMovedEvent {
    event_type: EventType,
    category_flags: u32,
    msg: String,
    data: EventData,
    handled: bool,
}

impl MouseMovedEvent {
    #[verifier::type_invariant]
    spec fn well_formed(self) -> bool {
        &&& self.event_type == EventType::MouseMoved
        &&& self.category_flags == category_flags(EventType::MouseMoved)
        &&& self.data matches EventData::F32p(_, _, kind) && kind == EventType::MouseMoved
    }

    pub fn new(message: String, x: u32, y: u32) -> (event: MouseMovedEvent)
        ensures
            event.message() == message@,
            event.payload() == Some(EventData::F32p(x, y, EventType::MouseMoved)),
            !event.handled(),
    {
        MouseMovedEvent {
            event_type: EventType::MouseMoved,
            category_flags: EventType::MouseMoved.category_flags(),
            msg: message,
            data: EventData::F32p(x, y, EventType::MouseMoved),
            handled: false,
        }
    }
}

impl Event for MouseMovedEvent {
    open spec fn kind() -> EventType {
        EventType::MouseMoved
    }

    closed spec fn payload(&self) -> Option<EventData> {
        Some(
            match self.data {
                EventData::F32p(v0, v1, _) => EventData::F32p(v0, v1, EventType::MouseMoved),
                _ => EventData::F32p(arbitrary(), arbitrary(), EventType::MouseMoved),
            },
        )
    }

    closed spec fn message(&self) -> Seq<char> {
        self.msg@
    }

    closed spec fn handled(&self) -> bool {
        self.handled
    }

    fn static_type() -> (t: EventType) {
        EventType::MouseMoved
    }

    fn get_event_type(&self) -> (t: EventType) {
        proof {
            use_type_invariant(self);
        }
        self.event_type
    }

    fn get_category_flags(&self) -> (flags: u32) {
        proof {
            use_type_invariant(self);
        }
        self.category_flags
    }

    fn get_msg(&self) -> (msg: &String) {
        &self.msg
    }

    fn get_data(&self) -> (data: Option<&EventData>) {
        proof {
            use_type_invariant(self);
        }
        Some(&self.data)
    }

    fn get_handled(&self) -> (handled: bool) {
        self.handled
    }

    proof fn lemma_payload_fits(&self) {
    }

    fn set_handled(&mut self, handled: bool) {
        proof {
            use_type_invariant(&*self);
        }
        self.handled = handled;
    }
}

/// The wheel was turned. The offsets are `f32` bit patterns.
#[derive(Debug, PartialEq)]
pub struct MouseScrolledEvent {
    event_type: EventType,
    category_flags: u32,
    msg: String,
    data: EventData,
    handled: bool,
}

impl MouseScrolledEvent {
    #[verifier::type_invariant]
    spec fn well_formed(self) -> bool {
        &&& self.event_type == EventType::MouseScrolled
        &&& self.category_flags == category_flags(EventType::MouseScrolled)
        &&& self.data matches EventData::F32p(_, _, kind) && kind == EventType::MouseScrolled
    }

    pub fn new(message: String, x: u32, y: u32) -> (event: MouseScrolledEvent)
        ensures
            event.message() == message@,
            event.payload() == Some(EventData::F32p(x, y, EventType::MouseScrolled)),
            !event.handled(),
    {
        MouseScrolledEvent {
            event_type: EventType::MouseScrolled,
            category_flags: EventType::MouseScrolled.category_flags(),
            msg: message,
            data: EventData::F32p(x, y, EventType::MouseScrolled),
            handled: false,
        }
    }
}

impl Event for MouseScrolledEvent {
    open spec fn kind() -> EventType {
        EventType::MouseScrolled
    }

    closed spec fn payload(&self) -> Option<EventData> {
        Some(
            match self.data {
                EventData::F32p(v0, v1, _) => EventData::F32p(v0, v1, EventType::MouseScrolled),
                _ => EventData::F32p(arbitrary(), arbitrary(), EventType::MouseScrolled),
            },
        )
    }

    closed spec fn message(&self) -> Seq<char> {
        self.msg@
    }

    closed spec fn handled(&self) -> bool {
        self.handled
    }

    fn static_type() -> (t: EventType) {
        EventType::MouseScrolled
    }

    fn get_event_type(&self) -> (t: EventType) {
        proof {
            use_type_invariant(self);
        }
        self.event_type
    }

    fn get_category_flags(&self) -> (flags: u32) {
        proof {
            use_type_invariant(self);
        }
        self.category_flags
    }

    fn get_msg(&self) -> (msg: &String) {
        &self.msg
    }

    fn get_data(&self) -> (data: Option<&EventData>) {
        proof {
            use_type_invariant(self);
        }
        Some(&self.data)
    }

    fn get_handled(&self) -> (handled: bool) {
        self.handled
    }

    proof fn lemma_payload_fits(&self) {
    }

    fn set_handled(&mut self, handled: bool) {
        proof {
            use_type_invariant(&*self);
        }
        self.handled = handled;
    }
}

} // verus!
