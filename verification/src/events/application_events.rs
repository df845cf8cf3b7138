//! Events of the application's life cycle.

use crate::events::event::{category_flags, Event, EventData, EventType};
use std::path::PathBuf;
use vstd::prelude::*;

verus! {

/// One tick of the application clock.
#[derive(Debug, PartialEq)]
pub struct AppTickEvent {
    event_type: EventType,
    category_flags: u32,
    msg: String,
    handled: bool,
}

impl AppTickEvent {
    #[verifier::type_invariant]
    spec fn well_formed(self) -> bool {
        &&& self.event_type == EventType::AppTick
        &&& self.category_flags == category_flags(EventType::AppTick)
    }

    pub fn new(message: String) -> (event: AppTickEvent)
        ensures
            event.message() == message@,
            event.payload() is None,
            !event.handled(),
    {
        AppTickEvent {
            event_type: EventType::AppTick,
            category_flags: EventType::AppTick.category_flags(),
            msg: message,
            handled: false,
        }
    }
}

impl Event for AppTickEvent {
    open spec fn kind() -> EventType {
        EventType::AppTick
    }

    open spec fn payload(&self) -> Option<EventData> {
        None
    }

    closed spec fn message(&self) -> Seq<char> {
        self.msg@
    }

    closed spec fn handled(&self) -> bool {
        self.handled
    }

    fn static_type() -> (t: EventType) {
        EventType::AppTick
    }

    fn get_event_type(&self) -> (t: EventType) {
        proof {
            use_type_invariant(self);
        }
        self.event_type
    }

    fn get_category_flags(&self) -> (flags: u32) {
        proof {
            use_type_invariant(self);
        }
        self.category_flags
    }

    fn get_msg(&self) -> (msg: &String) {
        &self.msg
    }

    fn get_data(&self) -> (data: Option<&EventData>) {
        None
    }

    fn get_handled(&self) -> (handled: bool) {
        self.handled
    }

    proof fn lemma_payload_fits(&self) {
    }

    fn set_handled(&mut self, handled: bool) {
        proof {
            use_type_invariant(&*self);
        }
        self.handled = handled;
    }
}

/// The application is about to update its state.
#[derive(Debug, PartialEq)]
pub struct AppUpdateEvent {
    event_type: EventType,
    category_flags: u32,
    msg: String,
    handled: bool,
}

impl AppUpdateEvent {
    #[verifier::type_invariant]
    spec fn well_formed(self) -> bool {
        &&& self.event_type == EventType::AppUpdate
        &&& self.category_flags == category_flags(EventType::AppUpdate)
    }

    pub fn new(message: String) -> (event: AppUpdateEvent)
        ensures
            event.message() == message@,
            event.payload() is None,
            !event.handled(),
    {
        AppUpdateEvent {
            event_type: EventType::AppUpdate,
            category_flags: EventType::AppUpdate.category_flags(),
            msg: message,
            handled: false,
        }
    }
}

impl Event for AppUpdateEvent {
    open spec fn kind() -> EventType {
        EventType::AppUpdate
    }

    open spec fn payload(&self) -> Option<EventData> {
        None
    }

    closed spec fn message(&self) -> Seq<char> {
        self.msg@
    }

    closed spec fn handled(&self) -> bool {
        self.handled
    }

    fn static_type() -> (t: EventType) {
        EventType::AppUpdate
    }

    fn get_event_type(&self) -> (t: EventType) {
        proof {
            use_type_invariant(self);
        }
        self.event_type
    }

    fn get_category_flags(&self) -> (flags: u32) {
        proof {
            use_type_invariant(self);
        }
        self.category_flags
    }

    fn get_msg(&self) -> (msg: &String) {
        &self.msg
    }

    fn get_data(&self) -> (data: Option<&EventData>) {
        None
    }

    fn get_handled(&self) -> (handled: bool) {
        self.handled
    }

    proof fn lemma_payload_fits(&self) {
    }

    fn set_handled(&mut self, handled: bool) {
        proof {
            use_type_invariant(&*self);
        }
        self.handled = handled;
    }
}

/// The application is about to render a frame.
#[derive(Debug, PartialEq)]
pub struct AppRenderEvent {
    event_type: EventType,
    category_flags: u32,
    msg: String,
    handled: bool,
}

impl AppRenderEvent {
    #[verifier::type_invariant]
    spec fn well_formed(self) -> bool {
        &&& self.event_type == EventType::AppRender
        &&& self.category_flags == category_flags(EventType::AppRender)
    }

    pub fn new(message: String) -> (event: AppRenderEvent)
        ensures
            event.message() == message@,
            event.payload() is None,
            !event.handled(),
    {
        AppRenderEvent {
            event_type: EventType::AppRender,
            category_flags: EventType::AppRender.category_flags(),
            msg: message,
            handled: false,
        }
    }
}

impl Event for AppRenderEvent {
    open spec fn kind() -> EventType {
        EventType::AppRender
    }

    open spec fn payload(&self) -> Option<EventData> {
        None
    }

    closed spec fn message(&self) -> Seq<char> {
        self.msg@
    }

    closed spec fn handled(&self) -> bool {
        self.handled
    }

    fn static_type() -> (t: EventType) {
        EventType::AppRender
    }

    fn get_event_type(&self) -> (t: EventType) {
        proof {
            use_type_invariant(self);
        }
        self.event_type
    }

    fn get_category_flags(&self) -> (flags: u32) {
        proof {
            use_type_invariant(self);
        }
        self.category_flags
    }

    fn get_msg(&self) -> (msg: &String) {
        &self.msg
    }

    fn get_data(&self) -> (data: Option<&EventData>) {
        None
    }

    fn get_handled(&self) -> (handled: bool) {
        self.handled
    }

    proof fn lemma_payload_fits(&self) {
    }

    fn set_handled(&mut self, handled: bool) {
        proof {
            use_type_invariant(&*self);
        }
        self.handled = handled;
    }
}

/// Files were dropped onto the window.
#[derive(Debug, PartialEq)]
pub struct AppFileDroppedEvent {
    event_type: EventType,
    category_flags: u32,
    msg: String,
    data: EventData,
    handled: bool,
}

impl AppFileDroppedEvent {
    #[verifier::type_invariant]
    spec fn well_formed(self) -> bool {
        &&& self.event_type == EventType::AppFileDropped
        &&& self.category_flags == category_flags(EventType::AppFileDropped)
        &&& self.data matches EventData::PathBufs(_, kind) && kind == EventType::AppFileDropped
    }

    pub fn new(message: String, paths: Vec<PathBuf>) -> (event: AppFileDroppedEvent)
        ensures
            event.message() == message@,
            event.payload() == Some(EventData::PathBufs(paths, EventType::AppFileDropped)),
            !event.handled(),
    {
        AppFileDroppedEvent {
            event_type: EventType::AppFileDropped,
            category_flags: EventType::AppFileDropped.category_flags(),
            msg: message,
            data: EventData::PathBufs(paths, EventType::AppFileDropped),
            handled: false,
        }
    }
}

impl Event for AppFileDroppedEvent {
    open spec fn kind() -> EventType {
        EventType::AppFileDropped
    }

    closed spec fn payload(&self) -> Option<EventData> {
        Some(
            match self.data {
                EventData::PathBufs(v0, _) => EventData::PathBufs(v0, EventType::AppFileDropped),
                _ => EventData::PathBufs(arbitrary(), EventType::AppFileDropped),
            },
        )
    }

    closed spec fn message(&self) -> Seq<char> {
        self.msg@
    }

    closed spec fn handled(&self) -> bool {
        self.handled
    }

    fn static_type() -> (t: EventType) {
        EventType::AppFileDropped
    }

    fn get_event_type(&self) -> (t: EventType) {
        proof {
            use_type_invariant(self);
        }
        self.event_type
    }

    fn get_category_flags(&self) -> (flags: u32) {
        proof {
            use_type_invariant(self);
        }
        self.category_flags
    }

    fn get_msg(&self) -> (msg: &String) {
        &self.msg
    }

    fn get_data(&self) -> (data: Option<&EventData>) {
        proof {
            use_type_invariant(self);
        }
        Some(&self.data)
    }

    fn get_handled(&self) -> (handled: bool) {
        self.handled
    }

    proof fn lemma_payload_fits(&self) {
    }

    fn set_handled(&mut self, handled: bool) {
        proof {
            use_type_invariant(&*self);
        }
        self.handled = handled;
    }
}

} // verus!
