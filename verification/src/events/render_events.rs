//! Events of the render surface.

use crate::events::event::{category_flags, Event, EventData, EventType};
use vstd::prelude::*;

verus! {

/// The framebuffer was resized. Width and height are `f32` bit patterns.
#[derive(Debug, PartialEq)]
pub struct RenderFramebufferResizeEvent {
    event_type: EventType,
    category_flags: u32,
    msg: String,
    data: EventData,
    handled: bool,
}

impl RenderFramebufferResizeEvent {
    #[verifier::type_invariant]
    spec fn well_formed(self) -> bool {
        &&& self.event_type == EventType::RenderFramebufferResize
        &&& self.category_flags == category_flags(EventType::RenderFramebufferResize)
        &&& self.data matches EventData::F32p(_, _, kind)
            && kind == EventType::RenderFramebufferResize
    }

    pub fn new(message: String, width: u32, height: u32) -> (event: RenderFramebufferResizeEvent)
        ensures
            event.message() == message@,
            event.payload() == Some(
                EventData::F32p(width, height, EventType::RenderFramebufferResize),
            ),
            !event.handled(),
    {
        RenderFramebufferResizeEvent {
            event_type: EventType::RenderFramebufferResize,
            category_flags: EventType::RenderFramebufferResize.category_flags(),
            msg: message,
            data: EventData::F32p(width, height, EventType::RenderFramebufferResize),
            handled: false,
        }
    }
}

impl Event for RenderFramebufferResizeEvent {
    open spec fn kind() -> EventType {
        EventType::RenderFramebufferResize
    }

    closed spec fn payload(&self) -> Option<EventData> {
        Some(
            match self.data {
                EventData::F32p(v0, v1, _) => {
                    EventData::F32p(v0, v1, EventType::RenderFramebufferResize)
                },
                _ => EventData::F32p(arbitrary(), arbitrary(), EventType::RenderFramebufferResize),
            },
        )
    }

    closed spec fn message(&self) -> Seq<char> {
        self.msg@
    }

    closed spec fn handled(&self) -> bool {
        self.handled
    }

    fn static_type() -> (t: EventType) {
        EventType::RenderFramebufferResize
    }

    fn get_event_type(&self) -> (t: EventType) {
        proof {
            use_type_invariant(self);
        }
        self.event_type
    }

    fn get_category_flags(&self) -> (flags: u32) {
        proof {
            use_type_invariant(self);
        }
        self.category_flags
    }

    fn get_msg(&self) -> (msg: &String) {
        &self.msg
    }

    fn get_data(&self) -> (data: Option<&EventData>) {
        proof {
            use_type_invariant(self);
        }
        Some(&self.data)
    }

    fn get_handled(&self) -> (handled: bool) {
        self.handled
    }

    proof fn lemma_payload_fits(&self) {
    }

    fn set_handled(&mut self, handled: bool) {
        proof {
            use_type_invariant(&*self);
        }
        self.handled = handled;
    }
}

/// The content scale changed. Both factors are `f32` bit patterns.
#[derive(Debug, PartialEq)]
pub struct RenderContentScaleResizeEvent {
    event_type: EventType,
    category_flags: u32,
    msg: String,
    data: EventData,
    handled: bool,
}

impl RenderContentScaleResizeEvent {
    #[verifier::type_invariant]
    spec fn well_formed(self) -> bool {
        &&& self.event_type == EventType::RenderContentScaleResize
        &&& self.category_flags == category_flags(EventType::RenderContentScaleResize)
        &&& self.data matches EventData::F32p(_, _, kind)
            && kind == EventType::RenderContentScaleResize
    }

    pub fn new(message: String, width: u32, height: u32) -> (event: RenderContentScaleResizeEvent)
        ensures
            event.message() == message@,
            event.payload() == Some(
                EventData::F32p(width, height, EventType::RenderContentScaleResize),
            ),
            !event.handled(),
    {
        RenderContentScaleResizeEvent {
            event_type: EventType::RenderContentScaleResize,
            category_flags: EventType::RenderContentScaleResize.category_flags(),
            msg: message,
            data: EventData::F32p(width, height, EventType::RenderContentScaleResize),
            handled: false,
        }
    }
}

impl Event for RenderContentScaleResizeEvent {
    open spec fn kind() -> EventType {
        EventType::RenderContentScaleResize
    }

    closed spec fn payload(&self) -> Option<EventData> {
        Some(
            match self.data {
                EventData::F32p(v0, v1, _) => {
                    EventData::F32p(v0, v1, EventType::RenderContentScaleResize)
                },
                _ => EventData::F32p(arbitrary(), arbitrary(), EventType::RenderContentScaleResize),
            },
        )
    }

    closed spec fn message(&self) -> Seq<char> {
        self.msg@
    }

    closed spec fn handled(&self) -> bool {
        self.handled
    }

    fn static_type() -> (t: EventType) {
        EventType::RenderContentScaleResize
    }

    fn get_event_type(&self) -> (t: EventType) {
        proof {
            use_type_invariant(self);
        }
        self.event_type
    }

    fn get_category_flags(&self) -> (flags: u32) {
        proof {
            use_type_invariant(self);
        }
        self.category_flags
    }

    fn get_msg(&self) -> (msg: &String) {
        &self.msg
    }

    fn get_data(&self) -> (data: Option<&EventData>) {
        proof {
            use_type_invariant(self);
        }
        Some(&self.data)
    }

    fn get_handled(&self) -> (handled: bool) {
        self.handled
    }

    proof fn lemma_payload_fits(&self) {
    }

    fn set_handled(&mut self, handled: bool) {
        proof {
            use_type_invariant(&*self);
        }
        self.handled = handled;
    }
}

} // verus!
