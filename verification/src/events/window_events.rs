//! Events of the window itself.

use crate::events::event::{category_flags, Event, EventData, EventType};
use vstd::prelude::*;

verus! {

/// The window was asked to close.
#[derive(Debug, PartialEq)]
pub struct WindowCloseEvent {
    event_type: EventType,
    category_flags: u32,
    msg: String,
    handled: bool,
}

impl WindowCloseEvent {
    #[verifier::type_invariant]
    spec fn well_formed(self) -> bool {
        &&& self.event_type == EventType::WindowClose
        &&& self.category_flags == category_flags(EventType::WindowClose)
    }

    pub fn new(message: String) -> (event: WindowCloseEvent)
        ensures
            event.message() == message@,
            event.payload() is None,
            !event.handled(),
    {
        WindowCloseEvent {
            event_type: EventType::WindowClose,
            category_flags: EventType::WindowClose.category_flags(),
            msg: message,
            handled: false,
        }
    }
}

impl Event for WindowCloseEvent {
    open spec fn kind() -> EventType {
        EventType::WindowClose
    }

    open spec fn payload(&self) -> Option<EventData> {
        None
    }

    closed spec fn message(&self) -> Seq<char> {
        self.msg@
    }

    closed spec fn handled(&self) -> bool {
        self.handled
    }

    fn static_type() -> (t: EventType) {
        EventType::WindowClose
    }

    fn get_event_type(&self) -> (t: EventType) {
        proof {
            use_type_invariant(self);
        }
        self.event_type
    }

    fn get_category_flags(&self) -> (flags: u32) {
        proof {
            use_type_invariant(self);
        }
        self.category_flags
    }

    fn get_msg(&self) -> (msg: &String) {
        &self.msg
    }

    fn get_data(&self) -> (data: Option<&EventData>) {
        None
    }

    fn get_handled(&self) -> (handled: bool) {
        self.handled
    }

    proof fn lemma_payload_fits(&self) {
    }

    fn set_handled(&mut self, handled: bool) {
        proof {
            use_type_invariant(&*self);
        }
        self.handled = handled;
    }
}

/// The window was resized. Width and height are `f32` bit patterns.
#[derive(Debug, PartialEq)]
pub struct WindowResizeEvent {
    event_type: EventType,
    category_flags: u32,
    msg: String,
    data: EventData,
    handled: bool,
}

impl WindowResizeEvent {
    #[verifier::type_invariant]
    spec fn well_formed(self) -> bool {
        &&& self.event_type == EventType::WindowResize
        &&& self.category_flags == category_flags(EventType::WindowResize)
        &&& self.data matches EventData::F32p(_, _, kind) && kind == EventType::WindowResize
    }

    pub fn new(message: String, width: u32, height: u32) -> (event: WindowResizeEvent)
        ensures
            event.message() == message@,
            event.payload() == Some(EventData::F32p(width, height, EventType::WindowResize)),
            !event.handled(),
    {
        WindowResizeEvent {
            event_type: EventType::WindowResize,
            category_flags: EventType::WindowResize.category_flags(),
            msg: message,
            data: EventData::F32p(width, height, EventType::WindowResize),
            handled: false,
        }
    }
}

impl Event for WindowResizeEvent {
    open spec fn kind() -> EventType {
        EventType::WindowResize
    }

    closed spec fn payload(&self) -> Option<EventData> {
        Some(
            match self.data {
                EventData::F32p(v0, v1, _) => EventData::F32p(v0, v1, EventType::WindowResize),
                _ => EventData::F32p(arbitrary(), arbitrary(), EventType::WindowResize),
            },
        )
    }

    closed spec fn message(&self) -> Seq<char> {
        self.msg@
    }

    closed spec fn handled(&self) -> bool {
        self.handled
    }

    fn static_type() -> (t: EventType) {
        EventType::WindowResize
    }

    fn get_event_type(&self) -> (t: EventType) {
        proof {
            use_type_invariant(self);
        }
        self.event_type
    }

    fn get_category_flags(&self) -> (flags: u32) {
        proof {
            use_type_invariant(self);
        }
        self.category_flags
    }

    fn get_msg(&self) -> (msg: &String) {
        &self.msg
    }

    fn get_data(&self) -> (data: Option<&EventData>) {
        proof {
            use_type_invariant(self);
        }
        Some(&self.data)
    }

    fn get_handled(&self) -> (handled: bool) {
        self.handled
    }

    proof fn lemma_payload_fits(&self) {
    }

    fn set_handled(&mut self, handled: bool) {
        proof {
            use_type_invariant(&*self);
        }
        self.handled = handled;
    }
}

/// The window gained or lost the input focus.
#[derive(Debug, PartialEq)]
pub struct WindowFocusEvent {
    event_type: EventType,
    category_flags: u32,
    msg: String,
    data: EventData,
    handled: bool,
}

impl WindowFocusEvent {
    #[verifier::type_invariant]
    spec fn well_formed(self) -> bool {
        &&& self.event_type == EventType::WindowFocus
        &&& self.category_flags == category_flags(EventType::WindowFocus)
        &&& self.data matches EventData::Bool(_, kind) && kind == EventType::WindowFocus
    }

    pub fn new(message: String, focused: bool) -> (event: WindowFocusEvent)
        ensures
            event.message() == message@,
            event.payload() == Some(EventData::Bool(focused, EventType::WindowFocus)),
            !event.handled(),
    {
        WindowFocusEvent {
            event_type: EventType::WindowFocus,
            category_flags: EventType::WindowFocus.category_flags(),
            msg: message,
            data: EventData::Bool(focused, EventType::WindowFocus),
            handled: false,
        }
    }
}

impl Event for WindowFocusEvent {
    open spec fn kind() -> EventType {
        EventType::WindowFocus
    }

    closed spec fn payload(&self) -> Option<EventData> {
        Some(
            match self.data {
                EventData::Bool(v0, _) => EventData::Bool(v0, EventType::WindowFocus),
                _ => EventData::Bool(arbitrary(), EventType::WindowFocus),
            },
        )
    }

    closed spec fn message(&self) -> Seq<char> {
        self.msg@
    }

    closed spec fn handled(&self) -> bool {
        self.handled
    }

    fn static_type() -> (t: EventType) {
        EventType::WindowFocus
    }

    fn get_event_type(&self) -> (t: EventType) {
        proof {
            use_type_invariant(self);
        }
        self.event_type
    }

    fn get_category_flags(&self) -> (flags: u32) {
        proof {
            use_type_invariant(self);
        }
        self.category_flags
    }

    fn get_msg(&self) -> (msg: &String) {
        &self.msg
    }

    fn get_data(&self) -> (data: Option<&EventData>) {
        proof {
            use_type_invariant(self);
        }
        Some(&self.data)
    }

    fn get_handled(&self) -> (handled: bool) {
        self.handled
    }

    proof fn lemma_payload_fits(&self) {
    }

    fn set_handled(&mut self, handled: bool) {
        proof {
            use_type_invariant(&*self);
        }
        self.handled = handled;
    }
}

/// The window was moved. The coordinates are `f32` bit patterns.
#[derive(Debug, PartialEq)]
pub struct WindowMovedEvent {
    event_type: EventType,
    category_flags: u32,
    msg: String,
    data: EventData,
    handled: bool,
}

impl WindowMovedEvent {
    #[verifier::type_invariant]
    spec fn well_formed(self) -> bool {
        &&& self.event_type == EventType::WindowMoved
        &&& self.category_flags == category_flags(EventType::WindowMoved)
        &&& self.data matches EventData::F32p(_, _, kind) && kind == EventType::WindowMoved
    }

    pub fn new(message: String, x: u32, y: u32) -> (event: WindowMovedEvent)
        ensures
            event.message() == message@,
            event.payload() == Some(EventData::F32p(x, y, EventType::WindowMoved)),
            !event.handled(),
    {
        WindowMovedEvent {
            event_type: EventType::WindowMoved,
            category_flags: EventType::WindowMoved.category_flags(),
            msg: message,
            data: EventData::F32p(x, y, EventType::WindowMoved),
            handled: false,
        }
    }
}

impl Event for WindowMovedEvent {
    open spec fn kind() -> EventType {
        EventType::WindowMoved
    }

    closed spec fn payload(&self) -> Option<EventData> {
        Some(
            match self.data {
                EventData::F32p(v0, v1, _) => EventData::F32p(v0, v1, EventType::WindowMoved),
                _ => EventData::F32p(arbitrary(), arbitrary(), EventType::WindowMoved),
            },
        )
    }

    closed spec fn message(&self) -> Seq<char> {
        self.msg@
    }

    closed spec fn handled(&self) -> bool {
        self.handled
    }

    fn static_type() -> (t: EventType) {
        EventType::WindowMoved
    }

    fn get_event_type(&self) -> (t: EventType) {
        proof {
            use_type_invariant(self);
        }
        self.event_type
    }

    fn get_category_flags(&self) -> (flags: u32) {
        proof {
            use_type_invariant(self);
        }
        self.category_flags
    }

    fn get_msg(&self) -> (msg: &String) {
        &self.msg
    }

    fn get_data(&self) -> (data: Option<&EventData>) {
        proof {
            use_type_invariant(self);
        }
        Some(&self.data)
    }

    fn get_handled(&self) -> (handled: bool) {
        self.handled
    }

    proof fn lemma_payload_fits(&self) {
    }

    fn set_handled(&mut self, handled: bool) {
        proof {
            use_type_invariant(&*self);
        }
        self.handled = handled;
    }
}

/// The window's contents need to be drawn again.
#[derive(Debug, PartialEq)]
pub struct WindowRefreshEvent {
    event_type: EventType,
    category_flags: u32,
    msg: String,
    handled: bool,
}

impl WindowRefreshEvent {
    #[verifier::type_invariant]
    spec fn well_formed(self) -> bool {
        &&& self.event_type == EventType::WindowRefresh
        &&& self.category_flags == category_flags(EventType::WindowRefresh)
    }

    pub fn new(message: String) -> (event: WindowRefreshEvent)
        ensures
            event.message() == message@,
            event.payload() is None,
            !event.handled(),
    {
        WindowRefreshEvent {
            event_type: EventType::WindowRefresh,
            category_flags: EventType::WindowRefresh.category_flags(),
            msg: message,
            handled: false,
        }
    }
}

impl Event for WindowRefreshEvent {
    open spec fn kind() -> EventType {
        EventType::WindowRefresh
    }

    open spec fn payload(&self) -> Option<EventData> {
        None
    }

    closed spec fn message(&self) -> Seq<char> {
        self.msg@
    }

    closed spec fn handled(&self) -> bool {
        self.handled
    }

    fn static_type() -> (t: EventType) {
        EventType::WindowRefresh
    }

    fn get_event_type(&self) -> (t: EventType) {
        proof {
            use_type_invariant(self);
        }
        self.event_type
    }

    fn get_category_flags(&self) -> (flags: u32) {
        proof {
            use_type_invariant(self);
        }
        self.category_flags
    }

    fn get_msg(&self) -> (msg: &String) {
        &self.msg
    }

    fn get_data(&self) -> (data: Option<&EventData>) {
        None
    }

    fn get_handled(&self) -> (handled: bool) {
        self.handled
    }

    proof fn lemma_payload_fits(&self) {
    }

    fn set_handled(&mut self, handled: bool) {
        proof {
            use_type_invariant(&*self);
        }
        self.handled = handled;
    }
}

/// The window was iconified or restored.
#[derive(Debug, PartialEq)]
pub struct WindowIconifyEvent {
    event_type: EventType,
    category_flags: u32,
    msg: String,
    data: EventData,
    handled: bool,
}

impl WindowIconifyEvent {
    #[verifier::type_invariant]
    spec fn well_formed(self) -> bool {
        &&& self.event_type == EventType::WindowIconify
        &&& self.category_flags == category_flags(EventType::WindowIconify)
        &&& self.data matches EventData::Bool(_, kind) && kind == EventType::WindowIconify
    }

    pub fn new(message: String, iconify: bool) -> (event: WindowIconifyEvent)
        ensures
            event.message() == message@,
            event.payload() == Some(EventData::Bool(iconify, EventType::WindowIconify)),
            !event.handled(),
    {
        WindowIconifyEvent {
            event_type: EventType::WindowIconify,
            category_flags: EventType::WindowIconify.category_flags(),
            msg: message,
            data: EventData::Bool(iconify, EventType::WindowIconify),
            handled: false,
        }
    }
}

impl Event for WindowIconifyEvent {
    open spec fn kind() -> EventType {
        EventType::WindowIconify
    }

    closed spec fn payload(&self) -> Option<EventData> {
        Some(
            match self.data {
                EventData::Bool(v0, _) => EventData::Bool(v0, EventType::WindowIconify),
                _ => EventData::Bool(arbitrary(), EventType::WindowIconify),
            },
        )
    }

    closed spec fn message(&self) -> Seq<char> {
        self.msg@
    }

    closed spec fn handled(&self) -> bool {
        self.handled
    }

    fn static_type() -> (t: EventType) {
        EventType::WindowIconify
    }

    fn get_event_type(&self) -> (t: EventType) {
        proof {
            use_type_invariant(self);
        }
        self.event_type
    }

    fn get_category_flags(&self) -> (flags: u32) {
        proof {
            use_type_invariant(self);
        }
        self.category_flags
    }

    fn get_msg(&self) -> (msg: &String) {
        &self.msg
    }

    fn get_data(&self) -> (data: Option<&EventData>) {
        proof {
            use_type_invariant(self);
        }
        Some(&self.data)
    }

    fn get_handled(&self) -> (handled: bool) {
        self.handled
    }

    proof fn lemma_payload_fits(&self) {
    }

    fn set_handled(&mut self, handled: bool) {
        proof {
            use_type_invariant(&*self);
        }
        self.handled = handled;
    }
}

/// The window was maximized or restored.
#[derive(Debug, PartialEq)]
pub struct WindowMaximizeEvent {
    event_type: EventType,
    category_flags: u32,
    msg: String,
    data: EventData,
    handled: bool,
}

impl WindowMaximizeEvent {
    #[verifier::type_invariant]
    spec fn well_formed(self) -> bool {
        &&& self.event_type == EventType::WindowMaximize
        &&& self.category_flags == category_flags(EventType::WindowMaximize)
        &&& self.data matches EventData::Bool(_, kind) && kind == EventType::WindowMaximize
    }

    pub fn new(message: String, maximize: bool) -> (event: WindowMaximizeEvent)
        ensures
            event.message() == message@,
            event.payload() == Some(EventData::Bool(maximize, EventType::WindowMaximize)),
            !event.handled(),
    {
        WindowMaximizeEvent {
            event_type: EventType::WindowMaximize,
            category_flags: EventType::WindowMaximize.category_flags(),
            msg: message,
            data: EventData::Bool(maximize, EventType::WindowMaximize),
            handled: false,
        }
    }
}

impl Event for WindowMaximizeEvent {
    open spec fn kind() -> EventType {
        EventType::WindowMaximize
    }

    closed spec fn payload(&self) -> Option<EventData> {
        Some(
            match self.data {
                EventData::Bool(v0, _) => EventData::Bool(v0, EventType::WindowMaximize),
                _ => EventData::Bool(arbitrary(), EventType::WindowMaximize),
            },
        )
    }

    closed spec fn message(&self) -> Seq<char> {
        self.msg@
    }

    closed spec fn handled(&self) -> bool {
        self.handled
    }

    fn static_type() -> (t: EventType) {
        EventType::WindowMaximize
    }

    fn get_event_type(&self) -> (t: EventType) {
        proof {
            use_type_invariant(self);
        }
        self.event_type
    }

    fn get_category_flags(&self) -> (flags: u32) {
        proof {
            use_type_invariant(self);
        }
        self.category_flags
    }

    fn get_msg(&self) -> (msg: &String) {
        &self.msg
    }

    fn get_data(&self) -> (data: Option<&EventData>) {
        proof {
            use_type_invariant(self);
        }
        Some(&self.data)
    }

    fn get_handled(&self) -> (handled: bool) {
        self.handled
    }

    proof fn lemma_payload_fits(&self) {
    }

    fn set_handled(&mut self, handled: bool) {
        proof {
            use_type_invariant(&*self);
        }
        self.handled = handled;
    }
}

} // verus!
