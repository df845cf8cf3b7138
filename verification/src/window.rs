//! The window as the event core sees it: its properties, the subscribers
//! connected to it, and the translation of what the window system reports
//! into events that are emitted to those subscribers.

use crate::events::event::{Event, EventData, EventType};
use crate::events::key_events::{KeyPressedEvent, KeyReleasedEvent};
use crate::events::mouse_events::{
    MouseButtonPressedEvent,
    MouseButtonReleasedEvent,
    MouseMovedEvent,
    MouseScrolledEvent,
};
use crate::events::window_events::{
    WindowCloseEvent,
    WindowFocusEvent,
    WindowMovedEvent,
    WindowResizeEvent,
};
use crate::graphics::{effective_vsync, normalize_vsync};
use crate::settings::GraphicsMode;
use crate::signals::{
    delivery_report,
    emit_locked,
    emit_shared,
    kinds_of,
    lemma_no_event_lacks_its_payload,
    Delivery,
    SignalError,
    SyncData,
    SyncSignal,
    SyncSlot,
    SyncSlotPair,
};
use crate::text::{append_decimal, decimal};
use std::sync::Arc;
use std::sync::RwLock;
use vstd::prelude::*;
use vstd::string::StringExecFns;

verus! {

/// What a window is made with.
#[derive(Debug, PartialEq)]
pub struct WindowProps {
    title: String,
    width: u32,
    height: u32,
    graphics_mode: GraphicsMode,
}

impl WindowProps {
    pub closed spec fn spec_title(&self) -> Seq<char> {
        self.title@
    }

    pub closed spec fn spec_width(&self) -> u32 {
        self.width
    }

    pub closed spec fn spec_height(&self) -> u32 {
        self.height
    }

    pub closed spec fn spec_graphics_mode(&self) -> GraphicsMode {
        self.graphics_mode
    }

    /// Properties with the given title, size and graphics interface; 800
    /// by 600 where no size is given.
    pub fn new(
        title: String,
        size: Option<(u32, u32)>,
        graphics_mode: GraphicsMode,
    ) -> (props: WindowProps)
        ensures
            props.spec_title() == title@,
            (props.width(), props.height()) == match size {
                Some(given) => given,
                None => (800u32, 600u32),
            },
            props.graphics_mode() == graphics_mode,
    {
        WindowProps {
            title,
            width: match size {
                Some((w, _h)) => w,
                None => 800,
            },
            height: match size {
                Some((_w, h)) => h,
                None => 600,
            },
            graphics_mode,
        }
    }

    pub fn title(&self) -> (title: &String)
        ensures
            title@ == self.spec_title(),
    {
        &self.title
    }

    #[verifier::when_used_as_spec(spec_width)]
    pub fn width(&self) -> (width: u32)
        ensures
            width == self.spec_width(),
    {
        self.width
    }

    #[verifier::when_used_as_spec(spec_height)]
    pub fn height(&self) -> (height: u32)
        ensures
            height == self.spec_height(),
    {
        self.height
    }

    #[verifier::when_used_as_spec(spec_graphics_mode)]
    pub fn graphics_mode(&self) -> (mode: GraphicsMode)
        ensures
            mode == self.spec_graphics_mode(),
    {
        self.graphics_mode
    }
}

/// A floating-point value as the window system reported it: the bit
/// pattern of its `f32` form, and its decimal text for messages.
#[derive(Debug, PartialEq)]
pub struct Measure {
    pub bits: u32,
    pub text: String,
}

/// Whether a key or button went up, went down, or is held.
#[derive(Debug, PartialEq, Eq, Clone, Copy, Structural)]
pub enum Action {
    Release,
    Press,
    Repeat,
}

/// What the window system reports of a window, as plain values.
#[derive(Debug, PartialEq)]
pub enum WindowEvent {
    Key { scancode: i32, action: Action, modifiers: i32 },
    MouseButton { button: i32, action: Action, modifiers: i32 },
    Scroll { x: Measure, y: Measure },
    CursorPos { x: Measure, y: Measure },
    Focus { focused: bool },
    Pos { x: Measure, y: Measure },
    Size { width: Measure, height: Measure },
    Close,
    /// Anything that no event is made of.
    Other,
}

/// An event made of a report of the window system.
#[derive(Debug, PartialEq)]
pub enum Occurrence {
    KeyPressed(KeyPressedEvent),
    KeyReleased(KeyReleasedEvent),
    MouseButtonPressed(MouseButtonPressedEvent),
    MouseButtonReleased(MouseButtonReleasedEvent),
    MouseScrolled(MouseScrolledEvent),
    MouseMoved(MouseMovedEvent),
    WindowFocus(WindowFocusEvent),
    WindowMoved(WindowMovedEvent),
    WindowResize(WindowResizeEvent),
    WindowClose(WindowCloseEvent),
}

impl Occurrence {
    /// The kind of the event.
    pub open spec fn kind(self) -> EventType {
        match self {
            Occurrence::KeyPressed(_) => EventType::KeyPressed,
            Occurrence::KeyReleased(_) => EventType::KeyReleased,
            Occurrence::MouseButtonPressed(_) => EventType::MouseButtonPressed,
            Occurrence::MouseButtonReleased(_) => EventType::MouseButtonReleased,
            Occurrence::MouseScrolled(_) => EventType::MouseScrolled,
            Occurrence::MouseMoved(_) => EventType::MouseMoved,
            Occurrence::WindowFocus(_) => EventType::WindowFocus,
            Occurrence::WindowMoved(_) => EventType::WindowMoved,
            Occurrence::WindowResize(_) => EventType::WindowResize,
            Occurrence::WindowClose(_) => EventType::WindowClose,
        }
    }

    /// Whether the event has been handled.
    pub open spec fn handled(self) -> bool {
        match self {
            Occurrence::KeyPressed(e) => e.handled(),
            Occurrence::KeyReleased(e) => e.handled(),
            Occurrence::MouseButtonPressed(e) => e.handled(),
            Occurrence::MouseButtonReleased(e) => e.handled(),
            Occurrence::MouseScrolled(e) => e.handled(),
            Occurrence::MouseMoved(e) => e.handled(),
            Occurrence::WindowFocus(e) => e.handled(),
            Occurrence::WindowMoved(e) => e.handled(),
            Occurrence::WindowResize(e) => e.handled(),
            Occurrence::WindowClose(e) => e.handled(),
        }
    }

    /// The kind of the event.
    pub fn event_type(&self) -> (kind: EventType)
        ensures
            kind == self.kind(),
    {
        match self {
            Occurrence::KeyPressed(e) => e.get_event_type(),
            Occurrence::KeyReleased(e) => e.get_event_type(),
            Occurrence::MouseButtonPressed(e) => e.get_event_type(),
            Occurrence::MouseButtonReleased(e) => e.get_event_type(),
            Occurrence::MouseScrolled(e) => e.get_event_type(),
            Occurrence::MouseMoved(e) => e.get_event_type(),
            Occurrence::WindowFocus(e) => e.get_event_type(),
            Occurrence::WindowMoved(e) => e.get_event_type(),
            Occurrence::WindowResize(e) => e.get_event_type(),
            Occurrence::WindowClose(e) => e.get_event_type(),
        }
    }
}

/// An event that a window emitted, and what its delivery pass did.
#[derive(Debug, PartialEq)]
pub struct Emission {
    pub occurrence: Occurrence,
    pub delivery: Delivery,
}

/// What one polling cycle of a window did.
#[derive(Debug, PartialEq)]
pub struct Update {
    /// Whether the window has been asked to close, now or before.
    pub close: bool,
    /// What was emitted for each report, in the order of the reports;
    /// nothing for a report that has no event.
    pub emitted: Vec<Option<Emission>>,
}

/// The event of an emission, if there was one.
pub open spec fn emitted_occurrence(emission: Option<Emission>) -> Option<Occurrence> {
    match emission {
        Some(e) => Some(e.occurrence),
        None => None,
    }
}

/// Whether `emission` is what a window with connections of the kinds
/// `kinds` does with the report `event`: the event made of the report,
/// as the translation defines it, went through one delivery pass over
/// those connections; or nothing was emitted, the report having no event.
pub open spec fn emission_of(
    kinds: Seq<EventType>,
    event: WindowEvent,
    emission: Option<Emission>,
) -> bool {
    &&& translation(event, emitted_occurrence(emission))
    &&& emission matches Some(e) ==> delivery_report(
        kinds,
        e.occurrence.kind(),
        e.occurrence.handled(),
        e.delivery,
    )
}

/// The message of an event about two whole numbers.
pub open spec fn numbered_message(
    before: Seq<char>,
    first: int,
    between: Seq<char>,
    second: int,
    after: Seq<char>,
) -> Seq<char> {
    before + decimal(first) + between + decimal(second) + after
}

/// The message of an event about two measures.
pub open spec fn measured_message(what: Seq<char>, x: Seq<char>, y: Seq<char>) -> Seq<char> {
    what + " x: "@ + x + ", y: "@ + y
}

/// Whether `e` is a fresh event with the given message and payload.
pub open spec fn fresh<E: Event>(e: E, message: Seq<char>, payload: Option<EventData>) -> bool {
    &&& e.message() == message
    &&& e.payload() == payload
    &&& !e.handled()
}

/// The event that is made of each report: a key or a button going down or
/// up gives the pressed or released event with the code and the modifiers
/// (the message of a button says "pressed" either way);
/// scrolling, moving the cursor, moving and resizing the window give their
/// event with the two measures' bit patterns; a change of focus and a
/// request to close give theirs; anything else, a held key among it,
/// gives none.
pub open spec fn translation(event: WindowEvent, occurrence: Option<Occurrence>) -> bool {
    match event {
        WindowEvent::Key { scancode, action: Action::Press, modifiers } => {
            occurrence matches Some(Occurrence::KeyPressed(e)) && fresh(
                e,
                numbered_message(
                    "Key "@,
                    scancode as int,
                    " pressed with "@,
                    modifiers as int,
                    " mods"@,
                ),
                Some(EventData::I32p(scancode, modifiers, EventType::KeyPressed)),
            )
        },
        WindowEvent::Key { scancode, action: Action::Release, modifiers } => {
            occurrence matches Some(Occurrence::KeyReleased(e)) && fresh(
                e,
                numbered_message(
                    "Key "@,
                    scancode as int,
                    " released with "@,
                    modifiers as int,
                    " mods"@,
                ),
                Some(EventData::I32p(scancode, modifiers, EventType::KeyReleased)),
            )
        },
        WindowEvent::MouseButton { button, action: Action::Press, modifiers } => {
            occurrence matches Some(Occurrence::MouseButtonPressed(e)) && fresh(
                e,
                numbered_message(
                    "Mouse Button "@,
                    button as int,
                    " pressed with "@,
                    modifiers as int,
                    " mods"@,
                ),
                Some(EventData::I32p(button, modifiers, EventType::MouseButtonPressed)),
            )
        },
        WindowEvent::MouseButton { button, action: Action::Release, modifiers } => {
            occurrence matches Some(Occurrence::MouseButtonReleased(e)) && fresh(
                e,
                numbered_message(
                    "Mouse Button "@,
                    button as int,
                    " pressed with "@,
                    modifiers as int,
                    " mods"@,
                ),
                Some(EventData::I32p(button, modifiers, EventType::MouseButtonReleased)),
            )
        },
        WindowEvent::Scroll { x, y } => {
            occurrence matches Some(Occurrence::MouseScrolled(e)) && fresh(
                e,
                measured_message("Mouse Scrolled"@, x.text@, y.text@),
                Some(EventData::F32p(x.bits, y.bits, EventType::MouseScrolled)),
            )
        },
        WindowEvent::CursorPos { x, y } => {
            occurrence matches Some(Occurrence::MouseMoved(e)) && fresh(
                e,
                measured_message("Mouse Moved"@, x.text@, y.text@),
                Some(EventData::F32p(x.bits, y.bits, EventType::MouseMoved)),
            )
        },
        WindowEvent::Focus { focused } => {
            occurrence matches Some(Occurrence::WindowFocus(e)) && fresh(
                e,
                "Window Focused"@,
                Some(EventData::Bool(focused, EventType::WindowFocus)),
            )
        },
        WindowEvent::Pos { x, y } => {
            occurrence matches Some(Occurrence::WindowMoved(e)) && fresh(
                e,
                measured_message("Window Moved"@, x.text@, y.text@),
                Some(EventData::F32p(x.bits, y.bits, EventType::WindowMoved)),
            )
        },
        WindowEvent::Size { width, height } => {
            occurrence matches Some(Occurrence::WindowResize(e)) && fresh(
                e,
                measured_message("Window Resized"@, width.text@, height.text@),
                Some(EventData::F32p(width.bits, height.bits, EventType::WindowResize)),
            )
        },
        WindowEvent::Close => {
            occurrence matches Some(Occurrence::WindowClose(e)) && fresh(
                e,
                "Window Should Close"@,
                None,
            )
        },
        _ => occurrence is None,
    }
}

/// The message of an event about two whole numbers.
fn numbered(before: &str, first: i32, between: &str, second: i32, after: &str) -> (message: String)
    ensures
        message@ == numbered_message(before@, first as int, between@, second as int, after@),
{
    let mut message = String::from_str(before);
    append_decimal(&mut message, first as i64);
    message.append(between);
    append_decimal(&mut message, second as i64);
    message.append(after);
    message
}

/// The message of an event about two measures.
fn measured(what: &str, x: &Measure, y: &Measure) -> (message: String)
    ensures
        message@ == measured_message(what@, x.text@, y.text@),
{
    let mut message = String::from_str(what);
    message.append(" x: ");
    message.append(x.text.as_str());
    message.append(", y: ");
    message.append(y.text.as_str());
    message
}

/// Makes the event of a report of the window system, if it has one.
pub fn translate(event: &WindowEvent) -> (occurrence: Option<Occurrence>)
    ensures
        translation(*event, occurrence),
{
    match event {
        WindowEvent::Key { scancode, action: Action::Press, modifiers } => {
            let message = numbered("Key ", *scancode, " pressed with ", *modifiers, " mods");
            Some(Occurrence::KeyPressed(KeyPressedEvent::new(message, *scancode, *modifiers)))
        },
        WindowEvent::Key { scancode, action: Action::Release, modifiers } => {
            let message = numbered("Key ", *scancode, " released with ", *modifiers, " mods");
            Some(Occurrence::KeyReleased(KeyReleasedEvent::new(message, *scancode, *modifiers)))
        },
        WindowEvent::MouseButton { button, action: Action::Press, modifiers } => {
            let message = numbered(
                "Mouse Button ",
                *button,
                " pressed with ",
                *modifiers,
                " mods",
            );
            Some(
                Occurrence::MouseButtonPressed(
                    MouseButtonPressedEvent::new(message, *button, *modifiers),
                ),
            )
        },
        WindowEvent::MouseButton { button, action: Action::Release, modifiers } => {
            let message = numbered(
                "Mouse Button ",
                *button,
                " pressed with ",
                *modifiers,
                " mods",
            );
            Some(
                Occurrence::MouseButtonReleased(
                    MouseButtonReleasedEvent::new(message, *button, *modifiers),
                ),
            )
        },
        WindowEvent::Scroll { x, y } => {
            let message = measured("Mouse Scrolled", x, y);
            Some(Occurrence::MouseScrolled(MouseScrolledEvent::new(message, x.bits, y.bits)))
        },
        WindowEvent::CursorPos { x, y } => {
            let message = measured("Mouse Moved", x, y);
            Some(Occurrence::MouseMoved(MouseMovedEvent::new(message, x.bits, y.bits)))
        },
        WindowEvent::Focus { focused } => {
            let message = String::from_str("Window Focused");
            Some(Occurrence::WindowFocus(WindowFocusEvent::new(message, *focused)))
        },
        WindowEvent::Pos { x, y } => {
            let message = measured("Window Moved", x, y);
            Some(Occurrence::WindowMoved(WindowMovedEvent::new(message, x.bits, y.bits)))
        },
        WindowEvent::Size { width, height } => {
            let message = measured("Window Resized", width, height);
            Some(
                Occurrence::WindowResize(WindowResizeEvent::new(message, width.bits, height.bits)),
            )
        },
        WindowEvent::Close => {
            let message = String::from_str("Window Should Close");
            Some(Occurrence::WindowClose(WindowCloseEvent::new(message)))
        },
        _ => None,
    }
}

/// Whether `update` and `after` are what one polling cycle over the
/// reports `events` makes of the window `before`: for each report, in
/// order, what was emitted is what the window does with that report;
/// the window has been asked to close if it had been before or a report
/// asks for it; and its properties, vertical sync and connections are as
/// they were.
pub open spec fn updated<S>(
    before: Window<S>,
    events: Seq<WindowEvent>,
    after: Window<S>,
    update: Update,
) -> bool {
    &&& update.close == after.should_close()
    &&& update.close == (before.should_close() || exists|i: int|
        0 <= i < events.len() && events[i] is Close)
    &&& update.emitted@.len() == events.len()
    &&& forall|i: int|
        0 <= i < events.len() ==> emission_of(
            kinds_of(before.slots()),
            events[i],
            #[trigger] update.emitted@[i],
        )
    &&& after.spec_props() == before.spec_props()
    &&& after.get_vsync() == before.get_vsync()
    &&& after.slots() == before.slots()
}

/// A subscriber that takes every event a window emits.
pub trait WindowSlot: SyncSlot<KeyPressedEvent> + SyncSlot<KeyReleasedEvent> + SyncSlot<
    MouseButtonPressedEvent,
> + SyncSlot<MouseButtonReleasedEvent> + SyncSlot<MouseScrolledEvent> + SyncSlot<
    MouseMovedEvent,
> + SyncSlot<WindowFocusEvent> + SyncSlot<WindowMovedEvent> + SyncSlot<WindowResizeEvent>
    + SyncSlot<WindowCloseEvent> {

}

/// A window: its properties, its vertical-sync setting, the subscribers
/// connected to it and whether it has been asked to close.
#[verifier::reject_recursive_types(S)]
pub struct Window<S> {
    props: WindowProps,
    vsync: u8,
    slots: Vec<SyncSlotPair<S>>,
    should_close: bool,
}

impl<S> Window<S> {
    pub closed spec fn spec_props(&self) -> WindowProps {
        self.props
    }

    pub closed spec fn spec_vsync(&self) -> u8 {
        self.vsync
    }

    pub closed spec fn spec_should_close(&self) -> bool {
        self.should_close
    }

    /// The connections, oldest first.
    pub closed spec fn slots(&self) -> Seq<(Arc<RwLock<S>>, EventType)> {
        self.slots@
    }

    /// A window with the given properties, without vertical sync and
    /// without subscribers, that has not been asked to close.
    pub fn new(props: WindowProps) -> (window: Window<S>)
        ensures
            window.spec_props() == props,
            window.get_vsync() == 0,
            window.slots() == Seq::<(Arc<RwLock<S>>, EventType)>::empty(),
            !window.should_close(),
    {
        Window { props, vsync: 0, slots: Vec::new(), should_close: false }
    }

    pub fn get_width(&self) -> (width: u32)
        ensures
            width == self.spec_props().width(),
    {
        self.props.width
    }

    /// Sets the width and nothing else.
    pub fn set_width(&mut self, w: u32)
        ensures
            final(self).spec_props().width() == w,
            final(self).spec_props().height() == old(self).spec_props().height(),
            final(self).spec_props().spec_title() == old(self).spec_props().spec_title(),
            final(self).spec_props().graphics_mode() == old(self).spec_props().graphics_mode(),
            final(self).get_vsync() == old(self).get_vsync(),
            final(self).slots() == old(self).slots(),
            final(self).should_close() == old(self).should_close(),
    {
        self.props.width = w;
    }

    pub fn get_height(&self) -> (height: u32)
        ensures
            height == self.spec_props().height(),
    {
        self.props.height
    }

    /// Sets the height and nothing else.
    pub fn set_height(&mut self, h: u32)
        ensures
            final(self).spec_props().height() == h,
            final(self).spec_props().width() == old(self).spec_props().width(),
            final(self).spec_props().spec_title() == old(self).spec_props().spec_title(),
            final(self).spec_props().graphics_mode() == old(self).spec_props().graphics_mode(),
            final(self).get_vsync() == old(self).get_vsync(),
            final(self).slots() == old(self).slots(),
            final(self).should_close() == old(self).should_close(),
    {
        self.props.height = h;
    }

    #[verifier::when_used_as_spec(spec_vsync)]
    pub fn get_vsync(&self) -> (vsync: u8)
        ensures
            vsync == self.spec_vsync(),
    {
        self.vsync
    }

    /// Sets the vertical sync: 0, 1 and 2 are taken as they are, anything
    /// else as 0.
    pub fn set_vsync(&mut self, interval: u8)
        ensures
            final(self).get_vsync() == effective_vsync(interval),
            final(self).spec_props() == old(self).spec_props(),
            final(self).slots() == old(self).slots(),
            final(self).should_close() == old(self).should_close(),
    {
        self.vsync = normalize_vsync(interval);
    }

    pub fn get_props(&self) -> (props: &WindowProps)
        ensures
            *props == self.spec_props(),
    {
        &self.props
    }

    #[verifier::when_used_as_spec(spec_should_close)]
    pub fn should_close(&self) -> (close: bool)
        ensures
            close == self.spec_should_close(),
    {
        self.should_close
    }

    /// The number of connections.
    pub fn connection_count(&self) -> (n: usize)
        ensures
            n == self.slots().len(),
    {
        self.slots.len()
    }

    /// Connects the shared subscriber `slot` under `event_type`, after
    /// every earlier connection. Nothing is de-duplicated.
    pub fn connect_slot(&mut self, event_type: EventType, slot: Arc<RwLock<S>>)
        ensures
            final(self).slots() == old(self).slots().push((slot, event_type)),
            final(self).spec_props() == old(self).spec_props(),
            final(self).get_vsync() == old(self).get_vsync(),
            final(self).should_close() == old(self).should_close(),
    {
        self.slots.push((slot, event_type));
    }

    /// Emits the event to the subscribers connected under its kind and
    /// reports the delivery pass. No event that is made of a report
    /// lacks its payload, so this never fails.
    pub fn dispatch(&self, occurrence: &Occurrence) -> (result: Result<Delivery, SignalError>) where
        S: WindowSlot,

        ensures
            result matches Ok(d) && delivery_report(
                kinds_of(self.slots()),
                occurrence.kind(),
                occurrence.handled(),
                d,
            ),
    {
        match occurrence {
            Occurrence::KeyPressed(e) => {
                proof {
                    lemma_no_event_lacks_its_payload(*e);
                }
                emit_shared(&self.slots, e)
            },
            Occurrence::KeyReleased(e) => {
                proof {
                    lemma_no_event_lacks_its_payload(*e);
                }
                emit_shared(&self.slots, e)
            },
            Occurrence::MouseButtonPressed(e) => {
                proof {
                    lemma_no_event_lacks_its_payload(*e);
                }
                emit_shared(&self.slots, e)
            },
            Occurrence::MouseButtonReleased(e) => {
                proof {
                    lemma_no_event_lacks_its_payload(*e);
                }
                emit_shared(&self.slots, e)
            },
            Occurrence::MouseScrolled(e) => {
                proof {
                    lemma_no_event_lacks_its_payload(*e);
                }
                emit_shared(&self.slots, e)
            },
            Occurrence::MouseMoved(e) => {
                proof {
                    lemma_no_event_lacks_its_payload(*e);
                }
                emit_shared(&self.slots, e)
            },
            Occurrence::WindowFocus(e) => {
                proof {
                    lemma_no_event_lacks_its_payload(*e);
                }
                emit_shared(&self.slots, e)
            },
            Occurrence::WindowMoved(e) => {
                proof {
                    lemma_no_event_lacks_its_payload(*e);
                }
                emit_shared(&self.slots, e)
            },
            Occurrence::WindowResize(e) => {
                proof {
                    lemma_no_event_lacks_its_payload(*e);
                }
                emit_shared(&self.slots, e)
            },
            Occurrence::WindowClose(e) => {
                proof {
                    lemma_no_event_lacks_its_payload(*e);
                }
                emit_shared(&self.slots, e)
            },
        }
    }

    /// What the window does with one report: the event made of it, if it
    /// has one, is emitted to the subscribers connected under its kind.
    pub fn emit_report(&self, event: &WindowEvent) -> (emission: Option<Emission>) where
        S: WindowSlot,

        ensures
            emission_of(kinds_of(self.slots()), *event, emission),
    {
        match translate(event) {
            Some(occurrence) => {
                match self.dispatch(&occurrence) {
                    Ok(delivery) => Some(Emission { occurrence, delivery }),
                    Err(_) => None,
                }
            },
            None => None,
        }
    }

    /// One polling cycle over what the window system reported since the
    /// last one, oldest first: each report that has an event is
    /// translated and emitted, also behind a request to close, and a
    /// request to close is remembered. Reports what was emitted for each
    /// report and whether the window has been asked to close, now or
    /// before.
    pub fn on_update(&mut self, events: &Vec<WindowEvent>) -> (update: Update) where S: WindowSlot
        ensures
            updated(*old(self), events@, *final(self), update),
    {
        let n: usize = events.len();
        let mut emitted: Vec<Option<Emission>> = Vec::new();
        let mut i: usize = 0;
        while i < n
            invariant
                i <= n,
                n == events@.len(),
                emitted@.len() == i,
                forall|j: int|
                    0 <= j < i ==> emission_of(
                        kinds_of(old(self).slots()),
                        events@[j],
                        #[trigger] emitted@[j],
                    ),
                self.spec_props() == old(self).spec_props(),
                self.get_vsync() == old(self).get_vsync(),
                self.slots() == old(self).slots(),
                self.should_close() == (old(self).should_close() || exists|j: int|
                    0 <= j < i && events@[j] is Close),
            decreases n - i,
        {
            let event = &events[i];
            let emission = self.emit_report(event);
            emitted.push(emission);
            if let WindowEvent::Close = event {
                self.should_close = true;
            }
            i += 1;
        }
        Update { close: self.should_close, emitted }
    }
}

impl<K: Event + Send + Sync, S: SyncSlot<K>> SyncSignal<K, S> for Window<S> {
    open spec fn connections(&self) -> Seq<(Arc<RwLock<S>>, EventType)> {
        self.slots()
    }

    fn connect(&mut self, slot: Arc<RwLock<S>>)
        ensures
            final(self).spec_props() == old(self).spec_props(),
            final(self).get_vsync() == old(self).get_vsync(),
            final(self).should_close() == old(self).should_close(),
    {
        self.connect_slot(K::static_type(), slot);
    }

    fn emit(&self, event: SyncData<K>) -> (result: Result<Delivery, SignalError>) {
        emit_locked(&self.slots, event)
    }
}

} // verus!
