//! Event kinds, category flags, payload shapes and the `Event` capability.

use std::path::PathBuf;
use vstd::prelude::*;

verus! {

/// `std::path::PathBuf`, carried through as an opaque value: nothing is
/// claimed about what a path holds.
#[verifier::external_type_specification]
#[verifier::external_body]
pub struct ExPathBuf(PathBuf);

/// The kind of an occurrence. It identifies an event and is the key under
/// which subscribers are connected.
#[derive(Debug, PartialEq, Eq, Clone, Copy, Structural)]
pub enum EventType {
    NoEvent,
    WindowClose,
    WindowResize,
    WindowFocus,
    WindowMoved,
    WindowRefresh,
    WindowIconify,
    WindowMaximize,
    RenderFramebufferResize,
    RenderContentScaleResize,
    AppTick,
    AppUpdate,
    AppRender,
    AppFileDropped,
    KeyPressed,
    KeyReleased,
    TextInput,
    MouseButtonPressed,
    MouseButtonReleased,
    MouseEntered,
    MouseMoved,
    MouseScrolled,
}

impl EventType {
    /// The text under which the kind is shown.
    pub open spec fn label(self) -> Seq<char> {
        match self {
            EventType::NoEvent => "(None)"@,
            EventType::WindowClose => "WindowClose"@,
            EventType::WindowResize => "WindowResize"@,
            EventType::WindowFocus => "WindowFocus"@,
            EventType::WindowMoved => "WindowMoved"@,
            EventType::WindowRefresh => "WindowRefresh"@,
            EventType::WindowIconify => "WindowIconify"@,
            EventType::WindowMaximize => "WindowMaximize"@,
            EventType::RenderFramebufferResize => "RenderFramebufferResize"@,
            EventType::RenderContentScaleResize => "RenderContentScaleResize"@,
            EventType::AppTick => "AppTick"@,
            EventType::AppUpdate => "AppUpdate"@,
            EventType::AppRender => "AppRender"@,
            EventType::AppFileDropped => "AppFileDropped"@,
            EventType::KeyPressed => "KeyPressed"@,
            EventType::KeyReleased => "KeyReleased"@,
            EventType::TextInput => "TextChar"@,
            EventType::MouseButtonPressed => "MouseButtonPressed"@,
            EventType::MouseButtonReleased => "MouseButtonReleased"@,
            EventType::MouseEntered => "MouseEntered"@,
            EventType::MouseMoved => "MouseMoved"@,
            EventType::MouseScrolled => "MouseScrolled"@,
        }
    }

    /// The kind in readable form.
    pub fn name(&self) -> (text: &'static str)
        ensures
            text@ == self.label(),
    {
        match self {
            EventType::NoEvent => "(None)",
            EventType::WindowClose => "WindowClose",
            EventType::WindowResize => "WindowResize",
            EventType::WindowFocus => "WindowFocus",
            EventType::WindowMoved => "WindowMoved",
            EventType::WindowRefresh => "WindowRefresh",
            EventType::WindowIconify => "WindowIconify",
            EventType::WindowMaximize => "WindowMaximize",
            EventType::RenderFramebufferResize => "RenderFramebufferResize",
            EventType::RenderContentScaleResize => "RenderContentScaleResize",
            EventType::AppTick => "AppTick",
            EventType::AppUpdate => "AppUpdate",
            EventType::AppRender => "AppRender",
            EventType::AppFileDropped => "AppFileDropped",
            EventType::KeyPressed => "KeyPressed",
            EventType::KeyReleased => "KeyReleased",
            EventType::TextInput => "TextChar",
            EventType::MouseButtonPressed => "MouseButtonPressed",
            EventType::MouseButtonReleased => "MouseButtonReleased",
            EventType::MouseEntered => "MouseEntered",
            EventType::MouseMoved => "MouseMoved",
            EventType::MouseScrolled => "MouseScrolled",
        }
    }

    /// The category flags of the kind.
    pub fn category_flags(&self) -> (flags: u32)
        ensures
            flags == category_flags(*self),
    {
        match self {
            EventType::NoEvent => EventCategory::NoCategory.bit(),
            EventType::WindowClose
            | EventType::WindowResize
            | EventType::WindowFocus
            | EventType::WindowMoved
            | EventType::WindowRefresh
            | EventType::WindowIconify
            | EventType::WindowMaximize
            | EventType::RenderFramebufferResize
            | EventType::RenderContentScaleResize
            | EventType::AppTick
            | EventType::AppUpdate
            | EventType::AppRender => EventCategory::EventApplication.bit(),
            EventType::AppFileDropped => EventCategory::EventApplication.bit()
                | EventCategory::EventInput.bit(),
            EventType::KeyPressed | EventType::KeyReleased | EventType::TextInput => {
                EventCategory::EventInput.bit() | EventCategory::EventKeyboard.bit()
            },
            EventType::MouseButtonPressed | EventType::MouseButtonReleased => {
                EventCategory::EventInput.bit() | EventCategory::EventMouse.bit()
                    | EventCategory::EventMouseButton.bit()
            },
            EventType::MouseEntered | EventType::MouseMoved | EventType::MouseScrolled => {
                EventCategory::EventInput.bit() | EventCategory::EventMouse.bit()
            },
        }
    }

    /// The payload shape that events of the kind carry, if they carry one.
    pub fn payload_shape(&self) -> (shape: Option<PayloadShape>)
        ensures
            shape == expected_shape(*self),
    {
        match self {
            EventType::WindowResize
            | EventType::WindowMoved
            | EventType::RenderFramebufferResize
            | EventType::RenderContentScaleResize
            | EventType::MouseMoved
            | EventType::MouseScrolled => Some(PayloadShape::F32p),
            EventType::WindowFocus | EventType::WindowIconify | EventType::WindowMaximize => Some(
                PayloadShape::Bool,
            ),
            EventType::AppFileDropped => Some(PayloadShape::PathBufs),
            EventType::KeyPressed
            | EventType::KeyReleased
            | EventType::MouseButtonPressed
            | EventType::MouseButtonReleased => Some(PayloadShape::I32p),
            EventType::TextInput => Some(PayloadShape::U32p),
            EventType::NoEvent
            | EventType::WindowClose
            | EventType::WindowRefresh
            | EventType::AppTick
            | EventType::AppUpdate
            | EventType::AppRender
            | EventType::MouseEntered => None,
        }
    }
}

/// A coarse class of events. Each class owns one bit of an event's
/// category flags.
#[derive(Debug, PartialEq, Eq, Clone, Copy, Structural)]
pub enum EventCategory {
    NoCategory,
    EventApplication,
    EventInput,
    EventKeyboard,
    EventMouse,
    EventMouseButton,
}

impl EventCategory {
    /// The bit of the class: none for `NoCategory`, then one bit each,
    /// from the lowest upwards.
    pub open spec fn mask(self) -> u32 {
        match self {
            EventCategory::NoCategory => 0u32,
            EventCategory::EventApplication => 1u32,
            EventCategory::EventInput => 2u32,
            EventCategory::EventKeyboard => 4u32,
            EventCategory::EventMouse => 8u32,
            EventCategory::EventMouseButton => 16u32,
        }
    }

    /// The bit of the class as a mask.
    pub fn bit(&self) -> (bit: u32)
        ensures
            bit == self.mask(),
    {
        match self {
            EventCategory::NoCategory => 0u32,
            EventCategory::EventApplication => 1u32,
            EventCategory::EventInput => 2u32,
            EventCategory::EventKeyboard => 4u32,
            EventCategory::EventMouse => 8u32,
            EventCategory::EventMouseButton => 16u32,
        }
    }

    /// Whether `flags` names this class.
    pub fn is_in(&self, flags: u32) -> (member: bool)
        ensures
            member == (flags & self.mask() != 0),
    {
        flags & self.bit() != 0
    }
}

/// The classes an event kind belongs to.
pub open spec fn categories_of(t: EventType) -> Set<EventCategory> {
    match t {
        EventType::NoEvent => set![],
        EventType::WindowClose
        | EventType::WindowResize
        | EventType::WindowFocus
        | EventType::WindowMoved
        | EventType::WindowRefresh
        | EventType::WindowIconify
        | EventType::WindowMaximize
        | EventType::RenderFramebufferResize
        | EventType::RenderContentScaleResize
        | EventType::AppTick
        | EventType::AppUpdate
        | EventType::AppRender => set![EventCategory::EventApplication],
        EventType::AppFileDropped => set![
            EventCategory::EventApplication,
            EventCategory::EventInput,
        ],
        EventType::KeyPressed | EventType::KeyReleased | EventType::TextInput => set![
            EventCategory::EventInput,
            EventCategory::EventKeyboard,
        ],
        EventType::MouseButtonPressed | EventType::MouseButtonReleased => set![
            EventCategory::EventInput,
            EventCategory::EventMouse,
            EventCategory::EventMouseButton,
        ],
        EventType::MouseEntered | EventType::MouseMoved | EventType::MouseScrolled => set![
            EventCategory::EventInput,
            EventCategory::EventMouse,
        ],
    }
}

/// The category flags of an event kind: the bitwise OR of the bits of its
/// classes.
pub open spec fn category_flags(t: EventType) -> u32 {
    match t {
        EventType::NoEvent => EventCategory::NoCategory.mask(),
        EventType::WindowClose
        | EventType::WindowResize
        | EventType::WindowFocus
        | EventType::WindowMoved
        | EventType::WindowRefresh
        | EventType::WindowIconify
        | EventType::WindowMaximize
        | EventType::RenderFramebufferResize
        | EventType::RenderContentScaleResize
        | EventType::AppTick
        | EventType::AppUpdate
        | EventType::AppRender => EventCategory::EventApplication.mask(),
        EventType::AppFileDropped => EventCategory::EventApplication.mask()
            | EventCategory::EventInput.mask(),
        EventType::KeyPressed | EventType::KeyReleased | EventType::TextInput => {
            EventCategory::EventInput.mask() | EventCategory::EventKeyboard.mask()
        },
        EventType::MouseButtonPressed | EventType::MouseButtonReleased => {
            EventCategory::EventInput.mask() | EventCategory::EventMouse.mask()
                | EventCategory::EventMouseButton.mask()
        },
        EventType::MouseEntered | EventType::MouseMoved | EventType::MouseScrolled => {
            EventCategory::EventInput.mask() | EventCategory::EventMouse.mask()
        },
    }
}

/// The category flags of a kind name exactly the classes the kind belongs
/// to: a class bit is set in the flags if and only if the kind is of that
/// class.
pub proof fn lemma_flags_name_the_categories(t: EventType, c: EventCategory)
    requires
        c != EventCategory::NoCategory,
    ensures
        (category_flags(t) & c.mask() != 0) <==> categories_of(t).contains(c),
{
    assert(0u32 & 1u32 == 0 && 0u32 & 2u32 == 0 && 0u32 & 4u32 == 0 && 0u32 & 8u32 == 0 && 0u32
        & 16u32 == 0) by (bit_vector);
    assert(1u32 & 1u32 != 0 && 1u32 & 2u32 == 0 && 1u32 & 4u32 == 0 && 1u32 & 8u32 == 0 && 1u32
        & 16u32 == 0) by (bit_vector);
    assert((1u32 | 2u32) & 1u32 != 0 && (1u32 | 2u32) & 2u32 != 0 && (1u32 | 2u32) & 4u32 == 0 && (
    1u32 | 2u32) & 8u32 == 0 && (1u32 | 2u32) & 16u32 == 0) by (bit_vector);
    assert((2u32 | 4u32) & 1u32 == 0 && (2u32 | 4u32) & 2u32 != 0 && (2u32 | 4u32) & 4u32 != 0 && (
    2u32 | 4u32) & 8u32 == 0 && (2u32 | 4u32) & 16u32 == 0) by (bit_vector);
    assert((2u32 | 8u32 | 16u32) & 1u32 == 0 && (2u32 | 8u32 | 16u32) & 2u32 != 0 && (2u32 | 8u32
        | 16u32) & 4u32 == 0 && (2u32 | 8u32 | 16u32) & 8u32 != 0 && (2u32 | 8u32 | 16u32) & 16u32
        != 0) by (bit_vector);
    assert((2u32 | 8u32) & 1u32 == 0 && (2u32 | 8u32) & 2u32 != 0 && (2u32 | 8u32) & 4u32 == 0 && (
    2u32 | 8u32) & 8u32 != 0 && (2u32 | 8u32) & 16u32 == 0) by (bit_vector);
}

/// The form of a payload, without its values.
#[derive(Debug, PartialEq, Eq, Clone, Copy, Structural)]
pub enum PayloadShape {
    Bool,
    Boolp,
    Bools,
    U32,
    U32p,
    U32s,
    U64,
    U64p,
    U64s,
    I32,
    I32p,
    I32s,
    I64,
    I64p,
    I64s,
    F32,
    F32p,
    F32s,
    F64,
    F64p,
    F64s,
    StringD,
    Strings,
    PathBufD,
    PathBufs,
}

/// The payload shape that events of kind `t` carry; `None` for the kinds
/// that carry no payload.
pub open spec fn expected_shape(t: EventType) -> Option<PayloadShape> {
    match t {
        EventType::WindowResize
        | EventType::WindowMoved
        | EventType::RenderFramebufferResize
        | EventType::RenderContentScaleResize
        | EventType::MouseMoved
        | EventType::MouseScrolled => Some(PayloadShape::F32p),
        EventType::WindowFocus | EventType::WindowIconify | EventType::WindowMaximize => Some(
            PayloadShape::Bool,
        ),
        EventType::AppFileDropped => Some(PayloadShape::PathBufs),
        EventType::KeyPressed
        | EventType::KeyReleased
        | EventType::MouseButtonPressed
        | EventType::MouseButtonReleased => Some(PayloadShape::I32p),
        EventType::TextInput => Some(PayloadShape::U32p),
        EventType::NoEvent
        | EventType::WindowClose
        | EventType::WindowRefresh
        | EventType::AppTick
        | EventType::AppUpdate
        | EventType::AppRender
        | EventType::MouseEntered => None,
    }
}

/// The payload of an event, tagged with the kind of the event that owns
/// it. Floating-point values are held as their IEEE-754 bit patterns:
/// 32 bits for the `F32` shapes, 64 bits for the `F64` shapes.
#[derive(Debug, PartialEq)]
pub enum EventData {
    Bool(bool, EventType),
    Boolp(bool, bool, EventType),
    Bools(Vec<bool>, EventType),
    U32(u32, EventType),
    U32p(u32, u32, EventType),
    U32s(Vec<u32>, EventType),
    U64(u64, EventType),
    U64p(u64, u64, EventType),
    U64s(Vec<u64>, EventType),
    I32(i32, EventType),
    I32p(i32, i32, EventType),
    I32s(Vec<i32>, EventType),
    I64(i64, EventType),
    I64p(i64, i64, EventType),
    I64s(Vec<i64>, EventType),
    F32(u32, EventType),
    F32p(u32, u32, EventType),
    F32s(Vec<u32>, EventType),
    F64(u64, EventType),
    F64p(u64, u64, EventType),
    F64s(Vec<u64>, EventType),
    StringD(String, EventType),
    Strings(Vec<String>, EventType),
    PathBufD(PathBuf, EventType),
    PathBufs(Vec<PathBuf>, EventType),
}

impl EventData {
    /// The kind of the event that owns the payload.
    pub open spec fn tag(self) -> EventType {
        match self {
            EventData::Bool(_, kind) => kind,
            EventData::Boolp(_, _, kind) => kind,
            EventData::Bools(_, kind) => kind,
            EventData::U32(_, kind) => kind,
            EventData::U32p(_, _, kind) => kind,
            EventData::U32s(_, kind) => kind,
            EventData::U64(_, kind) => kind,
            EventData::U64p(_, _, kind) => kind,
            EventData::U64s(_, kind) => kind,
            EventData::I32(_, kind) => kind,
            EventData::I32p(_, _, kind) => kind,
            EventData::I32s(_, kind) => kind,
            EventData::I64(_, kind) => kind,
            EventData::I64p(_, _, kind) => kind,
            EventData::I64s(_, kind) => kind,
            EventData::F32(_, kind) => kind,
            EventData::F32p(_, _, kind) => kind,
            EventData::F32s(_, kind) => kind,
            EventData::F64(_, kind) => kind,
            EventData::F64p(_, _, kind) => kind,
            EventData::F64s(_, kind) => kind,
            EventData::StringD(_, kind) => kind,
            EventData::Strings(_, kind) => kind,
            EventData::PathBufD(_, kind) => kind,
            EventData::PathBufs(_, kind) => kind,
        }
    }

    /// The form of the payload.
    pub open spec fn shape(self) -> PayloadShape {
        match self {
            EventData::Bool(..) => PayloadShape::Bool,
            EventData::Boolp(..) => PayloadShape::Boolp,
            EventData::Bools(..) => PayloadShape::Bools,
            EventData::U32(..) => PayloadShape::U32,
            EventData::U32p(..) => PayloadShape::U32p,
            EventData::U32s(..) => PayloadShape::U32s,
            EventData::U64(..) => PayloadShape::U64,
            EventData::U64p(..) => PayloadShape::U64p,
            EventData::U64s(..) => PayloadShape::U64s,
            EventData::I32(..) => PayloadShape::I32,
            EventData::I32p(..) => PayloadShape::I32p,
            EventData::I32s(..) => PayloadShape::I32s,
            EventData::I64(..) => PayloadShape::I64,
            EventData::I64p(..) => PayloadShape::I64p,
            EventData::I64s(..) => PayloadShape::I64s,
            EventData::F32(..) => PayloadShape::F32,
            EventData::F32p(..) => PayloadShape::F32p,
            EventData::F32s(..) => PayloadShape::F32s,
            EventData::F64(..) => PayloadShape::F64,
            EventData::F64p(..) => PayloadShape::F64p,
            EventData::F64s(..) => PayloadShape::F64s,
            EventData::StringD(..) => PayloadShape::StringD,
            EventData::Strings(..) => PayloadShape::Strings,
            EventData::PathBufD(..) => PayloadShape::PathBufD,
            EventData::PathBufs(..) => PayloadShape::PathBufs,
        }
    }

    /// The kind of the event that owns the payload.
    pub fn event_type(&self) -> (kind: &EventType)
        ensures
            *kind == self.tag(),
    {
        match self {
            EventData::Bool(_, kind) => kind,
            EventData::Boolp(_, _, kind) => kind,
            EventData::Bools(_, kind) => kind,
            EventData::U32(_, kind) => kind,
            EventData::U32p(_, _, kind) => kind,
            EventData::U32s(_, kind) => kind,
            EventData::U64(_, kind) => kind,
            EventData::U64p(_, _, kind) => kind,
            EventData::U64s(_, kind) => kind,
            EventData::I32(_, kind) => kind,
            EventData::I32p(_, _, kind) => kind,
            EventData::I32s(_, kind) => kind,
            EventData::I64(_, kind) => kind,
            EventData::I64p(_, _, kind) => kind,
            EventData::I64s(_, kind) => kind,
            EventData::F32(_, kind) => kind,
            EventData::F32p(_, _, kind) => kind,
            EventData::F32s(_, kind) => kind,
            EventData::F64(_, kind) => kind,
            EventData::F64p(_, _, kind) => kind,
            EventData::F64s(_, kind) => kind,
            EventData::StringD(_, kind) => kind,
            EventData::Strings(_, kind) => kind,
            EventData::PathBufD(_, kind) => kind,
            EventData::PathBufs(_, kind) => kind,
        }
    }

    /// The form of the payload.
    pub fn payload_shape(&self) -> (shape: PayloadShape)
        ensures
            shape == self.shape(),
    {
        match self {
            EventData::Bool(..) => PayloadShape::Bool,
            EventData::Boolp(..) => PayloadShape::Boolp,
            EventData::Bools(..) => PayloadShape::Bools,
            EventData::U32(..) => PayloadShape::U32,
            EventData::U32p(..) => PayloadShape::U32p,
            EventData::U32s(..) => PayloadShape::U32s,
            EventData::U64(..) => PayloadShape::U64,
            EventData::U64p(..) => PayloadShape::U64p,
            EventData::U64s(..) => PayloadShape::U64s,
            EventData::I32(..) => PayloadShape::I32,
            EventData::I32p(..) => PayloadShape::I32p,
            EventData::I32s(..) => PayloadShape::I32s,
            EventData::I64(..) => PayloadShape::I64,
            EventData::I64p(..) => PayloadShape::I64p,
            EventData::I64s(..) => PayloadShape::I64s,
            EventData::F32(..) => PayloadShape::F32,
            EventData::F32p(..) => PayloadShape::F32p,
            EventData::F32s(..) => PayloadShape::F32s,
            EventData::F64(..) => PayloadShape::F64,
            EventData::F64p(..) => PayloadShape::F64p,
            EventData::F64s(..) => PayloadShape::F64s,
            EventData::StringD(..) => PayloadShape::StringD,
            EventData::Strings(..) => PayloadShape::Strings,
            EventData::PathBufD(..) => PayloadShape::PathBufD,
            EventData::PathBufs(..) => PayloadShape::PathBufs,
        }
    }
}

/// Whether `data` is what an event of kind `t` carries: a payload of the
/// kind's shape that is tagged with the kind, or nothing where the kind
/// carries no payload.
pub open spec fn payload_fits(t: EventType, data: Option<EventData>) -> bool {
    match expected_shape(t) {
        Some(shape) => data matches Some(d) && d.shape() == shape && d.tag() == t,
        None => data is None,
    }
}

/// Whether `data` is what an event of kind `t` carries.
pub fn check_payload(t: EventType, data: Option<&EventData>) -> (fits: bool)
    ensures
        fits == payload_fits(
            t,
            match data {
                Some(d) => Some(*d),
                None => None,
            },
        ),
{
    match t.payload_shape() {
        Some(shape) => match data {
            Some(d) => d.payload_shape() == shape && *d.event_type() == t,
            None => false,
        },
        None => data.is_none(),
    }
}

/// One discrete occurrence. Its kind, its category flags and its payload
/// are fixed when it is made; only the handled flag changes afterwards.
pub trait Event {
    /// The kind of every event of this type.
    spec fn kind() -> EventType;

    /// The payload, if the event carries one.
    spec fn payload(&self) -> Option<EventData>;

    /// The readable message given when the event was made.
    spec fn message(&self) -> Seq<char>;

    /// Whether a subscriber has fully handled the event.
    spec fn handled(&self) -> bool;

    /// The kind of every event of this type.
    fn static_type() -> (t: EventType)
        ensures
            t == Self::kind(),
    ;

    fn get_event_type(&self) -> (t: EventType)
        ensures
            t == Self::kind(),
    ;

    fn get_category_flags(&self) -> (flags: u32)
        ensures
            flags == category_flags(Self::kind()),
    ;

    fn get_msg(&self) -> (msg: &String)
        ensures
            msg@ == self.message(),
    ;

    /// The payload: present exactly where the kind carries one, and then
    /// of the kind's shape and tagged with the kind.
    fn get_data(&self) -> (data: Option<&EventData>)
        ensures
            match data {
                Some(d) => self.payload() == Some(*d),
                None => self.payload() is None,
            },
            payload_fits(Self::kind(), self.payload()),
    ;

    fn get_handled(&self) -> (handled: bool)
        ensures
            handled == self.handled(),
    ;

    /// The payload is what the kind defines.
    proof fn lemma_payload_fits(&self)
        ensures
            payload_fits(Self::kind(), self.payload()),
    ;

    fn set_handled(&mut self, handled: bool)
        ensures
            final(self).handled() == handled,
            final(self).payload() == old(self).payload(),
            final(self).message() == old(self).message(),
    ;
}

/// An event carries a payload exactly where its kind defines a payload
/// shape, and the payload it carries is of that shape and tagged with the
/// kind: never a different shape, never the tag of another kind.
pub proof fn lemma_payload_matches_kind<E: Event>(event: E)
    ensures
        event.payload() is Some <==> expected_shape(E::kind()) is Some,
        event.payload() matches Some(d) ==> Some(d.shape()) == expected_shape(E::kind())
            && d.tag() == E::kind(),
{
    event.lemma_payload_fits();
}

/// Hands an event to a callback if the event is of the kind that the
/// dispatcher was made for.
pub struct EventDispatcher<'a, E: Event> {
    event_type: EventType,
    event: &'a mut E,
}

impl<'a, E: Event> EventDispatcher<'a, E> {
    /// The kind the dispatcher was made for.
    pub closed spec fn wanted(&self) -> EventType {
        self.event_type
    }

    /// The event the dispatcher holds.
    pub closed spec fn target(&self) -> E {
        *self.event
    }

    pub fn new(ev_type: EventType, event: &'a mut E) -> (dispatcher: EventDispatcher<'a, E>)
        ensures
            dispatcher.wanted() == ev_type,
            dispatcher.target() == *old(event),
    {
        EventDispatcher { event_type: ev_type, event }
    }

    /// Calls `func` on the event and returns its answer if the event is
    /// of the dispatcher's kind, leaving the event as `func` left it;
    /// otherwise leaves the event alone and returns `false`.
    pub fn dispatch<F: FnOnce(&mut E) -> bool>(&mut self, func: F) -> (handled: bool)
        requires
            old(self).wanted() == E::kind() ==> forall|e: &mut E|
                *e == old(self).target() ==> func.requires((e,)),
        ensures
            final(self).wanted() == old(self).wanted(),
            old(self).wanted() != E::kind() ==> !handled,
            old(self).wanted() != E::kind() ==> final(self).target() == old(self).target(),
            old(self).wanted() == E::kind() ==> exists|e: &mut E|
                *e == old(self).target() && *final(e) == final(self).target() && func.ensures(
                    (e,),
                    handled,
                ),
    {
        if self.event_type == self.event.get_event_type() {
            func(&mut *self.event)
        } else {
            false
        }
    }
}

} // verus!
