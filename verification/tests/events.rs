use magnus::events::application_events::{
    AppFileDroppedEvent, AppRenderEvent, AppTickEvent, AppUpdateEvent,
};
use magnus::events::event::{
    check_payload, Event, EventCategory, EventData, EventDispatcher, EventType, PayloadShape,
};
use magnus::events::key_events::{KeyPressedEvent, KeyReleasedEvent, TextInputEvent};
use magnus::events::mouse_events::{
    MouseButtonPressedEvent, MouseButtonReleasedEvent, MouseEnteredEvent, MouseMovedEvent,
    MouseScrolledEvent,
};
use magnus::events::render_events::{RenderContentScaleResizeEvent, RenderFramebufferResizeEvent};
use magnus::events::window_events::{
    WindowCloseEvent, WindowFocusEvent, WindowIconifyEvent, WindowMaximizeEvent, WindowMovedEvent,
    WindowRefreshEvent, WindowResizeEvent,
};
use std::path::PathBuf;

const APPLICATION: u32 = 1;
const INPUT: u32 = 2;
const KEYBOARD: u32 = 4;
const MOUSE: u32 = 8;
const MOUSE_BUTTON: u32 = 16;

fn all_types() -> Vec<EventType> {
    vec![
        EventType::NoEvent,
        EventType::WindowClose,
        EventType::WindowResize,
        EventType::WindowFocus,
        EventType::WindowMoved,
        EventType::WindowRefresh,
        EventType::WindowIconify,
        EventType::WindowMaximize,
        EventType::RenderFramebufferResize,
        EventType::RenderContentScaleResize,
        EventType::AppTick,
        EventType::AppUpdate,
        EventType::AppRender,
        EventType::AppFileDropped,
        EventType::KeyPressed,
        EventType::KeyReleased,
        EventType::TextInput,
        EventType::MouseButtonPressed,
        EventType::MouseButtonReleased,
        EventType::MouseEntered,
        EventType::MouseMoved,
        EventType::MouseScrolled,
    ]
}

fn check_event<E: Event>(
    event: &mut E,
    kind: EventType,
    flags: u32,
    message: &str,
    data: Option<EventData>,
) {
    assert_eq!(E::static_type(), kind);
    assert_eq!(event.get_event_type(), kind);
    assert_eq!(event.get_category_flags(), flags);
    assert_eq!(event.get_msg().as_str(), message);
    assert_eq!(event.get_data(), data.as_ref());
    assert!(check_payload(kind, event.get_data()));
    assert!(!event.get_handled());
    event.set_handled(true);
    assert!(event.get_handled());
    assert_eq!(event.get_data(), data.as_ref());
    assert_eq!(event.get_msg().as_str(), message);
    assert_eq!(event.get_event_type(), kind);
    event.set_handled(false);
    assert!(!event.get_handled());
}

#[test]
fn category_bits_are_one_bit_each() {
    assert_eq!(EventCategory::NoCategory.bit(), 0);
    assert_eq!(EventCategory::EventApplication.bit(), 1 << 0);
    assert_eq!(EventCategory::EventInput.bit(), 1 << 1);
    assert_eq!(EventCategory::EventKeyboard.bit(), 1 << 2);
    assert_eq!(EventCategory::EventMouse.bit(), 1 << 3);
    assert_eq!(EventCategory::EventMouseButton.bit(), 1 << 4);
}

#[test]
fn category_membership_follows_the_flags() {
    let flags = EventType::MouseButtonPressed.category_flags();
    assert_eq!(flags, INPUT | MOUSE | MOUSE_BUTTON);
    assert!(EventCategory::EventInput.is_in(flags));
    assert!(EventCategory::EventMouse.is_in(flags));
    assert!(EventCategory::EventMouseButton.is_in(flags));
    assert!(!EventCategory::EventKeyboard.is_in(flags));
    assert!(!EventCategory::EventApplication.is_in(flags));
    assert!(!EventCategory::NoCategory.is_in(flags));
    assert!(!EventCategory::EventInput.is_in(0));
}

#[test]
fn category_flags_of_every_kind() {
    let expected = vec![
        0,
        APPLICATION,
        APPLICATION,
        APPLICATION,
        APPLICATION,
        APPLICATION,
        APPLICATION,
        APPLICATION,
        APPLICATION,
        APPLICATION,
        APPLICATION,
        APPLICATION,
        APPLICATION,
        APPLICATION | INPUT,
        INPUT | KEYBOARD,
        INPUT | KEYBOARD,
        INPUT | KEYBOARD,
        INPUT | MOUSE | MOUSE_BUTTON,
        INPUT | MOUSE | MOUSE_BUTTON,
        INPUT | MOUSE,
        INPUT | MOUSE,
        INPUT | MOUSE,
    ];
    let types = all_types();
    assert_eq!(types.len(), expected.len());
    for (kind, flags) in types.iter().zip(expected.iter()) {
        assert_eq!(kind.category_flags(), *flags, "{:?}", kind);
    }
}

#[test]
fn names_of_every_kind() {
    let expected = vec![
        "(None)",
        "WindowClose",
        "WindowResize",
        "WindowFocus",
        "WindowMoved",
        "WindowRefresh",
        "WindowIconify",
        "WindowMaximize",
        "RenderFramebufferResize",
        "RenderContentScaleResize",
        "AppTick",
        "AppUpdate",
        "AppRender",
        "AppFileDropped",
        "KeyPressed",
        "KeyReleased",
        "TextChar",
        "MouseButtonPressed",
        "MouseButtonReleased",
        "MouseEntered",
        "MouseMoved",
        "MouseScrolled",
    ];
    let types = all_types();
    for (kind, name) in types.iter().zip(expected.iter()) {
        assert_eq!(kind.name(), *name);
    }
}

#[test]
fn payload_shape_of_every_kind() {
    let expected = vec![
        None,
        None,
        Some(PayloadShape::F32p),
        Some(PayloadShape::Bool),
        Some(PayloadShape::F32p),
        None,
        Some(PayloadShape::Bool),
        Some(PayloadShape::Bool),
        Some(PayloadShape::F32p),
        Some(PayloadShape::F32p),
        None,
        None,
        None,
        Some(PayloadShape::PathBufs),
        Some(PayloadShape::I32p),
        Some(PayloadShape::I32p),
        Some(PayloadShape::U32p),
        Some(PayloadShape::I32p),
        Some(PayloadShape::I32p),
        None,
        Some(PayloadShape::F32p),
        Some(PayloadShape::F32p),
    ];
    let types = all_types();
    for (kind, shape) in types.iter().zip(expected.iter()) {
        assert_eq!(kind.payload_shape(), *shape, "{:?}", kind);
    }
}

#[test]
fn event_data_reports_its_tag_and_shape() {
    let k = EventType::AppTick;
    let samples = vec![
        (EventData::Bool(true, k), PayloadShape::Bool),
        (EventData::Boolp(true, false, k), PayloadShape::Boolp),
        (EventData::Bools(vec![true], k), PayloadShape::Bools),
        (EventData::U32(1, k), PayloadShape::U32),
        (EventData::U32p(1, 2, k), PayloadShape::U32p),
        (EventData::U32s(vec![1, 2], k), PayloadShape::U32s),
        (EventData::U64(1, k), PayloadShape::U64),
        (EventData::U64p(1, 2, k), PayloadShape::U64p),
        (EventData::U64s(vec![1], k), PayloadShape::U64s),
        (EventData::I32(-1, k), PayloadShape::I32),
        (EventData::I32p(-1, 2, k), PayloadShape::I32p),
        (EventData::I32s(vec![-1], k), PayloadShape::I32s),
        (EventData::I64(-1, k), PayloadShape::I64),
        (EventData::I64p(-1, 2, k), PayloadShape::I64p),
        (EventData::I64s(vec![-1], k), PayloadShape::I64s),
        (EventData::F32(1.5f32.to_bits(), k), PayloadShape::F32),
        (EventData::F32p(1.5f32.to_bits(), 2.5f32.to_bits(), k), PayloadShape::F32p),
        (EventData::F32s(vec![1.5f32.to_bits()], k), PayloadShape::F32s),
        (EventData::F64(1.5f64.to_bits(), k), PayloadShape::F64),
        (EventData::F64p(1.5f64.to_bits(), 2.5f64.to_bits(), k), PayloadShape::F64p),
        (EventData::F64s(vec![1.5f64.to_bits()], k), PayloadShape::F64s),
        (EventData::StringD("s".to_string(), k), PayloadShape::StringD),
        (EventData::Strings(vec!["s".to_string()], k), PayloadShape::Strings),
        (EventData::PathBufD(PathBuf::from("a"), k), PayloadShape::PathBufD),
        (EventData::PathBufs(vec![PathBuf::from("a")], k), PayloadShape::PathBufs),
    ];
    for (data, shape) in samples.iter() {
        assert_eq!(*data.event_type(), EventType::AppTick);
        assert_eq!(data.payload_shape(), *shape);
    }
    assert_eq!(
        *EventData::I32p(1, 2, EventType::KeyReleased).event_type(),
        EventType::KeyReleased
    );
}

#[test]
fn check_payload_rejects_wrong_shape_tag_and_presence() {
    let good = EventData::I32p(65, 0, EventType::KeyPressed);
    assert!(check_payload(EventType::KeyPressed, Some(&good)));
    let wrong_tag = EventData::I32p(65, 0, EventType::KeyReleased);
    assert!(!check_payload(EventType::KeyPressed, Some(&wrong_tag)));
    let wrong_shape = EventData::U32p(65, 0, EventType::KeyPressed);
    assert!(!check_payload(EventType::KeyPressed, Some(&wrong_shape)));
    assert!(!check_payload(EventType::KeyPressed, None));
    assert!(check_payload(EventType::WindowClose, None));
    let stray = EventData::Bool(true, EventType::WindowClose);
    assert!(!check_payload(EventType::WindowClose, Some(&stray)));
}

#[test]
fn window_events_are_made_as_defined() {
    let w = 800.0f32.to_bits();
    let h = 600.0f32.to_bits();
    check_event(
        &mut WindowCloseEvent::new("close".to_string()),
        EventType::WindowClose,
        APPLICATION,
        "close",
        None,
    );
    check_event(
        &mut WindowResizeEvent::new("resize".to_string(), w, h),
        EventType::WindowResize,
        APPLICATION,
        "resize",
        Some(EventData::F32p(w, h, EventType::WindowResize)),
    );
    check_event(
        &mut WindowFocusEvent::new("focus".to_string(), true),
        EventType::WindowFocus,
        APPLICATION,
        "focus",
        Some(EventData::Bool(true, EventType::WindowFocus)),
    );
    check_event(
        &mut WindowMovedEvent::new("moved".to_string(), w, h),
        EventType::WindowMoved,
        APPLICATION,
        "moved",
        Some(EventData::F32p(w, h, EventType::WindowMoved)),
    );
    check_event(
        &mut WindowRefreshEvent::new("refresh".to_string()),
        EventType::WindowRefresh,
        APPLICATION,
        "refresh",
        None,
    );
    check_event(
        &mut WindowIconifyEvent::new("iconify".to_string(), false),
        EventType::WindowIconify,
        APPLICATION,
        "iconify",
        Some(EventData::Bool(false, EventType::WindowIconify)),
    );
    check_event(
        &mut WindowMaximizeEvent::new("maximize".to_string(), true),
        EventType::WindowMaximize,
        APPLICATION,
        "maximize",
        Some(EventData::Bool(true, EventType::WindowMaximize)),
    );
}

#[test]
fn render_events_are_made_as_defined() {
    let w = 1.25f32.to_bits();
    let h = 2.0f32.to_bits();
    check_event(
        &mut RenderFramebufferResizeEvent::new("fb".to_string(), w, h),
        EventType::RenderFramebufferResize,
        APPLICATION,
        "fb",
        Some(EventData::F32p(w, h, EventType::RenderFramebufferResize)),
    );
    check_event(
        &mut RenderContentScaleResizeEvent::new("scale".to_string(), w, h),
        EventType::RenderContentScaleResize,
        APPLICATION,
        "scale",
        Some(EventData::F32p(w, h, EventType::RenderContentScaleResize)),
    );
}

#[test]
fn application_events_are_made_as_defined() {
    check_event(
        &mut AppTickEvent::new("tick".to_string()),
        EventType::AppTick,
        APPLICATION,
        "tick",
        None,
    );
    check_event(
        &mut AppUpdateEvent::new("update".to_string()),
        EventType::AppUpdate,
        APPLICATION,
        "update",
        None,
    );
    check_event(
        &mut AppRenderEvent::new("render".to_string()),
        EventType::AppRender,
        APPLICATION,
        "render",
        None,
    );
    let paths = vec![PathBuf::from("/tmp/a.txt"), PathBuf::from("b.png")];
    check_event(
        &mut AppFileDroppedEvent::new("dropped".to_string(), paths.clone()),
        EventType::AppFileDropped,
        APPLICATION | INPUT,
        "dropped",
        Some(EventData::PathBufs(paths, EventType::AppFileDropped)),
    );
}

#[test]
fn key_events_are_made_as_defined() {
    check_event(
        &mut KeyPressedEvent::new("down".to_string(), 65, 0),
        EventType::KeyPressed,
        INPUT | KEYBOARD,
        "down",
        Some(EventData::I32p(65, 0, EventType::KeyPressed)),
    );
    check_event(
        &mut KeyReleasedEvent::new("up".to_string(), -3, 7),
        EventType::KeyReleased,
        INPUT | KEYBOARD,
        "up",
        Some(EventData::I32p(-3, 7, EventType::KeyReleased)),
    );
    check_event(
        &mut TextInputEvent::new("text".to_string(), 228, 1),
        EventType::TextInput,
        INPUT | KEYBOARD,
        "text",
        Some(EventData::U32p(228, 1, EventType::TextInput)),
    );
}

#[test]
fn mouse_events_are_made_as_defined() {
    let x = (-4.5f32).to_bits();
    let y = 0.25f32.to_bits();
    check_event(
        &mut MouseButtonPressedEvent::new("down".to_string(), 1, 2),
        EventType::MouseButtonPressed,
        INPUT | MOUSE | MOUSE_BUTTON,
        "down",
        Some(EventData::I32p(1, 2, EventType::MouseButtonPressed)),
    );
    check_event(
        &mut MouseButtonReleasedEvent::new("up".to_string(), 1, 2),
        EventType::MouseButtonReleased,
        INPUT | MOUSE | MOUSE_BUTTON,
        "up",
        Some(EventData::I32p(1, 2, EventType::MouseButtonReleased)),
    );
    check_event(
        &mut MouseEnteredEvent::new("entered".to_string()),
        EventType::MouseEntered,
        INPUT | MOUSE,
        "entered",
        None,
    );
    check_event(
        &mut MouseMovedEvent::new("moved".to_string(), x, y),
        EventType::MouseMoved,
        INPUT | MOUSE,
        "moved",
        Some(EventData::F32p(x, y, EventType::MouseMoved)),
    );
    check_event(
        &mut MouseScrolledEvent::new("scrolled".to_string(), x, y),
        EventType::MouseScrolled,
        INPUT | MOUSE,
        "scrolled",
        Some(EventData::F32p(x, y, EventType::MouseScrolled)),
    );
}

#[test]
fn resize_payload_gives_back_the_floats() {
    let event =
        WindowResizeEvent::new("resize".to_string(), 800.0f32.to_bits(), 600.0f32.to_bits());
    match event.get_data() {
        Some(EventData::F32p(w, h, EventType::WindowResize)) => {
            assert_eq!(f32::from_bits(*w), 800.0);
            assert_eq!(f32::from_bits(*h), 600.0);
        }
        other => panic!("unexpected payload {:?}", other),
    }
}

#[test]
fn dispatcher_calls_back_for_its_kind_only() {
    let mut event = WindowCloseEvent::new("close".to_string());
    let mut calls = 0;
    {
        let mut dispatcher = EventDispatcher::new(EventType::WindowClose, &mut event);
        let handled = dispatcher.dispatch(|e: &mut WindowCloseEvent| {
            calls += 1;
            e.set_handled(true);
            true
        });
        assert!(handled);
    }
    assert_eq!(calls, 1);
    assert!(event.get_handled());

    let mut other = WindowCloseEvent::new("close".to_string());
    let mut stray = 0;
    {
        let mut dispatcher = EventDispatcher::new(EventType::KeyPressed, &mut other);
        let handled = dispatcher.dispatch(|e: &mut WindowCloseEvent| {
            stray += 1;
            e.set_handled(true);
            true
        });
        assert!(!handled);
    }
    assert_eq!(stray, 0);
    assert!(!other.get_handled());
}

#[test]
fn dispatcher_passes_on_a_false_answer() {
    let mut event = KeyPressedEvent::new("down".to_string(), 65, 0);
    let mut dispatcher = EventDispatcher::new(EventType::KeyPressed, &mut event);
    assert!(!dispatcher.dispatch(|_e: &mut KeyPressedEvent| false));
}

#[test]
fn payloads_are_described_as_text() {
    let none: Vec<String> = vec![];
    let k = EventType::KeyPressed;
    assert_eq!(
        EventData::Bool(true, EventType::WindowFocus).describe(&none, ""),
        "EventData::Bool: true, type: WindowFocus"
    );
    assert_eq!(
        EventData::Boolp(false, true, k).describe(&none, ""),
        "EventData::Boolp: false, true, type: KeyPressed"
    );
    assert_eq!(
        EventData::Bools(vec![true, false, true], k).describe(&none, ""),
        "EventData::Bools: size: 3, type: KeyPressed"
    );
    assert_eq!(EventData::U32(7, k).describe(&none, ""), "EventData::U32: 7, type: KeyPressed");
    assert_eq!(
        EventData::U32p(228, 1, EventType::TextInput).describe(&none, ""),
        "EventData::U32p: 228, 1, type: TextChar"
    );
    assert_eq!(
        EventData::U64(u64::MAX, k).describe(&none, ""),
        "EventData::U64: 18446744073709551615, type: KeyPressed"
    );
    assert_eq!(
        EventData::U64p(0, 10, k).describe(&none, ""),
        "EventData::U64p: 0, 10, type: KeyPressed"
    );
    assert_eq!(
        EventData::I32(i32::MIN, k).describe(&none, ""),
        "EventData::I32: -2147483648, type: KeyPressed"
    );
    assert_eq!(
        EventData::I32p(65, 0, k).describe(&none, ""),
        "EventData::I32p: 65, 0, type: KeyPressed"
    );
    assert_eq!(
        EventData::I64p(-1, i64::MIN, k).describe(&none, ""),
        "EventData::I64p: -1, -9223372036854775808, type: KeyPressed"
    );
    assert_eq!(
        EventData::I64s(vec![], k).describe(&none, ""),
        "EventData::I64s: size: 0, type: KeyPressed"
    );
    assert_eq!(
        EventData::StringD("hello".to_string(), k).describe(&none, ""),
        "EventData::StringD: hello, type: KeyPressed"
    );
    assert_eq!(
        EventData::Strings(vec!["a".to_string(), "b".to_string()], k).describe(&none, ""),
        "EventData::Strings: size: 2, type: KeyPressed"
    );
    assert_eq!(
        EventData::PathBufD(PathBuf::from("/tmp/a"), EventType::AppFileDropped)
            .describe(&none, "/tmp/a"),
        "EventData::PathBufD: to_str: /tmp/a, type: AppFileDropped"
    );
    assert_eq!(
        EventData::PathBufs(vec![PathBuf::from("a")], EventType::AppFileDropped)
            .describe(&none, ""),
        "EventData::PathBufs: size: 1, type: AppFileDropped"
    );
}

#[test]
fn float_payloads_are_described_with_the_texts_given() {
    let w = 800.0f32;
    let h = 600.5f32;
    let texts = vec![format!("{}", w), format!("{}", h)];
    assert_eq!(
        EventData::F32p(w.to_bits(), h.to_bits(), EventType::WindowResize).describe(&texts, ""),
        "EventData::F32p: 800, 600.5, type: WindowResize"
    );
    assert_eq!(
        EventData::F32(w.to_bits(), EventType::WindowResize).describe(&texts, ""),
        "EventData::F32: 800, type: WindowResize"
    );
    assert_eq!(
        EventData::F64p(1, 2, EventType::MouseMoved).describe(&vec!["1.5".to_string()], ""),
        "EventData::F64p: 1.5, , type: MouseMoved"
    );
    assert_eq!(
        EventData::F64(1, EventType::MouseMoved).describe(&vec![], ""),
        "EventData::F64: , type: MouseMoved"
    );
    assert_eq!(
        EventData::F32s(vec![1, 2], EventType::MouseMoved).describe(&texts, ""),
        "EventData::F32s: size: 2, type: MouseMoved"
    );
    assert_eq!(
        EventData::F64s(vec![1], EventType::MouseMoved).describe(&texts, ""),
        "EventData::F64s: size: 1, type: MouseMoved"
    );
}
