use magnus::events::event::{Event, EventData, EventType};
use magnus::events::key_events::{KeyPressedEvent, KeyReleasedEvent};
use magnus::events::window_events::{WindowCloseEvent, WindowResizeEvent};
use magnus::signals::{Data, Registry, Signal, SignalError, Slot};
use std::cell::RefCell;
use std::rc::Rc;

struct KeyRecorder {
    seen: Vec<(i32, i32)>,
}

impl Slot<KeyPressedEvent> for KeyRecorder {
    fn consume(&mut self, event: &Data<&KeyPressedEvent>) -> bool {
        match event.sig().get_data() {
            Some(EventData::I32p(keycode, modifiers, EventType::KeyPressed)) => {
                self.seen.push((*keycode, *modifiers));
            }
            other => panic!("unexpected payload {:?}", other),
        }
        false
    }
}

/// Answers as told, and writes its name into a shared log when called.
struct Named {
    name: &'static str,
    answer: bool,
    log: Rc<RefCell<Vec<&'static str>>>,
}

impl<E: Event> Slot<E> for Named {
    fn consume(&mut self, _event: &Data<&E>) -> bool {
        self.log.borrow_mut().push(self.name);
        self.answer
    }
}

fn named(name: &'static str, answer: bool, log: &Rc<RefCell<Vec<&'static str>>>) -> Named {
    Named { name, answer, log: Rc::clone(log) }
}

fn resize() -> WindowResizeEvent {
    WindowResizeEvent::new("resize".to_string(), 800.0f32.to_bits(), 600.0f32.to_bits())
}

#[test]
fn key_pressed_reaches_the_recorder() {
    let mut registry: Registry<KeyRecorder> = Registry::new();
    registry.connect(EventType::KeyPressed, KeyRecorder { seen: vec![] });
    let event = KeyPressedEvent::new("A".to_string(), 65, 0);
    let result = registry.emit(Data::Sig(event));
    assert_eq!(result, Ok(()));
    assert_eq!(registry.subscriber(0).unwrap().seen, vec![(65, 0)]);
}

#[test]
fn handled_resize_stops_delivery() {
    let log = Rc::new(RefCell::new(vec![]));
    let mut registry: Registry<Named> = Registry::new();
    registry.connect(EventType::WindowResize, named("first", true, &log));
    registry.connect(EventType::WindowResize, named("second", false, &log));
    assert_eq!(registry.emit(Data::Sig(resize())), Ok(()));
    assert_eq!(*log.borrow(), vec!["first"]);
}

#[test]
fn delivery_follows_connection_order() {
    let log = Rc::new(RefCell::new(vec![]));
    let mut registry: Registry<Named> = Registry::new();
    registry.connect(EventType::WindowResize, named("s1", false, &log));
    registry.connect(EventType::KeyPressed, named("other", true, &log));
    registry.connect(EventType::WindowResize, named("s2", false, &log));
    registry.connect(EventType::WindowResize, named("s3", true, &log));
    registry.connect(EventType::WindowResize, named("s4", false, &log));
    let handled_by = registry.deliver(&resize());
    assert_eq!(handled_by, Some(3));
    assert_eq!(*log.borrow(), vec!["s1", "s2", "s3"]);
}

#[test]
fn unhandled_event_reaches_every_subscriber_of_its_kind() {
    let log = Rc::new(RefCell::new(vec![]));
    let mut registry: Registry<Named> = Registry::new();
    registry.connect(EventType::WindowResize, named("s1", false, &log));
    registry.connect(EventType::WindowClose, named("closer", true, &log));
    registry.connect(EventType::WindowResize, named("s2", false, &log));
    assert_eq!(registry.deliver(&resize()), None);
    assert_eq!(*log.borrow(), vec!["s1", "s2"]);
    assert_eq!(registry.deliver(&WindowCloseEvent::new("close".to_string())), Some(1));
    assert_eq!(*log.borrow(), vec!["s1", "s2", "closer"]);
}

#[test]
fn subscriber_of_another_kind_is_never_called() {
    let log = Rc::new(RefCell::new(vec![]));
    let mut registry: Registry<Named> = Registry::new();
    registry.connect(EventType::KeyReleased, named("released", true, &log));
    registry.connect(EventType::WindowClose, named("close", true, &log));
    let event = KeyPressedEvent::new("A".to_string(), 65, 0);
    assert_eq!(registry.emit(Data::Sig(event)), Ok(()));
    assert!(log.borrow().is_empty());
}

#[test]
fn emit_without_subscribers_is_ok() {
    let mut registry: Registry<Named> = Registry::new();
    assert_eq!(registry.len(), 0);
    assert_eq!(registry.emit(Data::Sig(resize())), Ok(()));
    assert_eq!(registry.emit(Data::Sig(WindowCloseEvent::new("c".to_string()))), Ok(()));
    assert_eq!(registry.emit(Data::Sig(KeyPressedEvent::new("k".to_string(), 1, 2))), Ok(()));
    assert_eq!(registry.len(), 0);
    assert_eq!(registry.deliver(&resize()), None);
}

#[test]
fn event_that_arrives_handled_is_offered_to_nobody() {
    let log = Rc::new(RefCell::new(vec![]));
    let mut registry: Registry<Named> = Registry::new();
    registry.connect(EventType::WindowResize, named("s1", false, &log));
    let mut event = resize();
    event.set_handled(true);
    assert_eq!(registry.deliver(&event), None);
    assert_eq!(registry.emit(Data::Sig(event)), Ok(()));
    assert!(log.borrow().is_empty());
}

#[test]
fn same_subscriber_connected_twice_is_called_twice() {
    let mut registry: Registry<KeyRecorder> = Registry::new();
    let recorder = registry.connect(EventType::KeyPressed, KeyRecorder { seen: vec![] });
    assert!(registry.connect_again(EventType::KeyPressed, recorder));
    assert_eq!(registry.len(), 2);
    assert_eq!(registry.subscriber_count(), 1);
    let event = KeyPressedEvent::new("A".to_string(), 65, 0);
    assert_eq!(registry.emit(Data::Sig(event)), Ok(()));
    assert_eq!(registry.subscriber(recorder).unwrap().seen, vec![(65, 0), (65, 0)]);
}

#[test]
fn one_subscriber_can_be_connected_under_several_kinds() {
    let log = Rc::new(RefCell::new(vec![]));
    let mut registry: Registry<Named> = Registry::new();
    let both = registry.connect(EventType::WindowResize, named("both", false, &log));
    let close_only = registry.connect(EventType::WindowClose, named("close", false, &log));
    assert!(registry.connect_again(EventType::WindowClose, both));
    assert_eq!((both, close_only), (0, 1));
    assert_eq!(registry.deliver(&resize()), None);
    assert_eq!(*log.borrow(), vec!["both"]);
    assert_eq!(registry.deliver(&WindowCloseEvent::new("c".to_string())), None);
    assert_eq!(*log.borrow(), vec!["both", "close", "both"]);
}

#[test]
fn unknown_handle_is_not_connected() {
    let log = Rc::new(RefCell::new(vec![]));
    let mut registry: Registry<Named> = Registry::new();
    assert!(!registry.connect_again(EventType::WindowResize, 0));
    let only = registry.add(named("only", true, &log));
    assert_eq!(only, 0);
    assert_eq!(registry.len(), 0);
    assert_eq!(registry.subscriber_count(), 1);
    assert!(!registry.connect_again(EventType::WindowResize, 1));
    assert_eq!(registry.len(), 0);
    assert_eq!(registry.deliver(&resize()), None);
    assert!(log.borrow().is_empty());
    assert!(registry.connect_again(EventType::WindowResize, only));
    assert_eq!(registry.connected_subscriber(0), Some(0));
    assert_eq!(registry.connected_subscriber(1), None);
    assert_eq!(registry.deliver(&resize()), Some(0));
    assert_eq!(*log.borrow(), vec!["only"]);
}

#[test]
fn connections_are_kept_in_order() {
    let log = Rc::new(RefCell::new(vec![]));
    let mut registry: Registry<Named> = Registry::new();
    registry.connect(EventType::WindowResize, named("a", false, &log));
    registry.connect(EventType::KeyPressed, named("b", false, &log));
    assert_eq!(registry.len(), 2);
    assert_eq!(registry.connected_type(0), Some(EventType::WindowResize));
    assert_eq!(registry.connected_type(1), Some(EventType::KeyPressed));
    assert_eq!(registry.connected_type(2), None);
    assert_eq!(registry.subscriber(0).unwrap().name, "a");
    assert_eq!(registry.subscriber(1).unwrap().name, "b");
    assert!(registry.subscriber(2).is_none());
}

#[test]
fn signal_trait_connects_under_the_kind_of_the_event() {
    let log = Rc::new(RefCell::new(vec![]));
    let mut registry: Registry<Named> = Registry::new();
    Signal::<KeyReleasedEvent, Named>::connect(&mut registry, named("released", false, &log));
    Signal::<WindowCloseEvent, Named>::connect(&mut registry, named("close", true, &log));
    assert_eq!(registry.connected_type(0), Some(EventType::KeyReleased));
    assert_eq!(registry.connected_type(1), Some(EventType::WindowClose));
    let event = KeyReleasedEvent::new("up".to_string(), 65, 0);
    assert_eq!(Signal::emit(&mut registry, Data::Sig(event)), Ok(()));
    assert_eq!(*log.borrow(), vec!["released"]);
}

#[test]
fn data_hands_out_what_it_holds() {
    let data = Data::Sig(41);
    assert_eq!(*data.sig(), 41);
    let text = Data::Sig("x".to_string());
    assert_eq!(text.sig().as_str(), "x");
}

#[test]
fn signal_error_in_words() {
    assert_eq!(SignalError::NoPayload.message(), "No data in event!");
}
