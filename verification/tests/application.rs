use magnus::application::{
    after_poll, after_present, before_frame, handler_view, observe, single_cycle, update_cycle,
    EventHandler, FrameStep,
    HandlerView, MagnusApplication, Poll, Shutdown, UpdateStep, UPDATE_INTERVAL_MS,
};
use magnus::events::event::{Event, EventType};
use magnus::events::key_events::KeyPressedEvent;
use magnus::events::mouse_events::MouseEnteredEvent;
use magnus::events::window_events::{WindowCloseEvent, WindowResizeEvent};
use magnus::layers::{Layer, LayerStack};
use magnus::settings::{GraphicsMode, GraphicsSettings, Settings};
use magnus::signals::{share, Data, Delivery, Registry, Slot, SyncData, SyncSlot};
use magnus::window::{Action, Measure, Window, WindowEvent, WindowProps};
use std::sync::atomic::{AtomicBool, Ordering};

fn window() -> Window<EventHandler> {
    Window::new(WindowProps::new("game".to_string(), None, GraphicsMode::OpenGL))
}

fn layer(name: &str) -> Layer {
    Layer::new(true, None, name.to_string())
}

#[test]
fn update_thread_waits_ten_milliseconds() {
    assert_eq!(UPDATE_INTERVAL_MS, 10);
}

#[test]
fn update_thread_stops_on_close_or_poison() {
    assert_eq!(after_poll(Poll::Polled(false)), UpdateStep::UpdateLayers);
    assert_eq!(after_poll(Poll::Polled(true)), UpdateStep::RaiseBackupAndStop);
    assert_eq!(after_poll(Poll::Poisoned), UpdateStep::RaiseBackupAndStop);
}

#[test]
fn main_thread_looks_at_the_backup_flag_first() {
    for handler in [HandlerView::Seen(false), HandlerView::Seen(true), HandlerView::Unavailable] {
        assert_eq!(before_frame(true, handler), FrameStep::Stop(Shutdown::BackupSignal));
    }
    assert_eq!(
        before_frame(false, HandlerView::Seen(true)),
        FrameStep::Stop(Shutdown::CloseRequested)
    );
    assert_eq!(before_frame(false, HandlerView::Seen(false)), FrameStep::Present);
    assert_eq!(before_frame(false, HandlerView::Unavailable), FrameStep::Present);
}

#[test]
fn main_thread_stops_on_a_poisoned_window() {
    assert_eq!(after_present(true), FrameStep::Present);
    assert_eq!(after_present(false), FrameStep::Stop(Shutdown::WindowPoisoned));
}

#[test]
fn handler_remembers_a_close_and_handles_nothing() {
    let mut handler = EventHandler::local();
    assert!(!handler.should_close());
    let key = KeyPressedEvent::new("A".to_string(), 65, 0);
    assert!(!Slot::consume(&mut handler, &Data::Sig(&key)));
    let entered = MouseEnteredEvent::new("in".to_string());
    assert!(!Slot::consume(&mut handler, &Data::Sig(&entered)));
    let resize = WindowResizeEvent::new("r".to_string(), 1.0f32.to_bits(), 2.0f32.to_bits());
    assert!(!SyncSlot::consume(&mut handler, &SyncData::Sig(&resize)));
    assert!(!handler.should_close());
    let close = WindowCloseEvent::new("close".to_string());
    assert!(!SyncSlot::consume(&mut handler, &SyncData::Sig(&close)));
    assert!(handler.should_close());
    assert!(!Slot::consume(&mut handler, &Data::Sig(&key)));
    assert!(handler.should_close());
}

#[test]
fn handler_in_a_registry_does_not_stop_delivery() {
    let mut registry: Registry<EventHandler> = Registry::new();
    registry.connect(EventType::WindowClose, EventHandler::local());
    registry.connect(EventType::WindowResize, EventHandler::local());
    registry.connect(EventType::WindowClose, EventHandler::local());
    assert_eq!(registry.deliver(&WindowCloseEvent::new("close".to_string())), None);
    assert!(registry.subscriber(0).unwrap().should_close());
    assert!(!registry.subscriber(1).unwrap().should_close());
    assert!(registry.subscriber(2).unwrap().should_close());
}

#[test]
fn observe_reads_the_handler_unless_it_is_locked() {
    let handler = EventHandler::new();
    assert_eq!(observe(&handler), HandlerView::Seen(false));
    {
        let _writer = handler.write().unwrap();
        assert_eq!(observe(&handler), HandlerView::Unavailable);
    }
    {
        let _reader = handler.read().unwrap();
        assert_eq!(observe(&handler), HandlerView::Seen(false));
    }
    let close = WindowCloseEvent::new("close".to_string());
    SyncSlot::consume(&mut *handler.write().unwrap(), &SyncData::Sig(&close));
    assert_eq!(observe(&handler), HandlerView::Seen(true));
}

#[test]
fn close_reaches_the_main_loop_through_the_handler() {
    let handler = EventHandler::new();
    let mut window = window();
    window.connect_slot(EventType::WindowResize, share(&handler));
    window.connect_slot(EventType::WindowClose, share(&handler));
    let backup = AtomicBool::new(false);

    let quiet = vec![WindowEvent::Key { scancode: 65, action: Action::Press, modifiers: 0 }];
    assert_eq!(update_cycle(Some(&mut window), &quiet).step, UpdateStep::UpdateLayers);
    assert_eq!(before_frame(backup.load(Ordering::SeqCst), observe(&handler)), FrameStep::Present);

    let cycle = update_cycle(Some(&mut window), &vec![WindowEvent::Close]);
    assert_eq!(cycle.step, UpdateStep::RaiseBackupAndStop);
    let update = cycle.update.unwrap();
    assert!(update.close);
    assert_eq!(
        update.emitted[0].as_ref().unwrap().delivery,
        Delivery { handled_by: None, declined: vec![1], skipped: vec![] }
    );
    assert_eq!(observe(&handler), HandlerView::Seen(true));
    assert_eq!(
        before_frame(backup.load(Ordering::SeqCst), observe(&handler)),
        FrameStep::Stop(Shutdown::CloseRequested)
    );
    backup.store(true, Ordering::SeqCst);
    assert_eq!(
        before_frame(backup.load(Ordering::SeqCst), observe(&handler)),
        FrameStep::Stop(Shutdown::BackupSignal)
    );
}

#[test]
fn close_reaches_the_main_loop_through_the_backup_flag_when_the_handler_is_locked() {
    let handler = EventHandler::new();
    let mut window = window();
    window.connect_slot(EventType::WindowClose, share(&handler));
    let backup = AtomicBool::new(false);

    let cycle = {
        let _held = handler.read().unwrap();
        update_cycle(Some(&mut window), &vec![WindowEvent::Close])
    };
    let step = cycle.step;
    assert_eq!(step, UpdateStep::RaiseBackupAndStop);
    assert_eq!(
        cycle.update.unwrap().emitted[0].as_ref().unwrap().delivery,
        Delivery { handled_by: None, declined: vec![], skipped: vec![0] }
    );
    if step == UpdateStep::RaiseBackupAndStop {
        backup.store(true, Ordering::SeqCst);
    }
    assert_eq!(observe(&handler), HandlerView::Seen(false));
    let view = {
        let _writer = handler.write().unwrap();
        observe(&handler)
    };
    assert_eq!(view, HandlerView::Unavailable);
    assert_eq!(
        before_frame(backup.load(Ordering::SeqCst), view),
        FrameStep::Stop(Shutdown::BackupSignal)
    );
}

#[test]
fn update_cycle_without_the_window_stops() {
    let none: Option<&mut Window<EventHandler>> = None;
    let lost = update_cycle(none, &vec![]);
    assert_eq!(lost.step, UpdateStep::RaiseBackupAndStop);
    assert!(lost.update.is_none());
    let mut closed = window();
    closed.on_update(&vec![WindowEvent::Close]);
    assert_eq!(update_cycle(Some(&mut closed), &vec![]).step, UpdateStep::RaiseBackupAndStop);
    let scroll = WindowEvent::Scroll {
        x: Measure { bits: 0, text: "0".to_string() },
        y: Measure { bits: 0, text: "0".to_string() },
    };
    let mut open = window();
    let cycle = update_cycle(Some(&mut open), &vec![scroll]);
    assert_eq!(cycle.step, UpdateStep::UpdateLayers);
    assert_eq!((open.get_width(), open.get_height(), open.get_vsync()), (800, 600, 0));
}

#[test]
fn application_starts_running_with_a_window_from_its_settings() {
    let settings = Settings::with_graphics(GraphicsSettings::new(
        Some(1),
        Some((1920, 1080)),
        Some(GraphicsMode::Vulkan),
    ));
    let mut app = MagnusApplication::new("game".to_string(), settings);
    assert!(app.get_running());
    assert_eq!(app.name().as_str(), "game");
    assert_eq!(app.settings(), settings);
    assert_eq!(app.layer_stack().len(), 0);
    let (window, stack, handler) = app.into_parts();
    assert_eq!(window.get_props().title().as_str(), "game");
    assert_eq!((window.get_width(), window.get_height()), (1920, 1080));
    assert_eq!(window.get_props().graphics_mode(), GraphicsMode::Vulkan);
    assert_eq!(window.connection_count(), 0);
    assert!(!window.should_close());
    assert_eq!(stack.len(), 0);
    assert_eq!(observe(&handler), HandlerView::Seen(false));
}

#[test]
fn connected_application_learns_of_the_close() {
    let mut app = MagnusApplication::new("game".to_string(), Settings::new(GraphicsMode::OpenGL));
    app.connect_handlers();
    let (mut window, _stack, handler) = app.into_parts();
    assert_eq!(window.connection_count(), 2);
    let size = WindowEvent::Size {
        width: Measure { bits: 800.0f32.to_bits(), text: "800".to_string() },
        height: Measure { bits: 600.0f32.to_bits(), text: "600".to_string() },
    };
    assert!(!window.on_update(&vec![size]).close);
    assert_eq!(observe(&handler), HandlerView::Seen(false));
    assert!(window.on_update(&vec![WindowEvent::Close]).close);
    assert_eq!(observe(&handler), HandlerView::Seen(true));
}

#[test]
fn application_layers_go_through_its_stack() {
    let mut app = MagnusApplication::new("game".to_string(), Settings::new(GraphicsMode::OpenGL));
    app.push_layer(layer("a"));
    app.push_overlay(layer("o"));
    app.push_layer(layer("b"));
    let names: Vec<String> =
        app.layer_stack().iter_mut().iter().map(|l| l.debug_name().clone()).collect();
    assert_eq!(names, vec!["a", "b", "o"]);
    assert_eq!(app.remove_layer().debug_name().as_str(), "b");
    assert_eq!(app.remove_overlay().debug_name().as_str(), "o");
    assert_eq!(app.layer_stack().len(), 1);
    assert_eq!(app.layer_stack().layer_count(), 1);
}

#[test]
fn window_close_stops_the_application_and_resize_does_not() {
    let mut app = MagnusApplication::new("game".to_string(), Settings::new(GraphicsMode::OpenGL));
    let mut resize = WindowResizeEvent::new("r".to_string(), 1.0f32.to_bits(), 2.0f32.to_bits());
    resize.set_handled(true);
    assert!(!app.on_window_resize(&mut resize));
    assert!(!resize.get_handled());
    assert!(app.get_running());
    let mut close = WindowCloseEvent::new("close".to_string());
    assert!(app.on_window_close(&mut close));
    assert!(close.get_handled());
    assert!(!app.get_running());
    app.set_running(true);
    assert!(app.get_running());
}

#[test]
fn single_threaded_cycle_emits_updates_and_reports_the_close() {
    let handler = EventHandler::new();
    let mut window = window();
    window.connect_slot(EventType::WindowClose, share(&handler));
    let mut stack = LayerStack::new(None, None);
    stack.push_layer(layer("a"));
    stack.push_overlay(layer("o"));
    let quiet = vec![WindowEvent::Focus { focused: true }];
    assert!(!single_cycle(&mut window, &mut stack, &quiet).close);
    assert_eq!(observe(&handler), HandlerView::Seen(false));
    let update = single_cycle(&mut window, &mut stack, &vec![WindowEvent::Close]);
    assert!(update.close);
    assert_eq!(
        update.emitted[0].as_ref().unwrap().delivery,
        Delivery { handled_by: None, declined: vec![0], skipped: vec![] }
    );
    assert_eq!(observe(&handler), HandlerView::Seen(true));
    assert_eq!(stack.len(), 2);
    assert_eq!(stack.layer_count(), 1);
}

#[test]
fn handler_view_of_each_reading() {
    assert_eq!(handler_view(Some(true)), HandlerView::Seen(true));
    assert_eq!(handler_view(Some(false)), HandlerView::Seen(false));
    assert_eq!(handler_view(None), HandlerView::Unavailable);
}
