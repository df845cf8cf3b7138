//! The application: what it owns, the subscriber through which it learns
//! that its window was asked to close, and the decisions that its two
//! loops take each cycle.
//!
//! The loops themselves belong to the program that embeds the crate. One
//! thread polls the window and updates the layers; the main thread
//! presents frames. Both stop once a close is observed, and the thread
//! that updates tells the main thread twice: through the subscriber that
//! consumes the close event, and through a flag of its own that needs no
//! lock.

use crate::events::event::{Event, EventData, EventType};
use crate::layers::{Layer, LayerStack};
use crate::settings::Settings;
use crate::signals::{
    read_target,
    share,
    shared_slot,
    try_read_slot,
    Data,
    Slot,
    SyncData,
    SyncSlot,
};
use crate::window::{updated, Update, Window, WindowEvent, WindowProps, WindowSlot};
use std::sync::Arc;
use std::sync::RwLock;
use vstd::prelude::*;

verus! {

/// The least time, in milliseconds, between two polling cycles of the
/// thread that updates.
pub const UPDATE_INTERVAL_MS: u64 = 10;

/// The subscriber of the application. It consumes every kind of event,
/// handles none, and remembers that the window was asked to close.
pub struct EventHandler {
    should_close: bool,
}

impl EventHandler {
    pub closed spec fn spec_should_close(&self) -> bool {
        self.should_close
    }

    /// What consuming an event of kind `kind` leaves of `pre`: a close is
    /// remembered for good, and no other kind changes anything.
    pub open spec fn after(pre: EventHandler, kind: EventType, post: EventHandler) -> bool {
        post.should_close() == (pre.should_close() || kind == EventType::WindowClose)
    }

    /// A subscriber that has seen no close, ready to be shared.
    pub fn new() -> (handler: Arc<RwLock<EventHandler>>) {
        shared_slot(EventHandler { should_close: false })
    }

    /// A subscriber that has seen no close, for one thread.
    pub fn local() -> (handler: EventHandler)
        ensures
            !handler.should_close(),
    {
        EventHandler { should_close: false }
    }

    /// Whether the window was asked to close.
    #[verifier::when_used_as_spec(spec_should_close)]
    pub fn should_close(&self) -> (close: bool)
        ensures
            close == self.spec_should_close(),
    {
        self.should_close
    }

    /// Takes note of an event. The payload of every event is of the shape
    /// that its kind defines, so there is nothing to reject.
    fn note<E: Event>(&mut self, event: &E) -> (handled: bool)
        ensures
            !handled,
            EventHandler::after(*old(self), E::kind(), *final(self)),
    {
        let data = event.get_data();
        match event.get_event_type() {
            EventType::WindowClose => {
                self.should_close = true;
            },
            EventType::KeyPressed
            | EventType::KeyReleased
            | EventType::MouseButtonPressed
            | EventType::MouseButtonReleased => {
                assert(data matches Some(EventData::I32p(_, _, _)));
            },
            EventType::MouseMoved
            | EventType::MouseScrolled
            | EventType::WindowMoved
            | EventType::WindowResize => {
                assert(data matches Some(EventData::F32p(_, _, _)));
            },
            EventType::WindowFocus | EventType::WindowIconify | EventType::WindowMaximize => {
                assert(data matches Some(EventData::Bool(_, _)));
            },
            EventType::MouseEntered | EventType::WindowRefresh => {
                assert(data is None);
            },
            EventType::NoEvent
            | EventType::RenderFramebufferResize
            | EventType::RenderContentScaleResize
            | EventType::AppTick
            | EventType::AppUpdate
            | EventType::AppRender
            | EventType::AppFileDropped
            | EventType::TextInput => {},
        }
        false
    }
}

impl<E: Event + Send + Sync> SyncSlot<E> for EventHandler {
    open spec fn may_consume(pre: Self, event: E, post: Self, handled: bool) -> bool {
        !handled && EventHandler::after(pre, E::kind(), post)
    }

    fn consume(&mut self, event: &SyncData<&E>) -> (handled: bool) {
        self.note(*event.sig())
    }
}

impl<E: Event> Slot<E> for EventHandler {
    open spec fn may_consume(pre: Self, event: E, post: Self, handled: bool) -> bool {
        !handled && EventHandler::after(pre, E::kind(), post)
    }

    fn consume(&mut self, event: &Data<&E>) -> (handled: bool) {
        self.note(*event.sig())
    }
}

impl WindowSlot for EventHandler {

}

/// What the thread that updates learned of the window in one cycle.
#[derive(Debug, PartialEq, Eq, Clone, Copy, Structural)]
pub enum Poll {
    /// The window was polled; the flag says whether it has been asked to
    /// close.
    Polled(bool),
    /// The lock of the window is poisoned.
    Poisoned,
}

/// What the thread that updates does after polling.
#[derive(Debug, PartialEq, Eq, Clone, Copy, Structural)]
pub enum UpdateStep {
    /// Update the layers, if their lock can be had, and go on.
    UpdateLayers,
    /// Raise the backup flag and end the thread.
    RaiseBackupAndStop,
}

/// What the main thread learned of the application's subscriber.
#[derive(Debug, PartialEq, Eq, Clone, Copy, Structural)]
pub enum HandlerView {
    /// The subscriber was read; the flag says whether it has seen a close.
    Seen(bool),
    /// The lock of the subscriber could not be had.
    Unavailable,
}

/// Why the main loop ends.
#[derive(Debug, PartialEq, Eq, Clone, Copy, Structural)]
pub enum Shutdown {
    /// The thread that updates raised the backup flag.
    BackupSignal,
    /// The subscriber has seen the close event.
    CloseRequested,
    /// The lock of the window is poisoned.
    WindowPoisoned,
}

/// What the main thread does next.
#[derive(Debug, PartialEq, Eq, Clone, Copy, Structural)]
pub enum FrameStep {
    /// Present a frame and go on.
    Present,
    /// Stop presenting, join the thread that updates, and return.
    Stop(Shutdown),
}

/// The decision of the thread that updates: it stops, raising the backup
/// flag, once the window has been asked to close or its lock is
/// poisoned.
pub open spec fn update_decision(poll: Poll) -> UpdateStep {
    match poll {
        Poll::Polled(false) => UpdateStep::UpdateLayers,
        _ => UpdateStep::RaiseBackupAndStop,
    }
}

/// The decision of the main thread before a frame: the backup flag is
/// looked at first and needs no lock; then the subscriber, if it could be
/// read. A subscriber that could not be read stops nothing.
pub open spec fn frame_decision(backup_raised: bool, handler: HandlerView) -> FrameStep {
    if backup_raised {
        FrameStep::Stop(Shutdown::BackupSignal)
    } else if handler == HandlerView::Seen(true) {
        FrameStep::Stop(Shutdown::CloseRequested)
    } else {
        FrameStep::Present
    }
}

/// The decision of the main thread once it has tried to present: a
/// poisoned window lock ends the loop.
pub open spec fn present_decision(window_locked: bool) -> FrameStep {
    if window_locked {
        FrameStep::Present
    } else {
        FrameStep::Stop(Shutdown::WindowPoisoned)
    }
}

/// What the thread that updates does after polling the window.
pub fn after_poll(poll: Poll) -> (step: UpdateStep)
    ensures
        step == update_decision(poll),
{
    match poll {
        Poll::Polled(close) => if close {
            UpdateStep::RaiseBackupAndStop
        } else {
            UpdateStep::UpdateLayers
        },
        Poll::Poisoned => UpdateStep::RaiseBackupAndStop,
    }
}

/// What the main thread does before a frame.
pub fn before_frame(backup_raised: bool, handler: HandlerView) -> (step: FrameStep)
    ensures
        step == frame_decision(backup_raised, handler),
{
    if backup_raised {
        return FrameStep::Stop(Shutdown::BackupSignal);
    }
    match handler {
        HandlerView::Seen(close) => if close {
            FrameStep::Stop(Shutdown::CloseRequested)
        } else {
            FrameStep::Present
        },
        HandlerView::Unavailable => FrameStep::Present,
    }
}

/// What the main thread does once it has tried to present a frame.
pub fn after_present(window_locked: bool) -> (step: FrameStep)
    ensures
        step == present_decision(window_locked),
{
    if window_locked {
        FrameStep::Present
    } else {
        FrameStep::Stop(Shutdown::WindowPoisoned)
    }
}

/// What the main thread learned of the subscriber, given what reading it
/// without waiting gave: whether it has seen a close, or nothing where
/// its lock could not be had.
pub fn handler_view(read: Option<bool>) -> (view: HandlerView)
    ensures
        view == match read {
            Some(close) => HandlerView::Seen(close),
            None => HandlerView::Unavailable,
        },
{
    match read {
        Some(close) => HandlerView::Seen(close),
        None => HandlerView::Unavailable,
    }
}

/// Looks at the shared subscriber without waiting for its lock. What
/// comes back depends on the other threads.
pub fn observe(handler: &Arc<RwLock<EventHandler>>) -> (view: HandlerView) {
    match try_read_slot(handler) {
        Some(guard) => handler_view(Some(read_target(&guard).should_close())),
        None => handler_view(None),
    }
}

/// What one cycle of the thread that updates did.
#[derive(Debug, PartialEq)]
pub struct Cycle {
    /// What the thread does next.
    pub step: UpdateStep,
    /// What the polling cycle of the window did, where the window could
    /// be had.
    pub update: Option<Update>,
}

/// One cycle of the thread that updates, given what the window system
/// reported and the window, if its lock could be had: the reports are
/// emitted, and the thread stops once the window has been asked to close
/// or is out of reach for good.
pub fn update_cycle<S: WindowSlot>(
    window: Option<&mut Window<S>>,
    events: &Vec<WindowEvent>,
) -> (cycle: Cycle)
    ensures
        match window {
            Some(w) => {
                &&& cycle.update matches Some(update)
                &&& updated(*w, events@, *final(w), update)
                &&& cycle.step == update_decision(Poll::Polled(update.close))
            },
            None => cycle.update is None && cycle.step == update_decision(Poll::Poisoned),
        },
{
    match window {
        Some(w) => {
            let update = w.on_update(events);
            let step = after_poll(Poll::Polled(update.close));
            Cycle { step, update: Some(update) }
        },
        None => Cycle { step: after_poll(Poll::Poisoned), update: None },
    }
}

/// One cycle of an application that runs on a single thread: what the
/// window system reported is emitted, then every layer and after them
/// every overlay is updated. Reports what the polling cycle did; that the
/// window has been asked to close ends the loop once the frame is
/// presented.
pub fn single_cycle<S: WindowSlot>(
    window: &mut Window<S>,
    stack: &mut LayerStack,
    events: &Vec<WindowEvent>,
) -> (update: Update)
    ensures
        updated(*old(window), events@, *final(window), update),
        final(stack)@ == old(stack)@,
        final(stack).boundary() == old(stack).boundary(),
{
    let update = window.on_update(events);
    stack.update_all();
    update
}

/// However the close reaches the main thread, the main loop ends.
///
/// Once the thread that updates has polled a window that was asked to
/// close, it raises the backup flag and stops. The subscriber of the
/// application, if the close event reaches it, has seen the close
/// afterwards, whatever it had seen before; the main thread then stops
/// as soon as it reads the subscriber. And where the subscriber cannot
/// be read, the raised backup flag alone stops the main thread.
pub proof fn lemma_close_ends_both_loops<E: Event + Send + Sync>(
    pre: EventHandler,
    event: E,
    post: EventHandler,
    handled: bool,
    handler: HandlerView,
)
    requires
        E::kind() == EventType::WindowClose,
        <EventHandler as SyncSlot<E>>::may_consume(pre, event, post, handled),
    ensures
        update_decision(Poll::Polled(true)) == UpdateStep::RaiseBackupAndStop,
        post.should_close(),
        frame_decision(false, HandlerView::Seen(post.should_close())) == FrameStep::Stop(
            Shutdown::CloseRequested,
        ),
        frame_decision(true, handler) == FrameStep::Stop(Shutdown::BackupSignal),
{
}

/// A close that the subscriber has seen stays seen: no later event takes
/// it back.
pub proof fn lemma_close_is_kept<E: Event + Send + Sync>(
    pre: EventHandler,
    event: E,
    post: EventHandler,
    handled: bool,
)
    requires
        pre.should_close(),
        <EventHandler as SyncSlot<E>>::may_consume(pre, event, post, handled),
    ensures
        post.should_close(),
{
}

/// An application: its name, whether it runs, its settings, its window,
/// its layers and its subscriber.
pub struct MagnusApplication {
    name: String,
    running: bool,
    settings: Settings,
    window: Window<EventHandler>,
    layer_stack: LayerStack,
    event_handler: Arc<RwLock<EventHandler>>,
}

impl MagnusApplication {
    pub closed spec fn spec_name(&self) -> Seq<char> {
        self.name@
    }

    pub closed spec fn spec_running(&self) -> bool {
        self.running
    }

    pub closed spec fn spec_settings(&self) -> Settings {
        self.settings
    }

    pub closed spec fn spec_window(&self) -> Window<EventHandler> {
        self.window
    }

    pub closed spec fn spec_layer_stack(&self) -> LayerStack {
        self.layer_stack
    }

    pub closed spec fn spec_event_handler(&self) -> Arc<RwLock<EventHandler>> {
        self.event_handler
    }

    /// Whether `other` differs from this application in its layers at
    /// most: name, settings, window, subscriber and the running flag are
    /// the same.
    pub open spec fn same_but_layers(&self, other: MagnusApplication) -> bool {
        &&& other.spec_name() == self.spec_name()
        &&& other.spec_settings() == self.spec_settings()
        &&& other.spec_window() == self.spec_window()
        &&& other.spec_event_handler() == self.spec_event_handler()
        &&& other.get_running() == self.get_running()
    }

    /// Whether `other` differs from this application in its running flag
    /// at most.
    pub open spec fn same_but_running(&self, other: MagnusApplication) -> bool {
        &&& other.spec_name() == self.spec_name()
        &&& other.spec_settings() == self.spec_settings()
        &&& other.spec_window() == self.spec_window()
        &&& other.spec_event_handler() == self.spec_event_handler()
        &&& other.spec_layer_stack() == self.spec_layer_stack()
    }

    /// A running application with a window of the size and graphics
    /// interface that the settings name, titled with the application's
    /// name, an empty layer stack, and a subscriber that is not connected
    /// yet.
    pub fn new(name: String, settings: Settings) -> (app: MagnusApplication)
        ensures
            app.spec_name() == name@,
            app.get_running(),
            app.spec_settings() == settings,
            app.spec_window().spec_props().spec_title() == name@,
            app.spec_window().spec_props().width() == settings.graphics().width(),
            app.spec_window().spec_props().height() == settings.graphics().height(),
            app.spec_window().spec_props().graphics_mode() == settings.graphics().mode(),
            app.spec_window().slots().len() == 0,
            !app.spec_window().should_close(),
            app.spec_layer_stack()@.len() == 0,
    {
        let props = WindowProps::new(
            name.clone(),
            Some(settings.graphics().size()),
            settings.graphics().mode(),
        );
        MagnusApplication {
            name,
            running: true,
            settings,
            window: Window::new(props),
            layer_stack: LayerStack::new(None, None),
            event_handler: EventHandler::new(),
        }
    }

    /// Connects the application's subscriber to its window, first under
    /// resizes and then under closes; the first step of running.
    pub fn connect_handlers(&mut self)
        ensures
            final(self).spec_window().slots() == old(self).spec_window().slots().push(
                (old(self).spec_event_handler(), EventType::WindowResize),
            ).push((old(self).spec_event_handler(), EventType::WindowClose)),
            final(self).spec_window().spec_props() == old(self).spec_window().spec_props(),
            final(self).spec_window().should_close() == old(self).spec_window().should_close(),
            final(self).spec_event_handler() == old(self).spec_event_handler(),
            final(self).spec_layer_stack() == old(self).spec_layer_stack(),
            final(self).get_running() == old(self).get_running(),
            final(self).spec_name() == old(self).spec_name(),
            final(self).spec_settings() == old(self).spec_settings(),
    {
        let for_resize = share(&self.event_handler);
        let for_close = share(&self.event_handler);
        self.window.connect_slot(EventType::WindowResize, for_resize);
        self.window.connect_slot(EventType::WindowClose, for_close);
    }

    /// Takes the application apart for its two loops: the window, the
    /// layer stack and the subscriber.
    pub fn into_parts(
        self,
    ) -> (parts: (Window<EventHandler>, LayerStack, Arc<RwLock<EventHandler>>))
        ensures
            parts.0 == self.spec_window(),
            parts.1 == self.spec_layer_stack(),
            parts.2 == self.spec_event_handler(),
    {
        (self.window, self.layer_stack, self.event_handler)
    }

    pub fn name(&self) -> (name: &String)
        ensures
            name@ == self.spec_name(),
    {
        &self.name
    }

    pub fn settings(&self) -> (settings: Settings)
        ensures
            settings == self.spec_settings(),
    {
        self.settings
    }

    pub fn push_layer(&mut self, layer: Layer)
        ensures
            final(self).spec_layer_stack()@ == old(self).spec_layer_stack()@.insert(
                old(self).spec_layer_stack().boundary() as int,
                layer,
            ),
            final(self).spec_layer_stack().boundary() == old(self).spec_layer_stack().boundary()
                + 1,
            old(self).same_but_layers(*final(self)),
    {
        self.layer_stack.push_layer(layer);
    }

    pub fn push_overlay(&mut self, layer: Layer)
        ensures
            final(self).spec_layer_stack()@ == old(self).spec_layer_stack()@.push(layer),
            final(self).spec_layer_stack().boundary() == old(self).spec_layer_stack().boundary(),
            old(self).same_but_layers(*final(self)),
    {
        self.layer_stack.push_overlay(layer);
    }

    pub fn remove_layer(&mut self) -> (layer: Layer)
        requires
            old(self).spec_layer_stack().boundary() > 0,
        ensures
            layer == old(self).spec_layer_stack()@[old(self).spec_layer_stack().boundary() - 1],
            final(self).spec_layer_stack()@ == old(self).spec_layer_stack()@.remove(
                old(self).spec_layer_stack().boundary() - 1,
            ),
            final(self).spec_layer_stack().boundary() == old(self).spec_layer_stack().boundary()
                - 1,
            old(self).same_but_layers(*final(self)),
    {
        self.layer_stack.remove_layer()
    }

    pub fn remove_overlay(&mut self) -> (layer: Layer)
        requires
            old(self).spec_layer_stack().boundary() < old(self).spec_layer_stack()@.len(),
        ensures
            layer == old(self).spec_layer_stack()@.last(),
            final(self).spec_layer_stack()@ == old(self).spec_layer_stack()@.drop_last(),
            final(self).spec_layer_stack().boundary() == old(self).spec_layer_stack().boundary(),
            old(self).same_but_layers(*final(self)),
    {
        self.layer_stack.remove_overlay()
    }

    /// The layer stack, open to change.
    pub fn layer_stack(&mut self) -> (stack: &mut LayerStack)
        ensures
            *stack == old(self).spec_layer_stack(),
            final(self).spec_layer_stack() == *final(stack),
            old(self).same_but_layers(*final(self)),
    {
        &mut self.layer_stack
    }

    #[inline(always)]
    #[verifier::when_used_as_spec(spec_running)]
    pub fn get_running(&self) -> (running: bool)
        ensures
            running == self.spec_running(),
    {
        self.running
    }

    #[inline(always)]
    pub fn set_running(&mut self, set: bool)
        ensures
            final(self).get_running() == set,
            old(self).same_but_running(*final(self)),
    {
        self.running = set;
    }

    /// A resize is noted and left for others to handle.
    pub fn on_window_resize<E: Event>(&mut self, e: &mut E) -> (handled: bool)
        ensures
            !handled,
            !final(e).handled(),
            final(e).payload() == old(e).payload(),
            final(e).message() == old(e).message(),
            *final(self) == *old(self),
    {
        e.set_handled(false);
        false
    }

    /// A close is handled: the application stops running.
    pub fn on_window_close<E: Event>(&mut self, e: &mut E) -> (handled: bool)
        ensures
            handled,
            final(e).handled(),
            final(e).payload() == old(e).payload(),
            final(e).message() == old(e).message(),
            !final(self).get_running(),
            old(self).same_but_running(*final(self)),
    {
        e.set_handled(true);
        self.set_running(false);
        true
    }
}

} // verus!
