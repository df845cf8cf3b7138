//! Signals and slots: subscribers connected under an event kind, and the
//! delivery of one event to them in connection order until one of them
//! reports it handled.
//!
//! `Registry` owns its subscribers and is for one thread. The `Sync`
//! variants are for subscribers that are shared between threads behind a
//! reader/writer lock; a subscriber whose lock cannot be taken is skipped.

use crate::events::event::{expected_shape, Event, EventType};
use std::sync::Arc;
use std::sync::RwLock;
use std::sync::RwLockReadGuard;
use std::sync::RwLockWriteGuard;
use vstd::prelude::*;

verus! {

/// `std::sync::RwLock`, opaque: what a lock holds is never known without
/// taking it.
#[verifier::external_type_specification]
#[verifier::external_body]
#[verifier::reject_recursive_types(T)]
pub struct ExRwLock<T: ?Sized>(RwLock<T>);

/// `std::sync::RwLockWriteGuard`, opaque.
#[verifier::external_type_specification]
#[verifier::external_body]
#[verifier::reject_recursive_types(T)]
pub struct ExRwLockWriteGuard<'a, T: ?Sized + 'a>(RwLockWriteGuard<'a, T>);

/// `std::sync::RwLockReadGuard`, opaque.
#[verifier::external_type_specification]
#[verifier::external_body]
#[verifier::reject_recursive_types(T)]
pub struct ExRwLockReadGuard<'a, T: ?Sized>(RwLockReadGuard<'a, T>);

/// What a signal hands to a slot.
pub enum Data<T> {
    Sig(T),
}

impl<T> Data<T> {
    pub fn sig(&self) -> (t: &T)
        ensures
            *t == self->0,
    {
        match self {
            Data::Sig(t) => t,
        }
    }
}

/// What a signal hands to a slot that is shared between threads.
pub enum SyncData<T: Send + Sync> {
    Sig(T),
}

impl<T: Send + Sync> SyncData<T> {
    pub fn sig(&self) -> (t: &T)
        ensures
            *t == self->0,
    {
        match self {
            SyncData::Sig(t) => t,
        }
    }
}

/// Why an emission failed.
#[derive(Debug, PartialEq, Eq, Clone, Copy, Structural)]
pub enum SignalError {
    /// The event is of a kind that carries a payload, and has none.
    NoPayload,
}

impl SignalError {
    pub open spec fn text(self) -> Seq<char> {
        match self {
            SignalError::NoPayload => "No data in event!"@,
        }
    }

    /// The error in words.
    pub fn message(&self) -> (text: &'static str)
        ensures
            text@ == self.text(),
    {
        match self {
            SignalError::NoPayload => "No data in event!",
        }
    }
}

/// A subscriber: it consumes an event and says whether it fully handled
/// it, which stops the delivery to later subscribers.
pub trait Slot<T>: Sized {
    /// Whether consuming `event` may take the subscriber from `pre` to
    /// `post` with the answer `handled`. A subscriber that states nothing
    /// of itself admits every outcome.
    open spec fn may_consume(pre: Self, event: T, post: Self, handled: bool) -> bool {
        true
    }

    fn consume(&mut self, event: &Data<&T>) -> (handled: bool)
        ensures
            Self::may_consume(*old(self), *(event->0), *final(self), handled),
    ;
}

/// A subscriber that may be shared between threads.
pub trait SyncSlot<T: Send + Sync>: Send + Sync + Sized {
    /// Whether consuming `event` may take the subscriber from `pre` to
    /// `post` with the answer `handled`. A subscriber that states nothing
    /// of itself admits every outcome.
    open spec fn may_consume(pre: Self, event: T, post: Self, handled: bool) -> bool {
        true
    }

    fn consume(&mut self, event: &SyncData<&T>) -> (handled: bool)
        ensures
            Self::may_consume(*old(self), *(event->0), *final(self), handled),
    ;
}

/// A connection of a registry: the handle of a subscriber and the event
/// kind it is connected under.
pub type SlotPair = (usize, EventType);

/// A shared subscriber and the event kind it is connected under.
pub type SyncSlotPair<S> = (Arc<RwLock<S>>, EventType);

/// Whether the event requires a payload and has none.
pub open spec fn lacks_payload<E: Event>(event: E) -> bool {
    expected_shape(E::kind()) is Some && event.payload() is None
}

/// Whether connection `i` is offered an event of kind `kind`: it is
/// connected under that kind, the event did not arrive handled, and no
/// earlier connection handled it.
pub open spec fn is_recipient(
    kinds: Seq<EventType>,
    kind: EventType,
    arrived_handled: bool,
    handled_by: Option<usize>,
    i: int,
) -> bool {
    &&& !arrived_handled
    &&& kinds[i] == kind
    &&& handled_by matches Some(k) ==> i <= k
}

/// Whether `handled_by` can be the connection that handled an event of
/// kind `kind`: it is connected under that kind and the event did not
/// arrive handled.
pub open spec fn may_handle(
    kinds: Seq<EventType>,
    kind: EventType,
    arrived_handled: bool,
    handled_by: Option<usize>,
) -> bool {
    handled_by matches Some(k) ==> k < kinds.len() && kinds[k as int] == kind && !arrived_handled
}

/// The event kinds of a list of connections, in connection order.
pub open spec fn kinds_of<S>(slots: Seq<(S, EventType)>) -> Seq<EventType> {
    Seq::new(slots.len(), |i: int| slots[i].1)
}

/// What one offer makes of the subscribers of a registry.
///
/// `before` are the subscribers and `found` the handler when connection
/// `index`, which is `entry`, has its turn. If the connection is due the
/// event, its subscriber consumes it and every other subscriber stays as
/// it was; the connection is the handler from then on if the subscriber
/// answered that it handled the event. If the connection is not due the
/// event, nothing changes.
pub open spec fn offered<E: Event, S: Slot<E>>(
    before: Seq<S>,
    found: Option<usize>,
    entry: SlotPair,
    index: int,
    event: E,
    arrived_handled: bool,
    after: Seq<S>,
    handled_by: Option<usize>,
) -> bool {
    if is_due(entry.1, E::kind(), arrived_handled, found) && entry.0 < before.len() {
        &&& after.len() == before.len()
        &&& forall|j: int|
            0 <= j < before.len() && j != entry.0 ==> #[trigger] after[j] == before[j]
        &&& S::may_consume(before[entry.0 as int], event, after[entry.0 as int], handled_by is Some)
        &&& handled_by matches Some(k) ==> k == index
    } else {
        after == before && handled_by == found
    }
}

/// The course of one delivery pass over all connections of a registry.
///
/// `states[i]` are the subscribers and `handlers[i]` the handler when
/// connection `i` has its turn; the last of each is what the pass ends
/// in. The pass starts from `before` without a handler, and each
/// connection has its turn in connection order, as `offered` says,
/// starting from what the one before it left. So a subscriber that is
/// connected twice consumes twice, and after the first answer of handled
/// no connection is due any more.
pub open spec fn delivered<E: Event, S: Slot<E>>(
    before: Seq<S>,
    entries: Seq<SlotPair>,
    event: E,
    arrived_handled: bool,
    states: Seq<Seq<S>>,
    handlers: Seq<Option<usize>>,
) -> bool {
    &&& states.len() == entries.len() + 1
    &&& handlers.len() == entries.len() + 1
    &&& states[0] == before
    &&& handlers[0] is None
    &&& forall|i: int|
        0 <= i < entries.len() ==> offered(
            states[i],
            handlers[i],
            #[trigger] entries[i],
            i,
            event,
            arrived_handled,
            states[i + 1],
            handlers[i + 1],
        )
}

/// One delivery pass: it takes some course from `before` that ends in
/// the subscribers `after` and the handler `handled_by`.
pub open spec fn delivery<E: Event, S: Slot<E>>(
    before: Seq<S>,
    entries: Seq<SlotPair>,
    event: E,
    arrived_handled: bool,
    after: Seq<S>,
    handled_by: Option<usize>,
) -> bool {
    exists|states: Seq<Seq<S>>, handlers: Seq<Option<usize>>|
        {
            &&& #[trigger] delivered(before, entries, event, arrived_handled, states, handlers)
            &&& states.last() == after
            &&& handlers.last() == handled_by
        }
}

/// Subscribers for one thread and their connections. A subscriber is
/// owned by the registry and known by its handle; it may be connected
/// under several kinds, and more than once under one.
pub struct Registry<S> {
    subscribers: Vec<S>,
    slots: Vec<SlotPair>,
}

impl<S> Registry<S> {
    /// The subscribers, by handle.
    pub closed spec fn subscribers(&self) -> Seq<S> {
        self.subscribers@
    }

    /// The connections, oldest first.
    pub closed spec fn entries(&self) -> Seq<SlotPair> {
        self.slots@
    }

    /// A registry without subscribers and without connections.
    pub fn new() -> (registry: Registry<S>)
        ensures
            registry.subscribers() == Seq::<S>::empty(),
            registry.entries() == Seq::<SlotPair>::empty(),
    {
        Registry { subscribers: Vec::new(), slots: Vec::new() }
    }

    /// The number of connections.
    pub fn len(&self) -> (n: usize)
        ensures
            n == self.entries().len(),
    {
        self.slots.len()
    }

    /// The number of subscribers.
    pub fn subscriber_count(&self) -> (n: usize)
        ensures
            n == self.subscribers().len(),
    {
        self.subscribers.len()
    }

    /// Takes `slot` in without connecting it. Returns its handle.
    pub fn add(&mut self, slot: S) -> (handle: usize)
        ensures
            handle == old(self).subscribers().len(),
            final(self).subscribers() == old(self).subscribers().push(slot),
            final(self).entries() == old(self).entries(),
    {
        let handle = self.subscribers.len();
        self.subscribers.push(slot);
        handle
    }

    /// Takes `slot` in and connects it under `event_type`, after every
    /// earlier connection. Returns its handle.
    pub fn connect(&mut self, event_type: EventType, slot: S) -> (handle: usize)
        ensures
            handle == old(self).subscribers().len(),
            final(self).subscribers() == old(self).subscribers().push(slot),
            final(self).entries() == old(self).entries().push((handle, event_type)),
    {
        let handle = self.subscribers.len();
        self.subscribers.push(slot);
        self.slots.push((handle, event_type));
        handle
    }

    /// Connects the subscriber with the handle `handle` once more, under
    /// `event_type` and after every earlier connection. Nothing is
    /// de-duplicated. Returns whether there is such a subscriber; nothing
    /// changes if there is none.
    pub fn connect_again(&mut self, event_type: EventType, handle: usize) -> (known: bool)
        ensures
            known == (handle < old(self).subscribers().len()),
            final(self).subscribers() == old(self).subscribers(),
            final(self).entries() == if known {
                old(self).entries().push((handle, event_type))
            } else {
                old(self).entries()
            },
    {
        if handle < self.subscribers.len() {
            self.slots.push((handle, event_type));
            true
        } else {
            false
        }
    }

    /// The subscriber with the handle `handle`.
    pub fn subscriber(&self, handle: usize) -> (slot: Option<&S>)
        ensures
            match slot {
                Some(s) => handle < self.subscribers().len() && *s == self.subscribers()[
                    handle as int
                ],
                None => handle >= self.subscribers().len(),
            },
    {
        if handle < self.subscribers.len() {
            Some(&self.subscribers[handle])
        } else {
            None
        }
    }

    /// The event kind of connection `index`.
    pub fn connected_type(&self, index: usize) -> (kind: Option<EventType>)
        ensures
            match kind {
                Some(k) => index < self.entries().len() && k == self.entries()[index as int].1,
                None => index >= self.entries().len(),
            },
    {
        if index < self.slots.len() {
            Some(self.slots[index].1)
        } else {
            None
        }
    }

    /// The handle of the subscriber of connection `index`.
    pub fn connected_subscriber(&self, index: usize) -> (handle: Option<usize>)
        ensures
            match handle {
                Some(h) => index < self.entries().len() && h == self.entries()[index as int].0,
                None => index >= self.entries().len(),
            },
    {
        if index < self.slots.len() {
            Some(self.slots[index].0)
        } else {
            None
        }
    }

    /// Offers `event` to the subscribers connected under its kind, in
    /// connection order, until one of them reports it handled. Returns
    /// the connection that handled it, if any did.
    pub fn deliver<E: Event>(&mut self, event: &E) -> (handled_by: Option<usize>) where S: Slot<E>
        ensures
            final(self).entries() == old(self).entries(),
            delivery(
                old(self).subscribers(),
                old(self).entries(),
                *event,
                event.handled(),
                final(self).subscribers(),
                handled_by,
            ),
    {
        let kind = event.get_event_type();
        let arrived_handled = event.get_handled();
        let mut handled_by: Option<usize> = None;
        let n = self.slots.len();
        let ghost before = self.subscribers@;
        let ghost entries = self.slots@;
        let ghost mut states: Seq<Seq<S>> = seq![before];
        let ghost mut handlers: Seq<Option<usize>> = seq![None];
        let mut i: usize = 0;
        while i < n
            invariant
                i <= n,
                n == entries.len(),
                self.slots@ == entries,
                kind == E::kind(),
                arrived_handled == event.handled(),
                states.len() == i + 1,
                handlers.len() == i + 1,
                states[0] == before,
                handlers[0] is None,
                states[i as int] == self.subscribers@,
                handlers[i as int] == handled_by,
                forall|j: int|
                    0 <= j < i ==> offered(
                        states[j],
                        handlers[j],
                        #[trigger] entries[j],
                        j,
                        *event,
                        arrived_handled,
                        states[j + 1],
                        handlers[j + 1],
                    ),
            decreases n - i,
        {
            let handle = self.slots[i].0;
            let connected = self.slots[i].1;
            if !arrived_handled && handled_by.is_none() && connected == kind && handle
                < self.subscribers.len() {
                let data = Data::Sig(event);
                let answer = self.subscribers[handle].consume(&data);
                if answer {
                    handled_by = Some(i);
                }
            }
            proof {
                let ghost earlier_states = states;
                let ghost earlier_handlers = handlers;
                states = states.push(self.subscribers@);
                handlers = handlers.push(handled_by);
                assert(offered(
                    states[i as int],
                    handlers[i as int],
                    entries[i as int],
                    i as int,
                    *event,
                    arrived_handled,
                    states[i + 1],
                    handlers[i + 1],
                ));
                assert forall|j: int| 0 <= j < i + 1 implies offered(
                    states[j],
                    handlers[j],
                    #[trigger] entries[j],
                    j,
                    *event,
                    arrived_handled,
                    states[j + 1],
                    handlers[j + 1],
                ) by {
                    if j < i {
                        assert(states[j] == earlier_states[j]);
                        assert(states[j + 1] == earlier_states[j + 1]);
                        assert(handlers[j] == earlier_handlers[j]);
                        assert(handlers[j + 1] == earlier_handlers[j + 1]);
                    }
                }
            }
            i += 1;
        }
        proof {
            assert(delivered(before, entries, *event, arrived_handled, states, handlers));
            assert(states.last() == self.subscribers@);
            assert(handlers.last() == handled_by);
        }
        handled_by
    }

    /// Emits `event`: fails if the event requires a payload and has
    /// none, and otherwise makes one delivery pass. Whether a subscriber
    /// handled the event does not change the result.
    pub fn emit<E: Event>(&mut self, event: Data<E>) -> (result: Result<(), SignalError>) where
        S: Slot<E>,

        ensures
            result is Err <==> lacks_payload(event->0),
            result is Err ==> result == Err::<(), SignalError>(SignalError::NoPayload),
            result is Err ==> final(self).subscribers() == old(self).subscribers(),
            final(self).entries() == old(self).entries(),
            result is Ok ==> exists|handled_by: Option<usize>| #[trigger]
                delivery(
                    old(self).subscribers(),
                    old(self).entries(),
                    event->0,
                    (event->0).handled(),
                    final(self).subscribers(),
                    handled_by,
                ),
    {
        let ev = event.sig();
        if ev.get_data().is_none() && E::static_type().payload_shape().is_some() {
            return Err(SignalError::NoPayload);
        }
        let handled_by = self.deliver(ev);
        Ok(())
    }
}

/// A source of events for subscribers on the same thread.
pub trait Signal<K: Event, S: Slot<K>> {
    /// The subscribers, by handle.
    spec fn subscribers(&self) -> Seq<S>;

    /// The connections, oldest first.
    spec fn connections(&self) -> Seq<SlotPair>;

    /// Takes `slot` in and connects it under the kind of `K`, after
    /// every earlier connection.
    fn connect(&mut self, slot: S)
        ensures
            final(self).subscribers() == old(self).subscribers().push(slot),
            final(self).connections() == old(self).connections().push(
                (old(self).subscribers().len() as usize, K::kind()),
            ),
    ;

    /// Emits `event`: fails if the event requires a payload and has
    /// none, and otherwise makes one delivery pass.
    fn emit(&mut self, event: Data<K>) -> (result: Result<(), SignalError>)
        ensures
            result is Err <==> lacks_payload(event->0),
            result is Err ==> result == Err::<(), SignalError>(SignalError::NoPayload),
            result is Err ==> final(self).subscribers() == old(self).subscribers(),
            final(self).connections() == old(self).connections(),
            result is Ok ==> exists|handled_by: Option<usize>| #[trigger]
                delivery(
                    old(self).subscribers(),
                    old(self).connections(),
                    event->0,
                    (event->0).handled(),
                    final(self).subscribers(),
                    handled_by,
                ),
    ;
}

impl<K: Event, S: Slot<K>> Signal<K, S> for Registry<S> {
    open spec fn subscribers(&self) -> Seq<S> {
        Registry::subscribers(self)
    }

    open spec fn connections(&self) -> Seq<SlotPair> {
        self.entries()
    }

    fn connect(&mut self, slot: S) {
        let handle = Registry::connect(self, K::static_type(), slot);
    }

    fn emit(&mut self, event: Data<K>) -> (result: Result<(), SignalError>) {
        let ghost ev = event->0;
        let ghost before = Registry::subscribers(self);
        let ghost entries = self.entries();
        let result = Registry::emit(self, event);
        proof {
            if result is Ok {
                let handled_by = choose|handled_by: Option<usize>| #[trigger]
                    delivery(
                        before,
                        entries,
                        ev,
                        ev.handled(),
                        Registry::subscribers(self),
                        handled_by,
                    );
                assert(delivery(
                    <Self as Signal<K, S>>::subscribers(old(self)),
                    <Self as Signal<K, S>>::connections(old(self)),
                    ev,
                    ev.handled(),
                    <Self as Signal<K, S>>::subscribers(self),
                    handled_by,
                ));
            }
        }
        result
    }
}

/// Along the course of a delivery pass the number of subscribers stays,
/// and the handler found by the time connection `upto` has its turn is a
/// connection before it, connected under the event's kind; there is none
/// if the event arrived handled.
pub proof fn lemma_handler_is_a_recipient<E: Event, S: Slot<E>>(
    before: Seq<S>,
    entries: Seq<SlotPair>,
    event: E,
    arrived_handled: bool,
    states: Seq<Seq<S>>,
    handlers: Seq<Option<usize>>,
    upto: int,
)
    requires
        delivered(before, entries, event, arrived_handled, states, handlers),
        0 <= upto <= entries.len(),
    ensures
        states[upto].len() == before.len(),
        handlers[upto] matches Some(k) ==> k < upto && entries[k as int].1 == E::kind()
            && !arrived_handled,
    decreases upto,
{
    if upto > 0 {
        lemma_handler_is_a_recipient(
            before,
            entries,
            event,
            arrived_handled,
            states,
            handlers,
            upto - 1,
        );
        assert(offered(
            states[upto - 1],
            handlers[upto - 1],
            entries[upto - 1],
            upto - 1,
            event,
            arrived_handled,
            states[upto - 1 + 1],
            handlers[upto - 1 + 1],
        ));
    }
}

/// A subscriber that is not connected under the event's kind is never
/// offered the event: along the course of a delivery pass it stays as it
/// was.
pub proof fn lemma_other_kinds_untouched<E: Event, S: Slot<E>>(
    before: Seq<S>,
    entries: Seq<SlotPair>,
    event: E,
    arrived_handled: bool,
    states: Seq<Seq<S>>,
    handlers: Seq<Option<usize>>,
    subscriber: int,
    upto: int,
)
    requires
        delivered(before, entries, event, arrived_handled, states, handlers),
        0 <= upto <= entries.len(),
        0 <= subscriber < before.len(),
        forall|i: int|
            0 <= i < upto && (#[trigger] entries[i]).0 == subscriber ==> entries[i].1 != E::kind(),
    ensures
        states[upto].len() == before.len(),
        states[upto][subscriber] == before[subscriber],
    decreases upto,
{
    if upto > 0 {
        lemma_other_kinds_untouched(
            before,
            entries,
            event,
            arrived_handled,
            states,
            handlers,
            subscriber,
            upto - 1,
        );
        assert(offered(
            states[upto - 1],
            handlers[upto - 1],
            entries[upto - 1],
            upto - 1,
            event,
            arrived_handled,
            states[upto - 1 + 1],
            handlers[upto - 1 + 1],
        ));
    }
}

/// Delivery ends at the first subscriber that handles the event: once a
/// handler is found, every later connection leaves the subscribers and
/// the handler as they are.
pub proof fn lemma_handler_ends_delivery<E: Event, S: Slot<E>>(
    before: Seq<S>,
    entries: Seq<SlotPair>,
    event: E,
    arrived_handled: bool,
    states: Seq<Seq<S>>,
    handlers: Seq<Option<usize>>,
    from: int,
    upto: int,
)
    requires
        delivered(before, entries, event, arrived_handled, states, handlers),
        0 <= from <= upto <= entries.len(),
        handlers[from] is Some,
    ensures
        states[upto] == states[from],
        handlers[upto] == handlers[from],
    decreases upto - from,
{
    if from < upto {
        lemma_handler_ends_delivery(
            before,
            entries,
            event,
            arrived_handled,
            states,
            handlers,
            from,
            upto - 1,
        );
        assert(offered(
            states[upto - 1],
            handlers[upto - 1],
            entries[upto - 1],
            upto - 1,
            event,
            arrived_handled,
            states[upto - 1 + 1],
            handlers[upto - 1 + 1],
        ));
    }
}

/// Delivery runs in connection order and ends at the first subscriber
/// that handles the event. Where connection `k` is the handler of a
/// pass: it is connected under the event's kind; no connection before it
/// handled the event; its subscriber consumed the event, answering that
/// it handled it, from what the connections before it had left; and what
/// the pass ends in is what that offer left.
pub proof fn lemma_delivery_order<E: Event, S: Slot<E>>(
    before: Seq<S>,
    entries: Seq<SlotPair>,
    event: E,
    arrived_handled: bool,
    states: Seq<Seq<S>>,
    handlers: Seq<Option<usize>>,
    k: usize,
)
    requires
        delivered(before, entries, event, arrived_handled, states, handlers),
        handlers.last() == Some(k),
    ensures
        k < entries.len(),
        entries[k as int].1 == E::kind(),
        !arrived_handled,
        handlers[k as int] is None,
        entries[k as int].0 < states[k as int].len(),
        S::may_consume(
            states[k as int][entries[k as int].0 as int],
            event,
            states[k + 1][entries[k as int].0 as int],
            true,
        ),
        states.last() == states[k + 1],
{
    lemma_handler_is_a_recipient(
        before,
        entries,
        event,
        arrived_handled,
        states,
        handlers,
        entries.len() as int,
    );
    lemma_handler_is_a_recipient(
        before,
        entries,
        event,
        arrived_handled,
        states,
        handlers,
        k as int,
    );
    assert(offered(
        states[k as int],
        handlers[k as int],
        entries[k as int],
        k as int,
        event,
        arrived_handled,
        states[k + 1],
        handlers[k + 1],
    ));
    if handlers[k + 1] is None {
        lemma_first_handler(before, entries, event, arrived_handled, states, handlers, k + 1);
    }
    lemma_handler_ends_delivery(
        before,
        entries,
        event,
        arrived_handled,
        states,
        handlers,
        k + 1,
        entries.len() as int,
    );
}

/// A handler that is found later than connection `from` has its turn is
/// a connection at or behind `from`.
proof fn lemma_first_handler<E: Event, S: Slot<E>>(
    before: Seq<S>,
    entries: Seq<SlotPair>,
    event: E,
    arrived_handled: bool,
    states: Seq<Seq<S>>,
    handlers: Seq<Option<usize>>,
    from: int,
)
    requires
        delivered(before, entries, event, arrived_handled, states, handlers),
        0 <= from <= entries.len(),
        handlers[from] is None,
    ensures
        handlers.last() matches Some(k) ==> k >= from,
    decreases entries.len() - from,
{
    if from < entries.len() {
        assert(offered(
            states[from],
            handlers[from],
            entries[from],
            from,
            event,
            arrived_handled,
            states[from + 1],
            handlers[from + 1],
        ));
        if handlers[from + 1] is None {
            lemma_first_handler(
                before,
                entries,
                event,
                arrived_handled,
                states,
                handlers,
                from + 1,
            );
        } else {
            lemma_handler_ends_delivery(
                before,
                entries,
                event,
                arrived_handled,
                states,
                handlers,
                from + 1,
                entries.len() as int,
            );
        }
    }
}

/// A registry in which nothing is connected under the event's kind, and
/// so one without connections, is left as it was by a delivery pass, and
/// no subscriber handles the event. The same holds of any registry if
/// the event arrived handled.
pub proof fn lemma_nothing_connected<E: Event, S: Slot<E>>(
    before: Seq<S>,
    entries: Seq<SlotPair>,
    event: E,
    arrived_handled: bool,
    after: Seq<S>,
    handled_by: Option<usize>,
)
    requires
        delivery(before, entries, event, arrived_handled, after, handled_by),
        arrived_handled || forall|i: int|
            0 <= i < entries.len() ==> (#[trigger] entries[i]).1 != E::kind(),
    ensures
        after == before,
        handled_by is None,
{
    let (states, handlers) = choose|states: Seq<Seq<S>>, handlers: Seq<Option<usize>>|
        {
            &&& #[trigger] delivered(before, entries, event, arrived_handled, states, handlers)
            &&& states.last() == after
            &&& handlers.last() == handled_by
        };
    lemma_nothing_offered(
        before,
        entries,
        event,
        arrived_handled,
        states,
        handlers,
        entries.len() as int,
    );
}

/// Where no connection is due the event, the course of a delivery pass
/// stays where it began.
proof fn lemma_nothing_offered<E: Event, S: Slot<E>>(
    before: Seq<S>,
    entries: Seq<SlotPair>,
    event: E,
    arrived_handled: bool,
    states: Seq<Seq<S>>,
    handlers: Seq<Option<usize>>,
    upto: int,
)
    requires
        delivered(before, entries, event, arrived_handled, states, handlers),
        0 <= upto <= entries.len(),
        arrived_handled || forall|i: int|
            0 <= i < entries.len() ==> (#[trigger] entries[i]).1 != E::kind(),
    ensures
        states[upto] == before,
        handlers[upto] is None,
    decreases upto,
{
    if upto > 0 {
        lemma_nothing_offered(before, entries, event, arrived_handled, states, handlers, upto - 1);
        assert(offered(
            states[upto - 1],
            handlers[upto - 1],
            entries[upto - 1],
            upto - 1,
            event,
            arrived_handled,
            states[upto - 1 + 1],
            handlers[upto - 1 + 1],
        ));
    }
}

/// Every event carries what its kind defines, so no event lacks a
/// payload that it requires and no emission fails.
pub proof fn lemma_no_event_lacks_its_payload<E: Event>(event: E)
    ensures
        !lacks_payload(event),
{
    event.lemma_payload_fits();
}

/// `RwLock::new`: a lock around `slot`.
#[verifier::external_body]
fn new_lock<S>(slot: S) -> (lock: RwLock<S>) {
    RwLock::new(slot)
}

/// `Arc::clone`: another handle to the same lock.
#[verifier::external_body]
fn clone_handle<S>(slot: &Arc<RwLock<S>>) -> (shared: Arc<RwLock<S>>)
    ensures
        shared == *slot,
{
    Arc::clone(slot)
}

/// `RwLock::try_write`: the write guard, or nothing where the lock is
/// held elsewhere or poisoned. Which of the two comes back depends on the
/// other threads, so nothing is claimed of it.
#[verifier::external_body]
fn try_write<'a, S>(lock: &'a RwLock<S>) -> (guard: Option<RwLockWriteGuard<'a, S>>) {
    lock.try_write().ok()
}

/// `DerefMut::deref_mut` of a write guard: the value behind the lock.
/// What another thread left there is not known.
#[verifier::external_body]
fn write_target<'a, 'b, S>(guard: &'a mut RwLockWriteGuard<'b, S>) -> (slot: &'a mut S) {
    &mut **guard
}

/// `RwLock::try_read`: the read guard, or nothing where the lock is held
/// for writing elsewhere or poisoned.
#[verifier::external_body]
fn try_read<'a, S>(lock: &'a RwLock<S>) -> (guard: Option<RwLockReadGuard<'a, S>>) {
    lock.try_read().ok()
}

/// `Deref::deref` of a read guard: the value behind the lock.
#[verifier::external_body]
pub(crate) fn read_target<'a, 'b, S>(guard: &'a RwLockReadGuard<'b, S>) -> (slot: &'a S) {
    &**guard
}

/// A subscriber behind a lock and a counted handle, ready to be shared
/// between threads.
pub fn shared_slot<S>(slot: S) -> (shared: Arc<RwLock<S>>) {
    Arc::new(new_lock(slot))
}

/// Asks for a shared subscriber to read, without waiting: nothing comes
/// back where its lock is held for writing elsewhere or poisoned.
pub(crate) fn try_read_slot<'a, S>(slot: &'a Arc<RwLock<S>>) -> (guard: Option<
    RwLockReadGuard<'a, S>,
>) {
    try_read(&**slot)
}

/// Another handle to a shared subscriber.
pub fn share<S>(slot: &Arc<RwLock<S>>) -> (shared: Arc<RwLock<S>>)
    ensures
        shared == *slot,
{
    clone_handle(slot)
}

/// What one delivery pass over shared subscribers did.
#[derive(Debug, PartialEq)]
pub struct Delivery {
    /// The connection whose subscriber handled the event, if one did.
    pub handled_by: Option<usize>,
    /// The connections whose subscriber consumed the event and did not
    /// handle it, in connection order.
    pub declined: Vec<usize>,
    /// The connections that were due the event and whose lock could not
    /// be taken, in connection order.
    pub skipped: Vec<usize>,
}

/// Whether `list` names connections strictly in connection order, so each
/// at most once.
pub open spec fn in_connection_order(list: Seq<usize>) -> bool {
    forall|a: int, b: int| 0 <= a < b < list.len() ==> list[a] < list[b]
}

/// Whether `delivery` describes a pass over connections of the kinds
/// `kinds` with an event of kind `kind`.
///
/// The handler, if there is one, is a connection under that kind. Every
/// recipient was offered the event, and nothing else was: a connection
/// is a recipient exactly if it is the handler, or declined the event,
/// or was skipped, and it is only one of the three. Both lists are in
/// connection order. So nothing is listed if the event arrived handled,
/// and nothing behind the handler.
pub open spec fn delivery_report(
    kinds: Seq<EventType>,
    kind: EventType,
    arrived_handled: bool,
    delivery: Delivery,
) -> bool {
    &&& may_handle(kinds, kind, arrived_handled, delivery.handled_by)
    &&& in_connection_order(delivery.declined@)
    &&& in_connection_order(delivery.skipped@)
    &&& forall|i: usize| #[trigger]
        delivery.declined@.contains(i) ==> i < kinds.len() && !delivery.skipped@.contains(i)
            && delivery.handled_by != Some(i)
    &&& forall|i: usize| #[trigger]
        delivery.skipped@.contains(i) ==> i < kinds.len() && delivery.handled_by != Some(i)
    &&& forall|i: usize|
        i < kinds.len() ==> (is_recipient(
            kinds,
            kind,
            arrived_handled,
            delivery.handled_by,
            i as int,
        ) <==> delivery.handled_by == Some(i) || #[trigger] delivery.declined@.contains(i)
            || #[trigger] delivery.skipped@.contains(i))
}

/// What a list names once `x` is added at its end.
proof fn lemma_push_contains(list: Seq<usize>, x: usize)
    ensures
        forall|i: usize| #[trigger] list.push(x).contains(i) <==> list.contains(i) || i == x,
{
    assert forall|i: usize| #[trigger] list.push(x).contains(i) <==> list.contains(i) || i
        == x by {
        if list.contains(i) {
            let a = choose|a: int| 0 <= a < list.len() && list[a] == i;
            assert(list.push(x)[a] == i);
        }
        if i == x {
            assert(list.push(x)[list.len() as int] == x);
        }
    }
}

/// Offers `event` to one shared subscriber, given what asking for its
/// lock gave: the subscriber consumes the event and its answer comes
/// back, or nothing comes back where the lock could not be had.
pub fn offer<E: Event + Send + Sync, S: SyncSlot<E>>(
    target: Option<&mut S>,
    event: &E,
) -> (answer: Option<bool>)
    ensures
        match target {
            Some(s) => answer matches Some(h) && S::may_consume(*s, *event, *final(s), h),
            None => answer is None,
        },
{
    match target {
        Some(slot) => {
            let data = SyncData::Sig(event);
            Some(slot.consume(&data))
        },
        None => None,
    }
}

/// Whether a connection under `connected` is due an event of kind
/// `kind`: it is connected under that kind, the event did not arrive
/// handled, and no earlier connection handled it.
pub open spec fn is_due(
    connected: EventType,
    kind: EventType,
    arrived_handled: bool,
    handled_by: Option<usize>,
) -> bool {
    !arrived_handled && handled_by is None && connected == kind
}

/// Whether the next connection is due the event, given what the pass
/// has found so far.
pub fn due(
    delivery: &Delivery,
    arrived_handled: bool,
    connected: EventType,
    kind: EventType,
) -> (due: bool)
    ensures
        due == is_due(connected, kind, arrived_handled, delivery.handled_by),
{
    !arrived_handled && delivery.handled_by.is_none() && connected == kind
}

/// What a pass has found once connection `connection` gave `answer` to
/// an offer: an answer of handled makes it the handler, which ends the
/// offers; an answer of not handled lists it as declined; no answer,
/// its lock being out of reach, lists it as skipped.
pub open spec fn recorded(
    before: Delivery,
    connection: usize,
    answer: Option<bool>,
    after: Delivery,
) -> bool {
    &&& after.handled_by == if answer == Some(true) {
        Some(connection)
    } else {
        before.handled_by
    }
    &&& after.declined@ == if answer == Some(false) {
        before.declined@.push(connection)
    } else {
        before.declined@
    }
    &&& after.skipped@ == if answer is None {
        before.skipped@.push(connection)
    } else {
        before.skipped@
    }
}

/// Takes down what connection `connection` answered to an offer.
pub fn record(delivery: &mut Delivery, connection: usize, answer: Option<bool>)
    ensures
        recorded(*old(delivery), connection, answer, *final(delivery)),
{
    match answer {
        Some(handled) => {
            if handled {
                delivery.handled_by = Some(connection);
            } else {
                delivery.declined.push(connection);
            }
        },
        None => {
            delivery.skipped.push(connection);
        },
    }
}

/// The turn of one connection that is due the event, given what asking
/// for its subscriber's lock gave: the subscriber, if it could be had,
/// consumes the event, and what it answered is taken down; if it could
/// not be had, the connection is taken down as skipped.
pub fn attempt<E: Event + Send + Sync, S: SyncSlot<E>>(
    delivery: &mut Delivery,
    connection: usize,
    target: Option<&mut S>,
    event: &E,
)
    ensures
        match target {
            Some(s) => exists|answer: bool|
                {
                    &&& #[trigger] S::may_consume(*s, *event, *final(s), answer)
                    &&& recorded(*old(delivery), connection, Some(answer), *final(delivery))
                },
            None => recorded(*old(delivery), connection, None, *final(delivery)),
        },
{
    let answer = offer(target, event);
    record(delivery, connection, answer);
}

/// Offers `event` to the shared subscribers connected under its kind, in
/// connection order, until one of them reports it handled, and reports
/// what became of each offer. A subscriber whose lock cannot be taken is
/// skipped and counts as not having handled the event.
pub fn deliver_locked<E: Event + Send + Sync, S: SyncSlot<E>>(
    slots: &Vec<SyncSlotPair<S>>,
    event: &E,
) -> (delivery: Delivery)
    ensures
        delivery_report(kinds_of(slots@), E::kind(), event.handled(), delivery),
{
    let kind = event.get_event_type();
    let arrived_handled = event.get_handled();
    let mut delivery = Delivery { handled_by: None, declined: Vec::new(), skipped: Vec::new() };
    let n = slots.len();
    let ghost kinds = kinds_of(slots@);
    let mut i: usize = 0;
    while i < n
        invariant
            i <= n,
            n == slots@.len(),
            kinds == kinds_of(slots@),
            kind == E::kind(),
            arrived_handled == event.handled(),
            delivery.handled_by matches Some(k) ==> k < i,
            may_handle(kinds, kind, arrived_handled, delivery.handled_by),
            in_connection_order(delivery.declined@),
            in_connection_order(delivery.skipped@),
            forall|a: int|
                0 <= a < delivery.declined@.len() ==> (#[trigger] delivery.declined@[a]) < i,
            forall|a: int|
                0 <= a < delivery.skipped@.len() ==> (#[trigger] delivery.skipped@[a]) < i,
            forall|j: usize| #[trigger]
                delivery.declined@.contains(j) ==> !delivery.skipped@.contains(j)
                    && delivery.handled_by != Some(j),
            forall|j: usize| #[trigger]
                delivery.skipped@.contains(j) ==> delivery.handled_by != Some(j),
            forall|j: usize|
                j < i ==> (is_recipient(
                    kinds,
                    kind,
                    arrived_handled,
                    delivery.handled_by,
                    j as int,
                ) <==> delivery.handled_by == Some(j) || #[trigger] delivery.declined@.contains(j)
                    || #[trigger] delivery.skipped@.contains(j)),
        decreases n - i,
    {
        let ghost declined_before = delivery.declined@;
        let ghost skipped_before = delivery.skipped@;
        let ghost handler_before = delivery.handled_by;
        assert(kinds[i as int] == slots@[i as int].1);
        if due(&delivery, arrived_handled, slots[i].1, kind) {
            match try_write(&*slots[i].0) {
                Some(mut guard) => attempt(&mut delivery, i, Some(write_target(&mut guard)), event),
                None => attempt::<E, S>(&mut delivery, i, None, event),
            }
        }
        proof {
            lemma_push_contains(declined_before, i);
            lemma_push_contains(skipped_before, i);
            assert(!declined_before.contains(i));
            assert(!skipped_before.contains(i));
            assert forall|j: usize| j <= i implies (is_recipient(
                kinds,
                kind,
                arrived_handled,
                delivery.handled_by,
                j as int,
            ) <==> delivery.handled_by == Some(j) || #[trigger] delivery.declined@.contains(j)
                || #[trigger] delivery.skipped@.contains(j)) by {
                if j < i {
                    assert(is_recipient(kinds, kind, arrived_handled, handler_before, j as int)
                        <==> handler_before == Some(j) || declined_before.contains(j)
                        || skipped_before.contains(j));
                }
            }
        }
        i += 1;
    }
    delivery
}

/// Emits `event`, which stays with the caller, to shared subscribers:
/// fails if the event requires a payload and has none, and otherwise
/// makes one delivery pass and reports it. Neither a skipped subscriber
/// nor an unhandled event makes it fail.
pub fn emit_shared<E: Event + Send + Sync, S: SyncSlot<E>>(
    slots: &Vec<SyncSlotPair<S>>,
    event: &E,
) -> (result: Result<Delivery, SignalError>)
    ensures
        result is Err <==> lacks_payload(*event),
        result matches Err(e) ==> e == SignalError::NoPayload,
        result matches Ok(d) ==> delivery_report(
            kinds_of(slots@),
            E::kind(),
            event.handled(),
            d,
        ),
{
    if event.get_data().is_none() && E::static_type().payload_shape().is_some() {
        return Err(SignalError::NoPayload);
    }
    Ok(deliver_locked(slots, event))
}

/// Emits `event` to shared subscribers: fails if the event requires a
/// payload and has none, and otherwise makes one delivery pass and
/// reports it. Neither a skipped subscriber nor an unhandled event makes
/// it fail.
pub fn emit_locked<E: Event + Send + Sync, S: SyncSlot<E>>(
    slots: &Vec<SyncSlotPair<S>>,
    event: SyncData<E>,
) -> (result: Result<Delivery, SignalError>)
    ensures
        result is Err <==> lacks_payload(event->0),
        result matches Err(e) ==> e == SignalError::NoPayload,
        result matches Ok(d) ==> delivery_report(
            kinds_of(slots@),
            E::kind(),
            (event->0).handled(),
            d,
        ),
{
    emit_shared(slots, event.sig())
}

/// A source of events for subscribers that are shared between threads.
pub trait SyncSignal<K: Event + Send + Sync, S: SyncSlot<K>>: Send + Sync {
    /// The connections, oldest first.
    spec fn connections(&self) -> Seq<(Arc<RwLock<S>>, EventType)>;

    /// Connects `slot` under the kind of `K`, after every earlier
    /// connection.
    fn connect(&mut self, slot: Arc<RwLock<S>>)
        ensures
            final(self).connections() == old(self).connections().push((slot, K::kind())),
    ;

    /// Emits `event`: fails if the event requires a payload and has
    /// none, and otherwise makes one delivery pass and reports it.
    fn emit(&self, event: SyncData<K>) -> (result: Result<Delivery, SignalError>)
        ensures
            result is Err <==> lacks_payload(event->0),
            result matches Err(e) ==> e == SignalError::NoPayload,
            result matches Ok(d) ==> delivery_report(
                kinds_of(self.connections()),
                K::kind(),
                (event->0).handled(),
                d,
            ),
    ;
}

} // verus!
