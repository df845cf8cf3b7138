use magnus::events::event::{Event, EventType};
use magnus::events::key_events::KeyPressedEvent;
use magnus::events::window_events::{WindowCloseEvent, WindowResizeEvent};
use magnus::signals::{
    attempt, deliver_locked, due, emit_locked, emit_shared, offer, record, share, shared_slot,
    Delivery, SyncData, SyncSlot, SyncSlotPair,
};
use std::sync::{Arc, RwLock};

struct Tally {
    calls: usize,
    answer: bool,
}

impl<E: Event + Send + Sync> SyncSlot<E> for Tally {
    fn consume(&mut self, _event: &SyncData<&E>) -> bool {
        self.calls += 1;
        self.answer
    }
}

fn tally(answer: bool) -> Arc<RwLock<Tally>> {
    shared_slot(Tally { calls: 0, answer })
}

fn calls(slot: &Arc<RwLock<Tally>>) -> usize {
    slot.read().unwrap().calls
}

fn resize() -> WindowResizeEvent {
    WindowResizeEvent::new("resize".to_string(), 800.0f32.to_bits(), 600.0f32.to_bits())
}

#[test]
fn shared_delivery_follows_connection_order() {
    let s1 = tally(false);
    let other = tally(true);
    let s2 = tally(true);
    let s3 = tally(false);
    let slots: Vec<SyncSlotPair<Tally>> = vec![
        (share(&s1), EventType::WindowResize),
        (share(&other), EventType::KeyPressed),
        (share(&s2), EventType::WindowResize),
        (share(&s3), EventType::WindowResize),
    ];
    let delivery = deliver_locked(&slots, &resize());
    assert_eq!(delivery.handled_by, Some(2));
    assert_eq!(delivery.declined, vec![0]);
    assert!(delivery.skipped.is_empty());
    assert_eq!(calls(&s1), 1);
    assert_eq!(calls(&other), 0);
    assert_eq!(calls(&s2), 1);
    assert_eq!(calls(&s3), 0);
}

#[test]
fn locked_subscriber_is_skipped_and_delivery_goes_on() {
    let busy = tally(true);
    let next = tally(false);
    let last = tally(true);
    let slots: Vec<SyncSlotPair<Tally>> = vec![
        (share(&busy), EventType::WindowResize),
        (share(&next), EventType::WindowResize),
        (share(&last), EventType::WindowResize),
    ];
    let delivery = {
        let _held = busy.read().unwrap();
        deliver_locked(&slots, &resize())
    };
    assert_eq!(delivery.skipped, vec![0]);
    assert_eq!(delivery.declined, vec![1]);
    assert_eq!(delivery.handled_by, Some(2));
    assert_eq!(calls(&busy), 0);
    assert_eq!(calls(&next), 1);
    assert_eq!(calls(&last), 1);
}

#[test]
fn emit_is_ok_when_every_lock_is_taken() {
    let a = tally(true);
    let b = tally(true);
    let slots: Vec<SyncSlotPair<Tally>> =
        vec![(share(&a), EventType::WindowResize), (share(&b), EventType::WindowResize)];
    let (delivery, result) = {
        let _held_a = a.write().unwrap();
        let _held_b = b.read().unwrap();
        (deliver_locked(&slots, &resize()), emit_locked(&slots, SyncData::Sig(resize())))
    };
    assert_eq!(delivery.skipped, vec![0, 1]);
    assert!(delivery.declined.is_empty());
    assert_eq!(delivery.handled_by, None);
    assert_eq!(result, Ok(delivery));
    assert_eq!(calls(&a), 0);
    assert_eq!(calls(&b), 0);
}

#[test]
fn shared_subscriber_connected_twice_is_called_twice() {
    let twin = tally(false);
    let slots: Vec<SyncSlotPair<Tally>> =
        vec![(share(&twin), EventType::KeyPressed), (share(&twin), EventType::KeyPressed)];
    let event = KeyPressedEvent::new("A".to_string(), 65, 0);
    let report = emit_locked(&slots, SyncData::Sig(event)).unwrap();
    assert_eq!(report, Delivery { handled_by: None, declined: vec![0, 1], skipped: vec![] });
    assert_eq!(calls(&twin), 2);
}

#[test]
fn shared_emit_without_subscribers_is_ok() {
    let slots: Vec<SyncSlotPair<Tally>> = vec![];
    let nothing = Delivery { handled_by: None, declined: vec![], skipped: vec![] };
    assert_eq!(emit_locked(&slots, SyncData::Sig(resize())), Ok(nothing));
    let close = WindowCloseEvent::new("c".to_string());
    assert!(emit_locked(&slots, SyncData::Sig(close)).is_ok());
    let delivery = deliver_locked(&slots, &resize());
    assert_eq!(delivery.handled_by, None);
    assert!(delivery.declined.is_empty());
    assert!(delivery.skipped.is_empty());
}

#[test]
fn shared_event_that_arrives_handled_is_offered_to_nobody() {
    let s1 = tally(true);
    let slots: Vec<SyncSlotPair<Tally>> = vec![(share(&s1), EventType::WindowResize)];
    let mut event = resize();
    event.set_handled(true);
    let delivery = deliver_locked(&slots, &event);
    assert_eq!(delivery.handled_by, None);
    assert!(delivery.declined.is_empty());
    assert!(delivery.skipped.is_empty());
    assert_eq!(calls(&s1), 0);
}

#[test]
fn share_gives_a_handle_to_the_same_subscriber() {
    let slot = tally(false);
    let again = share(&slot);
    assert!(Arc::ptr_eq(&slot, &again));
    again.write().unwrap().calls = 9;
    assert_eq!(calls(&slot), 9);
}

#[test]
fn sync_data_hands_out_what_it_holds() {
    let data = SyncData::Sig(41u32);
    assert_eq!(*data.sig(), 41);
}

#[test]
fn every_offer_is_reported_once() {
    let a = tally(false);
    let b = tally(false);
    let c = tally(false);
    let slots: Vec<SyncSlotPair<Tally>> = vec![
        (share(&a), EventType::WindowResize),
        (share(&b), EventType::WindowClose),
        (share(&c), EventType::WindowResize),
        (share(&a), EventType::WindowResize),
    ];
    let delivery = {
        let _held = c.read().unwrap();
        deliver_locked(&slots, &resize())
    };
    assert_eq!(delivery.handled_by, None);
    assert_eq!(delivery.declined, vec![0, 3]);
    assert_eq!(delivery.skipped, vec![2]);
    assert_eq!(calls(&a), 2);
    assert_eq!(calls(&b), 0);
    assert_eq!(calls(&c), 0);
}

#[test]
fn offer_gives_the_answer_of_the_subscriber_or_nothing() {
    let mut yes = Tally { calls: 0, answer: true };
    let mut no = Tally { calls: 0, answer: false };
    let event = resize();
    assert_eq!(offer(Some(&mut yes), &event), Some(true));
    assert_eq!(offer(Some(&mut no), &event), Some(false));
    assert_eq!(offer(Some(&mut no), &event), Some(false));
    let nobody: Option<&mut Tally> = None;
    assert_eq!(offer(nobody, &event), None);
    assert_eq!(yes.calls, 1);
    assert_eq!(no.calls, 2);
}

#[test]
fn connection_is_due_only_under_the_kind_of_an_unhandled_event() {
    let fresh = Delivery { handled_by: None, declined: vec![0], skipped: vec![1] };
    let done = Delivery { handled_by: Some(2), declined: vec![], skipped: vec![] };
    assert!(due(&fresh, false, EventType::KeyPressed, EventType::KeyPressed));
    assert!(!due(&fresh, false, EventType::KeyReleased, EventType::KeyPressed));
    assert!(!due(&fresh, true, EventType::KeyPressed, EventType::KeyPressed));
    assert!(!due(&done, false, EventType::KeyPressed, EventType::KeyPressed));
}

#[test]
fn record_files_each_answer_in_its_place() {
    let mut delivery = Delivery { handled_by: None, declined: vec![], skipped: vec![] };
    record(&mut delivery, 0, Some(false));
    record(&mut delivery, 2, None);
    record(&mut delivery, 3, Some(false));
    assert_eq!(delivery, Delivery { handled_by: None, declined: vec![0, 3], skipped: vec![2] });
    record(&mut delivery, 5, Some(true));
    assert_eq!(delivery, Delivery { handled_by: Some(5), declined: vec![0, 3], skipped: vec![2] });
}

#[test]
fn emit_shared_leaves_the_event_with_the_caller() {
    let first = tally(false);
    let second = tally(true);
    let slots: Vec<SyncSlotPair<Tally>> =
        vec![(share(&first), EventType::KeyPressed), (share(&second), EventType::KeyPressed)];
    let event = KeyPressedEvent::new("A".to_string(), 65, 0);
    let report = emit_shared(&slots, &event).unwrap();
    assert_eq!(report, Delivery { handled_by: Some(1), declined: vec![0], skipped: vec![] });
    assert_eq!(event.get_msg().as_str(), "A");
    assert!(!event.get_handled());
}

#[test]
fn attempt_takes_down_what_the_subscriber_answered() {
    let mut delivery = Delivery { handled_by: None, declined: vec![], skipped: vec![] };
    let mut no = Tally { calls: 0, answer: false };
    let mut yes = Tally { calls: 0, answer: true };
    let event = resize();
    attempt(&mut delivery, 0, Some(&mut no), &event);
    let nobody: Option<&mut Tally> = None;
    attempt(&mut delivery, 1, nobody, &event);
    attempt(&mut delivery, 4, Some(&mut yes), &event);
    assert_eq!(delivery, Delivery { handled_by: Some(4), declined: vec![0], skipped: vec![1] });
    assert_eq!((no.calls, yes.calls), (1, 1));
}
