use bt_hci::facade::{dispatch_event, reply_result, Dispatch};
use bt_hci::error::HciError;
use bt_hci::packet::Event;
use bt_hci::subscription::SubscriptionSet;

fn event(code: Option<u8>, opcode: Option<u16>, payload: &[u8]) -> Event<Vec<u8>> {
    Event { code, opcode, payload: payload.to_vec() }
}

#[test]
fn new_set_contains_no_code() {
    let subscriptions = SubscriptionSet::new();
    assert!(!subscriptions.contains(0x00));
    assert!(!subscriptions.contains(0x3E));
    assert!(!subscriptions.contains(0xFF));
}

#[test]
fn register_event_adds_exactly_that_code() {
    let mut subscriptions = SubscriptionSet::new();
    subscriptions.register_event(0x3E);
    assert!(subscriptions.contains(0x3E));
    assert!(!subscriptions.contains(0x3D));
    assert!(!subscriptions.contains(0x3F));
    subscriptions.register_event(0x05);
    assert!(subscriptions.contains(0x3E));
    assert!(subscriptions.contains(0x05));
}

#[test]
fn register_event_twice_is_as_once() {
    let mut once = SubscriptionSet::new();
    once.register_event(0x3E);
    let mut twice = SubscriptionSet::new();
    twice.register_event(0x3E);
    twice.register_event(0x3E);
    for code in 0..=u8::MAX {
        assert_eq!(once.contains(code), twice.contains(code));
        let seen_once = dispatch_event(&once, event(Some(code), None, &[code]));
        let seen_twice = dispatch_event(&twice, event(Some(code), None, &[code]));
        assert_eq!(seen_once, seen_twice);
    }
}

#[test]
fn register_event_takes_the_extreme_codes() {
    let mut subscriptions = SubscriptionSet::new();
    subscriptions.register_event(0x00);
    subscriptions.register_event(0xFF);
    assert!(subscriptions.contains(0x00));
    assert!(subscriptions.contains(0xFF));
    assert!(!subscriptions.contains(0x01));
    assert!(!subscriptions.contains(0xFE));
}

#[test]
fn dispatch_event_forwards_a_subscribed_code() {
    let mut subscriptions = SubscriptionSet::new();
    subscriptions.register_event(0x0E);
    let verdict = dispatch_event(&subscriptions, event(Some(0x0E), Some(0x0C03), &[0x0E, 0x04]));
    assert_eq!(verdict, Dispatch::Forward(event(Some(0x0E), Some(0x0C03), &[0x0E, 0x04])));
}

#[test]
fn dispatch_event_discards_a_code_nobody_asked_for() {
    let mut subscriptions = SubscriptionSet::new();
    subscriptions.register_event(0x0E);
    let verdict = dispatch_event(&subscriptions, event(Some(0x0F), Some(0x0C03), &[0x0F]));
    assert_eq!(verdict, Dispatch::Discard(event(Some(0x0F), Some(0x0C03), &[0x0F])));
}

#[test]
fn dispatch_event_discards_an_event_without_a_code() {
    let mut subscriptions = SubscriptionSet::new();
    for code in 0..=u8::MAX {
        subscriptions.register_event(code);
    }
    let verdict = dispatch_event(&subscriptions, event(None, None, &[]));
    assert_eq!(verdict, Dispatch::Discard(event(None, None, &[])));
}

#[test]
fn dispatch_event_with_nothing_subscribed_discards() {
    let subscriptions = SubscriptionSet::new();
    let verdict = dispatch_event(&subscriptions, event(Some(0x3E), None, &[0x3E, 0x01]));
    assert_eq!(verdict, Dispatch::Discard(event(Some(0x3E), None, &[0x3E, 0x01])));
}

#[test]
fn reply_result_hands_on_the_answer() {
    let answer = event(Some(0x0E), Some(0x0C03), &[0x0E, 0x04, 0x01, 0x03, 0x0C, 0x00]);
    assert_eq!(
        reply_result(Some(answer)),
        Ok(event(Some(0x0E), Some(0x0C03), &[0x0E, 0x04, 0x01, 0x03, 0x0C, 0x00]))
    );
}

#[test]
fn reply_result_reports_a_closed_channel() {
    let settled: Option<Event<Vec<u8>>> = None;
    assert_eq!(reply_result(settled), Err(HciError::ChannelClosed));
}
