use radio_core::dispatch::{AttributeEvent, AttributeState};

#[test]
fn write_with_notifications_enabled_echoes_plus_one() {
    // A peer writes 41 with notifications enabled: the device emits
    // exactly one notification carrying 42.
    let mut attr = AttributeState::new(0);
    assert_eq!(attr.handle_event(AttributeEvent::NotificationsEnabled), None);
    assert_eq!(attr.handle_event(AttributeEvent::Write(41)), Some(42));
    assert_eq!(attr.value, 41);
}

#[test]
fn write_without_subscription_delivers_nothing() {
    let mut attr = AttributeState::new(0);
    assert_eq!(attr.handle_event(AttributeEvent::Write(7)), None);
    assert_eq!(attr.value, 7);
}

#[test]
fn disable_stops_notifications() {
    let mut attr = AttributeState::new(0);
    attr.handle_event(AttributeEvent::NotificationsEnabled);
    assert!(attr.notify_enabled);
    attr.handle_event(AttributeEvent::NotificationsDisabled);
    assert!(!attr.notify_enabled);
    assert_eq!(attr.handle_event(AttributeEvent::Write(9)), None);
}

#[test]
fn reply_saturates_at_top_of_range() {
    let mut attr = AttributeState::new(0);
    attr.handle_event(AttributeEvent::NotificationsEnabled);
    assert_eq!(attr.handle_event(AttributeEvent::Write(u16::MAX)), Some(u16::MAX));
    assert_eq!(attr.handle_event(AttributeEvent::Write(u16::MAX - 1)), Some(u16::MAX));
}

#[test]
fn session_delivers_in_order_until_link_closes() {
    let mut attr = AttributeState::new(0);
    let events = vec![
        AttributeEvent::NotificationsEnabled,
        AttributeEvent::Write(1),
        AttributeEvent::Write(2),
        AttributeEvent::NotificationsDisabled,
        AttributeEvent::Write(3),
    ];
    let delivered = attr.run_session(&events);
    assert_eq!(delivered, vec![2, 3]);
    assert_eq!(attr.value, 3);
    assert!(!attr.notify_enabled);
}

#[test]
fn empty_session_delivers_nothing() {
    let mut attr = AttributeState::new(5);
    let events: Vec<AttributeEvent> = Vec::new();
    assert_eq!(attr.run_session(&events), Vec::<u16>::new());
    assert_eq!(attr.value, 5);
}
