use badge_demo::bus::EventBus;
use badge_demo::event::ButtonEvent;

#[test]
fn one_publish_reaches_every_subscriber() {
    let mut bus = EventBus::new(8, 3);
    let a = bus.subscribe().expect("slot for the first subscriber");
    let b = bus.subscribe().expect("slot for the second subscriber");
    let c = bus.subscribe().expect("slot for the third subscriber");
    assert!(bus.take_publisher());
    bus.publish(ButtonEvent::Stick);
    assert_eq!(bus.next_event(a), Some(ButtonEvent::Stick));
    assert_eq!(bus.next_event(b), Some(ButtonEvent::Stick));
    assert_eq!(bus.next_event(c), Some(ButtonEvent::Stick));
    assert_eq!(bus.next_event(a), None);
}

#[test]
fn events_are_delivered_oldest_first() {
    let mut bus = EventBus::new(8, 2);
    let a = bus.subscribe().unwrap();
    assert!(bus.take_publisher());
    bus.publish(ButtonEvent::Up);
    bus.publish(ButtonEvent::Down);
    bus.publish(ButtonEvent::Left);
    assert_eq!(bus.next_event(a), Some(ButtonEvent::Up));
    assert_eq!(bus.next_event(a), Some(ButtonEvent::Down));
    assert_eq!(bus.next_event(a), Some(ButtonEvent::Left));
    assert_eq!(bus.next_event(a), None);
}

#[test]
fn a_full_queue_loses_its_oldest_event() {
    let mut bus = EventBus::new(2, 1);
    let a = bus.subscribe().unwrap();
    assert!(bus.take_publisher());
    bus.publish(ButtonEvent::Up);
    bus.publish(ButtonEvent::Down);
    bus.publish(ButtonEvent::Left);
    // Capacity 2: the Up press was overwritten while nothing was drained.
    assert_eq!(bus.pending_len(a), 2);
    assert_eq!(bus.next_event(a), Some(ButtonEvent::Down));
    assert_eq!(bus.next_event(a), Some(ButtonEvent::Left));
    assert_eq!(bus.next_event(a), None);
}

#[test]
fn a_slow_subscriber_does_not_hold_others_back() {
    let mut bus = EventBus::new(1, 2);
    let slow = bus.subscribe().unwrap();
    let fast = bus.subscribe().unwrap();
    assert!(bus.take_publisher());
    bus.publish(ButtonEvent::A);
    assert_eq!(bus.next_event(fast), Some(ButtonEvent::A));
    bus.publish(ButtonEvent::B);
    assert_eq!(bus.next_event(fast), Some(ButtonEvent::B));
    // The slow subscriber only ever sees the latest event.
    assert_eq!(bus.next_event(slow), Some(ButtonEvent::B));
    assert_eq!(bus.next_event(slow), None);
}

#[test]
fn subscriber_slots_are_bounded() {
    let mut bus = EventBus::new(8, 2);
    assert_eq!(bus.subscribe(), Some(0));
    assert_eq!(bus.subscribe(), Some(1));
    assert_eq!(bus.subscribe(), None);
    assert_eq!(bus.subscriber_count(), 2);
}

#[test]
fn the_publisher_slot_is_single() {
    let mut bus = EventBus::new(8, 2);
    assert!(bus.take_publisher());
    assert!(!bus.take_publisher());
}

#[test]
fn a_late_subscriber_misses_earlier_events() {
    let mut bus = EventBus::new(8, 2);
    let early = bus.subscribe().unwrap();
    assert!(bus.take_publisher());
    bus.publish(ButtonEvent::Start);
    let late = bus.subscribe().unwrap();
    assert_eq!(bus.pending_len(late), 0);
    assert_eq!(bus.next_event(late), None);
    assert_eq!(bus.next_event(early), Some(ButtonEvent::Start));
}
