use badge_demo::event::{event_index, event_of_index, try_event_of_index, ButtonEvent, BUTTON_COUNT};

#[test]
fn every_event_has_a_slot_and_round_trips() {
    let events = [
        ButtonEvent::Up,
        ButtonEvent::Down,
        ButtonEvent::Left,
        ButtonEvent::Right,
        ButtonEvent::Stick,
        ButtonEvent::A,
        ButtonEvent::B,
        ButtonEvent::Start,
        ButtonEvent::Select,
    ];
    for (expected_slot, e) in events.iter().enumerate() {
        let slot = event_index(*e);
        assert_eq!(slot, expected_slot);
        assert_eq!(event_of_index(slot), *e);
    }
}

#[test]
fn slot_mapping_is_fixed() {
    assert_eq!(event_of_index(0), ButtonEvent::Up);
    assert_eq!(event_of_index(1), ButtonEvent::Down);
    assert_eq!(event_of_index(2), ButtonEvent::Left);
    assert_eq!(event_of_index(3), ButtonEvent::Right);
    assert_eq!(event_of_index(4), ButtonEvent::Stick);
    assert_eq!(event_of_index(5), ButtonEvent::A);
    assert_eq!(event_of_index(6), ButtonEvent::B);
    assert_eq!(event_of_index(7), ButtonEvent::Start);
    assert_eq!(event_of_index(8), ButtonEvent::Select);
}

#[test]
fn unmapped_slot_is_reported() {
    assert_eq!(try_event_of_index(BUTTON_COUNT), None);
    assert_eq!(try_event_of_index(100), None);
    assert_eq!(try_event_of_index(3), Some(ButtonEvent::Right));
}
