//! Button-press events and the mapping between input-poll slots and event
//! variants.

use vstd::prelude::*;

verus! {

/// Number of physical buttons on the badge, and so the number of wait slots
/// in the input poll.
pub const BUTTON_COUNT: usize = 9;

/// One settled press of a physical button. Produced by the input poller,
/// broadcast on the event bus, consumed by every responder.
#[derive(Clone, Copy, PartialEq, Eq, Structural, Debug)]
pub enum ButtonEvent {
    Up,
    Down,
    Left,
    Right,
    Stick,
    A,
    B,
    Start,
    Select,
}

/// The wait slot that reports this event in the input poll.
pub open spec fn event_index_spec(e: ButtonEvent) -> int {
    match e {
        ButtonEvent::Up => 0,
        ButtonEvent::Down => 1,
        ButtonEvent::Left => 2,
        ButtonEvent::Right => 3,
        ButtonEvent::Stick => 4,
        ButtonEvent::A => 5,
        ButtonEvent::B => 6,
        ButtonEvent::Start => 7,
        ButtonEvent::Select => 8,
    }
}

/// The event published when wait slot `i` completes.
pub open spec fn event_of_index_spec(i: int) -> ButtonEvent {
    if i == 0 {
        ButtonEvent::Up
    } else if i == 1 {
        ButtonEvent::Down
    } else if i == 2 {
        ButtonEvent::Left
    } else if i == 3 {
        ButtonEvent::Right
    } else if i == 4 {
        ButtonEvent::Stick
    } else if i == 5 {
        ButtonEvent::A
    } else if i == 6 {
        ButtonEvent::B
    } else if i == 7 {
        ButtonEvent::Start
    } else {
        ButtonEvent::Select
    }
}

/// Slot number of a button in the input poll.
pub fn event_index(e: ButtonEvent) -> (i: usize)
    ensures
        i == event_index_spec(e),
        i < BUTTON_COUNT,
{
    match e {
        ButtonEvent::Up => 0,
        ButtonEvent::Down => 1,
        ButtonEvent::Left => 2,
        ButtonEvent::Right => 3,
        ButtonEvent::Stick => 4,
        ButtonEvent::A => 5,
        ButtonEvent::B => 6,
        ButtonEvent::Start => 7,
        ButtonEvent::Select => 8,
    }
}

/// Event to publish when wait slot `i` completes. The mapping is closed and
/// exhaustive over the badge's buttons; a slot outside it has no event, which
/// the dispatcher treats as a fatal logic error, so it is excluded here.
pub fn event_of_index(i: usize) -> (e: ButtonEvent)
    requires
        i < BUTTON_COUNT,
    ensures
        e == event_of_index_spec(i as int),
{
    if i == 0 {
        ButtonEvent::Up
    } else if i == 1 {
        ButtonEvent::Down
    } else if i == 2 {
        ButtonEvent::Left
    } else if i == 3 {
        ButtonEvent::Right
    } else if i == 4 {
        ButtonEvent::Stick
    } else if i == 5 {
        ButtonEvent::A
    } else if i == 6 {
        ButtonEvent::B
    } else if i == 7 {
        ButtonEvent::Start
    } else {
        ButtonEvent::Select
    }
}

/// Total variant of [`event_of_index`]: reports an unmapped slot as `None`
/// instead of excluding it.
pub fn try_event_of_index(i: usize) -> (r: Option<ButtonEvent>)
    ensures
        r is Some <==> i < BUTTON_COUNT,
        i < BUTTON_COUNT ==> r == Some(event_of_index_spec(i as int)),
{
    if i < BUTTON_COUNT {
        Some(event_of_index(i))
    } else {
        None
    }
}

/// The slot mapping is exhaustive: every event has a slot, and that slot maps
/// back to the same event.
pub proof fn lemma_event_index_roundtrip(e: ButtonEvent)
    ensures
        0 <= event_index_spec(e) < BUTTON_COUNT,
        event_of_index_spec(event_index_spec(e)) == e,
{
}

/// The slot mapping is closed: every slot maps to exactly one event, and that
/// event's slot is the one it came from.
pub proof fn lemma_index_event_roundtrip(i: int)
    requires
        0 <= i < BUTTON_COUNT,
    ensures
        event_index_spec(event_of_index_spec(i)) == i,
{
}

} // verus!
