//! The owl display demo: a one-dimensional position driven by left/right
//! button events, and the frame of primitive shapes redrawn whenever the
//! position actually changes.
//!
//! The screen is 320 x 170 pixels; the owl occupies an 80-pixel-wide column
//! whose left edge is the position, so the position is clamped to
//! `[OWL_MIN_X, OWL_MAX_X]`.

use vstd::prelude::*;
use crate::event::ButtonEvent;

verus! {

pub const SCREEN_WIDTH: i32 = 320;
pub const SCREEN_HEIGHT: i32 = 170;

pub const OWL_BODY_DIAMETER: i32 = 80;
pub const OWL_HEAD_DIAMETER: i32 = 50;
pub const OWL_BEAK_Y: i32 = 42;
pub const OWL_BEAK_DISTANCE_X: i32 = 7;
pub const OWL_BEAK_DISTANCE_Y: i32 = 10;
pub const OWL_EYE_DIAMETER: i32 = 12;
pub const OWL_EYE_Y: i32 = 20;
pub const OWL_EYE_DISTANCE_X: i32 = 3;

/// Leftmost position the owl can take.
pub const OWL_MIN_X: i32 = 0;

/// Rightmost position the owl can take: its body must stay on screen.
pub const OWL_MAX_X: i32 = SCREEN_WIDTH - OWL_BODY_DIAMETER;

/// Top edge of the owl's column.
pub const OWL_Y: i32 = 10;

/// Starting position: the owl's body centred on the screen, so half the
/// screen width less half the body diameter.
pub const OWL_START_X: i32 = 120;

/// Width of one character of the caption font.
pub const CHAR_WIDTH: i32 = 10;

/// Baseline of the caption at the bottom of the screen.
pub const TEXT_Y: i32 = SCREEN_HEIGHT - 1;

/// One step of the position state machine: `Left` moves one pixel left,
/// `Right` one pixel right, both clamped to the screen; every other event
/// leaves the position alone.
pub open spec fn step_position_spec(x: int, e: ButtonEvent) -> int {
    if e == ButtonEvent::Left {
        if x <= OWL_MIN_X {
            OWL_MIN_X as int
        } else {
            x - 1
        }
    } else if e == ButtonEvent::Right {
        if x >= OWL_MAX_X {
            OWL_MAX_X as int
        } else {
            x + 1
        }
    } else {
        x
    }
}

/// Position reached from `x` after the whole event sequence, oldest first.
pub open spec fn apply_events_spec(x: int, events: Seq<ButtonEvent>) -> int
    decreases events.len(),
{
    if events.len() == 0 {
        x
    } else {
        apply_events_spec(step_position_spec(x, events[0]), events.drop_first())
    }
}

/// One step of the position state machine. A `Left` at the minimum and a
/// `Right` at the maximum are no-ops, as is any event other than those two.
pub fn step_position(x: i32, e: ButtonEvent) -> (r: i32)
    requires
        OWL_MIN_X <= x <= OWL_MAX_X,
    ensures
        r == step_position_spec(x as int, e),
        OWL_MIN_X <= r <= OWL_MAX_X,
        e == ButtonEvent::Left && x == OWL_MIN_X ==> r == x,
        e == ButtonEvent::Right && x == OWL_MAX_X ==> r == x,
        e != ButtonEvent::Left && e != ButtonEvent::Right ==> r == x,
{
    match e {
        ButtonEvent::Left => if x <= OWL_MIN_X {
            OWL_MIN_X
        } else {
            x - 1
        },
        ButtonEvent::Right => if x >= OWL_MAX_X {
            OWL_MAX_X
        } else {
            x + 1
        },
        _ => x,
    }
}

/// However many events arrive and in whatever order, a position that starts
/// on screen stays on screen.
pub proof fn lemma_position_stays_in_bounds(x: int, events: Seq<ButtonEvent>)
    requires
        OWL_MIN_X <= x <= OWL_MAX_X,
    ensures
        OWL_MIN_X <= apply_events_spec(x, events) <= OWL_MAX_X,
    decreases events.len(),
{
    if events.len() > 0 {
        lemma_position_stays_in_bounds(step_position_spec(x, events[0]), events.drop_first());
    }
}

/// Runs the position state machine over a whole event sequence.
pub fn run_events(start: i32, events: &Vec<ButtonEvent>) -> (r: i32)
    requires
        OWL_MIN_X <= start <= OWL_MAX_X,
    ensures
        r == apply_events_spec(start as int, events@),
        OWL_MIN_X <= r <= OWL_MAX_X,
{
    let mut x: i32 = start;
    let mut i: usize = 0;
    proof {
        assert(events@.skip(0) =~= events@);
    }
    while i < events.len()
        invariant
            0 <= i <= events.len(),
            OWL_MIN_X <= x <= OWL_MAX_X,
            apply_events_spec(start as int, events@) == apply_events_spec(
                x as int,
                events@.skip(i as int),
            ),
        decreases events.len() - i,
    {
        proof {
            assert(events@.skip(i as int).drop_first() =~= events@.skip(i as int + 1));
            assert(events@.skip(i as int)[0] == events@[i as int]);
        }
        x = step_position(x, events[i]);
        i = i + 1;
    }
    proof {
        assert(events@.skip(i as int) =~= Seq::<ButtonEvent>::empty());
    }
    x
}

/// An axis-aligned rectangle given by its top-left corner and size.
#[derive(Clone, Copy, PartialEq, Eq, Structural, Debug)]
pub struct RectArea {
    pub x: i32,
    pub y: i32,
    pub width: i32,
    pub height: i32,
}

/// A circle given by the top-left corner of its bounding box and its
/// diameter.
#[derive(Clone, Copy, PartialEq, Eq, Structural, Debug)]
pub struct CircleShape {
    pub x: i32,
    pub y: i32,
    pub diameter: i32,
}

/// A straight line between two points.
#[derive(Clone, Copy, PartialEq, Eq, Structural, Debug)]
pub struct LineShape {
    pub x0: i32,
    pub y0: i32,
    pub x1: i32,
    pub y1: i32,
}

/// Everything one redraw of the owl paints: the region of the previous frame
/// to fill with background, then the owl's outline shapes at the new
/// position.
#[derive(Clone, Copy, PartialEq, Eq, Structural, Debug)]
pub struct OwlFrame {
    pub clear: RectArea,
    pub body: CircleShape,
    pub head: CircleShape,
    pub left_eye: CircleShape,
    pub right_eye: CircleShape,
    pub beak_left: LineShape,
    pub beak_right: LineShape,
    pub beak_top: LineShape,
}

/// Horizontal centre of the owl's head for a given position.
pub open spec fn owl_head_center_x(x: int) -> int {
    x + (OWL_BODY_DIAMETER - OWL_HEAD_DIAMETER) / 2 + OWL_HEAD_DIAMETER / 2
}

/// The frame that moves the owl from `prev_x` to `x`: the previous column is
/// erased and every shape is placed at a fixed offset from `x`.
pub open spec fn is_owl_frame(f: OwlFrame, prev_x: int, x: int) -> bool {
    &&& f.clear.x == prev_x
    &&& f.clear.y == OWL_Y
    &&& f.clear.width == OWL_BODY_DIAMETER
    &&& f.clear.height == OWL_BODY_DIAMETER + OWL_HEAD_DIAMETER
    &&& f.body.x == x
    &&& f.body.y == OWL_Y + OWL_HEAD_DIAMETER
    &&& f.body.diameter == OWL_BODY_DIAMETER
    &&& f.head.x == x + (OWL_BODY_DIAMETER - OWL_HEAD_DIAMETER) / 2
    &&& f.head.y == OWL_Y
    &&& f.head.diameter == OWL_HEAD_DIAMETER
    &&& f.left_eye.x == owl_head_center_x(x) - OWL_EYE_DISTANCE_X - OWL_EYE_DIAMETER
    &&& f.left_eye.y == OWL_EYE_Y
    &&& f.left_eye.diameter == OWL_EYE_DIAMETER
    &&& f.right_eye.x == owl_head_center_x(x) + OWL_EYE_DISTANCE_X
    &&& f.right_eye.y == OWL_EYE_Y
    &&& f.right_eye.diameter == OWL_EYE_DIAMETER
    &&& f.beak_left.x0 == owl_head_center_x(x) - OWL_BEAK_DISTANCE_X
    &&& f.beak_left.y0 == OWL_BEAK_Y
    &&& f.beak_left.x1 == owl_head_center_x(x)
    &&& f.beak_left.y1 == OWL_BEAK_Y + OWL_BEAK_DISTANCE_Y
    &&& f.beak_right.x0 == owl_head_center_x(x) + OWL_BEAK_DISTANCE_X
    &&& f.beak_right.y0 == OWL_BEAK_Y
    &&& f.beak_right.x1 == owl_head_center_x(x)
    &&& f.beak_right.y1 == OWL_BEAK_Y + OWL_BEAK_DISTANCE_Y
    &&& f.beak_top.x0 == owl_head_center_x(x) - OWL_BEAK_DISTANCE_X
    &&& f.beak_top.y0 == OWL_BEAK_Y
    &&& f.beak_top.x1 == owl_head_center_x(x) + OWL_BEAK_DISTANCE_X
    &&& f.beak_top.y1 == OWL_BEAK_Y
}

/// Builds the frame that erases the owl's previous column and redraws it at
/// `x`.
pub fn owl_frame(prev_x: i32, x: i32) -> (f: OwlFrame)
    requires
        OWL_MIN_X <= prev_x <= OWL_MAX_X,
        OWL_MIN_X <= x <= OWL_MAX_X,
    ensures
        is_owl_frame(f, prev_x as int, x as int),
{
    let head_center_x: i32 = x + (OWL_BODY_DIAMETER - OWL_HEAD_DIAMETER) / 2
        + OWL_HEAD_DIAMETER / 2;
    OwlFrame {
        clear: RectArea {
            x: prev_x,
            y: OWL_Y,
            width: OWL_BODY_DIAMETER,
            height: OWL_BODY_DIAMETER + OWL_HEAD_DIAMETER,
        },
        body: CircleShape { x, y: OWL_Y + OWL_HEAD_DIAMETER, diameter: OWL_BODY_DIAMETER },
        head: CircleShape {
            x: x + (OWL_BODY_DIAMETER - OWL_HEAD_DIAMETER) / 2,
            y: OWL_Y,
            diameter: OWL_HEAD_DIAMETER,
        },
        left_eye: CircleShape {
            x: head_center_x - OWL_EYE_DISTANCE_X - OWL_EYE_DIAMETER,
            y: OWL_EYE_Y,
            diameter: OWL_EYE_DIAMETER,
        },
        right_eye: CircleShape {
            x: head_center_x + OWL_EYE_DISTANCE_X,
            y: OWL_EYE_Y,
            diameter: OWL_EYE_DIAMETER,
        },
        beak_left: LineShape {
            x0: head_center_x - OWL_BEAK_DISTANCE_X,
            y0: OWL_BEAK_Y,
            x1: head_center_x,
            y1: OWL_BEAK_Y + OWL_BEAK_DISTANCE_Y,
        },
        beak_right: LineShape {
            x0: head_center_x + OWL_BEAK_DISTANCE_X,
            y0: OWL_BEAK_Y,
            x1: head_center_x,
            y1: OWL_BEAK_Y + OWL_BEAK_DISTANCE_Y,
        },
        beak_top: LineShape {
            x0: head_center_x - OWL_BEAK_DISTANCE_X,
            y0: OWL_BEAK_Y,
            x1: head_center_x + OWL_BEAK_DISTANCE_X,
            y1: OWL_BEAK_Y,
        },
    }
}

/// The display responder's reaction to one event: the new position, and the
/// frame to paint if and only if the position actually changed. Events other
/// than `Left` and `Right`, and steps against a screen edge, repaint nothing.
pub fn display_step(x: i32, e: ButtonEvent) -> (r: (i32, Option<OwlFrame>))
    requires
        OWL_MIN_X <= x <= OWL_MAX_X,
    ensures
        r.0 == step_position_spec(x as int, e),
        OWL_MIN_X <= r.0 <= OWL_MAX_X,
        r.1 is Some <==> r.0 != x,
        r.1 matches Some(f) ==> is_owl_frame(f, x as int, r.0 as int),
        e != ButtonEvent::Left && e != ButtonEvent::Right ==> r.0 == x && r.1 is None,
{
    let new_x = step_position(x, e);
    if new_x == x {
        (new_x, None)
    } else {
        (new_x, Some(owl_frame(x, new_x)))
    }
}

/// The rectangle that blanks the whole screen before the first frame.
pub fn startup_clear() -> (r: RectArea)
    ensures
        r.x == 0,
        r.y == 0,
        r.width == SCREEN_WIDTH,
        r.height == SCREEN_HEIGHT,
{
    RectArea { x: 0, y: 0, width: SCREEN_WIDTH, height: SCREEN_HEIGHT }
}

/// Left edge of a caption of `len_chars` characters centred on the screen.
pub fn caption_x(len_chars: usize) -> (x: i32)
    requires
        len_chars <= 1000,
    ensures
        x == SCREEN_WIDTH / 2 - (len_chars as int * CHAR_WIDTH) / 2,
{
    SCREEN_WIDTH / 2 - (len_chars as i32 * CHAR_WIDTH) / 2
}

} // verus!
