//! LED colours: the fixed palette, the event-to-colour table the LED
//! responder uses, the rainbow sequence of the plain blinking demo, and a
//! model of the LED strip's cell buffer.

use vstd::prelude::*;
use crate::event::ButtonEvent;

verus! {

/// A colour as the LED strip takes it: one byte per channel.
#[derive(Clone, Copy, PartialEq, Eq, Structural, Debug)]
pub struct Rgb8 {
    pub red: u8,
    pub green: u8,
    pub blue: u8,
}

/// Number of entries in the rainbow sequence.
pub const RAINBOW_LEN: u64 = 6;

/// The colour shown for each button: one fixed colour per event variant,
/// every variant mapped.
pub open spec fn led_color_spec(e: ButtonEvent) -> Rgb8 {
    match e {
        ButtonEvent::Up => Rgb8 { red: 80, green: 0, blue: 0 },
        ButtonEvent::Down => Rgb8 { red: 80, green: 80, blue: 0 },
        ButtonEvent::Left => Rgb8 { red: 0, green: 80, blue: 0 },
        ButtonEvent::Right => Rgb8 { red: 0, green: 80, blue: 80 },
        ButtonEvent::Stick => Rgb8 { red: 0, green: 0, blue: 80 },
        ButtonEvent::A => Rgb8 { red: 80, green: 0, blue: 80 },
        ButtonEvent::B => Rgb8 { red: 80, green: 80, blue: 80 },
        ButtonEvent::Start => Rgb8 { red: 0, green: 0, blue: 0 },
        ButtonEvent::Select => Rgb8 { red: 120, green: 60, blue: 30 },
    }
}

/// The LED responder's colour lookup: exactly [`led_color_spec`], so each
/// event variant yields its one fixed colour.
pub fn led_color(e: ButtonEvent) -> (c: Rgb8)
    ensures
        c == led_color_spec(e),
{
    match e {
        ButtonEvent::Up => Rgb8 { red: 80, green: 0, blue: 0 },
        ButtonEvent::Down => Rgb8 { red: 80, green: 80, blue: 0 },
        ButtonEvent::Left => Rgb8 { red: 0, green: 80, blue: 0 },
        ButtonEvent::Right => Rgb8 { red: 0, green: 80, blue: 80 },
        ButtonEvent::Stick => Rgb8 { red: 0, green: 0, blue: 80 },
        ButtonEvent::A => Rgb8 { red: 80, green: 0, blue: 80 },
        ButtonEvent::B => Rgb8 { red: 80, green: 80, blue: 80 },
        ButtonEvent::Start => Rgb8 { red: 0, green: 0, blue: 0 },
        ButtonEvent::Select => Rgb8 { red: 120, green: 60, blue: 30 },
    }
}

/// The rainbow colour for slot `i` of the blinking demo's cycle,
/// for `0 <= i < RAINBOW_LEN`.
pub open spec fn rainbow_color_spec(i: int) -> Rgb8 {
    if i == 0 {
        Rgb8 { red: 80, green: 0, blue: 0 }
    } else if i == 1 {
        Rgb8 { red: 80, green: 80, blue: 0 }
    } else if i == 2 {
        Rgb8 { red: 0, green: 80, blue: 0 }
    } else if i == 3 {
        Rgb8 { red: 0, green: 80, blue: 80 }
    } else if i == 4 {
        Rgb8 { red: 0, green: 0, blue: 80 }
    } else {
        Rgb8 { red: 80, green: 0, blue: 80 }
    }
}

/// The colour the blinking demo shows on its `step`-th tick: the rainbow
/// repeated over and over.
pub fn rainbow_color(step: u64) -> (c: Rgb8)
    ensures
        c == rainbow_color_spec(step as int % RAINBOW_LEN as int),
{
    let i = step % RAINBOW_LEN;
    if i == 0 {
        Rgb8 { red: 80, green: 0, blue: 0 }
    } else if i == 1 {
        Rgb8 { red: 80, green: 80, blue: 0 }
    } else if i == 2 {
        Rgb8 { red: 0, green: 80, blue: 0 }
    } else if i == 3 {
        Rgb8 { red: 0, green: 80, blue: 80 }
    } else if i == 4 {
        Rgb8 { red: 0, green: 0, blue: 80 }
    } else {
        Rgb8 { red: 80, green: 0, blue: 80 }
    }
}

/// The cell buffer of the LED strip: what each LED will show after the next
/// hardware commit. The commit itself belongs to the hardware layer.
pub struct LedStrip {
    pub cells: Vec<Rgb8>,
}

impl LedStrip {
    /// A strip of `count` LEDs, all dark.
    pub fn new(count: usize) -> (s: LedStrip)
        ensures
            s.cells@.len() == count,
            forall|i: int| 0 <= i < count ==> s.cells@[i] == (Rgb8 { red: 0, green: 0, blue: 0 }),
    {
        let mut cells: Vec<Rgb8> = Vec::new();
        while cells.len() < count
            invariant
                cells@.len() <= count,
                forall|i: int|
                    0 <= i < cells@.len() ==> cells@[i] == (Rgb8 { red: 0, green: 0, blue: 0 }),
            decreases count - cells@.len(),
        {
            cells.push(Rgb8 { red: 0, green: 0, blue: 0 });
        }
        LedStrip { cells }
    }

    /// Number of LEDs on the strip.
    pub fn len(&self) -> (n: usize)
        ensures
            n == self.cells@.len(),
    {
        self.cells.len()
    }

    /// Colour queued for LED `i`.
    pub fn get(&self, i: usize) -> (c: Rgb8)
        requires
            i < self.cells@.len(),
        ensures
            c == self.cells@[i as int],
    {
        self.cells[i]
    }

    /// Writes `color` into every cell, as the LED responder does on each
    /// event; the strip keeps its length.
    pub fn fill(&mut self, color: Rgb8)
        ensures
            final(self).cells@.len() == old(self).cells@.len(),
            forall|i: int| 0 <= i < final(self).cells@.len() ==> final(self).cells@[i] == color,
    {
        let n = self.cells.len();
        let mut cells: Vec<Rgb8> = Vec::new();
        while cells.len() < n
            invariant
                cells@.len() <= n,
                forall|i: int| 0 <= i < cells@.len() ==> cells@[i] == color,
            decreases n - cells@.len(),
        {
            cells.push(color);
        }
        self.cells = cells;
    }
}

} // verus!
