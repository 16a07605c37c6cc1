//! Core logic of a conference-badge demo: a nine-button input map, an LED
//! colour table, a bounded broadcast event bus, and the owl display state
//! machine, each with a verified contract.
//!
//! Hardware access (pins, the LED strip bus, the display controller) lives
//! outside this crate; everything here works on plain values that the
//! hardware layer hands in and takes back.

pub mod bus;
pub mod event;
pub mod led;
pub mod owl;
