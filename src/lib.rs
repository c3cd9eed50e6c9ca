//! Key-resolution core of a layered mechanical keyboard: per-key debounce
//! timing, layered keymap lookup with tap/hold and pass-through cells, and
//! assembly of boot-protocol HID keyboard reports.

pub mod button;
pub mod cycle;
pub mod keycode;
pub mod keylist;
pub mod keymap;
pub mod laws;
pub mod position;
pub mod report;
pub mod resolve;
pub mod scan;
pub mod state;

use vstd::prelude::*;

verus! {

/// Number of rows of the key matrix.
pub const ROWS: usize = 4;

/// Number of columns of the key matrix.
pub const COLS: usize = 12;

/// Number of physical keys.
pub const BUTTONS: usize = 48;

/// Most reports that one tick can need: six keycodes per report.
pub const NUM_CHUNKS: usize = 8;

/// Number of keymap layers.
pub const LAYERS: usize = 4;

/// Number of LEDs driven from the LED bitmask.
pub const LEDS: usize = 3;

/// Fixed period of one tick, in milliseconds.
pub const DELAY_MS: u16 = 5;

} // verus!
