//! One electrical sample of the key matrix: a bitmask of active columns per
//! row.
use vstd::prelude::*;

use crate::{BUTTONS, COLS, ROWS};

verus! {

/// How the matrix is wired: rows driven and columns read, or the reverse.
#[derive(Copy, Clone, Debug, PartialEq, Eq, Structural)]
#[allow(non_camel_case_types)]
pub enum ScanType {
    ROW2COL,
    COL2ROW,
}

/// Bit `col` of `mask` is set.
pub open spec fn bit_set(mask: u16, col: u16) -> bool {
    (mask >> col) & 1u16 == 1u16
}

/// Which keys were electrically active in one scan cycle.
pub struct Scan {
    pub pressed: [u16; ROWS],
}

impl Scan {
    /// The key at `row`, `col` was active.
    pub open spec fn active_at(&self, row: int, col: int) -> bool {
        bit_set(self.pressed@[row], col as u16)
    }

    /// The key with linear index `i` was active.
    pub open spec fn active(&self, i: int) -> bool {
        self.active_at(i / COLS as int, i % COLS as int)
    }

    /// A scan in which no key is active.
    pub fn new() -> (r: Scan)
        ensures
            forall|row: int| 0 <= row < ROWS ==> #[trigger] r.pressed@[row] == 0,
            forall|row: int, col: int|
                0 <= row < ROWS && 0 <= col < COLS ==> !#[trigger] r.active_at(row, col),
    {
        let r = Scan { pressed: [0u16; ROWS] };
        assert forall|row: int, col: int| 0 <= row < ROWS && 0 <= col < COLS implies !#[trigger] r.active_at(row, col) by {
            let c = col as u16;
            assert(r.pressed@[row] == 0);
            assert(!bit_set(0u16, c)) by (bit_vector);
        }
        r
    }

    /// Marks the key at `row`, `col` active.
    pub fn set_pressed(&mut self, row: usize, col: usize)
        requires
            row < ROWS,
            col < COLS,
        ensures
            forall|r: int, c: int|
                0 <= r < ROWS && 0 <= c < 16 ==> #[trigger] final(self).active_at(r, c) == (old(
                    self,
                ).active_at(r, c) || (r == row && c == col)),
    {
        let old_mask: u16 = self.pressed[row];
        let shift: u16 = col as u16;
        let new_mask: u16 = old_mask | (1u16 << shift);
        self.pressed[row] = new_mask;
        assert forall|r: int, c: int| 0 <= r < ROWS && 0 <= c < 16 implies #[trigger] self.active_at(r, c) == (old(self).active_at(r, c) || (r == row && c == col)) by {
            let c16 = c as u16;
            if r == row {
                assert(bit_set(old_mask | (1u16 << shift), c16) == (bit_set(old_mask, c16) || c16 == shift)) by (bit_vector)
                    requires
                        shift < 16,
                        c16 < 16,
                ;
            }
        }
    }

    /// Whether the key with linear index `button` was active.
    pub fn is_pressed(&self, button: usize) -> (r: bool)
        requires
            button < BUTTONS,
        ensures
            r == self.active(button as int),
    {
        let c: usize = button % COLS;
        let r: usize = button / COLS;
        let mask: u16 = self.pressed[r];
        let shift: u16 = c as u16;
        let p: u16 = mask & (1u16 << shift);
        assert((p > 0) == bit_set(mask, shift)) by (bit_vector)
            requires
                p == mask & (1u16 << shift),
                shift < 16,
        ;
        p > 0
    }
}

} // verus!
