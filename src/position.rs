use vstd::prelude::*;

use crate::{BUTTONS, COLS, ROWS};

verus! {

/// One physical key, by row and column of the matrix.
#[derive(Copy, Clone, Debug, PartialEq, Eq, Structural)]
pub struct Position {
    pub row: u8,
    pub col: u8,
}

impl Position {
    /// The position is inside the matrix.
    pub open spec fn wf(&self) -> bool {
        (self.row as int) < ROWS as int && (self.col as int) < COLS as int
    }

    pub open spec fn row_spec(&self) -> int {
        self.row as int
    }

    pub open spec fn col_spec(&self) -> int {
        self.col as int
    }

    /// The linear index `row * COLS + col`.
    pub open spec fn index_spec(&self) -> int {
        self.row as int * COLS as int + self.col as int
    }

    /// The position with linear index `i`.
    pub fn from(i: usize) -> (r: Position)
        requires
            i < BUTTONS,
        ensures
            r.wf(),
            r.row_spec() == i as int / COLS as int,
            r.col_spec() == i as int % COLS as int,
            r.index_spec() == i as int,
            r == pos_of(i as int),
    {
        let row = i / COLS;
        let col = i % COLS;
        Position { row: row as u8, col: col as u8 }
    }

    /// The position at `row`, `col`.
    pub fn at(row: u8, col: u8) -> (r: Position)
        requires
            (row as int) < ROWS as int,
            (col as int) < COLS as int,
        ensures
            r.wf(),
            r.row_spec() == row as int,
            r.col_spec() == col as int,
    {
        Position { row, col }
    }

    pub fn row(&self) -> (r: u8)
        ensures
            r as int == self.row_spec(),
    {
        self.row
    }

    pub fn col(&self) -> (r: u8)
        ensures
            r as int == self.col_spec(),
    {
        self.col
    }

    /// The linear index of the position.
    pub fn index(&self) -> (r: usize)
        requires
            self.wf(),
        ensures
            r as int == self.index_spec(),
            (r as int) < BUTTONS as int,
    {
        self.row as usize * COLS + self.col as usize
    }
}

/// The position with linear index `i`.
pub open spec fn pos_of(i: int) -> Position {
    Position { row: (i / COLS as int) as u8, col: (i % COLS as int) as u8 }
}

/// Converting a position to its linear index and back gives the position
/// again, and converting an index to a position and back gives the index.
pub proof fn lemma_position_index_round_trip(p: Position, i: int)
    requires
        p.wf(),
        0 <= i < BUTTONS as int,
    ensures
        0 <= p.index_spec() < BUTTONS as int,
        p.index_spec() / COLS as int == p.row_spec(),
        p.index_spec() % COLS as int == p.col_spec(),
        (i / COLS as int) * COLS as int + i % COLS as int == i,
        0 <= i / (COLS as int) < ROWS as int,
{
    assert(p.index_spec() / 12 == p.row_spec() && p.index_spec() % 12 == p.col_spec()) by (nonlinear_arith)
        requires
            0 <= p.row_spec() < 4,
            0 <= p.col_spec() < 12,
            p.index_spec() == p.row_spec() * 12 + p.col_spec(),
    ;
    assert((i / 12) * 12 + i % 12 == i && 0 <= i / 12 < 4) by (nonlinear_arith)
        requires
            0 <= i < 48,
    ;
}

} // verus!
