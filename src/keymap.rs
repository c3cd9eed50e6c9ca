//! The layered keymap: what each key means on each layer.
use vstd::prelude::*;

use crate::position::Position;
use crate::{BUTTONS, DELAY_MS, LAYERS};
use crate::keycode::{
    A, B, BACKSPACE, BS_N_PIPE, C, CBRAKET, COMMA, D, DASH, DELETE, DOT, E, END, EQUAL, ESC, F, F1,
    F10, F11, F12, F2, F3, F4, F5, F6, F7, F8, F9, G, GACC, H, HOME, I, INSERT, J, K, K0, K1, K2, K3,
    K4, K5, K6, K7, K8, K9, L, L_ALT, L_CTRL, L_SHFT, L_SUPR, M, MENU, N, O, OBRAKET, P, PGDWN, PGUP,
    PRNT_SCRN, Q, R, RETURN, R_ALT, R_CTRL, R_SHFT, R_SUPR, S, SE_AA, SE_AE, SE_DASH, SE_OE, SPACE, T,
    TAB, TILDE, U, V, W, X, Y, Z, ARROW_D, ARROW_L, ARROW_R, ARROW_U,
};
use self::Key::{Function, KeyCode, LayerMo, PassThrough};
use self::KeyType::{Instant, OnHold};

verus! {

/// The logical meaning of one keymap cell.
#[derive(Copy, Clone, Debug, PartialEq, Eq, Structural)]
pub enum Key {
    /// A HID usage code, an ordinary key or a modifier.
    KeyCode(u8),
    /// Toggles the LED with this number; produces no keycode.
    Function(u8),
    /// Adds this many layers to the active layer while held.
    LayerMo(u8),
    /// Looks the same position up this many layers lower.
    PassThrough(u8),
    /// Resolves to nothing.
    Dead,
}

/// What the keymap stores per cell.
#[derive(Copy, Clone, Debug, PartialEq, Eq, Structural)]
pub enum KeyType {
    /// Resolves to the key while it is settled pressed.
    Instant(Key),
    /// Tap key, hold limit in ticks, hold key.
    OnHold(Key, u8, Key),
}

/// A key event as the USB side sees it.
#[derive(Copy, Clone, Debug, PartialEq, Eq, Structural)]
pub enum Event {
    KeyCode(u8),
}

/// The number of cells of a full keymap.
pub const CELLS: usize = 192;

/// Every pass-through cell points to a strictly lower, existing layer.
pub open spec fn cell_well_founded(layer: int, cell: KeyType) -> bool {
    let below = |k: Key|
        match k {
            Key::PassThrough(n) => 1 <= n <= layer,
            _ => true,
        };
    match cell {
        KeyType::Instant(k) => below(k),
        KeyType::OnHold(tap, _, hold) => below(tap) && below(hold),
    }
}

/// The cell at `layer` and linear index `i` of a table laid out layer by
/// layer; outside the table every cell is dead.
pub open spec fn cell_at(cells: Seq<KeyType>, layer: int, i: int) -> KeyType {
    if 0 <= layer < LAYERS && 0 <= i < BUTTONS && cells.len() == CELLS {
        cells[layer * BUTTONS + i]
    } else {
        KeyType::Instant(Key::Dead)
    }
}

/// The cell at `layer` and `p`; dead where `p` lies outside the matrix.
pub open spec fn cell_of(cells: Seq<KeyType>, layer: int, p: Position) -> KeyType {
    if p.wf() {
        cell_at(cells, layer, p.index_spec())
    } else {
        KeyType::Instant(Key::Dead)
    }
}

/// A hold limit given in milliseconds, in whole ticks (rounded down,
/// at most 255).
pub open spec fn ms_to_ticks_spec(ms: u16) -> u8 {
    if ms / DELAY_MS > 255 {
        255
    } else {
        (ms / DELAY_MS) as u8
    }
}

/// Converts a duration in milliseconds to ticks, rounding down.
pub fn ms_to_ticks(ms: u16) -> (r: u8)
    ensures
        r == ms_to_ticks_spec(ms),
{
    let t: u16 = ms / DELAY_MS;
    if t > 255 {
        255
    } else {
        t as u8
    }
}

/// The keyboard's own keymap; the same as `Layout::new()`.
pub fn layout() -> (r: Layout)
    ensures
        r.wf(),
        forall|i: int| 0 <= i < CELLS ==> cell_well_founded(i / BUTTONS as int, #[trigger] r@[i]),
        cell_at(r@, 0, 40) == KeyType::Instant(Key::LayerMo(1)),
        cell_at(r@, 0, 43) == KeyType::Instant(Key::LayerMo(2)),
        cell_at(r@, 0, 25) == KeyType::OnHold(Key::KeyCode(Z), 20, Key::KeyCode(L_SHFT)),
{
    Layout::new()
}

/// The read-only table `[layer][row][col] -> KeyType`.
pub struct Layout {
    cells: Vec<KeyType>,
}

impl View for Layout {
    type V = Seq<KeyType>;

    closed spec fn view(&self) -> Seq<KeyType> {
        self.cells@
    }
}

impl Layout {
    /// The table holds one cell per layer and key.
    pub open spec fn wf(&self) -> bool {
        self@.len() == CELLS
    }

    /// The keymap of the keyboard: letters on layer 0, digits and arrows on
    /// layer 1, function keys on layer 2, LED toggles on layer 3. The two
    /// layer keys sit on the bottom row (`LayerMo(1)` at column 4,
    /// `LayerMo(2)` at column 7), and `Z` is a tap/hold key that gives left
    /// shift when held past 100 ms.
    pub fn new() -> (r: Layout)
        ensures
            r.wf(),
            forall|i: int| 0 <= i < CELLS ==> cell_well_founded(i / BUTTONS as int, #[trigger] r@[i]),
            cell_at(r@, 0, 40) == KeyType::Instant(Key::LayerMo(1)),
            cell_at(r@, 0, 43) == KeyType::Instant(Key::LayerMo(2)),
            cell_at(r@, 0, 25) == KeyType::OnHold(Key::KeyCode(Z), 20, Key::KeyCode(L_SHFT)),
    {
        let z_hold = ms_to_ticks(100);
        let cells = vec![
            // layer 0
            Instant(KeyCode(TAB)), Instant(KeyCode(Q)), Instant(KeyCode(W)), Instant(KeyCode(E)), Instant(KeyCode(R)), Instant(KeyCode(T)), Instant(KeyCode(Y)), Instant(KeyCode(U)), Instant(KeyCode(I)), Instant(KeyCode(O)), Instant(KeyCode(P)), Instant(KeyCode(SE_AA)),
            Instant(KeyCode(ESC)), Instant(KeyCode(A)), Instant(KeyCode(S)), Instant(KeyCode(D)), Instant(KeyCode(F)), Instant(KeyCode(G)), Instant(KeyCode(H)), Instant(KeyCode(J)), Instant(KeyCode(K)), Instant(KeyCode(L)), Instant(KeyCode(SE_OE)), Instant(KeyCode(SE_AE)),
            Instant(KeyCode(L_SHFT)), OnHold(KeyCode(Z), z_hold, KeyCode(L_SHFT)), Instant(KeyCode(X)), Instant(KeyCode(C)), Instant(KeyCode(V)), Instant(KeyCode(B)), Instant(KeyCode(N)), Instant(KeyCode(M)), Instant(KeyCode(COMMA)), Instant(KeyCode(DOT)), Instant(KeyCode(SE_DASH)), Instant(KeyCode(R_SHFT)),
            Instant(KeyCode(L_CTRL)), Instant(KeyCode(L_SUPR)), Instant(KeyCode(BS_N_PIPE)), Instant(KeyCode(L_ALT)), Instant(LayerMo(1)), Instant(KeyCode(SPACE)), Instant(KeyCode(RETURN)), Instant(LayerMo(2)), Instant(KeyCode(R_ALT)), Instant(KeyCode(MENU)), Instant(KeyCode(R_SUPR)), Instant(KeyCode(R_CTRL)),
            // layer 1
            Instant(KeyCode(K1)), Instant(KeyCode(K2)), Instant(KeyCode(K3)), Instant(KeyCode(K4)), Instant(KeyCode(K5)), Instant(KeyCode(K6)), Instant(KeyCode(K7)), Instant(KeyCode(K8)), Instant(KeyCode(K9)), Instant(KeyCode(K0)), Instant(KeyCode(OBRAKET)), Instant(KeyCode(CBRAKET)),
            Instant(PassThrough(1)), Instant(PassThrough(1)), Instant(PassThrough(1)), Instant(PassThrough(1)), Instant(PassThrough(1)), Instant(PassThrough(1)), Instant(KeyCode(ARROW_L)), Instant(KeyCode(ARROW_D)), Instant(KeyCode(ARROW_U)), Instant(KeyCode(ARROW_R)), Instant(KeyCode(TILDE)), Instant(KeyCode(EQUAL)),
            Instant(PassThrough(1)), Instant(PassThrough(1)), Instant(PassThrough(1)), Instant(PassThrough(1)), Instant(PassThrough(1)), Instant(PassThrough(1)), Instant(PassThrough(1)), Instant(PassThrough(1)), Instant(PassThrough(1)), Instant(PassThrough(1)), Instant(PassThrough(1)), Instant(KeyCode(BACKSPACE)),
            Instant(PassThrough(1)), Instant(PassThrough(1)), Instant(KeyCode(GACC)), Instant(PassThrough(1)), Instant(PassThrough(1)), Instant(PassThrough(1)), Instant(PassThrough(1)), Instant(LayerMo(2)), Instant(PassThrough(1)), Instant(PassThrough(1)), Instant(PassThrough(1)), Instant(PassThrough(1)),
            // layer 2
            Instant(KeyCode(F1)), Instant(KeyCode(F2)), Instant(KeyCode(F3)), Instant(KeyCode(F4)), Instant(KeyCode(F5)), Instant(KeyCode(F6)), Instant(KeyCode(F7)), Instant(KeyCode(F8)), Instant(KeyCode(F9)), Instant(KeyCode(F10)), Instant(KeyCode(F11)), Instant(KeyCode(F12)),
            Instant(PassThrough(1)), Instant(PassThrough(1)), Instant(PassThrough(1)), Instant(PassThrough(1)), Instant(PassThrough(1)), Instant(KeyCode(INSERT)), Instant(KeyCode(HOME)), Instant(KeyCode(PGDWN)), Instant(KeyCode(PGUP)), Instant(KeyCode(END)), Instant(KeyCode(PRNT_SCRN)), Instant(KeyCode(DASH)),
            Instant(PassThrough(1)), Instant(PassThrough(1)), Instant(PassThrough(1)), Instant(PassThrough(1)), Instant(PassThrough(1)), Instant(PassThrough(1)), Instant(PassThrough(1)), Instant(PassThrough(1)), Instant(PassThrough(1)), Instant(PassThrough(1)), Instant(PassThrough(1)), Instant(KeyCode(DELETE)),
            Instant(PassThrough(1)), Instant(PassThrough(1)), Instant(PassThrough(1)), Instant(PassThrough(1)), Instant(LayerMo(1)), Instant(PassThrough(1)), Instant(PassThrough(1)), Instant(PassThrough(1)), Instant(PassThrough(1)), Instant(PassThrough(1)), Instant(PassThrough(1)), Instant(PassThrough(1)),
            // layer 3
            Instant(Function(0)), Instant(Function(1)), Instant(Function(2)), Instant(PassThrough(1)), Instant(PassThrough(1)), Instant(PassThrough(1)), Instant(PassThrough(1)), Instant(PassThrough(1)), Instant(PassThrough(1)), Instant(PassThrough(1)), Instant(PassThrough(1)), Instant(PassThrough(1)),
            Instant(PassThrough(1)), Instant(PassThrough(1)), Instant(PassThrough(1)), Instant(PassThrough(1)), Instant(PassThrough(1)), Instant(PassThrough(1)), Instant(PassThrough(1)), Instant(PassThrough(1)), Instant(PassThrough(1)), Instant(PassThrough(1)), Instant(PassThrough(1)), Instant(PassThrough(1)),
            Instant(PassThrough(1)), Instant(PassThrough(1)), Instant(PassThrough(1)), Instant(PassThrough(1)), Instant(PassThrough(1)), Instant(PassThrough(1)), Instant(PassThrough(1)), Instant(PassThrough(1)), Instant(PassThrough(1)), Instant(PassThrough(1)), Instant(PassThrough(1)), Instant(KeyCode(R_SHFT)),
            Instant(PassThrough(1)), Instant(PassThrough(1)), Instant(PassThrough(1)), Instant(PassThrough(1)), Instant(PassThrough(1)), Instant(PassThrough(1)), Instant(PassThrough(1)), Instant(PassThrough(1)), Instant(PassThrough(1)), Instant(PassThrough(1)), Instant(PassThrough(1)), Instant(PassThrough(1)),
        ];
        let r = Layout { cells };
        assert forall|i: int| 0 <= i < CELLS implies cell_well_founded(i / BUTTONS as int, #[trigger] r@[i]) by {
            assert(0 <= i / BUTTONS as int <= 3);
        }
        r
    }

    /// A keymap from its cells, layer by layer and in each layer by linear
    /// index; `None` unless there is one cell per layer and key and every
    /// pass-through cell points to a strictly lower layer.
    pub fn from_cells(cells: Vec<KeyType>) -> (r: Option<Layout>)
        ensures
            r.is_some() == (cells@.len() == CELLS && forall|i: int|
                0 <= i < CELLS ==> cell_well_founded(i / BUTTONS as int, #[trigger] cells@[i])),
            r.is_some() ==> r.unwrap()@ == cells@,
    {
        if cells.len() != CELLS {
            return None;
        }
        let mut i: usize = 0;
        while i < CELLS
            invariant
                cells@.len() == CELLS,
                0 <= i <= CELLS,
                forall|j: int| 0 <= j < i ==> cell_well_founded(j / BUTTONS as int, #[trigger] cells@[j]),
            decreases CELLS - i,
        {
            let layer: usize = i / BUTTONS;
            if !Self::cell_ok(layer, cells[i]) {
                return None;
            }
            i = i + 1;
        }
        Some(Layout { cells })
    }

    fn cell_ok(layer: usize, cell: KeyType) -> (r: bool)
        requires
            layer < LAYERS,
        ensures
            r == cell_well_founded(layer as int, cell),
    {
        match cell {
            Instant(k) => Self::key_ok(layer, k),
            OnHold(tap, _, hold) => Self::key_ok(layer, tap) && Self::key_ok(layer, hold),
        }
    }

    fn key_ok(layer: usize, key: Key) -> (r: bool)
        requires
            layer < LAYERS,
        ensures
            r == (match key {
                Key::PassThrough(n) => 1 <= n <= layer,
                _ => true,
            }),
    {
        match key {
            PassThrough(n) => 1 <= n && (n as usize) <= layer,
            _ => true,
        }
    }

    /// The cell at `layer` and `position`; a dead cell where the layer or
    /// the position lies outside the table.
    pub fn get_key(&self, layer: u8, position: &Position) -> (r: KeyType)
        requires
            self.wf(),
        ensures
            r == cell_of(self@, layer as int, *position),
    {
        if (layer as usize) < LAYERS && (position.row as usize) < crate::ROWS && (position.col as usize) < crate::COLS {
            let i = position.index();
            self.cells[layer as usize * BUTTONS + i]
        } else {
            Instant(Key::Dead)
        }
    }
}

} // verus!
