//! What a key means on a layer, given its timing: tap/hold cells and
//! pass-through to lower layers.
use vstd::prelude::*;

use crate::button::{settled_pressed, Button, DEBOUNCE};
use crate::keymap::{cell_of, Key, KeyType};
use crate::position::{pos_of, Position};

verus! {

/// A tap/hold key was just released after a settled press no longer than
/// `limit`, and the release is still in its debounce window.
pub open spec fn tap_window(b: Button, limit: u8) -> bool {
    &&& b.time.pressed == 0
    &&& 1 <= b.time.released < DEBOUNCE
    &&& DEBOUNCE <= b.last_press <= limit
}

/// The key that a looked-up `key` stands for at `layer`: pass-through goes
/// `n` layers down (and is dead where that would leave the table's bottom or
/// stay on the same layer), a dead key is nothing, any other key is itself.
pub open spec fn key_meaning(cells: Seq<KeyType>, p: Position, layer: nat, b: Button, key: Key) -> Option<Key>
    decreases layer, 0nat,
{
    match key {
        Key::PassThrough(n) => if 1 <= n <= layer {
            resolve_spec(cells, p, (layer - n) as nat, b)
        } else {
            None
        },
        Key::Dead => None,
        _ => Some(key),
    }
}

/// The key that position `p` produces at `layer` on this tick, if any.
pub open spec fn resolve_spec(cells: Seq<KeyType>, p: Position, layer: nat, b: Button) -> Option<Key>
    decreases layer, 1nat,
{
    match cell_of(cells, layer as int, p) {
        KeyType::Instant(k) => if settled_pressed(b) {
            key_meaning(cells, p, layer, b, k)
        } else {
            None
        },
        KeyType::OnHold(tap, limit, hold) => if b.time.pressed >= 1 {
            if b.time.pressed > limit {
                key_meaning(cells, p, layer, b, hold)
            } else {
                None
            }
        } else if tap_window(b, limit) {
            key_meaning(cells, p, layer, b, tap)
        } else {
            None
        },
    }
}

/// The layers that key `i` adds: the level of a `LayerMo` that it resolves
/// to on layer 0 while settled pressed, else nothing.
pub open spec fn layer_contribution(cells: Seq<KeyType>, i: int, b: Button) -> int {
    if settled_pressed(b) {
        match resolve_spec(cells, pos_of(i), 0, b) {
            Some(Key::LayerMo(l)) => l as int,
            _ => 0,
        }
    } else {
        0
    }
}

/// The sum of the contributions of the first `n` keys.
pub open spec fn layer_sum(cells: Seq<KeyType>, bs: Seq<Button>, n: int) -> int
    decreases n,
{
    if n <= 0 {
        0
    } else {
        layer_sum(cells, bs, n - 1) + layer_contribution(cells, n - 1, bs[n - 1])
    }
}

/// The active layer: the sum over all keys, stopping at 255.
pub open spec fn active_layer_spec(cells: Seq<KeyType>, bs: Seq<Button>) -> u8 {
    let s = layer_sum(cells, bs, bs.len() as int);
    if s > 255 {
        255
    } else {
        s as u8
    }
}

/// The keys that the first `n` positions resolve to at `layer`, in order of
/// position.
pub open spec fn resolved_keys(cells: Seq<KeyType>, bs: Seq<Button>, layer: nat, n: int) -> Seq<Key>
    decreases n,
{
    if n <= 0 {
        Seq::empty()
    } else {
        let prev = resolved_keys(cells, bs, layer, n - 1);
        match resolve_spec(cells, pos_of(n - 1), layer, bs[n - 1]) {
            Some(k) => prev.push(k),
            None => prev,
        }
    }
}

pub proof fn lemma_layer_sum_nonneg(cells: Seq<KeyType>, bs: Seq<Button>, n: int)
    ensures
        layer_sum(cells, bs, n) >= 0,
    decreases n,
{
    if n > 0 {
        lemma_layer_sum_nonneg(cells, bs, n - 1);
    }
}

pub proof fn lemma_resolved_keys_len(cells: Seq<KeyType>, bs: Seq<Button>, layer: nat, n: int)
    ensures
        resolved_keys(cells, bs, layer, n).len() <= if n < 0 { 0 } else { n },
    decreases n,
{
    if n > 0 {
        lemma_resolved_keys_len(cells, bs, layer, n - 1);
    }
}

} // verus!
