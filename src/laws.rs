//! Properties that relate several parts of the pipeline.
use vstd::prelude::*;

use crate::button::{settled_pressed, step, steps, Button, DEBOUNCE};
use crate::keymap::{cell_at, cell_of, Key, KeyType, CELLS};
use crate::position::{pos_of, Position};
use crate::report::{
    is_empty_report, key_codes, modifier_byte, report_count, reports_for, slot, Report, SLOTS,
};
use crate::resolve::{active_layer_spec, layer_contribution, layer_sum, resolve_spec, resolved_keys};
use crate::BUTTONS;

verus! {

proof fn lemma_pos_of_index(i: int)
    requires
        0 <= i < BUTTONS,
    ensures
        pos_of(i).wf(),
        pos_of(i).index_spec() == i,
{
    assert(0 <= i / 12 < 4 && 0 <= i % 12 < 12 && (i / 12) * 12 + i % 12 == i) by (nonlinear_arith)
        requires
            0 <= i < 48,
    ;
}

proof fn lemma_layer_sum_two(cells: Seq<KeyType>, bs: Seq<Button>, a: int, b: int, n: int)
    requires
        cells.len() == CELLS,
        bs.len() == BUTTONS,
        0 <= a < BUTTONS,
        0 <= b < BUTTONS,
        a != b,
        cell_at(cells, 0, a) == KeyType::Instant(Key::LayerMo(1)),
        cell_at(cells, 0, b) == KeyType::Instant(Key::LayerMo(2)),
        forall|i: int| 0 <= i < BUTTONS && i != a && i != b ==> !settled_pressed(#[trigger] bs[i]),
        0 <= n <= BUTTONS,
    ensures
        layer_sum(cells, bs, n) == (if a < n && settled_pressed(bs[a]) {
            1int
        } else {
            0
        }) + (if b < n && settled_pressed(bs[b]) {
            2int
        } else {
            0
        }),
    decreases n,
{
    if n > 0 {
        lemma_layer_sum_two(cells, bs, a, b, n - 1);
        let i = n - 1;
        lemma_pos_of_index(i);
        if i == a || i == b {
            assert(cell_of(cells, 0, pos_of(i)) == cell_at(cells, 0, i));
        }
        assert(layer_contribution(cells, i, bs[i]) == (if i == a && settled_pressed(bs[a]) {
            1int
        } else if i == b && settled_pressed(bs[b]) {
            2int
        } else {
            0
        }));
    }
}

/// Layers add up: with a key mapped to `LayerMo(1)` and another to
/// `LayerMo(2)` on layer 0 and no other key settled pressed, the active
/// layer is 3 while both are held, the other's layer while one is held,
/// and 0 while neither is.
pub proof fn lemma_layer_additivity(cells: Seq<KeyType>, bs: Seq<Button>, a: int, b: int)
    requires
        cells.len() == CELLS,
        bs.len() == BUTTONS,
        0 <= a < BUTTONS,
        0 <= b < BUTTONS,
        a != b,
        cell_at(cells, 0, a) == KeyType::Instant(Key::LayerMo(1)),
        cell_at(cells, 0, b) == KeyType::Instant(Key::LayerMo(2)),
        forall|i: int| 0 <= i < BUTTONS && i != a && i != b ==> !settled_pressed(#[trigger] bs[i]),
    ensures
        active_layer_spec(cells, bs) == (if settled_pressed(bs[a]) {
            1u8
        } else {
            0u8
        }) + (if settled_pressed(bs[b]) {
            2u8
        } else {
            0u8
        }),
{
    lemma_layer_sum_two(cells, bs, a, b, BUTTONS as int);
}

proof fn lemma_press_steps(b0: Button, t: nat)
    requires
        b0.time.pressed == 0,
    ensures
        steps(b0, true, t).time.pressed == (if t > 255 {
            255
        } else {
            t
        }),
        t >= 1 ==> steps(b0, true, t).time.released == 0,
        steps(b0, true, t).last_press == b0.last_press,
    decreases t,
{
    if t > 0 {
        lemma_press_steps(b0, (t - 1) as nat);
    }
}

proof fn lemma_release_steps(b1: Button, m: nat)
    requires
        b1.time.pressed > 0,
        m >= 1,
    ensures
        steps(b1, false, m).time.pressed == 0,
        steps(b1, false, m).time.released == (if m > 255 {
            255
        } else {
            m
        }),
        steps(b1, false, m).last_press == b1.time.pressed,
    decreases m,
{
    if m > 1 {
        lemma_release_steps(b1, (m - 1) as nat);
    } else {
        assert(steps(b1, false, 0) == b1);
    }
}

/// Tap or hold: for a cell `OnHold(KeyCode(tap), limit, KeyCode(hold))`
/// and a key pressed for `n` ticks from a released state, tick `t` of the
/// press gives the hold key once `t` exceeds the limit and nothing before;
/// tick `m` after the release gives the tap key on the first tick only, and
/// only after a settled press no longer than the limit.
pub proof fn lemma_tap_hold(
    cells: Seq<KeyType>,
    p: Position,
    layer: nat,
    b0: Button,
    tap: u8,
    limit: u8,
    hold: u8,
    n: nat,
    t: nat,
    m: nat,
)
    requires
        cell_of(cells, layer as int, p) == KeyType::OnHold(Key::KeyCode(tap), limit, Key::KeyCode(hold)),
        limit < 255,
        b0.time.pressed == 0,
        1 <= n,
    ensures
        1 <= t ==> resolve_spec(cells, p, layer, steps(b0, true, t)) == (if t > limit {
            Some(Key::KeyCode(hold))
        } else {
            None
        }),
        1 <= m ==> resolve_spec(cells, p, layer, steps(steps(b0, true, n), false, m)) == (if m == 1
            && DEBOUNCE <= n <= limit {
            Some(Key::KeyCode(tap))
        } else {
            None
        }),
{
    lemma_press_steps(b0, t);
    lemma_press_steps(b0, n);
    if 1 <= m {
        lemma_release_steps(steps(b0, true, n), m);
    }
}

/// Pass-through: a cell `PassThrough(n)` on `layer` resolves, while the key
/// is settled pressed, to what the same position resolves to `n` layers
/// lower; where that would not go strictly down inside the table it resolves
/// to nothing. So with `KeyCode(x)` below, it gives `KeyCode(x)`.
pub proof fn lemma_pass_through(cells: Seq<KeyType>, p: Position, layer: nat, n: u8, b: Button, x: u8)
    requires
        cell_of(cells, layer as int, p) == KeyType::Instant(Key::PassThrough(n)),
        settled_pressed(b),
    ensures
        1 <= n <= layer ==> resolve_spec(cells, p, layer, b) == resolve_spec(
            cells,
            p,
            (layer - n) as nat,
            b,
        ),
        !(1 <= n <= layer) ==> resolve_spec(cells, p, layer, b) == None::<Key>,
        1 <= n <= layer && cell_of(cells, layer - n, p) == KeyType::Instant(Key::KeyCode(x))
            ==> resolve_spec(cells, p, layer, b) == Some(Key::KeyCode(x)),
{
    if 1 <= n <= layer && cell_of(cells, layer - n, p) == KeyType::Instant(Key::KeyCode(x)) {
        assert(resolve_spec(cells, p, (layer - n) as nat, b) == Some(Key::KeyCode(x)));
    }
}

/// The keycode slots of all reports, one report after the other.
pub open spec fn flatten_slots(rs: Seq<Report>) -> Seq<u8>
    decreases rs.len(),
{
    if rs.len() == 0 {
        Seq::empty()
    } else {
        flatten_slots(rs.drop_last()) + rs.last().keycodes@
    }
}

/// The non-zero bytes of `s`, in order.
pub open spec fn nonzero(s: Seq<u8>) -> Seq<u8> {
    s.filter(|c: u8| c != 0)
}

proof fn lemma_key_codes_nonzero(keys: Seq<Key>)
    ensures
        forall|i: int| 0 <= i < key_codes(keys).len() ==> #[trigger] key_codes(keys)[i] != 0,
    decreases keys.len(),
{
    if keys.len() > 0 {
        lemma_key_codes_nonzero(keys.drop_last());
        let prev = key_codes(keys.drop_last());
        assert forall|i: int| 0 <= i < key_codes(keys).len() implies #[trigger] key_codes(keys)[i] != 0 by {
            if i < prev.len() {
                assert(key_codes(keys)[i] == prev[i]);
            }
        }
    }
}

proof fn lemma_filter_all_nonzero(s: Seq<u8>)
    requires
        forall|i: int| 0 <= i < s.len() ==> #[trigger] s[i] != 0,
    ensures
        nonzero(s) == s,
    decreases s.len(),
{
    reveal(Seq::filter);
    if s.len() > 0 {
        lemma_filter_all_nonzero(s.drop_last());
        assert(s.drop_last().push(s.last()) =~= s);
    }
}

proof fn lemma_filter_all_zero(s: Seq<u8>)
    requires
        forall|i: int| 0 <= i < s.len() ==> #[trigger] s[i] == 0,
    ensures
        nonzero(s) == Seq::<u8>::empty(),
    decreases s.len(),
{
    reveal(Seq::filter);
    if s.len() > 0 {
        lemma_filter_all_zero(s.drop_last());
    }
}

proof fn lemma_flatten_prefix(codes: Seq<u8>, mods: u8, rs: Seq<Report>, j: int)
    requires
        0 <= j <= rs.len(),
        forall|q: int|
            0 <= q < rs.len() ==> crate::report::report_is(#[trigger] rs[q], mods, codes, q),
    ensures
        flatten_slots(rs.take(j)) =~= Seq::new((6 * j) as nat, |i: int| slot(codes, 0, i)),
    decreases j,
{
    if j > 0 {
        lemma_flatten_prefix(codes, mods, rs, j - 1);
        assert(rs.take(j).drop_last() =~= rs.take(j - 1));
        let r = rs[j - 1];
        assert forall|s: int| 0 <= s < SLOTS implies #[trigger] r.keycodes@[s] == slot(codes, 0, 6 * (j - 1) + s) by {
            assert(6 * (j - 1) + s == 6 * (j - 1) + s);
        }
    }
}

/// Splitting into reports loses and reorders nothing: every report carries
/// the same modifier byte, and the non-zero keycodes of the reports, taken
/// in order, are the resolved keycodes in order; the slots past them are
/// zero, fewer than six of them.
pub proof fn lemma_reports_round_trip(keys: Seq<Key>, rs: Seq<Report>)
    requires
        reports_for(keys, rs),
    ensures
        nonzero(flatten_slots(rs)) == key_codes(keys),
        forall|j: int| 0 <= j < rs.len() ==> (#[trigger] rs[j]).modifier == modifier_byte(keys),
        key_codes(keys).len() <= flatten_slots(rs).len() < key_codes(keys).len() + 6 || (key_codes(
            keys,
        ).len() == 0 && flatten_slots(rs).len() == 6),
{
    let codes = key_codes(keys);
    let len = codes.len() as int;
    let count = rs.len() as int;
    lemma_flatten_prefix(codes, modifier_byte(keys), rs, count);
    assert(rs.take(count) =~= rs);
    let flat = flatten_slots(rs);
    assert(count == report_count(len));
    assert(len <= 6 * count && (len == 0 || 6 * count < len + 6)) by (nonlinear_arith)
        requires
            count == (if len <= 0 {
                1
            } else {
                (len + 5) / 6
            }),
            len >= 0,
    ;
    let zeros = Seq::new((6 * count - len) as nat, |i: int| 0u8);
    assert(flat =~= codes + zeros);
    lemma_key_codes_nonzero(keys);
    lemma_filter_all_nonzero(codes);
    lemma_filter_all_zero(zeros);
    Seq::filter_distributes_over_add(codes, zeros, |c: u8| c != 0);
    assert(nonzero(codes + zeros) =~= codes);
}

proof fn lemma_released_resolves_nothing(cells: Seq<KeyType>, bs: Seq<Button>, layer: nat, n: int)
    requires
        0 <= n <= bs.len(),
        forall|i: int|
            0 <= i < bs.len() ==> (#[trigger] bs[i]).time.pressed == 0 && bs[i].time.released
                >= DEBOUNCE,
    ensures
        resolved_keys(cells, bs, layer, n) == Seq::<Key>::empty(),
    decreases n,
{
    if n > 0 {
        lemma_released_resolves_nothing(cells, bs, layer, n - 1);
        let b = bs[n - 1];
        assert(resolve_spec(cells, pos_of(n - 1), layer, b) == None::<Key>);
    }
}

/// With every key settled released the keyboard resolves no key, and the
/// reports for that are exactly one report with no modifier and no keycode.
pub proof fn lemma_released_gives_one_empty_report(
    cells: Seq<KeyType>,
    bs: Seq<Button>,
    layer: nat,
    rs: Seq<Report>,
)
    requires
        bs.len() == BUTTONS,
        forall|i: int|
            0 <= i < BUTTONS ==> (#[trigger] bs[i]).time.pressed == 0 && bs[i].time.released
                >= DEBOUNCE,
        reports_for(resolved_keys(cells, bs, layer, BUTTONS as int), rs),
    ensures
        resolved_keys(cells, bs, layer, BUTTONS as int) == Seq::<Key>::empty(),
        rs.len() == 1,
        is_empty_report(rs[0]),
{
    lemma_released_resolves_nothing(cells, bs, layer, BUTTONS as int);
    let keys = Seq::<Key>::empty();
    assert(key_codes(keys) == Seq::<u8>::empty());
    assert(modifier_byte(keys) == 0);
    let r = rs[0];
    assert(r.keycodes@ =~= seq![0u8, 0u8, 0u8, 0u8, 0u8, 0u8]) by {
        assert forall|s: int| 0 <= s < SLOTS implies #[trigger] r.keycodes@[s] == 0u8 by {
            assert(r.keycodes@[s] == slot(key_codes(keys), 0, s));
        }
    }
}

/// A key that stays inactive stays settled released, so while no key
/// changes state the keyboard keeps resolving no key and sends nothing new.
pub proof fn lemma_released_stays_released(b: Button)
    requires
        b.time.pressed == 0,
        b.time.released >= DEBOUNCE,
    ensures
        step(b, false).time.pressed == 0,
        step(b, false).time.released >= DEBOUNCE,
{
}

} // verus!
