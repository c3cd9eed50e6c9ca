//! HID keyboard reports: one modifier byte and six keycode slots, split into
//! as many reports as the pressed keys need.
use vstd::prelude::*;

use crate::keycode::{is_mod, is_mod_spec, mod_bit, mod_bit_spec};
use crate::keylist::{key_list, key_list_get, key_list_len};
use crate::keymap::Key;
use crate::BUTTONS;

verus! {

/// Keycode slots per report.
pub const SLOTS: usize = 6;

/// One 8-byte boot-protocol keyboard report.
#[derive(Copy, Clone, Debug, PartialEq, Eq)]
pub struct Report {
    pub modifier: u8,
    pub reserved: u8,
    pub leds: u8,
    pub keycodes: [u8; 6],
}

/// The modifier bit that a resolved key adds.
pub open spec fn mod_of(k: Key) -> u8 {
    match k {
        Key::KeyCode(c) => if is_mod_spec(c) {
            mod_bit_spec(c)
        } else {
            0
        },
        _ => 0,
    }
}

/// All modifier bits of `keys`, OR-combined.
pub open spec fn modifier_byte(keys: Seq<Key>) -> u8
    decreases keys.len(),
{
    if keys.len() == 0 {
        0
    } else {
        modifier_byte(keys.drop_last()) | mod_of(keys.last())
    }
}

/// The keycodes of `keys` that are neither modifiers nor the empty code 0,
/// in order.
pub open spec fn key_codes(keys: Seq<Key>) -> Seq<u8>
    decreases keys.len(),
{
    if keys.len() == 0 {
        Seq::empty()
    } else {
        let prev = key_codes(keys.drop_last());
        match keys.last() {
            Key::KeyCode(c) => if !is_mod_spec(c) && c != 0 {
                prev.push(c)
            } else {
                prev
            },
            _ => prev,
        }
    }
}

/// Reports needed for `n` keycodes: one at least, then six codes each.
pub open spec fn report_count(n: int) -> int {
    if n <= 0 {
        1
    } else {
        (n + 5) / 6
    }
}

/// Slot `s` of report `j`: the code at `6 * j + s`, or 0 past the end.
pub open spec fn slot(codes: Seq<u8>, j: int, s: int) -> u8 {
    if 0 <= 6 * j + s < codes.len() {
        codes[6 * j + s]
    } else {
        0
    }
}

/// `r` is report `j` for modifier byte `mods` and keycodes `codes`.
pub open spec fn report_is(r: Report, mods: u8, codes: Seq<u8>, j: int) -> bool {
    &&& r.modifier == mods
    &&& r.reserved == 0
    &&& r.leds == 0
    &&& r.keycodes@.len() == SLOTS
    &&& forall|s: int| 0 <= s < SLOTS ==> #[trigger] r.keycodes@[s] == slot(codes, j, s)
}

/// `rs` are the reports for the resolved keys `keys`.
pub open spec fn reports_for(keys: Seq<Key>, rs: Seq<Report>) -> bool {
    &&& rs.len() == report_count(key_codes(keys).len() as int)
    &&& forall|j: int|
        0 <= j < rs.len() ==> report_is(#[trigger] rs[j], modifier_byte(keys), key_codes(keys), j)
}

/// The report with no modifier and no keycode.
pub open spec fn is_empty_report(r: Report) -> bool {
    &&& r.modifier == 0
    &&& r.reserved == 0
    &&& r.leds == 0
    &&& r.keycodes@ == seq![0u8, 0u8, 0u8, 0u8, 0u8, 0u8]
}

pub proof fn lemma_key_codes_len(keys: Seq<Key>)
    ensures
        key_codes(keys).len() <= keys.len(),
    decreases keys.len(),
{
    if keys.len() > 0 {
        lemma_key_codes_len(keys.drop_last());
    }
}

fn slot_at(codes: &Vec<u8>, i: usize) -> (r: u8)
    ensures
        r == (if i < codes@.len() {
            codes@[i as int]
        } else {
            0u8
        }),
{
    if i < codes.len() {
        codes[i]
    } else {
        0
    }
}

/// The six slots starting at code `start`.
fn chunk(codes: &Vec<u8>, start: usize) -> (r: [u8; 6])
    requires
        start + SLOTS <= usize::MAX,
    ensures
        r@.len() == SLOTS,
        forall|s: int|
            0 <= s < SLOTS ==> #[trigger] r@[s] == (if start + s < codes@.len() {
                codes@[start + s]
            } else {
                0u8
            }),
{
    let r = [
        slot_at(codes, start),
        slot_at(codes, start + 1),
        slot_at(codes, start + 2),
        slot_at(codes, start + 3),
        slot_at(codes, start + 4),
        slot_at(codes, start + 5),
    ];
    r
}

/// The reports for one tick's resolved keys: every report carries the
/// OR of all modifier bits; the other keycodes fill six slots per report
/// in order, the last report padded with zeros; with no keycode at all
/// there is one report with empty slots.
pub fn create_reports(keys: &heapless::Vec<Key, BUTTONS>) -> (r: Vec<Report>)
    ensures
        reports_for(key_list(*keys), r@),
{
    let ghost ks = key_list(*keys);
    let n = key_list_len(keys);
    let mut mods: u8 = 0;
    let mut codes: Vec<u8> = Vec::new();
    let mut i: usize = 0;
    while i < n
        invariant
            0 <= i <= n,
            n == ks.len(),
            n <= BUTTONS,
            ks == key_list(*keys),
            mods == modifier_byte(ks.take(i as int)),
            codes@ == key_codes(ks.take(i as int)),
        decreases n - i,
    {
        let k = key_list_get(keys, i);
        proof {
            assert(ks.take(i + 1).drop_last() == ks.take(i as int));
            assert(ks.take(i + 1).last() == k);
        }
        let mut bit: u8 = 0;
        match k {
            Key::KeyCode(c) => {
                if is_mod(c) {
                    bit = mod_bit(c);
                } else if c != 0 {
                    codes.push(c);
                }
            },
            _ => {},
        }
        mods = mods | bit;
        i = i + 1;
    }
    proof {
        assert(ks.take(n as int) == ks);
        lemma_key_codes_len(ks);
    }
    let len = codes.len();
    let count: usize = if len == 0 {
        1
    } else {
        (len + 5) / 6
    };
    let mut reports: Vec<Report> = Vec::new();
    let mut j: usize = 0;
    while j < count
        invariant
            0 <= j <= count,
            count == report_count(len as int),
            len == codes@.len(),
            len <= BUTTONS,
            codes@ == key_codes(ks),
            mods == modifier_byte(ks),
            reports@.len() == j,
            forall|q: int| 0 <= q < j ==> report_is(#[trigger] reports@[q], mods, codes@, q),
        decreases count - j,
    {
        let keycodes = chunk(&codes, j * 6);
        let rep = Report { modifier: mods, reserved: 0, leds: 0, keycodes };
        proof {
            assert forall|s: int| 0 <= s < SLOTS implies #[trigger] rep.keycodes@[s] == slot(codes@, j as int, s) by {}
        }
        reports.push(rep);
        j = j + 1;
    }
    reports
}

} // verus!
