//! One report cycle: sample, resolve, run `Function` keys and build reports,
//! sending only when the resolved keys differ from the last ones sent.
use vstd::prelude::*;

use crate::button::step;
use crate::keylist::{key_list, key_list_get, key_list_len};
use crate::keymap::Key;
use crate::report::{create_reports, reports_for, Report};
use crate::scan::Scan;
use crate::state::{leds_after, State};
use crate::BUTTONS;

verus! {

/// Remembers the resolved keys of the last reports sent.
pub struct Reporter {
    last: Vec<Key>,
    sent: bool,
}

impl Reporter {
    /// The keys of the last reports sent; `None` before the first.
    pub closed spec fn last_keys(&self) -> Option<Seq<Key>> {
        if self.sent {
            Some(self.last@)
        } else {
            None
        }
    }

    pub fn new() -> (r: Reporter)
        ensures
            r.last_keys() == None::<Seq<Key>>,
    {
        Reporter { last: Vec::new(), sent: false }
    }

    /// Whether `keys` are the keys last sent.
    pub fn unchanged(&self, keys: &heapless::Vec<Key, BUTTONS>) -> (r: bool)
        ensures
            r == (self.last_keys() == Some(key_list(*keys))),
    {
        if !self.sent {
            return false;
        }
        let n = key_list_len(keys);
        if self.last.len() != n {
            return false;
        }
        let mut i: usize = 0;
        while i < n
            invariant
                0 <= i <= n,
                self.sent,
                n == self.last@.len(),
                n == key_list(*keys).len(),
                forall|j: int| 0 <= j < i ==> self.last@[j] == #[trigger] key_list(*keys)[j],
            decreases n - i,
        {
            let k = key_list_get(keys, i);
            if !(self.last[i] == k) {
                proof {
                    assert(self.last@[i as int] != key_list(*keys)[i as int]);
                }
                return false;
            }
            i = i + 1;
        }
        proof {
            assert(self.last@ =~= key_list(*keys));
        }
        true
    }

    /// Records `keys` as the keys last sent.
    pub fn remember(&mut self, keys: &heapless::Vec<Key, BUTTONS>)
        ensures
            final(self).last_keys() == Some(key_list(*keys)),
    {
        let n = key_list_len(keys);
        let mut v: Vec<Key> = Vec::new();
        let mut i: usize = 0;
        while i < n
            invariant
                0 <= i <= n,
                n == key_list(*keys).len(),
                v@ == key_list(*keys).take(i as int),
            decreases n - i,
        {
            v.push(key_list_get(keys, i));
            i = i + 1;
            proof {
                assert(v@ =~= key_list(*keys).take(i as int));
            }
        }
        proof {
            assert(v@ =~= key_list(*keys));
        }
        self.last = v;
        self.sent = true;
    }
}

/// Runs one tick: feeds `scan` to the key timing, resolves the keys, and,
/// when they differ from the keys last sent, runs their `Function` keys and
/// returns their reports; otherwise returns no report and leaves the LEDs
/// alone.
pub fn cycle(state: &mut State, scan: &Scan, reporter: &mut Reporter) -> (r: Vec<Report>)
    requires
        old(state).wf(),
    ensures
        final(state).wf(),
        final(state).cells() == old(state).cells(),
        forall|i: int|
            0 <= i < BUTTONS ==> #[trigger] final(state).buttons()[i] == step(
                old(state).buttons()[i],
                scan.active(i),
            ),
        old(reporter).last_keys() == Some(final(state).current_keys()) ==> {
            &&& r@.len() == 0
            &&& final(state).led_bits() == old(state).led_bits()
            &&& final(reporter).last_keys() == old(reporter).last_keys()
        },
        old(reporter).last_keys() != Some(final(state).current_keys()) ==> {
            &&& reports_for(final(state).current_keys(), r@)
            &&& final(state).led_bits() == leds_after(old(state).led_bits(), final(state).current_keys())
            &&& final(reporter).last_keys() == Some(final(state).current_keys())
        },
{
    let _ = state.tick(scan);
    let keys = state.keys();
    if reporter.unchanged(&keys) {
        Vec::new()
    } else {
        state.apply_functions(&keys);
        let reports = create_reports(&keys);
        reporter.remember(&keys);
        reports
    }
}

} // verus!
