//! The keyboard's mutable state: one timing record per key, the LED
//! bitmask, and the keymap they are read against.
use vstd::prelude::*;

use crate::button::{state_of, step, Button, ButtonState};
use crate::keylist::{key_list, key_list_get, key_list_len, key_list_new, key_list_push};
use crate::keymap::{Key, KeyType, Layout, CELLS};
use crate::position::Position;
use crate::resolve::{
    active_layer_spec, key_meaning, layer_contribution, layer_sum, lemma_layer_sum_nonneg,
    lemma_resolved_keys_len, resolve_spec, resolved_keys, tap_window,
};
use crate::scan::Scan;
use crate::{BUTTONS, LEDS};

verus! {

/// Bit `i` of `bits` is set.
pub open spec fn led_on(bits: u8, i: int) -> bool {
    (bits >> (i as u8)) & 1u8 == 1u8
}

/// The LED bitmask after the `Function` keys among `keys` have each toggled
/// their LED, in order; a `Function` whose LED number does not fit the
/// bitmask does nothing.
pub open spec fn leds_after(bits: u8, keys: Seq<Key>) -> u8
    decreases keys.len(),
{
    if keys.len() == 0 {
        bits
    } else {
        let prev = leds_after(bits, keys.drop_last());
        match keys.last() {
            Key::Function(n) => if n < 8 {
                prev ^ (1u8 << n)
            } else {
                prev
            },
            _ => prev,
        }
    }
}

/// The keyboard's state: per-key timing, LEDs and keymap.
pub struct State {
    keys: Vec<Button>,
    leds: u8,
    layout: Layout,
}

impl State {
    /// The timing record of each key, by linear index.
    pub closed spec fn buttons(&self) -> Seq<Button> {
        self.keys@
    }

    /// The LED bitmask, one bit per LED.
    pub closed spec fn led_bits(&self) -> u8 {
        self.leds
    }

    /// The keymap's cells.
    pub closed spec fn cells(&self) -> Seq<KeyType> {
        self.layout@
    }

    /// The keys that this state resolves to, in order of position.
    pub open spec fn current_keys(&self) -> Seq<Key> {
        resolved_keys(
            self.cells(),
            self.buttons(),
            active_layer_spec(self.cells(), self.buttons()) as nat,
            BUTTONS as int,
        )
    }

    pub open spec fn wf(&self) -> bool {
        self.buttons().len() == BUTTONS && self.cells().len() == CELLS
    }

    /// A fresh state on the keyboard's own keymap.
    pub fn new() -> (r: State)
        ensures
            r.wf(),
            r.led_bits() == 0,
            forall|i: int| 0 <= i < BUTTONS ==> #[trigger] r.buttons()[i] == Button::new_spec(),
    {
        State::with_layout(Layout::new())
    }

    /// A fresh state on the given keymap: every key released, every LED off.
    pub fn with_layout(layout: Layout) -> (r: State)
        requires
            layout.wf(),
        ensures
            r.wf(),
            r.cells() == layout@,
            r.led_bits() == 0,
            forall|i: int| 0 <= i < BUTTONS ==> #[trigger] r.buttons()[i] == Button::new_spec(),
    {
        let mut keys: Vec<Button> = Vec::new();
        let mut i: usize = 0;
        while i < BUTTONS
            invariant
                0 <= i <= BUTTONS,
                keys@.len() == i,
                forall|j: int| 0 <= j < i ==> #[trigger] keys@[j] == Button::new_spec(),
            decreases BUTTONS - i,
        {
            keys.push(Button::new());
            i = i + 1;
        }
        State { keys, leds: 0, layout }
    }

    /// The keymap that the state reads.
    pub fn layout(&self) -> (r: &Layout)
        ensures
            r@ == self.cells(),
    {
        &self.layout
    }

    /// Feeds one scan to every key's timing and returns each key's coarse
    /// state, by linear index.
    pub fn tick(&mut self, scan: &Scan) -> (r: Vec<ButtonState>)
        requires
            old(self).wf(),
        ensures
            final(self).wf(),
            final(self).cells() == old(self).cells(),
            final(self).led_bits() == old(self).led_bits(),
            forall|i: int|
                0 <= i < BUTTONS ==> #[trigger] final(self).buttons()[i] == step(
                    old(self).buttons()[i],
                    scan.active(i),
                ),
            r@.len() == BUTTONS,
            forall|i: int| 0 <= i < BUTTONS ==> #[trigger] r@[i] == state_of(final(self).buttons()[i]),
    {
        let mut states: Vec<ButtonState> = Vec::new();
        let mut i: usize = 0;
        while i < BUTTONS
            invariant
                0 <= i <= BUTTONS,
                self.keys@.len() == BUTTONS,
                self.layout == old(self).layout,
                self.leds == old(self).leds,
                states@.len() == i,
                forall|j: int|
                    0 <= j < i ==> #[trigger] self.keys@[j] == step(old(self).keys@[j], scan.active(j)),
                forall|j: int| i <= j < BUTTONS ==> #[trigger] self.keys@[j] == old(self).keys@[j],
                forall|j: int| 0 <= j < i ==> #[trigger] states@[j] == state_of(self.keys@[j]),
            decreases BUTTONS - i,
        {
            let active = scan.is_pressed(i);
            let mut b = self.keys[i];
            let s = b.tick(active);
            self.keys[i] = b;
            states.push(s);
            i = i + 1;
        }
        states
    }

    /// The active layer: the sum of the `LayerMo` levels that the settled
    /// pressed keys resolve to on layer 0, stopping at 255.
    pub fn layer(&self) -> (r: u8)
        requires
            self.wf(),
        ensures
            r == active_layer_spec(self.cells(), self.buttons()),
    {
        let mut acc: u8 = 0;
        let mut i: usize = 0;
        while i < BUTTONS
            invariant
                0 <= i <= BUTTONS,
                self.wf(),
                acc as int == if layer_sum(self.cells(), self.buttons(), i as int) > 255 {
                    255
                } else {
                    layer_sum(self.cells(), self.buttons(), i as int)
                },
            decreases BUTTONS - i,
        {
            let button = &self.keys[i];
            let mut level: u8 = 0;
            if button.is_pressed() {
                let p = Position::from(i);
                match State::get_key(&self.layout, &p, 0, button) {
                    Some(Key::LayerMo(l)) => {
                        level = l;
                    },
                    _ => {},
                }
            }
            proof {
                lemma_layer_sum_nonneg(self.cells(), self.buttons(), i as int);
                assert(level as int == layer_contribution(self.cells(), i as int, self.buttons()[i as int]));
            }
            acc = acc.saturating_add(level);
            i = i + 1;
        }
        acc
    }

    /// The keys that the keyboard produces on this tick, in order of
    /// position, resolved at the active layer.
    pub fn keys(&self) -> (r: heapless::Vec<Key, BUTTONS>)
        requires
            self.wf(),
        ensures
            key_list(r) == self.current_keys(),
    {
        let layer = self.layer();
        let mut out = key_list_new();
        let mut i: usize = 0;
        while i < BUTTONS
            invariant
                0 <= i <= BUTTONS,
                self.wf(),
                layer == active_layer_spec(self.cells(), self.buttons()),
                key_list(out) == resolved_keys(self.cells(), self.buttons(), layer as nat, i as int),
            decreases BUTTONS - i,
        {
            proof {
                lemma_resolved_keys_len(self.cells(), self.buttons(), layer as nat, i as int);
            }
            let p = Position::from(i);
            match State::get_key(&self.layout, &p, layer, &self.keys[i]) {
                Some(k) => {
                    let _ = key_list_push(&mut out, k);
                },
                None => {},
            }
            i = i + 1;
        }
        out
    }

    /// The key that `position` produces at `layer` on this tick, if any.
    pub fn get_key(layout: &Layout, position: &Position, layer: u8, button: &Button) -> (r: Option<Key>)
        requires
            layout.wf(),
        ensures
            r == resolve_spec(layout@, *position, layer as nat, *button),
        decreases layer, 2nat,
    {
        match layout.get_key(layer, position) {
            KeyType::Instant(key) => State::get_instant_key(key, layout, position, layer, button),
            KeyType::OnHold(key1, hold_limit, key2) => State::get_hold_key(
                key1,
                hold_limit,
                key2,
                layout,
                position,
                layer,
                button,
            ),
        }
    }

    fn get_instant_key(key: Key, layout: &Layout, position: &Position, layer: u8, button: &Button) -> (r: Option<Key>)
        requires
            layout.wf(),
        ensures
            r == (if crate::button::settled_pressed(*button) {
                key_meaning(layout@, *position, layer as nat, *button, key)
            } else {
                None
            }),
        decreases layer, 1nat,
    {
        if button.is_pressed() {
            State::key_meaning(key, layout, position, layer, button)
        } else {
            None
        }
    }

    fn get_hold_key(
        key1: Key,
        hold_limit: u8,
        key2: Key,
        layout: &Layout,
        position: &Position,
        layer: u8,
        button: &Button,
    ) -> (r: Option<Key>)
        requires
            layout.wf(),
        ensures
            r == (if button.time.pressed >= 1 {
                if button.time.pressed > hold_limit {
                    key_meaning(layout@, *position, layer as nat, *button, key2)
                } else {
                    None
                }
            } else if tap_window(*button, hold_limit) {
                key_meaning(layout@, *position, layer as nat, *button, key1)
            } else {
                None
            }),
        decreases layer, 1nat,
    {
        if button.time.pressed >= 1 {
            if button.time.pressed > hold_limit {
                State::key_meaning(key2, layout, position, layer, button)
            } else {
                None
            }
        } else if 1 <= button.time.released && button.time.released < crate::button::DEBOUNCE
            && crate::button::DEBOUNCE <= button.last_press && button.last_press <= hold_limit {
            State::key_meaning(key1, layout, position, layer, button)
        } else {
            None
        }
    }

    fn key_meaning(key: Key, layout: &Layout, position: &Position, layer: u8, button: &Button) -> (r: Option<Key>)
        requires
            layout.wf(),
        ensures
            r == key_meaning(layout@, *position, layer as nat, *button, key),
        decreases layer, 0nat,
    {
        match key {
            Key::KeyCode(kc) => Some(Key::KeyCode(kc)),
            Key::Function(f) => Some(Key::Function(f)),
            Key::LayerMo(l) => Some(Key::LayerMo(l)),
            Key::PassThrough(go_down) => {
                if 1 <= go_down && go_down <= layer {
                    State::get_key(layout, position, layer - go_down, button)
                } else {
                    None
                }
            },
            Key::Dead => None,
        }
    }

    /// Toggles LED `led` in the bitmask.
    pub fn toggle_led(&mut self, led: u8)
        requires
            old(self).wf(),
            led < 8,
        ensures
            final(self).wf(),
            final(self).led_bits() == old(self).led_bits() ^ (1u8 << led),
            final(self).buttons() == old(self).buttons(),
            final(self).cells() == old(self).cells(),
    {
        self.leds = self.leds ^ (1u8 << led);
    }

    /// Runs the `Function` keys among `keys`: each toggles its LED.
    pub fn apply_functions(&mut self, keys: &heapless::Vec<Key, BUTTONS>)
        requires
            old(self).wf(),
        ensures
            final(self).wf(),
            final(self).led_bits() == leds_after(old(self).led_bits(), key_list(*keys)),
            final(self).buttons() == old(self).buttons(),
            final(self).cells() == old(self).cells(),
    {
        let n = key_list_len(keys);
        let mut i: usize = 0;
        while i < n
            invariant
                0 <= i <= n,
                n == key_list(*keys).len(),
                self.wf(),
                self.buttons() == old(self).buttons(),
                self.cells() == old(self).cells(),
                self.led_bits() == leds_after(old(self).led_bits(), key_list(*keys).take(i as int)),
            decreases n - i,
        {
            let k = key_list_get(keys, i);
            proof {
                let ks = key_list(*keys);
                assert(ks.take(i + 1).drop_last() == ks.take(i as int));
                assert(ks.take(i + 1).last() == k);
            }
            match k {
                Key::Function(led) => {
                    if led < 8 {
                        self.toggle_led(led);
                    }
                },
                _ => {},
            }
            i = i + 1;
        }
        proof {
            assert(key_list(*keys).take(n as int) == key_list(*keys));
        }
    }

    /// Follows the host's lock-key status byte: LED 1 shows caps lock
    /// (bit 1); the other LEDs are left alone.
    pub fn set_host_leds(&mut self, status: u8)
        requires
            old(self).wf(),
        ensures
            final(self).wf(),
            final(self).led_bits() == (if status & 2u8 != 0 {
                old(self).led_bits() | 2u8
            } else {
                old(self).led_bits() & 0xfdu8
            }),
            final(self).buttons() == old(self).buttons(),
            final(self).cells() == old(self).cells(),
    {
        if status & 2u8 != 0 {
            self.leds = self.leds | 2u8;
        } else {
            self.leds = self.leds & 0xfdu8;
        }
    }

    /// Whether each LED is on.
    pub fn led_state(&self) -> (r: Vec<bool>)
        ensures
            r@.len() == LEDS,
            forall|i: int| 0 <= i < LEDS ==> #[trigger] r@[i] == led_on(self.led_bits(), i),
    {
        let mut leds: Vec<bool> = Vec::new();
        let mut i: usize = 0;
        while i < LEDS
            invariant
                0 <= i <= LEDS,
                leds@.len() == i,
                forall|j: int| 0 <= j < i ==> #[trigger] leds@[j] == led_on(self.led_bits(), j),
            decreases LEDS - i,
        {
            let shift: u8 = i as u8;
            let l: u8 = self.leds & (1u8 << shift);
            let bits = self.leds;
            assert((l > 0) == ((bits >> shift) & 1u8 == 1u8)) by (bit_vector)
                requires
                    l == bits & (1u8 << shift),
                    shift < 8,
            ;
            leds.push(l > 0);
            i = i + 1;
        }
        leds
    }
}

} // verus!
