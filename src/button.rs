//! Per-key timing: saturating press and release counters with a two-tick
//! debounce.
use vstd::prelude::*;

verus! {

/// Consecutive equal samples after which a key is settled.
pub const DEBOUNCE: u8 = 2;

/// The coarse state of one key, as seen from outside.
#[derive(Copy, Clone, Debug, PartialEq, Eq, Structural)]
pub enum ButtonState {
    Released,
    JustPressed,
    Held,
    JustReleased,
}

/// A change between two coarse states.
#[derive(Copy, Clone, Debug, PartialEq, Eq, Structural)]
pub enum Transition {
    ReleasedToPressed,
    PressedToReleased,
    PressedToHeld,
    HeldToReleased,
}

/// The change from `from` to `to`, if it is one of the four transitions.
pub open spec fn transition_spec(from: ButtonState, to: ButtonState) -> Option<Transition> {
    match (from, to) {
        (ButtonState::Released, ButtonState::JustPressed) => Some(Transition::ReleasedToPressed),
        (ButtonState::JustReleased, ButtonState::JustPressed) => Some(Transition::ReleasedToPressed),
        (ButtonState::JustPressed, ButtonState::JustReleased) => Some(Transition::PressedToReleased),
        (ButtonState::JustPressed, ButtonState::Held) => Some(Transition::PressedToHeld),
        (ButtonState::Held, ButtonState::JustReleased) => Some(Transition::HeldToReleased),
        _ => None,
    }
}

/// The transition that leads from `from` to `to`, if any.
pub fn transition(from: ButtonState, to: ButtonState) -> (r: Option<Transition>)
    ensures
        r == transition_spec(from, to),
{
    match (from, to) {
        (ButtonState::Released, ButtonState::JustPressed) => Some(Transition::ReleasedToPressed),
        (ButtonState::JustReleased, ButtonState::JustPressed) => Some(Transition::ReleasedToPressed),
        (ButtonState::JustPressed, ButtonState::JustReleased) => Some(Transition::PressedToReleased),
        (ButtonState::JustPressed, ButtonState::Held) => Some(Transition::PressedToHeld),
        (ButtonState::Held, ButtonState::JustReleased) => Some(Transition::HeldToReleased),
        _ => None,
    }
}

/// `x + 1`, stopping at the largest `u8`.
pub open spec fn sat_inc(x: u8) -> u8 {
    if x == 255 {
        255
    } else {
        (x + 1) as u8
    }
}

/// How many ticks a key has been pressed and released.
#[derive(Copy, Clone, Debug, PartialEq, Eq, Structural)]
pub struct Time {
    pub pressed: u8,
    pub released: u8,
}

impl Time {
    pub fn new() -> (r: Time)
        ensures
            r.pressed == 0,
            r.released == 0,
    {
        Time { pressed: 0, released: 0 }
    }

    /// Counts one more pressed tick.
    pub fn pressed(&mut self)
        ensures
            final(self).pressed == sat_inc(old(self).pressed),
            final(self).released == old(self).released,
    {
        self.pressed = self.pressed.saturating_add(1);
    }

    /// Counts one more released tick.
    pub fn released(&mut self)
        ensures
            final(self).released == sat_inc(old(self).released),
            final(self).pressed == old(self).pressed,
    {
        self.released = self.released.saturating_add(1);
    }
}

/// The timing state of one physical key.
#[derive(Copy, Clone, Debug, PartialEq, Eq, Structural)]
pub struct Button {
    pub time: Time,
    /// Length in ticks of the most recent press that has ended.
    pub last_press: u8,
}

/// The button after one tick with the given electrical sample.
pub open spec fn step(b: Button, active: bool) -> Button {
    if active {
        Button { time: Time { pressed: sat_inc(b.time.pressed), released: 0 }, last_press: b.last_press }
    } else if b.time.pressed > 0 {
        Button { time: Time { pressed: 0, released: 1 }, last_press: b.time.pressed }
    } else {
        Button { time: Time { pressed: 0, released: sat_inc(b.time.released) }, last_press: b.last_press }
    }
}

/// The button after `n` ticks with the same sample.
pub open spec fn steps(b: Button, active: bool, n: nat) -> Button
    decreases n,
{
    if n == 0 {
        b
    } else {
        step(steps(b, active, (n - 1) as nat), active)
    }
}

/// The key has been pressed for at least the debounce threshold.
pub open spec fn settled_pressed(b: Button) -> bool {
    b.time.pressed >= DEBOUNCE
}

/// The coarse state of a button.
pub open spec fn state_of(b: Button) -> ButtonState {
    if b.time.pressed >= DEBOUNCE {
        ButtonState::Held
    } else if b.time.pressed >= 1 {
        ButtonState::JustPressed
    } else if 1 <= b.time.released < DEBOUNCE {
        ButtonState::JustReleased
    } else {
        ButtonState::Released
    }
}

impl Button {
    /// A key that has seen no tick yet.
    pub open spec fn new_spec() -> Button {
        Button { time: Time { pressed: 0, released: 0 }, last_press: 0 }
    }

    pub fn new() -> (r: Button)
        ensures
            r == Button::new_spec(),
            state_of(r) == ButtonState::Released,
    {
        Button { time: Time::new(), last_press: 0 }
    }

    /// Records one tick on which the key was electrically inactive.
    pub fn released(&mut self)
        ensures
            *final(self) == step(*old(self), false),
    {
        if self.time.pressed > 0 {
            self.last_press = self.time.pressed;
            self.time.released = 0;
        }
        self.time.pressed = 0;
        self.time.released();
    }

    /// Records one tick on which the key was electrically active.
    pub fn pressed(&mut self)
        ensures
            *final(self) == step(*old(self), true),
    {
        self.time.released = 0;
        self.time.pressed();
    }

    /// Records one tick with the given sample and returns the new coarse state.
    pub fn tick(&mut self, active: bool) -> (r: ButtonState)
        ensures
            *final(self) == step(*old(self), active),
            r == state_of(*final(self)),
    {
        if active {
            self.pressed();
        } else {
            self.released();
        }
        self.state()
    }

    /// The coarse state of the button.
    pub fn state(&self) -> (r: ButtonState)
        ensures
            r == state_of(*self),
    {
        if self.time.pressed >= DEBOUNCE {
            ButtonState::Held
        } else if self.time.pressed >= 1 {
            ButtonState::JustPressed
        } else if 1 <= self.time.released && self.time.released < DEBOUNCE {
            ButtonState::JustReleased
        } else {
            ButtonState::Released
        }
    }

    /// Whether the key is settled pressed.
    pub fn is_pressed(&self) -> (r: bool)
        ensures
            r == settled_pressed(*self),
    {
        self.time.pressed >= DEBOUNCE
    }
}

/// A sample held constant for two ticks or more leaves the key `Held`
/// (active) or `Released` (inactive), and it stays so for as long as the
/// sample does not change.
pub proof fn lemma_debounce_settles(b: Button, active: bool, n: nat)
    requires
        n >= 2,
    ensures
        state_of(steps(b, active, n)) == (if active {
            ButtonState::Held
        } else {
            ButtonState::Released
        }),
{
    lemma_steps_settled(b, active, n);
}

proof fn lemma_steps_settled(b: Button, active: bool, n: nat)
    requires
        n >= 2,
    ensures
        active ==> steps(b, active, n).time.pressed >= 2,
        !active ==> steps(b, active, n).time.pressed == 0 && steps(b, active, n).time.released
            >= 2,
    decreases n,
{
    if n > 2 {
        lemma_steps_settled(b, active, (n - 1) as nat);
    } else {
        assert(steps(b, active, 0) == b);
        assert(steps(b, active, 1) == step(b, active));
    }
}

} // verus!
