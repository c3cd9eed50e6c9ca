use waddle::button::{transition, Button, ButtonState, Time, Transition};

#[test]
fn new_button_is_released() {
    let mut b = Button::new();
    assert_eq!(b.state(), ButtonState::Released);
    assert!(!b.is_pressed());
    assert_eq!(b.time, Time { pressed: 0, released: 0 });
    b.released();
    assert_eq!(b.time.released, 1);
}

#[test]
fn press_goes_just_pressed_then_held() {
    let mut b = Button::new();
    assert_eq!(b.tick(true), ButtonState::JustPressed);
    assert!(!b.is_pressed());
    assert_eq!(b.tick(true), ButtonState::Held);
    assert!(b.is_pressed());
    assert_eq!(b.time, Time { pressed: 2, released: 0 });
}

#[test]
fn release_goes_just_released_then_released() {
    let mut b = Button::new();
    for _ in 0..5 {
        b.tick(true);
    }
    assert_eq!(b.tick(false), ButtonState::JustReleased);
    assert_eq!(b.time, Time { pressed: 0, released: 1 });
    assert_eq!(b.last_press, 5);
    assert_eq!(b.tick(false), ButtonState::Released);
}

#[test]
fn constant_signal_settles_and_stays() {
    for start in [true, false] {
        let mut b = Button::new();
        for _ in 0..3 {
            b.tick(start);
        }
        for active in [true, false] {
            b.tick(active);
            b.tick(active);
            let want = if active { ButtonState::Held } else { ButtonState::Released };
            for _ in 0..300 {
                assert_eq!(b.tick(active), want);
            }
        }
    }
}

#[test]
fn single_tick_glitch_never_settles() {
    let mut b = Button::new();
    b.tick(false);
    b.tick(false);
    assert_eq!(b.tick(true), ButtonState::JustPressed);
    assert_eq!(b.tick(false), ButtonState::JustReleased);
    assert!(!b.is_pressed());
    assert_eq!(b.tick(false), ButtonState::Released);
}

#[test]
fn counters_saturate() {
    let mut b = Button::new();
    for _ in 0..400 {
        b.pressed();
    }
    assert_eq!(b.time.pressed, 255);
    let mut t = Time::new();
    for _ in 0..300 {
        t.released();
    }
    assert_eq!(t.released, 255);
    t.pressed();
    assert_eq!(t.pressed, 1);
}

#[test]
fn transitions_between_states() {
    assert_eq!(transition(ButtonState::Released, ButtonState::JustPressed), Some(Transition::ReleasedToPressed));
    assert_eq!(transition(ButtonState::JustPressed, ButtonState::Held), Some(Transition::PressedToHeld));
    assert_eq!(transition(ButtonState::JustPressed, ButtonState::JustReleased), Some(Transition::PressedToReleased));
    assert_eq!(transition(ButtonState::Held, ButtonState::JustReleased), Some(Transition::HeldToReleased));
    assert_eq!(transition(ButtonState::Held, ButtonState::Held), None);
}
