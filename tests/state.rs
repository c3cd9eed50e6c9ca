use waddle::button::{Button, ButtonState, Time};
use waddle::keycode;
use waddle::keymap::{Key, KeyType, Layout, CELLS};
use waddle::position::Position;
use waddle::scan::Scan;
use waddle::state::State;
use waddle::{BUTTONS, COLS, LEDS};

fn scan_of(pressed: &[usize]) -> Scan {
    let mut s = Scan::new();
    for &i in pressed {
        s.set_pressed(i / COLS, i % COLS);
    }
    s
}

fn keys_of(state: &State) -> Vec<Key> {
    state.keys().iter().copied().collect()
}

const LAYER1_KEY: usize = 40;
const LAYER2_KEY: usize = 43;
const Z_KEY: usize = 25;

#[test]
fn tick_reports_coarse_states() {
    let mut st = State::new();
    let states = st.tick(&scan_of(&[5]));
    assert_eq!(states.len(), BUTTONS);
    assert_eq!(states[5], ButtonState::JustPressed);
    assert_eq!(states[6], ButtonState::JustReleased);
    let states = st.tick(&scan_of(&[5]));
    assert_eq!(states[5], ButtonState::Held);
    assert_eq!(states[6], ButtonState::Released);
}

#[test]
fn layers_add_up() {
    let mut st = State::new();
    assert_eq!(st.layer(), 0);
    st.tick(&scan_of(&[LAYER1_KEY, LAYER2_KEY]));
    st.tick(&scan_of(&[LAYER1_KEY, LAYER2_KEY]));
    assert_eq!(st.layer(), 3);
    st.tick(&scan_of(&[LAYER2_KEY]));
    assert_eq!(st.layer(), 2);
    st.tick(&scan_of(&[LAYER1_KEY, LAYER2_KEY]));
    st.tick(&scan_of(&[LAYER1_KEY, LAYER2_KEY]));
    st.tick(&scan_of(&[LAYER1_KEY]));
    assert_eq!(st.layer(), 1);
    st.tick(&scan_of(&[]));
    assert_eq!(st.layer(), 0);
}

#[test]
fn layer_selects_keys() {
    let mut st = State::new();
    for _ in 0..2 {
        st.tick(&scan_of(&[LAYER1_KEY, 0]));
    }
    assert_eq!(keys_of(&st), vec![Key::KeyCode(keycode::K1), Key::LayerMo(1)]);
    for _ in 0..2 {
        st.tick(&scan_of(&[LAYER2_KEY, 0]));
    }
    assert_eq!(keys_of(&st), vec![Key::KeyCode(keycode::F1), Key::LayerMo(2)]);
}

#[test]
fn tap_emits_tap_key_once_on_release() {
    let mut st = State::new();
    for _ in 0..10 {
        st.tick(&scan_of(&[Z_KEY]));
        assert_eq!(keys_of(&st), vec![]);
    }
    st.tick(&scan_of(&[]));
    assert_eq!(keys_of(&st), vec![Key::KeyCode(keycode::Z)]);
    for _ in 0..5 {
        st.tick(&scan_of(&[]));
        assert_eq!(keys_of(&st), vec![]);
    }
}

#[test]
fn hold_emits_hold_key_from_tick_21() {
    let mut st = State::new();
    for tick in 1..=40 {
        st.tick(&scan_of(&[Z_KEY]));
        if tick < 21 {
            assert_eq!(keys_of(&st), vec![], "tick {}", tick);
        } else {
            assert_eq!(keys_of(&st), vec![Key::KeyCode(keycode::L_SHFT)], "tick {}", tick);
        }
    }
    for _ in 0..3 {
        st.tick(&scan_of(&[]));
        assert_eq!(keys_of(&st), vec![]);
    }
}

#[test]
fn pass_through_resolves_lower_layer() {
    let x = keycode::X;
    let p = Position::at(1, 5);
    let i = p.index();
    let mut cells = vec![KeyType::Instant(Key::Dead); CELLS];
    cells[48 + i] = KeyType::Instant(Key::KeyCode(x));
    cells[96 + i] = KeyType::Instant(Key::PassThrough(1));
    cells[3] = KeyType::Instant(Key::LayerMo(2));
    let layout = Layout::from_cells(cells).unwrap();
    let held = Button { time: Time { pressed: 5, released: 0 }, last_press: 0 };
    assert_eq!(State::get_key(&layout, &p, 2, &held), Some(Key::KeyCode(x)));
    assert_eq!(State::get_key(&layout, &p, 1, &held), Some(Key::KeyCode(x)));
    assert_eq!(State::get_key(&layout, &p, 0, &held), None);

    let mut st = State::with_layout(layout);
    for _ in 0..2 {
        st.tick(&scan_of(&[3, i]));
    }
    assert_eq!(st.layer(), 2);
    assert_eq!(keys_of(&st), vec![Key::KeyCode(x)]);
}

#[test]
fn pass_through_below_base_is_dead() {
    let p = Position::at(0, 0);
    let mut cells = vec![KeyType::Instant(Key::Dead); CELLS];
    cells[0] = KeyType::Instant(Key::PassThrough(1));
    cells[48] = KeyType::Instant(Key::PassThrough(3));
    cells[96] = KeyType::Instant(Key::PassThrough(0));
    let layout = Layout::from_cells(cells.clone());
    assert!(layout.is_none());
    let st = State::new();
    let layout = st.layout();
    let held = Button { time: Time { pressed: 5, released: 0 }, last_press: 0 };
    assert_eq!(State::get_key(layout, &p, 0, &held), Some(Key::KeyCode(keycode::TAB)));
    assert_eq!(State::get_key(layout, &p, 9, &held), None);
}

#[test]
fn instant_key_waits_for_debounce() {
    let mut st = State::new();
    st.tick(&scan_of(&[13]));
    assert_eq!(keys_of(&st), vec![]);
    st.tick(&scan_of(&[13]));
    assert_eq!(keys_of(&st), vec![Key::KeyCode(keycode::A)]);
}

#[test]
fn function_keys_toggle_leds() {
    let mut st = State::new();
    assert_eq!(st.led_state(), vec![false; LEDS]);
    let mut keys: heapless::Vec<Key, BUTTONS> = heapless::Vec::new();
    keys.push(Key::Function(0)).unwrap();
    keys.push(Key::KeyCode(keycode::A)).unwrap();
    keys.push(Key::Function(2)).unwrap();
    keys.push(Key::Function(9)).unwrap();
    st.apply_functions(&keys);
    assert_eq!(st.led_state(), vec![true, false, true]);
    st.apply_functions(&keys);
    assert_eq!(st.led_state(), vec![false, false, false]);
}

#[test]
fn toggle_led_flips_one_bit() {
    let mut st = State::new();
    st.toggle_led(1);
    assert_eq!(st.led_state(), vec![false, true, false]);
    st.toggle_led(1);
    assert_eq!(st.led_state(), vec![false, false, false]);
}

#[test]
fn host_caps_lock_drives_led_one() {
    let mut st = State::new();
    st.toggle_led(0);
    st.set_host_leds(0b0000_0010);
    assert_eq!(st.led_state(), vec![true, true, false]);
    st.set_host_leds(0b0000_0101);
    assert_eq!(st.led_state(), vec![true, false, false]);
}

#[test]
fn led_layer_reached_by_both_layer_keys() {
    let mut st = State::new();
    for _ in 0..2 {
        st.tick(&scan_of(&[LAYER1_KEY, LAYER2_KEY, 1]));
    }
    assert_eq!(keys_of(&st), vec![Key::Function(1), Key::LayerMo(1), Key::LayerMo(2)]);
}
