use waddle::cycle::{cycle, Reporter};
use waddle::keycode;
use waddle::keymap::Key;
use waddle::report::{create_reports, Report};
use waddle::scan::Scan;
use waddle::state::State;
use waddle::{BUTTONS, COLS};

fn list(keys: &[Key]) -> heapless::Vec<Key, BUTTONS> {
    let mut v: heapless::Vec<Key, BUTTONS> = heapless::Vec::new();
    for k in keys {
        v.push(*k).unwrap();
    }
    v
}

fn zero_report() -> Report {
    Report { modifier: 0, reserved: 0, leds: 0, keycodes: [0; 6] }
}

#[test]
fn nine_keys_make_two_reports() {
    let codes: Vec<u8> = (0..9).map(|i| keycode::A + i).collect();
    let mut keys: Vec<Key> = codes.iter().map(|c| Key::KeyCode(*c)).collect();
    keys.insert(4, Key::KeyCode(keycode::L_SHFT));
    let reports = create_reports(&list(&keys));
    assert_eq!(reports.len(), 2);
    assert_eq!(reports[0].keycodes, [codes[0], codes[1], codes[2], codes[3], codes[4], codes[5]]);
    assert_eq!(reports[1].keycodes, [codes[6], codes[7], codes[8], 0, 0, 0]);
    assert_eq!(reports[0].modifier, 0b0000_0010);
    assert_eq!(reports[1].modifier, 0b0000_0010);
    let joined: Vec<u8> = reports.iter().flat_map(|r| r.keycodes).filter(|c| *c != 0).collect();
    assert_eq!(joined, codes);
}

#[test]
fn no_keys_make_one_empty_report() {
    assert_eq!(create_reports(&list(&[])), vec![zero_report()]);
    assert_eq!(create_reports(&list(&[Key::Function(0), Key::LayerMo(1), Key::Dead])), vec![zero_report()]);
}

#[test]
fn modifiers_only_make_one_report() {
    let reports = create_reports(&list(&[
        Key::KeyCode(keycode::L_CTRL),
        Key::KeyCode(keycode::R_ALT),
        Key::KeyCode(keycode::L_CTRL),
    ]));
    assert_eq!(reports, vec![Report { modifier: 0b0100_0001, reserved: 0, leds: 0, keycodes: [0; 6] }]);
}

#[test]
fn six_keys_fit_one_report() {
    let keys: Vec<Key> = (0..6).map(|i| Key::KeyCode(keycode::K1 + i)).collect();
    let reports = create_reports(&list(&keys));
    assert_eq!(reports.len(), 1);
    assert_eq!(reports[0].keycodes, [0x1E, 0x1F, 0x20, 0x21, 0x22, 0x23]);
}

#[test]
fn all_keys_make_eight_reports() {
    let keys: Vec<Key> = (0..BUTTONS as u8).map(|i| Key::KeyCode(4 + i)).collect();
    let reports = create_reports(&list(&keys));
    assert_eq!(reports.len(), 8);
    assert_eq!(reports[7].keycodes, [46, 47, 48, 49, 50, 51]);
}

#[test]
fn empty_code_is_not_sent() {
    let reports = create_reports(&list(&[Key::KeyCode(0), Key::KeyCode(keycode::B)]));
    assert_eq!(reports[0].keycodes, [keycode::B, 0, 0, 0, 0, 0]);
}

fn scan_of(pressed: &[usize]) -> Scan {
    let mut s = Scan::new();
    for &i in pressed {
        s.set_pressed(i / COLS, i % COLS);
    }
    s
}

#[test]
fn release_sends_one_empty_report_then_nothing() {
    let mut st = State::new();
    let mut rep = Reporter::new();
    assert_eq!(cycle(&mut st, &scan_of(&[]), &mut rep), vec![zero_report()]);
    assert_eq!(cycle(&mut st, &scan_of(&[13]), &mut rep), vec![]);
    let sent = cycle(&mut st, &scan_of(&[13]), &mut rep);
    assert_eq!(sent.len(), 1);
    assert_eq!(sent[0].keycodes, [keycode::A, 0, 0, 0, 0, 0]);
    assert_eq!(cycle(&mut st, &scan_of(&[13]), &mut rep), vec![]);
    assert_eq!(cycle(&mut st, &scan_of(&[]), &mut rep), vec![zero_report()]);
    for _ in 0..5 {
        assert_eq!(cycle(&mut st, &scan_of(&[]), &mut rep), vec![]);
    }
}

#[test]
fn function_key_toggles_once_per_press() {
    let mut st = State::new();
    let mut rep = Reporter::new();
    let chord = [40, 43, 0];
    for _ in 0..5 {
        cycle(&mut st, &scan_of(&chord), &mut rep);
    }
    assert_eq!(st.led_state(), vec![true, false, false]);
    cycle(&mut st, &scan_of(&[]), &mut rep);
    for _ in 0..3 {
        cycle(&mut st, &scan_of(&chord), &mut rep);
    }
    assert_eq!(st.led_state(), vec![false, false, false]);
}
