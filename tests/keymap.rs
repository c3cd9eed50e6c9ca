use waddle::keycode::{self, is_mod, mod_bit, Layer, Mod};
use waddle::keymap::{ms_to_ticks, Key, KeyType, Layout, CELLS};
use waddle::position::Position;

#[test]
fn hold_limit_is_floored_to_ticks() {
    assert_eq!(ms_to_ticks(100), 20);
    assert_eq!(ms_to_ticks(104), 20);
    assert_eq!(ms_to_ticks(4), 0);
    assert_eq!(ms_to_ticks(60000), 255);
}

#[test]
fn default_layout_cells() {
    let l = Layout::new();
    assert_eq!(l.get_key(0, &Position::at(0, 0)), KeyType::Instant(Key::KeyCode(keycode::TAB)));
    assert_eq!(
        l.get_key(0, &Position::at(2, 1)),
        KeyType::OnHold(Key::KeyCode(keycode::Z), 20, Key::KeyCode(keycode::L_SHFT))
    );
    assert_eq!(l.get_key(0, &Position::at(3, 4)), KeyType::Instant(Key::LayerMo(1)));
    assert_eq!(l.get_key(0, &Position::at(3, 7)), KeyType::Instant(Key::LayerMo(2)));
    assert_eq!(l.get_key(1, &Position::at(1, 0)), KeyType::Instant(Key::PassThrough(1)));
    assert_eq!(l.get_key(3, &Position::at(0, 1)), KeyType::Instant(Key::Function(1)));
}

#[test]
fn out_of_range_lookup_is_dead() {
    let l = Layout::new();
    assert_eq!(l.get_key(4, &Position::at(0, 0)), KeyType::Instant(Key::Dead));
    assert_eq!(l.get_key(200, &Position::at(1, 1)), KeyType::Instant(Key::Dead));
}

fn cells_with(extra: &[(usize, KeyType)]) -> Vec<KeyType> {
    let mut cells = vec![KeyType::Instant(Key::Dead); CELLS];
    for (i, k) in extra {
        cells[*i] = *k;
    }
    cells
}

#[test]
fn from_cells_checks_pass_through() {
    assert!(Layout::from_cells(cells_with(&[])).is_some());
    assert!(Layout::from_cells(cells_with(&[(48 + 3, KeyType::Instant(Key::PassThrough(1)))])).is_some());
    assert!(Layout::from_cells(cells_with(&[(3, KeyType::Instant(Key::PassThrough(1)))])).is_none());
    assert!(Layout::from_cells(cells_with(&[(96, KeyType::Instant(Key::PassThrough(0)))])).is_none());
    assert!(Layout::from_cells(cells_with(&[(
        50,
        KeyType::OnHold(Key::KeyCode(4), 5, Key::PassThrough(2))
    )]))
    .is_none());
    assert!(Layout::from_cells(vec![KeyType::Instant(Key::Dead); CELLS - 1]).is_none());
}

#[test]
fn modifier_codes_and_bits() {
    assert!(is_mod(keycode::L_CTRL));
    assert!(is_mod(keycode::R_SUPR));
    assert!(!is_mod(keycode::Z));
    assert!(!is_mod(0xE8));
    assert_eq!(mod_bit(keycode::L_CTRL), 0b0000_0001);
    assert_eq!(mod_bit(keycode::L_SHFT), 0b0000_0010);
    assert_eq!(mod_bit(keycode::R_SUPR), 0b1000_0000);
    assert_eq!(Mod::RShft.code(), keycode::R_SHFT);
    assert_eq!(Mod::LAlt.bit(), 0b0000_0100);
    assert_eq!(Layer::Layer3.level(), 3);
}

#[test]
fn layout_fn_is_the_default_keymap() {
    let a = waddle::keymap::layout();
    let b = Layout::new();
    for layer in 0..4u8 {
        for i in 0..waddle::BUTTONS {
            let p = Position::from(i);
            assert_eq!(a.get_key(layer, &p), b.get_key(layer, &p));
        }
    }
}
