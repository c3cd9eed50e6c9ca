use waddle::position::Position;
use waddle::scan::Scan;
use waddle::{BUTTONS, COLS, ROWS};

#[test]
fn position_from_index() {
    let p = Position::from(0);
    assert_eq!((p.row(), p.col()), (0, 0));
    let p = Position::from(13);
    assert_eq!((p.row(), p.col()), (1, 1));
    let p = Position::from(BUTTONS - 1);
    assert_eq!((p.row(), p.col()), (3, 11));
}

#[test]
fn position_index_round_trip() {
    for i in 0..BUTTONS {
        assert_eq!(Position::from(i).index(), i);
    }
    for r in 0..ROWS as u8 {
        for c in 0..COLS as u8 {
            let p = Position::at(r, c);
            assert_eq!(Position::from(p.index()), p);
        }
    }
}

#[test]
fn scan_starts_empty() {
    let s = Scan::new();
    for i in 0..BUTTONS {
        assert!(!s.is_pressed(i));
    }
}

#[test]
fn scan_marks_only_the_set_key() {
    let mut s = Scan::new();
    s.set_pressed(3, 11);
    s.set_pressed(1, 2);
    for i in 0..BUTTONS {
        assert_eq!(s.is_pressed(i), i == 47 || i == 14, "index {}", i);
    }
}

#[test]
fn scan_last_row_is_read_by_column_count() {
    let mut s = Scan::new();
    s.set_pressed(2, 0);
    assert!(s.is_pressed(24));
    assert!(!s.is_pressed(8));
}
