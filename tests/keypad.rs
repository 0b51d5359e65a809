use jukebox::fourbyfour::{accumulate_row, default_map, strobe_pattern, FourByFourState};

fn bit_of_symbol(symbol: u8) -> u16 {
    let map = default_map();
    let i = map.iter().position(|&m| m == symbol).unwrap();
    1u16 << i
}

#[test]
fn empty_state_has_nothing_pressed() {
    let s = FourByFourState::empty();
    assert_eq!(s.state, 0);
    for t in 0..=255u8 {
        assert!(!s.is_pressed(t));
    }
    assert!(s.into_vec().is_empty());
}

#[test]
fn default_map_is_telephone_layout() {
    assert_eq!(default_map(), *b"123A456B789C*0#D");
}

#[test]
fn strobe_drives_one_line() {
    assert_eq!(strobe_pattern(0), [true, false, false, false]);
    assert_eq!(strobe_pattern(2), [false, false, true, false]);
}

#[test]
fn accumulate_row_sets_row_bits() {
    let r = accumulate_row(0, 2, [true, false, false, true]);
    assert_eq!(r, (1 << 8) | (1 << 11));
    let r = accumulate_row(r, 0, [false, true, false, false]);
    assert_eq!(r, (1 << 8) | (1 << 11) | (1 << 1));
    assert_eq!(accumulate_row(0b1, 3, [false; 4]), 0b1);
}

#[test]
fn scan_of_all_rows_builds_mask() {
    let rows = [[true, false, false, false], [false; 4], [false; 4], [false, true, true, false]];
    let mut mask = 0u16;
    for (out, values) in rows.iter().enumerate() {
        mask = accumulate_row(mask, out, *values);
    }
    let s = FourByFourState::from_raw(mask, default_map());
    assert_eq!(s.into_vec(), b"10#".to_vec());
}

#[test]
fn is_pressed_raw_reads_bits() {
    let s = FourByFourState::from_raw(0b1000_0000_0000_0101, default_map());
    assert!(s.is_pressed_raw(0));
    assert!(!s.is_pressed_raw(1));
    assert!(s.is_pressed_raw(2));
    assert!(s.is_pressed_raw(15));
}

#[test]
fn is_pressed_by_symbol() {
    let s = FourByFourState::from_raw(bit_of_symbol(b'5') | bit_of_symbol(b'*'), default_map());
    assert!(s.is_pressed(b'5'));
    assert!(s.is_pressed(b'*'));
    assert!(!s.is_pressed(b'6'));
    assert!(!s.is_pressed(b'#'));
}

#[test]
fn shared_symbol_is_or_of_bits() {
    let mut map = default_map();
    map[3] = b'x';
    map[12] = b'x';
    assert!(FourByFourState::from_raw(1 << 3, map).is_pressed(b'x'));
    assert!(FourByFourState::from_raw(1 << 12, map).is_pressed(b'x'));
    assert!(FourByFourState::from_raw((1 << 3) | (1 << 12), map).is_pressed(b'x'));
    assert!(!FourByFourState::from_raw(1 << 4, map).is_pressed(b'x'));
}

#[test]
fn into_vec_ascending_bit_order() {
    let s = FourByFourState::from_raw(
        bit_of_symbol(b'D') | bit_of_symbol(b'1') | bit_of_symbol(b'9'),
        default_map(),
    );
    assert_eq!(s.into_vec(), vec![b'1', b'9', b'D']);
}

#[test]
fn released_only_on_press_then_release() {
    let map = default_map();
    let up = FourByFourState::from_raw(0, map);
    let down = FourByFourState::from_raw(bit_of_symbol(b'7'), map);
    assert!(down.aint(up).released(b'7'));
    assert!(!up.aint(down).released(b'7'));
    assert!(!down.aint(down).released(b'7'));
    assert!(!up.aint(up).released(b'7'));
    assert!(!down.aint(up).released(b'8'));
}

#[test]
fn aint_keeps_both_snapshots() {
    let map = default_map();
    let a = FourByFourState::from_raw(3, map);
    let b = FourByFourState::from_raw(5, map);
    let d = a.aint(b);
    assert_eq!(d.before.state, 3);
    assert_eq!(d.after.state, 5);
}
