use hid_keyboard::keyboard::{Keyboard, KeyboardError, KeyboardReport};
use hid_keyboard::scancode::{classify, lookup_ascii, KeyCode};

fn report(kb: &Keyboard) -> [u8; 7] {
    kb.get_report().bytes()
}

#[test]
fn idle_report_is_all_zero() {
    let kb = Keyboard::default();
    assert_eq!(report(&kb), [0, 0, 0, 0, 0, 0, 0]);
    assert_eq!(report(&Keyboard::new()), [0; 7]);
    assert_eq!(KeyboardReport::all_released().bytes(), [0; 7]);
}

#[test]
fn keys_pressed_lays_out_bytes() {
    let r = KeyboardReport::keys_pressed(0x05, [1, 2, 3, 4, 5, 6]);
    assert_eq!(r.bytes(), [0x05, 1, 2, 3, 4, 5, 6]);
}

#[test]
fn shift_encoding_of_capital_a() {
    let mut kb = Keyboard::new();
    assert_eq!(kb.press(b'A'), Ok(()));
    assert_eq!(report(&kb), [0x02, 0x04, 0, 0, 0, 0, 0]);
}

#[test]
fn lowercase_needs_no_shift() {
    let mut kb = Keyboard::new();
    assert_eq!(kb.press(b'a'), Ok(()));
    assert_eq!(report(&kb), [0x00, 0x04, 0, 0, 0, 0, 0]);
}

#[test]
fn press_release_round_trip_printable() {
    for c in 32u8..=126 {
        let mut kb = Keyboard::new();
        kb.press(b'z').unwrap();
        let before = report(&kb);
        kb.press(c).unwrap();
        kb.release(c).unwrap();
        if c == b'z' || c == b'Z' {
            // the same key as the one already held
            continue;
        }
        assert_eq!(report(&kb), before, "byte {}", c);
    }
}

#[test]
fn round_trip_from_idle() {
    for c in 32u8..=126 {
        let mut kb = Keyboard::new();
        kb.press(c).unwrap();
        assert_ne!(report(&kb), [0; 7], "byte {}", c);
        kb.release(c).unwrap();
        assert_eq!(report(&kb), [0; 7], "byte {}", c);
    }
}

#[test]
fn idempotent_press() {
    let mut kb = Keyboard::new();
    kb.press(b'h').unwrap();
    kb.press(b'h').unwrap();
    assert_eq!(report(&kb), [0, 0x0b, 0, 0, 0, 0, 0]);
    // 'H' resolves to the same scancode, with shift
    kb.press(b'H').unwrap();
    assert_eq!(report(&kb), [0x02, 0x0b, 0, 0, 0, 0, 0]);
}

#[test]
fn seventh_distinct_key_is_refused() {
    let mut kb = Keyboard::new();
    for c in b"abcdef" {
        assert_eq!(kb.press(*c), Ok(()));
    }
    let full = report(&kb);
    assert_eq!(full, [0, 4, 5, 6, 7, 8, 9]);
    assert_eq!(kb.press(b'g'), Err(KeyboardError::TooManyKeys));
    assert_eq!(report(&kb), full);
    // a shifted new key is refused without touching shift
    assert_eq!(kb.press(b'G'), Err(KeyboardError::TooManyKeys));
    assert_eq!(report(&kb), full);
    // a key already held and a modifier still go through
    assert_eq!(kb.press(b'a'), Ok(()));
    assert_eq!(kb.press(128), Ok(()));
    assert_eq!(report(&kb), [0x01, 4, 5, 6, 7, 8, 9]);
}

#[test]
fn modifier_selectors_set_and_clear_bits() {
    let mut kb = Keyboard::new();
    kb.press(128).unwrap();
    kb.press(135).unwrap();
    assert_eq!(report(&kb), [0x81, 0, 0, 0, 0, 0, 0]);
    kb.release(128).unwrap();
    assert_eq!(report(&kb), [0x80, 0, 0, 0, 0, 0, 0]);
    kb.release(135).unwrap();
    assert_eq!(report(&kb), [0; 7]);
}

#[test]
fn non_printing_keys_map_directly() {
    let mut kb = Keyboard::new();
    // 136 + 0x28 is the enter key
    kb.press(136 + 0x28).unwrap();
    kb.press(255).unwrap();
    assert_eq!(report(&kb), [0, 0x28, 255 - 136, 0, 0, 0, 0]);
}

#[test]
fn unassigned_control_code_holds_scancode_zero() {
    let mut kb = Keyboard::new();
    kb.press(1).unwrap();
    assert_eq!(report(&kb), [0; 7]);
    kb.press(b'a').unwrap();
    assert_eq!(report(&kb), [0, 0, 4, 0, 0, 0, 0]);
    kb.release(1).unwrap();
    assert_eq!(report(&kb), [0, 4, 0, 0, 0, 0, 0]);
}

#[test]
fn release_moves_last_key_into_gap() {
    let mut kb = Keyboard::new();
    kb.press(b'a').unwrap();
    kb.press(b'b').unwrap();
    kb.press(b'c').unwrap();
    kb.release(b'a').unwrap();
    assert_eq!(report(&kb), [0, 6, 5, 0, 0, 0, 0]);
}

#[test]
fn release_of_absent_key_changes_nothing() {
    let mut kb = Keyboard::new();
    kb.press(b'A').unwrap();
    kb.release(b'B').unwrap();
    assert_eq!(report(&kb), [0x02, 0x04, 0, 0, 0, 0, 0]);
}

#[test]
fn release_all_clears_everything() {
    let mut kb = Keyboard::new();
    kb.press(b'!').unwrap();
    kb.press(131).unwrap();
    kb.press(b'x').unwrap();
    assert_eq!(kb.release_all(), Ok(()));
    assert_eq!(report(&kb), [0; 7]);
}

#[test]
fn layout_table_entries() {
    assert_eq!(lookup_ascii(b'0'), (0x27, false));
    assert_eq!(lookup_ascii(b'1'), (0x1e, false));
    assert_eq!(lookup_ascii(b'9'), (0x26, false));
    assert_eq!(lookup_ascii(b'Z'), (0x1d, true));
    assert_eq!(lookup_ascii(b'~'), (0x35, true));
    assert_eq!(lookup_ascii(b'\n'), (0x28, false));
    assert_eq!(lookup_ascii(b'\r'), (0, false));
    assert_eq!(lookup_ascii(127), (0, false));
}

#[test]
fn classification_ranges() {
    assert_eq!(classify(b'H'), KeyCode::Key(0x0b, true));
    assert_eq!(classify(b'i'), KeyCode::Key(0x0c, false));
    assert_eq!(classify(130), KeyCode::Modifier(2));
    assert_eq!(classify(136), KeyCode::Key(0, false));
    assert_eq!(classify(200), KeyCode::Key(64, false));
}
