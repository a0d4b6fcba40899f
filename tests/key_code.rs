use livesplit_hotkey::KeyCode;

#[test]
fn numpad_codes_map_to_numpad_keys() {
    assert_eq!(KeyCode::from_native_code(0x60), Some(KeyCode::Numpad0));
    assert_eq!(KeyCode::from_native_code(0x61), Some(KeyCode::Numpad1));
    assert_eq!(KeyCode::Numpad0.to_native_code(), 0x60);
    assert_eq!(KeyCode::Numpad1.to_native_code(), 0x61);
}

#[test]
fn letters_digits_and_function_keys() {
    assert_eq!(KeyCode::from_native_code(0x41), Some(KeyCode::KeyA));
    assert_eq!(KeyCode::from_native_code(0x5A), Some(KeyCode::KeyZ));
    assert_eq!(KeyCode::from_native_code(0x30), Some(KeyCode::Key0));
    assert_eq!(KeyCode::from_native_code(0x70), Some(KeyCode::F1));
    assert_eq!(KeyCode::from_native_code(0x87), Some(KeyCode::F24));
    assert_eq!(KeyCode::Escape.to_native_code(), 0x1B);
    assert_eq!(KeyCode::Space.to_native_code(), 0x20);
}

#[test]
fn range_ends_are_keys() {
    assert_eq!(KeyCode::from_native_code(0x01), Some(KeyCode::LButton));
    assert_eq!(KeyCode::from_native_code(0xFE), Some(KeyCode::OemClear));
}

#[test]
fn codes_outside_the_range_are_no_keys() {
    assert_eq!(KeyCode::from_native_code(0), None);
    assert_eq!(KeyCode::from_native_code(0xFF), None);
    assert_eq!(KeyCode::from_native_code(0x100), None);
    assert_eq!(KeyCode::from_native_code(0x160), None);
    assert_eq!(KeyCode::from_native_code(u32::MAX), None);
}

#[test]
fn every_native_code_round_trips() {
    let mut seen = std::collections::HashSet::new();
    for code in 1u32..=0xFE {
        let key = KeyCode::from_native_code(code).expect("every code in range names a key");
        assert_eq!(key.to_native_code() as u32, code);
        assert!(seen.insert(key));
    }
    assert_eq!(seen.len(), 254);
}
