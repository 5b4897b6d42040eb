use windowing::buttons::Button;
use windowing::keys_mac::virtual_keycode_to_key;

#[test]
fn digits_and_letters_map() {
    assert_eq!(virtual_keycode_to_key(0x1D), Button::Digit0);
    assert_eq!(virtual_keycode_to_key(0x12), Button::Digit1);
    assert_eq!(virtual_keycode_to_key(0x19), Button::Digit9);
    assert_eq!(virtual_keycode_to_key(0x00), Button::A);
    assert_eq!(virtual_keycode_to_key(0x06), Button::Z);
    assert_eq!(virtual_keycode_to_key(0x0F), Button::R);
}

#[test]
fn special_keys_map() {
    assert_eq!(virtual_keycode_to_key(0x24), Button::Return);
    assert_eq!(virtual_keycode_to_key(0x35), Button::Escape);
    assert_eq!(virtual_keycode_to_key(0x31), Button::Space);
    assert_eq!(virtual_keycode_to_key(0x7A), Button::F1);
    assert_eq!(virtual_keycode_to_key(0x5A), Button::F20);
    assert_eq!(virtual_keycode_to_key(0x4C), Button::NumPadEnter);
    assert_eq!(virtual_keycode_to_key(0x7E), Button::Up);
}

#[test]
fn both_command_keys_are_meta() {
    assert_eq!(virtual_keycode_to_key(0x37), Button::Meta);
    assert_eq!(virtual_keycode_to_key(0x36), Button::Meta);
}

#[test]
fn codes_without_a_key_are_unknown() {
    assert_eq!(virtual_keycode_to_key(0x32), Button::Unknown);
    assert_eq!(virtual_keycode_to_key(0x0A), Button::Unknown);
    assert_eq!(virtual_keycode_to_key(0x3A), Button::Unknown);
    assert_eq!(virtual_keycode_to_key(0x3D), Button::Unknown);
    assert_eq!(virtual_keycode_to_key(0x7F), Button::Unknown);
    assert_eq!(virtual_keycode_to_key(0x80), Button::Unknown);
    assert_eq!(virtual_keycode_to_key(u16::MAX), Button::Unknown);
}

#[test]
fn keycodes_are_distinct_except_meta_and_unknown() {
    let mut seen: Vec<(Button, u16)> = Vec::new();
    for code in 0u16..=0x7F {
        let key = virtual_keycode_to_key(code);
        if key == Button::Meta || key == Button::Unknown {
            continue;
        }
        for (other, other_code) in &seen {
            assert!(*other != key, "{:?} from {} and {}", key, code, other_code);
        }
        seen.push((key, code));
    }
    assert_eq!(seen.len(), 105);
}
