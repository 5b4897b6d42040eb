//! The macOS virtual keycode table.
use vstd::prelude::*;
use crate::buttons::Button;

verus! {

/// The key that a macOS virtual keycode stands for; codes that the table does not
/// name, and a few that it names without a key of their own, are `Unknown`.
pub open spec fn spec_keycode_to_key(key_in: u16) -> Button {
    match key_in {
        0x1Du16 => Button::Digit0,
        0x12u16 => Button::Digit1,
        0x13u16 => Button::Digit2,
        0x14u16 => Button::Digit3,
        0x15u16 => Button::Digit4,
        0x17u16 => Button::Digit5,
        0x16u16 => Button::Digit6,
        0x1Au16 => Button::Digit7,
        0x1Cu16 => Button::Digit8,
        0x19u16 => Button::Digit9,
        0x00u16 => Button::A,
        0x0Bu16 => Button::B,
        0x08u16 => Button::C,
        0x02u16 => Button::D,
        0x0Eu16 => Button::E,
        0x03u16 => Button::F,
        0x05u16 => Button::G,
        0x04u16 => Button::H,
        0x22u16 => Button::I,
        0x26u16 => Button::J,
        0x28u16 => Button::K,
        0x25u16 => Button::L,
        0x2Eu16 => Button::M,
        0x2Du16 => Button::N,
        0x1Fu16 => Button::O,
        0x23u16 => Button::P,
        0x0Cu16 => Button::Q,
        0x0Fu16 => Button::R,
        0x01u16 => Button::S,
        0x11u16 => Button::T,
        0x20u16 => Button::U,
        0x09u16 => Button::V,
        0x0Du16 => Button::W,
        0x07u16 => Button::X,
        0x10u16 => Button::Y,
        0x06u16 => Button::Z,
        0x27u16 => Button::Backquote,
        0x2Au16 => Button::Backslash,
        0x2Bu16 => Button::Comma,
        0x18u16 => Button::Equal,
        0x32u16 => Button::Unknown,
        0x21u16 => Button::BracketLeft,
        0x1Bu16 => Button::Minus,
        0x2Fu16 => Button::Period,
        0x1Eu16 => Button::BracketRight,
        0x29u16 => Button::Semicolon,
        0x2Cu16 => Button::Slash,
        0x0Au16 => Button::Unknown,
        0x33u16 => Button::Backspace,
        0x39u16 => Button::CapsLock,
        0x75u16 => Button::Delete,
        0x7Du16 => Button::Down,
        0x77u16 => Button::End,
        0x24u16 => Button::Return,
        0x35u16 => Button::Escape,
        0x7Au16 => Button::F1,
        0x78u16 => Button::F2,
        0x63u16 => Button::F3,
        0x76u16 => Button::F4,
        0x60u16 => Button::F5,
        0x61u16 => Button::F6,
        0x62u16 => Button::F7,
        0x64u16 => Button::F8,
        0x65u16 => Button::F9,
        0x6Du16 => Button::F10,
        0x67u16 => Button::F11,
        0x6Fu16 => Button::F12,
        0x69u16 => Button::F13,
        0x6Bu16 => Button::F14,
        0x71u16 => Button::F15,
        0x6Au16 => Button::F16,
        0x40u16 => Button::F17,
        0x4Fu16 => Button::F18,
        0x50u16 => Button::F19,
        0x5Au16 => Button::F20,
        0x73u16 => Button::Home,
        0x72u16 => Button::Insert,
        0x7Bu16 => Button::Left,
        0x3Au16 => Button::Unknown,
        0x3Bu16 => Button::LeftControl,
        0x38u16 => Button::LeftShift,
        0x37u16 => Button::Meta,
        0x6Eu16 => Button::Menu,
        0x47u16 => Button::NumLock,
        0x79u16 => Button::PageDown,
        0x74u16 => Button::PageUp,
        0x7Cu16 => Button::Right,
        0x3Du16 => Button::Unknown,
        0x3Eu16 => Button::RightControl,
        0x3Cu16 => Button::RightShift,
        0x36u16 => Button::Meta,
        0x31u16 => Button::Space,
        0x30u16 => Button::Tab,
        0x7Eu16 => Button::Up,
        0x52u16 => Button::NumPad0,
        0x53u16 => Button::NumPad1,
        0x54u16 => Button::NumPad2,
        0x55u16 => Button::NumPad3,
        0x56u16 => Button::NumPad4,
        0x57u16 => Button::NumPad5,
        0x58u16 => Button::NumPad6,
        0x59u16 => Button::NumPad7,
        0x5Bu16 => Button::NumPad8,
        0x5Cu16 => Button::NumPad9,
        0x45u16 => Button::NumPadAdd,
        0x41u16 => Button::NumPadDecimal,
        0x4Bu16 => Button::NumPadDivide,
        0x4Cu16 => Button::NumPadEnter,
        0x51u16 => Button::NumPadEquals,
        0x43u16 => Button::NumPadMultiply,
        0x4Eu16 => Button::NumPadSubtract,
        _ => Button::Unknown,
    }
}

/// The one macOS virtual keycode of a key that has a single code; `Meta` has two
/// (the left and the right command key) and `Unknown` has many, so both are `None`.
pub open spec fn spec_mac_keycode(key: Button) -> Option<u16> {
    match key {
        Button::Digit0 => Some(0x1Du16),
        Button::Digit1 => Some(0x12u16),
        Button::Digit2 => Some(0x13u16),
        Button::Digit3 => Some(0x14u16),
        Button::Digit4 => Some(0x15u16),
        Button::Digit5 => Some(0x17u16),
        Button::Digit6 => Some(0x16u16),
        Button::Digit7 => Some(0x1Au16),
        Button::Digit8 => Some(0x1Cu16),
        Button::Digit9 => Some(0x19u16),
        Button::A => Some(0x00u16),
        Button::B => Some(0x0Bu16),
        Button::C => Some(0x08u16),
        Button::D => Some(0x02u16),
        Button::E => Some(0x0Eu16),
        Button::F => Some(0x03u16),
        Button::G => Some(0x05u16),
        Button::H => Some(0x04u16),
        Button::I => Some(0x22u16),
        Button::J => Some(0x26u16),
        Button::K => Some(0x28u16),
        Button::L => Some(0x25u16),
        Button::M => Some(0x2Eu16),
        Button::N => Some(0x2Du16),
        Button::O => Some(0x1Fu16),
        Button::P => Some(0x23u16),
        Button::Q => Some(0x0Cu16),
        Button::R => Some(0x0Fu16),
        Button::S => Some(0x01u16),
        Button::T => Some(0x11u16),
        Button::U => Some(0x20u16),
        Button::V => Some(0x09u16),
        Button::W => Some(0x0Du16),
        Button::X => Some(0x07u16),
        Button::Y => Some(0x10u16),
        Button::Z => Some(0x06u16),
        Button::Backquote => Some(0x27u16),
        Button::Backslash => Some(0x2Au16),
        Button::Comma => Some(0x2Bu16),
        Button::Equal => Some(0x18u16),
        Button::BracketLeft => Some(0x21u16),
        Button::Minus => Some(0x1Bu16),
        Button::Period => Some(0x2Fu16),
        Button::BracketRight => Some(0x1Eu16),
        Button::Semicolon => Some(0x29u16),
        Button::Slash => Some(0x2Cu16),
        Button::Backspace => Some(0x33u16),
        Button::CapsLock => Some(0x39u16),
        Button::Delete => Some(0x75u16),
        Button::Down => Some(0x7Du16),
        Button::End => Some(0x77u16),
        Button::Return => Some(0x24u16),
        Button::Escape => Some(0x35u16),
        Button::F1 => Some(0x7Au16),
        Button::F2 => Some(0x78u16),
        Button::F3 => Some(0x63u16),
        Button::F4 => Some(0x76u16),
        Button::F5 => Some(0x60u16),
        Button::F6 => Some(0x61u16),
        Button::F7 => Some(0x62u16),
        Button::F8 => Some(0x64u16),
        Button::F9 => Some(0x65u16),
        Button::F10 => Some(0x6Du16),
        Button::F11 => Some(0x67u16),
        Button::F12 => Some(0x6Fu16),
        Button::F13 => Some(0x69u16),
        Button::F14 => Some(0x6Bu16),
        Button::F15 => Some(0x71u16),
        Button::F16 => Some(0x6Au16),
        Button::F17 => Some(0x40u16),
        Button::F18 => Some(0x4Fu16),
        Button::F19 => Some(0x50u16),
        Button::F20 => Some(0x5Au16),
        Button::Home => Some(0x73u16),
        Button::Insert => Some(0x72u16),
        Button::Left => Some(0x7Bu16),
        Button::LeftControl => Some(0x3Bu16),
        Button::LeftShift => Some(0x38u16),
        Button::Menu => Some(0x6Eu16),
        Button::NumLock => Some(0x47u16),
        Button::PageDown => Some(0x79u16),
        Button::PageUp => Some(0x74u16),
        Button::Right => Some(0x7Cu16),
        Button::RightControl => Some(0x3Eu16),
        Button::RightShift => Some(0x3Cu16),
        Button::Space => Some(0x31u16),
        Button::Tab => Some(0x30u16),
        Button::Up => Some(0x7Eu16),
        Button::NumPad0 => Some(0x52u16),
        Button::NumPad1 => Some(0x53u16),
        Button::NumPad2 => Some(0x54u16),
        Button::NumPad3 => Some(0x55u16),
        Button::NumPad4 => Some(0x56u16),
        Button::NumPad5 => Some(0x57u16),
        Button::NumPad6 => Some(0x58u16),
        Button::NumPad7 => Some(0x59u16),
        Button::NumPad8 => Some(0x5Bu16),
        Button::NumPad9 => Some(0x5Cu16),
        Button::NumPadAdd => Some(0x45u16),
        Button::NumPadDecimal => Some(0x41u16),
        Button::NumPadDivide => Some(0x4Bu16),
        Button::NumPadEnter => Some(0x4Cu16),
        Button::NumPadEquals => Some(0x51u16),
        Button::NumPadMultiply => Some(0x43u16),
        Button::NumPadSubtract => Some(0x4Eu16),
        _ => None,
    }
}

/// Translates a macOS virtual keycode into a key.
pub fn virtual_keycode_to_key(key_in: u16) -> (key: Button)
    ensures
        key == spec_keycode_to_key(key_in),
{
    match key_in {
        0x1Du16 => Button::Digit0,
        0x12u16 => Button::Digit1,
        0x13u16 => Button::Digit2,
        0x14u16 => Button::Digit3,
        0x15u16 => Button::Digit4,
        0x17u16 => Button::Digit5,
        0x16u16 => Button::Digit6,
        0x1Au16 => Button::Digit7,
        0x1Cu16 => Button::Digit8,
        0x19u16 => Button::Digit9,
        0x00u16 => Button::A,
        0x0Bu16 => Button::B,
        0x08u16 => Button::C,
        0x02u16 => Button::D,
        0x0Eu16 => Button::E,
        0x03u16 => Button::F,
        0x05u16 => Button::G,
        0x04u16 => Button::H,
        0x22u16 => Button::I,
        0x26u16 => Button::J,
        0x28u16 => Button::K,
        0x25u16 => Button::L,
        0x2Eu16 => Button::M,
        0x2Du16 => Button::N,
        0x1Fu16 => Button::O,
        0x23u16 => Button::P,
        0x0Cu16 => Button::Q,
        0x0Fu16 => Button::R,
        0x01u16 => Button::S,
        0x11u16 => Button::T,
        0x20u16 => Button::U,
        0x09u16 => Button::V,
        0x0Du16 => Button::W,
        0x07u16 => Button::X,
        0x10u16 => Button::Y,
        0x06u16 => Button::Z,
        0x27u16 => Button::Backquote,
        0x2Au16 => Button::Backslash,
        0x2Bu16 => Button::Comma,
        0x18u16 => Button::Equal,
        0x32u16 => Button::Unknown,
        0x21u16 => Button::BracketLeft,
        0x1Bu16 => Button::Minus,
        0x2Fu16 => Button::Period,
        0x1Eu16 => Button::BracketRight,
        0x29u16 => Button::Semicolon,
        0x2Cu16 => Button::Slash,
        0x0Au16 => Button::Unknown,
        0x33u16 => Button::Backspace,
        0x39u16 => Button::CapsLock,
        0x75u16 => Button::Delete,
        0x7Du16 => Button::Down,
        0x77u16 => Button::End,
        0x24u16 => Button::Return,
        0x35u16 => Button::Escape,
        0x7Au16 => Button::F1,
        0x78u16 => Button::F2,
        0x63u16 => Button::F3,
        0x76u16 => Button::F4,
        0x60u16 => Button::F5,
        0x61u16 => Button::F6,
        0x62u16 => Button::F7,
        0x64u16 => Button::F8,
        0x65u16 => Button::F9,
        0x6Du16 => Button::F10,
        0x67u16 => Button::F11,
        0x6Fu16 => Button::F12,
        0x69u16 => Button::F13,
        0x6Bu16 => Button::F14,
        0x71u16 => Button::F15,
        0x6Au16 => Button::F16,
        0x40u16 => Button::F17,
        0x4Fu16 => Button::F18,
        0x50u16 => Button::F19,
        0x5Au16 => Button::F20,
        0x73u16 => Button::Home,
        0x72u16 => Button::Insert,
        0x7Bu16 => Button::Left,
        0x3Au16 => Button::Unknown,
        0x3Bu16 => Button::LeftControl,
        0x38u16 => Button::LeftShift,
        0x37u16 => Button::Meta,
        0x6Eu16 => Button::Menu,
        0x47u16 => Button::NumLock,
        0x79u16 => Button::PageDown,
        0x74u16 => Button::PageUp,
        0x7Cu16 => Button::Right,
        0x3Du16 => Button::Unknown,
        0x3Eu16 => Button::RightControl,
        0x3Cu16 => Button::RightShift,
        0x36u16 => Button::Meta,
        0x31u16 => Button::Space,
        0x30u16 => Button::Tab,
        0x7Eu16 => Button::Up,
        0x52u16 => Button::NumPad0,
        0x53u16 => Button::NumPad1,
        0x54u16 => Button::NumPad2,
        0x55u16 => Button::NumPad3,
        0x56u16 => Button::NumPad4,
        0x57u16 => Button::NumPad5,
        0x58u16 => Button::NumPad6,
        0x59u16 => Button::NumPad7,
        0x5Bu16 => Button::NumPad8,
        0x5Cu16 => Button::NumPad9,
        0x45u16 => Button::NumPadAdd,
        0x41u16 => Button::NumPadDecimal,
        0x4Bu16 => Button::NumPadDivide,
        0x4Cu16 => Button::NumPadEnter,
        0x51u16 => Button::NumPadEquals,
        0x43u16 => Button::NumPadMultiply,
        0x4Eu16 => Button::NumPadSubtract,
        _ => Button::Unknown,
    }
}

/// Every key other than `Meta` and `Unknown` comes from exactly one keycode, and
/// translating that code gives the key back.
pub proof fn lemma_keycode_round_trip(code: u16)
    requires
        spec_keycode_to_key(code) != Button::Meta,
        spec_keycode_to_key(code) != Button::Unknown,
    ensures
        spec_mac_keycode(spec_keycode_to_key(code)) == Some(code),
{
}

/// Two keycodes that give the same key, other than `Meta` or `Unknown`, are the
/// same keycode.
pub proof fn lemma_keycode_injective(a: u16, b: u16)
    requires
        spec_keycode_to_key(a) == spec_keycode_to_key(b),
        spec_keycode_to_key(a) != Button::Meta,
        spec_keycode_to_key(a) != Button::Unknown,
    ensures
        a == b,
{
    lemma_keycode_round_trip(a);
    lemma_keycode_round_trip(b);
}

/// Every key with a single code is reached from that code.
pub proof fn lemma_mac_keycode_is_inverse(key: Button)
    requires
        spec_mac_keycode(key) is Some,
    ensures
        spec_keycode_to_key(spec_mac_keycode(key).unwrap()) == key,
{
}

/// The left (0x37) and the right (0x36) command key are both `Meta`, and no other
/// code is.
pub proof fn lemma_meta_keycodes(code: u16)
    ensures
        spec_keycode_to_key(code) == Button::Meta <==> (code == 0x36 || code == 0x37),
{
}

/// Keycodes above 0x7E name no key.
pub proof fn lemma_high_keycodes_unknown(code: u16)
    requires
        code > 0x7E,
    ensures
        spec_keycode_to_key(code) == Button::Unknown,
{
}

} // verus!
