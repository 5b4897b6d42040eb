//! The keys and mouse buttons that the library reports.
use vstd::prelude::*;

verus! {

/// A keyboard key, independent of the platform that reported it.
#[derive(Clone, Copy, Debug, PartialEq, Eq, Structural, Hash)]
pub enum Button {
    Digit0,
    Digit1,
    Digit2,
    Digit3,
    Digit4,
    Digit5,
    Digit6,
    Digit7,
    Digit8,
    Digit9,
    A,
    B,
    C,
    D,
    E,
    F,
    G,
    H,
    I,
    J,
    K,
    L,
    M,
    N,
    O,
    P,
    Q,
    R,
    S,
    T,
    U,
    V,
    W,
    X,
    Y,
    Z,
    Backquote,
    Backslash,
    Comma,
    Equal,
    BracketLeft,
    Minus,
    Period,
    BracketRight,
    Semicolon,
    Slash,
    Backspace,
    CapsLock,
    Delete,
    Down,
    End,
    Return,
    Escape,
    F1,
    F2,
    F3,
    F4,
    F5,
    F6,
    F7,
    F8,
    F9,
    F10,
    F11,
    F12,
    F13,
    F14,
    F15,
    F16,
    F17,
    F18,
    F19,
    F20,
    Home,
    Insert,
    Left,
    LeftControl,
    LeftShift,
    Meta,
    Menu,
    NumLock,
    PageDown,
    PageUp,
    Right,
    RightControl,
    RightShift,
    Space,
    Tab,
    Up,
    NumPad0,
    NumPad1,
    NumPad2,
    NumPad3,
    NumPad4,
    NumPad5,
    NumPad6,
    NumPad7,
    NumPad8,
    NumPad9,
    NumPadAdd,
    NumPadDecimal,
    NumPadDivide,
    NumPadEnter,
    NumPadEquals,
    NumPadMultiply,
    NumPadSubtract,
    Unknown,
}

/// Keys are reported as buttons.
pub type Key = Button;

/// A mouse button.
#[derive(Clone, Copy, Debug, PartialEq, Eq, Structural, Hash)]
pub enum MouseButton {
    Left,
    Middle,
    Right,
}

} // verus!
