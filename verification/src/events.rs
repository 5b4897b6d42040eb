//! The input events that a platform delivers to the event loop.
use vstd::prelude::*;
use crate::buttons::{Key, MouseButton};

verus! {

/// An event as the library's input state sees it.
#[derive(Clone, Copy, Debug, PartialEq, Eq, Structural)]
pub enum Event {
    /// A key went down.
    KeyDown { key: Key, scancode: u32 },
    /// A key went up.
    KeyUp { key: Key, scancode: u32 },
    /// A mouse button went down.
    MouseDown { button: MouseButton },
    /// A mouse button went up.
    MouseUp { button: MouseButton },
    /// A frame is to be drawn.
    Draw,
    /// The application is asked to quit.
    Quit,
}

} // verus!
