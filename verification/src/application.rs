//! The application handle: what the program asks about input, and the decisions
//! the event loop takes around the program's callback.
use vstd::prelude::*;
use crate::buttons::{Key, MouseButton};
use crate::events::Event;
use crate::state_tracker::{InputView, StateTracker, spec_handle_event, spec_post_program_callback};

verus! {

/// What the platform is to do with the mouse cursor.
#[derive(Clone, Copy, Debug, PartialEq, Eq, Structural)]
pub enum CursorAction {
    Show,
    Hide,
}

/// A handle used to ask about input state, shared by the program and the event loop.
pub struct Application {
    state_tracker: StateTracker,
}

impl View for Application {
    type V = InputView;

    closed spec fn view(&self) -> InputView {
        self.state_tracker@
    }
}

impl Application {
    /// An application before any event: nothing held, nothing down.
    pub fn new() -> (a: Application)
        ensures
            a@.keys_pressed == Set::<Key>::empty(),
            a@.keys_down == Set::<Key>::empty(),
            a@.buttons_pressed == Set::<MouseButton>::empty(),
            a@.buttons_down == Set::<MouseButton>::empty(),
    {
        Application { state_tracker: StateTracker::new() }
    }

    /// The step the event loop takes before handing `event` to the program.
    pub fn handle_event(&mut self, event: Event)
        ensures
            final(self)@ == spec_handle_event(old(self)@, event),
    {
        self.state_tracker.handle_event(event);
    }

    /// The step the event loop takes after the program has handled `event`.
    pub fn post_program_callback(&mut self, event: Event)
        ensures
            final(self)@ == spec_post_program_callback(old(self)@, event),
    {
        self.state_tracker.post_program_callback(event);
    }

    /// What the platform is to do to make the cursor visible or not.
    pub fn set_cursor_visible(&self, visible: bool) -> (action: CursorAction)
        ensures
            action == (if visible { CursorAction::Show } else { CursorAction::Hide }),
    {
        if visible {
            CursorAction::Show
        } else {
            CursorAction::Hide
        }
    }

    /// Returns if the key is currently pressed.
    pub fn key(&self, key: Key) -> (r: bool)
        ensures
            r == self@.keys_pressed.contains(key),
    {
        self.state_tracker.key(key)
    }

    /// Returns true if the key has been pressed since the last draw.
    pub fn key_down(&self, key: Key) -> (r: bool)
        ensures
            r == self@.keys_down.contains(key),
    {
        self.state_tracker.key_down(key)
    }

    /// Returns true if all the keys specified have been pressed since the last draw.
    pub fn keys_down(&self, keys: &[Key]) -> (r: bool)
        ensures
            r == (forall|i: int| 0 <= i < keys@.len() ==> self@.keys_down.contains(#[trigger] keys@[i])),
    {
        self.state_tracker.keys_down(keys)
    }

    /// Returns true if the mouse button is pressed.
    pub fn mouse_button(&self, button: MouseButton) -> (r: bool)
        ensures
            r == self@.buttons_pressed.contains(button),
    {
        self.state_tracker.mouse_button(button)
    }

    /// Returns true if the mouse button has been pressed since the last draw.
    pub fn mouse_button_down(&self, button: MouseButton) -> (r: bool)
        ensures
            r == self@.buttons_down.contains(button),
    {
        self.state_tracker.mouse_button_down(button)
    }
}

} // verus!
