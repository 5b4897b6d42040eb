use windowing::application::{Application, CursorAction};
use windowing::buttons::{Button, MouseButton};
use windowing::events::Event;
use windowing::state_tracker::StateTracker;

fn step(app: &mut Application, event: Event) {
    app.handle_event(event);
    app.post_program_callback(event);
}

#[test]
fn nothing_is_pressed_at_start() {
    let app = Application::new();
    assert!(!app.key(Button::A));
    assert!(!app.key_down(Button::A));
    assert!(!app.mouse_button(MouseButton::Left));
    assert!(!app.mouse_button_down(MouseButton::Left));
    assert!(app.keys_down(&[]));
}

#[test]
fn key_down_is_reported_held_and_down() {
    let mut app = Application::new();
    step(&mut app, Event::KeyDown { key: Button::R, scancode: 15 });
    assert!(app.key(Button::R));
    assert!(app.key_down(Button::R));
    assert!(!app.key(Button::G));
    assert!(!app.key_down(Button::G));
}

#[test]
fn released_key_stays_down_until_draw() {
    let mut app = Application::new();
    step(&mut app, Event::KeyDown { key: Button::G, scancode: 5 });
    step(&mut app, Event::KeyUp { key: Button::G, scancode: 5 });
    assert!(!app.key(Button::G));
    assert!(app.key_down(Button::G));
    step(&mut app, Event::Draw);
    assert!(!app.key_down(Button::G));
}

#[test]
fn draw_callback_sees_keys_down_then_frame_resets() {
    let mut app = Application::new();
    step(&mut app, Event::KeyDown { key: Button::B, scancode: 11 });
    app.handle_event(Event::Draw);
    // what the program sees during the draw
    assert!(app.key_down(Button::B));
    app.post_program_callback(Event::Draw);
    assert!(!app.key_down(Button::B));
    // still held
    assert!(app.key(Button::B));
}

#[test]
fn keys_down_needs_every_key() {
    let mut app = Application::new();
    step(&mut app, Event::KeyDown { key: Button::LeftControl, scancode: 0 });
    step(&mut app, Event::KeyDown { key: Button::S, scancode: 1 });
    assert!(app.keys_down(&[Button::LeftControl, Button::S]));
    assert!(!app.keys_down(&[Button::LeftControl, Button::S, Button::Z]));
    assert!(app.keys_down(&[Button::S]));
}

#[test]
fn pressing_a_key_twice_then_releasing_clears_it() {
    let mut app = Application::new();
    step(&mut app, Event::KeyDown { key: Button::A, scancode: 0 });
    step(&mut app, Event::KeyDown { key: Button::A, scancode: 0 });
    step(&mut app, Event::KeyUp { key: Button::A, scancode: 0 });
    assert!(!app.key(Button::A));
}

#[test]
fn key_up_without_key_down_changes_nothing_down() {
    let mut app = Application::new();
    step(&mut app, Event::KeyUp { key: Button::Q, scancode: 12 });
    assert!(!app.key(Button::Q));
    assert!(!app.key_down(Button::Q));
}

#[test]
fn mouse_buttons_are_tracked() {
    let mut app = Application::new();
    step(&mut app, Event::MouseDown { button: MouseButton::Left });
    assert!(app.mouse_button(MouseButton::Left));
    assert!(app.mouse_button_down(MouseButton::Left));
    assert!(!app.mouse_button(MouseButton::Right));
    step(&mut app, Event::MouseUp { button: MouseButton::Left });
    assert!(!app.mouse_button(MouseButton::Left));
    assert!(app.mouse_button_down(MouseButton::Left));
    step(&mut app, Event::Draw);
    assert!(!app.mouse_button_down(MouseButton::Left));
}

#[test]
fn keys_and_buttons_do_not_mix() {
    let mut app = Application::new();
    step(&mut app, Event::MouseDown { button: MouseButton::Middle });
    step(&mut app, Event::KeyDown { key: Button::M, scancode: 46 });
    step(&mut app, Event::KeyUp { key: Button::M, scancode: 46 });
    assert!(app.mouse_button(MouseButton::Middle));
    step(&mut app, Event::MouseUp { button: MouseButton::Middle });
    assert!(app.key_down(Button::M));
}

#[test]
fn quit_changes_nothing() {
    let mut app = Application::new();
    step(&mut app, Event::KeyDown { key: Button::Escape, scancode: 53 });
    step(&mut app, Event::Quit);
    assert!(app.key(Button::Escape));
    assert!(app.key_down(Button::Escape));
}

#[test]
fn cursor_visibility_decides_show_or_hide() {
    let app = Application::new();
    assert_eq!(app.set_cursor_visible(true), CursorAction::Show);
    assert_eq!(app.set_cursor_visible(false), CursorAction::Hide);
}

#[test]
fn state_tracker_directly() {
    let mut tracker = StateTracker::new();
    tracker.handle_event(Event::KeyDown { key: Button::Tab, scancode: 48 });
    assert!(tracker.key(Button::Tab));
    tracker.post_program_callback(Event::Draw);
    assert!(tracker.key(Button::Tab));
    assert!(!tracker.key_down(Button::Tab));
}
