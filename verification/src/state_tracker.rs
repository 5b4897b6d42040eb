//! Which keys and mouse buttons are held, and which went down since the last draw.
use vstd::prelude::*;
use crate::buttons::{Key, MouseButton};
use crate::events::Event;

verus! {

/// The abstract input state: four sets.
pub struct InputView {
    /// Keys that are held now.
    pub keys_pressed: Set<Key>,
    /// Keys that went down since the last draw.
    pub keys_down: Set<Key>,
    /// Mouse buttons that are held now.
    pub buttons_pressed: Set<MouseButton>,
    /// Mouse buttons that went down since the last draw.
    pub buttons_down: Set<MouseButton>,
}

/// The input state after `event` was handled, before the program sees it.
pub open spec fn spec_handle_event(v: InputView, event: Event) -> InputView {
    match event {
        Event::KeyDown { key, .. } => InputView {
            keys_pressed: v.keys_pressed.insert(key),
            keys_down: v.keys_down.insert(key),
            ..v
        },
        Event::KeyUp { key, .. } => InputView { keys_pressed: v.keys_pressed.remove(key), ..v },
        Event::MouseDown { button } => InputView {
            buttons_pressed: v.buttons_pressed.insert(button),
            buttons_down: v.buttons_down.insert(button),
            ..v
        },
        Event::MouseUp { button } => InputView {
            buttons_pressed: v.buttons_pressed.remove(button),
            ..v
        },
        _ => v,
    }
}

/// The input state after the program has seen `event`: a draw starts a new frame,
/// so nothing has gone down since it.
pub open spec fn spec_post_program_callback(v: InputView, event: Event) -> InputView {
    match event {
        Event::Draw => InputView { keys_down: Set::empty(), buttons_down: Set::empty(), ..v },
        _ => v,
    }
}

/// The input state after one event went through the whole loop step.
pub open spec fn spec_process_event(v: InputView, event: Event) -> InputView {
    spec_post_program_callback(spec_handle_event(v, event), event)
}

/// A set of mouse buttons, one flag per button.
#[derive(Clone, Copy, Debug)]
pub struct ButtonSet {
    pub left: bool,
    pub middle: bool,
    pub right: bool,
}

impl ButtonSet {
    pub open spec fn spec_set(self) -> Set<MouseButton> {
        Set::new(
            |b: MouseButton|
                match b {
                    MouseButton::Left => self.left,
                    MouseButton::Middle => self.middle,
                    MouseButton::Right => self.right,
                },
        )
    }

    /// The empty set.
    pub fn empty() -> (s: ButtonSet)
        ensures
            s.spec_set() == Set::<MouseButton>::empty(),
    {
        let s = ButtonSet { left: false, middle: false, right: false };
        assert(s.spec_set() =~= Set::<MouseButton>::empty());
        s
    }

    /// Whether `button` is in the set.
    pub fn contains(&self, button: MouseButton) -> (r: bool)
        ensures
            r == self.spec_set().contains(button),
    {
        match button {
            MouseButton::Left => self.left,
            MouseButton::Middle => self.middle,
            MouseButton::Right => self.right,
        }
    }

    /// The set with `button` set to `present`.
    pub fn with(&self, button: MouseButton, present: bool) -> (s: ButtonSet)
        ensures
            present ==> s.spec_set() == self.spec_set().insert(button),
            !present ==> s.spec_set() == self.spec_set().remove(button),
    {
        let s = match button {
            MouseButton::Left => ButtonSet { left: present, ..*self },
            MouseButton::Middle => ButtonSet { middle: present, ..*self },
            MouseButton::Right => ButtonSet { right: present, ..*self },
        };
        if present {
            assert(s.spec_set() =~= self.spec_set().insert(button));
        } else {
            assert(s.spec_set() =~= self.spec_set().remove(button));
        }
        s
    }
}

/// Where `key` stands in `keys`, if it is there.
fn key_position(keys: &Vec<Key>, key: Key) -> (r: Option<usize>)
    ensures
        match r {
            Some(i) => i < keys.len() && keys@[i as int] == key,
            None => !keys@.contains(key),
        },
{
    let mut i: usize = 0;
    while i < keys.len()
        invariant
            i <= keys.len(),
            forall|j: int| 0 <= j < i ==> keys@[j] != key,
        decreases keys.len() - i,
    {
        if keys[i] == key {
            return Some(i);
        }
        i = i + 1;
    }
    None
}

/// `keys` with `key` added, each key still once.
fn with_key(keys: &Vec<Key>, key: Key) -> (r: Vec<Key>)
    requires
        keys@.no_duplicates(),
    ensures
        r@.no_duplicates(),
        r@.to_set() == keys@.to_set().insert(key),
{
    let mut r = keys.clone();
    match key_position(keys, key) {
        Some(_) => {
            assert(r@.to_set() =~= keys@.to_set().insert(key));
        },
        None => {
            r.push(key);
            assert(r@.to_set() =~= keys@.to_set().insert(key)) by {
                assert forall|k: Key| #[trigger] r@.contains(k) <==> (keys@.contains(k) || k == key) by {
                    if keys@.contains(k) {
                        let j = choose|j: int| 0 <= j < keys@.len() && keys@[j] == k;
                        assert(r@[j] == k);
                    }
                    if r@.contains(k) {
                        let j = choose|j: int| 0 <= j < r@.len() && r@[j] == k;
                        if j < keys@.len() {
                            assert(keys@[j] == k);
                        }
                    }
                    if k == key {
                        assert(r@[r@.len() - 1] == key);
                    }
                }
            }
        },
    }
    r
}

/// `keys` without `key`, each key still once.
fn without_key(keys: &Vec<Key>, key: Key) -> (r: Vec<Key>)
    requires
        keys@.no_duplicates(),
    ensures
        r@.no_duplicates(),
        r@.to_set() == keys@.to_set().remove(key),
{
    let mut r = keys.clone();
    match key_position(keys, key) {
        None => {
            assert(r@.to_set() =~= keys@.to_set().remove(key));
        },
        Some(p) => {
            r.remove(p);
            let ghost s = keys@;
            assert(forall|j: int| 0 <= j < r@.len() ==> #[trigger] r@[j] == (if j < p { s[j] } else { s[j + 1] }));
            assert forall|a: int, b: int| 0 <= a < r@.len() && 0 <= b < r@.len() && a != b implies r@[a] != r@[b] by {
                let ia = if a < p { a } else { a + 1 };
                let ib = if b < p { b } else { b + 1 };
                assert(s[ia] == r@[a]);
                assert(s[ib] == r@[b]);
            }
            assert forall|x: Key| #[trigger] r@.contains(x) <==> (s.contains(x) && x != key) by {
                if r@.contains(x) {
                    let j = choose|j: int| 0 <= j < r@.len() && r@[j] == x;
                    let ij = if j < p { j } else { j + 1 };
                    assert(s[ij] == x);
                    assert(ij != p);
                }
                if s.contains(x) && x != key {
                    let j = choose|j: int| 0 <= j < s.len() && s[j] == x;
                    assert(j != p);
                    if j < p {
                        assert(r@[j] == x);
                    } else {
                        assert(r@[j - 1] == x);
                    }
                }
            }
            assert(r@.to_set() =~= keys@.to_set().remove(key));
        },
    }
    r
}

/// A key that goes down is reported both as held and as down since the last draw,
/// to the program's callback for that event and after the event's step is done.
pub proof fn lemma_key_down_is_reported(v: InputView, key: Key, scancode: u32)
    ensures
        spec_handle_event(v, Event::KeyDown { key, scancode }).keys_pressed.contains(key),
        spec_handle_event(v, Event::KeyDown { key, scancode }).keys_down.contains(key),
        spec_process_event(v, Event::KeyDown { key, scancode }).keys_pressed.contains(key),
        spec_process_event(v, Event::KeyDown { key, scancode }).keys_down.contains(key),
{
}

/// A key pressed and released between two draws is no longer held, but is still
/// reported as down since the last draw.
pub proof fn lemma_released_key_stays_down_until_draw(v: InputView, key: Key, down_code: u32, up_code: u32)
    ensures
        ({
            let after = spec_process_event(
                spec_process_event(v, Event::KeyDown { key, scancode: down_code }),
                Event::KeyUp { key, scancode: up_code },
            );
            !after.keys_pressed.contains(key) && after.keys_down.contains(key)
        }),
{
}

/// A mouse button pressed and released between two draws is no longer held, but
/// is still reported as down since the last draw.
pub proof fn lemma_released_button_stays_down_until_draw(v: InputView, button: MouseButton)
    ensures
        ({
            let after = spec_process_event(
                spec_process_event(v, Event::MouseDown { button }),
                Event::MouseUp { button },
            );
            !after.buttons_pressed.contains(button) && after.buttons_down.contains(button)
        }),
{
}

/// The program's callback for a draw sees everything that went down since the
/// previous draw; once it returns, nothing has gone down since, and what is held stays held.
pub proof fn lemma_draw_starts_new_frame(v: InputView)
    ensures
        spec_handle_event(v, Event::Draw) == v,
        spec_process_event(v, Event::Draw).keys_down == Set::<Key>::empty(),
        spec_process_event(v, Event::Draw).buttons_down == Set::<MouseButton>::empty(),
        spec_process_event(v, Event::Draw).keys_pressed == v.keys_pressed,
        spec_process_event(v, Event::Draw).buttons_pressed == v.buttons_pressed,
{
}

/// Key events leave the mouse buttons alone, and mouse events leave the keys alone.
pub proof fn lemma_keys_and_buttons_independent(v: InputView, event: Event)
    ensures
        (event is KeyDown || event is KeyUp) ==> {
            &&& spec_process_event(v, event).buttons_pressed == v.buttons_pressed
            &&& spec_process_event(v, event).buttons_down == v.buttons_down
        },
        (event is MouseDown || event is MouseUp) ==> {
            &&& spec_process_event(v, event).keys_pressed == v.keys_pressed
            &&& spec_process_event(v, event).keys_down == v.keys_down
        },
{
}

/// Any other event leaves the input state as it was.
pub proof fn lemma_quit_changes_nothing(v: InputView)
    ensures
        spec_process_event(v, Event::Quit) == v,
{
}

/// A key that goes up without having gone down since the last draw is reported
/// neither as held nor as down.
pub proof fn lemma_key_up_clears_held(v: InputView, key: Key, scancode: u32)
    ensures
        !spec_process_event(v, Event::KeyUp { key, scancode }).keys_pressed.contains(key),
        spec_process_event(v, Event::KeyUp { key, scancode }).keys_down == v.keys_down,
{
}

/// A key going down adds that key, and only it, to the held keys and to the keys
/// gone down since the last draw: every other key keeps its state.
pub proof fn lemma_key_down_changes_only_that_key(v: InputView, key: Key, scancode: u32, other: Key)
    ensures
        spec_handle_event(v, Event::KeyDown { key, scancode }).keys_pressed.contains(other)
            <==> (v.keys_pressed.contains(other) || other == key),
        spec_handle_event(v, Event::KeyDown { key, scancode }).keys_down.contains(other)
            <==> (v.keys_down.contains(other) || other == key),
{
}

/// A key going up releases that key, and only it: every other held key stays held.
pub proof fn lemma_key_up_changes_only_that_key(v: InputView, key: Key, scancode: u32, other: Key)
    ensures
        spec_handle_event(v, Event::KeyUp { key, scancode }).keys_pressed.contains(other)
            <==> (v.keys_pressed.contains(other) && other != key),
{
}

/// A mouse button going down adds that button, and only it, to the held buttons
/// and to the buttons gone down since the last draw.
pub proof fn lemma_mouse_down_changes_only_that_button(v: InputView, button: MouseButton, other: MouseButton)
    ensures
        spec_handle_event(v, Event::MouseDown { button }).buttons_pressed.contains(other)
            <==> (v.buttons_pressed.contains(other) || other == button),
        spec_handle_event(v, Event::MouseDown { button }).buttons_down.contains(other)
            <==> (v.buttons_down.contains(other) || other == button),
{
}

/// A mouse button going up releases that button, and only it: every other held
/// button stays held.
pub proof fn lemma_mouse_up_changes_only_that_button(v: InputView, button: MouseButton, other: MouseButton)
    ensures
        spec_handle_event(v, Event::MouseUp { button }).buttons_pressed.contains(other)
            <==> (v.buttons_pressed.contains(other) && other != button),
        spec_handle_event(v, Event::MouseUp { button }).buttons_down == v.buttons_down,
{
}

/// Nothing leaves the keys or buttons gone down since the last draw except at a
/// draw, whose callback still sees them all.
pub proof fn lemma_down_sets_only_grow_between_draws(v: InputView, event: Event, key: Key, button: MouseButton)
    ensures
        v.keys_down.contains(key) ==> spec_handle_event(v, event).keys_down.contains(key),
        v.buttons_down.contains(button) ==> spec_handle_event(v, event).buttons_down.contains(button),
        event != Event::Draw && v.keys_down.contains(key) ==> spec_process_event(v, event).keys_down.contains(key),
        event != Event::Draw && v.buttons_down.contains(button) ==> spec_process_event(v, event).buttons_down.contains(button),
{
}

/// The input state of an application.
pub struct StateTracker {
    keys_pressed: Vec<Key>,
    keys_down_since_draw: Vec<Key>,
    buttons_pressed: ButtonSet,
    buttons_down_since_draw: ButtonSet,
}

impl View for StateTracker {
    type V = InputView;

    closed spec fn view(&self) -> InputView {
        InputView {
            keys_pressed: self.keys_pressed@.to_set(),
            keys_down: self.keys_down_since_draw@.to_set(),
            buttons_pressed: self.buttons_pressed.spec_set(),
            buttons_down: self.buttons_down_since_draw.spec_set(),
        }
    }
}

impl StateTracker {
    #[verifier::type_invariant]
    closed spec fn well_formed(self) -> bool {
        &&& self.keys_pressed@.no_duplicates()
        &&& self.keys_down_since_draw@.no_duplicates()
    }

    /// No key and no button is held or has gone down.
    pub fn new() -> (s: StateTracker)
        ensures
            s@.keys_pressed == Set::<Key>::empty(),
            s@.keys_down == Set::<Key>::empty(),
            s@.buttons_pressed == Set::<MouseButton>::empty(),
            s@.buttons_down == Set::<MouseButton>::empty(),
    {
        let s = StateTracker {
            keys_pressed: Vec::new(),
            keys_down_since_draw: Vec::new(),
            buttons_pressed: ButtonSet::empty(),
            buttons_down_since_draw: ButtonSet::empty(),
        };
        assert(s@.keys_pressed =~= Set::<Key>::empty());
        assert(s@.keys_down =~= Set::<Key>::empty());
        s
    }

    /// Records what `event` changes before the program sees it.
    pub fn handle_event(&mut self, event: Event)
        ensures
            final(self)@ == spec_handle_event(old(self)@, event),
    {
        proof {
            use_type_invariant(&*self);
        }
        match event {
            Event::KeyDown { key, .. } => {
                let pressed = with_key(&self.keys_pressed, key);
                let down = with_key(&self.keys_down_since_draw, key);
                self.keys_pressed = pressed;
                self.keys_down_since_draw = down;
            },
            Event::KeyUp { key, .. } => {
                let pressed = without_key(&self.keys_pressed, key);
                self.keys_pressed = pressed;
            },
            Event::MouseDown { button } => {
                self.buttons_pressed = self.buttons_pressed.with(button, true);
                self.buttons_down_since_draw = self.buttons_down_since_draw.with(button, true);
            },
            Event::MouseUp { button } => {
                self.buttons_pressed = self.buttons_pressed.with(button, false);
            },
            _ => {},
        }
    }

    /// Records what `event` changes after the program has seen it.
    pub fn post_program_callback(&mut self, event: Event)
        ensures
            final(self)@ == spec_post_program_callback(old(self)@, event),
    {
        proof {
            use_type_invariant(&*self);
        }
        match event {
            Event::Draw => {
                self.keys_down_since_draw = Vec::new();
                self.buttons_down_since_draw = ButtonSet::empty();
                assert(self@.keys_down =~= Set::<Key>::empty());
            },
            _ => {},
        }
    }

    /// Whether `key` is held.
    pub fn key(&self, key: Key) -> (r: bool)
        ensures
            r == self@.keys_pressed.contains(key),
    {
        key_position(&self.keys_pressed, key).is_some()
    }

    /// Whether `key` has gone down since the last draw.
    pub fn key_down(&self, key: Key) -> (r: bool)
        ensures
            r == self@.keys_down.contains(key),
    {
        key_position(&self.keys_down_since_draw, key).is_some()
    }

    /// Whether every key of `keys` has gone down since the last draw.
    pub fn keys_down(&self, keys: &[Key]) -> (r: bool)
        ensures
            r == (forall|i: int| 0 <= i < keys@.len() ==> self@.keys_down.contains(#[trigger] keys@[i])),
    {
        let mut i: usize = 0;
        while i < keys.len()
            invariant
                i <= keys@.len(),
                forall|j: int| 0 <= j < i ==> self@.keys_down.contains(#[trigger] keys@[j]),
            decreases keys@.len() - i,
        {
            if !self.key_down(keys[i]) {
                return false;
            }
            i = i + 1;
        }
        true
    }

    /// Whether `button` is held.
    pub fn mouse_button(&self, button: MouseButton) -> (r: bool)
        ensures
            r == self@.buttons_pressed.contains(button),
    {
        self.buttons_pressed.contains(button)
    }

    /// Whether `button` has gone down since the last draw.
    pub fn mouse_button_down(&self, button: MouseButton) -> (r: bool)
        ensures
            r == self@.buttons_down.contains(button),
    {
        self.buttons_down_since_draw.contains(button)
    }
}

} // verus!
