//! Button events as the session reads them, and what it answers.

use vstd::prelude::*;

verus! {

/// The keys that the session reacts to; every other key is `Other`.
#[derive(Clone, Copy, Debug, PartialEq, Eq, Structural)]
pub enum Key {
    W,
    Up,
    A,
    Left,
    S,
    Down,
    D,
    Right,
    I,
    O,
    Equals,
    Minus,
    RightBracket,
    LeftBracket,
    Period,
    Comma,
    D1,
    D2,
    D3,
    Other,
}

/// Whether a button went down or came up.
#[derive(Clone, Copy, Debug, PartialEq, Eq, Structural)]
pub enum ButtonState {
    Press,
    Release,
}

/// The button of an event: a key of the keyboard, or a button of another
/// device.
#[derive(Clone, Copy, Debug, PartialEq, Eq, Structural)]
pub enum Button {
    Keyboard(Key),
    Other,
}

/// A change of state of one button.
#[derive(Clone, Copy, Debug, PartialEq, Eq, Structural)]
pub struct ButtonArgs {
    pub state: ButtonState,
    pub button: Button,
}

/// What the owner of the viewport has to do after a button event.
///
/// The session changes its own settings by itself. The viewport and the
/// colouring constant are the caller's: for those the action says which change
/// to make. Every action but `Nothing` asks for a recomputation of the grid
/// once the change is made.
#[derive(Clone, Copy, Debug, PartialEq, Eq, Structural)]
pub enum Action {
    /// The event changed nothing; the grid stands.
    Nothing,
    /// Only the session's own settings were touched.
    Recompute,
    /// Shift the viewport by a tenth of its extent on each axis, times the
    /// direction, which is -1, 0 or 1.
    Pan { x_dir: i8, y_dir: i8 },
    /// Shrink the viewport around its centre, or grow it.
    Zoom { zoom_in: bool },
    /// Scale the colouring constant up, or down.
    ScaleColoring { up: bool },
}

/// The key that an event presses, if it presses one.
pub open spec fn pressed_key_of(args: ButtonArgs) -> Option<Key> {
    match (args.state, args.button) {
        (ButtonState::Press, Button::Keyboard(key)) => Some(key),
        _ => None,
    }
}

/// The action that a key press asks for.
pub open spec fn action_of(key: Key) -> Action {
    match key {
        Key::W | Key::Up => Action::Pan { x_dir: 0, y_dir: 1 },
        Key::A | Key::Left => Action::Pan { x_dir: -1i8, y_dir: 0 },
        Key::S | Key::Down => Action::Pan { x_dir: 0, y_dir: -1i8 },
        Key::D | Key::Right => Action::Pan { x_dir: 1, y_dir: 0 },
        Key::I => Action::Zoom { zoom_in: true },
        Key::O => Action::Zoom { zoom_in: false },
        Key::Period => Action::ScaleColoring { up: true },
        Key::Comma => Action::ScaleColoring { up: false },
        Key::Equals | Key::Minus | Key::RightBracket | Key::LeftBracket | Key::D1 | Key::D2 | Key::D3 => Action::Recompute,
        Key::Other => Action::Nothing,
    }
}

impl ButtonArgs {
    /// The key that this event presses: `None` for a release and for a button
    /// that is no key.
    pub fn pressed_key(&self) -> (key: Option<Key>)
        ensures
            key == pressed_key_of(*self),
    {
        match self.state {
            ButtonState::Press => match self.button {
                Button::Keyboard(key) => Some(key),
                Button::Other => None,
            },
            ButtonState::Release => None,
        }
    }
}

impl Key {
    /// The action that pressing this key asks for.
    pub fn action(self) -> (action: Action)
        ensures
            action == action_of(self),
    {
        match self {
            Key::W | Key::Up => Action::Pan { x_dir: 0, y_dir: 1 },
            Key::A | Key::Left => Action::Pan { x_dir: -1, y_dir: 0 },
            Key::S | Key::Down => Action::Pan { x_dir: 0, y_dir: -1 },
            Key::D | Key::Right => Action::Pan { x_dir: 1, y_dir: 0 },
            Key::I => Action::Zoom { zoom_in: true },
            Key::O => Action::Zoom { zoom_in: false },
            Key::Period => Action::ScaleColoring { up: true },
            Key::Comma => Action::ScaleColoring { up: false },
            Key::Equals | Key::Minus | Key::RightBracket | Key::LeftBracket | Key::D1 | Key::D2 | Key::D3 => Action::Recompute,
            Key::Other => Action::Nothing,
        }
    }
}

impl Action {
    /// Whether the grid has to be recomputed after this action.
    pub fn need_to_update(&self) -> (needed: bool)
        ensures
            needed == !(*self is Nothing),
    {
        match self {
            Action::Nothing => false,
            _ => true,
        }
    }
}

} // verus!
