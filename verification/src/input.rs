//! Button events, as far as the world reacts to them.

use vstd::prelude::*;
use crate::grid::TILE_SIZE;

verus! {

/// A key of the keyboard. Only the four arrow keys mean anything to the
/// world; every other key is `Other`.
#[derive(Clone, Copy, Debug, PartialEq, Eq, Structural)]
pub enum Key {
    Up,
    Down,
    Left,
    Right,
    Other,
}

/// A button of some input device: a key of the keyboard, or a button of
/// anything else (a mouse, a controller).
#[derive(Clone, Copy, Debug, PartialEq, Eq, Structural)]
pub enum Button {
    Keyboard(Key),
    Other,
}

/// Whether a button went down or came up.
#[derive(Clone, Copy, Debug, PartialEq, Eq, Structural)]
pub enum ButtonState {
    Press,
    Release,
}

/// One button event: which button, and what happened to it.
#[derive(Clone, Copy, Debug, PartialEq, Eq, Structural)]
pub struct ButtonArgs {
    pub state: ButtonState,
    pub button: Button,
}

impl ButtonArgs {
    /// The event that `button` went down.
    pub open spec fn press(button: Button) -> ButtonArgs {
        ButtonArgs { state: ButtonState::Press, button }
    }

    /// The event that `button` came up.
    pub open spec fn release(button: Button) -> ButtonArgs {
        ButtonArgs { state: ButtonState::Release, button }
    }
}

/// The arrow key that `args` reports as pressed, if it reports one.
/// A release, a key that is no arrow, and a button that is no key all
/// give `Key::Other`.
pub open spec fn pressed_arrow(args: ButtonArgs) -> Key {
    match (args.state, args.button) {
        (ButtonState::Press, Button::Keyboard(key)) => key,
        _ => Key::Other,
    }
}

/// How far, in pixels, a press of `key` moves the player to the right.
pub open spec fn step_x(key: Key) -> int {
    match key {
        Key::Left => -(TILE_SIZE as int),
        Key::Right => TILE_SIZE as int,
        _ => 0,
    }
}

/// How far, in pixels, a press of `key` moves the player down the screen.
pub open spec fn step_y(key: Key) -> int {
    match key {
        Key::Up => -(TILE_SIZE as int),
        Key::Down => TILE_SIZE as int,
        _ => 0,
    }
}

} // verus!
