//! Which key asks for which action.

use vstd::prelude::*;
use crate::app::Action;

verus! {

/// A key press, as far as the board tells keys apart.
#[derive(Clone, Copy, Debug, PartialEq, Eq, Structural)]
pub enum Key {
    Char(char),
    Esc,
    Enter,
    Left,
    Right,
    Up,
    Down,
    /// Any key that the board has no use for.
    Other,
}

/// The action that a key stands for: `q` quits, Esc closes or quits, `h` `l`
/// and the horizontal arrows move the focus, `j` `k` and the vertical arrows
/// move the selection, `H` and `L` move the card, Enter opens and closes the
/// detail view. Every other key stands for nothing.
pub open spec fn key_action(key: Key) -> Option<Action> {
    match key {
        Key::Char(c) => if c == 'q' {
            Some(Action::Quit)
        } else if c == 'h' {
            Some(Action::FocusLeft)
        } else if c == 'l' {
            Some(Action::FocusRight)
        } else if c == 'j' {
            Some(Action::SelectDown)
        } else if c == 'k' {
            Some(Action::SelectUp)
        } else if c == 'H' {
            Some(Action::MoveLeft)
        } else if c == 'L' {
            Some(Action::MoveRight)
        } else {
            None
        },
        Key::Esc => Some(Action::CloseOrQuit),
        Key::Enter => Some(Action::ToggleDetail),
        Key::Left => Some(Action::FocusLeft),
        Key::Right => Some(Action::FocusRight),
        Key::Up => Some(Action::SelectUp),
        Key::Down => Some(Action::SelectDown),
        Key::Other => None,
    }
}

impl Action {
    /// Looks up the action that a key stands for.
    pub fn from_key(key: Key) -> (action: Option<Action>)
        ensures
            action == key_action(key),
    {
        match key {
            Key::Char('q') => Some(Action::Quit),
            Key::Esc => Some(Action::CloseOrQuit),
            Key::Char('h') | Key::Left => Some(Action::FocusLeft),
            Key::Char('l') | Key::Right => Some(Action::FocusRight),
            Key::Char('j') | Key::Down => Some(Action::SelectDown),
            Key::Char('k') | Key::Up => Some(Action::SelectUp),
            Key::Char('H') => Some(Action::MoveLeft),
            Key::Char('L') => Some(Action::MoveRight),
            Key::Enter => Some(Action::ToggleDetail),
            _ => None,
        }
    }
}

} // verus!
