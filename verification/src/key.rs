//! Key presses as the front end's state logic sees them.

use vstd::prelude::*;

verus! {

/// The key that was pressed. Keys that no screen reacts to are `Other`.
#[derive(Debug, Clone, Copy, PartialEq, Eq, Structural)]
pub enum KeyCode {
    Char(char),
    Backspace,
    Delete,
    Left,
    Right,
    Up,
    Down,
    Tab,
    Enter,
    Esc,
    Other,
}

/// A key press: the key, and whether Control was held.
#[derive(Debug, Clone, Copy, PartialEq, Eq, Structural)]
pub struct KeyEvent {
    pub code: KeyCode,
    pub control: bool,
}

impl KeyEvent {
    pub fn new(code: KeyCode, control: bool) -> (key: Self)
        ensures
            key == (KeyEvent { code, control }),
    {
        KeyEvent { code, control }
    }
}

/// Whether the key is the character given.
pub fn is_char(code: &KeyCode, c: char) -> (same: bool)
    ensures
        same == (*code == KeyCode::Char(c)),
{
    match code {
        KeyCode::Char(typed) => *typed == c,
        _ => false,
    }
}

} // verus!
