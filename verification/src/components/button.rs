//! A button.

use vstd::prelude::*;

verus! {

/// Rows a button takes.
pub const BUTTON_HEIGHT: u16 = 3;

/// How a button is drawn: whether it has the focus, and its label.
#[derive(Debug)]
pub struct ButtonConfig {
    pub focused: bool,
    pub text: String,
}

impl ButtonConfig {
    pub fn new(focused: bool, text: String) -> (config: Self)
        ensures
            config.focused == focused,
            config.text == text,
    {
        ButtonConfig { focused, text }
    }

    /// Rows a button takes.
    pub fn height() -> (rows: u16)
        ensures
            rows == BUTTON_HEIGHT,
    {
        BUTTON_HEIGHT
    }
}

} // verus!
