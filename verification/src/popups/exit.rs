//! The popup that asks whether to leave.

use crate::key::{KeyCode, KeyEvent};
use crate::popups::PopupAction;
use vstd::prelude::*;

verus! {

/// The exit popup. It has no state.
#[derive(Debug, Clone, Copy, PartialEq, Eq, Structural)]
pub struct Exit {}

impl Exit {
    pub fn new() -> (popup: Self) {
        Exit {  }
    }

    /// The columns and rows of the popup.
    pub open spec fn spec_min_area() -> (u16, u16) {
        (30, 10)
    }

    /// The columns and rows of the popup.
    pub fn min_area() -> (area: (u16, u16))
        ensures
            area == Exit::spec_min_area(),
    {
        (30, 10)
    }

    /// `q` ends the application; every other key leaves things as they are.
    pub fn handle_key(&mut self, key: &KeyEvent) -> (action: PopupAction)
        ensures
            action == if key.code == KeyCode::Char('q') {
                PopupAction::Quit
            } else {
                PopupAction::Stay
            },
    {
        match key.code {
            KeyCode::Char(c) => if c == 'q' {
                PopupAction::Quit
            } else {
                PopupAction::Stay
            },
            _ => PopupAction::Stay,
        }
    }
}

} // verus!
