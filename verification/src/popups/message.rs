//! The popup that shows a message until a key is pressed.

use crate::key::KeyEvent;
use crate::popups::PopupAction;
use crate::text::{line_count, lines_in};
use vstd::prelude::*;

verus! {

/// Columns of a message popup unless it is told otherwise.
pub const MESSAGE_WIDTH: u16 = 30;

/// Rows of a message popup unless it is told otherwise.
pub const MESSAGE_HEIGHT: u16 = 10;

/// A message and the size it is shown in.
#[derive(Debug)]
pub struct MessagePopup {
    pub message: String,
    pub width: u16,
    pub height: u16,
}

impl MessagePopup {
    /// A popup of the usual size.
    pub fn new(message: String) -> (popup: Self)
        ensures
            popup.message == message,
            popup.width == MESSAGE_WIDTH,
            popup.height == MESSAGE_HEIGHT,
    {
        MessagePopup { message, width: MESSAGE_WIDTH, height: MESSAGE_HEIGHT }
    }

    /// A popup of the size given.
    pub fn new_with_size(message: String, width: u16, height: u16) -> (popup: Self)
        ensures
            popup.message == message,
            popup.width == width,
            popup.height == height,
    {
        MessagePopup { message, width, height }
    }

    /// The columns and rows that a message popup needs at least.
    pub open spec fn spec_min_area() -> (u16, u16) {
        (MESSAGE_WIDTH, MESSAGE_HEIGHT)
    }

    /// The columns and rows that a message popup needs at least.
    pub fn min_area() -> (area: (u16, u16))
        ensures
            area == MessagePopup::spec_min_area(),
    {
        (MESSAGE_WIDTH, MESSAGE_HEIGHT)
    }

    /// Whether the message is laid out as a page, from the top and the left:
    /// one of more than three lines is; a shorter one stands in the middle.
    pub fn is_page(&self) -> (page: bool)
        ensures
            page == (lines_in(self.message@) > 3),
    {
        line_count(self.message.as_str(), 4) > 3
    }

    /// Any key closes the popup.
    pub fn handle_key(&mut self, key: &KeyEvent) -> (action: PopupAction)
        ensures
            action == PopupAction::Dismiss,
            *final(self) == *old(self),
    {
        PopupAction::Dismiss
    }
}

} // verus!
