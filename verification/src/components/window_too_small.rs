//! The notice shown while the terminal is smaller than a screen needs.

use crate::text::{decimal_digits, push_decimal};
use vstd::prelude::*;

verus! {

/// The size that the terminal would need.
#[derive(Debug, Clone, Copy, PartialEq, Eq, Structural)]
pub struct WindowTooSmallConfig {
    pub min_width: u16,
    pub min_height: u16,
}

/// The notice itself.
#[derive(Debug)]
pub struct WindowTooSmall {}

impl WindowTooSmallConfig {
    pub fn new(min_width: u16, min_height: u16) -> (config: Self)
        ensures
            config == (WindowTooSmallConfig { min_width, min_height }),
    {
        WindowTooSmallConfig { min_width, min_height }
    }
}

impl WindowTooSmall {
    /// The notice: that the window is too small, and the size it needs as
    /// columns `x` rows.
    pub fn message(config: &WindowTooSmallConfig) -> (text: String)
        ensures
            text@ == "The window is too small. The minimum size is "@ + decimal_digits(
                config.min_width as nat,
            ) + seq!['x'] + decimal_digits(config.min_height as nat) + seq!['.'],
    {
        let mut text = "The window is too small. The minimum size is ".to_owned();
        push_decimal(&mut text, config.min_width);
        text.push('x');
        push_decimal(&mut text, config.min_height);
        text.push('.');
        text
    }
}

} // verus!
