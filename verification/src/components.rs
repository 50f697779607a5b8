//! The building blocks of the screens.

pub mod button;
pub mod input;
pub mod window_too_small;
