//! The screens of the front end.

use crate::layout::{check_if_out_of_bound, Rect};
use crate::views::home::Home;
use crate::views::settings::Settings;
use crate::views::startup::StartUp;
use vstd::prelude::*;

pub mod home;
pub mod settings;
pub mod startup;

verus! {

/// The screen that is open.
#[derive(Debug)]
pub enum ScreenState {
    StartUp(StartUp),
    Home(Home),
    Settings(Settings),
}

impl ScreenState {
    /// The columns and rows that the screen needs.
    pub open spec fn spec_min_area(&self) -> (u16, u16) {
        match self {
            ScreenState::StartUp(_) => (36, 9),
            ScreenState::Home(_) => (40, 40),
            ScreenState::Settings(_) => (60, 15),
        }
    }

    /// The columns and rows that the screen needs.
    pub fn min_area(&self) -> (area: (u16, u16))
        ensures
            area == self.spec_min_area(),
    {
        match self {
            ScreenState::StartUp(screen) => screen.min_area(),
            ScreenState::Home(screen) => screen.min_area(),
            ScreenState::Settings(screen) => screen.min_area(),
        }
    }

    /// Whether the header of the application is drawn above the screen.
    pub fn needs_header(&self) -> (needed: bool)
        ensures
            needed == (self is StartUp),
    {
        match self {
            ScreenState::StartUp(_) => true,
            ScreenState::Home(screen) => screen.needs_header(),
            ScreenState::Settings(screen) => screen.needs_header(),
        }
    }

    /// Whether the terminal is too small for the popups or for this screen,
    /// and the size it would need.
    pub fn out_of_bound(&self, rect: Rect) -> (needed: Option<(u16, u16)>)
        ensures
            needed == if 36 > rect.width || 10 > rect.height {
                Some((36u16, 10u16))
            } else if self.spec_min_area().0 > rect.width || self.spec_min_area().1 > rect.height {
                Some(self.spec_min_area())
            } else {
                None
            },
    {
        check_if_out_of_bound(crate::popups::min_area(), self.min_area(), rect)
    }
}

} // verus!
