//! The first screen: a menu to log in, to register, or to leave.

use crate::components::button::{ButtonConfig, BUTTON_HEIGHT};
use crate::components::input::{DEFAULT_INPUT_WIDTH, PADDING};
use crate::key::{is_char, KeyCode, KeyEvent};
use vstd::prelude::*;

verus! {

/// Where the focus is.
#[derive(Debug, Clone, Copy, PartialEq, Eq, Structural)]
pub enum StartUpState {
    Login,
    Register,
    Quit,
}

/// The buttons of the menu.
#[derive(Debug, Clone, Copy, PartialEq, Eq, Structural)]
pub enum StartUpButton {
    Login,
    Register,
    Quit,
}

/// What a key press on the menu leads to.
#[derive(Debug, Clone, Copy, PartialEq, Eq, Structural)]
pub enum StartUpAction {
    /// The menu stays.
    Stay,
    /// The login screen opens.
    Login,
    /// The registration screen opens.
    Register,
    /// The application ends.
    Quit,
}

/// The menu.
#[derive(Debug, Clone, Copy, PartialEq, Eq, Structural)]
pub struct StartUp {
    pub state: StartUpState,
}

/// Whether the key moves the focus down: Down, Tab or `j`.
pub open spec fn moves_down(code: KeyCode) -> bool {
    code is Down || code is Tab || code == KeyCode::Char('j')
}

/// Whether the key moves the focus up: Up or `k`.
pub open spec fn moves_up(code: KeyCode) -> bool {
    code is Up || code == KeyCode::Char('k')
}

/// The focus after a key press. The menu wraps around at both ends.
pub open spec fn next_state(state: StartUpState, code: KeyCode) -> StartUpState {
    if code == KeyCode::Char('q') || code is Enter {
        state
    } else if moves_down(code) {
        match state {
            StartUpState::Login => StartUpState::Register,
            StartUpState::Register => StartUpState::Quit,
            StartUpState::Quit => StartUpState::Login,
        }
    } else if moves_up(code) {
        match state {
            StartUpState::Login => StartUpState::Quit,
            StartUpState::Register => StartUpState::Login,
            StartUpState::Quit => StartUpState::Register,
        }
    } else {
        state
    }
}

/// What a key press leads to: `q` ends the application wherever the focus
/// is, and Enter takes what has the focus.
pub open spec fn action_of(state: StartUpState, code: KeyCode) -> StartUpAction {
    if code == KeyCode::Char('q') {
        StartUpAction::Quit
    } else if code is Enter {
        match state {
            StartUpState::Login => StartUpAction::Login,
            StartUpState::Register => StartUpAction::Register,
            StartUpState::Quit => StartUpAction::Quit,
        }
    } else {
        StartUpAction::Stay
    }
}

impl StartUp {
    /// The menu with the focus on Login.
    pub fn new() -> (menu: Self)
        ensures
            menu.state == StartUpState::Login,
    {
        StartUp { state: StartUpState::Login }
    }

    /// The columns and rows of the menu: three buttons, one above the
    /// other, as wide as an input.
    pub fn min_area(&self) -> (area: (u16, u16))
        ensures
            area == ((DEFAULT_INPUT_WIDTH + 2 * PADDING) as u16, (3 * BUTTON_HEIGHT) as u16),
    {
        (DEFAULT_INPUT_WIDTH + 2 * PADDING, 3 * ButtonConfig::height())
    }

    /// What a button of the menu shows. It is lit while it has the focus.
    pub fn generate_button_config(&self, button: StartUpButton) -> (config: ButtonConfig)
        ensures
            config.focused == match button {
                StartUpButton::Login => self.state == StartUpState::Login,
                StartUpButton::Register => self.state == StartUpState::Register,
                StartUpButton::Quit => self.state == StartUpState::Quit,
            },
            config.text@ == match button {
                StartUpButton::Login => "Login"@,
                StartUpButton::Register => "Register"@,
                StartUpButton::Quit => "Quit"@,
            },
    {
        match button {
            StartUpButton::Login => ButtonConfig::new(
                match self.state {
                    StartUpState::Login => true,
                    _ => false,
                },
                "Login".to_owned(),
            ),
            StartUpButton::Register => ButtonConfig::new(
                match self.state {
                    StartUpState::Register => true,
                    _ => false,
                },
                "Register".to_owned(),
            ),
            StartUpButton::Quit => ButtonConfig::new(
                match self.state {
                    StartUpState::Quit => true,
                    _ => false,
                },
                "Quit".to_owned(),
            ),
        }
    }

    /// Takes a key press: moves the focus, or says which screen opens or
    /// that the application ends.
    pub fn handle_key(&mut self, key: &KeyEvent) -> (action: StartUpAction)
        ensures
            final(self).state == next_state(old(self).state, key.code),
            action == action_of(old(self).state, key.code),
    {
        let code = key.code;
        if is_char(&code, 'q') {
            return StartUpAction::Quit;
        }
        let down = matches!(code, KeyCode::Down | KeyCode::Tab) || is_char(&code, 'j');
        let up = matches!(code, KeyCode::Up) || is_char(&code, 'k');
        let enter = matches!(code, KeyCode::Enter);
        match self.state {
            StartUpState::Login => {
                if enter {
                    return StartUpAction::Login;
                } else if down {
                    self.state = StartUpState::Register;
                } else if up {
                    self.state = StartUpState::Quit;
                }
            },
            StartUpState::Register => {
                if enter {
                    return StartUpAction::Register;
                } else if down {
                    self.state = StartUpState::Quit;
                } else if up {
                    self.state = StartUpState::Login;
                }
            },
            StartUpState::Quit => {
                if enter {
                    return StartUpAction::Quit;
                } else if down {
                    self.state = StartUpState::Login;
                } else if up {
                    self.state = StartUpState::Register;
                }
            },
        }
        StartUpAction::Stay
    }
}

} // verus!
