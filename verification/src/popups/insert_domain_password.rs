//! The popup that asks for the domain and the secret of a new record.

use crate::components::button::{ButtonConfig, BUTTON_HEIGHT};
use crate::components::input::{
    Input, InputConfig, Window, DEFAULT_INPUT_WIDTH, INPUT_HEIGHT, PADDING,
};
use crate::key::{is_char, KeyCode, KeyEvent};
use crate::popups::PopupAction;
use vstd::prelude::*;

verus! {

/// The inputs of the popup.
#[derive(Debug, Clone, Copy, PartialEq, Eq, Structural)]
pub enum DomainPasswordInput {
    Domain,
    Password,
}

/// The buttons of the popup.
#[derive(Debug, Clone, Copy, PartialEq, Eq, Structural)]
pub enum DomainPasswordButton {
    Confirm,
    Quit,
}

/// Where the focus is.
#[derive(Debug, Clone, Copy, PartialEq, Eq, Structural)]
pub enum InsertDomainPasswordState {
    Domain,
    Password,
    Confirm,
    Quit,
}

/// How the popup was closed.
#[derive(Debug, Clone, Copy, PartialEq, Eq, Structural)]
pub enum InsertDomainPasswordExitState {
    Confirm,
    Quit,
}

/// The popup: the domain and the secret typed so far, the focus, how it was
/// closed if it was, and the cursor and window of each input.
#[derive(Debug)]
pub struct InsertDomainPassword {
    pub domain: String,
    pub password: String,
    pub state: InsertDomainPasswordState,
    pub exit_state: Option<InsertDomainPasswordExitState>,
    pub domain_cursor: u16,
    pub password_cursor: u16,
    pub domain_offset: u16,
    pub password_offset: u16,
}

/// Whether a key press in a state asks for a generated secret: Control and
/// `g` on the secret.
pub open spec fn generates(state: InsertDomainPasswordState, key: KeyEvent) -> bool {
    state == InsertDomainPasswordState::Password && key.code == KeyCode::Char('g') && key.control
}

/// The input that a key press in a state goes to, if it goes to one.
pub open spec fn typed_into(state: InsertDomainPasswordState, key: KeyEvent) -> Option<
    DomainPasswordInput,
> {
    let moves = key.code is Up || key.code is Down || key.code is Tab || key.code is Enter;
    match state {
        InsertDomainPasswordState::Domain => if moves {
            None
        } else {
            Some(DomainPasswordInput::Domain)
        },
        InsertDomainPasswordState::Password => if moves || generates(state, key) {
            None
        } else {
            Some(DomainPasswordInput::Password)
        },
        _ => None,
    }
}

/// How a key press in a state closes the popup, if it does.
pub open spec fn exit_by(state: InsertDomainPasswordState, code: KeyCode) -> Option<
    InsertDomainPasswordExitState,
> {
    if !(code is Enter) {
        None
    } else {
        match state {
            InsertDomainPasswordState::Quit => Some(InsertDomainPasswordExitState::Quit),
            InsertDomainPasswordState::Confirm => Some(InsertDomainPasswordExitState::Confirm),
            _ => None,
        }
    }
}

/// The focus after a key press.
pub open spec fn next_state(
    state: InsertDomainPasswordState,
    code: KeyCode,
) -> InsertDomainPasswordState {
    match state {
        InsertDomainPasswordState::Domain => match code {
            KeyCode::Up => InsertDomainPasswordState::Quit,
            KeyCode::Down | KeyCode::Tab | KeyCode::Enter => InsertDomainPasswordState::Password,
            _ => state,
        },
        InsertDomainPasswordState::Password => match code {
            KeyCode::Up => InsertDomainPasswordState::Domain,
            KeyCode::Down | KeyCode::Tab | KeyCode::Enter => InsertDomainPasswordState::Quit,
            _ => state,
        },
        InsertDomainPasswordState::Quit => match code {
            KeyCode::Up => InsertDomainPasswordState::Password,
            KeyCode::Right | KeyCode::Tab | KeyCode::Left => InsertDomainPasswordState::Confirm,
            KeyCode::Down => InsertDomainPasswordState::Domain,
            _ => state,
        },
        InsertDomainPasswordState::Confirm => match code {
            KeyCode::Left | KeyCode::Right => InsertDomainPasswordState::Quit,
            KeyCode::Down | KeyCode::Tab => InsertDomainPasswordState::Domain,
            KeyCode::Up => InsertDomainPasswordState::Password,
            _ => state,
        },
    }
}

impl InsertDomainPassword {
    /// An empty popup with the focus on the domain.
    pub fn new() -> (popup: Self)
        ensures
            popup.domain@ == Seq::<char>::empty(),
            popup.password@ == Seq::<char>::empty(),
            popup.state == InsertDomainPasswordState::Domain,
            popup.exit_state is None,
            popup.domain_cursor == 0,
            popup.password_cursor == 0,
            popup.domain_offset == 0,
            popup.password_offset == 0,
    {
        InsertDomainPassword {
            domain: String::new(),
            password: String::new(),
            state: InsertDomainPasswordState::Domain,
            exit_state: None,
            domain_cursor: 0,
            password_cursor: 0,
            domain_offset: 0,
            password_offset: 0,
        }
    }

    /// How the popup was closed, if it was.
    pub fn exit_state(&self) -> (exit: Option<InsertDomainPasswordExitState>)
        ensures
            exit == self.exit_state,
    {
        self.exit_state
    }

    /// The domain typed so far.
    pub fn domain(&self) -> (domain: String)
        ensures
            domain@ == self.domain@,
    {
        self.domain.clone()
    }

    /// The secret typed so far.
    pub fn password(&self) -> (password: String)
        ensures
            password@ == self.password@,
    {
        self.password.clone()
    }

    /// The columns and rows of the popup: two inputs above a row of
    /// buttons.
    pub open spec fn spec_min_area() -> (u16, u16) {
        ((DEFAULT_INPUT_WIDTH + 2 * PADDING) as u16, (2 * INPUT_HEIGHT + BUTTON_HEIGHT) as u16)
    }

    /// The columns and rows of the popup.
    pub fn min_area() -> (area: (u16, u16))
        ensures
            area == InsertDomainPassword::spec_min_area(),
    {
        let height = 2 * InputConfig::height() + ButtonConfig::height();
        let width = InputConfig::default_width();
        (width, height)
    }

    /// The text of an input.
    pub open spec fn text(&self, input: DomainPasswordInput) -> Seq<char> {
        match input {
            DomainPasswordInput::Domain => self.domain@,
            DomainPasswordInput::Password => self.password@,
        }
    }

    /// What editing sees of an input.
    pub open spec fn window(&self, input: DomainPasswordInput) -> Window {
        match input {
            DomainPasswordInput::Domain => Window {
                cursor: if self.state == InsertDomainPasswordState::Domain {
                    Some(self.domain_cursor)
                } else {
                    None
                },
                offset: self.domain_offset,
                width: None,
            },
            DomainPasswordInput::Password => Window {
                cursor: if self.state == InsertDomainPasswordState::Password {
                    Some(self.password_cursor)
                } else {
                    None
                },
                offset: self.password_offset,
                width: None,
            },
        }
    }

    /// What an input of the popup shows. It has a cursor while it has the
    /// focus; the secret is hidden.
    pub fn generate_input_config(&self, input: DomainPasswordInput) -> (config: InputConfig)
        ensures
            config.focused == match input {
                DomainPasswordInput::Domain => self.state == InsertDomainPasswordState::Domain,
                DomainPasswordInput::Password => self.state == InsertDomainPasswordState::Password,
            },
            config.value@ == self.text(input),
            config.hidden == (input == DomainPasswordInput::Password),
            config.title@ == match input {
                DomainPasswordInput::Domain => "Domain"@,
                DomainPasswordInput::Password => "Password"@,
            },
            config.window() == self.window(input),
    {
        match input {
            DomainPasswordInput::Domain => {
                let focused = match self.state {
                    InsertDomainPasswordState::Domain => true,
                    _ => false,
                };
                InputConfig::new(
                    focused,
                    self.domain(),
                    false,
                    "Domain".to_owned(),
                    if focused {
                        Some(self.domain_cursor)
                    } else {
                        None
                    },
                    self.domain_offset,
                    None,
                )
            },
            DomainPasswordInput::Password => {
                let focused = match self.state {
                    InsertDomainPasswordState::Password => true,
                    _ => false,
                };
                InputConfig::new(
                    focused,
                    self.password(),
                    true,
                    "Password".to_owned(),
                    if focused {
                        Some(self.password_cursor)
                    } else {
                        None
                    },
                    self.password_offset,
                    None,
                )
            },
        }
    }

    /// What a button of the popup shows. It is lit while it has the focus.
    pub fn generate_button_config(&self, input: DomainPasswordButton) -> (config: ButtonConfig)
        ensures
            config.focused == match input {
                DomainPasswordButton::Confirm => self.state == InsertDomainPasswordState::Confirm,
                DomainPasswordButton::Quit => self.state == InsertDomainPasswordState::Quit,
            },
            config.text@ == match input {
                DomainPasswordButton::Confirm => "Confirm"@,
                DomainPasswordButton::Quit => "Quit"@,
            },
    {
        match input {
            DomainPasswordButton::Confirm => ButtonConfig::new(
                match self.state {
                    InsertDomainPasswordState::Confirm => true,
                    _ => false,
                },
                "Confirm".to_owned(),
            ),
            DomainPasswordButton::Quit => ButtonConfig::new(
                match self.state {
                    InsertDomainPasswordState::Quit => true,
                    _ => false,
                },
                "Quit".to_owned(),
            ),
        }
    }

    /// Whether the popup can take the key press: a key that goes to an
    /// input must be one that the input can take.
    pub open spec fn handles(&self, key: KeyEvent) -> bool {
        typed_into(self.state, key) matches Some(input) ==> Input::handles(
            key.code,
            self.window(input),
            self.text(input),
        )
    }

    /// Whether `handle_key` can take the key press.
    pub fn accepts(&self, key: &KeyEvent) -> (accepted: bool)
        ensures
            accepted == self.handles(*key),
    {
        match key.code {
            KeyCode::Up | KeyCode::Down | KeyCode::Tab | KeyCode::Enter => {
                return true;
            },
            _ => {},
        }
        match self.state {
            InsertDomainPasswordState::Domain => {
                let config = self.generate_input_config(DomainPasswordInput::Domain);
                Input::accepts(key, &config, self.domain.as_str())
            },
            InsertDomainPasswordState::Password => {
                if is_char(&key.code, 'g') && key.control {
                    true
                } else {
                    let config = self.generate_input_config(DomainPasswordInput::Password);
                    Input::accepts(key, &config, self.password.as_str())
                }
            },
            _ => true,
        }
    }

    /// Takes the secret that was generated after `handle_key` asked for one.
    /// The cursor stays where it is.
    pub fn set_generated(&mut self, password: String)
        ensures
            final(self).password == password,
            final(self).domain == old(self).domain,
            final(self).state == old(self).state,
            final(self).exit_state == old(self).exit_state,
            final(self).domain_cursor == old(self).domain_cursor,
            final(self).password_cursor == old(self).password_cursor,
            final(self).domain_offset == old(self).domain_offset,
            final(self).password_offset == old(self).password_offset,
    {
        self.password = password;
    }

    /// Takes a key press.
    ///
    /// On an input, Up, Down, Tab and Enter move the focus, Control with `g`
    /// on the secret asks for a generated secret, and every other key edits
    /// the input. On a button, Enter closes the popup, as confirmed or as
    /// quit, and the arrow keys and Tab move the focus.
    pub fn handle_key(&mut self, key: &KeyEvent) -> (action: PopupAction)
        requires
            old(self).handles(*key),
        ensures
            final(self).state == next_state(old(self).state, key.code),
            action == if exit_by(old(self).state, key.code) is Some {
                PopupAction::Finish
            } else if generates(old(self).state, *key) {
                PopupAction::Generate
            } else {
                PopupAction::Stay
            },
            final(self).exit_state == if exit_by(old(self).state, key.code) is Some {
                exit_by(old(self).state, key.code)
            } else {
                old(self).exit_state
            },
            if typed_into(old(self).state, *key) == Some(DomainPasswordInput::Domain) {
                let after = Input::after_key(
                    key.code,
                    old(self).window(DomainPasswordInput::Domain),
                    old(self).domain@,
                );
                &&& final(self).domain@ == after.value
                &&& final(self).domain_cursor == after.cursor
                &&& final(self).domain_offset == after.offset
            } else {
                &&& final(self).domain@ == old(self).domain@
                &&& final(self).domain_cursor == old(self).domain_cursor
                &&& final(self).domain_offset == old(self).domain_offset
            },
            if typed_into(old(self).state, *key) == Some(DomainPasswordInput::Password) {
                let after = Input::after_key(
                    key.code,
                    old(self).window(DomainPasswordInput::Password),
                    old(self).password@,
                );
                &&& final(self).password@ == after.value
                &&& final(self).password_cursor == after.cursor
                &&& final(self).password_offset == after.offset
            } else {
                &&& final(self).password@ == old(self).password@
                &&& final(self).password_cursor == old(self).password_cursor
                &&& final(self).password_offset == old(self).password_offset
            },
    {
        match self.state {
            InsertDomainPasswordState::Domain => match key.code {
                KeyCode::Up => {
                    self.state = InsertDomainPasswordState::Quit;
                },
                KeyCode::Down | KeyCode::Tab | KeyCode::Enter => {
                    self.state = InsertDomainPasswordState::Password;
                },
                _ => {
                    let config = self.generate_input_config(DomainPasswordInput::Domain);
                    let (value, cursor_position, input_offset) = Input::handle_key(
                        key,
                        &config,
                        self.domain.as_str(),
                    );
                    self.domain = value;
                    self.domain_cursor = cursor_position;
                    self.domain_offset = input_offset;
                },
            },
            InsertDomainPasswordState::Password => match key.code {
                KeyCode::Up => {
                    self.state = InsertDomainPasswordState::Domain;
                },
                KeyCode::Down | KeyCode::Tab | KeyCode::Enter => {
                    self.state = InsertDomainPasswordState::Quit;
                },
                _ => {
                    if is_char(&key.code, 'g') && key.control {
                        return PopupAction::Generate;
                    }
                    let config = self.generate_input_config(DomainPasswordInput::Password);
                    let (value, cursor_position, input_offset) = Input::handle_key(
                        key,
                        &config,
                        self.password.as_str(),
                    );
                    self.password = value;
                    self.password_cursor = cursor_position;
                    self.password_offset = input_offset;
                },
            },
            InsertDomainPasswordState::Quit => match key.code {
                KeyCode::Enter => {
                    self.exit_state = Some(InsertDomainPasswordExitState::Quit);
                    return PopupAction::Finish;
                },
                KeyCode::Up => {
                    self.state = InsertDomainPasswordState::Password;
                },
                KeyCode::Right | KeyCode::Tab | KeyCode::Left => {
                    self.state = InsertDomainPasswordState::Confirm;
                },
                KeyCode::Down => {
                    self.state = InsertDomainPasswordState::Domain;
                },
                _ => {},
            },
            InsertDomainPasswordState::Confirm => match key.code {
                KeyCode::Enter => {
                    self.exit_state = Some(InsertDomainPasswordExitState::Confirm);
                    return PopupAction::Finish;
                },
                KeyCode::Left | KeyCode::Right => {
                    self.state = InsertDomainPasswordState::Quit;
                },
                KeyCode::Down | KeyCode::Tab => {
                    self.state = InsertDomainPasswordState::Domain;
                },
                KeyCode::Up => {
                    self.state = InsertDomainPasswordState::Password;
                },
                _ => {},
            },
        }
        PopupAction::Stay
    }
}

} // verus!
