//! The popup that asks for the master password.

use crate::components::button::{ButtonConfig, BUTTON_HEIGHT};
use crate::components::input::{
    Input, InputConfig, Window, DEFAULT_INPUT_WIDTH, INPUT_HEIGHT, PADDING,
};
use crate::key::{KeyCode, KeyEvent};
use crate::popups::PopupAction;
use vstd::prelude::*;

verus! {

/// The buttons of the popup.
#[derive(Debug, Clone, Copy, PartialEq, Eq, Structural)]
pub enum MasterPasswordButton {
    Confirm,
    Quit,
}

/// Where the focus is.
#[derive(Debug, Clone, Copy, PartialEq, Eq, Structural)]
pub enum InsertMasterState {
    Master,
    Confirm,
    Quit,
}

/// How the popup was closed.
#[derive(Debug, Clone, Copy, PartialEq, Eq, Structural)]
pub enum InsertMasterExitState {
    Confirm,
    Quit,
}

/// The popup: the password typed so far, the focus, how it was closed if it
/// was, and the cursor and window of its input.
#[derive(Debug)]
pub struct InsertMaster {
    pub master: String,
    pub state: InsertMasterState,
    pub exit_state: Option<InsertMasterExitState>,
    pub cursor: u16,
    pub input_offset: u16,
}

/// Whether a key press in a state goes to the input.
pub open spec fn typed(state: InsertMasterState, code: KeyCode) -> bool {
    state == InsertMasterState::Master && !(code is Down || code is Tab || code is Enter
        || code is Up)
}

/// Whether a key press in a state closes the popup.
pub open spec fn closes(state: InsertMasterState, code: KeyCode) -> bool {
    state != InsertMasterState::Master && code is Enter
}

/// The focus after a key press.
pub open spec fn next_state(state: InsertMasterState, code: KeyCode) -> InsertMasterState {
    match state {
        InsertMasterState::Master => match code {
            KeyCode::Down | KeyCode::Tab | KeyCode::Enter | KeyCode::Up => InsertMasterState::Quit,
            _ => state,
        },
        InsertMasterState::Quit => match code {
            KeyCode::Up | KeyCode::Down => InsertMasterState::Master,
            KeyCode::Right | KeyCode::Tab | KeyCode::Left => InsertMasterState::Confirm,
            _ => state,
        },
        InsertMasterState::Confirm => match code {
            KeyCode::Left | KeyCode::Right => InsertMasterState::Quit,
            KeyCode::Down | KeyCode::Tab | KeyCode::Up => InsertMasterState::Master,
            _ => state,
        },
    }
}

impl InsertMaster {
    /// An empty popup with the focus on the input.
    pub fn new() -> (popup: Self)
        ensures
            popup.master@ == Seq::<char>::empty(),
            popup.state == InsertMasterState::Master,
            popup.exit_state is None,
            popup.cursor == 0,
            popup.input_offset == 0,
    {
        InsertMaster {
            master: String::new(),
            state: InsertMasterState::Master,
            exit_state: None,
            cursor: 0,
            input_offset: 0,
        }
    }

    /// The password typed so far.
    pub fn master(&self) -> (master: String)
        ensures
            master@ == self.master@,
    {
        self.master.clone()
    }

    /// How the popup was closed, if it was.
    pub fn exit_state(&self) -> (exit: Option<InsertMasterExitState>)
        ensures
            exit == self.exit_state,
    {
        self.exit_state
    }

    /// The columns and rows of the popup: an input above a row of buttons.
    pub open spec fn spec_min_area() -> (u16, u16) {
        ((DEFAULT_INPUT_WIDTH + 2 * PADDING) as u16, (INPUT_HEIGHT + BUTTON_HEIGHT) as u16)
    }

    /// The columns and rows of the popup.
    pub fn min_area() -> (area: (u16, u16))
        ensures
            area == InsertMaster::spec_min_area(),
    {
        (InputConfig::default_width(), InputConfig::height() + ButtonConfig::height())
    }

    /// What the input of the popup shows. It has a cursor while it has the
    /// focus.
    pub fn generate_input_config(&self) -> (config: InputConfig)
        ensures
            config.focused == (self.state == InsertMasterState::Master),
            config.value@ == self.master@,
            config.hidden,
            config.title@ == "Master password"@,
            config.window() == self.window(),
    {
        let focused = match self.state {
            InsertMasterState::Master => true,
            _ => false,
        };
        InputConfig::new(
            focused,
            self.master(),
            true,
            "Master password".to_owned(),
            if focused {
                Some(self.cursor)
            } else {
                None
            },
            self.input_offset,
            None,
        )
    }

    /// What a button of the popup shows. It is lit while it has the focus.
    pub fn generate_button_config(&self, input: MasterPasswordButton) -> (config: ButtonConfig)
        ensures
            config.focused == match input {
                MasterPasswordButton::Confirm => self.state == InsertMasterState::Confirm,
                MasterPasswordButton::Quit => self.state == InsertMasterState::Quit,
            },
            config.text@ == match input {
                MasterPasswordButton::Confirm => "Confirm"@,
                MasterPasswordButton::Quit => "Quit"@,
            },
    {
        match input {
            MasterPasswordButton::Confirm => ButtonConfig::new(
                match self.state {
                    InsertMasterState::Confirm => true,
                    _ => false,
                },
                "Confirm".to_owned(),
            ),
            MasterPasswordButton::Quit => ButtonConfig::new(
                match self.state {
                    InsertMasterState::Quit => true,
                    _ => false,
                },
                "Quit".to_owned(),
            ),
        }
    }

    /// What editing sees of the input.
    pub open spec fn window(&self) -> Window {
        Window {
            cursor: if self.state == InsertMasterState::Master {
                Some(self.cursor)
            } else {
                None
            },
            offset: self.input_offset,
            width: None,
        }
    }

    /// Whether the popup can take the key press: a key that goes to the
    /// input must be one that the input can take.
    pub open spec fn handles(&self, key: KeyEvent) -> bool {
        typed(self.state, key.code) ==> Input::handles(key.code, self.window(), self.master@)
    }

    /// Whether `handle_key` can take the key press.
    pub fn accepts(&self, key: &KeyEvent) -> (accepted: bool)
        ensures
            accepted == self.handles(*key),
    {
        match self.state {
            InsertMasterState::Master => match key.code {
                KeyCode::Down | KeyCode::Tab | KeyCode::Enter | KeyCode::Up => true,
                _ => {
                    let config = self.generate_input_config();
                    Input::accepts(key, &config, self.master.as_str())
                },
            },
            _ => true,
        }
    }

    /// Takes a key press.
    ///
    /// With the focus on the input, Down, Tab, Enter and Up move it to the
    /// Quit button and every other key edits the password. On a button,
    /// Enter closes the popup, as confirmed or as quit; the arrow keys and
    /// Tab move the focus. The popup is handed to the screen below when it
    /// closes.
    pub fn handle_key(&mut self, key: &KeyEvent) -> (action: PopupAction)
        requires
            old(self).handles(*key),
        ensures
            final(self).state == next_state(old(self).state, key.code),
            action == if closes(old(self).state, key.code) {
                PopupAction::Finish
            } else {
                PopupAction::Stay
            },
            final(self).exit_state == if closes(old(self).state, key.code) {
                if old(self).state == InsertMasterState::Quit {
                    Some(InsertMasterExitState::Quit)
                } else {
                    Some(InsertMasterExitState::Confirm)
                }
            } else {
                old(self).exit_state
            },
            if typed(old(self).state, key.code) {
                let after = Input::after_key(key.code, old(self).window(), old(self).master@);
                &&& final(self).master@ == after.value
                &&& final(self).cursor == after.cursor
                &&& final(self).input_offset == after.offset
            } else {
                &&& final(self).master@ == old(self).master@
                &&& final(self).cursor == old(self).cursor
                &&& final(self).input_offset == old(self).input_offset
            },
    {
        match self.state {
            InsertMasterState::Master => match key.code {
                KeyCode::Down | KeyCode::Tab | KeyCode::Enter | KeyCode::Up => {
                    self.state = InsertMasterState::Quit;
                },
                _ => {
                    let config = self.generate_input_config();
                    let (value, cursor_position, input_offset) = Input::handle_key(
                        key,
                        &config,
                        self.master.as_str(),
                    );
                    self.master = value;
                    self.cursor = cursor_position;
                    self.input_offset = input_offset;
                },
            },
            InsertMasterState::Quit => match key.code {
                KeyCode::Enter => {
                    self.exit_state = Some(InsertMasterExitState::Quit);
                    return PopupAction::Finish;
                },
                KeyCode::Up | KeyCode::Down => {
                    self.state = InsertMasterState::Master;
                },
                KeyCode::Right | KeyCode::Tab | KeyCode::Left => {
                    self.state = InsertMasterState::Confirm;
                },
                _ => {},
            },
            InsertMasterState::Confirm => match key.code {
                KeyCode::Enter => {
                    self.exit_state = Some(InsertMasterExitState::Confirm);
                    return PopupAction::Finish;
                },
                KeyCode::Left | KeyCode::Right => {
                    self.state = InsertMasterState::Quit;
                },
                KeyCode::Down | KeyCode::Tab | KeyCode::Up => {
                    self.state = InsertMasterState::Master;
                },
                _ => {},
            },
        }
        PopupAction::Stay
    }
}

} // verus!
