//! The popup that asks for the new secret of a record.

use crate::components::button::{ButtonConfig, BUTTON_HEIGHT};
use crate::components::input::{
    Input, InputConfig, Window, DEFAULT_INPUT_WIDTH, INPUT_HEIGHT, PADDING,
};
use crate::key::{is_char, KeyCode, KeyEvent};
use crate::popups::PopupAction;
use crate::text::chars_of;
use vstd::prelude::*;
use vstd::utf8::encode_utf8;

verus! {

/// The buttons of the popup.
#[derive(Debug, Clone, Copy, PartialEq, Eq, Structural)]
pub enum PasswordButton {
    Confirm,
    Quit,
}

/// Where the focus is.
#[derive(Debug, Clone, Copy, PartialEq, Eq, Structural)]
pub enum InsertPasswordState {
    Password,
    Confirm,
    Quit,
}

/// How the popup was closed.
#[derive(Debug, Clone, Copy, PartialEq, Eq, Structural)]
pub enum InsertPasswordExitState {
    Confirm,
    Quit,
}

/// The popup: the domain of the record, the secret typed so far, the focus,
/// how it was closed if it was, and the cursor and window of its input.
#[derive(Debug)]
pub struct InsertPassword {
    pub domain: String,
    pub password: String,
    pub state: InsertPasswordState,
    pub exit_state: Option<InsertPasswordExitState>,
    pub cursor: u16,
    pub input_offset: u16,
}

/// Whether a key press in a state asks for a generated secret: Control and
/// `g` on the input.
pub open spec fn generates(state: InsertPasswordState, key: KeyEvent) -> bool {
    state == InsertPasswordState::Password && key.code == KeyCode::Char('g') && key.control
}

/// Whether a key press in a state goes to the input.
pub open spec fn typed(state: InsertPasswordState, key: KeyEvent) -> bool {
    &&& state == InsertPasswordState::Password
    &&& !(key.code is Down || key.code is Tab || key.code is Enter || key.code is Up
        || key.code is Esc)
    &&& !generates(state, key)
}

/// How a key press in a state closes the popup, if it does.
pub open spec fn exit_by(state: InsertPasswordState, code: KeyCode) -> Option<
    InsertPasswordExitState,
> {
    match state {
        InsertPasswordState::Password => if code is Esc {
            Some(InsertPasswordExitState::Quit)
        } else {
            None
        },
        InsertPasswordState::Quit => if code is Enter || code is Esc || code == KeyCode::Char('q') {
            Some(InsertPasswordExitState::Quit)
        } else {
            None
        },
        InsertPasswordState::Confirm => if code is Enter {
            Some(InsertPasswordExitState::Confirm)
        } else if code is Esc || code == KeyCode::Char('q') {
            Some(InsertPasswordExitState::Quit)
        } else {
            None
        },
    }
}

/// The focus after a key press.
pub open spec fn next_state(state: InsertPasswordState, code: KeyCode) -> InsertPasswordState {
    match state {
        InsertPasswordState::Password => if code is Down || code is Tab || code is Enter
            || code is Up {
            InsertPasswordState::Quit
        } else {
            state
        },
        InsertPasswordState::Quit => if code is Up || code is Down || code == KeyCode::Char('k')
            || code == KeyCode::Char('j') {
            InsertPasswordState::Password
        } else if code is Right || code is Tab || code is Left || code == KeyCode::Char('h')
            || code == KeyCode::Char('l') {
            InsertPasswordState::Confirm
        } else {
            state
        },
        InsertPasswordState::Confirm => if code is Left || code is Right || code == KeyCode::Char(
            'h',
        ) || code == KeyCode::Char('l') {
            InsertPasswordState::Quit
        } else if code is Down || code is Tab || code is Up || code == KeyCode::Char('j') || code
            == KeyCode::Char('k') {
            InsertPasswordState::Password
        } else {
            state
        },
    }
}

impl InsertPassword {
    /// An empty popup for the record of `domain`, with the focus on the
    /// input.
    pub fn new(domain: String) -> (popup: Self)
        ensures
            popup.domain == domain,
            popup.password@ == Seq::<char>::empty(),
            popup.state == InsertPasswordState::Password,
            popup.exit_state is None,
            popup.cursor == 0,
            popup.input_offset == 0,
    {
        InsertPassword {
            domain,
            password: String::new(),
            state: InsertPasswordState::Password,
            exit_state: None,
            cursor: 0,
            input_offset: 0,
        }
    }

    /// The secret typed so far.
    pub fn password(&self) -> (password: String)
        ensures
            password@ == self.password@,
    {
        self.password.clone()
    }

    /// How the popup was closed, if it was.
    pub fn exit_state(&self) -> (exit: Option<InsertPasswordExitState>)
        ensures
            exit == self.exit_state,
    {
        self.exit_state
    }

    /// The columns and rows of the popup: the domain, an input, and a row
    /// of buttons.
    pub open spec fn spec_min_area() -> (u16, u16) {
        ((DEFAULT_INPUT_WIDTH + 2 * PADDING) as u16, (INPUT_HEIGHT * 2 + BUTTON_HEIGHT) as u16)
    }

    /// The columns and rows of the popup.
    pub fn min_area() -> (area: (u16, u16))
        ensures
            area == InsertPassword::spec_min_area(),
    {
        (InputConfig::default_width(), InputConfig::height() * 2 + ButtonConfig::height())
    }

    /// The domain as the popup shows it: one of more bytes than an input
    /// shows columns is cut to three characters less and ends in three dots.
    pub open spec fn label(domain: Seq<char>) -> Seq<char> {
        if encode_utf8(domain).len() > DEFAULT_INPUT_WIDTH {
            let kept = if domain.len() < DEFAULT_INPUT_WIDTH - 3 {
                domain.len() as int
            } else {
                DEFAULT_INPUT_WIDTH - 3
            };
            domain.take(kept) + seq!['.', '.', '.']
        } else {
            domain
        }
    }

    /// The domain as the popup shows it.
    pub fn domain_label(&self) -> (label: String)
        ensures
            label@ == InsertPassword::label(self.domain@),
    {
        if self.domain.as_str().as_bytes().len() <= DEFAULT_INPUT_WIDTH as usize {
            return self.domain.clone();
        }
        let chars = chars_of(self.domain.as_str());
        let mut label = String::new();
        let mut i: usize = 0;
        assert(label@ =~= chars@.take(0));
        while i < chars.len() && i < (DEFAULT_INPUT_WIDTH - 3) as usize
            invariant
                i <= chars.len(),
                i <= DEFAULT_INPUT_WIDTH - 3,
                label@ == chars@.take(i as int),
            decreases chars.len() - i,
        {
            label.push(chars[i]);
            i = i + 1;
            assert(label@ =~= chars@.take(i as int));
        }
        label.push('.');
        label.push('.');
        label.push('.');
        assert(label@ =~= chars@.take(i as int) + seq!['.', '.', '.']);
        label
    }

    /// What editing sees of the input.
    pub open spec fn window(&self) -> Window {
        Window {
            cursor: if self.state == InsertPasswordState::Password {
                Some(self.cursor)
            } else {
                None
            },
            offset: self.input_offset,
            width: None,
        }
    }

    /// What the input of the popup shows. It has a cursor while it has the
    /// focus.
    pub fn generate_input_config(&self) -> (config: InputConfig)
        ensures
            config.focused == (self.state == InsertPasswordState::Password),
            config.value@ == self.password@,
            config.hidden,
            config.title@ == "Password | CTRL + g - generate"@,
            config.window() == self.window(),
    {
        let focused = match self.state {
            InsertPasswordState::Password => true,
            _ => false,
        };
        InputConfig::new(
            focused,
            self.password(),
            true,
            "Password | CTRL + g - generate".to_owned(),
            if focused {
                Some(self.cursor)
            } else {
                None
            },
            self.input_offset,
            None,
        )
    }

    /// What a button of the popup shows. It is lit while it has the focus.
    pub fn generate_button_config(&self, input: PasswordButton) -> (config: ButtonConfig)
        ensures
            config.focused == match input {
                PasswordButton::Confirm => self.state == InsertPasswordState::Confirm,
                PasswordButton::Quit => self.state == InsertPasswordState::Quit,
            },
            config.text@ == match input {
                PasswordButton::Confirm => "Confirm"@,
                PasswordButton::Quit => "Quit"@,
            },
    {
        match input {
            PasswordButton::Confirm => ButtonConfig::new(
                match self.state {
                    InsertPasswordState::Confirm => true,
                    _ => false,
                },
                "Confirm".to_owned(),
            ),
            PasswordButton::Quit => ButtonConfig::new(
                match self.state {
                    InsertPasswordState::Quit => true,
                    _ => false,
                },
                "Quit".to_owned(),
            ),
        }
    }

    /// Whether the popup can take the key press: a key that goes to the
    /// input must be one that the input can take.
    pub open spec fn handles(&self, key: KeyEvent) -> bool {
        typed(self.state, key) ==> Input::handles(key.code, self.window(), self.password@)
    }

    /// Whether `handle_key` can take the key press.
    pub fn accepts(&self, key: &KeyEvent) -> (accepted: bool)
        ensures
            accepted == self.handles(*key),
    {
        match self.state {
            InsertPasswordState::Password => match key.code {
                KeyCode::Down | KeyCode::Tab | KeyCode::Enter | KeyCode::Up | KeyCode::Esc => true,
                _ => {
                    if is_char(&key.code, 'g') && key.control {
                        true
                    } else {
                        let config = self.generate_input_config();
                        Input::accepts(key, &config, self.password.as_str())
                    }
                },
            },
            _ => true,
        }
    }

    /// Takes the secret that was generated after `handle_key` asked for one.
    /// The cursor goes back to the start.
    pub fn set_generated(&mut self, password: String)
        ensures
            final(self).password == password,
            final(self).cursor == 0,
            final(self).input_offset == 0,
            final(self).domain == old(self).domain,
            final(self).state == old(self).state,
            final(self).exit_state == old(self).exit_state,
    {
        self.password = password;
        self.cursor = 0;
        self.input_offset = 0;
    }

    /// Takes a key press.
    ///
    /// With the focus on the input, Down, Tab, Enter and Up move it to the
    /// Quit button, Control with `g` asks for a generated secret, Esc closes
    /// the popup as quit, and every other key edits the secret. On a button,
    /// Enter closes the popup, as confirmed or as quit, and so do Esc and
    /// `q`, as quit; the arrow keys, Tab and `h` `j` `k` `l` move the focus.
    pub fn handle_key(&mut self, key: &KeyEvent) -> (action: PopupAction)
        requires
            old(self).handles(*key),
        ensures
            final(self).domain == old(self).domain,
            final(self).state == next_state(old(self).state, key.code),
            action == if exit_by(old(self).state, key.code) is Some {
                PopupAction::Finish
            } else if generates(old(self).state, *key) {
                PopupAction::Generate
            } else {
                PopupAction::Stay
            },
            final(self).exit_state == if exit_by(old(self).state, key.code) is Some {
                exit_by(old(self).state, key.code)
            } else {
                old(self).exit_state
            },
            if typed(old(self).state, *key) {
                let after = Input::after_key(key.code, old(self).window(), old(self).password@);
                &&& final(self).password@ == after.value
                &&& final(self).cursor == after.cursor
                &&& final(self).input_offset == after.offset
            } else {
                &&& final(self).password@ == old(self).password@
                &&& final(self).cursor == old(self).cursor
                &&& final(self).input_offset == old(self).input_offset
            },
    {
        let code = key.code;
        match self.state {
            InsertPasswordState::Password => match code {
                KeyCode::Down | KeyCode::Tab | KeyCode::Enter | KeyCode::Up => {
                    self.state = InsertPasswordState::Quit;
                },
                KeyCode::Esc => {
                    self.exit_state = Some(InsertPasswordExitState::Quit);
                    return PopupAction::Finish;
                },
                _ => {
                    if is_char(&code, 'g') && key.control {
                        return PopupAction::Generate;
                    }
                    let config = self.generate_input_config();
                    let (value, cursor_position, input_offset) = Input::handle_key(
                        key,
                        &config,
                        self.password.as_str(),
                    );
                    self.password = value;
                    self.cursor = cursor_position;
                    self.input_offset = input_offset;
                },
            },
            InsertPasswordState::Quit => {
                if matches!(code, KeyCode::Enter | KeyCode::Esc) || is_char(&code, 'q') {
                    self.exit_state = Some(InsertPasswordExitState::Quit);
                    return PopupAction::Finish;
                } else if matches!(code, KeyCode::Up | KeyCode::Down) || is_char(&code, 'k')
                    || is_char(&code, 'j') {
                    self.state = InsertPasswordState::Password;
                } else if matches!(code, KeyCode::Right | KeyCode::Tab | KeyCode::Left) || is_char(
                    &code,
                    'h',
                ) || is_char(&code, 'l') {
                    self.state = InsertPasswordState::Confirm;
                }
            },
            InsertPasswordState::Confirm => {
                if matches!(code, KeyCode::Enter) {
                    self.exit_state = Some(InsertPasswordExitState::Confirm);
                    return PopupAction::Finish;
                } else if matches!(code, KeyCode::Left | KeyCode::Right) || is_char(&code, 'h')
                    || is_char(&code, 'l') {
                    self.state = InsertPasswordState::Quit;
                } else if matches!(code, KeyCode::Down | KeyCode::Tab | KeyCode::Up) || is_char(
                    &code,
                    'j',
                ) || is_char(&code, 'k') {
                    self.state = InsertPasswordState::Password;
                } else if matches!(code, KeyCode::Esc) || is_char(&code, 'q') {
                    self.exit_state = Some(InsertPasswordExitState::Quit);
                    return PopupAction::Finish;
                }
            },
        }
        PopupAction::Stay
    }
}

} // verus!
