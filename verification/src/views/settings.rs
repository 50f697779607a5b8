//! The settings screen: which classes a generated secret shows.

use crate::generator::Config;
use crate::key::{is_char, KeyCode, KeyEvent};
use vstd::prelude::*;

verus! {

/// The lines of the screen.
#[derive(Debug, Clone, Copy, PartialEq, Eq, Structural)]
pub enum SettingsOption {
    IncludeNumbers,
    IncludeSpecialChars,
    Save,
    Back,
}

/// What a key press on the screen leads to.
#[derive(Debug, Clone, Copy, PartialEq, Eq, Structural)]
pub enum SettingsAction {
    /// The screen stays.
    Stay,
    /// The settings are to be written down; `saved` takes the outcome.
    Save,
    /// The first screen opens again, and what was not saved is lost.
    Back,
}

/// The screen: the line that has the focus, the settings as they are being
/// edited and as they were last saved, and whether the two differ.
#[derive(Debug, Clone, Copy, PartialEq, Eq, Structural)]
pub struct Settings {
    pub selected_option: SettingsOption,
    pub config: Config,
    pub original_config: Config,
    pub has_unsaved_changes: bool,
}

/// The line below; the last line wraps to the first.
pub open spec fn option_below(option: SettingsOption) -> SettingsOption {
    match option {
        SettingsOption::IncludeNumbers => SettingsOption::IncludeSpecialChars,
        SettingsOption::IncludeSpecialChars => SettingsOption::Save,
        SettingsOption::Save => SettingsOption::Back,
        SettingsOption::Back => SettingsOption::IncludeNumbers,
    }
}

/// The line above; the first line wraps to the last.
pub open spec fn option_above(option: SettingsOption) -> SettingsOption {
    match option {
        SettingsOption::IncludeNumbers => SettingsOption::Back,
        SettingsOption::IncludeSpecialChars => SettingsOption::IncludeNumbers,
        SettingsOption::Save => SettingsOption::IncludeSpecialChars,
        SettingsOption::Back => SettingsOption::Save,
    }
}

/// Whether the key moves down, moves up, selects, or leaves.
pub open spec fn is_down(code: KeyCode) -> bool {
    code is Down || code == KeyCode::Char('j')
}

pub open spec fn is_up(code: KeyCode) -> bool {
    code is Up || code == KeyCode::Char('k')
}

pub open spec fn is_select(code: KeyCode) -> bool {
    code is Enter || code == KeyCode::Char(' ')
}

pub open spec fn is_leave(code: KeyCode) -> bool {
    code is Esc || code == KeyCode::Char('q')
}

/// The screen after a key press.
pub open spec fn after_key(screen: Settings, code: KeyCode) -> Settings {
    if is_down(code) {
        Settings { selected_option: option_below(screen.selected_option), ..screen }
    } else if is_up(code) {
        Settings { selected_option: option_above(screen.selected_option), ..screen }
    } else if is_select(code) {
        match screen.selected_option {
            SettingsOption::IncludeNumbers => {
                let config = Config {
                    password_config: crate::generator::PasswordConfig {
                        include_numbers: !screen.config.password_config.include_numbers,
                        ..screen.config.password_config
                    },
                };
                Settings { config, has_unsaved_changes: config != screen.original_config, ..screen }
            },
            SettingsOption::IncludeSpecialChars => {
                let config = Config {
                    password_config: crate::generator::PasswordConfig {
                        include_special: !screen.config.password_config.include_special,
                        ..screen.config.password_config
                    },
                };
                Settings { config, has_unsaved_changes: config != screen.original_config, ..screen }
            },
            _ => screen,
        }
    } else {
        screen
    }
}

/// What a key press leads to.
pub open spec fn action_of(screen: Settings, code: KeyCode) -> SettingsAction {
    if is_down(code) || is_up(code) {
        SettingsAction::Stay
    } else if is_select(code) {
        match screen.selected_option {
            SettingsOption::Save => SettingsAction::Save,
            SettingsOption::Back => SettingsAction::Back,
            _ => SettingsAction::Stay,
        }
    } else if is_leave(code) {
        SettingsAction::Back
    } else {
        SettingsAction::Stay
    }
}

impl Settings {
    /// The screen for the settings that were loaded, with the focus on the
    /// first line.
    pub fn new(config: Config) -> (screen: Self)
        ensures
            screen == (Settings {
                selected_option: SettingsOption::IncludeNumbers,
                config,
                original_config: config,
                has_unsaved_changes: false,
            }),
    {
        Settings {
            selected_option: SettingsOption::IncludeNumbers,
            config,
            original_config: config,
            has_unsaved_changes: false,
        }
    }

    /// Notes whether the settings differ from what was last saved.
    pub fn update_unsaved_changes(&mut self)
        ensures
            *final(self) == (Settings {
                has_unsaved_changes: old(self).config != old(self).original_config,
                ..*old(self)
            }),
    {
        self.has_unsaved_changes = self.config != self.original_config;
    }

    /// The columns and rows that the screen needs.
    pub fn min_area(&self) -> (area: (u16, u16))
        ensures
            area == (60u16, 15u16),
    {
        (60, 15)
    }

    /// The screen draws no header.
    pub fn needs_header(&self) -> (needed: bool)
        ensures
            !needed,
    {
        false
    }

    /// The title of the screen: it carries a star while changes are not
    /// saved.
    pub fn title(&self) -> (title: &'static str)
        ensures
            title@ == if self.has_unsaved_changes {
                "Settings *"@
            } else {
                "Settings"@
            },
    {
        if self.has_unsaved_changes {
            "Settings *"
        } else {
            "Settings"
        }
    }

    /// The label of a line: a class shows a cross in its box while it is
    /// included.
    pub fn label(&self, option: SettingsOption) -> (label: &'static str)
        ensures
            label@ == match option {
                SettingsOption::IncludeNumbers => if self.config.password_config.include_numbers {
                    "[x] Include Numbers"@
                } else {
                    "[ ] Include Numbers"@
                },
                SettingsOption::IncludeSpecialChars => if self.config.password_config.include_special {
                    "[x] Include Special Characters"@
                } else {
                    "[ ] Include Special Characters"@
                },
                SettingsOption::Save => "Save Settings"@,
                SettingsOption::Back => "< Back"@,
            },
    {
        match option {
            SettingsOption::IncludeNumbers => if self.config.password_config.include_numbers {
                "[x] Include Numbers"
            } else {
                "[ ] Include Numbers"
            },
            SettingsOption::IncludeSpecialChars => if self.config.password_config.include_special {
                "[x] Include Special Characters"
            } else {
                "[ ] Include Special Characters"
            },
            SettingsOption::Save => "Save Settings",
            SettingsOption::Back => "< Back",
        }
    }

    /// The lines of the screen from top to bottom: the label of each, and
    /// whether it has the focus.
    pub fn get_settings_items(&self) -> (items: Vec<(&'static str, bool)>)
        ensures
            items@.len() == 4,
            items@[0].1 == (self.selected_option == SettingsOption::IncludeNumbers),
            items@[1].1 == (self.selected_option == SettingsOption::IncludeSpecialChars),
            items@[2].1 == (self.selected_option == SettingsOption::Save),
            items@[3].1 == (self.selected_option == SettingsOption::Back),
            items@[0].0@ == if self.config.password_config.include_numbers {
                "[x] Include Numbers"@
            } else {
                "[ ] Include Numbers"@
            },
            items@[1].0@ == if self.config.password_config.include_special {
                "[x] Include Special Characters"@
            } else {
                "[ ] Include Special Characters"@
            },
            items@[2].0@ == "Save Settings"@,
            items@[3].0@ == "< Back"@,
    {
        let selected = self.selected_option;
        let mut items: Vec<(&'static str, bool)> = Vec::new();
        items.push(
            (
                self.label(SettingsOption::IncludeNumbers),
                matches!(selected, SettingsOption::IncludeNumbers),
            ),
        );
        items.push(
            (
                self.label(SettingsOption::IncludeSpecialChars),
                matches!(selected, SettingsOption::IncludeSpecialChars),
            ),
        );
        items.push((self.label(SettingsOption::Save), matches!(selected, SettingsOption::Save)));
        items.push((self.label(SettingsOption::Back), matches!(selected, SettingsOption::Back)));
        items
    }

    /// Notes that the settings were written down: nothing is unsaved any
    /// more.
    pub fn saved(&mut self)
        ensures
            *final(self) == (Settings {
                original_config: old(self).config,
                has_unsaved_changes: false,
                ..*old(self)
            }),
    {
        self.original_config = self.config;
        self.has_unsaved_changes = false;
    }

    /// Takes a key press.
    ///
    /// Down and `j`, Up and `k` move the focus and wrap around. Enter and
    /// Space toggle the class that has the focus, ask for the settings to be
    /// saved, or go back. Esc and `q` go back.
    pub fn handle_key(&mut self, key: &KeyEvent) -> (action: SettingsAction)
        ensures
            *final(self) == after_key(*old(self), key.code),
            action == action_of(*old(self), key.code),
    {
        let code = key.code;
        if matches!(code, KeyCode::Down) || is_char(&code, 'j') {
            self.selected_option = match self.selected_option {
                SettingsOption::IncludeNumbers => SettingsOption::IncludeSpecialChars,
                SettingsOption::IncludeSpecialChars => SettingsOption::Save,
                SettingsOption::Save => SettingsOption::Back,
                SettingsOption::Back => SettingsOption::IncludeNumbers,
            };
        } else if matches!(code, KeyCode::Up) || is_char(&code, 'k') {
            self.selected_option = match self.selected_option {
                SettingsOption::IncludeNumbers => SettingsOption::Back,
                SettingsOption::IncludeSpecialChars => SettingsOption::IncludeNumbers,
                SettingsOption::Save => SettingsOption::IncludeSpecialChars,
                SettingsOption::Back => SettingsOption::Save,
            };
        } else if matches!(code, KeyCode::Enter) || is_char(&code, ' ') {
            match self.selected_option {
                SettingsOption::IncludeNumbers => {
                    self.config.password_config.include_numbers =
                        !self.config.password_config.include_numbers;
                    self.update_unsaved_changes();
                },
                SettingsOption::IncludeSpecialChars => {
                    self.config.password_config.include_special =
                        !self.config.password_config.include_special;
                    self.update_unsaved_changes();
                },
                SettingsOption::Save => {
                    return SettingsAction::Save;
                },
                SettingsOption::Back => {
                    return SettingsAction::Back;
                },
            }
        } else if matches!(code, KeyCode::Esc) || is_char(&code, 'q') {
            return SettingsAction::Back;
        }
        SettingsAction::Stay
    }
}

} // verus!
