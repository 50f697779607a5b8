use krab::generator::{Config, PasswordConfig};
use krab::key::{KeyCode, KeyEvent};
use krab::views::settings::{Settings, SettingsAction, SettingsOption};
use krab::views::startup::{StartUp, StartUpAction, StartUpButton, StartUpState};

fn key(code: KeyCode) -> KeyEvent {
    KeyEvent::new(code, false)
}

#[test]
fn the_menu_wraps_around() {
    let mut menu = StartUp::new();
    assert_eq!(menu.state, StartUpState::Login);
    assert_eq!(menu.handle_key(&key(KeyCode::Down)), StartUpAction::Stay);
    assert_eq!(menu.state, StartUpState::Register);
    assert_eq!(menu.handle_key(&key(KeyCode::Char('j'))), StartUpAction::Stay);
    assert_eq!(menu.state, StartUpState::Quit);
    assert_eq!(menu.handle_key(&key(KeyCode::Tab)), StartUpAction::Stay);
    assert_eq!(menu.state, StartUpState::Login);
    assert_eq!(menu.handle_key(&key(KeyCode::Up)), StartUpAction::Stay);
    assert_eq!(menu.state, StartUpState::Quit);
    assert_eq!(menu.handle_key(&key(KeyCode::Char('k'))), StartUpAction::Stay);
    assert_eq!(menu.state, StartUpState::Register);
    assert_eq!(menu.handle_key(&key(KeyCode::Char('x'))), StartUpAction::Stay);
    assert_eq!(menu.state, StartUpState::Register);
}

#[test]
fn the_menu_opens_what_has_the_focus() {
    let mut menu = StartUp::new();
    assert_eq!(menu.handle_key(&key(KeyCode::Enter)), StartUpAction::Login);
    menu.handle_key(&key(KeyCode::Down));
    assert_eq!(menu.handle_key(&key(KeyCode::Enter)), StartUpAction::Register);
    menu.handle_key(&key(KeyCode::Down));
    assert_eq!(menu.handle_key(&key(KeyCode::Enter)), StartUpAction::Quit);
    let mut menu = StartUp::new();
    assert_eq!(menu.handle_key(&key(KeyCode::Char('q'))), StartUpAction::Quit);
    assert_eq!(menu.state, StartUpState::Login);
}

#[test]
fn the_menu_lights_the_focused_button() {
    let menu = StartUp::new();
    let login = menu.generate_button_config(StartUpButton::Login);
    assert_eq!((login.focused, login.text.as_str()), (true, "Login"));
    let register = menu.generate_button_config(StartUpButton::Register);
    assert_eq!((register.focused, register.text.as_str()), (false, "Register"));
    let quit = menu.generate_button_config(StartUpButton::Quit);
    assert_eq!((quit.focused, quit.text.as_str()), (false, "Quit"));
    assert_eq!(menu.min_area(), (36, 9));
}

#[test]
fn settings_toggle_and_track_unsaved_changes() {
    let mut screen = Settings::new(Config::default());
    assert_eq!(screen.selected_option, SettingsOption::IncludeNumbers);
    assert!(!screen.has_unsaved_changes);
    assert_eq!(screen.title(), "Settings");
    assert_eq!(screen.handle_key(&key(KeyCode::Enter)), SettingsAction::Stay);
    assert!(!screen.config.password_config.include_numbers);
    assert!(screen.has_unsaved_changes);
    assert_eq!(screen.title(), "Settings *");
    assert_eq!(screen.handle_key(&key(KeyCode::Char(' '))), SettingsAction::Stay);
    assert!(screen.config.password_config.include_numbers);
    assert!(!screen.has_unsaved_changes);
    screen.handle_key(&key(KeyCode::Down));
    assert_eq!(screen.selected_option, SettingsOption::IncludeSpecialChars);
    screen.handle_key(&key(KeyCode::Enter));
    assert!(!screen.config.password_config.include_special);
    assert!(screen.has_unsaved_changes);
    screen.handle_key(&key(KeyCode::Char('j')));
    assert_eq!(screen.handle_key(&key(KeyCode::Enter)), SettingsAction::Save);
    assert!(screen.has_unsaved_changes);
    screen.saved();
    assert!(!screen.has_unsaved_changes);
    assert_eq!(screen.original_config, screen.config);
}

#[test]
fn settings_wrap_around_and_go_back() {
    let mut screen = Settings::new(Config::default());
    screen.handle_key(&key(KeyCode::Up));
    assert_eq!(screen.selected_option, SettingsOption::Back);
    assert_eq!(screen.handle_key(&key(KeyCode::Enter)), SettingsAction::Back);
    screen.handle_key(&key(KeyCode::Char('k')));
    assert_eq!(screen.selected_option, SettingsOption::Save);
    screen.handle_key(&key(KeyCode::Down));
    screen.handle_key(&key(KeyCode::Down));
    assert_eq!(screen.selected_option, SettingsOption::IncludeNumbers);
    assert_eq!(screen.handle_key(&key(KeyCode::Esc)), SettingsAction::Back);
    assert_eq!(screen.handle_key(&key(KeyCode::Char('q'))), SettingsAction::Back);
    assert_eq!(screen.handle_key(&key(KeyCode::Char('x'))), SettingsAction::Stay);
    assert_eq!(screen.min_area(), (60, 15));
    assert!(!screen.needs_header());
}

#[test]
fn settings_lines_show_the_classes() {
    let config = Config {
        password_config: PasswordConfig {
            include_uppercase: true,
            include_numbers: false,
            include_special: true,
            length: 16,
        },
    };
    let mut screen = Settings::new(config);
    screen.handle_key(&key(KeyCode::Down));
    assert_eq!(
        screen.get_settings_items(),
        vec![
            ("[ ] Include Numbers", false),
            ("[x] Include Special Characters", true),
            ("Save Settings", false),
            ("< Back", false),
        ]
    );
}
