use krab::components::button::ButtonConfig;
use krab::key::{KeyCode, KeyEvent};
use krab::popups::exit::Exit;
use krab::popups::insert_domain_password::{
    DomainPasswordButton, DomainPasswordInput, InsertDomainPassword, InsertDomainPasswordExitState,
    InsertDomainPasswordState,
};
use krab::popups::insert_master::{
    InsertMaster, InsertMasterExitState, InsertMasterState, MasterPasswordButton,
};
use krab::popups::insert_password::{
    InsertPassword, InsertPasswordExitState, InsertPasswordState, PasswordButton,
};
use krab::popups::message::MessagePopup;
use krab::popups::{min_area, Popup, PopupAction, PopupType};

fn key(code: KeyCode) -> KeyEvent {
    KeyEvent::new(code, false)
}

fn type_master(popup: &mut InsertMaster, text: &str) {
    for c in text.chars() {
        let press = key(KeyCode::Char(c));
        assert!(popup.accepts(&press));
        assert_eq!(popup.handle_key(&press), PopupAction::Stay);
    }
}

#[test]
fn popups_fit_in_the_common_area() {
    assert_eq!(min_area(), (36, 10));
    assert_eq!(InsertMaster::min_area(), (36, 6));
    assert_eq!(InsertDomainPassword::min_area(), (36, 9));
    assert_eq!(InsertPassword::min_area(), (36, 9));
    assert_eq!(MessagePopup::min_area(), (30, 10));
    assert_eq!(Exit::min_area(), (30, 10));
    assert_eq!(ButtonConfig::height(), 3);
}

#[test]
fn a_popup_knows_its_kind_and_size() {
    assert_eq!(Popup::Exit(Exit::new()).popup_type(), PopupType::Exit);
    assert_eq!(Popup::InsertMaster(InsertMaster::new()).popup_type(), PopupType::InsertMaster);
    assert_eq!(
        Popup::InsertPassword(InsertPassword::new("a.com".to_string())).popup_type(),
        PopupType::InsertPassword
    );
    assert_eq!(
        Popup::InsertDomainPassword(InsertDomainPassword::new()).popup_type(),
        PopupType::InsertDomainPassword
    );
    let message = MessagePopup::new_with_size("help".to_string(), 60, 24);
    assert_eq!(Popup::Message(message).size(), (60, 24));
    assert_eq!(Popup::Message(MessagePopup::new("hi".to_string())).size(), (30, 10));
    assert_eq!(Popup::InsertMaster(InsertMaster::new()).size(), (36, 6));
}

#[test]
fn a_message_closes_on_any_key() {
    let mut popup = MessagePopup::new("Cannot create record".to_string());
    assert_eq!(popup.message, "Cannot create record");
    assert_eq!((popup.width, popup.height), (30, 10));
    assert_eq!(popup.handle_key(&key(KeyCode::Char('x'))), PopupAction::Dismiss);
    assert_eq!(popup.handle_key(&key(KeyCode::Enter)), PopupAction::Dismiss);
}

#[test]
fn the_exit_popup_quits_on_q_only() {
    let mut popup = Exit::new();
    assert_eq!(popup.handle_key(&key(KeyCode::Char('q'))), PopupAction::Quit);
    assert_eq!(popup.handle_key(&key(KeyCode::Char('x'))), PopupAction::Stay);
    assert_eq!(popup.handle_key(&key(KeyCode::Enter)), PopupAction::Stay);
}

#[test]
fn the_master_popup_is_typed_into_and_confirmed() {
    let mut popup = InsertMaster::new();
    assert_eq!(popup.master(), "");
    assert_eq!(popup.exit_state(), None);
    type_master(&mut popup, "hunter2");
    assert_eq!(popup.master(), "hunter2");
    assert_eq!(popup.cursor, 7);
    let config = popup.generate_input_config();
    assert!(config.focused && config.hidden);
    assert_eq!(config.title, "Master password");
    assert_eq!(config.cursor_position, Some(7));
    assert_eq!(popup.handle_key(&key(KeyCode::Enter)), PopupAction::Stay);
    assert_eq!(popup.state, InsertMasterState::Quit);
    assert_eq!(popup.generate_input_config().cursor_position, None);
    assert!(popup.generate_button_config(MasterPasswordButton::Quit).focused);
    assert!(!popup.generate_button_config(MasterPasswordButton::Confirm).focused);
    assert_eq!(popup.generate_button_config(MasterPasswordButton::Confirm).text, "Confirm");
    assert_eq!(popup.handle_key(&key(KeyCode::Tab)), PopupAction::Stay);
    assert_eq!(popup.state, InsertMasterState::Confirm);
    assert_eq!(popup.handle_key(&key(KeyCode::Enter)), PopupAction::Finish);
    assert_eq!(popup.exit_state(), Some(InsertMasterExitState::Confirm));
    assert_eq!(popup.master(), "hunter2");
}

#[test]
fn the_master_popup_is_quit() {
    let mut popup = InsertMaster::new();
    assert_eq!(popup.handle_key(&key(KeyCode::Down)), PopupAction::Stay);
    assert_eq!(popup.state, InsertMasterState::Quit);
    assert_eq!(popup.handle_key(&key(KeyCode::Up)), PopupAction::Stay);
    assert_eq!(popup.state, InsertMasterState::Master);
    assert_eq!(popup.handle_key(&key(KeyCode::Up)), PopupAction::Stay);
    assert_eq!(popup.handle_key(&key(KeyCode::Left)), PopupAction::Stay);
    assert_eq!(popup.state, InsertMasterState::Confirm);
    assert_eq!(popup.handle_key(&key(KeyCode::Right)), PopupAction::Stay);
    assert_eq!(popup.state, InsertMasterState::Quit);
    assert_eq!(popup.handle_key(&key(KeyCode::Char('x'))), PopupAction::Stay);
    assert_eq!(popup.master(), "");
    assert_eq!(popup.handle_key(&key(KeyCode::Enter)), PopupAction::Finish);
    assert_eq!(popup.exit_state(), Some(InsertMasterExitState::Quit));
}

#[test]
fn the_secret_popup_asks_for_a_generated_secret() {
    let mut popup = InsertPassword::new("example.com".to_string());
    assert_eq!(popup.domain, "example.com");
    assert_eq!(popup.handle_key(&key(KeyCode::Char('g'))), PopupAction::Stay);
    assert_eq!(popup.password(), "g");
    assert_eq!(popup.cursor, 1);
    let control_g = KeyEvent::new(KeyCode::Char('g'), true);
    assert!(popup.accepts(&control_g));
    assert_eq!(popup.handle_key(&control_g), PopupAction::Generate);
    assert_eq!(popup.password(), "g");
    popup.set_generated("aB3!aB3!".to_string());
    assert_eq!(popup.password(), "aB3!aB3!");
    assert_eq!((popup.cursor, popup.input_offset), (0, 0));
    assert_eq!(popup.generate_input_config().title, "Password | CTRL + g - generate");
}

#[test]
fn the_secret_popup_moves_and_closes() {
    let mut popup = InsertPassword::new("example.com".to_string());
    assert_eq!(popup.handle_key(&key(KeyCode::Tab)), PopupAction::Stay);
    assert_eq!(popup.state, InsertPasswordState::Quit);
    assert_eq!(popup.handle_key(&key(KeyCode::Char('l'))), PopupAction::Stay);
    assert_eq!(popup.state, InsertPasswordState::Confirm);
    assert!(popup.generate_button_config(PasswordButton::Confirm).focused);
    assert_eq!(popup.handle_key(&key(KeyCode::Char('h'))), PopupAction::Stay);
    assert_eq!(popup.state, InsertPasswordState::Quit);
    assert_eq!(popup.handle_key(&key(KeyCode::Char('k'))), PopupAction::Stay);
    assert_eq!(popup.state, InsertPasswordState::Password);
    assert_eq!(popup.handle_key(&key(KeyCode::Char('k'))), PopupAction::Stay);
    assert_eq!(popup.password(), "k");
    assert_eq!(popup.handle_key(&key(KeyCode::Down)), PopupAction::Stay);
    assert_eq!(popup.handle_key(&key(KeyCode::Right)), PopupAction::Stay);
    assert_eq!(popup.handle_key(&key(KeyCode::Enter)), PopupAction::Finish);
    assert_eq!(popup.exit_state(), Some(InsertPasswordExitState::Confirm));

    let mut popup = InsertPassword::new("example.com".to_string());
    assert_eq!(popup.handle_key(&key(KeyCode::Esc)), PopupAction::Finish);
    assert_eq!(popup.exit_state(), Some(InsertPasswordExitState::Quit));

    let mut popup = InsertPassword::new("example.com".to_string());
    popup.handle_key(&key(KeyCode::Enter));
    popup.handle_key(&key(KeyCode::Tab));
    assert_eq!(popup.handle_key(&key(KeyCode::Char('q'))), PopupAction::Finish);
    assert_eq!(popup.exit_state(), Some(InsertPasswordExitState::Quit));
}

#[test]
fn the_record_popup_takes_a_domain_and_a_secret() {
    let mut popup = InsertDomainPassword::new();
    for c in "a.com".chars() {
        assert!(popup.accepts(&key(KeyCode::Char(c))));
        assert_eq!(popup.handle_key(&key(KeyCode::Char(c))), PopupAction::Stay);
    }
    assert_eq!(popup.domain(), "a.com");
    assert_eq!(popup.handle_key(&key(KeyCode::Enter)), PopupAction::Stay);
    assert_eq!(popup.state, InsertDomainPasswordState::Password);
    for c in "pw".chars() {
        assert_eq!(popup.handle_key(&key(KeyCode::Char(c))), PopupAction::Stay);
    }
    assert_eq!(popup.password(), "pw");
    assert_eq!((popup.domain_cursor, popup.password_cursor), (5, 2));
    let domain = popup.generate_input_config(DomainPasswordInput::Domain);
    assert_eq!((domain.title.as_str(), domain.hidden, domain.focused), ("Domain", false, false));
    assert_eq!(domain.cursor_position, None);
    let secret = popup.generate_input_config(DomainPasswordInput::Password);
    assert_eq!((secret.title.as_str(), secret.hidden, secret.focused), ("Password", true, true));
    assert_eq!(secret.cursor_position, Some(2));
    assert_eq!(popup.handle_key(&KeyEvent::new(KeyCode::Char('g'), true)), PopupAction::Generate);
    popup.set_generated("Zz9?".to_string());
    assert_eq!(popup.password(), "Zz9?");
    assert_eq!(popup.password_cursor, 2);
    assert_eq!(popup.handle_key(&key(KeyCode::Tab)), PopupAction::Stay);
    assert_eq!(popup.state, InsertDomainPasswordState::Quit);
    assert!(popup.generate_button_config(DomainPasswordButton::Quit).focused);
    assert_eq!(popup.handle_key(&key(KeyCode::Left)), PopupAction::Stay);
    assert_eq!(popup.state, InsertDomainPasswordState::Confirm);
    assert_eq!(popup.handle_key(&key(KeyCode::Enter)), PopupAction::Finish);
    assert_eq!(popup.exit_state(), Some(InsertDomainPasswordExitState::Confirm));
}

#[test]
fn the_record_popup_walks_its_fields_in_a_ring() {
    let mut popup = InsertDomainPassword::new();
    popup.handle_key(&key(KeyCode::Up));
    assert_eq!(popup.state, InsertDomainPasswordState::Quit);
    popup.handle_key(&key(KeyCode::Down));
    assert_eq!(popup.state, InsertDomainPasswordState::Domain);
    popup.handle_key(&key(KeyCode::Down));
    popup.handle_key(&key(KeyCode::Up));
    assert_eq!(popup.state, InsertDomainPasswordState::Domain);
    popup.handle_key(&key(KeyCode::Tab));
    popup.handle_key(&key(KeyCode::Tab));
    popup.handle_key(&key(KeyCode::Tab));
    assert_eq!(popup.state, InsertDomainPasswordState::Confirm);
    popup.handle_key(&key(KeyCode::Up));
    assert_eq!(popup.state, InsertDomainPasswordState::Password);
    popup.handle_key(&key(KeyCode::Down));
    assert_eq!(popup.handle_key(&key(KeyCode::Enter)), PopupAction::Finish);
    assert_eq!(popup.exit_state(), Some(InsertDomainPasswordExitState::Quit));
}
