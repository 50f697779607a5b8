use krab::components::window_too_small::{WindowTooSmall, WindowTooSmallConfig};
use krab::key::{KeyCode, KeyEvent};
use krab::layout::{centered_absolute_rect, check_if_out_of_bound, Rect};
use krab::popups::insert_domain_password::InsertDomainPassword;
use krab::popups::insert_master::InsertMaster;
use krab::popups::insert_password::InsertPassword;
use krab::records::{ReadOnlyRecords, Records};
use krab::user::{
    authenticate, create_user, Change, RecordOperationConfig, User, VaultFile,
};
use krab::views::home::filter::largest_prefix;
use krab::views::home::list::hidden_value;
use krab::views::home::{
    Flow, Home, HomeAction, HomeViewState, Notice, Operation, Position, Request, Room,
};
use krab::views::settings::Settings;
use krab::views::startup::StartUp;
use krab::views::ScreenState;
use krab::generator::Config;

fn setup_user_data(domain: &str) -> RecordOperationConfig {
    RecordOperationConfig::new("krab-12345678", "password", domain, "password", "/tmp/krab")
}

fn create(config: &RecordOperationConfig) -> (User, ReadOnlyRecords) {
    let (_, update) = create_user(config, &VaultFile::Missing).unwrap();
    authenticate(&VaultFile::Contents(update.image), &config.username, &config.master_password)
        .unwrap()
}

fn home_with(list: &[(&str, &str)]) -> Home {
    let (user, _) = create(&setup_user_data(""));
    let mut records = Records::new();
    for (domain, secret) in list {
        records.add(domain, secret);
    }
    Home::new(user, records.snapshot(), Position::default(), Rect::default())
}

fn room() -> Room {
    Room { rect: Rect::new(0, 0, 200, 50), inner_buffer_height: 40, at_right_edge: false }
}

fn key(code: KeyCode) -> KeyEvent {
    KeyEvent::new(code, false)
}

fn keys(home: &Home) -> Vec<String> {
    home.secrets.last().unwrap().secrets.iter().map(|s| s.key.clone()).collect()
}

#[test]
fn test_home_largest_prefix() {
    let user_data = setup_user_data("example.com");
    let (user, ror) = create(&user_data);

    let home = Home::new(user, ror, Position::default(), Rect::default());

    let previous_value = "0123".to_string();
    let new_value = "01234".to_string();
    let largest_prefix = home.largest_prefix(&previous_value, &new_value);
    assert_eq!(largest_prefix, "0123".to_string());

    let previous_value = "01234".to_string();
    let new_value = "0123".to_string();
    let largest_prefix = home.largest_prefix(&previous_value, &new_value);
    assert_eq!(largest_prefix, "0123".to_string());

    let previous_value = "01234".to_string();
    let new_value = "0129345".to_string();
    let largest_prefix = home.largest_prefix(&previous_value, &new_value);
    assert_eq!(largest_prefix, "012".to_string());
}

#[test]
fn test_home_fuzzy_filter() {
    let user_data = setup_user_data("example.com");
    let (user, ror) = create(&user_data);

    let mut home = Home::new(user, ror, Position::default(), Rect::default());

    assert!(home.secrets.len() == 1);

    let previous_value = "".to_string();
    let new_value = "e".to_string();
    home.fuzzy_filter(previous_value, new_value);
    assert_eq!(home.secrets.len(), 2);

    let previous_value = "e".to_string();
    let new_value = "".to_string();
    home.fuzzy_filter(previous_value, new_value);
    assert_eq!(home.secrets.len(), 1);
}

#[test]
fn prefixes_of_texts_that_share_nothing_or_everything() {
    assert_eq!(largest_prefix("", ""), "");
    assert_eq!(largest_prefix("abc", ""), "");
    assert_eq!(largest_prefix("", "abc"), "");
    assert_eq!(largest_prefix("abc", "abc"), "abc");
    assert_eq!(largest_prefix("abc", "xbc"), "");
    assert_eq!(largest_prefix("äb", "äc"), "ä");
}

#[test]
fn a_new_home_lists_all_records() {
    let home = home_with(&[("example.com", "a"), ("bank.com", "b")]);
    assert_eq!(home.secrets.len(), 1);
    assert_eq!(keys(&home), vec!["example.com", "bank.com"]);
    let level = &home.secrets[0];
    assert_eq!(level.selected_secret, 0);
    assert!(level.shown_secrets.is_empty());
    assert_eq!(level.secrets[0].value, "a");
    assert_eq!(level.secrets[0].last_suffix, "example.com");
    assert_eq!(home.state, HomeViewState::Normal);
    assert_eq!(home.filter_value(), "");
    assert_eq!(home.user.username(), "krab-12345678");
    assert_eq!(home.min_area(), (40, 40));
    assert!(!home.needs_header());
    assert_eq!((home.header_height(), home.legend_height()), (3, 3));
    assert_eq!(home.index_offset(0), 7);
    assert_eq!(home.index_offset(3), 19);
}

#[test]
fn the_filter_matches_characters_in_order() {
    let mut home =
        home_with(&[("example.com", "a"), ("bank.com", "b"), ("mail.org", "c"), ("xm", "d")]);
    home.fuzzy_filter("".to_string(), "m".to_string());
    assert_eq!(keys(&home), vec!["example.com", "bank.com", "mail.org", "xm"]);
    assert_eq!(home.secrets[1].secrets[0].last_suffix, "ple.com");
    assert_eq!(home.secrets[1].secrets[3].last_suffix, "");
    home.fuzzy_filter("m".to_string(), "ml".to_string());
    assert_eq!(keys(&home), vec!["example.com", "mail.org"]);
    assert_eq!(home.secrets[2].secrets[0].last_suffix, "e.com");
    home.fuzzy_filter("ml".to_string(), "mlz".to_string());
    assert!(keys(&home).is_empty());
    assert_eq!(home.secrets.len(), 4);
    // One character back.
    home.fuzzy_filter("mlz".to_string(), "ml".to_string());
    assert_eq!(home.secrets.len(), 3);
    assert_eq!(keys(&home), vec!["example.com", "mail.org"]);
}

#[test]
fn the_filter_stops_at_a_level_without_records() {
    let mut home = home_with(&[("example.com", "a")]);
    // Pasted at once: the level of `z` is empty and ends the levels.
    home.fuzzy_filter("".to_string(), "ezx".to_string());
    assert_eq!(home.secrets.len(), 3);
    assert_eq!(home.secrets[1].secrets.len(), 1);
    assert!(home.secrets[2].secrets.is_empty());
}

#[test]
fn the_filter_keeps_secrets_in_clear() {
    let mut home = home_with(&[("example.com", "a"), ("bank.com", "b"), ("mail.org", "c")]);
    home.handle_key(&key(KeyCode::Char('j')), &room());
    assert_eq!(home.secrets[0].selected_secret, 1);
    home.handle_key(&key(KeyCode::Char('j')), &room());
    assert_eq!(home.secrets[0].selected_secret, 2);
    home.toggle_shown_secret();
    assert_eq!(home.secrets[0].shown_secrets, vec![2]);
    home.fuzzy_filter("".to_string(), "m".to_string());
    assert_eq!(keys(&home), vec!["example.com", "bank.com", "mail.org"]);
    assert_eq!(home.secrets[1].shown_secrets, vec![2]);
    home.fuzzy_filter("m".to_string(), "ma".to_string());
    assert_eq!(keys(&home), vec!["mail.org"]);
    assert_eq!(home.secrets[2].shown_secrets, vec![0]);
    assert_eq!(home.secrets[2].selected_secret, 0);
    // Hiding it in the last level hides it in the levels before.
    home.toggle_shown_secret();
    assert!(home.secrets[2].shown_secrets.is_empty());
    assert!(home.secrets[1].shown_secrets.is_empty());
    assert!(home.secrets[0].shown_secrets.is_empty());
}

#[test]
fn the_selection_moves_and_scrolls() {
    let mut home = home_with(&[("a", "1"), ("b", "2"), ("c", "3"), ("d", "4"), ("e", "5")]);
    let small = Room { rect: Rect::new(0, 0, 200, 12), inner_buffer_height: 10, at_right_edge: false };
    assert_eq!(home.handle_key(&key(KeyCode::Down), &small), HomeAction::Stay);
    assert_eq!(home.secrets[0].selected_secret, 1);
    // Row 11 of the second record plus two records reaches the window.
    assert_eq!(home.position.offset_y, 4);
    home.handle_key(&key(KeyCode::Char('j')), &small);
    assert_eq!(home.secrets[0].selected_secret, 2);
    assert_eq!(home.position.offset_y, 8);
    // From the last two records the list goes to the bottom.
    home.handle_key(&key(KeyCode::Char('j')), &small);
    home.handle_key(&key(KeyCode::Char('j')), &small);
    assert_eq!(home.secrets[0].selected_secret, 4);
    assert_eq!(home.position.offset_y, 5 * 4 + 10 - 10 + 1);
    home.handle_key(&key(KeyCode::Up), &small);
    assert_eq!(home.secrets[0].selected_secret, 3);
    assert_eq!(home.position.offset_y, 17);
    home.handle_key(&key(KeyCode::Char('k')), &small);
    home.handle_key(&key(KeyCode::Char('k')), &small);
    assert_eq!(home.secrets[0].selected_secret, 1);
    // From the first two records the list goes to the top.
    home.handle_key(&key(KeyCode::Char('k')), &small);
    assert_eq!(home.secrets[0].selected_secret, 0);
    assert_eq!(home.position.offset_y, 0);
}

#[test]
fn the_list_scrolls_sideways() {
    let mut home = home_with(&[("a", "1")]);
    home.handle_key(&key(KeyCode::Left), &room());
    assert_eq!(home.position.offset_x, 0);
    home.handle_key(&key(KeyCode::Right), &room());
    home.handle_key(&key(KeyCode::Char('l')), &room());
    assert_eq!(home.position.offset_x, 2);
    home.handle_key(&key(KeyCode::Char('h')), &room());
    assert_eq!(home.position.offset_x, 1);
    let edge = Room { at_right_edge: true, ..room() };
    home.handle_key(&key(KeyCode::Right), &edge);
    assert_eq!(home.position.offset_x, 1);
    assert_eq!(home.position.offset_x(), 1);
    assert_eq!(home.position.offset_y(), 0);
}

#[test]
fn keys_of_the_list_ask_for_what_they_stand_for() {
    let mut home = home_with(&[("a.com", "1")]);
    assert_eq!(home.handle_key(&key(KeyCode::Char('q')), &room()), HomeAction::Logout);
    assert_eq!(home.handle_key(&key(KeyCode::Esc), &room()), HomeAction::Logout);
    assert_eq!(home.handle_key(&key(KeyCode::Char('c')), &room()), HomeAction::Copy);
    assert_eq!(home.selected_value(), "1");
    assert_eq!(home.handle_key(&key(KeyCode::Char('x')), &room()), HomeAction::Export);
    assert_eq!(home.handle_key(&key(KeyCode::Char('?')), &room()), HomeAction::Help(60, 24));
    let narrow = Room { rect: Rect::new(0, 0, 50, 20), ..room() };
    assert_eq!(home.handle_key(&key(KeyCode::Char('?')), &narrow), HomeAction::Help(40, 16));
    assert_eq!(home.handle_key(&key(KeyCode::Char('z')), &room()), HomeAction::Stay);
    assert_eq!(
        home.handle_key(&key(KeyCode::Char('a')), &room()),
        HomeAction::OpenInsertDomainPassword
    );
    assert_eq!(home.operation, Some(Operation::Add));
    assert_eq!(home.handle_key(&key(KeyCode::Char('d')), &room()), HomeAction::OpenInsertMaster);
    assert_eq!(home.operation, Some(Operation::Remove));
    assert_eq!(home.handle_key(&key(KeyCode::Char('e')), &room()), HomeAction::OpenInsertPassword);
    assert_eq!(home.operation, Some(Operation::Modify));
    assert_eq!(home.selected_key(), "a.com");
    assert_eq!(home.handle_key(&key(KeyCode::Enter), &room()), HomeAction::Stay);
    assert_eq!(home.secrets[0].shown_secrets, vec![0]);
}

#[test]
fn typing_into_the_filter_narrows_the_list() {
    let mut home = home_with(&[("example.com", "a"), ("bank.com", "b")]);
    assert_eq!(home.handle_key(&key(KeyCode::Char('f')), &room()), HomeAction::Stay);
    assert_eq!(home.state, HomeViewState::Filter);
    let config = home.generate_input_config();
    assert!(config.focused);
    assert_eq!(config.title, "Filter");
    assert_eq!(config.cursor_position, Some(0));
    assert_eq!(config.width, Some(64));
    home.handle_key(&key(KeyCode::Char('b')), &room());
    home.handle_key(&key(KeyCode::Char('k')), &room());
    assert_eq!(home.filter_value(), "bk");
    assert_eq!(home.cursor, 2);
    assert_eq!(keys(&home), vec!["bank.com"]);
    home.handle_key(&key(KeyCode::Backspace), &room());
    assert_eq!(home.filter_value(), "b");
    assert_eq!(keys(&home), vec!["bank.com"]);
    assert_eq!(home.secrets.len(), 2);
    home.handle_key(&key(KeyCode::Backspace), &room());
    assert_eq!(keys(&home), vec!["example.com", "bank.com"]);
    // `q` is a character of the filter, Esc gives the keys back to the list.
    home.handle_key(&key(KeyCode::Char('q')), &room());
    assert_eq!(home.filter_value(), "q");
    assert_eq!(home.handle_key(&key(KeyCode::Esc), &room()), HomeAction::Stay);
    assert_eq!(home.state, HomeViewState::Normal);
    assert_eq!(home.generate_input_config().cursor_position, None);
}

#[test]
fn hidden_lines_show_a_bullet_for_each_byte() {
    assert_eq!(hidden_value("a.com".to_string(), 3), "  a.com : •••");
    assert_eq!(hidden_value(String::new(), 0), "   : ");
}

#[test]
fn the_widest_record_sets_the_width() {
    let home = home_with(&[("a.com", "123"), ("example.com", "12345")]);
    assert_eq!(home.secrets[0].max_length(), 11 + 5 + 3);
    assert!(home.can_measure());
    assert_eq!(home.width(), 128);
    let long = "x".repeat(150);
    let home = home_with(&[(long.as_str(), "12345")]);
    assert_eq!(home.secrets[0].max_length(), 158);
    assert_eq!(home.width(), 166);
    let home = home_with(&[]);
    assert_eq!(home.secrets[0].max_length(), 0);
    // Columns are counted in 16 bits: a record of 65528 bytes and more is
    // too wide.
    let huge = "x".repeat(65524);
    assert!(home_with(&[(huge.as_str(), "")]).can_measure());
    let huge = "x".repeat(65525);
    assert!(!home_with(&[(huge.as_str(), "")]).can_measure());
}

#[test]
fn records_are_exported_as_comma_separated_values() {
    let mut home = home_with(&[("example.com", "a"), ("bank.com", "b")]);
    assert_eq!(home.csv_text(), "domain,password\nexample.com,a\nbank.com,b\n");
    // The export holds all records, whatever the filter shows.
    home.fuzzy_filter("".to_string(), "x".to_string());
    assert_eq!(home.csv_text(), "domain,password\nexample.com,a\nbank.com,b\n");
    assert_eq!(home_with(&[]).csv_text(), "domain,password\n");
}

#[test]
fn the_help_lists_the_keys() {
    let text = Home::generate_help_text();
    assert!(text.starts_with("NAVIGATION:\n  j / Down     Move down\n"));
    assert!(text.ends_with("  ?            Show this help"));
    assert_eq!(text.lines().count(), 18);
}

fn typed(popup: &mut InsertDomainPassword, text: &str) {
    for c in text.chars() {
        popup.handle_key(&key(KeyCode::Char(c)));
    }
}

#[test]
fn a_new_record_waits_for_the_master_password() {
    let mut home = home_with(&[("a.com", "1")]);
    home.handle_key(&key(KeyCode::Char('a')), &room());
    let mut popup = InsertDomainPassword::new();
    typed(&mut popup, "b.com");
    assert_eq!(home.handle_insert_record_popup(&popup), Flow::Notify(Notice::CannotCreateRecord));
    assert!(home.new_secret.is_none());
    popup.handle_key(&key(KeyCode::Enter));
    typed(&mut popup, "2");
    assert_eq!(home.handle_insert_record_popup(&popup), Flow::AskMaster);
    let waiting = home.new_secret.as_ref().unwrap();
    assert_eq!((waiting.domain.as_str(), waiting.password.as_str()), ("b.com", "2"));

    let mut master = InsertMaster::new();
    match home.handle_insert_master_popup(&master, "/vaults") {
        Request::Notify(notice) => assert_eq!(notice, Notice::CannotCreateRecord),
        other => panic!("{:?}", other),
    }
    for c in "password".chars() {
        master.handle_key(&key(KeyCode::Char(c)));
    }
    match home.handle_insert_master_popup(&master, "/vaults") {
        Request::Change(change, config) => {
            assert_eq!(change, Change::Add);
            assert_eq!(config.username, "krab-12345678");
            assert_eq!(config.master_password, "password");
            assert_eq!(config.domain, "b.com");
            assert_eq!(config.password, "2");
            assert_eq!(config.path, "/vaults");
        }
        other => panic!("{:?}", other),
    }
    master.handle_key(&key(KeyCode::Enter));
    master.handle_key(&key(KeyCode::Enter));
    assert!(matches!(home.handle_insert_master_popup(&master, "/vaults"), Request::Nothing));
}

#[test]
fn removing_and_modifying_are_about_the_selected_record() {
    let mut home = home_with(&[("a.com", "1"), ("b.com", "2"), ("c.com", "3")]);
    home.handle_key(&key(KeyCode::Down), &room());
    home.handle_key(&key(KeyCode::Char('d')), &room());
    let mut master = InsertMaster::new();
    master.handle_key(&key(KeyCode::Char('m')));
    match home.handle_insert_master_popup(&master, "/vaults") {
        Request::Change(change, config) => {
            assert_eq!(change, Change::Remove);
            assert_eq!((config.domain.as_str(), config.password.as_str()), ("b.com", ""));
        }
        other => panic!("{:?}", other),
    }
    home.handle_key(&key(KeyCode::Char('e')), &room());
    let mut popup = InsertPassword::new(home.selected_key());
    assert_eq!(home.handle_insert_password_popup(&popup), Flow::Notify(Notice::PasswordEmpty));
    popup.handle_key(&key(KeyCode::Char('9')));
    assert_eq!(home.handle_insert_password_popup(&popup), Flow::AskMaster);
    match home.handle_insert_master_popup(&master, "/vaults") {
        Request::Change(change, config) => {
            assert_eq!(change, Change::Modify);
            assert_eq!((config.domain.as_str(), config.password.as_str()), ("b.com", "9"));
        }
        other => panic!("{:?}", other),
    }
    popup.handle_key(&key(KeyCode::Esc));
    assert_eq!(home.handle_insert_password_popup(&popup), Flow::Nothing);
}

#[test]
fn changed_records_replace_the_list() {
    let mut home = home_with(&[("a.com", "1"), ("b.com", "2")]);
    home.handle_key(&key(KeyCode::Enter), &room());
    let mut records = Records::new();
    records.add("a.com", "1");
    records.add("b.com", "2");
    records.add("c.com", "3");
    home.records_changed(&records.snapshot());
    assert_eq!(keys(&home), vec!["a.com", "b.com", "c.com"]);
    assert_eq!(home.secrets[0].shown_secrets, vec![0]);
    assert_eq!(home.secrets[0].secrets[2].last_suffix, "c.com");
    assert_eq!(Home::failure_notice(Change::Add).text(), "Cannot create record");
    assert_eq!(Home::failure_notice(Change::Remove).text(), "Cannot remove record");
    assert_eq!(Home::failure_notice(Change::Modify).text(), "Cannot modify record");
    assert_eq!(Notice::PasswordEmpty.text(), "Password cannot be empty");
}

#[test]
fn a_rectangle_is_centered() {
    let middle = centered_absolute_rect(Rect::new(0, 0, 100, 50), 30, 10);
    assert_eq!(middle, Rect::new(35, 20, 30, 10));
    let middle = centered_absolute_rect(Rect::new(4, 2, 37, 11), 36, 10);
    assert_eq!(middle, Rect::new(4, 2, 36, 10));
    let whole = centered_absolute_rect(Rect::new(3, 5, 36, 10), 36, 10);
    assert_eq!(whole, Rect::new(3, 5, 36, 10));
}

#[test]
fn a_terminal_that_is_too_small_is_told_the_size_it_needs() {
    assert_eq!(check_if_out_of_bound((36, 10), (40, 40), Rect::new(0, 0, 35, 100)), Some((36, 10)));
    assert_eq!(check_if_out_of_bound((36, 10), (40, 40), Rect::new(0, 0, 100, 9)), Some((36, 10)));
    assert_eq!(check_if_out_of_bound((36, 10), (40, 40), Rect::new(0, 0, 39, 40)), Some((40, 40)));
    assert_eq!(check_if_out_of_bound((36, 10), (40, 40), Rect::new(0, 0, 40, 39)), Some((40, 40)));
    assert_eq!(check_if_out_of_bound((36, 10), (40, 40), Rect::new(0, 0, 40, 40)), None);
    let menu = ScreenState::StartUp(StartUp::new());
    assert_eq!(menu.min_area(), (36, 9));
    assert!(menu.needs_header());
    assert_eq!(menu.out_of_bound(Rect::new(0, 0, 36, 10)), None);
    assert_eq!(menu.out_of_bound(Rect::new(0, 0, 36, 9)), Some((36, 10)));
    let settings = ScreenState::Settings(Settings::new(Config::default()));
    assert_eq!(settings.out_of_bound(Rect::new(0, 0, 59, 15)), Some((60, 15)));
    assert!(!settings.needs_header());
    let home = ScreenState::Home(home_with(&[]));
    assert_eq!(home.out_of_bound(Rect::new(0, 0, 80, 24)), Some((40, 40)));
    assert_eq!(
        WindowTooSmall::message(&WindowTooSmallConfig::new(40, 40)),
        "The window is too small. The minimum size is 40x40."
    );
    assert_eq!(
        WindowTooSmall::message(&WindowTooSmallConfig::new(0, 65535)),
        "The window is too small. The minimum size is 0x65535."
    );
}
