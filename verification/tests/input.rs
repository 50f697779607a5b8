use krab::components::input::{Input, InputConfig};
use krab::key::{KeyCode, KeyEvent};

const MAX_INPUT_LENGTH: u16 = 256;
const DEFAULT_INPUT_WIDTH: u16 = 32;

fn press(key: &KeyEvent, config: &InputConfig, value: &str) -> (String, u16, u16) {
    assert!(Input::accepts(key, config, value));
    Input::handle_key(key, config, value)
}

#[test]
fn test_input_insert() {
    let config = InputConfig::new(
        true,
        "test".to_string(),
        false,
        "Test".to_string(),
        Some(4),
        0,
        None,
    );
    let key = KeyEvent::new(KeyCode::Char('a'), false);
    let (value, cursor_position, input_offset) = press(&key, &config, "test");
    assert_eq!(value, "testa".to_string());
    assert_eq!(cursor_position, 5);
    assert_eq!(input_offset, 0);
}

#[test]
fn test_input_insert_max() {
    let mut value = String::new();
    for _ in 0..MAX_INPUT_LENGTH {
        value.push('a');
    }
    let config = InputConfig::new(
        true,
        value.clone(),
        false,
        "Test".to_string(),
        Some(3),
        0,
        None,
    );
    let key = KeyEvent::new(KeyCode::Char('a'), false);
    let before = value.clone();
    let (value, cursor_position, input_offset) = press(&key, &config, value.as_str());
    assert_eq!(value, before);
    assert_eq!(cursor_position, 3);
    assert_eq!(input_offset, 0);
}

#[test]
fn test_input_backspace() {
    let config = InputConfig::new(
        true,
        "test".to_string(),
        false,
        "Test".to_string(),
        Some(4),
        0,
        None,
    );
    let key = KeyEvent::new(KeyCode::Backspace, false);
    let (value, cursor_position, input_offset) = press(&key, &config, "test");
    assert_eq!(value, "tes".to_string());
    assert_eq!(cursor_position, 3);
    assert_eq!(input_offset, 0);
}

#[test]
fn test_input_delete() {
    let config = InputConfig::new(
        true,
        "test".to_string(),
        false,
        "Test".to_string(),
        Some(1),
        0,
        None,
    );
    let key = KeyEvent::new(KeyCode::Delete, false);
    let (value, cursor_position, input_offset) = press(&key, &config, "test");
    assert_eq!(value, "tst".to_string());
    assert_eq!(cursor_position, 1);
    assert_eq!(input_offset, 0);
}

#[test]
fn test_input_left() {
    let config = InputConfig::new(
        true,
        "test".to_string(),
        false,
        "Test".to_string(),
        Some(2),
        0,
        None,
    );
    let key = KeyEvent::new(KeyCode::Left, false);
    let (value, cursor_position, input_offset) = press(&key, &config, "test");
    assert_eq!(value, "test".to_string());
    assert_eq!(cursor_position, 1);
    assert_eq!(input_offset, 0);
}

#[test]
fn test_input_right() {
    let config = InputConfig::new(
        true,
        "test".to_string(),
        false,
        "Test".to_string(),
        Some(2),
        0,
        None,
    );
    let key = KeyEvent::new(KeyCode::Right, false);
    let (value, cursor_position, input_offset) = press(&key, &config, "test");
    assert_eq!(value, "test".to_string());
    assert_eq!(cursor_position, 3);
    assert_eq!(input_offset, 0);
}

#[test]
fn test_input_right_max() {
    let mut value = String::new();
    for _ in 0..MAX_INPUT_LENGTH {
        value.push('a');
    }
    let config = InputConfig::new(
        true,
        value.clone(),
        false,
        "Test".to_string(),
        Some(255),
        255 - DEFAULT_INPUT_WIDTH + 1,
        None,
    );
    let key = KeyEvent::new(KeyCode::Right, false);
    let before = value.clone();
    let (value, cursor_position, input_offset) = press(&key, &config, value.as_str());
    assert_eq!(value, before);
    assert_eq!(cursor_position, 255);
    assert_eq!(input_offset, 255 - DEFAULT_INPUT_WIDTH + 1);
}

#[test]
fn test_input_first_offset() {
    let config = InputConfig::new(
        true,
        "0123456789012345678901234567890".to_string(),
        false,
        "Test".to_string(),
        Some(31),
        0,
        None,
    );
    let key = KeyEvent::new(KeyCode::Char('1'), false);
    let (value, cursor_position, input_offset) =
        press(&key, &config, "0123456789012345678901234567890");
    assert_eq!(value, "01234567890123456789012345678901".to_string());
    assert_eq!(cursor_position, 32);
    assert_eq!(input_offset, 1);
}

#[test]
fn test_input_first_offset_left() {
    let config = InputConfig::new(
        true,
        "0123456789012345678901234567890123456789012345678901234567890".to_string(),
        false,
        "Test".to_string(),
        Some(29),
        28,
        None,
    );
    let key = KeyEvent::new(KeyCode::Backspace, false);
    let (value, cursor_position, input_offset) = press(
        &key,
        &config,
        "0123456789012345678901234567890123456789012345678901234567890",
    );
    assert_eq!(
        value,
        "012345678901234567890123456790123456789012345678901234567890".to_string()
    );
    assert_eq!(cursor_position, 28);
    assert_eq!(input_offset, 27);
}

#[test]
fn an_input_without_cursor_edits_at_the_end() {
    let config = InputConfig::new(false, "ab".to_string(), false, "T".to_string(), None, 0, None);
    let key = KeyEvent::new(KeyCode::Char('c'), false);
    let (value, cursor_position, input_offset) = press(&key, &config, "ab");
    assert_eq!(value, "abc");
    assert_eq!(cursor_position, 3);
    assert_eq!(input_offset, 0);
}

#[test]
fn delete_at_the_end_and_backspace_at_the_start_change_nothing() {
    let config = InputConfig::new(true, "ab".to_string(), false, "T".to_string(), Some(2), 0, None);
    let (value, cursor, _) = press(&KeyEvent::new(KeyCode::Delete, false), &config, "ab");
    assert_eq!((value.as_str(), cursor), ("ab", 2));
    let config = InputConfig::new(true, "ab".to_string(), false, "T".to_string(), Some(0), 0, None);
    let (value, cursor, _) = press(&KeyEvent::new(KeyCode::Backspace, false), &config, "ab");
    assert_eq!((value.as_str(), cursor), ("ab", 0));
    let (value, cursor, _) = press(&KeyEvent::new(KeyCode::Left, false), &config, "ab");
    assert_eq!((value.as_str(), cursor), ("ab", 0));
}

#[test]
fn characters_of_several_bytes_are_edited_whole() {
    let config = InputConfig::new(true, "aé".to_string(), false, "T".to_string(), Some(1), 0, None);
    let (value, cursor, _) = press(&KeyEvent::new(KeyCode::Delete, false), &config, "aé");
    assert_eq!((value.as_str(), cursor), ("a", 1));
    let (value, cursor, _) = press(&KeyEvent::new(KeyCode::Char('ü'), false), &config, "aé");
    assert_eq!((value.as_str(), cursor), ("aüé", 2));
}

#[test]
fn a_cursor_inside_a_character_is_not_accepted() {
    let config = InputConfig::new(true, "aé".to_string(), false, "T".to_string(), Some(2), 0, None);
    assert!(!Input::accepts(&KeyEvent::new(KeyCode::Char('x'), false), &config, "aé"));
    assert!(!Input::accepts(&KeyEvent::new(KeyCode::Delete, false), &config, "aé"));
    // Backspace from behind the text would take out a byte that is not there.
    let config = InputConfig::new(true, "a".to_string(), false, "T".to_string(), Some(2), 0, None);
    assert!(!Input::accepts(&KeyEvent::new(KeyCode::Backspace, false), &config, "a"));
    assert!(Input::accepts(&KeyEvent::new(KeyCode::Left, false), &config, "a"));
}

#[test]
fn other_keys_leave_the_input_alone() {
    let config = InputConfig::new(true, "ab".to_string(), false, "T".to_string(), Some(1), 0, None);
    for code in [KeyCode::Up, KeyCode::Down, KeyCode::Tab, KeyCode::Enter, KeyCode::Esc, KeyCode::Other] {
        let (value, cursor, offset) = press(&KeyEvent::new(code, false), &config, "ab");
        assert_eq!((value.as_str(), cursor, offset), ("ab", 1, 0));
    }
}

#[test]
fn sizes_of_an_input() {
    assert_eq!(InputConfig::height(), 3);
    assert_eq!(InputConfig::default_width(), 36);
    let config = InputConfig::new(true, String::new(), false, "T".to_string(), Some(0), 0, None);
    assert_eq!(config.width(), 36);
    let config = InputConfig::new(true, String::new(), false, "T".to_string(), Some(0), 0, Some(64));
    assert_eq!(config.width(), 68);
}

fn shown(config: &InputConfig) -> (String, String, u16) {
    assert!(Input::can_draw(config));
    let parts = Input::visible(config);
    (parts.before, parts.after, parts.padding)
}

#[test]
fn an_input_without_focus_shows_its_text_and_blanks() {
    let config = InputConfig::new(false, "test".to_string(), false, "T".to_string(), None, 0, None);
    assert_eq!(shown(&config), ("test".to_string(), String::new(), 28));
    let config =
        InputConfig::new(false, "test".to_string(), false, "T".to_string(), None, 1, Some(2));
    assert_eq!(shown(&config), ("es".to_string(), String::new(), 0));
}

#[test]
fn a_hidden_input_shows_stars() {
    let config = InputConfig::new(false, "pw\u{e9}".to_string(), true, "T".to_string(), None, 0, None);
    assert_eq!(shown(&config), ("****".to_string(), String::new(), 28));
}

#[test]
fn the_cursor_takes_the_place_of_the_character_under_it() {
    let config =
        InputConfig::new(true, "test".to_string(), false, "T".to_string(), Some(1), 0, None);
    assert_eq!(shown(&config), ("t".to_string(), "st".to_string(), 29));
    let config =
        InputConfig::new(true, "test".to_string(), false, "T".to_string(), Some(4), 0, None);
    assert_eq!(shown(&config), ("test".to_string(), String::new(), 28));
    let config =
        InputConfig::new(true, "0123456789".to_string(), false, "T".to_string(), Some(5), 3, Some(4));
    assert_eq!(shown(&config), ("34".to_string(), "6".to_string(), 1));
}

#[test]
fn an_input_that_cannot_be_drawn_is_told_apart() {
    // A cursor without focus, and focus without a cursor.
    let config = InputConfig::new(false, "a".to_string(), false, "T".to_string(), Some(0), 0, None);
    assert!(!Input::can_draw(&config));
    let config = InputConfig::new(true, "a".to_string(), false, "T".to_string(), None, 0, None);
    assert!(!Input::can_draw(&config));
    // A window that starts behind the text, or inside a character.
    let config = InputConfig::new(false, "a".to_string(), false, "T".to_string(), None, 2, None);
    assert!(!Input::can_draw(&config));
    let config = InputConfig::new(false, "\u{e9}".to_string(), false, "T".to_string(), None, 1, None);
    assert!(!Input::can_draw(&config));
    // A cursor before the window, behind it, or on a character of two bytes.
    let config = InputConfig::new(true, "abc".to_string(), false, "T".to_string(), Some(0), 1, None);
    assert!(!Input::can_draw(&config));
    let config = InputConfig::new(true, "abc".to_string(), false, "T".to_string(), Some(4), 0, None);
    assert!(!Input::can_draw(&config));
    let config = InputConfig::new(true, "a\u{e9}".to_string(), false, "T".to_string(), Some(1), 0, None);
    assert!(!Input::can_draw(&config));
    // A text of more than 256 bytes.
    let config = InputConfig::new(false, "a".repeat(257), false, "T".to_string(), None, 0, None);
    assert!(!Input::can_draw(&config));
    let config = InputConfig::new(false, "a".repeat(256), false, "T".to_string(), None, 0, None);
    assert!(Input::can_draw(&config));
}
