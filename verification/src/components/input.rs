//! A one-line text input: what it shows, and how a key press edits it.

use crate::key::{KeyCode, KeyEvent};
use crate::text::{chars_before, on_boundary};
use vstd::prelude::*;
use vstd::string::StringSliceAdditionalSpecFns;
use vstd::utf8::is_char_boundary;
use vstd::utf8::encode_utf8;

verus! {

/// Rows an input takes.
pub const INPUT_HEIGHT: u16 = 3;

/// Columns of text an input shows unless it is told otherwise.
pub const DEFAULT_INPUT_WIDTH: u16 = 32;

/// Bytes an input takes at most.
pub const MAX_INPUT_LENGTH: u16 = 256;

/// Columns of padding on each side of the text.
pub const PADDING: u16 = 2;

/// What an input shows: its text and title, whether it has the focus and
/// hides its text, where the cursor stands, the first byte of the text that
/// is visible, and how many columns of text it shows.
#[derive(Debug)]
pub struct InputConfig {
    pub focused: bool,
    pub value: String,
    pub hidden: bool,
    pub title: String,
    pub cursor_position: Option<u16>,
    pub input_offset: u16,
    pub width: Option<u16>,
}

/// The input itself.
#[derive(Debug)]
pub struct Input {}

/// The part of an input that editing looks at: the cursor if the input has
/// one, the first visible byte, and the columns of text if they are set.
pub struct Window {
    pub cursor: Option<u16>,
    pub offset: u16,
    pub width: Option<u16>,
}

impl Window {
    /// Columns of text the input shows.
    pub open spec fn columns(self) -> int {
        match self.width {
            Some(columns) => columns as int,
            None => DEFAULT_INPUT_WIDTH as int,
        }
    }
}

/// An input after a key press: its text, its cursor, and the first visible
/// byte.
pub struct Edited {
    pub value: Seq<char>,
    pub cursor: int,
    pub offset: int,
}

/// The length of a text in bytes, as a 16-bit number.
pub open spec fn len16(text: Seq<char>) -> int {
    (encode_utf8(text).len() as usize as u16) as int
}

/// The cursor an input had before a key press: column zero where it has
/// none.
pub open spec fn cursor_shown(cursor: Option<u16>) -> int {
    match cursor {
        Some(position) => position as int,
        None => 0,
    }
}

/// Whether the cursor stepped right onto the column behind the window.
pub open spec fn past_right_edge(old_cursor: int, cursor: int, offset: int, width: int) -> bool {
    cursor != 0 && old_cursor == cursor - 1 && cursor == offset + width
}

/// The cursor a key press starts from: the one of the input, or the end of
/// the text where the input has none.
pub open spec fn cursor_before(cursor: Option<u16>, text: Seq<char>) -> int {
    match cursor {
        Some(position) => position as int,
        None => len16(text),
    }
}

/// Whether a key press leaves the input at once, before its window is moved:
/// a character typed into a full input, and a step right from the last
/// column an input can have.
pub open spec fn ignored(code: KeyCode, text: Seq<char>, cursor: int) -> bool {
    match code {
        KeyCode::Char(_) => len16(text) == MAX_INPUT_LENGTH,
        KeyCode::Right => cursor == MAX_INPUT_LENGTH - 1,
        _ => false,
    }
}

/// Whether the text can be edited by the key at the cursor: the character
/// to put in or take out must start where the cursor says, and the cursor
/// must have room to move on.
pub open spec fn editable(code: KeyCode, text: Seq<char>, cursor: int) -> bool {
    &&& code is Char ==> on_boundary(text, cursor) && cursor < u16::MAX
    &&& code is Backspace && cursor > 0 ==> on_boundary(text, cursor - 1) && cursor - 1
        < encode_utf8(text).len() as usize
    &&& code is Delete && cursor < len16(text) ==> on_boundary(text, cursor)
}

/// The text after a key press.
pub open spec fn text_after(code: KeyCode, text: Seq<char>, cursor: int) -> Seq<char> {
    match code {
        KeyCode::Char(c) => text.insert(chars_before(text, cursor), c),
        KeyCode::Backspace => if cursor > 0 {
            text.remove(chars_before(text, cursor - 1))
        } else {
            text
        },
        KeyCode::Delete => if cursor < len16(text) {
            text.remove(chars_before(text, cursor))
        } else {
            text
        },
        _ => text,
    }
}

/// The cursor after a key press.
pub open spec fn cursor_after(code: KeyCode, text: Seq<char>, cursor: int) -> int {
    match code {
        KeyCode::Char(_) => cursor + 1,
        KeyCode::Backspace | KeyCode::Left => if cursor > 0 {
            cursor - 1
        } else {
            cursor
        },
        KeyCode::Delete => {
            let end = len16(text_after(code, text, cursor));
            if cursor > end {
                end
            } else {
                cursor
            }
        },
        KeyCode::Right => if cursor < len16(text) {
            cursor + 1
        } else {
            cursor
        },
        _ => cursor,
    }
}

/// The first visible byte after the cursor moved from `old_cursor` to
/// `cursor`: the window follows a cursor that steps over its right edge, and
/// one that steps back onto or over its left edge.
pub open spec fn offset_after(old_cursor: int, cursor: int, offset: int, width: int) -> int {
    if past_right_edge(old_cursor, cursor, offset, width) {
        cursor - width + 1
    } else if old_cursor == cursor + 1 && cursor <= offset {
        if offset != 0 {
            offset - 1
        } else {
            offset
        }
    } else {
        offset
    }
}

/// What an input shows of its text: what stands before the cursor, what
/// stands behind the character under it, and how many blanks fill the line.
/// An input without cursor shows all of its text before.
#[derive(Debug)]
pub struct Shown {
    pub before: String,
    pub after: String,
    pub padding: u16,
}

/// The bytes that an input shows, as the contracts see them.
pub struct ShownBytes {
    pub before: Seq<u8>,
    pub after: Seq<u8>,
    pub padding: int,
}

/// The bytes of the text of an input as it is drawn: a star for each byte
/// of a hidden text.
pub open spec fn drawn(config: InputConfig) -> Seq<u8> {
    if config.hidden {
        Seq::new(encode_utf8(config.value@).len(), |i: int| 42u8)
    } else {
        encode_utf8(config.value@)
    }
}

/// The bytes of the text that lie in the window of an input: from the first
/// visible byte on, as many as the input shows columns.
pub open spec fn in_window(config: InputConfig) -> Seq<u8> {
    let text = drawn(config);
    let tail = text.subrange(config.input_offset as int, text.len() as int);
    if config.text_width() < tail.len() {
        tail.subrange(0, config.text_width())
    } else {
        tail
    }
}

/// The column of the cursor within the window.
pub open spec fn cursor_column(config: InputConfig) -> int {
    cursor_shown(config.cursor_position) - config.input_offset
}

/// Whether an input can be drawn: its text has at most `MAX_INPUT_LENGTH`
/// bytes, it has a cursor exactly while it has the focus, its window starts
/// and ends between characters, and the cursor stands in the window on a
/// character of one byte or behind the last one.
pub open spec fn drawable(config: InputConfig) -> bool {
    let text = drawn(config);
    let tail = text.subrange(config.input_offset as int, text.len() as int);
    let window = in_window(config);
    let column = cursor_column(config);
    &&& encode_utf8(config.value@).len() <= MAX_INPUT_LENGTH
    &&& config.focused == config.cursor_position is Some
    &&& config.input_offset <= text.len()
    &&& is_char_boundary(text, config.input_offset as int)
    &&& config.text_width() < tail.len() ==> is_char_boundary(tail, config.text_width())
    &&& config.focused ==> {
        &&& 0 <= column <= window.len()
        &&& is_char_boundary(window, column)
        &&& column < window.len() ==> is_char_boundary(
            window.subrange(column, window.len() as int),
            1,
        )
    }
}

/// What an input shows.
pub open spec fn shown(config: InputConfig) -> ShownBytes {
    let window = in_window(config);
    let column = cursor_column(config);
    if !config.focused {
        ShownBytes {
            before: window,
            after: Seq::empty(),
            padding: config.text_width() - window.len(),
        }
    } else if column < window.len() {
        ShownBytes {
            before: window.subrange(0, column),
            after: window.subrange(column + 1, window.len() as int),
            padding: config.text_width() - (window.len() - 1),
        }
    } else {
        ShownBytes {
            before: window,
            after: Seq::empty(),
            padding: config.text_width() - window.len(),
        }
    }
}

impl InputConfig {
    pub fn new(
        focused: bool,
        value: String,
        hidden: bool,
        title: String,
        cursor_position: Option<u16>,
        input_offset: u16,
        width: Option<u16>,
    ) -> (config: Self)
        ensures
            config.focused == focused,
            config.value == value,
            config.hidden == hidden,
            config.title == title,
            config.cursor_position == cursor_position,
            config.input_offset == input_offset,
            config.width == width,
    {
        InputConfig { focused, value, hidden, title, cursor_position, input_offset, width }
    }

    /// Rows an input takes.
    pub fn height() -> (rows: u16)
        ensures
            rows == INPUT_HEIGHT,
    {
        INPUT_HEIGHT
    }

    /// Columns an input of the default width takes, padding included.
    pub fn default_width() -> (columns: u16)
        ensures
            columns == DEFAULT_INPUT_WIDTH + 2 * PADDING,
    {
        DEFAULT_INPUT_WIDTH + 2 * PADDING
    }

    /// The part of the input that editing looks at.
    pub open spec fn window(&self) -> Window {
        Window { cursor: self.cursor_position, offset: self.input_offset, width: self.width }
    }

    /// Columns of text this input shows.
    pub open spec fn text_width(&self) -> int {
        self.window().columns()
    }

    /// Columns this input takes, padding included.
    pub fn width(&self) -> (columns: u16)
        requires
            self.text_width() + 2 * PADDING <= u16::MAX,
        ensures
            columns == self.text_width() + 2 * PADDING,
    {
        let text_width = match self.width {
            Some(columns) => columns,
            None => DEFAULT_INPUT_WIDTH,
        };
        text_width + 2 * PADDING
    }
}

/// A text of `count` stars.
fn stars(count: usize) -> (text: String)
    ensures
        text@ == Seq::new(count as nat, |i: int| '*'),
{
    let mut text = String::new();
    let mut i: usize = 0;
    while i < count
        invariant
            i <= count,
            text@ == Seq::new(i as nat, |k: int| '*'),
        decreases count - i,
    {
        text.push('*');
        i = i + 1;
        assert(text@ =~= Seq::new(i as nat, |k: int| '*'));
    }
    text
}

/// The text of an input as it is drawn.
fn draw_text(config: &InputConfig) -> (text: String)
    ensures
        encode_utf8(text@) == drawn(*config),
{
    if config.hidden {
        let text = stars(config.value.as_str().as_bytes().len());
        proof {
            let count = encode_utf8(config.value@).len();
            assert(vstd::utf8::is_ascii_chars(text@)) by {
                assert forall|i: int| 0 <= i < text@.len() implies text@[i] as u32 <= 127 by {
                    assert(text@[i] == '*');
                }
            }
            vstd::utf8::is_ascii_chars_encode_utf8(text@);
            assert(encode_utf8(text@) =~= drawn(*config));
        }
        text
    } else {
        config.value.clone()
    }
}

impl Input {
    /// What an input shows of its text.
    ///
    /// The window starts at the first visible byte and has as many bytes as
    /// the input shows columns, or ends with the text. An input that has
    /// the focus shows its cursor in place of the character under it; what
    /// is left of the line is filled with blanks.
    pub fn visible(config: &InputConfig) -> (parts: Shown)
        requires
            drawable(*config),
        ensures
            encode_utf8(parts.before@) == shown(*config).before,
            encode_utf8(parts.after@) == shown(*config).after,
            parts.padding == shown(*config).padding,
    {
        let text = draw_text(config);
        let width = match config.width {
            Some(columns) => columns,
            None => DEFAULT_INPUT_WIDTH,
        };
        let (_, tail) = text.as_str().split_at(config.input_offset as usize);
        let window = if (width as usize) < tail.as_bytes().len() {
            tail.split_at(width as usize).0
        } else {
            tail
        };
        let length = window.as_bytes().len();
        assert(window.spec_bytes() =~= in_window(*config));
        if !config.focused {
            return Shown {
                before: window.to_owned(),
                after: String::new(),
                padding: width - length as u16,
            };
        }
        let cursor = match config.cursor_position {
            Some(position) => position,
            None => 0,
        };
        let column = (cursor - config.input_offset) as usize;
        let (first, second) = window.split_at(column);
        if second.as_bytes().len() > 0 {
            let (_, rest) = second.split_at(1);
            assert(first.spec_bytes().len() == column);
            assert(rest.spec_bytes() =~= shown(*config).after);
            Shown {
                before: first.to_owned(),
                after: rest.to_owned(),
                padding: width - (length - 1) as u16,
            }
        } else {
            assert(first.spec_bytes() =~= window.spec_bytes());
            Shown { before: first.to_owned(), after: String::new(), padding: width - length as u16 }
        }
    }

    /// Whether `visible` can draw the input.
    pub fn can_draw(config: &InputConfig) -> (can: bool)
        ensures
            can == drawable(*config),
    {
        let text = draw_text(config);
        let width = match config.width {
            Some(columns) => columns,
            None => DEFAULT_INPUT_WIDTH,
        };
        if config.value.as_str().as_bytes().len() > MAX_INPUT_LENGTH as usize {
            return false;
        }
        if config.focused != config.cursor_position.is_some() {
            return false;
        }
        if config.input_offset as usize > text.as_str().as_bytes().len()
            || !text.as_str().is_char_boundary(config.input_offset as usize) {
            return false;
        }
        let (_, tail) = text.as_str().split_at(config.input_offset as usize);
        let cut = (width as usize) < tail.as_bytes().len();
        if cut && !tail.is_char_boundary(width as usize) {
            return false;
        }
        let window = if cut {
            tail.split_at(width as usize).0
        } else {
            tail
        };
        assert(window.spec_bytes() =~= in_window(*config));
        if !config.focused {
            return true;
        }
        let cursor = match config.cursor_position {
            Some(position) => position,
            None => 0,
        };
        if cursor < config.input_offset {
            return false;
        }
        let column = (cursor - config.input_offset) as usize;
        if column > window.as_bytes().len() || !window.is_char_boundary(column) {
            return false;
        }
        let (_, second) = window.split_at(column);
        if column < window.as_bytes().len() {
            second.is_char_boundary(1)
        } else {
            true
        }
    }

    /// What a key press makes of an input that shows `text`.
    pub open spec fn after_key(code: KeyCode, window: Window, text: Seq<char>) -> Edited {
        let cursor = cursor_before(window.cursor, text);
        if ignored(code, text, cursor) {
            Edited { value: text, cursor, offset: window.offset as int }
        } else {
            let moved = cursor_after(code, text, cursor);
            Edited {
                value: text_after(code, text, cursor),
                cursor: moved,
                offset: offset_after(
                    cursor_shown(window.cursor),
                    moved,
                    window.offset as int,
                    window.columns(),
                ),
            }
        }
    }

    /// Whether the input can take the key press: the cursor stands where a
    /// character can be put in or taken out, and no column runs past what 16
    /// bits hold.
    pub open spec fn handles(code: KeyCode, window: Window, text: Seq<char>) -> bool {
        let cursor = cursor_before(window.cursor, text);
        let moved = cursor_after(code, text, cursor);
        let shown = cursor_shown(window.cursor);
        let offset = window.offset as int;
        let width = window.columns();
        ignored(code, text, cursor) || {
            &&& editable(code, text, cursor)
            &&& moved != 0 && shown == moved - 1 ==> offset + width <= u16::MAX
            &&& if past_right_edge(shown, moved, offset, width) {
                moved - width + 1 <= u16::MAX
            } else {
                moved < u16::MAX
            }
        }
    }

    /// Whether `handle_key` can take the key press.
    pub fn accepts(key: &KeyEvent, config: &InputConfig, previous_value: &str) -> (accepted: bool)
        ensures
            accepted == Input::handles(key.code, config.window(), previous_value@),
    {
        let length = previous_value.len();
        let length16 = #[verifier::truncate] (length as u16);
        let cursor = match config.cursor_position {
            Some(position) => position,
            None => length16,
        };
        let shown = match config.cursor_position {
            Some(position) => position,
            None => 0,
        };
        let width = match config.width {
            Some(columns) => columns,
            None => DEFAULT_INPUT_WIDTH,
        };
        let mut moved = cursor;
        match key.code {
            KeyCode::Char(_) => {
                if length16 == MAX_INPUT_LENGTH {
                    return true;
                }
                if cursor == u16::MAX || !previous_value.is_char_boundary(cursor as usize) {
                    return false;
                }
                moved = cursor + 1;
            },
            KeyCode::Backspace => {
                if cursor > 0 {
                    if cursor as usize - 1 >= length || !previous_value.is_char_boundary(
                        cursor as usize - 1,
                    ) {
                        return false;
                    }
                    moved = cursor - 1;
                }
            },
            KeyCode::Delete => {
                if cursor < length16 {
                    if !previous_value.is_char_boundary(cursor as usize) {
                        return false;
                    }
                    // The text after the key press is one character shorter:
                    // where the cursor ends up is settled by `handle_key`.
                    return Input::delete_accepted(config, previous_value);
                }
                if cursor > length16 {
                    moved = length16;
                }
            },
            KeyCode::Left => {
                if cursor > 0 {
                    moved = cursor - 1;
                }
            },
            KeyCode::Right => {
                if cursor == MAX_INPUT_LENGTH - 1 {
                    return true;
                }
                if cursor < length16 {
                    moved = cursor + 1;
                }
            },
            _ => {},
        }
        Input::window_accepted(shown, moved, config.input_offset, width)
    }

    /// Whether the window of the input can follow the cursor to `moved`.
    fn window_accepted(shown: u16, moved: u16, offset: u16, width: u16) -> (accepted: bool)
        ensures
            accepted == {
                &&& moved != 0 && shown == moved - 1 ==> offset + width <= u16::MAX
                &&& if past_right_edge(shown as int, moved as int, offset as int, width as int) {
                    moved - width + 1 <= u16::MAX
                } else {
                    moved < u16::MAX
                }
            },
    {
        if moved != 0 && shown == moved - 1 {
            if offset as u32 + width as u32 > 0xFFFF {
                return false;
            }
            if moved == offset + width {
                return moved as u32 - width as u32 + 1 <= 0xFFFF;
            }
        }
        moved < u16::MAX
    }

    /// Whether the input can take a Delete that takes a character out.
    fn delete_accepted(config: &InputConfig, previous_value: &str) -> (accepted: bool)
        requires
            cursor_before(config.cursor_position, previous_value@) < len16(previous_value@),
            on_boundary(previous_value@, cursor_before(config.cursor_position, previous_value@)),
        ensures
            accepted == Input::handles(KeyCode::Delete, config.window(), previous_value@),
    {
        let (_, cursor, _) = Input::edit(&KeyCode::Delete, config, previous_value);
        let shown = match config.cursor_position {
            Some(position) => position,
            None => 0,
        };
        let width = match config.width {
            Some(columns) => columns,
            None => DEFAULT_INPUT_WIDTH,
        };
        Input::window_accepted(shown, cursor, config.input_offset, width)
    }

    /// The text and the cursor after a key press; the window is as it was.
    fn edit(code: &KeyCode, config: &InputConfig, previous_value: &str) -> (result: (
        String,
        u16,
        bool,
    ))
        requires
            ({
                let text = previous_value@;
                let cursor = cursor_before(config.cursor_position, text);
                ignored(*code, text, cursor) || editable(*code, text, cursor)
            }),
        ensures
            ({
                let text = previous_value@;
                let cursor = cursor_before(config.cursor_position, text);
                if ignored(*code, text, cursor) {
                    result.0@ == text && result.1 == cursor && result.2
                } else {
                    result.0@ == text_after(*code, text, cursor) && result.1 == cursor_after(
                        *code,
                        text,
                        cursor,
                    ) && !result.2
                }
            }),
    {
        let mut value = previous_value.to_owned();
        let length16 = #[verifier::truncate] (value.as_str().len() as u16);
        let mut cursor_position = match config.cursor_position {
            Some(position) => position,
            None => length16,
        };
        match code {
            KeyCode::Char(c) => {
                if length16 == MAX_INPUT_LENGTH {
                    return (value, cursor_position, true);
                }
                value.insert(cursor_position as usize, *c);
                cursor_position = cursor_position + 1;
            },
            KeyCode::Backspace => {
                if cursor_position > 0 {
                    value.remove(cursor_position as usize - 1);
                    cursor_position = cursor_position - 1;
                }
            },
            KeyCode::Delete => {
                if cursor_position < length16 {
                    value.remove(cursor_position as usize);
                }
                let shorter = #[verifier::truncate] (value.as_str().len() as u16);
                if cursor_position > shorter {
                    cursor_position = shorter;
                }
            },
            KeyCode::Left => {
                if cursor_position > 0 {
                    cursor_position = cursor_position - 1;
                }
            },
            KeyCode::Right => {
                if cursor_position == MAX_INPUT_LENGTH - 1 {
                    return (value, cursor_position, true);
                }
                if cursor_position < length16 {
                    cursor_position = cursor_position + 1;
                }
            },
            _ => {},
        }
        (value, cursor_position, false)
    }

    /// Edits an input by a key press: the new text, the new cursor, and the
    /// new first visible byte.
    ///
    /// A character is put in at the cursor unless the input is full;
    /// Backspace takes out the character before the cursor, Delete the one
    /// at it; Left and Right move the cursor within the text. The window
    /// moves by one where the cursor steps over its right edge or back over
    /// its left edge.
    pub fn handle_key(key: &KeyEvent, config: &InputConfig, previous_value: &str) -> (result: (
        String,
        u16,
        u16,
    ))
        requires
            Input::handles(key.code, config.window(), previous_value@),
        ensures
            result.0@ == Input::after_key(key.code, config.window(), previous_value@).value,
            result.1 == Input::after_key(key.code, config.window(), previous_value@).cursor,
            result.2 == Input::after_key(key.code, config.window(), previous_value@).offset,
    {
        let (value, cursor_position, done) = Input::edit(&key.code, config, previous_value);
        let mut input_offset = config.input_offset;
        if done {
            return (value, cursor_position, input_offset);
        }
        let previous_cursor_position = match config.cursor_position {
            Some(position) => position,
            None => 0,
        };
        let width = match config.width {
            Some(columns) => columns,
            None => DEFAULT_INPUT_WIDTH,
        };
        if cursor_position != 0 && previous_cursor_position == cursor_position - 1
            && cursor_position == input_offset + width {
            input_offset = cursor_position - width + 1;
        } else if previous_cursor_position == cursor_position + 1 && cursor_position
            <= input_offset {
            if input_offset != 0 {
                input_offset = input_offset - 1;
            }
        }
        (value, cursor_position, input_offset)
    }
}

} // verus!
