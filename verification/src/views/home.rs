//! The home screen: the records of the user, the selection, and the filter.

use crate::components::input::{Input, InputConfig, Window};
use crate::key::{KeyCode, KeyEvent};
use crate::layout::Rect;
use crate::popups::insert_domain_password::{InsertDomainPassword, InsertDomainPasswordExitState};
use crate::popups::insert_master::{InsertMaster, InsertMasterExitState};
use crate::popups::insert_password::{InsertPassword, InsertPasswordExitState};
use crate::records::{Entry, ReadOnlyRecords};
use crate::text::{chars_of, text_from};
use crate::user::{Change, RecordOperationConfig, User};
use crate::views::home::filter::{
    bytes_upto, common_start, common_start_of, comparable, extended, filtered, largest_prefix,
    lemma_common_start, narrow, next_level, prefix_bytes, rest_of,
};
use crate::views::home::list::{
    can_select, content_rows, csv_line, csv_lines, entry_width, find_place, holds, levels_of,
    list_records, listed, scrolled, secrets_of, selectable, switch, switched, switched_upwards,
    widest, Secrets, SecretsView, BANNER_HEIGHT, DOMAIN_PASSWORD_LIST_ITEM_HEIGHT,
};
use vstd::prelude::*;
use vstd::utf8::encode_utf8;

pub mod filter;
pub mod list;

verus! {

/// Columns left free to the right of the list.
pub const RIGHT_MARGIN: u16 = 6;

/// Columns left free to the left of a record.
pub const LEFT_PADDING: u16 = 2;

/// Columns the list takes at least.
pub const MIN_WIDTH: u16 = 128;

/// Columns of text the filter input shows.
pub const FILTER_INPUT_WIDTH: u16 = 64;

/// Columns of the legend, `Press ? for help`.
pub const LEGEND_WIDTH: u16 = 16;

/// The keys of the home screen, as the help popup lists them.
pub const HELP_TEXT: &'static str =
    "NAVIGATION:\n  j / Down     Move down\n  k / Up       Move up\n  h / Left     Scroll left\n  l / Right    Scroll right\n\nACTIONS:\n  a            Add new secret\n  d            Delete selected secret\n  e            Edit selected secret\n  c            Copy password to clipboard\n  Enter        Toggle password visibility\n\nOTHER:\n  f            Enter filter/search mode\n  x            Export secrets to CSV\n  q            Quit application\n  ?            Show this help";

/// Whether keys go to the list or to the filter.
#[derive(Debug, Clone, Copy, PartialEq, Eq, Structural)]
pub enum HomeViewState {
    Normal,
    Filter,
}

/// What the master password is being asked for.
#[derive(Debug, Clone, Copy, PartialEq, Eq, Structural)]
pub enum Operation {
    Add,
    Remove,
    Modify,
}

/// What a key does on the list.
#[derive(Debug, Clone, Copy, PartialEq, Eq, Structural)]
pub enum Command {
    Quit,
    Down,
    Up,
    Left,
    Right,
    Toggle,
    Add,
    Delete,
    Edit,
    Copy,
    Filter,
    Export,
    Help,
    Nothing,
}

/// What the caller is to do after a key press on the screen.
#[derive(Debug, Clone, Copy, PartialEq, Eq, Structural)]
pub enum HomeAction {
    /// Nothing.
    Stay,
    /// Open the login screen: the user has left.
    Logout,
    /// Open the popup that asks for a domain and a secret.
    OpenInsertDomainPassword,
    /// Open the popup that asks for the master password.
    OpenInsertMaster,
    /// Open the popup that asks for a new secret of the selected record.
    OpenInsertPassword,
    /// Put the secret of the selected record on the clipboard.
    Copy,
    /// Write the records to a file.
    Export,
    /// Open the help popup in the size given.
    Help(u16, u16),
}

/// What the screen tells the user in a message popup.
#[derive(Debug, Clone, Copy, PartialEq, Eq, Structural)]
pub enum Notice {
    CannotCreateRecord,
    CannotRemoveRecord,
    CannotModifyRecord,
    PasswordEmpty,
}

/// What the caller is to do after a popup of the screen has closed.
#[derive(Debug, Clone, Copy, PartialEq, Eq, Structural)]
pub enum Flow {
    /// Nothing: the popup was quit.
    Nothing,
    /// Show the notice.
    Notify(Notice),
    /// Open the popup that asks for the master password.
    AskMaster,
}

/// What the caller is to do after the master password was entered.
#[derive(Debug)]
pub enum Request {
    /// Nothing: the popup was quit.
    Nothing,
    /// Show the notice.
    Notify(Notice),
    /// Change the vault as the configuration says, and hand the outcome to
    /// `records_changed` or show `failure_notice`.
    Change(Change, RecordOperationConfig),
}

/// What a record that waits for the master password stands for.
pub open spec fn waiting(secret: Option<NewSecret>) -> Option<Entry> {
    match secret {
        Some(new) => Some((new.domain@, new.password@)),
        None => None,
    }
}

/// The change of the vault that an operation of the screen asks for.
pub open spec fn change_for(operation: Operation) -> Change {
    match operation {
        Operation::Add => Change::Add,
        Operation::Remove => Change::Remove,
        Operation::Modify => Change::Modify,
    }
}

/// What the screen needs to know of the terminal to take a key: its size,
/// the rows of the window that the list scrolls in, and whether the list is
/// scrolled as far right as it goes.
#[derive(Debug, Clone, Copy, PartialEq, Eq, Structural)]
pub struct Room {
    pub rect: Rect,
    pub inner_buffer_height: u16,
    pub at_right_edge: bool,
}

/// What a key does on the list.
pub open spec fn command_for(code: KeyCode) -> Command {
    match code {
        KeyCode::Esc => Command::Quit,
        KeyCode::Down => Command::Down,
        KeyCode::Up => Command::Up,
        KeyCode::Left => Command::Left,
        KeyCode::Right => Command::Right,
        KeyCode::Enter => Command::Toggle,
        KeyCode::Char(c) => if c == 'q' {
            Command::Quit
        } else if c == 'j' {
            Command::Down
        } else if c == 'k' {
            Command::Up
        } else if c == 'h' {
            Command::Left
        } else if c == 'l' {
            Command::Right
        } else if c == 'a' {
            Command::Add
        } else if c == 'd' {
            Command::Delete
        } else if c == 'e' {
            Command::Edit
        } else if c == 'c' {
            Command::Copy
        } else if c == 'f' {
            Command::Filter
        } else if c == 'x' {
            Command::Export
        } else if c == '?' {
            Command::Help
        } else {
            Command::Nothing
        },
        _ => Command::Nothing,
    }
}

/// What a key does on the list.
pub fn command_of(code: &KeyCode) -> (command: Command)
    ensures
        command == command_for(*code),
{
    match code {
        KeyCode::Esc => Command::Quit,
        KeyCode::Down => Command::Down,
        KeyCode::Up => Command::Up,
        KeyCode::Left => Command::Left,
        KeyCode::Right => Command::Right,
        KeyCode::Enter => Command::Toggle,
        KeyCode::Char(c) => if *c == 'q' {
            Command::Quit
        } else if *c == 'j' {
            Command::Down
        } else if *c == 'k' {
            Command::Up
        } else if *c == 'h' {
            Command::Left
        } else if *c == 'l' {
            Command::Right
        } else if *c == 'a' {
            Command::Add
        } else if *c == 'd' {
            Command::Delete
        } else if *c == 'e' {
            Command::Edit
        } else if *c == 'c' {
            Command::Copy
        } else if *c == 'f' {
            Command::Filter
        } else if *c == 'x' {
            Command::Export
        } else if *c == '?' {
            Command::Help
        } else {
            Command::Nothing
        },
        _ => Command::Nothing,
    }
}

impl Notice {
    /// The words of the notice.
    pub fn text(&self) -> (words: &'static str)
        ensures
            words@ == match self {
                Notice::CannotCreateRecord => "Cannot create record"@,
                Notice::CannotRemoveRecord => "Cannot remove record"@,
                Notice::CannotModifyRecord => "Cannot modify record"@,
                Notice::PasswordEmpty => "Password cannot be empty"@,
            },
    {
        match self {
            Notice::CannotCreateRecord => "Cannot create record",
            Notice::CannotRemoveRecord => "Cannot remove record",
            Notice::CannotModifyRecord => "Cannot modify record",
            Notice::PasswordEmpty => "Password cannot be empty",
        }
    }
}

/// How far the list is scrolled.
#[derive(Debug, Clone, Copy, PartialEq, Eq, Structural)]
pub struct Position {
    pub offset_x: u16,
    pub offset_y: u16,
}

impl Position {
    /// Columns scrolled.
    pub fn offset_x(&self) -> (columns: u16)
        ensures
            columns == self.offset_x,
    {
        self.offset_x
    }

    /// Rows scrolled.
    pub fn offset_y(&self) -> (rows: u16)
        ensures
            rows == self.offset_y,
    {
        self.offset_y
    }
}

impl Default for Position {
    fn default() -> (position: Self)
        ensures
            position == (Position { offset_x: 0, offset_y: 0 }),
    {
        Position { offset_x: 0, offset_y: 0 }
    }
}

/// A record that waits for the master password to be stored.
#[derive(Debug)]
pub struct NewSecret {
    pub domain: String,
    pub password: String,
}

/// The home screen: the user, the levels of the filter with the records
/// that match so far (the first level holds all records, the last one is
/// shown), how far the list is scrolled, the filter and its input, and the
/// change that waits for the master password.
#[derive(Debug)]
pub struct Home {
    pub user: User,
    pub secrets: Vec<Secrets>,
    pub position: Position,
    pub area: Rect,
    pub state: HomeViewState,
    pub cursor: u16,
    pub input_offset: u16,
    pub filter_value: String,
    pub new_secret: Option<NewSecret>,
    pub operation: Option<Operation>,
}

impl Home {
    /// The screen always has a level to show.
    pub open spec fn wf(&self) -> bool {
        self.secrets@.len() > 0
    }

    /// The level that is shown.
    pub open spec fn shown_level(&self) -> SecretsView {
        self.secrets@.last()@
    }

    /// The screen of a user who has just logged in: all records, the first
    /// one selected, no secret in clear, no filter.
    pub fn new(user: User, records: ReadOnlyRecords, position: Position, area: Rect) -> (home: Self)
        ensures
            home.wf(),
            home.user == user,
            home.secrets@.len() == 1,
            home.shown_level() == (SecretsView {
                secrets: listed(records@),
                selected_secret: 0,
                shown_secrets: Seq::empty(),
            }),
            home.position == position,
            home.area == area,
            home.state == HomeViewState::Normal,
            home.cursor == 0,
            home.input_offset == 0,
            home.filter_value@ == Seq::<char>::empty(),
            home.new_secret is None,
            home.operation is None,
    {
        let level = Secrets {
            secrets: list_records(&records),
            selected_secret: 0,
            shown_secrets: Vec::new(),
        };
        let mut secrets: Vec<Secrets> = Vec::new();
        secrets.push(level);
        Home {
            user,
            secrets,
            position: Position { offset_x: position.offset_x, offset_y: position.offset_y },
            area,
            state: HomeViewState::Normal,
            cursor: 0,
            input_offset: 0,
            filter_value: String::new(),
            new_secret: None,
            operation: None,
        }
    }

    /// The text of the filter.
    pub fn filter_value(&self) -> (value: String)
        ensures
            value@ == self.filter_value@,
    {
        self.filter_value.clone()
    }

    /// What editing sees of the filter input.
    pub open spec fn window(&self) -> Window {
        Window {
            cursor: if self.state == HomeViewState::Filter {
                Some(self.cursor)
            } else {
                None
            },
            offset: self.input_offset,
            width: Some(FILTER_INPUT_WIDTH),
        }
    }

    /// What the filter input shows. It has the focus and a cursor while keys
    /// go to the filter.
    pub fn generate_input_config(&self) -> (config: InputConfig)
        ensures
            config.focused == (self.state == HomeViewState::Filter),
            config.value@ == self.filter_value@,
            !config.hidden,
            config.title@ == "Filter"@,
            config.window() == self.window(),
    {
        let focused = match self.state {
            HomeViewState::Filter => true,
            _ => false,
        };
        InputConfig::new(
            focused,
            self.filter_value(),
            false,
            "Filter".to_owned(),
            if focused {
                Some(self.cursor)
            } else {
                None
            },
            self.input_offset,
            Some(FILTER_INPUT_WIDTH),
        )
    }

    /// Rows of the header.
    pub fn header_height(&self) -> (rows: u16)
        ensures
            rows == BANNER_HEIGHT,
    {
        BANNER_HEIGHT
    }

    /// Rows of the legend.
    pub fn legend_height(&self) -> (rows: u16)
        ensures
            rows == BANNER_HEIGHT,
    {
        BANNER_HEIGHT
    }

    /// The screen draws no header of the application.
    pub fn needs_header(&self) -> (needed: bool)
        ensures
            !needed,
    {
        false
    }

    /// The columns and rows that the screen needs.
    pub fn min_area(&self) -> (area: (u16, u16))
        ensures
            area == (40u16, 40u16),
    {
        (40, 40)
    }

    /// The row at which the record at `index` starts: below the header, the
    /// legend and the records before it. The row must fit 16 bits.
    pub fn index_offset(&self, index: u16) -> (row: u16)
        requires
            index * DOMAIN_PASSWORD_LIST_ITEM_HEIGHT + 1 + 2 * BANNER_HEIGHT <= u16::MAX,
        ensures
            row == index * DOMAIN_PASSWORD_LIST_ITEM_HEIGHT + 1 + 2 * BANNER_HEIGHT,
    {
        index * DOMAIN_PASSWORD_LIST_ITEM_HEIGHT + 1 + self.header_height() + self.legend_height()
    }

    /// Whether the levels can follow the filter from its old to its new text.
    /// The two texts must be comparable; there must be a level for the
    /// common start of the two, and at most one beyond it; and what is left
    /// of the new text must be as many bytes as characters long.
    pub open spec fn filters(&self, previous_value: Seq<char>, new_value: Seq<char>) -> bool {
        let kept = prefix_bytes(previous_value, new_value);
        let rest = rest_of(previous_value, new_value);
        &&& comparable(previous_value, new_value)
        &&& kept + 1 <= self.secrets@.len() <= kept + 2
        &&& encode_utf8(rest).len() <= rest.len()
    }

    /// Follows the filter from its old text to its new text: the levels of
    /// what the two have in common stay, and each character of the rest adds
    /// a level with the records of the level before that hold the character
    /// in what is left of their domain. After a level without records no
    /// more is added.
    pub fn fuzzy_filter(&mut self, previous_value: String, new_value: String)
        requires
            old(self).filters(previous_value@, new_value@),
        ensures
            levels_of(final(self).secrets@) == filtered(
                levels_of(old(self).secrets@),
                previous_value@,
                new_value@,
            ),
            final(self).wf(),
            final(self).user == old(self).user,
            final(self).position == old(self).position,
            final(self).area == old(self).area,
            final(self).state == old(self).state,
            final(self).cursor == old(self).cursor,
            final(self).input_offset == old(self).input_offset,
            final(self).filter_value == old(self).filter_value,
            final(self).new_secret == old(self).new_secret,
            final(self).operation == old(self).operation,
    {
        let prefix = largest_prefix(previous_value.as_str(), new_value.as_str());
        let kept = prefix.as_str().as_bytes().len();
        let new_chars = chars_of(new_value.as_str());
        let rest = if kept <= new_chars.len() {
            chars_of(text_from(&new_chars, kept).as_str())
        } else {
            Vec::new()
        };
        assert(rest@ == rest_of(previous_value@, new_value@));
        if self.secrets.len() - 1 > kept {
            self.secrets.pop();
        }
        assert(levels_of(self.secrets@) =~= levels_of(old(self).secrets@).take(kept + 1));
        let ghost target = filtered(levels_of(old(self).secrets@), previous_value@, new_value@);
        let mut i: usize = 0;
        let mut done = false;
        assert(rest@.skip(0) =~= rest@);
        while i < rest.len() && !done
            invariant
                i <= rest.len(),
                self.secrets@.len() > 0,
                done ==> levels_of(self.secrets@) == target,
                !done ==> extended(levels_of(self.secrets@), rest@.skip(i as int)) == target,
                self.user == old(self).user,
                self.position == old(self).position,
                self.area == old(self).area,
                self.state == old(self).state,
                self.cursor == old(self).cursor,
                self.input_offset == old(self).input_offset,
                self.filter_value == old(self).filter_value,
                self.new_secret == old(self).new_secret,
                self.operation == old(self).operation,
            decreases rest.len() - i,
        {
            let ghost before = levels_of(self.secrets@);
            let last = &self.secrets[self.secrets.len() - 1];
            let (matching, lit) = narrow(&last.secrets, &last.shown_secrets, rest[i]);
            let level = Secrets { secrets: matching, selected_secret: 0, shown_secrets: lit };
            assert(level@ == next_level(before.last(), rest@[i as int]));
            assert(rest@.skip(i as int)[0] == rest@[i as int]);
            assert(rest@.skip(i as int).drop_first() =~= rest@.skip(i + 1));
            done = level.secrets.len() == 0;
            self.secrets.push(level);
            assert(levels_of(self.secrets@) =~= before.push(level@));
            i = i + 1;
        }
    }

    /// Switches the secret of a domain to clear or to hidden in every level
    /// but the last. A level without the domain switches its first record.
    pub fn set_shown_upwards(&mut self, secret: String, is_shown: bool)
        requires
            old(self).wf(),
        ensures
            levels_of(final(self).secrets@) == switched_upwards(
                levels_of(old(self).secrets@),
                secret@,
                is_shown,
            ),
            final(self).user == old(self).user,
            final(self).position == old(self).position,
            final(self).area == old(self).area,
            final(self).state == old(self).state,
            final(self).cursor == old(self).cursor,
            final(self).input_offset == old(self).input_offset,
            final(self).filter_value == old(self).filter_value,
            final(self).new_secret == old(self).new_secret,
            final(self).operation == old(self).operation,
    {
        let ghost before = levels_of(self.secrets@);
        let ghost target = switched_upwards(before, secret@, is_shown);
        let mut rest: Vec<Secrets> = Vec::new();
        std::mem::swap(&mut self.secrets, &mut rest);
        let mut levels: Vec<Secrets> = Vec::new();
        assert(levels_of(levels@) =~= target.take(0));
        assert(levels_of(rest@) =~= before.skip(0));
        while rest.len() > 0
            invariant
                before.len() == target.len(),
                target == switched_upwards(before, secret@, is_shown),
                levels@.len() + rest@.len() == before.len(),
                levels_of(levels@) == target.take(levels@.len() as int),
                levels_of(rest@) == before.skip(levels@.len() as int),
            decreases rest.len(),
        {
            let ghost done = levels_of(levels@);
            let ghost n = levels@.len() as int;
            let ghost waiting = rest@;
            let mut level = rest.remove(0);
            assert(level@ == levels_of(waiting)[0]);
            assert(levels_of(rest@) =~= levels_of(waiting).skip(1));
            assert(before.skip(n).skip(1) =~= before.skip(n + 1));
            if rest.len() > 0 {
                let place = find_place(&level.secrets, secret.as_str());
                level.shown_secrets = switch(&level.shown_secrets, place, is_shown);
            }
            assert(level@ == target[n]);
            levels.push(level);
            assert(levels_of(levels@) =~= done.push(target[n]));
            assert(levels_of(levels@) =~= target.take(n + 1));
            assert(levels_of(rest@) =~= before.skip(n + 1));
        }
        assert(target.take(target.len() as int) =~= target);
        self.secrets = levels;
    }

    /// Whether two screens differ in their levels and their scrolling at
    /// most.
    pub open spec fn same_frame(&self, other: &Home) -> bool {
        &&& self.user == other.user
        &&& self.area == other.area
        &&& self.state == other.state
        &&& self.cursor == other.cursor
        &&& self.input_offset == other.input_offset
        &&& self.filter_value == other.filter_value
        &&& self.new_secret == other.new_secret
        &&& self.operation == other.operation
    }

    /// The levels with another record selected in the last one.
    pub open spec fn reselected(levels: Seq<SecretsView>, selected: usize) -> Seq<SecretsView> {
        levels.update(
            levels.len() - 1,
            SecretsView { selected_secret: selected, ..levels.last() },
        )
    }

    /// Selects a record of the level that is shown.
    fn select(&mut self, selected: usize)
        requires
            old(self).wf(),
        ensures
            final(self).wf(),
            levels_of(final(self).secrets@) == Home::reselected(
                levels_of(old(self).secrets@),
                selected,
            ),
            final(self).position == old(self).position,
            final(self).same_frame(old(self)),
    {
        let ghost before = levels_of(self.secrets@);
        let mut level = self.secrets.pop().unwrap();
        level.selected_secret = selected;
        self.secrets.push(level);
        assert(levels_of(self.secrets@) =~= Home::reselected(before, selected));
    }

    /// Selects the first record and scrolls to the top.
    pub fn scroll_to_top(&mut self)
        requires
            old(self).wf(),
        ensures
            final(self).wf(),
            levels_of(final(self).secrets@) == Home::reselected(levels_of(old(self).secrets@), 0),
            final(self).position == (Position { offset_y: 0, ..old(self).position }),
            final(self).same_frame(old(self)),
    {
        self.select(0);
        self.position.offset_y = 0;
    }

    /// Selects the last record and scrolls so far down that the end of the
    /// list stands at the bottom of a window of `inner_buffer_height` rows.
    /// The level shown must have a record, and the rows of the list must fit
    /// 16 bits.
    pub fn scroll_to_bottom(&mut self, inner_buffer_height: u16)
        requires
            old(self).wf(),
            old(self).shown_level().secrets.len() > 0,
            content_rows(old(self).shown_level().secrets.len() as usize) <= u16::MAX,
        ensures
            final(self).wf(),
            levels_of(final(self).secrets@) == Home::reselected(
                levels_of(old(self).secrets@),
                (old(self).shown_level().secrets.len() - 1) as usize,
            ),
            final(self).position.offset_x == old(self).position.offset_x,
            final(self).position.offset_y == old(self).bottom_row(inner_buffer_height),
            final(self).same_frame(old(self)),
    {
        let count = self.secrets[self.secrets.len() - 1].secrets.len();
        let rows: u16 = #[verifier::truncate] (count as u16) * DOMAIN_PASSWORD_LIST_ITEM_HEIGHT + 1
            + self.header_height() + self.legend_height() + InputConfig::height();
        let max_offset_y: i32 = rows as i32 - inner_buffer_height as i32 + 1;
        let max_offset_y: i32 = if max_offset_y < 0 {
            0
        } else {
            max_offset_y
        };
        let max_offset_y: u16 = #[verifier::truncate] (max_offset_y as u16);
        self.select(count - 1);
        self.position.offset_y = max_offset_y;
    }

    /// Selects a record after another and scrolls along with it.
    pub fn set_selected_secret(
        &mut self,
        selected_secret: usize,
        previous_selected_secret: usize,
        inner_buffer_height: u16,
    )
        requires
            old(self).wf(),
            selectable(
                selected_secret,
                previous_selected_secret,
                old(self).shown_level().secrets.len() as int,
                inner_buffer_height,
                old(self).position.offset_y,
            ),
        ensures
            final(self).wf(),
            levels_of(final(self).secrets@) == Home::reselected(
                levels_of(old(self).secrets@),
                selected_secret,
            ),
            final(self).position.offset_x == old(self).position.offset_x,
            final(self).position.offset_y == scrolled(
                selected_secret,
                previous_selected_secret,
                old(self).shown_level().secrets.len() as int,
                inner_buffer_height,
                old(self).position.offset_y,
            ),
            final(self).same_frame(old(self)),
    {
        let count = self.secrets[self.secrets.len() - 1].secrets.len();
        let mut position = self.position;
        let row = self.index_offset(#[verifier::truncate] (selected_secret as u16));
        if selected_secret > previous_selected_secret {
            if row + 2 * DOMAIN_PASSWORD_LIST_ITEM_HEIGHT >= inner_buffer_height
                + position.offset_y && selected_secret != count - 1 {
                position.offset_y = position.offset_y + DOMAIN_PASSWORD_LIST_ITEM_HEIGHT;
            }
        } else {
            if row <= position.offset_y {
                position.offset_y = position.offset_y - DOMAIN_PASSWORD_LIST_ITEM_HEIGHT;
            }
        }
        self.select(selected_secret);
        self.position = position;
    }

    /// The row the list is scrolled to once the last record is selected in a
    /// window of `height` rows.
    pub open spec fn bottom_row(&self, height: u16) -> u16 {
        let below = content_rows(self.shown_level().secrets.len() as usize) - height + 1;
        if below < 0 {
            0u16
        } else {
            below as i32 as u16
        }
    }

    /// Whether this is the screen `before` with the selection moved up by
    /// one record.
    pub open spec fn went_up(&self, before: &Home, height: u16) -> bool {
        let level = before.shown_level();
        &&& self.wf()
        &&& levels_of(self.secrets@) == Home::reselected(
            levels_of(before.secrets@),
            if level.selected_secret <= 1 {
                0
            } else {
                (level.selected_secret - 1) as usize
            },
        )
        &&& self.position.offset_x == before.position.offset_x
        &&& self.position.offset_y == if level.selected_secret <= 1 {
            0
        } else {
            scrolled(
                (level.selected_secret - 1) as usize,
                level.selected_secret,
                level.secrets.len() as int,
                height,
                before.position.offset_y,
            )
        }
        &&& self.same_frame(before)
    }

    /// Whether this is the screen `before` with the selection moved down by
    /// one record.
    pub open spec fn went_down(&self, before: &Home, height: u16) -> bool {
        let level = before.shown_level();
        &&& self.wf()
        &&& levels_of(self.secrets@) == Home::reselected(
            levels_of(before.secrets@),
            if before.near_bottom() {
                (level.secrets.len() - 1) as usize
            } else {
                (level.selected_secret + 1) as usize
            },
        )
        &&& self.position.offset_x == before.position.offset_x
        &&& self.position.offset_y == if before.near_bottom() {
            before.bottom_row(height) as int
        } else {
            scrolled(
                (level.selected_secret + 1) as usize,
                level.selected_secret,
                level.secrets.len() as int,
                height,
                before.position.offset_y,
            )
        }
        &&& self.same_frame(before)
    }

    /// Whether the selection can move up.
    pub open spec fn can_go_up(&self, inner_buffer_height: u16) -> bool {
        let level = self.shown_level();
        &&& self.wf()
        &&& level.selected_secret > 1 ==> selectable(
            (level.selected_secret - 1) as usize,
            level.selected_secret,
            level.secrets.len() as int,
            inner_buffer_height,
            self.position.offset_y,
        )
    }

    /// Moves the selection up by one record. From the first two records it
    /// goes to the first and the list scrolls to the top.
    pub fn up(&mut self, inner_buffer_height: u16)
        requires
            old(self).can_go_up(inner_buffer_height),
        ensures
            final(self).went_up(old(self), inner_buffer_height),
    {
        let selected = self.secrets[self.secrets.len() - 1].selected_secret;
        if selected <= 1 {
            self.scroll_to_top();
            return;
        }
        self.set_selected_secret(selected - 1, selected, inner_buffer_height)
    }

    /// Whether the selection stands on one of the last two records.
    pub open spec fn near_bottom(&self) -> bool {
        let level = self.shown_level();
        level.selected_secret == level.secrets.len() - 1 || level.selected_secret
            == level.secrets.len() - 2
    }

    /// Whether the selection can move down.
    pub open spec fn can_go_down(&self, inner_buffer_height: u16) -> bool {
        let level = self.shown_level();
        &&& self.wf()
        &&& level.secrets.len() > 0
        &&& level.selected_secret == level.secrets.len() - 1 || level.secrets.len() >= 2
        &&& self.near_bottom() ==> content_rows(level.secrets.len() as usize) <= u16::MAX
        &&& !self.near_bottom() ==> level.selected_secret < usize::MAX && selectable(
            (level.selected_secret + 1) as usize,
            level.selected_secret,
            level.secrets.len() as int,
            inner_buffer_height,
            self.position.offset_y,
        )
    }

    /// Moves the selection down by one record. From the last two records it
    /// goes to the last and the list scrolls to the bottom.
    pub fn down(&mut self, inner_buffer_height: u16)
        requires
            old(self).can_go_down(inner_buffer_height),
        ensures
            final(self).went_down(old(self), inner_buffer_height),
    {
        let count = self.secrets[self.secrets.len() - 1].secrets.len();
        let current_selected_secret = self.secrets[self.secrets.len() - 1].selected_secret;
        if current_selected_secret == count - 1 || current_selected_secret == count - 2 {
            self.scroll_to_bottom(inner_buffer_height);
            return;
        }
        self.set_selected_secret(
            current_selected_secret + 1,
            current_selected_secret,
            inner_buffer_height,
        )
    }

    /// The levels once the secret of the selected record was switched from
    /// hidden to clear or back, in the level shown and, by its domain, in all
    /// levels before it.
    pub open spec fn toggled(levels: Seq<SecretsView>) -> Seq<SecretsView> {
        let last = levels.last();
        let selected = last.selected_secret;
        let on = !last.shown_secrets.contains(selected);
        switched_upwards(levels, last.secrets[selected as int].key, on).update(
            levels.len() - 1,
            SecretsView { shown_secrets: switched(last.shown_secrets, selected, on), ..last },
        )
    }

    /// Switches the secret of the selected record from hidden to clear or
    /// back. The level shown must have the record selected.
    pub fn toggle_shown_secret(&mut self)
        requires
            old(self).wf(),
            old(self).shown_level().selected_secret < old(self).shown_level().secrets.len(),
        ensures
            final(self).wf(),
            levels_of(final(self).secrets@) == Home::toggled(levels_of(old(self).secrets@)),
            final(self).position == old(self).position,
            final(self).same_frame(old(self)),
    {
        let ghost before = levels_of(self.secrets@);
        let last = &self.secrets[self.secrets.len() - 1];
        let selected_secret = last.selected_secret;
        let domain = last.secrets[selected_secret].key.clone();
        let on = !holds(&last.shown_secrets, selected_secret);
        let shown_secrets = switch(&last.shown_secrets, selected_secret, on);
        assert(domain@ == before.last().secrets[selected_secret as int].key);
        self.set_shown_upwards(domain, on);
        let ghost upwards = levels_of(self.secrets@);
        assert(upwards.len() == before.len());
        assert(self.secrets@.len() == upwards.len());
        assert(upwards[before.len() - 1] == before.last());
        let mut level = self.secrets.pop().unwrap();
        assert(level@ == upwards[before.len() - 1]);
        level.shown_secrets = shown_secrets;
        self.secrets.push(level);
        assert(levels_of(self.secrets@) =~= Home::toggled(before));
    }

    /// Columns that the widest record of the level shown takes, margins
    /// included, as the screen counts them in 16 bits.
    pub open spec fn list_columns(&self) -> int {
        let records = self.secrets@.last().secrets@;
        (widest(records, records.len() as int) as usize as u16) + RIGHT_MARGIN + LEFT_PADDING
    }

    /// Whether the records of the level shown have a width: that of each
    /// fits a machine word, and the columns of the list fit 16 bits.
    pub open spec fn measurable(&self) -> bool {
        let records = self.secrets@.last().secrets@;
        &&& self.wf()
        &&& forall|i: int| 0 <= i < records.len() ==> entry_width(#[trigger] records[i]) <= usize::MAX
        &&& self.list_columns() <= u16::MAX
    }

    /// Whether `width` can measure the list.
    pub fn can_measure(&self) -> (can: bool)
        ensures
            can == self.measurable(),
    {
        if self.secrets.len() == 0 {
            return false;
        }
        let level = &self.secrets[self.secrets.len() - 1];
        let mut i: usize = 0;
        while i < level.secrets.len()
            invariant
                i <= level.secrets.len(),
                self.secrets@.len() > 0,
                *level == self.secrets@.last(),
                forall|k: int| 0 <= k < i ==> entry_width(#[trigger] level.secrets@[k]) <= usize::MAX,
            decreases level.secrets.len() - i,
        {
            let secret = &level.secrets[i];
            let key = secret.key.as_str().as_bytes().len() as u128;
            let value = secret.value.as_str().as_bytes().len() as u128;
            if key + value + 3 > usize::MAX as u128 {
                assert(entry_width(level.secrets@[i as int]) > usize::MAX);
                return false;
            }
            i = i + 1;
        }
        let longest = level.max_length();
        (#[verifier::truncate] (longest as u16)) as u32 + 8 <= 0xFFFF
    }

    /// Columns the list takes: room for the widest record of the level
    /// shown, and `MIN_WIDTH` at least.
    pub fn width(&self) -> (columns: u16)
        requires
            self.measurable(),
        ensures
            columns == if self.list_columns() > MIN_WIDTH {
                self.list_columns()
            } else {
                MIN_WIDTH as int
            },
    {
        let longest = self.secrets[self.secrets.len() - 1].max_length();
        let width = #[verifier::truncate] (longest as u16) + RIGHT_MARGIN + LEFT_PADDING;
        let legend = LEGEND_WIDTH + 4;
        let width = if width >= legend {
            width
        } else {
            legend
        };
        if width > MIN_WIDTH {
            width
        } else {
            MIN_WIDTH
        }
    }

    /// The records of the first level as comma-separated values under the
    /// heading `domain,password`, one line for each record.
    pub fn csv_text(&self) -> (text: String)
        requires
            self.wf(),
        ensures
            text@ == "domain,password\n"@ + csv_lines(
                secrets_of(self.secrets@[0].secrets@),
                self.secrets@[0].secrets@.len() as int,
            ),
    {
        let mut text = "domain,password\n".to_owned();
        let root = &self.secrets[0];
        let ghost head = text@;
        let mut i: usize = 0;
        assert(text@ =~= head + csv_lines(secrets_of(root.secrets@), 0));
        while i < root.secrets.len()
            invariant
                i <= root.secrets.len(),
                text@ == head + csv_lines(secrets_of(root.secrets@), i as int),
            decreases root.secrets.len() - i,
        {
            let ghost before = text@;
            text.append(root.secrets[i].key.as_str());
            text.push(',');
            text.append(root.secrets[i].value.as_str());
            text.push('\n');
            assert(text@ =~= before + csv_line(secrets_of(root.secrets@)[i as int]));
            i = i + 1;
            assert(text@ =~= head + csv_lines(secrets_of(root.secrets@), i as int));
        }
        text
    }

    /// The help text: every key of the screen and what it does.
    pub fn generate_help_text() -> (text: &'static str)
        ensures
            text@ == HELP_TEXT@,
    {
        HELP_TEXT
    }

    /// Whether two screens are alike.
    pub open spec fn unchanged(&self, before: &Home) -> bool {
        &&& self.same_frame(before)
        &&& self.position == before.position
        &&& levels_of(self.secrets@) == levels_of(before.secrets@)
    }

    /// The level shown has the record selected.
    pub open spec fn has_selection(&self) -> bool {
        self.wf() && self.shown_level().selected_secret < self.shown_level().secrets.len()
    }

    /// The domain of the selected record.
    pub fn selected_key(&self) -> (key: String)
        requires
            self.has_selection(),
        ensures
            key@ == self.shown_level().secrets[self.shown_level().selected_secret as int].key,
    {
        let level = &self.secrets[self.secrets.len() - 1];
        level.secrets[level.selected_secret].key.clone()
    }

    /// The secret of the selected record.
    pub fn selected_value(&self) -> (value: String)
        requires
            self.has_selection(),
        ensures
            value@ == self.shown_level().secrets[self.shown_level().selected_secret as int].value,
    {
        let level = &self.secrets[self.secrets.len() - 1];
        level.secrets[level.selected_secret].value.clone()
    }

    /// Whether the screen can take the key press.
    pub open spec fn handles(&self, key: KeyEvent, room: Room) -> bool {
        &&& self.wf()
        &&& match self.state {
            HomeViewState::Filter => key.code is Esc || {
                &&& Input::handles(key.code, self.window(), self.filter_value@)
                &&& self.filters(
                    self.filter_value@,
                    Input::after_key(key.code, self.window(), self.filter_value@).value,
                )
            },
            HomeViewState::Normal => match command_for(key.code) {
                Command::Down => self.can_go_down(room.inner_buffer_height),
                Command::Up => self.can_go_up(room.inner_buffer_height),
                Command::Right => !room.at_right_edge ==> self.position.offset_x < u16::MAX,
                Command::Toggle | Command::Edit | Command::Copy => self.has_selection(),
                Command::Help => room.rect.width * 4 <= u16::MAX && room.rect.height * 4
                    <= u16::MAX,
                _ => true,
            },
        }
    }

    /// Whether this is the screen `before` after a key press, and `action`
    /// what the caller is to do.
    pub open spec fn pressed(&self, before: &Home, key: KeyEvent, room: Room, action: HomeAction) -> bool {
        match before.state {
            HomeViewState::Filter => if key.code is Esc {
                &&& action == HomeAction::Stay
                &&& self.state == HomeViewState::Normal
                &&& self.unchanged(&Home { state: HomeViewState::Normal, ..*before })
            } else {
                let edit = Input::after_key(key.code, before.window(), before.filter_value@);
                &&& action == HomeAction::Stay
                &&& self.filter_value@ == edit.value
                &&& self.cursor == edit.cursor
                &&& self.input_offset == edit.offset
                &&& levels_of(self.secrets@) == filtered(
                    levels_of(before.secrets@),
                    before.filter_value@,
                    edit.value,
                )
                &&& self.state == before.state
                &&& self.position == before.position
                &&& self.user == before.user
                &&& self.area == before.area
                &&& self.new_secret == before.new_secret
                &&& self.operation == before.operation
            },
            HomeViewState::Normal => match command_for(key.code) {
                Command::Quit => action == HomeAction::Logout && self.unchanged(before),
                Command::Down => action == HomeAction::Stay && self.went_down(
                    before,
                    room.inner_buffer_height,
                ),
                Command::Up => action == HomeAction::Stay && self.went_up(
                    before,
                    room.inner_buffer_height,
                ),
                Command::Left => action == HomeAction::Stay && self.unchanged(
                    &Home {
                        position: Position {
                            offset_x: if before.position.offset_x != 0 {
                                (before.position.offset_x - 1) as u16
                            } else {
                                0
                            },
                            ..before.position
                        },
                        ..*before
                    },
                ),
                Command::Right => action == HomeAction::Stay && self.unchanged(
                    &Home {
                        position: Position {
                            offset_x: if room.at_right_edge {
                                before.position.offset_x
                            } else {
                                (before.position.offset_x + 1) as u16
                            },
                            ..before.position
                        },
                        ..*before
                    },
                ),
                Command::Toggle => {
                    &&& action == HomeAction::Stay
                    &&& levels_of(self.secrets@) == Home::toggled(levels_of(before.secrets@))
                    &&& self.position == before.position
                    &&& self.same_frame(before)
                },
                Command::Add => action == HomeAction::OpenInsertDomainPassword && self.unchanged(
                    &Home { operation: Some(Operation::Add), ..*before },
                ),
                Command::Delete => action == HomeAction::OpenInsertMaster && self.unchanged(
                    &Home { operation: Some(Operation::Remove), ..*before },
                ),
                Command::Edit => action == HomeAction::OpenInsertPassword && self.unchanged(
                    &Home { operation: Some(Operation::Modify), ..*before },
                ),
                Command::Copy => action == HomeAction::Copy && self.unchanged(before),
                Command::Filter => action == HomeAction::Stay && self.unchanged(
                    &Home { state: HomeViewState::Filter, ..*before },
                ),
                Command::Export => action == HomeAction::Export && self.unchanged(before),
                Command::Help => {
                    let width = room.rect.width * 4 / 5;
                    let height = room.rect.height * 4 / 5;
                    &&& action == HomeAction::Help(
                        if width < 60 {
                            width as u16
                        } else {
                            60
                        },
                        if height < 24 {
                            height as u16
                        } else {
                            24
                        },
                    )
                    &&& self.unchanged(before)
                },
                Command::Nothing => action == HomeAction::Stay && self.unchanged(before),
            },
        }
    }

    /// Takes a key press.
    ///
    /// While keys go to the filter, Esc gives them back to the list and
    /// every other key edits the filter, which the levels follow. On the
    /// list, keys move the selection, scroll, switch a secret to clear,
    /// start a change of the records, or ask the caller to leave, to copy,
    /// to export or to show the help.
    pub fn handle_key(&mut self, key: &KeyEvent, room: &Room) -> (action: HomeAction)
        requires
            old(self).handles(*key, *room),
        ensures
            final(self).wf(),
            final(self).pressed(old(self), *key, *room, action),
    {
        match self.state {
            HomeViewState::Filter => {
                match key.code {
                    KeyCode::Esc => {
                        self.state = HomeViewState::Normal;
                    },
                    _ => {
                        let previous_value = self.filter_value.clone();
                        let config = self.generate_input_config();
                        let (value, cursor_position, input_offset) = Input::handle_key(
                            key,
                            &config,
                            previous_value.as_str(),
                        );
                        let new_value = value.clone();
                        self.filter_value = value;
                        self.cursor = cursor_position;
                        self.input_offset = input_offset;
                        self.fuzzy_filter(previous_value, new_value);
                    },
                }
                HomeAction::Stay
            },
            HomeViewState::Normal => match command_of(&key.code) {
                Command::Quit => HomeAction::Logout,
                Command::Down => {
                    self.down(room.inner_buffer_height);
                    HomeAction::Stay
                },
                Command::Up => {
                    self.up(room.inner_buffer_height);
                    HomeAction::Stay
                },
                Command::Left => {
                    if self.position.offset_x != 0 {
                        self.position.offset_x = self.position.offset_x - 1;
                    }
                    HomeAction::Stay
                },
                Command::Right => {
                    if !room.at_right_edge {
                        self.position.offset_x = self.position.offset_x + 1;
                    }
                    HomeAction::Stay
                },
                Command::Toggle => {
                    self.toggle_shown_secret();
                    HomeAction::Stay
                },
                Command::Add => {
                    self.operation = Some(Operation::Add);
                    HomeAction::OpenInsertDomainPassword
                },
                Command::Delete => {
                    self.operation = Some(Operation::Remove);
                    HomeAction::OpenInsertMaster
                },
                Command::Edit => {
                    self.operation = Some(Operation::Modify);
                    HomeAction::OpenInsertPassword
                },
                Command::Copy => HomeAction::Copy,
                Command::Filter => {
                    self.state = HomeViewState::Filter;
                    HomeAction::Stay
                },
                Command::Export => HomeAction::Export,
                Command::Help => {
                    let width = (room.rect.width * 4) / 5;
                    let height = (room.rect.height * 4) / 5;
                    HomeAction::Help(
                        if width < 60 {
                            width
                        } else {
                            60
                        },
                        if height < 24 {
                            height
                        } else {
                            24
                        },
                    )
                },
                Command::Nothing => HomeAction::Stay,
            },
        }
    }

    /// Whether this is the screen `before` but for the record that waits for
    /// the master password.
    pub open spec fn same_but_waiting(&self, before: &Home) -> bool {
        &&& self.user == before.user
        &&& self.area == before.area
        &&& self.state == before.state
        &&& self.cursor == before.cursor
        &&& self.input_offset == before.input_offset
        &&& self.filter_value == before.filter_value
        &&& self.operation == before.operation
        &&& self.position == before.position
        &&& levels_of(self.secrets@) == levels_of(before.secrets@)
    }

    /// Takes the popup for a new record once it has closed. A popup that
    /// was quit changes nothing. A record without domain or without secret
    /// is refused with a notice. Any other record waits for the master
    /// password, which the caller is to ask for.
    pub fn handle_insert_record_popup(&mut self, popup: &InsertDomainPassword) -> (flow: Flow)
        ensures
            final(self).same_but_waiting(old(self)),
            flow == if popup.exit_state == Some(InsertDomainPasswordExitState::Quit) {
                Flow::Nothing
            } else if popup.domain@.len() == 0 || popup.password@.len() == 0 {
                Flow::Notify(Notice::CannotCreateRecord)
            } else {
                Flow::AskMaster
            },
            waiting(final(self).new_secret) == if flow == Flow::AskMaster {
                Some((popup.domain@, popup.password@))
            } else {
                waiting(old(self).new_secret)
            },
    {
        match popup.exit_state() {
            Some(InsertDomainPasswordExitState::Quit) => {
                return Flow::Nothing;
            },
            _ => {},
        }
        let domain = popup.domain();
        let password = popup.password();
        if domain.as_str().is_empty() || password.as_str().is_empty() {
            return Flow::Notify(Notice::CannotCreateRecord);
        }
        self.new_secret = Some(NewSecret { domain, password });
        Flow::AskMaster
    }

    /// Takes the popup for a new secret once it has closed. A popup that was
    /// quit changes nothing. An empty secret is refused with a notice. Any
    /// other secret waits for the master password, which the caller is to
    /// ask for.
    pub fn handle_insert_password_popup(&mut self, popup: &InsertPassword) -> (flow: Flow)
        ensures
            final(self).same_but_waiting(old(self)),
            flow == if popup.exit_state == Some(InsertPasswordExitState::Quit) {
                Flow::Nothing
            } else if popup.password@.len() == 0 {
                Flow::Notify(Notice::PasswordEmpty)
            } else {
                Flow::AskMaster
            },
            waiting(final(self).new_secret) == if flow == Flow::AskMaster {
                Some((Seq::<char>::empty(), popup.password@))
            } else {
                waiting(old(self).new_secret)
            },
    {
        match popup.exit_state() {
            Some(InsertPasswordExitState::Quit) => {
                return Flow::Nothing;
            },
            _ => {},
        }
        let password = popup.password();
        if password.as_str().is_empty() {
            return Flow::Notify(Notice::PasswordEmpty);
        }
        self.new_secret = Some(NewSecret { domain: String::new(), password });
        Flow::AskMaster
    }

    /// Whether a master password was entered that is to be used.
    pub open spec fn confirmed(popup: &InsertMaster) -> bool {
        popup.exit_state != Some(InsertMasterExitState::Quit) && popup.master@.len() > 0
    }

    /// Whether the screen can take the master password: it must know what
    /// the password is for, and have the record that waits for it or the
    /// record selected that the change is about.
    pub open spec fn takes_master(&self, popup: &InsertMaster) -> bool {
        Home::confirmed(popup) ==> match self.operation {
            None => false,
            Some(Operation::Add) => self.new_secret is Some,
            Some(Operation::Remove) => self.has_selection(),
            Some(Operation::Modify) => self.has_selection() && self.new_secret is Some,
        }
    }

    /// Whether `handle_insert_master_popup` can take the popup.
    pub fn accepts_master(&self, popup: &InsertMaster) -> (accepted: bool)
        ensures
            accepted == self.takes_master(popup),
    {
        match popup.exit_state() {
            Some(InsertMasterExitState::Quit) => {
                return true;
            },
            _ => {},
        }
        if popup.master.as_str().is_empty() {
            return true;
        }
        let selected = self.secrets.len() > 0 && self.secrets[self.secrets.len()
            - 1].selected_secret < self.secrets[self.secrets.len() - 1].secrets.len();
        match self.operation {
            None => false,
            Some(Operation::Add) => self.new_secret.is_some(),
            Some(Operation::Remove) => selected,
            Some(Operation::Modify) => selected && self.new_secret.is_some(),
        }
    }

    /// The domain and the secret that a change of the vault is about: those
    /// of the record that waits where a record is added, the domain of the
    /// selected record and no secret where one is removed, and that domain
    /// with the secret that waits where one is modified.
    pub open spec fn subject(&self) -> Entry {
        let selected = self.shown_level().secrets[self.shown_level().selected_secret as int];
        let new = waiting(self.new_secret)->0;
        match self.operation {
            Some(Operation::Add) => new,
            Some(Operation::Remove) => (selected.key, Seq::empty()),
            _ => (selected.key, new.1),
        }
    }

    /// Takes the popup for the master password once it has closed. A popup
    /// that was quit asks for nothing, an empty password for a notice. Any
    /// other password asks for the change of the vault that was started,
    /// with the name of the user, the password, the subject of the change
    /// and the directory of the vaults.
    pub fn handle_insert_master_popup(&self, popup: &InsertMaster, path: &str) -> (request: Request)
        requires
            self.takes_master(popup),
        ensures
            match request {
                Request::Nothing => popup.exit_state == Some(InsertMasterExitState::Quit),
                Request::Notify(notice) => popup.exit_state != Some(InsertMasterExitState::Quit)
                    && popup.master@.len() == 0 && notice == Notice::CannotCreateRecord,
                Request::Change(change, config) => {
                    &&& Home::confirmed(popup)
                    &&& self.operation matches Some(operation) && change == change_for(operation)
                    &&& config.username@ == self.user.name()
                    &&& config.master_password@ == popup.master@
                    &&& (config.domain@, config.password@) == self.subject()
                    &&& config.path@ == path@
                },
            },
    {
        match popup.exit_state() {
            Some(InsertMasterExitState::Quit) => {
                return Request::Nothing;
            },
            _ => {},
        }
        let master_password = popup.master();
        if master_password.as_str().is_empty() {
            return Request::Notify(Notice::CannotCreateRecord);
        }
        let username = self.user.username();
        proof {
            reveal_strlit("");
        }
        match self.operation {
            Some(Operation::Add) => {
                let (domain, password) = match &self.new_secret {
                    Some(new) => (new.domain.clone(), new.password.clone()),
                    None => (String::new(), String::new()),
                };
                assert(waiting(self.new_secret) == Some((domain@, password@)));
                assert(self.subject() == (domain@, password@));
                Request::Change(
                    Change::Add,
                    RecordOperationConfig::new(
                        username.as_str(),
                        master_password.as_str(),
                        domain.as_str(),
                        password.as_str(),
                        path,
                    ),
                )
            },
            Some(Operation::Remove) => {
                let domain = self.selected_key();
                Request::Change(
                    Change::Remove,
                    RecordOperationConfig::new(
                        username.as_str(),
                        master_password.as_str(),
                        domain.as_str(),
                        "",
                        path,
                    ),
                )
            },
            _ => {
                let domain = self.selected_key();
                let password = match &self.new_secret {
                    Some(new) => new.password.clone(),
                    None => String::new(),
                };
                Request::Change(
                    Change::Modify,
                    RecordOperationConfig::new(
                        username.as_str(),
                        master_password.as_str(),
                        domain.as_str(),
                        password.as_str(),
                        path,
                    ),
                )
            },
        }
    }

    /// The notice for a change of the vault that failed.
    pub fn failure_notice(change: Change) -> (notice: Notice)
        ensures
            notice == match change {
                Change::Add => Notice::CannotCreateRecord,
                Change::Remove => Notice::CannotRemoveRecord,
                Change::Modify => Notice::CannotModifyRecord,
            },
    {
        match change {
            Change::Add => Notice::CannotCreateRecord,
            Change::Remove => Notice::CannotRemoveRecord,
            Change::Modify => Notice::CannotModifyRecord,
        }
    }

    /// Shows the records of the vault after a change: they take the place of
    /// the records of the level shown. The selection and the secrets in
    /// clear stay as they are.
    pub fn records_changed(&mut self, records: &ReadOnlyRecords)
        requires
            old(self).wf(),
        ensures
            final(self).wf(),
            levels_of(final(self).secrets@) == levels_of(old(self).secrets@).update(
                old(self).secrets@.len() - 1,
                SecretsView { secrets: listed(records@), ..old(self).shown_level() },
            ),
            final(self).position == old(self).position,
            final(self).same_frame(old(self)),
    {
        let ghost before = levels_of(self.secrets@);
        let mut level = self.secrets.pop().unwrap();
        level.secrets = list_records(records);
        self.secrets.push(level);
        assert(levels_of(self.secrets@) =~= before.update(
            before.len() - 1,
            SecretsView { secrets: listed(records@), ..before.last() },
        ));
    }

    /// Whether `fuzzy_filter` can follow the filter from its old to its new
    /// text.
    pub fn accepts_filter(&self, previous_value: &str, new_value: &str) -> (accepted: bool)
        ensures
            accepted == self.filters(previous_value@, new_value@),
    {
        let old_chars = chars_of(previous_value);
        let new_chars = chars_of(new_value);
        let common = common_start_of(&old_chars, &new_chars);
        proof {
            lemma_common_start(previous_value@, new_value@);
        }
        if common == old_chars.len() && old_chars.len() < new_chars.len()
            && previous_value.as_bytes().len() > old_chars.len() {
            return false;
        }
        let kept = bytes_upto(&new_chars, common);
        if self.secrets.len() < 1 || self.secrets.len() - 1 < kept || self.secrets.len() - 1 > kept
            + 1 {
            return false;
        }
        if kept > new_chars.len() {
            proof {
                reveal_with_fuel(vstd::utf8::encode_utf8, 1);
            }
            return true;
        }
        let rest = text_from(&new_chars, kept);
        let rest_chars = chars_of(rest.as_str());
        rest.as_str().as_bytes().len() <= rest_chars.len()
    }

    /// Whether `up` can move the selection.
    pub fn accepts_up(&self, inner_buffer_height: u16) -> (accepted: bool)
        ensures
            accepted == self.can_go_up(inner_buffer_height),
    {
        if self.secrets.len() == 0 {
            return false;
        }
        let level = &self.secrets[self.secrets.len() - 1];
        if level.selected_secret <= 1 {
            return true;
        }
        can_select(
            level.selected_secret - 1,
            level.selected_secret,
            level.secrets.len(),
            inner_buffer_height,
            self.position.offset_y,
        )
    }

    /// Whether `down` can move the selection.
    pub fn accepts_down(&self, inner_buffer_height: u16) -> (accepted: bool)
        ensures
            accepted == self.can_go_down(inner_buffer_height),
    {
        if self.secrets.len() == 0 {
            return false;
        }
        let level = &self.secrets[self.secrets.len() - 1];
        let count = level.secrets.len();
        let selected = level.selected_secret;
        if count == 0 {
            return false;
        }
        if selected == count - 1 || (count >= 2 && selected == count - 2) {
            let rows: u32 = (#[verifier::truncate] (count as u16)) as u32 * 4 + 10;
            return rows <= 0xFFFF;
        }
        if count < 2 || selected == usize::MAX {
            return false;
        }
        can_select(selected + 1, selected, count, inner_buffer_height, self.position.offset_y)
    }

    /// Whether `handle_key` can take the key press.
    pub fn accepts(&self, key: &KeyEvent, room: &Room) -> (accepted: bool)
        ensures
            accepted == self.handles(*key, *room),
    {
        if self.secrets.len() == 0 {
            return false;
        }
        let level = &self.secrets[self.secrets.len() - 1];
        match self.state {
            HomeViewState::Filter => match key.code {
                KeyCode::Esc => true,
                _ => {
                    let config = self.generate_input_config();
                    if !Input::accepts(key, &config, self.filter_value.as_str()) {
                        return false;
                    }
                    let (value, _, _) = Input::handle_key(key, &config, self.filter_value.as_str());
                    self.accepts_filter(self.filter_value.as_str(), value.as_str())
                },
            },
            HomeViewState::Normal => match command_of(&key.code) {
                Command::Down => self.accepts_down(room.inner_buffer_height),
                Command::Up => self.accepts_up(room.inner_buffer_height),
                Command::Right => room.at_right_edge || self.position.offset_x < u16::MAX,
                Command::Toggle | Command::Edit | Command::Copy => level.selected_secret
                    < level.secrets.len(),
                Command::Help => room.rect.width <= 16383 && room.rect.height <= 16383,
                _ => true,
            },
        }
    }

    /// The longest text that both the old and the new filter start with.
    pub fn largest_prefix(&self, previous_value: &str, new_value: &str) -> (prefix: String)
        requires
            comparable(previous_value@, new_value@),
        ensures
            prefix@ == new_value@.take(common_start(previous_value@, new_value@) as int),
    {
        largest_prefix(previous_value, new_value)
    }
}

} // verus!
