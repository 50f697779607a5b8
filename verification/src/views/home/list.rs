//! The list of the home screen: its records, their rows, and the secrets
//! shown in clear.

use crate::components::input::INPUT_HEIGHT;
use crate::records::{entries_of, Entry, ReadOnlyRecords};
use crate::text::same_text;
use vstd::prelude::*;
use vstd::utf8::encode_utf8;

verus! {

/// Rows one record takes in the list.
pub const DOMAIN_PASSWORD_LIST_ITEM_HEIGHT: u16 = 4;

/// Bytes a domain may have for its secret to be shown hidden.
pub const MAX_ENTRY_LENGTH: u16 = 256;

/// Columns between a domain and its secret.
pub const DOMAIN_PASSWORD_MIDDLE_WIDTH: u16 = 3;

/// Rows of the header, and of the legend.
pub const BANNER_HEIGHT: u16 = 3;

/// A record in the list: its domain, its secret, and what is left of the
/// domain behind the characters of the filter matched so far.
#[derive(Debug)]
pub struct Secret {
    pub key: String,
    pub value: String,
    pub last_suffix: String,
}

/// The records that match a filter, the one selected, and those whose
/// secret is shown in clear.
#[derive(Debug)]
pub struct Secrets {
    pub secrets: Vec<Secret>,
    pub selected_secret: usize,
    pub shown_secrets: Vec<usize>,
}

/// A record in the list as the contracts see it.
pub struct SecretView {
    pub key: Seq<char>,
    pub value: Seq<char>,
    pub last_suffix: Seq<char>,
}

impl View for Secret {
    type V = SecretView;

    open spec fn view(&self) -> SecretView {
        SecretView { key: self.key@, value: self.value@, last_suffix: self.last_suffix@ }
    }
}

/// What a list of records stands for.
pub open spec fn secrets_of(secrets: Seq<Secret>) -> Seq<SecretView> {
    Seq::new(secrets.len(), |i: int| secrets[i]@)
}

/// A level of the filter as the contracts see it.
pub struct SecretsView {
    pub secrets: Seq<SecretView>,
    pub selected_secret: usize,
    pub shown_secrets: Seq<usize>,
}

impl View for Secrets {
    type V = SecretsView;

    open spec fn view(&self) -> SecretsView {
        SecretsView {
            secrets: secrets_of(self.secrets@),
            selected_secret: self.selected_secret,
            shown_secrets: self.shown_secrets@,
        }
    }
}

/// What a list of levels stands for.
pub open spec fn levels_of(levels: Seq<Secrets>) -> Seq<SecretsView> {
    Seq::new(levels.len(), |i: int| levels[i]@)
}

/// Columns a record takes: its domain, its secret, and what stands between.
pub open spec fn entry_width(secret: Secret) -> int {
    encode_utf8(secret.key@).len() + encode_utf8(secret.value@).len()
        + DOMAIN_PASSWORD_MIDDLE_WIDTH
}

/// The widest of the first `count` records; zero where there is none.
pub open spec fn widest(secrets: Seq<Secret>, count: int) -> int
    decreases count,
{
    if count <= 0 {
        0
    } else {
        let before = widest(secrets, count - 1);
        let here = entry_width(secrets[count - 1]);
        if here > before {
            here
        } else {
            before
        }
    }
}

impl Secrets {
    /// Columns the widest record takes; zero for an empty list. The width
    /// of every record must fit a machine word.
    pub fn max_length(&self) -> (columns: usize)
        requires
            forall|i: int|
                0 <= i < self.secrets@.len() ==> entry_width(#[trigger] self.secrets@[i])
                    <= usize::MAX,
        ensures
            columns == widest(self.secrets@, self.secrets@.len() as int),
    {
        let mut columns: usize = 0;
        let mut i: usize = 0;
        while i < self.secrets.len()
            invariant
                i <= self.secrets.len(),
                columns == widest(self.secrets@, i as int),
                forall|k: int|
                    0 <= k < self.secrets@.len() ==> entry_width(#[trigger] self.secrets@[k])
                        <= usize::MAX,
            decreases self.secrets.len() - i,
        {
            let secret = &self.secrets[i];
            assert(entry_width(self.secrets@[i as int]) <= usize::MAX);
            let here = secret.key.as_str().len() + secret.value.as_str().len()
                + DOMAIN_PASSWORD_MIDDLE_WIDTH as usize;
            if here > columns {
                columns = here;
            }
            i = i + 1;
        }
        columns
    }
}

/// A record with its secret hidden: two blanks, the domain, a colon between
/// blanks, and a bullet for each byte of the secret.
pub open spec fn hidden(domain: Seq<char>, length: nat) -> Seq<char> {
    seq![' ', ' '] + domain + seq![' ', ':', ' '] + Seq::new(length, |i: int| '\u{2022}')
}

/// The line that shows a record with its secret hidden. The domain must
/// have at most `MAX_ENTRY_LENGTH` bytes.
pub fn hidden_value(domain: String, length: usize) -> (line: String)
    requires
        encode_utf8(domain@).len() <= MAX_ENTRY_LENGTH,
    ensures
        line@ == hidden(domain@, length as nat),
{
    let mut line = String::new();
    line.push(' ');
    line.push(' ');
    line.append(domain.as_str());
    line.push(' ');
    line.push(':');
    line.push(' ');
    let ghost head = line@;
    assert(head =~= seq![' ', ' '] + domain@ + seq![' ', ':', ' ']);
    let mut i: usize = 0;
    while i < length
        invariant
            i <= length,
            line@ == head + Seq::new(i as nat, |k: int| '\u{2022}'),
        decreases length - i,
    {
        line.push('\u{2022}');
        i = i + 1;
        assert(line@ =~= head + Seq::new(i as nat, |k: int| '\u{2022}'));
    }
    line
}

/// Rows that the header, the legend, the filter input and a list of `count`
/// records take, as the screen counts them in 16 bits.
pub open spec fn content_rows(count: usize) -> int {
    (count as u16) * DOMAIN_PASSWORD_LIST_ITEM_HEIGHT + 1 + 2 * BANNER_HEIGHT + INPUT_HEIGHT
}

/// The row at which the record at a place starts.
pub open spec fn row_of(place: usize) -> int {
    (place as u16) * DOMAIN_PASSWORD_LIST_ITEM_HEIGHT + 1 + 2 * BANNER_HEIGHT
}

/// How far down the list is scrolled once the selection has moved from one
/// record to another, in a window of `height` rows over `count` records: a
/// step down scrolls on by one record when less than two records of room
/// are left below and the last record is not reached; a step up scrolls
/// back by one record when the record starts at or above the window.
pub open spec fn scrolled(
    selected: usize,
    previous: usize,
    count: int,
    height: u16,
    offset_y: u16,
) -> int {
    if selected > previous {
        if row_of(selected) + 2 * DOMAIN_PASSWORD_LIST_ITEM_HEIGHT >= height + offset_y && selected
            != count - 1 {
            offset_y + DOMAIN_PASSWORD_LIST_ITEM_HEIGHT
        } else {
            offset_y as int
        }
    } else if row_of(selected) <= offset_y {
        offset_y - DOMAIN_PASSWORD_LIST_ITEM_HEIGHT
    } else {
        offset_y as int
    }
}

/// Whether the selection can move so: the record exists, and no row runs
/// past what 16 bits hold.
pub open spec fn selectable(
    selected: usize,
    previous: usize,
    count: int,
    height: u16,
    offset_y: u16,
) -> bool {
    &&& selected < count
    &&& row_of(selected) <= u16::MAX
    &&& selected > previous ==> {
        &&& row_of(selected) + 2 * DOMAIN_PASSWORD_LIST_ITEM_HEIGHT <= u16::MAX
        &&& height + offset_y <= u16::MAX
    }
    &&& scrolled(selected, previous, count, height, offset_y) <= u16::MAX
}

/// A list of numbers without a number: what is left of its first `count`
/// entries, in order.
pub open spec fn without_number(list: Seq<usize>, number: usize, count: int) -> Seq<usize>
    decreases count,
{
    if count <= 0 {
        Seq::empty()
    } else if list[count - 1] == number {
        without_number(list, number, count - 1)
    } else {
        without_number(list, number, count - 1).push(list[count - 1])
    }
}

/// A list of places with a place switched on or off: switched on, the place
/// joins the list unless it is in it; switched off, it leaves the list
/// wherever it stands in it.
pub open spec fn switched(list: Seq<usize>, place: usize, on: bool) -> Seq<usize> {
    if !on {
        without_number(list, place, list.len() as int)
    } else if list.contains(place) {
        list
    } else {
        list.push(place)
    }
}

/// The place of the first record of a domain in a list; the length of the
/// list where it has none.
pub open spec fn first_with(secrets: Seq<SecretView>, key: Seq<char>) -> int
    decreases secrets.len(),
{
    if secrets.len() == 0 || secrets[0].key == key {
        0
    } else {
        1 + first_with(secrets.drop_first(), key)
    }
}

/// The place of the record of a domain in a list; zero where it has none.
pub open spec fn place_of(secrets: Seq<SecretView>, key: Seq<char>) -> int {
    if first_with(secrets, key) < secrets.len() {
        first_with(secrets, key)
    } else {
        0
    }
}

/// The first record of a domain stands where `first_with` says, and nowhere
/// before.
pub proof fn lemma_first_with(secrets: Seq<SecretView>, key: Seq<char>)
    ensures
        0 <= first_with(secrets, key) <= secrets.len(),
        forall|i: int| 0 <= i < first_with(secrets, key) ==> secrets[i].key != key,
        first_with(secrets, key) < secrets.len() ==> secrets[first_with(secrets, key)].key == key,
    decreases secrets.len(),
{
    if !(secrets.len() == 0 || secrets[0].key == key) {
        let tail = secrets.drop_first();
        lemma_first_with(tail, key);
        assert forall|i: int| 0 <= i < first_with(secrets, key) implies secrets[i].key != key by {
            if i > 0 {
                assert(secrets[i] == tail[i - 1]);
            }
        }
        if first_with(tail, key) < tail.len() {
            assert(secrets[first_with(secrets, key)] == tail[first_with(tail, key)]);
        }
    }
}

/// A level in which the secret of a domain was switched to clear or to
/// hidden.
pub open spec fn level_switched(level: SecretsView, key: Seq<char>, on: bool) -> SecretsView {
    SecretsView {
        shown_secrets: switched(level.shown_secrets, place_of(level.secrets, key) as usize, on),
        ..level
    }
}

/// The levels once the secret of a domain was switched in all of them but
/// the last.
pub open spec fn switched_upwards(levels: Seq<SecretsView>, key: Seq<char>, on: bool) -> Seq<
    SecretsView,
> {
    Seq::new(
        levels.len(),
        |i: int|
            if i < levels.len() - 1 {
                level_switched(levels[i], key, on)
            } else {
                levels[i]
            },
    )
}

/// The place of the record of a domain in a list; zero where it has none.
pub(crate) fn find_place(secrets: &Vec<Secret>, key: &str) -> (place: usize)
    ensures
        place == place_of(secrets_of(secrets@), key@),
{
    let mut i: usize = 0;
    proof {
        lemma_first_with(secrets_of(secrets@), key@);
    }
    while i < secrets.len() && !same_text(secrets[i].key.as_str(), key)
        invariant
            i <= secrets.len(),
            i <= first_with(secrets_of(secrets@), key@) <= secrets@.len(),
            forall|k: int|
                0 <= k < first_with(secrets_of(secrets@), key@) ==> secrets_of(secrets@)[k].key
                    != key@,
            first_with(secrets_of(secrets@), key@) < secrets@.len() ==> secrets_of(
                secrets@,
            )[first_with(secrets_of(secrets@), key@)].key == key@,
        decreases secrets.len() - i,
    {
        i = i + 1;
    }
    if i < secrets.len() {
        assert(secrets_of(secrets@)[i as int].key == key@);
        i
    } else {
        0
    }
}

/// A list of places with a place switched on or off.
pub(crate) fn switch(list: &Vec<usize>, place: usize, on: bool) -> (after: Vec<usize>)
    ensures
        after@ == switched(list@, place, on),
{
    let mut after: Vec<usize> = Vec::new();
    let mut i: usize = 0;
    if on {
        let found = holds(list, place);
        while i < list.len()
            invariant
                i <= list.len(),
                after@ == list@.take(i as int),
            decreases list.len() - i,
        {
            after.push(list[i]);
            i = i + 1;
            assert(after@ =~= list@.take(i as int));
        }
        assert(list@.take(i as int) =~= list@);
        if !found {
            after.push(place);
        }
        return after;
    }
    while i < list.len()
        invariant
            i <= list.len(),
            after@ == without_number(list@, place, i as int),
        decreases list.len() - i,
    {
        if list[i] != place {
            after.push(list[i]);
        }
        i = i + 1;
    }
    after
}

/// The line of a record in the exported file.
pub open spec fn csv_line(secret: SecretView) -> Seq<char> {
    secret.key + seq![','] + secret.value + seq!['\n']
}

/// The lines of the first `count` records in the exported file.
pub open spec fn csv_lines(secrets: Seq<SecretView>, count: int) -> Seq<char>
    decreases count,
{
    if count <= 0 {
        Seq::empty()
    } else {
        csv_lines(secrets, count - 1) + csv_line(secrets[count - 1])
    }
}

/// Whether the selection can move so.
pub(crate) fn can_select(selected: usize, previous: usize, count: usize, height: u16, offset_y: u16) -> (can:
    bool)
    ensures
        can == selectable(selected, previous, count as int, height, offset_y),
{
    if selected >= count {
        return false;
    }
    let row: u32 = (#[verifier::truncate] (selected as u16)) as u32 * 4 + 7;
    if row > 0xFFFF {
        return false;
    }
    if selected > previous {
        if row + 8 > 0xFFFF || height as u32 + offset_y as u32 > 0xFFFF {
            return false;
        }
        if row + 8 >= height as u32 + offset_y as u32 && selected != count - 1 {
            return offset_y as u32 + 4 <= 0xFFFF;
        }
    }
    true
}

/// Whether a list holds a number.
pub(crate) fn holds(list: &Vec<usize>, number: usize) -> (found: bool)
    ensures
        found == list@.contains(number),
{
    let mut i: usize = 0;
    while i < list.len()
        invariant
            i <= list.len(),
            forall|k: int| 0 <= k < i ==> list@[k] != number,
        decreases list.len() - i,
    {
        if list[i] == number {
            return true;
        }
        i = i + 1;
    }
    false
}

/// The records of a vault as the first level of the filter: what is left
/// of each domain is the whole domain.
pub open spec fn listed(records: Seq<Entry>) -> Seq<SecretView> {
    Seq::new(
        records.len(),
        |i: int| SecretView { key: records[i].0, value: records[i].1, last_suffix: records[i].0 },
    )
}

/// The records of a vault as a list of the screen.
pub fn list_records(records: &ReadOnlyRecords) -> (secrets: Vec<Secret>)
    ensures
        secrets_of(secrets@) == listed(records@),
{
    let pairs = records.records();
    let mut secrets: Vec<Secret> = Vec::new();
    let mut i: usize = 0;
    while i < pairs.len()
        invariant
            i <= pairs.len(),
            entries_of(pairs@) == records@,
            secrets_of(secrets@) == listed(records@).take(i as int),
        decreases pairs.len() - i,
    {
        let ghost before = secrets_of(secrets@);
        let secret = Secret {
            key: pairs[i].0.clone(),
            value: pairs[i].1.clone(),
            last_suffix: pairs[i].0.clone(),
        };
        assert(entries_of(pairs@)[i as int] == (pairs@[i as int].0@, pairs@[i as int].1@));
        secrets.push(secret);
        i = i + 1;
        assert(secrets_of(secrets@) =~= before.push(secret@));
        assert(secrets_of(secrets@) =~= listed(records@).take(i as int));
    }
    assert(listed(records@).take(i as int) =~= listed(records@));
    secrets
}

} // verus!
