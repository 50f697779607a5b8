//! Text primitives the rest of the crate builds on.

use vstd::prelude::*;
use vstd::utf8::{decode_utf8, encode_utf8, is_char_boundary, valid_utf8};

verus! {

/// `String::push`: the character is appended at the end and nothing else
/// changes.
pub assume_specification[ String::push ](s: &mut String, c: char)
    ensures
        final(s)@ == old(s)@.push(c),
;

/// Whether the byte at `index` of the UTF-8 form of `text` starts a
/// character, or `index` is the length of that form.
pub open spec fn on_boundary(text: Seq<char>, index: int) -> bool {
    is_char_boundary(encode_utf8(text), index)
}

/// How many characters of `text` lie before the byte at `index` of its UTF-8
/// form.
pub open spec fn chars_before(text: Seq<char>, index: int) -> int {
    decode_utf8(encode_utf8(text).subrange(0, index)).len() as int
}

/// `String::insert`: the character is put in at byte `idx`, which must lie
/// on a character boundary of the string; what stood there and after it
/// moves up.
pub assume_specification[ String::insert ](s: &mut String, idx: usize, ch: char)
    requires
        on_boundary(old(s)@, idx as int),
    ensures
        final(s)@ == old(s)@.insert(chars_before(old(s)@, idx as int), ch),
;

/// `String::remove`: the character that starts at byte `idx`, which must lie
/// within the string and on a character boundary, is taken out and
/// returned.
pub assume_specification[ String::remove ](s: &mut String, idx: usize) -> (ch: char)
    requires
        idx < encode_utf8(old(s)@).len() as usize,
        on_boundary(old(s)@, idx as int),
    ensures
        final(s)@ == old(s)@.remove(chars_before(old(s)@, idx as int)),
        ch == old(s)@[chars_before(old(s)@, idx as int)],
;

/// `==` on string slices: two slices are equal when they hold the same
/// characters.
pub assume_specification[ <str as PartialEq>::eq ](a: &str, b: &str) -> (equal: bool)
    ensures
        equal == (a@ == b@),
;

/// `String::from_utf8`: the text that the bytes encode where they are valid
/// UTF-8, and nothing where they are not.
#[verifier::external_body]
pub(crate) fn text_from_utf8(bytes: Vec<u8>) -> (text: Option<String>)
    ensures
        text is Some <==> valid_utf8(bytes@),
        text matches Some(t) ==> t@ == decode_utf8(bytes@),
{
    String::from_utf8(bytes).ok()
}

/// Whether two texts hold the same characters.
pub fn same_text(a: &str, b: &str) -> (equal: bool)
    ensures
        equal == (a@ == b@),
{
    a.eq(b)
}

/// The characters of a text.
pub fn chars_of(text: &str) -> (chars: Vec<char>)
    ensures
        chars@ == text@,
{
    let mut chars: Vec<char> = Vec::new();
    for c in it: text.chars()
        invariant
            it.seq() == text@,
            chars@ == text@.take(it.index()),
    {
        chars.push(c);
        assert(chars@ =~= text@.take(it.index() + 1));
    }
    assert(text@.take(text@.len() as int) =~= text@);
    chars
}

/// The text of the characters from `from` on.
pub fn text_from(chars: &Vec<char>, from: usize) -> (text: String)
    requires
        from <= chars@.len(),
    ensures
        text@ == chars@.skip(from as int),
{
    let mut text = String::new();
    let mut i: usize = from;
    while i < chars.len()
        invariant
            from <= i <= chars.len(),
            text@ == chars@.subrange(from as int, i as int),
        decreases chars.len() - i,
    {
        text.push(chars[i]);
        i = i + 1;
        assert(text@ =~= chars@.subrange(from as int, i as int));
    }
    assert(chars@.subrange(from as int, i as int) =~= chars@.skip(from as int));
    text
}

/// The decimal digits of a number, the highest first.
pub open spec fn decimal_digits(n: nat) -> Seq<char>
    decreases n,
{
    if n < 10 {
        seq![((48 + n) as u8) as char]
    } else {
        decimal_digits(n / 10).push(((48 + n % 10) as u8) as char)
    }
}

/// Appends the decimal digits of `n` to `text`.
pub fn push_decimal(text: &mut String, n: u16)
    ensures
        final(text)@ == old(text)@ + decimal_digits(n as nat),
    decreases n,
{
    if n >= 10 {
        push_decimal(text, n / 10);
    }
    text.push((48 + (n % 10) as u8) as char);
    assert(text@ =~= old(text)@ + decimal_digits(n as nat));
}

/// How many lines a text has: one for each line feed, and one more where
/// the text does not end with one.
pub open spec fn lines_in(text: Seq<char>) -> nat
    decreases text.len(),
{
    if text.len() == 0 {
        0
    } else if text.len() == 1 {
        1
    } else if text[0] == '\n' {
        1 + lines_in(text.drop_first())
    } else {
        lines_in(text.drop_first())
    }
}

/// How many lines a text has, up to `limit`: whether a text has more lines
/// than fit is all that is asked of it.
pub fn line_count(text: &str, limit: usize) -> (count: usize)
    ensures
        count == if lines_in(text@) < limit {
            lines_in(text@)
        } else {
            limit as nat
        },
{
    let chars = chars_of(text);
    let mut i: usize = chars.len();
    let mut count: usize = 0;
    assert(chars@.skip(i as int) =~= Seq::<char>::empty());
    while i > 0
        invariant
            i <= chars.len(),
            chars@ == text@,
            count <= limit,
            count == if lines_in(chars@.skip(i as int)) < limit {
                lines_in(chars@.skip(i as int))
            } else {
                limit as nat
            },
        decreases i,
    {
        i = i - 1;
        proof {
            let here = chars@.skip(i as int);
            assert(here.drop_first() =~= chars@.skip(i + 1));
        }
        if (i + 1 == chars.len() || chars[i] == '\n') && count < limit {
            count = count + 1;
        }
    }
    assert(chars@.skip(0) =~= chars@);
    count
}

} // verus!
