//! Colours written as hexadecimal text.

use vstd::prelude::*;
use vstd::string::StringSliceAdditionalSpecFns;

verus! {

/// A colour: its red, green and blue parts.
#[derive(Debug, Clone, Copy, PartialEq, Eq, Structural)]
pub struct Rgb {
    pub r: u8,
    pub g: u8,
    pub b: u8,
}

/// The value of a hexadecimal digit, in either case.
pub open spec fn digit_value(byte: u8) -> Option<u8> {
    if 48 <= byte <= 57 {
        Some((byte - 48) as u8)
    } else if 97 <= byte <= 102 {
        Some((byte - 87) as u8)
    } else if 65 <= byte <= 70 {
        Some((byte - 55) as u8)
    } else {
        None
    }
}

/// The number that two bytes of text stand for in base sixteen: two digits,
/// or a plus sign and one digit.
pub open spec fn pair_value(high: u8, low: u8) -> Option<u8> {
    match digit_value(low) {
        None => None,
        Some(ones) => match digit_value(high) {
            Some(sixteens) => Some((16 * sixteens + ones) as u8),
            None => if high == 43 {
                Some(ones)
            } else {
                None
            },
        },
    }
}

/// How many `#` a text starts with.
pub open spec fn hashes(bytes: Seq<u8>) -> int
    decreases bytes.len(),
{
    if bytes.len() == 0 || bytes[0] != 35 {
        0
    } else {
        1 + hashes(bytes.drop_first())
    }
}

/// Whether a byte goes on a character that started before it.
pub open spec fn continues(byte: u8) -> bool {
    128 <= byte < 192
}

/// Whether a text can be read as a colour: behind its `#` it must have six
/// bytes that three pairs of characters can be cut from.
pub open spec fn readable(bytes: Seq<u8>) -> bool {
    let start = hashes(bytes);
    &&& bytes.len() >= start + 6
    &&& !continues(bytes[start + 2])
    &&& !continues(bytes[start + 4])
    &&& bytes.len() > start + 6 ==> !continues(bytes[start + 6])
}

/// The colour that a text stands for, if its three pairs are numbers.
pub open spec fn colour_of(bytes: Seq<u8>) -> Option<Rgb> {
    let start = hashes(bytes);
    match (
        pair_value(bytes[start], bytes[start + 1]),
        pair_value(bytes[start + 2], bytes[start + 3]),
        pair_value(bytes[start + 4], bytes[start + 5]),
    ) {
        (Some(r), Some(g), Some(b)) => Some(Rgb { r, g, b }),
        _ => None,
    }
}

fn digit_of(byte: u8) -> (value: Option<u8>)
    ensures
        value == digit_value(byte),
{
    if 48 <= byte && byte <= 57 {
        Some(byte - 48)
    } else if 97 <= byte && byte <= 102 {
        Some(byte - 87)
    } else if 65 <= byte && byte <= 70 {
        Some(byte - 55)
    } else {
        None
    }
}

fn pair_of(high: u8, low: u8) -> (value: Option<u8>)
    ensures
        value == pair_value(high, low),
{
    match digit_of(low) {
        None => None,
        Some(ones) => match digit_of(high) {
            Some(sixteens) => Some(16 * sixteens + ones),
            None => if high == 43 {
                Some(ones)
            } else {
                None
            },
        },
    }
}

/// Whether `from` can read the text.
pub fn can_read(hex: &str) -> (can: bool)
    ensures
        can == readable(hex.spec_bytes()),
{
    let bytes = hex.as_bytes();
    let start = count_hashes(bytes);
    if bytes.len() - start < 6 {
        return false;
    }
    if bytes[start + 2] >= 128 && bytes[start + 2] < 192 {
        return false;
    }
    if bytes[start + 4] >= 128 && bytes[start + 4] < 192 {
        return false;
    }
    !(bytes.len() - start > 6 && bytes[start + 6] >= 128 && bytes[start + 6] < 192)
}

fn count_hashes(bytes: &[u8]) -> (count: usize)
    ensures
        count == hashes(bytes@),
        count <= bytes@.len(),
{
    let mut i: usize = 0;
    assert(bytes@.skip(0) =~= bytes@);
    while i < bytes.len() && bytes[i] == 35
        invariant
            i <= bytes.len(),
            hashes(bytes@) == i + hashes(bytes@.skip(i as int)),
        decreases bytes.len() - i,
    {
        assert(bytes@.skip(i as int).drop_first() =~= bytes@.skip(i + 1));
        i = i + 1;
    }
    i
}

/// The colour that a text such as `#E3AD43` stands for: any `#` at its start
/// are skipped, and the next three pairs of characters are read as the red,
/// green and blue parts in base sixteen. A pair that is no number makes the
/// colour invalid.
pub fn from(hex: &str) -> (colour: Result<Rgb, String>)
    requires
        readable(hex.spec_bytes()),
    ensures
        match colour {
            Ok(rgb) => colour_of(hex.spec_bytes()) == Some(rgb),
            Err(message) => colour_of(hex.spec_bytes()) is None && message@ == "Invalid color"@,
        },
{
    let bytes = hex.as_bytes();
    let start = count_hashes(bytes);
    let try_r = pair_of(bytes[start], bytes[start + 1]);
    let try_g = pair_of(bytes[start + 2], bytes[start + 3]);
    let try_b = pair_of(bytes[start + 4], bytes[start + 5]);
    match (try_r, try_g, try_b) {
        (Some(r), Some(g), Some(b)) => Ok(Rgb { r, g, b }),
        _ => Err("Invalid color".to_owned()),
    }
}

} // verus!
