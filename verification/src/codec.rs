//! The vault codec: how a record store is laid out as bytes before it is
//! sealed, and how a sealed store is laid out in a vault file.

use crate::cipher::{NONCE_LEN, SALT_LEN, TAG_LEN};
use crate::records::{entries_of, Entry};
use crate::text::text_from_utf8;
use vstd::bytes::{
    lemma_auto_spec_u32_to_from_le_bytes, spec_u32_from_le_bytes, spec_u32_to_le_bytes,
    u32_from_le_bytes, u32_to_le_bytes,
};
use vstd::prelude::*;
use vstd::slice::{slice_subrange, slice_to_vec};
use vstd::utf8::{
    decode_utf8, encode_utf8, encode_utf8_decode_utf8, encode_utf8_valid_utf8, valid_utf8,
};

verus! {

/// The largest count or length that the layout can write down.
pub const MAX_LEN: usize = 0xFFFF_FFFF;

/// A text fits when its UTF-8 form has at most `MAX_LEN` bytes.
pub open spec fn text_fits(text: Seq<char>) -> bool {
    encode_utf8(text).len() <= MAX_LEN
}

/// A record fits when its domain and its secret do.
pub open spec fn entry_fits(entry: Entry) -> bool {
    text_fits(entry.0) && text_fits(entry.1)
}

/// A store fits when it has at most `MAX_LEN` records and each of them fits.
pub open spec fn records_fit(s: Seq<Entry>) -> bool {
    &&& s.len() <= MAX_LEN
    &&& forall|i: int| 0 <= i < s.len() ==> entry_fits(#[trigger] s[i])
}

/// A text on the wire: the length of its UTF-8 form as four bytes, low byte
/// first, then that form.
pub open spec fn text_bytes(text: Seq<char>) -> Seq<u8> {
    spec_u32_to_le_bytes(encode_utf8(text).len() as u32) + encode_utf8(text)
}

/// A record on the wire: its domain, then its secret.
pub open spec fn entry_bytes(entry: Entry) -> Seq<u8> {
    text_bytes(entry.0) + text_bytes(entry.1)
}

/// The records on the wire, one after the other.
pub open spec fn entries_bytes(s: Seq<Entry>) -> Seq<u8>
    decreases s.len(),
{
    if s.len() == 0 {
        Seq::empty()
    } else {
        entry_bytes(s[0]) + entries_bytes(s.drop_first())
    }
}

/// A store on the wire: the number of its records as four bytes, low byte
/// first, then the records.
pub open spec fn records_bytes(s: Seq<Entry>) -> Seq<u8> {
    spec_u32_to_le_bytes(s.len() as u32) + entries_bytes(s)
}

/// The text at the front of `bytes` and what follows it; nothing where the
/// bytes are cut short or the text is not UTF-8.
pub open spec fn parse_text(bytes: Seq<u8>) -> Option<(Seq<char>, Seq<u8>)> {
    if bytes.len() < 4 {
        None
    } else {
        let n = spec_u32_from_le_bytes(bytes.subrange(0, 4)) as int;
        if bytes.len() - 4 < n {
            None
        } else if !valid_utf8(bytes.subrange(4, 4 + n)) {
            None
        } else {
            Some((decode_utf8(bytes.subrange(4, 4 + n)), bytes.subrange(4 + n, bytes.len() as int)))
        }
    }
}

/// The record at the front of `bytes` and what follows it.
pub open spec fn parse_entry(bytes: Seq<u8>) -> Option<(Entry, Seq<u8>)> {
    match parse_text(bytes) {
        None => None,
        Some((domain, after_domain)) => match parse_text(after_domain) {
            None => None,
            Some((secret, rest)) => Some(((domain, secret), rest)),
        },
    }
}

/// The `count` records at the front of `bytes` and what follows them.
pub open spec fn parse_entries(bytes: Seq<u8>, count: nat) -> Option<(Seq<Entry>, Seq<u8>)>
    decreases count,
{
    if count == 0 {
        Some((Seq::empty(), bytes))
    } else {
        match parse_entry(bytes) {
            None => None,
            Some((entry, rest)) => match parse_entries(rest, (count - 1) as nat) {
                None => None,
                Some((tail, end)) => Some((seq![entry] + tail, end)),
            },
        }
    }
}

/// The store that `bytes` lay out; nothing where they lay out none: they
/// are cut short, a text is not UTF-8, or bytes are left over.
pub open spec fn parse_records(bytes: Seq<u8>) -> Option<Seq<Entry>> {
    if bytes.len() < 4 {
        None
    } else {
        let count = spec_u32_from_le_bytes(bytes.subrange(0, 4)) as nat;
        match parse_entries(bytes.subrange(4, bytes.len() as int), count) {
            None => None,
            Some((s, rest)) => if rest.len() == 0 {
                Some(s)
            } else {
                None
            },
        }
    }
}

/// A text that fits is read back from the front of whatever it was written
/// before.
pub proof fn lemma_parse_text_bytes(text: Seq<char>, rest: Seq<u8>)
    requires
        text_fits(text),
    ensures
        parse_text(text_bytes(text) + rest) == Some((text, rest)),
{
    lemma_auto_spec_u32_to_from_le_bytes();
    encode_utf8_valid_utf8(text);
    encode_utf8_decode_utf8(text);
    let body = encode_utf8(text);
    let n = body.len() as u32;
    let bytes = text_bytes(text) + rest;
    assert(bytes.subrange(0, 4) =~= spec_u32_to_le_bytes(n));
    assert(bytes.subrange(4, 4 + n) =~= body);
    assert(bytes.subrange(4 + n, bytes.len() as int) =~= rest);
}

/// Records that fit are read back from the front of whatever they were
/// written before.
pub proof fn lemma_parse_entries_bytes(s: Seq<Entry>, rest: Seq<u8>)
    requires
        records_fit(s),
    ensures
        parse_entries(entries_bytes(s) + rest, s.len()) == Some((s, rest)),
    decreases s.len(),
{
    if s.len() > 0 {
        let tail = s.drop_first();
        let after = entries_bytes(tail) + rest;
        assert(records_fit(tail)) by {
            assert forall|i: int| 0 <= i < tail.len() implies entry_fits(#[trigger] tail[i]) by {
                assert(tail[i] == s[i + 1]);
            }
        }
        assert(entry_fits(s[0]));
        lemma_parse_text_bytes(s[0].0, text_bytes(s[0].1) + after);
        lemma_parse_text_bytes(s[0].1, after);
        assert(entries_bytes(s) + rest =~= text_bytes(s[0].0) + (text_bytes(s[0].1) + after));
        lemma_parse_entries_bytes(tail, rest);
        assert(seq![s[0]] + tail =~= s);
    }
}

/// A store that fits is read back from its own layout.
pub proof fn lemma_parse_records_bytes(s: Seq<Entry>)
    requires
        records_fit(s),
    ensures
        parse_records(records_bytes(s)) == Some(s),
{
    lemma_auto_spec_u32_to_from_le_bytes();
    let bytes = records_bytes(s);
    assert(bytes.subrange(0, 4) =~= spec_u32_to_le_bytes(s.len() as u32));
    assert(bytes.subrange(4, bytes.len() as int) =~= entries_bytes(s) + Seq::<u8>::empty());
    lemma_parse_entries_bytes(s, Seq::empty());
}

/// What an optional list of pairs stands for.
pub open spec fn entries_of_option(pairs: Option<Vec<(String, String)>>) -> Option<Seq<Entry>> {
    match pairs {
        Some(list) => Some(entries_of(list@)),
        None => None,
    }
}

/// Appends the layout of `text` to `out`, unless the text does not fit.
fn write_text(out: &mut Vec<u8>, text: &str) -> (written: bool)
    ensures
        written == text_fits(text@),
        written ==> final(out)@ == old(out)@ + text_bytes(text@),
        !written ==> final(out)@ == old(out)@,
{
    let body = text.as_bytes();
    if body.len() > MAX_LEN {
        return false;
    }
    let mut length = u32_to_le_bytes(body.len() as u32);
    let mut copy = slice_to_vec(body);
    out.append(&mut length);
    out.append(&mut copy);
    assert(out@ =~= old(out)@ + text_bytes(text@));
    true
}

/// The layout of a list of records; nothing where the list does not fit.
pub fn encode_records(pairs: &Vec<(String, String)>) -> (bytes: Option<Vec<u8>>)
    ensures
        bytes is Some <==> records_fit(entries_of(pairs@)),
        bytes matches Some(b) ==> b@ == records_bytes(entries_of(pairs@)),
{
    let ghost s = entries_of(pairs@);
    if pairs.len() > MAX_LEN {
        return None;
    }
    let mut out = u32_to_le_bytes(pairs.len() as u32);
    let mut i: usize = 0;
    while i < pairs.len()
        invariant
            i <= pairs.len(),
            s == entries_of(pairs@),
            s.len() <= MAX_LEN,
            records_fit(s.take(i as int)),
            out@ == spec_u32_to_le_bytes(s.len() as u32) + entries_bytes(s.take(i as int)),
        decreases pairs.len() - i,
    {
        let ghost before = out@;
        let domain_fits = write_text(&mut out, pairs[i].0.as_str());
        if !domain_fits {
            assert(!entry_fits(s[i as int]));
            return None;
        }
        let secret_fits = write_text(&mut out, pairs[i].1.as_str());
        if !secret_fits {
            assert(!entry_fits(s[i as int]));
            return None;
        }
        proof {
            lemma_entries_bytes_push(s.take(i as int), s[i as int]);
            assert(s.take(i as int).push(s[i as int]) =~= s.take(i + 1));
            assert(out@ =~= before + entry_bytes(s[i as int]));
            assert forall|k: int| 0 <= k < i + 1 implies entry_fits(
                #[trigger] s.take(i + 1)[k],
            ) by {
                if k < i {
                    assert(s.take(i as int)[k] == s.take(i + 1)[k]);
                }
            }
        }
        i = i + 1;
    }
    assert(s.take(i as int) =~= s);
    Some(out)
}

/// The layout of records grows at its end as the records do.
pub proof fn lemma_entries_bytes_push(s: Seq<Entry>, entry: Entry)
    ensures
        entries_bytes(s.push(entry)) == entries_bytes(s) + entry_bytes(entry),
    decreases s.len(),
{
    let longer = s.push(entry);
    assert(entries_bytes(longer) == entry_bytes(longer[0]) + entries_bytes(longer.drop_first()));
    if s.len() == 0 {
        assert(longer.drop_first() =~= Seq::<Entry>::empty());
        assert(entries_bytes(Seq::<Entry>::empty()) =~= Seq::<u8>::empty());
        assert(entries_bytes(longer) =~= entries_bytes(s) + entry_bytes(entry));
    } else {
        assert(longer.drop_first() =~= s.drop_first().push(entry));
        lemma_entries_bytes_push(s.drop_first(), entry);
        assert(entries_bytes(s) == entry_bytes(s[0]) + entries_bytes(s.drop_first()));
        assert(entries_bytes(longer) =~= entries_bytes(s) + entry_bytes(entry));
    }
}

/// Reads the text that starts at `pos`, and says where it ends.
fn read_text(bytes: &[u8], pos: usize) -> (read: Option<(String, usize)>)
    requires
        pos <= bytes@.len(),
    ensures
        match read {
            Some((text, next)) => pos <= next <= bytes@.len() && parse_text(
                bytes@.subrange(pos as int, bytes@.len() as int),
            ) == Some((text@, bytes@.subrange(next as int, bytes@.len() as int))),
            None => parse_text(bytes@.subrange(pos as int, bytes@.len() as int)) is None,
        },
{
    let ghost tail = bytes@.subrange(pos as int, bytes@.len() as int);
    if bytes.len() - pos < 4 {
        return None;
    }
    let n = u32_from_le_bytes(slice_subrange(bytes, pos, pos + 4)) as usize;
    assert(tail.subrange(0, 4) =~= bytes@.subrange(pos as int, pos + 4));
    if bytes.len() - pos - 4 < n {
        return None;
    }
    let body = slice_to_vec(slice_subrange(bytes, pos + 4, pos + 4 + n));
    assert(tail.subrange(4, 4 + n) =~= bytes@.subrange(pos + 4, pos + 4 + n));
    assert(tail.subrange(4 + n, tail.len() as int) =~= bytes@.subrange(
        pos + 4 + n,
        bytes@.len() as int,
    ));
    match text_from_utf8(body) {
        Some(text) => Some((text, pos + 4 + n)),
        None => None,
    }
}

/// The list of records that `bytes` lay out; nothing where they lay out
/// none.
pub fn decode_records(bytes: &[u8]) -> (pairs: Option<Vec<(String, String)>>)
    ensures
        entries_of_option(pairs) == parse_records(bytes@),
{
    if bytes.len() < 4 {
        return None;
    }
    let count = u32_from_le_bytes(slice_subrange(bytes, 0, 4));
    let ghost all = bytes@.subrange(4, bytes@.len() as int);
    let ghost end = bytes@.len() as int;
    let mut pairs: Vec<(String, String)> = Vec::new();
    let mut pos: usize = 4;
    let mut i: u32 = 0;
    proof {
        assert(entries_of(pairs@) =~= Seq::<Entry>::empty());
        lemma_after_nothing(all, count as nat);
    }
    while i < count
        invariant
            i <= count,
            4 <= pos <= bytes@.len(),
            end == bytes@.len(),
            all == bytes@.subrange(4, end),
            count == spec_u32_from_le_bytes(bytes@.subrange(0, 4)),
            parse_entries(all, count as nat) == after_entries(
                entries_of(pairs@),
                parse_entries(bytes@.subrange(pos as int, end), (count - i) as nat),
            ),
        decreases count - i,
    {
        let ghost here = bytes@.subrange(pos as int, end);
        let ghost before = entries_of(pairs@);
        let (domain, after_domain) = match read_text(bytes, pos) {
            Some(read) => read,
            None => {
                return None;
            },
        };
        let (secret, next) = match read_text(bytes, after_domain) {
            Some(read) => read,
            None => {
                return None;
            },
        };
        proof {
            let entry = (domain@, secret@);
            let rest = bytes@.subrange(next as int, end);
            assert(parse_entry(here) == Some((entry, rest)));
                        assert(entries_of(pairs@.push((domain, secret))) =~= before.push(entry));
            match parse_entries(rest, (count - i - 1) as nat) {
                Some((tail, left)) => {
                    assert(before + (seq![entry] + tail) =~= before.push(entry) + tail);
                },
                None => {},
            }
        }
        pairs.push((domain, secret));
        pos = next;
        i = i + 1;
    }
    if pos < bytes.len() {
        return None;
    }
    proof {
        assert(entries_of(pairs@) + Seq::<Entry>::empty() =~= entries_of(pairs@));
    }
    Some(pairs)
}

/// What parsing gives when `head` was parsed already and `tail` is what
/// parsing the rest gives.
pub open spec fn after_entries(head: Seq<Entry>, tail: Option<(Seq<Entry>, Seq<u8>)>) -> Option<
    (Seq<Entry>, Seq<u8>),
> {
    match tail {
        Some((entries, rest)) => Some((head + entries, rest)),
        None => None,
    }
}

/// With nothing parsed already, parsing the rest gives the whole.
proof fn lemma_after_nothing(bytes: Seq<u8>, count: nat)
    ensures
        after_entries(Seq::empty(), parse_entries(bytes, count)) == parse_entries(bytes, count),
{
    match parse_entries(bytes, count) {
        Some((entries, rest)) => {
            assert(Seq::<Entry>::empty() + entries =~= entries);
        },
        None => {},
    }
}

/// Bytes in the header of a vault file.
pub const HEADER_LEN: usize = 5;

/// The first bytes of every vault file: the letters `KRAB`, then the number
/// of the layout.
pub open spec fn vault_header() -> Seq<u8> {
    seq![0x4bu8, 0x52u8, 0x41u8, 0x42u8, 0x01u8]
}

/// What a vault file holds after its header: the salt the key is derived
/// with, the nonce the payload was sealed with, and the sealed payload.
pub struct VaultParts {
    pub salt: Seq<u8>,
    pub nonce: Seq<u8>,
    pub sealed: Seq<u8>,
}

/// The lengths that the parts of a vault file have.
pub open spec fn parts_fit(parts: VaultParts) -> bool {
    &&& parts.salt.len() == SALT_LEN
    &&& parts.nonce.len() == NONCE_LEN
    &&& parts.sealed.len() >= TAG_LEN
}

/// A vault file: the header, the salt, the nonce, the sealed payload.
pub open spec fn vault_bytes(parts: VaultParts) -> Seq<u8> {
    vault_header() + parts.salt + parts.nonce + parts.sealed
}

/// The parts of a vault file; nothing where the bytes are too few or do not
/// start with the header.
pub open spec fn parse_vault(bytes: Seq<u8>) -> Option<VaultParts> {
    if bytes.len() < HEADER_LEN + SALT_LEN + NONCE_LEN + TAG_LEN {
        None
    } else if bytes.subrange(0, HEADER_LEN as int) != vault_header() {
        None
    } else {
        Some(
            VaultParts {
                salt: bytes.subrange(HEADER_LEN as int, HEADER_LEN + SALT_LEN),
                nonce: bytes.subrange(HEADER_LEN + SALT_LEN, HEADER_LEN + SALT_LEN + NONCE_LEN),
                sealed: bytes.subrange(HEADER_LEN + SALT_LEN + NONCE_LEN, bytes.len() as int),
            },
        )
    }
}

/// A vault file is read back from its own bytes.
pub proof fn lemma_parse_vault_bytes(parts: VaultParts)
    requires
        parts_fit(parts),
    ensures
        parse_vault(vault_bytes(parts)) == Some(parts),
{
    let bytes = vault_bytes(parts);
    assert(bytes.subrange(0, HEADER_LEN as int) =~= vault_header());
    assert(bytes.subrange(HEADER_LEN as int, HEADER_LEN + SALT_LEN) =~= parts.salt);
    assert(bytes.subrange(HEADER_LEN + SALT_LEN, HEADER_LEN + SALT_LEN + NONCE_LEN)
        =~= parts.nonce);
    assert(bytes.subrange(HEADER_LEN + SALT_LEN + NONCE_LEN, bytes.len() as int) =~= parts.sealed);
}

/// Bytes that parse as a vault file are the bytes of what they parse to.
pub proof fn lemma_vault_bytes_parse(bytes: Seq<u8>)
    requires
        parse_vault(bytes) is Some,
    ensures
        vault_bytes(parse_vault(bytes)->0) == bytes,
        parts_fit(parse_vault(bytes)->0),
{
    assert(vault_bytes(parse_vault(bytes)->0) =~= bytes);
}

/// The parts of a vault file, as bytes in memory.
#[derive(Debug)]
pub struct VaultImage {
    pub salt: Vec<u8>,
    pub nonce: Vec<u8>,
    pub sealed: Vec<u8>,
}

impl View for VaultImage {
    type V = VaultParts;

    open spec fn view(&self) -> VaultParts {
        VaultParts { salt: self.salt@, nonce: self.nonce@, sealed: self.sealed@ }
    }
}

/// The header as a vector.
fn header_bytes() -> (header: Vec<u8>)
    ensures
        header@ == vault_header(),
{
    let header = vec![0x4bu8, 0x52u8, 0x41u8, 0x42u8, 0x01u8];
    assert(header@ =~= vault_header());
    header
}

/// The bytes of the vault file with these parts.
pub fn encode_vault(image: &VaultImage) -> (bytes: Vec<u8>)
    ensures
        bytes@ == vault_bytes(image@),
{
    let mut bytes = header_bytes();
    let mut salt = slice_to_vec(image.salt.as_slice());
    let mut nonce = slice_to_vec(image.nonce.as_slice());
    let mut sealed = slice_to_vec(image.sealed.as_slice());
    bytes.append(&mut salt);
    bytes.append(&mut nonce);
    bytes.append(&mut sealed);
    bytes
}

/// Whether two byte strings are the same.
pub fn same_bytes(a: &[u8], b: &[u8]) -> (same: bool)
    ensures
        same == (a@ == b@),
{
    if a.len() != b.len() {
        return false;
    }
    let mut i: usize = 0;
    while i < a.len()
        invariant
            i <= a.len(),
            a@.len() == b@.len(),
            a@.take(i as int) == b@.take(i as int),
        decreases a.len() - i,
    {
        if a[i] != b[i] {
            return false;
        }
        i = i + 1;
        assert(a@.take(i as int) =~= a@.take(i - 1).push(a@[i - 1]));
        assert(b@.take(i as int) =~= b@.take(i - 1).push(b@[i - 1]));
    }
    assert(a@ =~= a@.take(i as int));
    assert(b@ =~= b@.take(i as int));
    true
}

/// The parts of the vault file that `bytes` are; nothing where they are no
/// vault file.
pub fn decode_vault(bytes: &[u8]) -> (image: Option<VaultImage>)
    ensures
        match image {
            Some(parts) => parse_vault(bytes@) == Some(parts@),
            None => parse_vault(bytes@) is None,
        },
{
    if bytes.len() < HEADER_LEN + SALT_LEN + NONCE_LEN + TAG_LEN {
        return None;
    }
    let header = header_bytes();
    if !same_bytes(slice_subrange(bytes, 0, HEADER_LEN), header.as_slice()) {
        return None;
    }
    let salt = slice_to_vec(slice_subrange(bytes, HEADER_LEN, HEADER_LEN + SALT_LEN));
    let nonce = slice_to_vec(
        slice_subrange(bytes, HEADER_LEN + SALT_LEN, HEADER_LEN + SALT_LEN + NONCE_LEN),
    );
    let sealed = slice_to_vec(
        slice_subrange(bytes, HEADER_LEN + SALT_LEN + NONCE_LEN, bytes.len()),
    );
    Some(VaultImage { salt, nonce, sealed })
}

} // verus!
