//! The filter of the home screen: which records match a text, character by
//! character.

use crate::text::{chars_of, text_from};
use crate::views::home::list::{holds, secrets_of, Secret, SecretView, SecretsView};
use vstd::prelude::*;
use vstd::utf8::encode_utf8;

verus! {

/// The length of the longest common start of two texts.
pub open spec fn common_start(a: Seq<char>, b: Seq<char>) -> nat
    decreases a.len(),
{
    if a.len() == 0 || b.len() == 0 || a[0] != b[0] {
        0
    } else {
        1 + common_start(a.drop_first(), b.drop_first())
    }
}

/// The longest common start of two texts is a start of both, and no longer
/// start is common to them.
pub proof fn lemma_common_start(a: Seq<char>, b: Seq<char>)
    ensures
        common_start(a, b) <= a.len(),
        common_start(a, b) <= b.len(),
        a.take(common_start(a, b) as int) == b.take(common_start(a, b) as int),
        common_start(a, b) < a.len() && common_start(a, b) < b.len() ==> a[common_start(a, b) as int]
            != b[common_start(a, b) as int],
    decreases a.len(),
{
    if a.len() == 0 || b.len() == 0 || a[0] != b[0] {
        assert(a.take(0) =~= b.take(0));
    } else {
        lemma_common_start(a.drop_first(), b.drop_first());
        let n = common_start(a.drop_first(), b.drop_first()) as int;
        assert(a.take(n + 1) =~= seq![a[0]] + a.drop_first().take(n));
        assert(b.take(n + 1) =~= seq![b[0]] + b.drop_first().take(n));
    }
}

/// Whether `largest_prefix` can compare the two texts. It walks the old text
/// by bytes: where the new text goes on behind the whole of the old one, the
/// old one must be as many bytes as characters long.
pub open spec fn comparable(previous_value: Seq<char>, new_value: Seq<char>) -> bool {
    common_start(previous_value, new_value) == previous_value.len() && previous_value.len()
        < new_value.len() ==> encode_utf8(previous_value).len() <= previous_value.len()
}

/// Whether the common start of the two texts goes on at `i`.
pub(crate) fn goes_on(old_chars: &Vec<char>, new_chars: &Vec<char>, old_bytes: usize, i: usize) -> (more:
    bool)
    requires
        i < new_chars@.len() && i < old_bytes ==> i < old_chars@.len(),
    ensures
        more == (i < new_chars@.len() && i < old_bytes && new_chars@[i as int] == old_chars@[i as int]),
{
    i < new_chars.len() && i < old_bytes && new_chars[i] == old_chars[i]
}

/// The longest text that both the old and the new text start with.
pub fn largest_prefix(previous_value: &str, new_value: &str) -> (prefix: String)
    requires
        comparable(previous_value@, new_value@),
    ensures
        prefix@ == new_value@.take(common_start(previous_value@, new_value@) as int),
{
    let old_chars = chars_of(previous_value);
    let new_chars = chars_of(new_value);
    let old_bytes = previous_value.as_bytes().len();
    let mut prefix = String::new();
    let mut i: usize = 0;
    proof {
        lemma_common_start(previous_value@, new_value@);
        lemma_bytes_cover_chars(previous_value@);
        assert(previous_value@.take(0) =~= new_value@.take(0));
    }
    while goes_on(&old_chars, &new_chars, old_bytes, i)
        invariant
            old_chars@ == previous_value@,
            new_chars@ == new_value@,
            old_bytes == encode_utf8(previous_value@).len(),
            comparable(previous_value@, new_value@),
            i <= new_chars@.len(),
            i <= old_chars@.len(),
            i < new_chars@.len() && i < old_bytes ==> i < old_chars@.len(),
            prefix@ == new_value@.take(i as int),
            old_chars@.take(i as int) == new_chars@.take(i as int),
        decreases new_chars@.len() - i,
    {
        prefix.push(new_chars[i]);
        i = i + 1;
        proof {
            assert(prefix@ =~= new_value@.take(i as int));
            assert(old_chars@.take(i as int) =~= old_chars@.take(i - 1).push(old_chars@[i - 1]));
            assert(new_chars@.take(i as int) =~= new_chars@.take(i - 1).push(new_chars@[i - 1]));
            lemma_start_is_common(previous_value@, new_value@, i as nat);
            lemma_common_start(previous_value@, new_value@);
        }
    }
    proof {
        lemma_start_is_common(previous_value@, new_value@, i as nat);
        lemma_common_start(previous_value@, new_value@);
        lemma_bytes_cover_chars(previous_value@);
        let n = common_start(previous_value@, new_value@);
        if i < n {
            assert(previous_value@.take(n as int)[i as int] == new_value@.take(n as int)[i as int]);
        }
    }
    prefix
}

/// A common start of two texts is no longer than their longest one.
pub proof fn lemma_start_is_common(a: Seq<char>, b: Seq<char>, n: nat)
    requires
        n <= a.len(),
        n <= b.len(),
        a.take(n as int) == b.take(n as int),
    ensures
        n <= common_start(a, b),
    decreases n,
{
    if n > 0 {
        assert(a.take(n as int)[0] == a[0]);
        assert(b.take(n as int)[0] == b[0]);
        assert(a.drop_first().take(n - 1) =~= a.take(n as int).drop_first());
        assert(b.drop_first().take(n - 1) =~= b.take(n as int).drop_first());
        lemma_start_is_common(a.drop_first(), b.drop_first(), (n - 1) as nat);
    }
}

/// A text has at least as many bytes as characters.
pub proof fn lemma_bytes_cover_chars(text: Seq<char>)
    ensures
        encode_utf8(text).len() >= text.len(),
    decreases text.len(),
{
    if text.len() > 0 {
        lemma_bytes_cover_chars(text.drop_first());
        assert(vstd::utf8::encode_scalar(text[0] as u32).len() >= 1);
    }
}

/// The place of the first `c` in a text; the length of the text where it
/// has none.
pub open spec fn first_of(text: Seq<char>, c: char) -> int
    decreases text.len(),
{
    if text.len() == 0 || text[0] == c {
        0
    } else {
        1 + first_of(text.drop_first(), c)
    }
}

/// The first `c` of a text stands where `first_of` says, and nowhere before.
pub proof fn lemma_first_of(text: Seq<char>, c: char)
    ensures
        0 <= first_of(text, c) <= text.len(),
        forall|i: int| 0 <= i < first_of(text, c) ==> text[i] != c,
        first_of(text, c) < text.len() ==> text[first_of(text, c)] == c,
        text.contains(c) <==> first_of(text, c) < text.len(),
    decreases text.len(),
{
    if text.len() == 0 || text[0] == c {
        if text.len() > 0 {
            assert(text.contains(c));
        }
    } else {
        let tail = text.drop_first();
        lemma_first_of(tail, c);
        assert forall|i: int| 0 <= i < first_of(text, c) implies text[i] != c by {
            if i > 0 {
                assert(text[i] == tail[i - 1]);
            }
        }
        if first_of(tail, c) < tail.len() {
            assert(text[first_of(text, c)] == tail[first_of(tail, c)]);
            assert(text.contains(c));
        }
        if text.contains(c) {
            let i = choose|i: int| 0 <= i < text.len() && text[i] == c;
            assert(tail[i - 1] == c);
            assert(tail.contains(c));
        }
    }
}

/// A record one character of the filter further on: what is left of its
/// domain starts behind the first such character.
pub open spec fn advanced(secret: SecretView, c: char) -> SecretView {
    SecretView { last_suffix: secret.last_suffix.skip(first_of(secret.last_suffix, c) + 1), ..secret }
}

/// Of the first `count` records of a level, those that match one more
/// character of the filter, each advanced by it; and, by their places among
/// these, those of them whose secret was shown in clear.
pub open spec fn narrowed(level: Seq<SecretView>, shown: Seq<usize>, c: char, count: int) -> (
    Seq<SecretView>,
    Seq<usize>,
)
    decreases count,
{
    if count <= 0 {
        (Seq::empty(), Seq::empty())
    } else {
        let (kept, lit) = narrowed(level, shown, c, count - 1);
        let secret = level[count - 1];
        if !secret.last_suffix.contains(c) {
            (kept, lit)
        } else if shown.contains((count - 1) as usize) {
            (kept.push(advanced(secret, c)), lit.push(kept.len() as usize))
        } else {
            (kept.push(advanced(secret, c)), lit)
        }
    }
}

/// The level that one more character of the filter makes of a level. Its
/// first record is selected.
pub open spec fn next_level(level: SecretsView, c: char) -> SecretsView {
    let (kept, lit) = narrowed(level.secrets, level.shown_secrets, c, level.secrets.len() as int);
    SecretsView { secrets: kept, selected_secret: 0, shown_secrets: lit }
}

/// The levels after more characters of the filter: each adds the level that
/// it makes of the last one, until a level is empty or the characters are
/// used up.
pub open spec fn extended(levels: Seq<SecretsView>, rest: Seq<char>) -> Seq<SecretsView>
    decreases rest.len(),
{
    if rest.len() == 0 || levels.len() == 0 {
        levels
    } else {
        let next = next_level(levels.last(), rest[0]);
        if next.secrets.len() == 0 {
            levels.push(next)
        } else {
            extended(levels.push(next), rest.drop_first())
        }
    }
}

/// Bytes of the longest text that the old and the new filter start with.
pub open spec fn prefix_bytes(previous_value: Seq<char>, new_value: Seq<char>) -> nat {
    encode_utf8(new_value.take(common_start(previous_value, new_value) as int)).len()
}

/// What of the new filter is still to be matched: `fuzzy_filter` skips as
/// many characters as the common start has bytes.
pub open spec fn rest_of(previous_value: Seq<char>, new_value: Seq<char>) -> Seq<char> {
    let skipped = prefix_bytes(previous_value, new_value);
    if skipped <= new_value.len() {
        new_value.skip(skipped as int)
    } else {
        Seq::empty()
    }
}

/// The levels after the filter changed: those of the common start of the
/// old and the new filter stay, and the rest of the new filter adds its own.
pub open spec fn filtered(
    levels: Seq<SecretsView>,
    previous_value: Seq<char>,
    new_value: Seq<char>,
) -> Seq<SecretsView> {
    extended(
        levels.take(prefix_bytes(previous_value, new_value) as int + 1),
        rest_of(previous_value, new_value),
    )
}

/// How many characters two texts have in common at their start.
pub(crate) fn common_start_of(a: &Vec<char>, b: &Vec<char>) -> (n: usize)
    ensures
        n == common_start(a@, b@),
{
    let mut i: usize = 0;
    assert(a@.take(0) =~= b@.take(0));
    while i < a.len() && i < b.len() && a[i] == b[i]
        invariant
            i <= a.len(),
            i <= b.len(),
            a@.take(i as int) == b@.take(i as int),
        decreases a.len() - i,
    {
        i = i + 1;
        assert(a@.take(i as int) =~= a@.take(i - 1).push(a@[i - 1]));
        assert(b@.take(i as int) =~= b@.take(i - 1).push(b@[i - 1]));
    }
    proof {
        lemma_start_is_common(a@, b@, i as nat);
        lemma_common_start(a@, b@);
        let n = common_start(a@, b@);
        if i < n {
            assert(a@.take(n as int)[i as int] == b@.take(n as int)[i as int]);
        }
    }
    i
}

/// Bytes of the first `count` characters of a text.
pub(crate) fn bytes_upto(chars: &Vec<char>, count: usize) -> (bytes: usize)
    requires
        count <= chars@.len(),
    ensures
        bytes == encode_utf8(chars@.take(count as int)).len(),
{
    let mut text = String::new();
    let mut i: usize = 0;
    assert(text@ =~= chars@.take(0));
    while i < count
        invariant
            i <= count <= chars@.len(),
            text@ == chars@.take(i as int),
        decreases count - i,
    {
        text.push(chars[i]);
        i = i + 1;
        assert(text@ =~= chars@.take(i as int));
    }
    text.as_str().as_bytes().len()
}

/// The record one character of the filter further on, if it matches it.
pub(crate) fn advance(secret: &Secret, c: char) -> (next: Option<Secret>)
    ensures
        next is Some <==> secret.last_suffix@.contains(c),
        next matches Some(further) ==> further@ == advanced(secret@, c),
{
    let chars = chars_of(secret.last_suffix.as_str());
    let mut i: usize = 0;
    proof {
        lemma_first_of(chars@, c);
    }
    while i < chars.len() && chars[i] != c
        invariant
            i <= chars.len(),
            i <= first_of(chars@, c),
            forall|k: int| 0 <= k < first_of(chars@, c) ==> chars@[k] != c,
            first_of(chars@, c) <= chars@.len(),
            first_of(chars@, c) < chars@.len() ==> chars@[first_of(chars@, c)] == c,
        decreases chars.len() - i,
    {
        i = i + 1;
    }
    if i == chars.len() {
        return None;
    }
    Some(
        Secret {
            key: secret.key.clone(),
            value: secret.value.clone(),
            last_suffix: text_from(&chars, i + 1),
        },
    )
}

/// The records of a level that match one more character of the filter.
pub(crate) fn narrow(secrets: &Vec<Secret>, shown: &Vec<usize>, c: char) -> (next: (Vec<Secret>, Vec<usize>))
    ensures
        (secrets_of(next.0@), next.1@) == narrowed(
            secrets_of(secrets@),
            shown@,
            c,
            secrets@.len() as int,
        ),
{
    let mut kept: Vec<Secret> = Vec::new();
    let mut lit: Vec<usize> = Vec::new();
    let mut index: usize = 0;
    assert(secrets_of(kept@) =~= Seq::<SecretView>::empty());
    while index < secrets.len()
        invariant
            index <= secrets.len(),
            (secrets_of(kept@), lit@) == narrowed(secrets_of(secrets@), shown@, c, index as int),
        decreases secrets.len() - index,
    {
        let ghost before = secrets_of(kept@);
        match advance(&secrets[index], c) {
            Some(further) => {
                if holds(shown, index) {
                    lit.push(kept.len());
                }
                kept.push(further);
                assert(secrets_of(kept@) =~= before.push(further@));
            },
            None => {},
        }
        index = index + 1;
    }
    (kept, lit)
}

} // verus!
