//! The secret generator: random secrets that conform to a policy.

use rand::Rng;
use vstd::prelude::*;

verus! {

/// The length a policy asks for unless it is told otherwise.
pub const DEFAULT_LENGTH: usize = 16;

/// How many candidates `generate_password` draws before it gives up.
pub const MAX_ATTEMPTS: usize = 1000;

/// Which character classes a generated secret must show, and how long it is.
/// Lowercase letters are always part of a secret.
#[derive(Debug, Clone, Copy, PartialEq, Eq, Structural)]
pub struct PasswordConfig {
    pub include_uppercase: bool,
    pub include_numbers: bool,
    pub include_special: bool,
    pub length: usize,
}

impl Default for PasswordConfig {
    fn default() -> (config: Self)
        ensures
            config == (PasswordConfig {
                include_uppercase: true,
                include_numbers: true,
                include_special: true,
                length: DEFAULT_LENGTH,
            }),
    {
        PasswordConfig {
            include_uppercase: true,
            include_numbers: true,
            include_special: true,
            length: DEFAULT_LENGTH,
        }
    }
}

/// The preferences of the application.
#[derive(Debug, Clone, Copy, PartialEq, Eq, Structural)]
pub struct Config {
    pub password_config: PasswordConfig,
}

impl Default for Config {
    fn default() -> (config: Self)
        ensures
            config.password_config == (PasswordConfig {
                include_uppercase: true,
                include_numbers: true,
                include_special: true,
                length: DEFAULT_LENGTH,
            }),
    {
        Config { password_config: PasswordConfig::default() }
    }
}

/// The four kinds of character a secret is made of.
#[derive(Debug, Clone, Copy, PartialEq, Eq, Structural)]
pub enum CharClass {
    Lowercase,
    Uppercase,
    Number,
    Special,
}

/// The punctuation a secret may hold, in the order it enters the character
/// set.
pub open spec fn special_alphabet() -> Seq<char> {
    seq![
        '!', '@', '#', '$', '%', '^', '&', '*', '(', ')', '-', '_', '=', '+', '[', ']', '{', '}',
        '|', ';', ':', ',', '.', '<', '>', '?',
    ]
}

/// `count` consecutive characters, the first of which has code `first`.
pub open spec fn char_run(first: u8, count: nat) -> Seq<char> {
    Seq::new(count, |i: int| ((first + i) as u8) as char)
}

/// The characters of a class, in the order they enter the character set.
pub open spec fn alphabet(class: CharClass) -> Seq<char> {
    match class {
        CharClass::Lowercase => char_run(97, 26),
        CharClass::Uppercase => char_run(65, 26),
        CharClass::Number => char_run(48, 10),
        CharClass::Special => special_alphabet(),
    }
}

/// Whether a character belongs to a class.
pub open spec fn in_class(class: CharClass, c: char) -> bool {
    match class {
        CharClass::Lowercase => 'a' <= c <= 'z',
        CharClass::Uppercase => 'A' <= c <= 'Z',
        CharClass::Number => '0' <= c <= '9',
        CharClass::Special => special_alphabet().contains(c),
    }
}

/// Some character of `s` belongs to the class.
pub open spec fn has_class(s: Seq<char>, class: CharClass) -> bool {
    exists|i: int| 0 <= i < s.len() && in_class(class, #[trigger] s[i])
}

/// Whether the policy asks for a character of the class.
pub open spec fn requires_class(config: PasswordConfig, class: CharClass) -> bool {
    match class {
        CharClass::Lowercase => true,
        CharClass::Uppercase => config.include_uppercase,
        CharClass::Number => config.include_numbers,
        CharClass::Special => config.include_special,
    }
}

/// The number of classes the policy asks for.
pub open spec fn required_classes(config: PasswordConfig) -> nat {
    1 + (if config.include_uppercase { 1nat } else { 0 })
      + (if config.include_numbers { 1nat } else { 0 })
      + (if config.include_special { 1nat } else { 0 })
}

/// The alphabet of a class if the policy asks for it, else nothing.
pub open spec fn enabled_alphabet(config: PasswordConfig, class: CharClass) -> Seq<char> {
    if requires_class(config, class) {
        alphabet(class)
    } else {
        Seq::empty()
    }
}

/// The characters candidates are drawn from: the lowercase letters, then the
/// alphabet of each class the policy enables.
pub open spec fn charset(config: PasswordConfig) -> Seq<char> {
    alphabet(CharClass::Lowercase) + enabled_alphabet(config, CharClass::Uppercase)
        + enabled_alphabet(config, CharClass::Number) + enabled_alphabet(
        config,
        CharClass::Special,
    )
}

/// A secret conforms to a policy when it shows a lowercase letter and a
/// character of every class the policy enables.
pub open spec fn conforms(s: Seq<char>, config: PasswordConfig) -> bool {
    &&& has_class(s, CharClass::Lowercase)
    &&& config.include_uppercase ==> has_class(s, CharClass::Uppercase)
    &&& config.include_numbers ==> has_class(s, CharClass::Number)
    &&& config.include_special ==> has_class(s, CharClass::Special)
}

/// The candidate that a list of draws selects from a character set.
pub open spec fn candidate(chars: Seq<char>, draws: Seq<usize>) -> Seq<char> {
    Seq::new(draws.len(), |i: int| chars[draws[i] as int])
}

/// Every draw is an index into a character set of `bound` characters.
pub open spec fn draws_below(draws: Seq<usize>, bound: nat) -> bool {
    forall|i: int| 0 <= i < draws.len() ==> (#[trigger] draws[i]) < bound
}

/// Whether `c` belongs to `class`.
pub fn class_contains(class: CharClass, c: char) -> (b: bool)
    ensures
        b == in_class(class, c),
{
    match class {
        CharClass::Lowercase => 'a' <= c && c <= 'z',
        CharClass::Uppercase => 'A' <= c && c <= 'Z',
        CharClass::Number => '0' <= c && c <= '9',
        CharClass::Special => {
            let special = special_chars();
            let mut i: usize = 0;
            while i < special.len()
                invariant
                    i <= special.len(),
                    class == CharClass::Special,
                    special@ == special_alphabet(),
                    forall|j: int| 0 <= j < i ==> special@[j] != c,
                decreases special.len() - i,
            {
                if special[i] == c {
                    assert(special_alphabet()[i as int] == c);
                    return true;
                }
                i = i + 1;
            }
            false
        },
    }
}

/// The punctuation alphabet as a vector.
pub fn special_chars() -> (chars: Vec<char>)
    ensures
        chars@ == special_alphabet(),
{
    let chars = vec![
        '!', '@', '#', '$', '%', '^', '&', '*', '(', ')', '-', '_', '=', '+', '[', ']', '{', '}',
        '|', ';', ':', ',', '.', '<', '>', '?',
    ];
    assert(chars@ =~= special_alphabet());
    chars
}

/// Appends `count` consecutive characters to `chars`, starting at the one
/// with code `first`.
fn push_char_run(chars: &mut Vec<char>, first: u8, count: u8)
    requires
        first + count <= 128,
    ensures
        final(chars)@ == old(chars)@ + char_run(first, count as nat),
{
    let mut i: u8 = 0;
    while i < count
        invariant
            i <= count,
            first + count <= 128,
            chars@ == old(chars)@ + char_run(first, i as nat),
        decreases count - i,
    {
        chars.push((first + i) as char);
        i = i + 1;
        assert(chars@ =~= old(chars)@ + char_run(first, i as nat));
    }
}

/// Appends the alphabet of `class` to `chars`.
fn push_alphabet(chars: &mut Vec<char>, class: CharClass)
    ensures
        final(chars)@ == old(chars)@ + alphabet(class),
{
    match class {
        CharClass::Lowercase => push_char_run(chars, 97, 26),
        CharClass::Uppercase => push_char_run(chars, 65, 26),
        CharClass::Number => push_char_run(chars, 48, 10),
        CharClass::Special => {
            let mut special = special_chars();
            chars.append(&mut special);
        },
    }
}

/// The character set of a policy.
pub fn build_charset(config: &PasswordConfig) -> (chars: Vec<char>)
    ensures
        chars@ == charset(*config),
{
    let mut chars: Vec<char> = Vec::new();
    push_alphabet(&mut chars, CharClass::Lowercase);
    assert(chars@ =~= alphabet(CharClass::Lowercase));
    if config.include_uppercase {
        push_alphabet(&mut chars, CharClass::Uppercase);
    }
    assert(chars@ =~= alphabet(CharClass::Lowercase) + enabled_alphabet(
        *config,
        CharClass::Uppercase,
    ));
    if config.include_numbers {
        push_alphabet(&mut chars, CharClass::Number);
    }
    assert(chars@ =~= alphabet(CharClass::Lowercase) + enabled_alphabet(
        *config,
        CharClass::Uppercase,
    ) + enabled_alphabet(*config, CharClass::Number));
    if config.include_special {
        push_alphabet(&mut chars, CharClass::Special);
    }
    assert(chars@ =~= charset(*config));
    chars
}

/// Whether some character of `password` belongs to `class`.
pub fn contains_class(password: &str, class: CharClass) -> (b: bool)
    ensures
        b == has_class(password@, class),
{
    let mut found = false;
    for c in it: password.chars()
        invariant
            it.seq() == password@,
            found == has_class(password@.take(it.index()), class),
    {
        proof {
            let before = password@.take(it.index());
            let after = password@.take(it.index() + 1);
            assert(after.drop_last() =~= before);
            assert(after.last() == c);
            assert(forall|i: int| 0 <= i < before.len() ==> before[i] == after[i]);
        }
        if class_contains(class, c) {
            found = true;
        }
    }
    assert(password@.take(password@.len() as int) =~= password@);
    found
}

/// Whether `password` holds an uppercase letter.
pub fn contains_uppercase(password: &str) -> (b: bool)
    ensures
        b == has_class(password@, CharClass::Uppercase),
{
    contains_class(password, CharClass::Uppercase)
}

/// Whether `password` holds a digit.
pub fn contains_numbers(password: &str) -> (b: bool)
    ensures
        b == has_class(password@, CharClass::Number),
{
    contains_class(password, CharClass::Number)
}

/// Whether `password` holds a punctuation character of the special alphabet.
pub fn contains_special(password: &str) -> (b: bool)
    ensures
        b == has_class(password@, CharClass::Special),
{
    contains_class(password, CharClass::Special)
}

/// Whether `password` conforms to the policy: a lowercase letter, and a
/// character of every class that the policy enables. Classes that it does
/// not enable ask for nothing.
pub fn validate_password(password: &str, config: &PasswordConfig) -> (valid: bool)
    ensures
        valid == conforms(password@, *config),
{
    let has_lowercase = contains_class(password, CharClass::Lowercase);
    let has_uppercase = if config.include_uppercase {
        contains_uppercase(password)
    } else {
        true
    };
    let has_numbers = if config.include_numbers {
        contains_numbers(password)
    } else {
        true
    };
    let has_special = if config.include_special {
        contains_special(password)
    } else {
        true
    };
    has_lowercase && has_uppercase && has_numbers && has_special
}

/// What `generate_password` hands out for a policy: a secret of the length
/// asked for, made of characters of the policy's character set, that
/// conforms to the policy.
pub open spec fn is_generated(s: Seq<char>, config: PasswordConfig) -> bool {
    &&& s.len() == config.length
    &&& forall|i: int| 0 <= i < s.len() ==> charset(config).contains(#[trigger] s[i])
    &&& conforms(s, config)
}

/// `Rng::gen_range` of rand, called on `rand::thread_rng()` with the range
/// from zero up to and without `bound`. The range must not be empty; the
/// number drawn lies in it. Nothing else is known of the number.
#[verifier::external_body]
fn random_below(bound: usize) -> (draw: usize)
    requires
        bound > 0,
    ensures
        draw < bound,
{
    rand::thread_rng().gen_range(0..bound)
}

/// Draws `count` indices into a character set of `bound` characters.
fn draw_indices(count: usize, bound: usize) -> (draws: Vec<usize>)
    requires
        bound > 0,
    ensures
        draws@.len() == count,
        draws_below(draws@, bound as nat),
{
    let mut draws: Vec<usize> = Vec::new();
    let mut i: usize = 0;
    while i < count
        invariant
            i <= count,
            bound > 0,
            draws@.len() == i,
            draws_below(draws@, bound as nat),
        decreases count - i,
    {
        let draw = random_below(bound);
        draws.push(draw);
        i = i + 1;
    }
    draws
}

/// The secret that a list of draws stands for under a policy: the candidate
/// they select from the policy's character set, if every draw is an index
/// into that set and the candidate conforms to the policy; else nothing.
pub fn password_from_draws(config: &PasswordConfig, draws: &Vec<usize>) -> (password: Option<
    String,
>)
    ensures
        password is Some <==> draws_below(draws@, charset(*config).len()) && conforms(
            candidate(charset(*config), draws@),
            *config,
        ),
        password matches Some(p) ==> p@ == candidate(charset(*config), draws@),
{
    let chars = build_charset(config);
    let mut text = String::new();
    let mut i: usize = 0;
    while i < draws.len()
        invariant
            i <= draws.len(),
            chars@ == charset(*config),
            draws_below(draws@.take(i as int), chars@.len()),
            text@ == candidate(chars@, draws@.take(i as int)),
        decreases draws.len() - i,
    {
        let draw = draws[i];
        if draw >= chars.len() {
            return None;
        }
        text.push(chars[draw]);
        i = i + 1;
        assert(draws@.take(i as int).drop_last() =~= draws@.take(i as int - 1));
        assert(text@ =~= candidate(chars@, draws@.take(i as int)));
    }
    assert(draws@.take(draws@.len() as int) =~= draws@);
    if validate_password(text.as_str(), config) {
        Some(text)
    } else {
        None
    }
}

/// Whether a policy asks for lowercase letters alone.
pub open spec fn lowercase_only(config: PasswordConfig) -> bool {
    !config.include_uppercase && !config.include_numbers && !config.include_special
}

/// Where a policy asks for lowercase letters alone, every candidate of at
/// least one character conforms to it: its character set holds nothing
/// else.
pub proof fn lemma_lowercase_candidates_conform(config: PasswordConfig, draws: Seq<usize>)
    requires
        lowercase_only(config),
        draws.len() >= 1,
        draws_below(draws, charset(config).len()),
    ensures
        conforms(candidate(charset(config), draws), config),
{
    let chars = charset(config);
    let lower = alphabet(CharClass::Lowercase);
    assert(chars =~= lower);
    let first = candidate(chars, draws)[0];
    assert(first == lower[draws[0] as int]);
    assert(lower.contains(first));
    lemma_alphabet_is_class(CharClass::Lowercase, first);
}

/// A random secret for the policy.
///
/// Candidates of `config.length` characters are drawn from the policy's
/// character set, each character independently, until one conforms to the
/// policy; that one is returned. After `MAX_ATTEMPTS` candidates that do not
/// conform the function gives up and returns nothing. A policy whose length
/// is below the number of classes it asks for can never be met: for it no
/// candidate is drawn at all. A policy that asks for lowercase letters alone
/// and for at least one character is met by the first candidate, whatever is
/// drawn: for it a secret is always returned.
pub fn generate_password(config: &PasswordConfig) -> (password: Option<String>)
    ensures
        password matches Some(p) ==> is_generated(p@, *config),
        config.length < required_classes(*config) ==> password is None,
        lowercase_only(*config) && config.length >= 1 ==> password is Some,
{
    let mut required: usize = 1;
    if config.include_uppercase {
        required = required + 1;
    }
    if config.include_numbers {
        required = required + 1;
    }
    if config.include_special {
        required = required + 1;
    }
    if config.length < required {
        return None;
    }
    let chars = build_charset(config);
    let mut attempt: usize = 0;
    while attempt < MAX_ATTEMPTS
        invariant
            attempt <= MAX_ATTEMPTS,
            chars@ == charset(*config),
            chars@.len() >= 26,
            lowercase_only(*config) && config.length >= 1 ==> attempt == 0,
        decreases MAX_ATTEMPTS - attempt,
    {
        let draws = draw_indices(config.length, chars.len());
        match password_from_draws(config, &draws) {
            Some(p) => {
                assert forall|i: int| 0 <= i < p@.len() implies charset(*config).contains(
                    #[trigger] p@[i],
                ) by {
                    assert(p@[i] == charset(*config)[draws@[i] as int]);
                }
                return Some(p);
            },
            None => {
                proof {
                    if lowercase_only(*config) && config.length >= 1 {
                        lemma_lowercase_candidates_conform(*config, draws@);
                    }
                }
            },
        }
        attempt = attempt + 1;
    }
    None
}

/// A secret that conforms to a policy has at least as many characters as the
/// policy asks classes for: the classes share no character.
pub proof fn lemma_conforming_length(s: Seq<char>, config: PasswordConfig)
    requires
        conforms(s, config),
    ensures
        s.len() >= required_classes(config),
{
    lemma_classes_disjoint();
    let l = choose|i: int| 0 <= i < s.len() && in_class(CharClass::Lowercase, #[trigger] s[i]);
    if config.include_uppercase {
        let u = choose|i: int| 0 <= i < s.len() && in_class(CharClass::Uppercase, #[trigger] s[i]);
        assert(u != l);
    }
    if config.include_numbers {
        let n = choose|i: int| 0 <= i < s.len() && in_class(CharClass::Number, #[trigger] s[i]);
        assert(n != l);
    }
    if config.include_special {
        let p = choose|i: int| 0 <= i < s.len() && in_class(CharClass::Special, #[trigger] s[i]);
        assert(p != l);
    }
}

/// The alphabet of a class holds the characters of the class and no others.
pub proof fn lemma_alphabet_is_class(class: CharClass, c: char)
    ensures
        alphabet(class).contains(c) <==> in_class(class, c),
{
    match class {
        CharClass::Lowercase => lemma_char_run_contains(97, 26, c),
        CharClass::Uppercase => lemma_char_run_contains(65, 26, c),
        CharClass::Number => lemma_char_run_contains(48, 10, c),
        CharClass::Special => {},
    }
}

/// A run of characters holds the characters whose code lies in its range.
proof fn lemma_char_run_contains(first: u8, count: nat, c: char)
    requires
        first + count <= 128,
    ensures
        char_run(first, count).contains(c) <==> first <= (c as u32) < first + count,
{
    let run = char_run(first, count);
    if run.contains(c) {
        let i = choose|i: int| 0 <= i < run.len() && run[i] == c;
        assert(run[i] == ((first + i) as u8) as char);
    }
    if first <= (c as u32) < first + count {
        let i = (c as u32) - first;
        assert(run[i] == c);
    }
}

/// The character set of a policy holds the characters of the classes that
/// the policy asks for and no others.
pub proof fn lemma_charset_is_required_classes(config: PasswordConfig, c: char)
    ensures
        charset(config).contains(c) <==> exists|class: CharClass|
            requires_class(config, class) && in_class(class, c),
{
    lemma_alphabet_is_class(CharClass::Lowercase, c);
    lemma_alphabet_is_class(CharClass::Uppercase, c);
    lemma_alphabet_is_class(CharClass::Number, c);
    lemma_alphabet_is_class(CharClass::Special, c);
    let lower = alphabet(CharClass::Lowercase);
    let upper = enabled_alphabet(config, CharClass::Uppercase);
    let number = enabled_alphabet(config, CharClass::Number);
    let special = enabled_alphabet(config, CharClass::Special);
    lemma_concat_contains(lower, upper, c);
    lemma_concat_contains(lower + upper, number, c);
    lemma_concat_contains(lower + upper + number, special, c);
    if charset(config).contains(c) {
        if lower.contains(c) {
            assert(requires_class(config, CharClass::Lowercase));
        } else if upper.contains(c) {
            assert(requires_class(config, CharClass::Uppercase));
        } else if number.contains(c) {
            assert(requires_class(config, CharClass::Number));
        } else {
            assert(requires_class(config, CharClass::Special));
        }
    }
}

/// A concatenation holds what either part holds.
proof fn lemma_concat_contains(a: Seq<char>, b: Seq<char>, c: char)
    ensures
        (a + b).contains(c) <==> a.contains(c) || b.contains(c),
{
    if (a + b).contains(c) {
        let i = choose|i: int| 0 <= i < (a + b).len() && (a + b)[i] == c;
        if i < a.len() {
            assert(a[i] == c);
        } else {
            assert(b[i - a.len()] == c);
        }
    }
    if a.contains(c) {
        let i = choose|i: int| 0 <= i < a.len() && a[i] == c;
        assert((a + b)[i] == c);
    }
    if b.contains(c) {
        let i = choose|i: int| 0 <= i < b.len() && b[i] == c;
        assert((a + b)[a.len() + i] == c);
    }
}

/// No character belongs to two classes.
pub proof fn lemma_classes_disjoint()
    ensures
        forall|c: char, a: CharClass, b: CharClass|
            in_class(a, c) && in_class(b, c) ==> a == b,
{
    assert forall|c: char| special_alphabet().contains(c) implies !('a' <= c <= 'z') && !('A' <= c
        <= 'Z') && !('0' <= c <= '9') by {
        let i = choose|i: int| 0 <= i < special_alphabet().len() && special_alphabet()[i] == c;
        assert(special_alphabet().len() == 26);
    }
}

} // verus!
