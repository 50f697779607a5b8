use krab::generator::{
    build_charset, class_contains, contains_class, contains_numbers, contains_special,
    contains_uppercase, generate_password, password_from_draws, special_chars, validate_password,
    CharClass, Config, PasswordConfig, DEFAULT_LENGTH,
};

const SPECIAL: &str = "!@#$%^&*()-_=+[]{}|;:,.<>?";

fn policy(upper: bool, numbers: bool, special: bool, length: usize) -> PasswordConfig {
    PasswordConfig {
        include_uppercase: upper,
        include_numbers: numbers,
        include_special: special,
        length,
    }
}

#[test]
fn the_default_policy_asks_for_everything() {
    let config = PasswordConfig::default();
    assert_eq!(config, policy(true, true, true, 16));
    assert_eq!(DEFAULT_LENGTH, 16);
    assert_eq!(Config::default().password_config, config);
}

#[test]
fn the_charset_starts_with_lowercase_and_adds_enabled_classes() {
    let lower = "abcdefghijklmnopqrstuvwxyz";
    let upper = "ABCDEFGHIJKLMNOPQRSTUVWXYZ";
    let digits = "0123456789";
    let text = |config: &PasswordConfig| build_charset(config).into_iter().collect::<String>();
    assert_eq!(text(&policy(false, false, false, 8)), lower);
    assert_eq!(text(&policy(true, false, false, 8)), format!("{lower}{upper}"));
    assert_eq!(text(&policy(false, true, false, 8)), format!("{lower}{digits}"));
    assert_eq!(text(&policy(false, false, true, 8)), format!("{lower}{SPECIAL}"));
    assert_eq!(text(&policy(true, true, true, 8)), format!("{lower}{upper}{digits}{SPECIAL}"));
    assert_eq!(special_chars().into_iter().collect::<String>(), SPECIAL);
}

#[test]
fn classes_are_told_apart() {
    assert!(class_contains(CharClass::Lowercase, 'a'));
    assert!(class_contains(CharClass::Lowercase, 'z'));
    assert!(!class_contains(CharClass::Lowercase, 'A'));
    assert!(!class_contains(CharClass::Lowercase, '{'));
    assert!(class_contains(CharClass::Uppercase, 'Q'));
    assert!(!class_contains(CharClass::Uppercase, 'q'));
    assert!(class_contains(CharClass::Number, '0'));
    assert!(class_contains(CharClass::Number, '9'));
    assert!(!class_contains(CharClass::Number, 'a'));
    for c in SPECIAL.chars() {
        assert!(class_contains(CharClass::Special, c));
    }
    assert!(!class_contains(CharClass::Special, ' '));
    assert!(!class_contains(CharClass::Special, '/'));
    assert!(!class_contains(CharClass::Special, 'é'));
}

#[test]
fn contains_looks_at_every_character() {
    assert!(contains_uppercase("abcD"));
    assert!(!contains_uppercase("abcd1!"));
    assert!(contains_numbers("7abc"));
    assert!(!contains_numbers("abcD!"));
    assert!(contains_special("ab?c"));
    assert!(!contains_special("abC1"));
    assert!(!contains_class("", CharClass::Lowercase));
    assert!(contains_class("ABCx", CharClass::Lowercase));
}

#[test]
fn validation_asks_only_for_enabled_classes() {
    assert!(validate_password("abc", &policy(false, false, false, 3)));
    assert!(!validate_password("ABC", &policy(false, false, false, 3)));
    assert!(!validate_password("abc", &policy(true, false, false, 3)));
    assert!(validate_password("abC", &policy(true, false, false, 3)));
    assert!(!validate_password("abC", &policy(true, true, false, 3)));
    assert!(validate_password("a1C", &policy(true, true, false, 3)));
    assert!(!validate_password("a1C", &policy(true, true, true, 3)));
    assert!(validate_password("a1C!", &policy(true, true, true, 4)));
    assert!(!validate_password("", &policy(false, false, false, 0)));
    // Classes that are not enabled may still occur.
    assert!(validate_password("a1C!", &policy(false, false, false, 4)));
}

#[test]
fn draws_select_characters_of_the_charset() {
    let config = policy(true, true, false, 3);
    // a, A, 0 in a charset of lowercase, uppercase, digits.
    assert_eq!(password_from_draws(&config, &vec![0, 26, 52]), Some("aA0".to_string()));
    assert_eq!(password_from_draws(&config, &vec![25, 51, 61]), Some("zZ9".to_string()));
    // A candidate that misses a class is refused.
    assert_eq!(password_from_draws(&config, &vec![0, 1, 2]), None);
    // A draw behind the charset is refused.
    assert_eq!(password_from_draws(&config, &vec![0, 26, 62]), None);
    assert_eq!(password_from_draws(&config, &vec![]), None);
}

fn conforms(password: &str, config: &PasswordConfig) -> bool {
    let lower = password.chars().any(|c| c.is_ascii_lowercase());
    let upper = password.chars().any(|c| c.is_ascii_uppercase());
    let digit = password.chars().any(|c| c.is_ascii_digit());
    let special = password.chars().any(|c| SPECIAL.contains(c));
    let allowed = password.chars().all(|c| {
        c.is_ascii_lowercase()
            || (config.include_uppercase && c.is_ascii_uppercase())
            || (config.include_numbers && c.is_ascii_digit())
            || (config.include_special && SPECIAL.contains(c))
    });
    password.chars().count() == config.length
        && lower
        && (!config.include_uppercase || upper)
        && (!config.include_numbers || digit)
        && (!config.include_special || special)
        && allowed
}

#[test]
fn generated_secrets_conform_to_every_policy() {
    for bits in 0..8 {
        for length in [4usize, 5, 8, 16, 40] {
            let config = policy(bits & 1 != 0, bits & 2 != 0, bits & 4 != 0, length);
            let password = generate_password(&config).unwrap();
            assert!(conforms(&password, &config));
            assert!(validate_password(&password, &config));
        }
    }
}

#[test]
fn a_thousand_secrets_are_generated_without_giving_up() {
    let config = PasswordConfig::default();
    for _ in 0..1000 {
        let password = generate_password(&config).unwrap();
        assert!(conforms(&password, &config));
    }
}

#[test]
fn the_shortest_secret_that_can_conform_is_generated() {
    assert!(conforms(
        &generate_password(&policy(false, false, false, 1)).unwrap(),
        &policy(false, false, false, 1)
    ));
    assert!(conforms(
        &generate_password(&policy(true, true, true, 4)).unwrap(),
        &policy(true, true, true, 4)
    ));
}

#[test]
fn a_policy_of_lowercase_letters_alone_is_always_met() {
    for length in [1usize, 2, 8, 64] {
        let config = policy(false, false, false, length);
        for _ in 0..250 {
            let password = generate_password(&config).unwrap();
            assert_eq!(password.chars().count(), length);
            assert!(password.chars().all(|c| c.is_ascii_lowercase()));
        }
    }
}

#[test]
fn a_policy_that_cannot_be_met_gives_nothing() {
    assert_eq!(generate_password(&policy(false, false, false, 0)), None);
    assert_eq!(generate_password(&policy(true, false, false, 1)), None);
    assert_eq!(generate_password(&policy(true, true, true, 3)), None);
}

#[test]
fn secrets_differ_from_one_call_to_the_next() {
    let config = policy(true, true, true, 32);
    assert_ne!(generate_password(&config), generate_password(&config));
}
