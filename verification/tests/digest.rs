use krab::digest::{hash, to_hex, vault_file_name};

#[test]
fn hash_of_empty_text() {
    assert_eq!(
        hash(String::new()),
        "e3b0c44298fc1c149afbf4c8996fb92427ae41e4649b934ca495991b7852b855"
    );
}

#[test]
fn hash_of_abc() {
    assert_eq!(
        hash("abc".to_string()),
        "ba7816bf8f01cfea414140de5dae2223b00361a396177a9cb410ff61f20015ad"
    );
}

#[test]
fn hash_is_deterministic() {
    assert_eq!(hash("alice".to_string()), hash("alice".to_string()));
    assert_ne!(hash("alice".to_string()), hash("bob".to_string()));
}

#[test]
fn hex_is_lowercase_high_digit_first() {
    assert_eq!(to_hex(&[0x00, 0x0f, 0xa0, 0xff, 0x1b]), "000fa0ff1b");
    assert_eq!(to_hex(&[]), "");
}

#[test]
fn vault_file_is_named_by_the_digest_of_the_user() {
    assert_eq!(vault_file_name("alice"), hash("alice".to_string()));
    assert_eq!(vault_file_name("alice").len(), 64);
}
