use argon2::Argon2;
use chacha20poly1305::aead::{Aead, KeyInit};
use chacha20poly1305::{Key, XChaCha20Poly1305, XNonce};
use krab::codec::{decode_vault, encode_records};
use krab::user::{
    authenticate, create_user_with, RecordOperationConfig, VaultError, VaultFile,
};

fn key_for(password: &str, salt: &[u8]) -> [u8; 32] {
    let mut key = [0u8; 32];
    Argon2::default().hash_password_into(password.as_bytes(), salt, &mut key).unwrap();
    key
}

/// A vault file that holds `payload`, sealed as the library seals.
fn vault_with(payload: &[u8], password: &str) -> Vec<u8> {
    let salt = [3u8; 16];
    let nonce = [4u8; 24];
    let cipher = XChaCha20Poly1305::new(Key::from_slice(&key_for(password, &salt)));
    let sealed = cipher.encrypt(XNonce::from_slice(&nonce), payload).unwrap();
    let mut file = b"KRAB\x01".to_vec();
    file.extend_from_slice(&salt);
    file.extend_from_slice(&nonce);
    file.extend_from_slice(&sealed);
    file
}

fn pairs(list: &[(&str, &str)]) -> Vec<(String, String)> {
    list.iter().map(|(d, s)| (d.to_string(), s.to_string())).collect()
}

#[test]
fn a_vault_is_sealed_with_argon2id_and_xchacha20poly1305() {
    let config = RecordOperationConfig::new("alice", "correct-horse", "example.com", "s3cr3t!", "/v");
    let salt = [11u8; 16];
    let nonce = [12u8; 24];
    let (_, update) = create_user_with(&config, &VaultFile::Missing, &salt, &nonce).unwrap();
    let parts = decode_vault(&update.image).unwrap();
    let cipher = XChaCha20Poly1305::new(Key::from_slice(&key_for("correct-horse", &salt)));
    let payload = cipher.decrypt(XNonce::from_slice(&nonce), parts.sealed.as_slice()).unwrap();
    assert_eq!(Some(payload), encode_records(&pairs(&[("example.com", "s3cr3t!")])));
}

#[test]
fn a_vault_sealed_elsewhere_is_opened() {
    let payload = encode_records(&pairs(&[("a.com", "1"), ("b.com", "2")])).unwrap();
    let file = VaultFile::Contents(vault_with(&payload, "pw"));
    let (_, records) = authenticate(&file, "bob", "pw").unwrap();
    assert_eq!(records.records(), &pairs(&[("a.com", "1"), ("b.com", "2")]));
    assert_eq!(authenticate(&file, "bob", "pW").err(), Some(VaultError::AuthenticationFailed));
}

#[test]
fn a_vault_that_opens_to_no_store_is_a_serialization_error() {
    // Bytes that are no layout of a store.
    let file = VaultFile::Contents(vault_with(b"garbage", "pw"));
    assert_eq!(authenticate(&file, "bob", "pw").err(), Some(VaultError::SerializationError));
    // No bytes at all.
    let file = VaultFile::Contents(vault_with(b"", "pw"));
    assert_eq!(authenticate(&file, "bob", "pw").err(), Some(VaultError::SerializationError));
    // A store that holds a domain twice.
    let twice = encode_records(&pairs(&[("a.com", "1"), ("a.com", "2")])).unwrap();
    let file = VaultFile::Contents(vault_with(&twice, "pw"));
    assert_eq!(authenticate(&file, "bob", "pw").err(), Some(VaultError::SerializationError));
    // A text that is not UTF-8.
    let file = VaultFile::Contents(vault_with(&[1, 0, 0, 0, 1, 0, 0, 0, 0xff, 0, 0, 0, 0], "pw"));
    assert_eq!(authenticate(&file, "bob", "pw").err(), Some(VaultError::SerializationError));
    // With a wrong password the same files fail authentication instead.
    let file = VaultFile::Contents(vault_with(b"garbage", "pw"));
    assert_eq!(authenticate(&file, "bob", "other").err(), Some(VaultError::AuthenticationFailed));
}
