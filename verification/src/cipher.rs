//! Key derivation, authenticated encryption and randomness. Everything here
//! is done by outside crates; the contracts of this file are believed, not
//! proved.

use chacha20poly1305::aead::{Aead, KeyInit};
use rand::RngCore;
use vstd::prelude::*;

verus! {

/// Bytes in a derived key.
pub const KEY_LEN: usize = 32;

/// Bytes in the salt of a vault.
pub const SALT_LEN: usize = 16;

/// Bytes in the nonce of a sealed payload.
pub const NONCE_LEN: usize = 24;

/// Bytes the authentication tag adds to a sealed payload.
pub const TAG_LEN: usize = 16;

/// The key that Argon2id, with the argon2 crate's default parameters and an
/// output of 32 bytes, derives from a password and a salt; nothing where it
/// refuses them.
pub uninterp spec fn argon2id(password: Seq<u8>, salt: Seq<u8>) -> Option<Seq<u8>>;

/// The ciphertext, tag at the end, that XChaCha20-Poly1305 makes of a
/// plaintext under a key and a nonce, with no associated data; nothing where
/// it refuses the plaintext.
pub uninterp spec fn xchacha20poly1305_seal(
    key: Seq<u8>,
    nonce: Seq<u8>,
    plaintext: Seq<u8>,
) -> Option<Seq<u8>>;

/// The plaintext that XChaCha20-Poly1305 recovers from a ciphertext under a
/// key and a nonce, with no associated data; nothing where the tag does not
/// authenticate the ciphertext.
pub uninterp spec fn xchacha20poly1305_open(
    key: Seq<u8>,
    nonce: Seq<u8>,
    sealed: Seq<u8>,
) -> Option<Seq<u8>>;

/// The bytes an optional vector holds.
pub open spec fn bytes_of(v: Option<Vec<u8>>) -> Option<Seq<u8>> {
    match v {
        Some(bytes) => Some(bytes@),
        None => None,
    }
}

/// `Argon2::hash_password_into` of argon2, on `Argon2::default()` and an
/// output buffer of 32 bytes. The call fails exactly where the password has
/// more than 2^32 - 1 bytes or the salt has fewer than 8 or more than
/// 2^32 - 1; otherwise it fills the buffer with the key, which depends on the
/// password and the salt alone.
#[verifier::external_body]
pub(crate) fn derive_key(password: &[u8], salt: &[u8]) -> (key: Option<Vec<u8>>)
    ensures
        bytes_of(key) == argon2id(password@, salt@),
        key is Some <==> (password@.len() <= 0xFFFF_FFFF && 8 <= salt@.len() <= 0xFFFF_FFFF),
        key matches Some(k) ==> k@.len() == KEY_LEN,
{
    let mut key = vec![0u8; KEY_LEN];
    match argon2::Argon2::default().hash_password_into(password, salt, &mut key) {
        Ok(()) => Some(key),
        Err(_) => None,
    }
}

/// `Aead::encrypt` of chacha20poly1305's `XChaCha20Poly1305`, keyed with
/// `key`. The key must have 32 bytes and the nonce 24: the crate panics on
/// other lengths. The call fails exactly where the plaintext has
/// 64 * (2^32 - 1) bytes or more; otherwise the result is the encrypted
/// plaintext followed by a tag of 16 bytes, and `Aead::decrypt` under the
/// same key and nonce gives the plaintext back.
#[verifier::external_body]
pub(crate) fn seal(key: &[u8], nonce: &[u8], plaintext: &[u8]) -> (sealed: Option<Vec<u8>>)
    requires
        key@.len() == KEY_LEN,
        nonce@.len() == NONCE_LEN,
    ensures
        bytes_of(sealed) == xchacha20poly1305_seal(key@, nonce@, plaintext@),
        sealed is Some <==> plaintext@.len() / 64 < 0xFFFF_FFFF,
        sealed matches Some(c) ==> c@.len() == plaintext@.len() + TAG_LEN
            && xchacha20poly1305_open(key@, nonce@, c@) == Some(plaintext@),
{
    let cipher = chacha20poly1305::XChaCha20Poly1305::new(chacha20poly1305::Key::from_slice(key));
    cipher.encrypt(chacha20poly1305::XNonce::from_slice(nonce), plaintext).ok()
}

/// `Aead::decrypt` of chacha20poly1305's `XChaCha20Poly1305`, keyed with
/// `key`. The key must have 32 bytes and the nonce 24. The result is the
/// plaintext where the tag at the end of `sealed` authenticates the rest
/// under the key and the nonce, and nothing otherwise; a plaintext is 16
/// bytes shorter than what was sealed.
#[verifier::external_body]
pub(crate) fn open(key: &[u8], nonce: &[u8], sealed: &[u8]) -> (plaintext: Option<Vec<u8>>)
    requires
        key@.len() == KEY_LEN,
        nonce@.len() == NONCE_LEN,
    ensures
        bytes_of(plaintext) == xchacha20poly1305_open(key@, nonce@, sealed@),
        plaintext matches Some(p) ==> p@.len() + TAG_LEN == sealed@.len(),
{
    let cipher = chacha20poly1305::XChaCha20Poly1305::new(chacha20poly1305::Key::from_slice(key));
    cipher.decrypt(chacha20poly1305::XNonce::from_slice(nonce), sealed).ok()
}

/// `RngCore::fill_bytes` of rand on `rand::thread_rng()`, a generator fit
/// for cryptographic use: `count` bytes, of which nothing else is known.
#[verifier::external_body]
pub(crate) fn random_bytes(count: usize) -> (bytes: Vec<u8>)
    ensures
        bytes@.len() == count,
{
    let mut bytes = vec![0u8; count];
    rand::thread_rng().fill_bytes(&mut bytes);
    bytes
}

} // verus!
