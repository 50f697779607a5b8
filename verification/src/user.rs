//! The vault operations: registering a user, authenticating, and adding,
//! removing and modifying records. Every operation works on the bytes of a
//! vault file that the caller has read and hands back the bytes to write.

use crate::cipher::{
    argon2id, derive_key, open, random_bytes, seal, xchacha20poly1305_open,
    xchacha20poly1305_seal, KEY_LEN, NONCE_LEN, SALT_LEN,
};
use crate::codec::{
    decode_records, decode_vault, encode_records, encode_vault, lemma_parse_records_bytes,
    lemma_parse_vault_bytes, parse_records, parse_vault, parts_fit, records_bytes, records_fit,
    same_bytes, vault_bytes, VaultImage, VaultParts,
};
use crate::records::{
    absent, unique_domains, upsert, without, Entry, ReadOnlyRecords, Records,
};
use vstd::prelude::*;
use vstd::utf8::encode_utf8;

verus! {

/// Why an operation on a vault did not succeed.
#[derive(Debug, Clone, Copy, PartialEq, Eq, Structural)]
pub enum VaultError {
    /// A vault of that user exists already.
    AlreadyExists,
    /// The user has no vault.
    NotFound,
    /// The master password is wrong, or the vault file is damaged: the two
    /// cannot be told apart.
    AuthenticationFailed,
    /// The vault has no record of the domain.
    RecordNotFound,
    /// The vault opened, but what it holds is no record store.
    SerializationError,
    /// The vault file could not be read.
    IoError,
    /// The password, a record or the store is larger than a vault can hold.
    TooLarge,
}

/// What the caller found at the place of a user's vault.
#[derive(Debug)]
pub enum VaultFile {
    /// No file is there.
    Missing,
    /// A file is there and could not be read.
    Unreadable,
    /// The bytes of the file.
    Contents(Vec<u8>),
}

impl VaultFile {
    /// Whether the user has a vault: a file is there, readable or not.
    pub fn user_exists(&self) -> (there: bool)
        ensures
            there == !(self is Missing),
    {
        match self {
            VaultFile::Missing => false,
            _ => true,
        }
    }
}

/// What one operation is given: the user, the master password, the domain
/// and secret it is about, and the directory of the vaults.
#[derive(Debug)]
pub struct RecordOperationConfig {
    pub username: String,
    pub master_password: String,
    pub domain: String,
    pub password: String,
    pub path: String,
}

impl RecordOperationConfig {
    pub fn new(
        username: &str,
        master_password: &str,
        domain: &str,
        password: &str,
        path: &str,
    ) -> (config: Self)
        ensures
            config.username@ == username@,
            config.master_password@ == master_password@,
            config.domain@ == domain@,
            config.password@ == password@,
            config.path@ == path@,
    {
        RecordOperationConfig {
            username: username.to_owned(),
            master_password: master_password.to_owned(),
            domain: domain.to_owned(),
            password: password.to_owned(),
            path: path.to_owned(),
        }
    }
}

/// A user whose vault was created or opened.
#[derive(Debug)]
pub struct User {
    username: String,
}

impl User {
    pub closed spec fn name(&self) -> Seq<char> {
        self.username@
    }

    /// The name of the user.
    pub fn username(&self) -> (name: String)
        ensures
            name@ == self.name(),
    {
        self.username.clone()
    }
}

/// What a successful change of a vault gives: the bytes to put in place of
/// the vault file, and the records that they hold.
#[derive(Debug)]
pub struct VaultUpdate {
    pub image: Vec<u8>,
    pub records: ReadOnlyRecords,
}

/// The store a new vault starts with: the record given, or nothing where
/// the domain is empty.
pub open spec fn initial_records(domain: Seq<char>, secret: Seq<char>) -> Seq<Entry> {
    if domain.len() == 0 {
        Seq::empty()
    } else {
        seq![(domain, secret)]
    }
}

/// What opening the bytes of a vault file with a password gives: the
/// records, or the reason why not.
pub open spec fn opened(file: Seq<u8>, password: Seq<char>) -> Result<Seq<Entry>, VaultError> {
    match parse_vault(file) {
        None => Err(VaultError::AuthenticationFailed),
        Some(parts) => match argon2id(encode_utf8(password), parts.salt) {
            None => Err(VaultError::AuthenticationFailed),
            Some(key) => match xchacha20poly1305_open(key, parts.nonce, parts.sealed) {
                None => Err(VaultError::AuthenticationFailed),
                Some(payload) => match parse_records(payload) {
                    None => Err(VaultError::SerializationError),
                    Some(s) => if unique_domains(s) {
                        Ok(s)
                    } else {
                        Err(VaultError::SerializationError)
                    },
                },
            },
        },
    }
}

/// The bytes of the vault file that holds a store, sealed under a password
/// with a salt and a nonce; nothing where the password, a record or the
/// store is too large.
pub open spec fn sealed_vault(
    s: Seq<Entry>,
    password: Seq<char>,
    salt: Seq<u8>,
    nonce: Seq<u8>,
) -> Option<Seq<u8>> {
    if !records_fit(s) {
        None
    } else {
        match argon2id(encode_utf8(password), salt) {
            None => None,
            Some(key) => match xchacha20poly1305_seal(key, nonce, records_bytes(s)) {
                None => None,
                Some(sealed) => Some(vault_bytes(VaultParts { salt, nonce, sealed })),
            },
        }
    }
}

/// Whether a store can be sealed: it fits the layout, and its layout has
/// fewer than 64 * (2^32 - 1) bytes.
pub open spec fn sealable(s: Seq<Entry>) -> bool {
    records_fit(s) && records_bytes(s).len() / 64 < 0xFFFF_FFFF
}

/// Whether a key can be derived from a password: its UTF-8 form has at most
/// 2^32 - 1 bytes.
pub open spec fn usable(password: Seq<char>) -> bool {
    encode_utf8(password).len() <= 0xFFFF_FFFF
}

/// What authenticating against what was found gives.
pub open spec fn authenticated(found: VaultFile, password: Seq<char>) -> Result<
    Seq<Entry>,
    VaultError,
> {
    match found {
        VaultFile::Missing => Err(VaultError::NotFound),
        VaultFile::Unreadable => Err(VaultError::IoError),
        VaultFile::Contents(bytes) => opened(bytes@, password),
    }
}

/// The nonce a vault is sealed with anew: the one drawn, unless it is the
/// nonce the vault was sealed with before. Then its first byte is changed.
pub open spec fn next_nonce(stored: Seq<u8>, drawn: Seq<u8>) -> Seq<u8> {
    if drawn == stored && drawn.len() > 0 {
        drawn.update(
            0,
            if drawn[0] == 255 {
                0u8
            } else {
                (drawn[0] + 1) as u8
            },
        )
    } else {
        drawn
    }
}

/// A vault that was opened: its records, and what it is sealed with.
struct Unlocked {
    records: Records,
    key: Vec<u8>,
    salt: Vec<u8>,
    nonce: Vec<u8>,
}

/// Opens what was found with the password.
fn unlock(found: &VaultFile, password: &str) -> (unlocked: Result<Unlocked, VaultError>)
    ensures
        match unlocked {
            Ok(vault) => {
                &&& authenticated(*found, password@) == Ok::<Seq<Entry>, VaultError>(
                    vault.records@,
                )
                &&& found matches VaultFile::Contents(bytes)
                &&& parse_vault(bytes@) matches Some(parts)
                &&& vault.salt@ == parts.salt
                &&& vault.nonce@ == parts.nonce
                &&& parts_fit(parts)
                &&& argon2id(encode_utf8(password@), parts.salt) == Some(vault.key@)
                &&& vault.key@.len() == KEY_LEN
                &&& unique_domains(vault.records@)
            },
            Err(error) => authenticated(*found, password@) == Err::<Seq<Entry>, VaultError>(error),
        },
{
    let bytes = match found {
        VaultFile::Missing => {
            return Err(VaultError::NotFound);
        },
        VaultFile::Unreadable => {
            return Err(VaultError::IoError);
        },
        VaultFile::Contents(bytes) => bytes,
    };
    let image = match decode_vault(bytes.as_slice()) {
        Some(image) => image,
        None => {
            return Err(VaultError::AuthenticationFailed);
        },
    };
    let key = match derive_key(password.as_bytes(), image.salt.as_slice()) {
        Some(key) => key,
        None => {
            return Err(VaultError::AuthenticationFailed);
        },
    };
    let payload = match open(key.as_slice(), image.nonce.as_slice(), image.sealed.as_slice()) {
        Some(payload) => payload,
        None => {
            return Err(VaultError::AuthenticationFailed);
        },
    };
    let pairs = match decode_records(payload.as_slice()) {
        Some(pairs) => pairs,
        None => {
            return Err(VaultError::SerializationError);
        },
    };
    let records = match Records::from_pairs(pairs) {
        Some(records) => records,
        None => {
            return Err(VaultError::SerializationError);
        },
    };
    Ok(Unlocked { records, key, salt: image.salt, nonce: image.nonce })
}

/// Seals the records into the bytes of a vault file.
fn lock(records: &Records, key: &[u8], salt: &[u8], nonce: &[u8], Ghost(password): Ghost<
    Seq<char>,
>) -> (locked: Option<VaultUpdate>)
    requires
        key@.len() == KEY_LEN,
        salt@.len() == SALT_LEN,
        nonce@.len() == NONCE_LEN,
        argon2id(encode_utf8(password), salt@) == Some(key@),
    ensures
        match locked {
            Some(update) => {
                &&& sealed_vault(records@, password, salt@, nonce@) == Some(update.image@)
                &&& update.records@ == records@
                &&& opened(update.image@, password) == Ok::<Seq<Entry>, VaultError>(records@)
                &&& parse_vault(update.image@) matches Some(parts)
                &&& parts.salt == salt@
                &&& parts.nonce == nonce@
            },
            None => sealed_vault(records@, password, salt@, nonce@) is None,
        },
        locked is Some <==> sealable(records@),
{
    let snapshot = records.snapshot();
    let payload = match encode_records(snapshot.records()) {
        Some(payload) => payload,
        None => {
            return None;
        },
    };
    let sealed = match seal(key, nonce, payload.as_slice()) {
        Some(sealed) => sealed,
        None => {
            return None;
        },
    };
    let image = VaultImage {
        salt: vstd::slice::slice_to_vec(salt),
        nonce: vstd::slice::slice_to_vec(nonce),
        sealed,
    };
    proof {
        lemma_parse_vault_bytes(image@);
        lemma_parse_records_bytes(records@);
    }
    Some(VaultUpdate { image: encode_vault(&image), records: snapshot })
}

/// The three ways to change a store.
#[derive(Debug, Clone, Copy, PartialEq, Eq, Structural)]
pub enum Change {
    Add,
    Remove,
    Modify,
}

/// The store after a change. Removing or modifying the record of a domain
/// that the store does not hold is an error.
pub open spec fn applied(
    change: Change,
    s: Seq<Entry>,
    domain: Seq<char>,
    secret: Seq<char>,
) -> Result<Seq<Entry>, VaultError> {
    match change {
        Change::Add => Ok(upsert(s, domain, secret)),
        Change::Remove => if absent(s, domain) {
            Err(VaultError::RecordNotFound)
        } else {
            Ok(without(s, domain))
        },
        Change::Modify => if absent(s, domain) {
            Err(VaultError::RecordNotFound)
        } else {
            Ok(upsert(s, domain, secret))
        },
    }
}

/// What registering a user gives: the bytes of the new vault file and the
/// records in it.
pub open spec fn created(
    config: RecordOperationConfig,
    found: VaultFile,
    salt: Seq<u8>,
    nonce: Seq<u8>,
) -> Result<(Seq<u8>, Seq<Entry>), VaultError> {
    if !(found is Missing) {
        Err(VaultError::AlreadyExists)
    } else {
        let s = initial_records(config.domain@, config.password@);
        match sealed_vault(s, config.master_password@, salt, nonce) {
            Some(bytes) => Ok((bytes, s)),
            None => Err(VaultError::TooLarge),
        }
    }
}

/// What changing a vault gives: the bytes of the vault file afterwards and
/// the records in it. The vault keeps its salt; its nonce is new.
pub open spec fn changed(
    change: Change,
    config: RecordOperationConfig,
    found: VaultFile,
    drawn: Seq<u8>,
) -> Result<(Seq<u8>, Seq<Entry>), VaultError> {
    match authenticated(found, config.master_password@) {
        Err(error) => Err(error),
        Ok(s) => match applied(change, s, config.domain@, config.password@) {
            Err(error) => Err(error),
            Ok(after) => {
                let parts = parse_vault(found->Contents_0@)->0;
                match sealed_vault(
                    after,
                    config.master_password@,
                    parts.salt,
                    next_nonce(parts.nonce, drawn),
                ) {
                    Some(bytes) => Ok((bytes, after)),
                    None => Err(VaultError::TooLarge),
                }
            },
        },
    }
}

/// What the result of a change stands for.
pub open spec fn update_of(result: Result<VaultUpdate, VaultError>) -> Result<
    (Seq<u8>, Seq<Entry>),
    VaultError,
> {
    match result {
        Ok(update) => Ok((update.image@, update.records@)),
        Err(error) => Err(error),
    }
}

/// What the result of an authentication stands for.
pub open spec fn records_of(result: Result<(User, ReadOnlyRecords), VaultError>) -> Result<
    Seq<Entry>,
    VaultError,
> {
    match result {
        Ok((_, records)) => Ok(records@),
        Err(error) => Err(error),
    }
}

/// The nonce to seal a vault with anew.
fn fresh_nonce(stored: &[u8], drawn: &[u8]) -> (nonce: Vec<u8>)
    requires
        drawn@.len() == NONCE_LEN,
    ensures
        nonce@ == next_nonce(stored@, drawn@),
        nonce@.len() == NONCE_LEN,
        nonce@ != stored@,
{
    let mut nonce = vstd::slice::slice_to_vec(drawn);
    if same_bytes(stored, drawn) {
        let first = nonce[0];
        let other: u8 = if first == 255 {
            0
        } else {
            first + 1
        };
        nonce.set(0, other);
        assert(nonce@[0] != stored@[0]);
    }
    nonce
}

/// Opens the vault, changes its store and seals it again.
fn change_vault(
    change: Change,
    config: &RecordOperationConfig,
    found: &VaultFile,
    drawn: &[u8],
) -> (result: Result<VaultUpdate, VaultError>)
    requires
        drawn@.len() == NONCE_LEN,
    ensures
        change_gave(change, *config, *found, drawn@, result),
{
    let mut vault = match unlock(found, config.master_password.as_str()) {
        Ok(vault) => vault,
        Err(error) => {
            return Err(error);
        },
    };
    let domain = config.domain.as_str();
    let secret = config.password.as_str();
    match change {
        Change::Add => {
            vault.records.add(domain, secret);
        },
        Change::Remove => {
            if !vault.records.remove(domain) {
                return Err(VaultError::RecordNotFound);
            }
        },
        Change::Modify => {
            if !vault.records.modify(domain, secret) {
                return Err(VaultError::RecordNotFound);
            }
        },
    }
    let nonce = fresh_nonce(vault.nonce.as_slice(), drawn);
    match lock(
        &vault.records,
        vault.key.as_slice(),
        vault.salt.as_slice(),
        nonce.as_slice(),
        Ghost(config.master_password@),
    ) {
        Some(update) => Ok(update),
        None => Err(VaultError::TooLarge),
    }
}

/// What the result of a registration stands for.
pub open spec fn creation_of(result: Result<(User, VaultUpdate), VaultError>) -> Result<
    (Seq<u8>, Seq<Entry>),
    VaultError,
> {
    match result {
        Ok((_, update)) => Ok((update.image@, update.records@)),
        Err(error) => Err(error),
    }
}

/// Seals a new vault with the salt and the nonce given.
fn create_vault(config: &RecordOperationConfig, found: &VaultFile, salt: &[u8], nonce: &[u8]) -> (result:
    Result<(User, VaultUpdate), VaultError>)
    requires
        salt@.len() == SALT_LEN,
        nonce@.len() == NONCE_LEN,
    ensures
        creation_gave(*config, *found, salt@, nonce@, result),
        result matches Ok((_, update)) ==> update.records@ == initial_records(
            config.domain@,
            config.password@,
        ),
{
    if found.user_exists() {
        return Err(VaultError::AlreadyExists);
    }
    let mut records = Records::new();
    if config.domain.as_str().unicode_len() > 0 {
        records.add(config.domain.as_str(), config.password.as_str());
        assert(records@ =~= initial_records(config.domain@, config.password@));
    }
    let key = match derive_key(config.master_password.as_str().as_bytes(), salt) {
        Some(key) => key,
        None => {
            return Err(VaultError::TooLarge);
        },
    };
    match lock(&records, key.as_slice(), salt, nonce, Ghost(config.master_password@)) {
        Some(update) => Ok((User { username: config.username.clone() }, update)),
        None => Err(VaultError::TooLarge),
    }
}

/// Registers a user with a salt and a nonce that the caller drew.
///
/// Where something was found at the place of the vault, the user exists
/// already. Otherwise the new store holds the record of `config.domain` and
/// `config.password`, or nothing where the domain is empty, and the update
/// holds the vault file sealed under `config.master_password`. That file
/// opens, under the same password, to the records returned.
pub fn create_user_with(
    config: &RecordOperationConfig,
    found: &VaultFile,
    salt: &[u8; 16],
    nonce: &[u8; 24],
) -> (result: Result<(User, VaultUpdate), VaultError>)
    ensures
        creation_gave(*config, *found, salt@, nonce@, result),
{
    create_vault(config, found, salt.as_slice(), nonce.as_slice())
}

/// Registers a user: `create_user_with` on a salt and a nonce drawn at
/// random.
pub fn create_user(config: &RecordOperationConfig, found: &VaultFile) -> (result: Result<
    (User, VaultUpdate),
    VaultError,
>)
    ensures
        exists|salt: Seq<u8>, nonce: Seq<u8>|
            salt.len() == SALT_LEN && nonce.len() == NONCE_LEN && creation_gave(
                *config,
                *found,
                salt,
                nonce,
                result,
            ),
        !(found is Missing) ==> creation_of(result) == Err::<(Seq<u8>, Seq<Entry>), VaultError>(
            VaultError::AlreadyExists,
        ),
        result matches Ok((_, update)) ==> update.records@ == initial_records(
            config.domain@,
            config.password@,
        ),
{
    let salt = random_bytes(SALT_LEN);
    let nonce = random_bytes(NONCE_LEN);
    let result = create_vault(config, found, salt.as_slice(), nonce.as_slice());
    assert(creation_gave(*config, *found, salt@, nonce@, result));
    result
}

/// Opens the vault of `username` with `master_password` and hands out its
/// records.
///
/// No file gives `NotFound`, one that cannot be read `IoError`. A file that
/// is no vault, or a password that does not open it, gives
/// `AuthenticationFailed`; a vault that opens and holds no record store
/// gives `SerializationError`. The vault is not changed: the same file and
/// password give the same records every time.
pub fn authenticate(found: &VaultFile, username: &str, master_password: &str) -> (result: Result<
    (User, ReadOnlyRecords),
    VaultError,
>)
    ensures
        records_of(result) == authenticated(*found, master_password@),
        result matches Ok((user, records)) ==> user.name() == username@ && unique_domains(
            records@,
        ),
{
    match unlock(found, master_password) {
        Ok(vault) => Ok((User { username: username.to_owned() }, vault.records.snapshot())),
        Err(error) => Err(error),
    }
}

/// Adds the record of `config.domain` and `config.password` to the vault
/// found, sealing it anew with a nonce that the caller drew.
///
/// The vault is opened with `config.master_password` as `authenticate` opens
/// it. A record of the same domain has its secret replaced; otherwise the
/// record comes last. The update holds the vault file afterwards, which
/// opens under the same password to the records returned, and whose nonce
/// is not the one of the file found.
pub fn add_record_with(config: &RecordOperationConfig, found: &VaultFile, nonce: &[u8; 24]) -> (result:
    Result<VaultUpdate, VaultError>)
    ensures
        change_gave(Change::Add, *config, *found, nonce@, result),
{
    change_vault(Change::Add, config, found, nonce.as_slice())
}

/// Removes the record of `config.domain` from the vault found, sealing it
/// anew with a nonce that the caller drew. A vault without such a record
/// gives `RecordNotFound`.
pub fn remove_record_with(config: &RecordOperationConfig, found: &VaultFile, nonce: &[u8; 24]) -> (result:
    Result<VaultUpdate, VaultError>)
    ensures
        change_gave(Change::Remove, *config, *found, nonce@, result),
        result matches Ok(update) ==> absent(update.records@, config.domain@),
{
    let result = change_vault(Change::Remove, config, found, nonce.as_slice());
    proof {
        if result is Ok {
            let before = authenticated(*found, config.master_password@)->Ok_0;
            crate::records::lemma_without_unique(before, config.domain@);
        }
    }
    result
}

/// Replaces the secret of the record of `config.domain` in the vault found
/// by `config.password`, sealing the vault anew with a nonce that the caller
/// drew. A vault without such a record gives `RecordNotFound`.
pub fn modify_record_with(config: &RecordOperationConfig, found: &VaultFile, nonce: &[u8; 24]) -> (result:
    Result<VaultUpdate, VaultError>)
    ensures
        change_gave(Change::Modify, *config, *found, nonce@, result),
{
    change_vault(Change::Modify, config, found, nonce.as_slice())
}

/// What a change of a vault with a given nonce hands back: the result that
/// `changed` describes, and, where that is an update, bytes that open under
/// the same password to the records of the update, with a nonce that the
/// file found did not have.
pub open spec fn change_gave(
    change: Change,
    config: RecordOperationConfig,
    found: VaultFile,
    nonce: Seq<u8>,
    result: Result<VaultUpdate, VaultError>,
) -> bool {
    &&& update_of(result) == changed(change, config, found, nonce)
    &&& result matches Ok(update) ==> {
        &&& opened(update.image@, config.master_password@) == Ok::<Seq<Entry>, VaultError>(
            update.records@,
        )
        &&& unique_domains(update.records@)
        &&& parse_vault(update.image@)->0.nonce != parse_vault(found->Contents_0@)->0.nonce
        &&& parse_vault(update.image@)->0.salt == parse_vault(found->Contents_0@)->0.salt
    }
    &&& result is Ok <==> {
        &&& authenticated(found, config.master_password@) matches Ok(s)
        &&& applied(change, s, config.domain@, config.password@) matches Ok(after)
        &&& sealable(after)
    }
}

/// The result of a change whose nonce was drawn at random: what holds of
/// it whatever was drawn.
pub open spec fn changed_somehow(
    change: Change,
    config: RecordOperationConfig,
    found: VaultFile,
    result: Result<VaultUpdate, VaultError>,
) -> bool {
    exists|nonce: Seq<u8>|
        nonce.len() == NONCE_LEN && change_gave(change, config, found, nonce, result)
}

/// Adds a record: `add_record_with` on a nonce drawn at random.
pub fn add_record(config: &RecordOperationConfig, found: &VaultFile) -> (result: Result<
    VaultUpdate,
    VaultError,
>)
    ensures
        changed_somehow(Change::Add, *config, *found, result),
{
    let nonce = random_bytes(NONCE_LEN);
    change_vault(Change::Add, config, found, nonce.as_slice())
}

/// Removes a record: `remove_record_with` on a nonce drawn at random.
pub fn remove_record(config: &RecordOperationConfig, found: &VaultFile) -> (result: Result<
    VaultUpdate,
    VaultError,
>)
    ensures
        changed_somehow(Change::Remove, *config, *found, result),
{
    let nonce = random_bytes(NONCE_LEN);
    change_vault(Change::Remove, config, found, nonce.as_slice())
}

/// Modifies a record: `modify_record_with` on a nonce drawn at random.
pub fn modify_record(config: &RecordOperationConfig, found: &VaultFile) -> (result: Result<
    VaultUpdate,
    VaultError,
>)
    ensures
        changed_somehow(Change::Modify, *config, *found, result),
{
    let nonce = random_bytes(NONCE_LEN);
    change_vault(Change::Modify, config, found, nonce.as_slice())
}

/// What a registration with a given salt and nonce hands back.
pub open spec fn creation_gave(
    config: RecordOperationConfig,
    found: VaultFile,
    salt: Seq<u8>,
    nonce: Seq<u8>,
    result: Result<(User, VaultUpdate), VaultError>,
) -> bool {
    &&& creation_of(result) == created(config, found, salt, nonce)
    &&& result matches Ok((user, update)) ==> {
        &&& user.name() == config.username@
        &&& opened(update.image@, config.master_password@) == Ok::<Seq<Entry>, VaultError>(
            update.records@,
        )
    }
    &&& result is Ok <==> {
        &&& found is Missing
        &&& usable(config.master_password@)
        &&& sealable(initial_records(config.domain@, config.password@))
    }
}

/// The file that a caller finds once it has put an update in place.
pub open spec fn written(result: Result<VaultUpdate, VaultError>) -> VaultFile {
    VaultFile::Contents(result->Ok_0.image)
}

/// Round trip: a user who registered with a record and then authenticates
/// with the same password gets exactly that record, and a user who
/// registered without one gets none.
pub proof fn lemma_create_then_authenticate(
    config: RecordOperationConfig,
    found: VaultFile,
    salt: Seq<u8>,
    nonce: Seq<u8>,
    result: Result<(User, VaultUpdate), VaultError>,
)
    requires
        creation_gave(config, found, salt, nonce, result),
        result is Ok,
    ensures
        authenticated(VaultFile::Contents(result->Ok_0.1.image), config.master_password@) == Ok::<
            Seq<Entry>,
            VaultError,
        >(initial_records(config.domain@, config.password@)),
{
}

/// Read idempotence: authenticating reads the vault and changes nothing, so
/// two authentications of the same file with the same password give the
/// same records.
pub proof fn lemma_authenticate_twice(
    found: VaultFile,
    password: Seq<char>,
    first: Result<(User, ReadOnlyRecords), VaultError>,
    second: Result<(User, ReadOnlyRecords), VaultError>,
)
    requires
        records_of(first) == authenticated(found, password),
        records_of(second) == authenticated(found, password),
    ensures
        records_of(first) == records_of(second),
{
}

/// A change that succeeds is read back: whoever authenticates afterwards
/// with the same password gets the records that the change returned.
pub proof fn lemma_change_then_authenticate(
    change: Change,
    config: RecordOperationConfig,
    found: VaultFile,
    nonce: Seq<u8>,
    result: Result<VaultUpdate, VaultError>,
)
    requires
        change_gave(change, config, found, nonce, result),
        result is Ok,
    ensures
        authenticated(written(result), config.master_password@) == Ok::<Seq<Entry>, VaultError>(
            result->Ok_0.records@,
        ),
        authenticated(found, config.master_password@) is Ok,
        applied(
            change,
            authenticated(found, config.master_password@)->Ok_0,
            config.domain@,
            config.password@,
        ) == Ok::<Seq<Entry>, VaultError>(result->Ok_0.records@),
{
}

/// Upsert law: after a record is added for a domain and then another for
/// the same domain, under the same password, the vault holds exactly one
/// record of that domain, with the second secret.
pub proof fn lemma_add_twice(
    first: RecordOperationConfig,
    second: RecordOperationConfig,
    found: VaultFile,
    first_nonce: Seq<u8>,
    second_nonce: Seq<u8>,
    once: Result<VaultUpdate, VaultError>,
    twice: Result<VaultUpdate, VaultError>,
)
    requires
        first.domain@ == second.domain@,
        first.master_password@ == second.master_password@,
        change_gave(Change::Add, first, found, first_nonce, once),
        once is Ok,
        change_gave(Change::Add, second, written(once), second_nonce, twice),
    ensures
        twice is Ok || twice == Err::<VaultUpdate, VaultError>(VaultError::TooLarge),
        twice matches Ok(update) ==> {
            &&& crate::records::holds_once(update.records@, second.domain@)
            &&& crate::records::lookup(update.records@, second.domain@) == Some(second.password@)
            &&& update.records@.len() == once->Ok_0.records@.len()
        },
{
    lemma_change_then_authenticate(Change::Add, first, found, first_nonce, once);
    let before = authenticated(found, first.master_password@)->Ok_0;
    assert(opened(found->Contents_0@, first.master_password@) is Ok);
    assert(unique_domains(before));
    crate::records::lemma_upsert_twice(before, first.domain@, first.password@, second.password@);
    crate::records::lemma_upsert_lookup(before, first.domain@, first.password@);
    let after_first = once->Ok_0.records@;
    assert(after_first == upsert(before, first.domain@, first.password@));
    assert(authenticated(written(once), second.master_password@) == Ok::<Seq<Entry>, VaultError>(
        after_first,
    ));
    crate::records::lemma_present_has_first(after_first, second.domain@);
}

/// Removal: removing the record of a domain leaves a vault without any
/// record of that domain, and removing it once more is refused with
/// `RecordNotFound`.
pub proof fn lemma_remove_then_remove(
    config: RecordOperationConfig,
    found: VaultFile,
    first_nonce: Seq<u8>,
    second_nonce: Seq<u8>,
    removed: Result<VaultUpdate, VaultError>,
    again: Result<VaultUpdate, VaultError>,
)
    requires
        change_gave(Change::Remove, config, found, first_nonce, removed),
        removed is Ok,
        change_gave(Change::Remove, config, written(removed), second_nonce, again),
    ensures
        absent(removed->Ok_0.records@, config.domain@),
        again == Err::<VaultUpdate, VaultError>(VaultError::RecordNotFound),
{
    lemma_change_then_authenticate(Change::Remove, config, found, first_nonce, removed);
    let before = authenticated(found, config.master_password@)->Ok_0;
    assert(opened(found->Contents_0@, config.master_password@) is Ok);
    crate::records::lemma_without_unique(before, config.domain@);
}

/// Removing or modifying the record of a domain that an opened vault does
/// not hold is refused with `RecordNotFound`, and never anything else.
pub proof fn lemma_missing_record(
    change: Change,
    config: RecordOperationConfig,
    found: VaultFile,
    nonce: Seq<u8>,
)
    requires
        change != Change::Add,
        authenticated(found, config.master_password@) matches Ok(s) && absent(s, config.domain@),
    ensures
        changed(change, config, found, nonce) == Err::<(Seq<u8>, Seq<Entry>), VaultError>(
            VaultError::RecordNotFound,
        ),
{
}

} // verus!
