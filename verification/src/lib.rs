//! An encrypted record vault for a single local user, the secret generator
//! that feeds it, and the state logic of its terminal front end.
//!
//! The vault: `digest` names a user's vault file, `records` is the store of
//! domains and secrets, `codec` lays a store and a vault file out as bytes,
//! `cipher` derives keys and seals payloads, and `user` registers,
//! authenticates and changes records. The library works on bytes in memory:
//! reading and writing the files is the caller's part.
//!
//! The generator: `generator` draws secrets that conform to a policy.
//!
//! The front end: `key`, `text`, `color`, `layout`, `components`, `popups`
//! and `views` decide what a key press does to a screen. Drawing is the
//! caller's part.

pub mod cipher;
pub mod codec;
pub mod color;
pub mod components;
pub mod digest;
pub mod generator;
pub mod key;
pub mod layout;
pub mod popups;
pub mod records;
pub mod text;
pub mod user;
pub mod views;
