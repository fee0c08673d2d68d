//! A local, single-user encrypted credential store.
//!
//! A master password and a per-store random salt derive a fixed-size
//! symmetric key; each stored secret is sealed with authenticated
//! encryption under that key and a fresh nonce, and the sealed entries
//! are kept in a durable table keyed by (service, username).

pub mod crypto;
pub mod db;
pub mod encoding;
pub mod errors;
pub mod store;

pub use crypto::MasterKey;
pub use errors::StoreError;
pub use store::PasswordManager;
