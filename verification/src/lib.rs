//! Read, write, and store encrypted data.
//!
//! A single-user, local encrypted vault for two kinds of secrets: free-form
//! text files (stored on disk, encrypted at rest) and structured credentials
//! (stored in an embedded database, encrypted at rest). All secrets are tied
//! to accounts that authenticate with a password and own a per-account
//! encryption key, wrapped under the once-hashed password.
//!
//! The [`vault::Vault`] keeps the metadata store and the blob directory
//! mutually consistent under partial failure: every mutation either fully
//! applies to both or leaves the metadata store unchanged.
pub mod account;
pub mod credential;
pub mod crypto;
pub mod database;
pub mod database_traits;
pub mod encryption;
pub mod error;
pub mod file_data;
pub mod filesystem;
pub mod hashing;
pub mod helpers;
pub mod input_validation;
pub mod password;
pub mod salt;
pub mod sql_schemas;
pub mod sql_statements;
pub mod vault;

pub use account::{Account, UnlockedAccount};
pub use credential::Credential;
pub use encryption::{Aes256Key, Encrypted, TryFromEncrypted};
pub use error::Error;
pub use file_data::{Base64FileData, FileData};
pub use filesystem::FsAction;
pub use hashing::Hashed;
pub use password::{Base64Password, DecryptedPasswordFields, Password};
pub use salt::Salt;
pub use vault::Vault;
