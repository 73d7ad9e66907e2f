//! The schema of the metadata store: three tables, created idempotently on
//! every open. All binary fields are stored as base 64 text; foreign keys
//! cascade on delete.
use vstd::prelude::*;

verus! {

/// One row per account, keyed by username.
pub const CREATE_ACCOUNTS: &'static str = "CREATE TABLE IF NOT EXISTS accounts (username TEXT PRIMARY KEY, password_salt TEXT NOT NULL, dbl_hashed_password_hash TEXT NOT NULL, dbl_hashed_password_salt TEXT NOT NULL, encrypted_key_cipherbytes TEXT NOT NULL, encrypted_key_nonce TEXT NOT NULL)";

/// One row per credential, keyed by owner and encrypted name; deleting the
/// owning account cascades here.
pub const CREATE_CREDENTIALS: &'static str = "CREATE TABLE IF NOT EXISTS credentials (owner_username TEXT NOT NULL, encrypted_name_cipherbytes TEXT NOT NULL, encrypted_name_nonce TEXT NOT NULL, encrypted_username_cipherbytes TEXT NOT NULL, encrypted_username_nonce TEXT NOT NULL, encrypted_password_cipherbytes TEXT NOT NULL, encrypted_password_nonce TEXT NOT NULL, encrypted_notes_cipherbytes TEXT NOT NULL, encrypted_notes_nonce TEXT NOT NULL, FOREIGN KEY (owner_username) REFERENCES accounts(username) ON DELETE CASCADE, PRIMARY KEY (owner_username, encrypted_name_cipherbytes))";

/// One row per stored file, keyed by path; deleting the owning account
/// cascades here.
pub const CREATE_FILES_DATA: &'static str = "CREATE TABLE IF NOT EXISTS files_data (path TEXT PRIMARY KEY, filename TEXT NOT NULL, owner_username TEXT NOT NULL, contents_nonce TEXT NOT NULL, FOREIGN KEY (owner_username) REFERENCES accounts(username) ON DELETE CASCADE)";

} // verus!
