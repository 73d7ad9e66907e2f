//! The SQL statements of the metadata store, one constant per operation.
//! All statements bind parameters; none interpolates values.
use vstd::prelude::*;

verus! {

/// Select one account row by username.
pub const SELECT_ACCOUNT: &'static str = "SELECT username, password_salt, dbl_hashed_password_hash, dbl_hashed_password_salt, encrypted_key_cipherbytes, encrypted_key_nonce FROM accounts WHERE username = ?1";

/// Select every account row.
pub const SELECT_ALL_ACCOUNTS: &'static str = "SELECT username, password_salt, dbl_hashed_password_hash, dbl_hashed_password_salt, encrypted_key_cipherbytes, encrypted_key_nonce FROM accounts";

/// Insert one account row.
pub const INSERT_ACCOUNT: &'static str = "INSERT INTO accounts (username, password_salt, dbl_hashed_password_hash, dbl_hashed_password_salt, encrypted_key_cipherbytes, encrypted_key_nonce) VALUES (?1, ?2, ?3, ?4, ?5, ?6)";

/// Delete one account row by username; the schema cascades the deletion to
/// the account's credentials and files data.
pub const DELETE_ACCOUNT: &'static str = "DELETE FROM accounts WHERE username = ?1";

/// Update the password salt of one account.
pub const UPDATE_ACCOUNT_PASSWORD_SALT: &'static str = "UPDATE accounts SET password_salt = ?1 WHERE username = ?2";

/// Update the double-hashed password hash of one account.
pub const UPDATE_ACCOUNT_DBL_HASHED_PASSWORD_HASH: &'static str = "UPDATE accounts SET dbl_hashed_password_hash = ?1 WHERE username = ?2";

/// Update the double-hashed password salt of one account.
pub const UPDATE_ACCOUNT_DBL_HASHED_PASSWORD_SALT: &'static str = "UPDATE accounts SET dbl_hashed_password_salt = ?1 WHERE username = ?2";

/// Update the sealed-key cipherbytes of one account.
pub const UPDATE_ACCOUNT_ENCRYPTED_KEY_CIPHERBYTES: &'static str = "UPDATE accounts SET encrypted_key_cipherbytes = ?1 WHERE username = ?2";

/// Update the sealed-key nonce of one account.
pub const UPDATE_ACCOUNT_ENCRYPTED_KEY_NONCE: &'static str = "UPDATE accounts SET encrypted_key_nonce = ?1 WHERE username = ?2";

/// Select one credential row by owner and encrypted name.
pub const SELECT_CREDENTIAL: &'static str = "SELECT owner_username, encrypted_name_cipherbytes, encrypted_name_nonce, encrypted_username_cipherbytes, encrypted_username_nonce, encrypted_password_cipherbytes, encrypted_password_nonce, encrypted_notes_cipherbytes, encrypted_notes_nonce FROM credentials WHERE owner_username = ?1 AND encrypted_name_cipherbytes = ?2";

/// Select all credential rows of one owner.
pub const SELECT_ACCOUNT_CREDENTIALS: &'static str = "SELECT owner_username, encrypted_name_cipherbytes, encrypted_name_nonce, encrypted_username_cipherbytes, encrypted_username_nonce, encrypted_password_cipherbytes, encrypted_password_nonce, encrypted_notes_cipherbytes, encrypted_notes_nonce FROM credentials WHERE owner_username = ?1";

/// Select every credential row.
pub const SELECT_ALL_CREDENTIALS: &'static str = "SELECT owner_username, encrypted_name_cipherbytes, encrypted_name_nonce, encrypted_username_cipherbytes, encrypted_username_nonce, encrypted_password_cipherbytes, encrypted_password_nonce, encrypted_notes_cipherbytes, encrypted_notes_nonce FROM credentials";

/// Insert one credential row.
pub const INSERT_CREDENTIAL: &'static str = "INSERT INTO credentials (owner_username, encrypted_name_cipherbytes, encrypted_name_nonce, encrypted_username_cipherbytes, encrypted_username_nonce, encrypted_password_cipherbytes, encrypted_password_nonce, encrypted_notes_cipherbytes, encrypted_notes_nonce) VALUES (?1, ?2, ?3, ?4, ?5, ?6, ?7, ?8, ?9)";

/// Delete one credential row by owner and encrypted name.
pub const DELETE_CREDENTIAL: &'static str = "DELETE FROM credentials WHERE owner_username = ?1 AND encrypted_name_cipherbytes = ?2";

/// Update the encrypted-username cipherbytes of one credential.
pub const UPDATE_CREDENTIAL_ENCRYPTED_USERNAME_CIPHERBYTES: &'static str = "UPDATE credentials SET encrypted_username_cipherbytes = ?1 WHERE owner_username = ?2 AND encrypted_name_cipherbytes = ?3";

/// Update the encrypted-username nonce of one credential.
pub const UPDATE_CREDENTIAL_ENCRYPTED_USERNAME_NONCE: &'static str = "UPDATE credentials SET encrypted_username_nonce = ?1 WHERE owner_username = ?2 AND encrypted_name_cipherbytes = ?3";

/// Update the encrypted-password cipherbytes of one credential.
pub const UPDATE_CREDENTIAL_ENCRYPTED_PASSWORD_CIPHERBYTES: &'static str = "UPDATE credentials SET encrypted_password_cipherbytes = ?1 WHERE owner_username = ?2 AND encrypted_name_cipherbytes = ?3";

/// Update the encrypted-password nonce of one credential.
pub const UPDATE_CREDENTIAL_ENCRYPTED_PASSWORD_NONCE: &'static str = "UPDATE credentials SET encrypted_password_nonce = ?1 WHERE owner_username = ?2 AND encrypted_name_cipherbytes = ?3";

/// Update the encrypted-notes cipherbytes of one credential.
pub const UPDATE_CREDENTIAL_ENCRYPTED_NOTES_CIPHERBYTES: &'static str = "UPDATE credentials SET encrypted_notes_cipherbytes = ?1 WHERE owner_username = ?2 AND encrypted_name_cipherbytes = ?3";

/// Update the encrypted-notes nonce of one credential.
pub const UPDATE_CREDENTIAL_ENCRYPTED_NOTES_NONCE: &'static str = "UPDATE credentials SET encrypted_notes_nonce = ?1 WHERE owner_username = ?2 AND encrypted_name_cipherbytes = ?3";

/// Select one files-data row by path.
pub const SELECT_FILE_DATA: &'static str = "SELECT path, filename, owner_username, contents_nonce FROM files_data WHERE path = ?1";

/// Select all files-data rows of one owner.
pub const SELECT_ACCOUNT_FILES_DATA: &'static str = "SELECT path, filename, owner_username, contents_nonce FROM files_data WHERE owner_username = ?1";

/// Select every files-data row.
pub const SELECT_ALL_FILES_DATA: &'static str = "SELECT path, filename, owner_username, contents_nonce FROM files_data";

/// Insert one files-data row.
pub const INSERT_FILE_DATA: &'static str = "INSERT INTO files_data (path, filename, owner_username, contents_nonce) VALUES (?1, ?2, ?3, ?4)";

/// Delete one files-data row by path.
pub const DELETE_FILE_DATA: &'static str = "DELETE FROM files_data WHERE path = ?1";

/// Update the contents nonce of one files-data row.
pub const UPDATE_FILE_DATA_CONTENTS_NONCE: &'static str = "UPDATE files_data SET contents_nonce = ?1 WHERE path = ?2";

} // verus!
