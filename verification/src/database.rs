//! The metadata store: an embedded relational database holding the three
//! entity tables, with explicit transactions.
//!
//! The store's contents are modelled by three maps from primary key to
//! column values ([`db_accounts`], [`db_credentials`], [`db_files`]), a
//! matching trio of *saved* maps holding what would survive a rollback, and
//! a flag saying whether a transaction is open. Outside a transaction the
//! saved maps coincide with the current ones; `BEGIN` snapshots them,
//! `COMMIT` publishes the current maps, `ROLLBACK` restores the saved ones.
use vstd::prelude::*;

use crate::account::Account;
use crate::credential::Credential;
use crate::database_traits::{
    account_cols, credential_cols, file_data_cols, AccountCols, AccountRow, AccountUpdateField,
    CredentialCols, CredentialRow, CredentialUpdateField, FileDataCols, FileDataRow,
    FileDataUpdateField, HasSqlStatements, IntoB64, IntoDatabase, OwnedByAccount,
    account_cols_update, credential_cols_update, file_data_cols_update, b64_of_text,
    account_views_equal, credential_views_equal, file_data_views_equal,
    account_cols_canonical, credential_cols_canonical, file_data_cols_canonical,
};
use crate::error::Error;
use crate::file_data::FileData;
use crate::helpers::b64_encode;
use crate::sql_schemas::{CREATE_ACCOUNTS, CREATE_CREDENTIALS, CREATE_FILES_DATA};
use crate::sql_statements::{
    UPDATE_ACCOUNT_DBL_HASHED_PASSWORD_HASH, UPDATE_ACCOUNT_DBL_HASHED_PASSWORD_SALT,
    UPDATE_ACCOUNT_ENCRYPTED_KEY_CIPHERBYTES, UPDATE_ACCOUNT_ENCRYPTED_KEY_NONCE,
    UPDATE_ACCOUNT_PASSWORD_SALT, UPDATE_CREDENTIAL_ENCRYPTED_NOTES_CIPHERBYTES,
    UPDATE_CREDENTIAL_ENCRYPTED_NOTES_NONCE, UPDATE_CREDENTIAL_ENCRYPTED_PASSWORD_CIPHERBYTES,
    UPDATE_CREDENTIAL_ENCRYPTED_PASSWORD_NONCE, UPDATE_CREDENTIAL_ENCRYPTED_USERNAME_CIPHERBYTES,
    UPDATE_CREDENTIAL_ENCRYPTED_USERNAME_NONCE, UPDATE_FILE_DATA_CONTENTS_NONCE,
};

verus! {

#[verifier::external_type_specification]
#[verifier::external_body]
/// The database connection type of `rusqlite`, declared opaquely.
pub struct ExConnection(rusqlite::Connection);

/// The current contents of the `accounts` table: base-64 username to column
/// values.
pub uninterp spec fn db_accounts(conn: rusqlite::Connection) -> Map<Seq<char>, AccountCols>;

/// The current contents of the `credentials` table: (base-64 owner, base-64
/// encrypted name cipherbytes) to column values.
pub uninterp spec fn db_credentials(conn: rusqlite::Connection) -> Map<
    (Seq<char>, Seq<char>),
    CredentialCols,
>;

/// The current contents of the `files_data` table: base-64 path to column
/// values.
pub uninterp spec fn db_files(conn: rusqlite::Connection) -> Map<Seq<char>, FileDataCols>;

/// What the `accounts` table would hold after a rollback: the last committed
/// contents.
pub uninterp spec fn db_saved_accounts(conn: rusqlite::Connection) -> Map<Seq<char>, AccountCols>;

/// What the `credentials` table would hold after a rollback.
pub uninterp spec fn db_saved_credentials(conn: rusqlite::Connection) -> Map<
    (Seq<char>, Seq<char>),
    CredentialCols,
>;

/// What the `files_data` table would hold after a rollback.
pub uninterp spec fn db_saved_files(conn: rusqlite::Connection) -> Map<Seq<char>, FileDataCols>;

/// Whether a transaction is open on this connection.
pub uninterp spec fn db_pending(conn: rusqlite::Connection) -> bool;

/// Whether this connection enforces the expected schema: the three tables
/// with their primary keys and cascading foreign keys, and foreign-key
/// enforcement switched on.
pub uninterp spec fn db_conforms(conn: rusqlite::Connection) -> bool;

/// The primary key under which an account is stored.
pub open spec fn account_key(a: Account) -> Seq<char> {
    b64_of_text(a.username@)
}

/// The primary key under which a credential is stored.
pub open spec fn credential_key(c: Credential) -> (Seq<char>, Seq<char>) {
    (b64_of_text(c.owner_username@), b64_encode(c.encrypted_name.cipherbytes@))
}

/// The primary key under which a files-data record is stored.
pub open spec fn file_data_key(f: FileData) -> Seq<char> {
    b64_of_text(f.path@)
}

/// The credentials map without every entry owned by `owner`.
pub open spec fn credentials_without_owner(
    m: Map<(Seq<char>, Seq<char>), CredentialCols>,
    owner: Seq<char>,
) -> Map<(Seq<char>, Seq<char>), CredentialCols> {
    Map::new(|k: (Seq<char>, Seq<char>)| m.dom().contains(k) && k.0 != owner, |k: (Seq<char>, Seq<char>)| m[k])
}

/// The files map without every entry owned by `owner`.
pub open spec fn files_without_owner(m: Map<Seq<char>, FileDataCols>, owner: Seq<char>) -> Map<
    Seq<char>,
    FileDataCols,
> {
    Map::new(|k: Seq<char>| m.dom().contains(k) && m[k].owner_username != owner, |k: Seq<char>| m[k])
}

/// Connection interface to the metadata store.
#[derive(Debug)]
pub struct Database {
    /// The underlying SQLite connection.
    conn: rusqlite::Connection,
    /// Whether this store currently has an open transaction.
    in_tx: bool,
}

impl Database {
    /// The current contents of the `accounts` table.
    pub closed spec fn accounts(&self) -> Map<Seq<char>, AccountCols> {
        db_accounts(self.conn)
    }

    /// The current contents of the `credentials` table.
    pub closed spec fn credentials(&self) -> Map<(Seq<char>, Seq<char>), CredentialCols> {
        db_credentials(self.conn)
    }

    /// The current contents of the `files_data` table.
    pub closed spec fn files(&self) -> Map<Seq<char>, FileDataCols> {
        db_files(self.conn)
    }

    /// The committed contents of the `accounts` table.
    pub closed spec fn saved_accounts(&self) -> Map<Seq<char>, AccountCols> {
        db_saved_accounts(self.conn)
    }

    /// The committed contents of the `credentials` table.
    pub closed spec fn saved_credentials(&self) -> Map<(Seq<char>, Seq<char>), CredentialCols> {
        db_saved_credentials(self.conn)
    }

    /// The committed contents of the `files_data` table.
    pub closed spec fn saved_files(&self) -> Map<Seq<char>, FileDataCols> {
        db_saved_files(self.conn)
    }

    /// Whether a transaction is open.
    pub closed spec fn pending(&self) -> bool {
        db_pending(self.conn)
    }

    /// Whether the store's bookkeeping flag records an open transaction.
    pub closed spec fn tx_flag(&self) -> bool {
        self.in_tx
    }

    /// Whether the connection enforces the expected schema.
    pub closed spec fn conforms(&self) -> bool {
        db_conforms(self.conn)
    }

    /// A well-formed store: the schema conforms, the bookkeeping flag
    /// mirrors the transaction state, and outside a transaction the saved
    /// contents coincide with the current ones.
    pub open spec fn wf(&self) -> bool {
        &&& self.conforms()
        &&& self.tx_flag() == self.pending()
        &&& !self.pending() ==> self.saved_accounts() == self.accounts()
            && self.saved_credentials() == self.credentials() && self.saved_files() == self.files()
    }

    /// Whether this store currently has an open transaction.
    pub fn has_open_transaction(&self) -> (r: bool)
        ensures
            r == self.tx_flag(),
    {
        self.in_tx
    }
}

/// The current table contents of `post` equal those of `pre`.
pub open spec fn tables_unchanged(pre: Database, post: Database) -> bool {
    &&& post.accounts() == pre.accounts()
    &&& post.credentials() == pre.credentials()
    &&& post.files() == pre.files()
}

/// The committed table contents of `post` equal those of `pre`.
pub open spec fn saved_unchanged(pre: Database, post: Database) -> bool {
    &&& post.saved_accounts() == pre.saved_accounts()
    &&& post.saved_credentials() == pre.saved_credentials()
    &&& post.saved_files() == pre.saved_files()
}

/// The transaction state and schema conformance of `post` equal those of
/// `pre`.
pub open spec fn mode_unchanged(pre: Database, post: Database) -> bool {
    &&& post.pending() == pre.pending()
    &&& post.tx_flag() == pre.tx_flag()
    &&& post.conforms() == pre.conforms()
}

/// Nothing observable about the store changed.
pub open spec fn state_unchanged(pre: Database, post: Database) -> bool {
    &&& tables_unchanged(pre, post)
    &&& saved_unchanged(pre, post)
    &&& mode_unchanged(pre, post)
}

/// How a mutation relates the saved contents to the current ones: inside a
/// transaction the saved contents stay as they were; outside one, SQLite
/// autocommits, so the saved contents follow the current ones.
pub open spec fn saved_after_write(pre: Database, post: Database) -> bool {
    if pre.pending() {
        saved_unchanged(pre, post)
    } else {
        &&& post.saved_accounts() == post.accounts()
        &&& post.saved_credentials() == post.credentials()
        &&& post.saved_files() == post.files()
    }
}

impl Database {
    /// Relies on rusqlite: `Connection::open_with_flags` opens an existing
    /// database file read-write without creating it; `set_db_config` turns
    /// foreign-key enforcement on; three `execute` calls create the tables
    /// if they are missing (changing no rows either way). Assumes the file
    /// holds no conflicting tables: it is either empty or was written by
    /// this store.
    #[verifier::external_body]
    fn connect_raw(path: &str, accounts_schema: &str, credentials_schema: &str, files_schema: &str) -> (r:
        Option<Database>)
        requires
            accounts_schema@ == CREATE_ACCOUNTS@,
            credentials_schema@ == CREATE_CREDENTIALS@,
            files_schema@ == CREATE_FILES_DATA@,
        ensures
            r matches Some(db) ==> {
                &&& db_conforms(db.conn)
                &&& !db_pending(db.conn)
                &&& !db.in_tx
                &&& db_saved_accounts(db.conn) == db_accounts(db.conn)
                &&& db_saved_credentials(db.conn) == db_credentials(db.conn)
                &&& db_saved_files(db.conn) == db_files(db.conn)
            },
    {
        let flags = rusqlite::OpenFlags::SQLITE_OPEN_READ_WRITE
            | rusqlite::OpenFlags::SQLITE_OPEN_NO_MUTEX;
        let conn = match rusqlite::Connection::open_with_flags(path, flags) {
            Ok(conn) => conn,
            Err(_) => return None,
        };
        let fk = conn.set_db_config(rusqlite::config::DbConfig::SQLITE_DBCONFIG_ENABLE_FKEY, true);
        let tables = conn.execute_batch(accounts_schema).and_then(
            |_| conn.execute_batch(credentials_schema),
        ).and_then(|_| conn.execute_batch(files_schema));
        if fk.is_ok() && tables.is_ok() {
            Some(Database { conn, in_tx: false })
        } else {
            None
        }
    }

    /// Relies on rusqlite's `execute_batch` running `BEGIN`: on success a
    /// transaction is open and the saved contents are snapshotted; on
    /// failure nothing changed.
    #[verifier::external_body]
    fn exec_begin(&mut self) -> (r: Result<(), ()>)
        requires
            old(self).wf(),
            !old(self).pending(),
        ensures
            final(self).conforms(),
            tables_unchanged(*old(self), *final(self)),
            r is Ok ==> final(self).pending() && final(self).tx_flag() && final(self).saved_accounts() == final(self).accounts() && final(self).saved_credentials()
                == final(self).credentials() && final(self).saved_files() == final(self).files(),
            r is Err ==> state_unchanged(*old(self), *final(self)),
    {
        match self.conn.execute_batch("BEGIN") {
            Ok(()) => {
                self.in_tx = true;
                Ok(())
            },
            Err(_) => Err(()),
        }
    }

    /// Relies on rusqlite's `execute_batch` running `COMMIT`, falling back
    /// to `ROLLBACK` when the commit fails: on success the current contents
    /// become the committed ones; on failure the committed contents are
    /// restored, exactly as a rollback would.
    #[verifier::external_body]
    fn exec_commit(&mut self) -> (r: Result<(), ()>)
        requires
            old(self).wf(),
            old(self).pending(),
        ensures
            final(self).conforms(),
            !final(self).pending(),
            !final(self).tx_flag(),
            r is Ok ==> tables_unchanged(*old(self), *final(self)) && final(self).saved_accounts()
                == final(self).accounts() && final(self).saved_credentials() == final(self).credentials() && final(self).saved_files() == final(self).files(),
            r is Err ==> saved_unchanged(*old(self), *final(self)) && final(self).accounts()
                == old(self).saved_accounts() && final(self).credentials() == old(self).saved_credentials() && final(self).files() == old(self).saved_files(),
    {
        match self.conn.execute_batch("COMMIT") {
            Ok(()) => {
                self.in_tx = false;
                Ok(())
            },
            Err(_) => {
                let _ = self.conn.execute_batch("ROLLBACK");
                self.in_tx = false;
                Err(())
            },
        }
    }

    /// Relies on rusqlite's `execute_batch` running `ROLLBACK`: the current
    /// contents return to the committed ones and no transaction remains
    /// open.
    #[verifier::external_body]
    fn exec_rollback(&mut self)
        requires
            old(self).wf(),
            old(self).pending(),
        ensures
            final(self).conforms(),
            !final(self).pending(),
            !final(self).tx_flag(),
            saved_unchanged(*old(self), *final(self)),
            final(self).accounts() == old(self).saved_accounts(),
            final(self).credentials() == old(self).saved_credentials(),
            final(self).files() == old(self).saved_files(),
    {
        let _ = self.conn.execute_batch("ROLLBACK");
        self.in_tx = false;
    }

    /// Relies on rusqlite's `Connection::execute` running the accounts
    /// INSERT: it adds exactly the given row, and fails (changing nothing)
    /// when the username is already present.
    #[verifier::external_body]
    fn exec_insert_account(&mut self, sql: &str, row: &AccountRow) -> (r: Result<
        usize,
        (),
    >)
        requires
            old(self).wf(),
            sql@ == crate::sql_statements::INSERT_ACCOUNT@,
        ensures
            final(self).conforms(),
            final(self).pending() == old(self).pending(),
            final(self).tx_flag() == old(self).tx_flag(),
            final(self).credentials() == old(self).credentials(),
            final(self).files() == old(self).files(),
            r matches Ok(n) ==> n == 1 && !old(self).accounts().contains_key(row.username@)
                && final(self).accounts() == old(self).accounts().insert(row.username@, row.cols()),
            r is Err ==> final(self).accounts() == old(self).accounts(),
            saved_after_write(*old(self), *final(self)),
    {
        self.conn.execute(
            sql,
            rusqlite::params_from_iter(
                [
                    row.username.as_str(),
                    row.password_salt.as_str(),
                    row.dbl_hashed_password_hash.as_str(),
                    row.dbl_hashed_password_salt.as_str(),
                    row.encrypted_key_cipherbytes.as_str(),
                    row.encrypted_key_nonce.as_str(),
                ],
            ),
        ).map_err(|_| ())
    }

    /// Relies on rusqlite's `Connection::execute` running the credentials
    /// INSERT: it adds exactly the given row, and fails (changing nothing)
    /// when the (owner, encrypted name) key is already present or the owner
    /// does not reference an existing account (foreign key).
    #[verifier::external_body]
    fn exec_insert_credential(&mut self, sql: &str, row: &CredentialRow) -> (r: Result<
        usize,
        (),
    >)
        requires
            old(self).wf(),
            sql@ == crate::sql_statements::INSERT_CREDENTIAL@,
        ensures
            final(self).conforms(),
            final(self).pending() == old(self).pending(),
            final(self).tx_flag() == old(self).tx_flag(),
            final(self).accounts() == old(self).accounts(),
            final(self).files() == old(self).files(),
            r matches Ok(n) ==> n == 1 && old(self).accounts().contains_key(row.owner_username@)
                && !old(self).credentials().contains_key(
                (row.owner_username@, row.encrypted_name_cipherbytes@),
            ) && final(self).credentials() == old(self).credentials().insert(
                (row.owner_username@, row.encrypted_name_cipherbytes@),
                row.cols(),
            ),
            r is Err ==> final(self).credentials() == old(self).credentials(),
            saved_after_write(*old(self), *final(self)),
    {
        let params = [
            row.owner_username.as_str(),
            row.encrypted_name_cipherbytes.as_str(),
            row.encrypted_name_nonce.as_str(),
            row.encrypted_username_cipherbytes.as_str(),
            row.encrypted_username_nonce.as_str(),
            row.encrypted_password_cipherbytes.as_str(),
            row.encrypted_password_nonce.as_str(),
            row.encrypted_notes_cipherbytes.as_str(),
            row.encrypted_notes_nonce.as_str(),
        ];
        self.conn.execute(sql, rusqlite::params_from_iter(params)).map_err(|_| ())
    }

    /// Relies on rusqlite's `Connection::execute` running the files-data
    /// INSERT: it adds exactly the given row, and fails (changing nothing)
    /// when the path is already present or the owner does not reference an
    /// existing account (foreign key).
    #[verifier::external_body]
    fn exec_insert_file_data(&mut self, sql: &str, row: &FileDataRow) -> (r: Result<
        usize,
        (),
    >)
        requires
            old(self).wf(),
            sql@ == crate::sql_statements::INSERT_FILE_DATA@,
        ensures
            final(self).conforms(),
            final(self).pending() == old(self).pending(),
            final(self).tx_flag() == old(self).tx_flag(),
            final(self).accounts() == old(self).accounts(),
            final(self).credentials() == old(self).credentials(),
            r matches Ok(n) ==> n == 1 && old(self).accounts().contains_key(row.owner_username@)
                && !old(self).files().contains_key(row.path@) && final(self).files() == old(self).files().insert(row.path@, row.cols()),
            r is Err ==> final(self).files() == old(self).files(),
            saved_after_write(*old(self), *final(self)),
    {
        self.conn.execute(
            sql,
            rusqlite::params_from_iter(
                [
                    row.path.as_str(),
                    row.filename.as_str(),
                    row.owner_username.as_str(),
                    row.contents_nonce.as_str(),
                ],
            ),
        ).map_err(|_| ())
    }

    /// Relies on rusqlite's `Connection::execute` running the accounts
    /// DELETE with the schema's `ON DELETE CASCADE`: the account row and
    /// every credential and files-data row owned by it are removed; the
    /// count reports the account rows removed.
    #[verifier::external_body]
    fn exec_delete_account(&mut self, sql: &str, username_b64: &str) -> (r: Result<
        usize,
        (),
    >)
        requires
            old(self).wf(),
            sql@ == crate::sql_statements::DELETE_ACCOUNT@,
        ensures
            final(self).conforms(),
            final(self).pending() == old(self).pending(),
            final(self).tx_flag() == old(self).tx_flag(),
            r matches Ok(n) ==> n == (if old(self).accounts().contains_key(username_b64@) {
                1int
            } else {
                0int
            }) && final(self).accounts() == old(self).accounts().remove(username_b64@) && final(self).credentials() == credentials_without_owner(old(self).credentials(), username_b64@)
                && final(self).files() == files_without_owner(old(self).files(), username_b64@),
            r is Err ==> tables_unchanged(*old(self), *final(self)),
            saved_after_write(*old(self), *final(self)),
    {
        self.conn.execute(sql, [username_b64]).map_err(|_| ())
    }

    /// Relies on rusqlite's `Connection::execute` running the credentials
    /// DELETE: exactly the row with the given key is removed, if present.
    #[verifier::external_body]
    fn exec_delete_credential(&mut self, sql: &str, owner_b64: &str, name_b64: &str) -> (r: Result<
        usize,
        (),
    >)
        requires
            old(self).wf(),
            sql@ == crate::sql_statements::DELETE_CREDENTIAL@,
        ensures
            final(self).conforms(),
            final(self).pending() == old(self).pending(),
            final(self).tx_flag() == old(self).tx_flag(),
            final(self).accounts() == old(self).accounts(),
            final(self).files() == old(self).files(),
            r matches Ok(n) ==> n == (if old(self).credentials().contains_key(
                (owner_b64@, name_b64@),
            ) {
                1int
            } else {
                0int
            }) && final(self).credentials() == old(self).credentials().remove(
                (owner_b64@, name_b64@),
            ),
            r is Err ==> final(self).credentials() == old(self).credentials(),
            saved_after_write(*old(self), *final(self)),
    {
        self.conn.execute(sql, [owner_b64, name_b64]).map_err(|_| ())
    }

    /// Relies on rusqlite's `Connection::execute` running the files-data
    /// DELETE: exactly the row with the given path is removed, if present.
    #[verifier::external_body]
    fn exec_delete_file_data(&mut self, sql: &str, path_b64: &str) -> (r: Result<
        usize,
        (),
    >)
        requires
            old(self).wf(),
            sql@ == crate::sql_statements::DELETE_FILE_DATA@,
        ensures
            final(self).conforms(),
            final(self).pending() == old(self).pending(),
            final(self).tx_flag() == old(self).tx_flag(),
            final(self).accounts() == old(self).accounts(),
            final(self).credentials() == old(self).credentials(),
            r matches Ok(n) ==> n == (if old(self).files().contains_key(path_b64@) {
                1int
            } else {
                0int
            }) && final(self).files() == old(self).files().remove(path_b64@),
            r is Err ==> final(self).files() == old(self).files(),
            saved_after_write(*old(self), *final(self)),
    {
        self.conn.execute(sql, [path_b64]).map_err(|_| ())
    }

    /// Relies on rusqlite's `Connection::execute` running one of the five
    /// accounts UPDATE statements: the named column of the row with the
    /// given username is set to the new value; the count reports the rows
    /// that matched.
    #[verifier::external_body]
    fn exec_update_account(&mut self, sql: &str, value_b64: &str, username_b64: &str) -> (r: Result<
        usize,
        (),
    >)
        requires
            old(self).wf(),
            sql@ == UPDATE_ACCOUNT_PASSWORD_SALT@ || sql@ == UPDATE_ACCOUNT_DBL_HASHED_PASSWORD_HASH@
                || sql@ == UPDATE_ACCOUNT_DBL_HASHED_PASSWORD_SALT@ || sql@
                == UPDATE_ACCOUNT_ENCRYPTED_KEY_CIPHERBYTES@ || sql@
                == UPDATE_ACCOUNT_ENCRYPTED_KEY_NONCE@,
        ensures
            final(self).conforms(),
            final(self).pending() == old(self).pending(),
            final(self).tx_flag() == old(self).tx_flag(),
            final(self).credentials() == old(self).credentials(),
            final(self).files() == old(self).files(),
            r matches Ok(n) ==> n == (if old(self).accounts().contains_key(username_b64@) {
                1int
            } else {
                0int
            }),
            r matches Ok(n) ==> sql@ == UPDATE_ACCOUNT_PASSWORD_SALT@ ==> final(self).accounts()
                == updated_account_col(
                old(self).accounts(),
                username_b64@,
                AccountUpdateField::PasswordSalt,
                value_b64@,
            ),
            r matches Ok(n) ==> sql@ == UPDATE_ACCOUNT_DBL_HASHED_PASSWORD_HASH@ ==> final(self).accounts() == updated_account_col(
                old(self).accounts(),
                username_b64@,
                AccountUpdateField::DblHashedPasswordHash,
                value_b64@,
            ),
            r matches Ok(n) ==> sql@ == UPDATE_ACCOUNT_DBL_HASHED_PASSWORD_SALT@ ==> final(self).accounts() == updated_account_col(
                old(self).accounts(),
                username_b64@,
                AccountUpdateField::DblHashedPasswordSalt,
                value_b64@,
            ),
            r matches Ok(n) ==> sql@ == UPDATE_ACCOUNT_ENCRYPTED_KEY_CIPHERBYTES@ ==> final(self).accounts() == updated_account_col(
                old(self).accounts(),
                username_b64@,
                AccountUpdateField::EncryptedKeyCipherbytes,
                value_b64@,
            ),
            r matches Ok(n) ==> sql@ == UPDATE_ACCOUNT_ENCRYPTED_KEY_NONCE@ ==> final(self).accounts() == updated_account_col(
                old(self).accounts(),
                username_b64@,
                AccountUpdateField::EncryptedKeyNonce,
                value_b64@,
            ),
            r is Err ==> final(self).accounts() == old(self).accounts(),
            saved_after_write(*old(self), *final(self)),
    {
        self.conn.execute(sql, [value_b64, username_b64]).map_err(|_| ())
    }

    /// Relies on rusqlite's `Connection::execute` running one of the six
    /// credentials UPDATE statements: the named column of the row with the
    /// given key is set to the new value; the count reports the rows that
    /// matched.
    #[verifier::external_body]
    fn exec_update_credential(
        &mut self,
        sql: &str,
        value_b64: &str,
        owner_b64: &str,
        name_b64: &str,
    ) -> (r: Result<usize, ()>)
        requires
            old(self).wf(),
            sql@ == UPDATE_CREDENTIAL_ENCRYPTED_USERNAME_CIPHERBYTES@ || sql@
                == UPDATE_CREDENTIAL_ENCRYPTED_USERNAME_NONCE@ || sql@
                == UPDATE_CREDENTIAL_ENCRYPTED_PASSWORD_CIPHERBYTES@ || sql@
                == UPDATE_CREDENTIAL_ENCRYPTED_PASSWORD_NONCE@ || sql@
                == UPDATE_CREDENTIAL_ENCRYPTED_NOTES_CIPHERBYTES@ || sql@
                == UPDATE_CREDENTIAL_ENCRYPTED_NOTES_NONCE@,
        ensures
            final(self).conforms(),
            final(self).pending() == old(self).pending(),
            final(self).tx_flag() == old(self).tx_flag(),
            final(self).accounts() == old(self).accounts(),
            final(self).files() == old(self).files(),
            r matches Ok(n) ==> n == (if old(self).credentials().contains_key(
                (owner_b64@, name_b64@),
            ) {
                1int
            } else {
                0int
            }),
            r matches Ok(n) ==> sql@ == UPDATE_CREDENTIAL_ENCRYPTED_USERNAME_CIPHERBYTES@ ==> final(self).credentials() == updated_credential_col(
                old(self).credentials(),
                (owner_b64@, name_b64@),
                CredentialUpdateField::UsernameCipherbytes,
                value_b64@,
            ),
            r matches Ok(n) ==> sql@ == UPDATE_CREDENTIAL_ENCRYPTED_USERNAME_NONCE@ ==> final(self).credentials() == updated_credential_col(
                old(self).credentials(),
                (owner_b64@, name_b64@),
                CredentialUpdateField::UsernameNonce,
                value_b64@,
            ),
            r matches Ok(n) ==> sql@ == UPDATE_CREDENTIAL_ENCRYPTED_PASSWORD_CIPHERBYTES@ ==> final(self).credentials() == updated_credential_col(
                old(self).credentials(),
                (owner_b64@, name_b64@),
                CredentialUpdateField::PasswordCipherbytes,
                value_b64@,
            ),
            r matches Ok(n) ==> sql@ == UPDATE_CREDENTIAL_ENCRYPTED_PASSWORD_NONCE@ ==> final(self).credentials() == updated_credential_col(
                old(self).credentials(),
                (owner_b64@, name_b64@),
                CredentialUpdateField::PasswordNonce,
                value_b64@,
            ),
            r matches Ok(n) ==> sql@ == UPDATE_CREDENTIAL_ENCRYPTED_NOTES_CIPHERBYTES@ ==> final(self).credentials() == updated_credential_col(
                old(self).credentials(),
                (owner_b64@, name_b64@),
                CredentialUpdateField::NotesCipherbytes,
                value_b64@,
            ),
            r matches Ok(n) ==> sql@ == UPDATE_CREDENTIAL_ENCRYPTED_NOTES_NONCE@ ==> final(self).credentials() == updated_credential_col(
                old(self).credentials(),
                (owner_b64@, name_b64@),
                CredentialUpdateField::NotesNonce,
                value_b64@,
            ),
            r is Err ==> final(self).credentials() == old(self).credentials(),
            saved_after_write(*old(self), *final(self)),
    {
        self.conn.execute(sql, [value_b64, owner_b64, name_b64]).map_err(|_| ())
    }

    /// Relies on rusqlite's `Connection::execute` running the files-data
    /// UPDATE: the contents-nonce column of the row with the given path is
    /// set to the new value; the count reports the rows that matched.
    #[verifier::external_body]
    fn exec_update_file_data(&mut self, sql: &str, value_b64: &str, path_b64: &str) -> (r: Result<
        usize,
        (),
    >)
        requires
            old(self).wf(),
            sql@ == UPDATE_FILE_DATA_CONTENTS_NONCE@,
        ensures
            final(self).conforms(),
            final(self).pending() == old(self).pending(),
            final(self).tx_flag() == old(self).tx_flag(),
            final(self).accounts() == old(self).accounts(),
            final(self).credentials() == old(self).credentials(),
            r matches Ok(n) ==> n == (if old(self).files().contains_key(path_b64@) {
                1int
            } else {
                0int
            }) && final(self).files() == updated_file_data_col(
                old(self).files(),
                path_b64@,
                FileDataUpdateField::ContentsNonce,
                value_b64@,
            ),
            r is Err ==> final(self).files() == old(self).files(),
            saved_after_write(*old(self), *final(self)),
    {
        self.conn.execute(sql, [value_b64, path_b64]).map_err(|_| ())
    }

    /// Relies on rusqlite's `query_row` running the accounts SELECT: it
    /// returns exactly the stored row with the given username, or nothing
    /// when no such row exists.
    #[verifier::external_body]
    fn query_account_row(&self, sql: &str, username_b64: &str) -> (r: Result<
        Option<AccountRow>,
        (),
    >)
        requires
            self.wf(),
            sql@ == crate::sql_statements::SELECT_ACCOUNT@,
        ensures
            r matches Ok(Some(row)) ==> self.accounts().contains_key(username_b64@)
                && row.cols() == self.accounts()[username_b64@] && row.username@ == username_b64@,
            r matches Ok(None) ==> !self.accounts().contains_key(username_b64@),
    {
        let res = self.conn.query_row(sql, [username_b64], |row| {
            Ok(AccountRow {
                username: row.get(0)?, password_salt: row.get(1)?,
                dbl_hashed_password_hash: row.get(2)?, dbl_hashed_password_salt: row.get(3)?,
                encrypted_key_cipherbytes: row.get(4)?, encrypted_key_nonce: row.get(5)?,
            })
        });
        match res {
            Ok(row) => Ok(Some(row)),
            Err(rusqlite::Error::QueryReturnedNoRows) => Ok(None),
            Err(_) => Err(()),
        }
    }

    /// Relies on rusqlite's `query_row` running the credentials SELECT: it
    /// returns exactly the stored row with the given key, or nothing when no
    /// such row exists.
    #[verifier::external_body]
    fn query_credential_row(&self, sql: &str, owner_b64: &str, name_b64: &str) -> (r: Result<
        Option<CredentialRow>,
        (),
    >)
        requires
            self.wf(),
            sql@ == crate::sql_statements::SELECT_CREDENTIAL@,
        ensures
            r matches Ok(Some(row)) ==> self.credentials().contains_key((owner_b64@, name_b64@))
                && row.cols() == self.credentials()[(owner_b64@, name_b64@)]
                && row.owner_username@ == owner_b64@ && row.encrypted_name_cipherbytes@
                == name_b64@,
            r matches Ok(None) ==> !self.credentials().contains_key((owner_b64@, name_b64@)),
    {
        let res = self.conn.query_row(sql, [owner_b64, name_b64], |row| {
            Ok(CredentialRow {
                owner_username: row.get(0)?, encrypted_name_cipherbytes: row.get(1)?,
                encrypted_name_nonce: row.get(2)?, encrypted_username_cipherbytes: row.get(3)?,
                encrypted_username_nonce: row.get(4)?, encrypted_password_cipherbytes: row.get(5)?,
                encrypted_password_nonce: row.get(6)?, encrypted_notes_cipherbytes: row.get(7)?,
                encrypted_notes_nonce: row.get(8)?,
            })
        });
        match res {
            Ok(row) => Ok(Some(row)),
            Err(rusqlite::Error::QueryReturnedNoRows) => Ok(None),
            Err(_) => Err(()),
        }
    }

    /// Relies on rusqlite's `query_map` running the owned-credentials
    /// SELECT: it returns exactly the stored rows owned by the given
    /// account, each once.
    #[verifier::external_body]
    fn query_credentials_owned(&self, sql: &str, owner_b64: &str) -> (r: Result<
        Vec<CredentialRow>,
        (),
    >)
        requires
            self.wf(),
            sql@ == crate::sql_statements::SELECT_ACCOUNT_CREDENTIALS@,
        ensures
            r matches Ok(v) ==> {
                &&& forall|i: int|
                    0 <= i < v@.len() ==> {
                        &&& (#[trigger] v@[i]).owner_username@ == owner_b64@
                        &&& self.credentials().contains_key(
                            (owner_b64@, v@[i].encrypted_name_cipherbytes@),
                        )
                        &&& v@[i].cols() == self.credentials()[(
                            owner_b64@,
                            v@[i].encrypted_name_cipherbytes@,
                        )]
                    }
                &&& forall|k: (Seq<char>, Seq<char>)|
                    #[trigger] self.credentials().dom().contains(k) && k.0 == owner_b64@
                        ==> exists|i: int|
                        0 <= i < v@.len() && (#[trigger] v@[i]).encrypted_name_cipherbytes@ == k.1
                &&& forall|i: int, j: int|
                    0 <= i < v@.len() && 0 <= j < v@.len() && i != j ==> (
                    #[trigger] v@[i]).encrypted_name_cipherbytes@ != (
                    #[trigger] v@[j]).encrypted_name_cipherbytes@
            },
    {
        let mut stmt = match self.conn.prepare(sql) {
            Ok(s) => s,
            Err(_) => return Err(()),
        };
        let rows = stmt.query_map([owner_b64], |row| {
            Ok(CredentialRow {
                owner_username: row.get(0)?, encrypted_name_cipherbytes: row.get(1)?,
                encrypted_name_nonce: row.get(2)?, encrypted_username_cipherbytes: row.get(3)?,
                encrypted_username_nonce: row.get(4)?, encrypted_password_cipherbytes: row.get(5)?,
                encrypted_password_nonce: row.get(6)?, encrypted_notes_cipherbytes: row.get(7)?,
                encrypted_notes_nonce: row.get(8)?,
            })
        });
        let collected = rows.map_err(|_| ())?.collect::<Result<Vec<_>, _>>();
        collected.map_err(|_| ())
    }

    /// Relies on rusqlite's `query_row` running the files-data SELECT: it
    /// returns exactly the stored row with the given path, or nothing when
    /// no such row exists.
    #[verifier::external_body]
    fn query_file_data_row(&self, sql: &str, path_b64: &str) -> (r: Result<
        Option<FileDataRow>,
        (),
    >)
        requires
            self.wf(),
            sql@ == crate::sql_statements::SELECT_FILE_DATA@,
        ensures
            r matches Ok(Some(row)) ==> self.files().contains_key(path_b64@) && row.cols()
                == self.files()[path_b64@] && row.path@ == path_b64@,
            r matches Ok(None) ==> !self.files().contains_key(path_b64@),
    {
        let res = self.conn.query_row(sql, [path_b64], |row| {
            Ok(FileDataRow {
                path: row.get(0)?, filename: row.get(1)?,
                owner_username: row.get(2)?, contents_nonce: row.get(3)?,
            })
        });
        match res {
            Ok(row) => Ok(Some(row)),
            Err(rusqlite::Error::QueryReturnedNoRows) => Ok(None),
            Err(_) => Err(()),
        }
    }

    /// Relies on rusqlite's `query_map` running the all-accounts SELECT: it
    /// returns exactly the stored rows, each once, keyed by their username
    /// column.
    #[verifier::external_body]
    fn query_all_accounts(&self, sql: &str) -> (r: Result<Vec<AccountRow>, ()>)
        requires
            self.wf(),
            sql@ == crate::sql_statements::SELECT_ALL_ACCOUNTS@,
        ensures
            r matches Ok(v) ==> {
                &&& forall|i: int|
                    0 <= i < v@.len() ==> {
                        &&& self.accounts().contains_key((#[trigger] v@[i]).username@)
                        &&& v@[i].cols() == self.accounts()[v@[i].username@]
                    }
                &&& forall|k: Seq<char>|
                    #[trigger] self.accounts().dom().contains(k) ==> exists|i: int|
                        0 <= i < v@.len() && (#[trigger] v@[i]).username@ == k
                &&& forall|i: int, j: int|
                    0 <= i < v@.len() && 0 <= j < v@.len() && i != j ==> (
                    #[trigger] v@[i]).username@ != (#[trigger] v@[j]).username@
            },
    {
        let mut stmt = match self.conn.prepare(sql) {
            Ok(s) => s,
            Err(_) => return Err(()),
        };
        let rows = stmt.query_map(rusqlite::params_from_iter(Vec::<String>::new()), |row| {
            Ok(AccountRow {
                username: row.get(0)?, password_salt: row.get(1)?,
                dbl_hashed_password_hash: row.get(2)?, dbl_hashed_password_salt: row.get(3)?,
                encrypted_key_cipherbytes: row.get(4)?, encrypted_key_nonce: row.get(5)?,
            })
        });
        let collected = rows.map_err(|_| ())?.collect::<Result<Vec<_>, _>>();
        collected.map_err(|_| ())
    }

    /// Relies on rusqlite's `query_map` running the all-files SELECT: it
    /// returns exactly the stored rows, each once, keyed by their path
    /// column.
    #[verifier::external_body]
    fn query_all_files(&self, sql: &str) -> (r: Result<Vec<FileDataRow>, ()>)
        requires
            self.wf(),
            sql@ == crate::sql_statements::SELECT_ALL_FILES_DATA@,
        ensures
            r matches Ok(v) ==> {
                &&& forall|i: int|
                    0 <= i < v@.len() ==> {
                        &&& self.files().contains_key((#[trigger] v@[i]).path@)
                        &&& v@[i].cols() == self.files()[v@[i].path@]
                    }
                &&& forall|k: Seq<char>|
                    #[trigger] self.files().dom().contains(k) ==> exists|i: int|
                        0 <= i < v@.len() && (#[trigger] v@[i]).path@ == k
                &&& forall|i: int, j: int|
                    0 <= i < v@.len() && 0 <= j < v@.len() && i != j ==> (#[trigger] v@[i]).path@
                        != (#[trigger] v@[j]).path@
            },
    {
        let mut stmt = match self.conn.prepare(sql) {
            Ok(s) => s,
            Err(_) => return Err(()),
        };
        let rows = stmt.query_map(rusqlite::params_from_iter(Vec::<String>::new()), |row| {
            Ok(FileDataRow {
                path: row.get(0)?, filename: row.get(1)?,
                owner_username: row.get(2)?, contents_nonce: row.get(3)?,
            })
        });
        let collected = rows.map_err(|_| ())?.collect::<Result<Vec<_>, _>>();
        collected.map_err(|_| ())
    }

    /// Relies on rusqlite's `query_map` running the owned-files SELECT: it
    /// returns exactly the stored rows owned by the given account, each
    /// once.
    #[verifier::external_body]
    fn query_files_owned(&self, sql: &str, owner_b64: &str) -> (r: Result<
        Vec<FileDataRow>,
        (),
    >)
        requires
            self.wf(),
            sql@ == crate::sql_statements::SELECT_ACCOUNT_FILES_DATA@,
        ensures
            r matches Ok(v) ==> {
                &&& forall|i: int|
                    0 <= i < v@.len() ==> {
                        &&& (#[trigger] v@[i]).owner_username@ == owner_b64@
                        &&& self.files().contains_key(v@[i].path@)
                        &&& v@[i].cols() == self.files()[v@[i].path@]
                    }
                &&& forall|k: Seq<char>|
                    #[trigger] self.files().dom().contains(k) && self.files()[k].owner_username
                        == owner_b64@ ==> exists|i: int|
                        0 <= i < v@.len() && (#[trigger] v@[i]).path@ == k
                &&& forall|i: int, j: int|
                    0 <= i < v@.len() && 0 <= j < v@.len() && i != j ==> (#[trigger] v@[i]).path@
                        != (#[trigger] v@[j]).path@
            },
    {
        let mut stmt = match self.conn.prepare(sql) {
            Ok(s) => s,
            Err(_) => return Err(()),
        };
        let rows = match stmt.query_map([owner_b64], |row| {
            Ok(FileDataRow {
                path: row.get(0)?, filename: row.get(1)?,
                owner_username: row.get(2)?, contents_nonce: row.get(3)?,
            })
        }) {
            Ok(rows) => rows,
            Err(_) => return Err(()),
        };
        rows.collect::<Result<Vec<_>, _>>().map_err(|_| ())
    }
}

/// The accounts map after one column update on the row at `key`, if any.
pub open spec fn updated_account_col(
    m: Map<Seq<char>, AccountCols>,
    key: Seq<char>,
    field: AccountUpdateField,
    value: Seq<char>,
) -> Map<Seq<char>, AccountCols> {
    if m.contains_key(key) {
        m.insert(key, account_cols_update(m[key], field, value))
    } else {
        m
    }
}

/// The credentials map after one column update on the row at `key`, if any.
pub open spec fn updated_credential_col(
    m: Map<(Seq<char>, Seq<char>), CredentialCols>,
    key: (Seq<char>, Seq<char>),
    field: CredentialUpdateField,
    value: Seq<char>,
) -> Map<(Seq<char>, Seq<char>), CredentialCols> {
    if m.contains_key(key) {
        m.insert(key, credential_cols_update(m[key], field, value))
    } else {
        m
    }
}

/// Every stored account appears in the listing `v`.
pub open spec fn accounts_listing_complete(m: Map<Seq<char>, AccountCols>, v: Seq<Account>) -> bool {
    forall|k: Seq<char>|
        #[trigger] m.dom().contains(k) ==> exists|i: int|
            0 <= i < v.len() && account_key(#[trigger] v[i]) == k
}

/// Every stored file appears in the listing `v`.
pub open spec fn all_files_listing_complete(m: Map<Seq<char>, FileDataCols>, v: Seq<FileData>) -> bool {
    forall|k: Seq<char>|
        #[trigger] m.dom().contains(k) ==> exists|i: int|
            0 <= i < v.len() && b64_of_text((#[trigger] v[i]).path@) == k
}

/// Every stored file of `owner` appears in the listing `v`.
pub open spec fn files_listing_complete(
    m: Map<Seq<char>, FileDataCols>,
    owner: Seq<char>,
    v: Seq<FileData>,
) -> bool {
    forall|k: Seq<char>|
        #[trigger] m.dom().contains(k) && m[k].owner_username == b64_of_text(owner)
            ==> exists|i: int| 0 <= i < v.len() && b64_of_text((#[trigger] v[i]).path@) == k
}

/// The files map after one column update on the row at `key`, if any.
pub open spec fn updated_file_data_col(
    m: Map<Seq<char>, FileDataCols>,
    key: Seq<char>,
    field: FileDataUpdateField,
    value: Seq<char>,
) -> Map<Seq<char>, FileDataCols> {
    if m.contains_key(key) {
        m.insert(key, file_data_cols_update(m[key], field, value))
    } else {
        m
    }
}

impl Database {
    /// Open the metadata store at the given path. The database file must
    /// already exist; the schema is created idempotently.
    pub fn connect(path: &str) -> (r: Result<Database, Error>)
        ensures
            r matches Ok(db) ==> db.wf() && !db.pending() && !db.tx_flag(),
            r matches Err(e) ==> e is DatabaseError,
    {
        match Database::connect_raw(path, CREATE_ACCOUNTS, CREATE_CREDENTIALS, CREATE_FILES_DATA) {
            Some(db) => Ok(db),
            None => Err(Error::DatabaseError),
        }
    }

    /// Open a new transaction. Until it is committed or rolled back, every
    /// mutation is provisional.
    pub fn open_transaction(&mut self) -> (r: Result<(), Error>)
        requires
            old(self).wf(),
            !old(self).pending(),
        ensures
            final(self).wf(),
            tables_unchanged(*old(self), *final(self)),
            r is Ok ==> final(self).pending() && final(self).saved_accounts() == final(self).accounts() && final(self).saved_credentials() == final(self).credentials() && final(self).saved_files() == final(self).files(),
            r is Err ==> state_unchanged(*old(self), *final(self)),
            r matches Err(e) ==> e is DatabaseError,
    {
        match self.exec_begin() {
            Ok(()) => Ok(()),
            Err(()) => Err(Error::DatabaseError),
        }
    }

    /// Commit the open transaction: the provisional contents become the
    /// committed ones. When the commit itself fails, the transaction is
    /// rolled back instead, so the committed contents stay what they were
    /// before the transaction began.
    pub fn commit_transaction(&mut self) -> (r: Result<(), Error>)
        requires
            old(self).wf(),
            old(self).pending(),
        ensures
            final(self).wf(),
            !final(self).pending(),
            r is Ok ==> tables_unchanged(*old(self), *final(self)) && final(self).saved_accounts()
                == final(self).accounts() && final(self).saved_credentials() == final(self).credentials() && final(self).saved_files() == final(self).files(),
            r is Err ==> final(self).accounts() == old(self).saved_accounts() && final(self).credentials() == old(self).saved_credentials() && final(self).files() == old(self).saved_files() && saved_unchanged(*old(self), *final(self)),
            r matches Err(e) ==> e is DatabaseError,
    {
        match self.exec_commit() {
            Ok(()) => Ok(()),
            Err(()) => Err(Error::DatabaseError),
        }
    }

    /// Roll back the open transaction: the contents return to what was last
    /// committed.
    pub fn rollback_transaction(&mut self)
        requires
            old(self).wf(),
            old(self).pending(),
        ensures
            final(self).wf(),
            !final(self).pending(),
            final(self).accounts() == old(self).saved_accounts(),
            final(self).credentials() == old(self).saved_credentials(),
            final(self).files() == old(self).saved_files(),
            saved_unchanged(*old(self), *final(self)),
    {
        self.exec_rollback();
    }

    /// Insert an account row; fail when the username is already present.
    pub fn insert_account(&mut self, account: Account) -> (r: Result<(), Error>)
        requires
            old(self).wf(),
            account.wf(),
        ensures
            final(self).wf(),
            final(self).pending() == old(self).pending(),
            final(self).credentials() == old(self).credentials(),
            final(self).files() == old(self).files(),
            old(self).pending() ==> saved_unchanged(*old(self), *final(self)),
            r is Ok ==> !old(self).accounts().contains_key(account_key(account)) && final(self).accounts() == old(self).accounts().insert(account_key(account), account_cols(account)),
            r is Err ==> final(self).accounts() == old(self).accounts(),
            r matches Err(e) ==> e is DatabaseError,
    {
        let row = account.into_database();
        match self.exec_insert_account(Account::sql_insert(), &row) {
            Ok(_) => Ok(()),
            Err(()) => Err(Error::DatabaseError),
        }
    }

    /// Insert a credential row; fail when the (owner, encrypted name) key is
    /// already present or the owner references no existing account.
    pub fn insert_credential(&mut self, credential: Credential) -> (r: Result<(), Error>)
        requires
            old(self).wf(),
            credential.wf(),
        ensures
            final(self).wf(),
            final(self).pending() == old(self).pending(),
            final(self).accounts() == old(self).accounts(),
            final(self).files() == old(self).files(),
            old(self).pending() ==> saved_unchanged(*old(self), *final(self)),
            r is Ok ==> old(self).accounts().contains_key(b64_of_text(credential.owner_username@))
                && !old(self).credentials().contains_key(credential_key(credential)) && final(self).credentials() == old(self).credentials().insert(
                credential_key(credential),
                credential_cols(credential),
            ),
            r is Err ==> final(self).credentials() == old(self).credentials(),
            r matches Err(e) ==> e is DatabaseError,
    {
        let row = credential.into_database();
        match self.exec_insert_credential(Credential::sql_insert(), &row) {
            Ok(_) => Ok(()),
            Err(()) => Err(Error::DatabaseError),
        }
    }

    /// Insert a files-data row; fail when the path is already present or the
    /// owner references no existing account.
    pub fn insert_file_data(&mut self, file_data: FileData) -> (r: Result<(), Error>)
        requires
            old(self).wf(),
            file_data.wf(),
        ensures
            final(self).wf(),
            final(self).pending() == old(self).pending(),
            final(self).accounts() == old(self).accounts(),
            final(self).credentials() == old(self).credentials(),
            old(self).pending() ==> saved_unchanged(*old(self), *final(self)),
            r is Ok ==> old(self).accounts().contains_key(b64_of_text(file_data.owner_username@))
                && !old(self).files().contains_key(file_data_key(file_data)) && final(self).files()
                == old(self).files().insert(file_data_key(file_data), file_data_cols(file_data)),
            r is Err ==> final(self).files() == old(self).files(),
            r matches Err(e) ==> e is DatabaseError,
    {
        let row = file_data.into_database();
        match self.exec_insert_file_data(FileData::sql_insert(), &row) {
            Ok(_) => Ok(()),
            Err(()) => Err(Error::DatabaseError),
        }
    }

    /// Delete an account row by username, cascading to its credentials and
    /// files data; fail when no such account exists.
    pub fn delete_account(&mut self, username: &str) -> (r: Result<(), Error>)
        requires
            old(self).wf(),
        ensures
            final(self).wf(),
            final(self).pending() == old(self).pending(),
            old(self).pending() ==> saved_unchanged(*old(self), *final(self)),
            r is Ok ==> old(self).accounts().contains_key(b64_of_text(username@)) && final(self).accounts() == old(self).accounts().remove(b64_of_text(username@)) && final(self).credentials() == credentials_without_owner(
                old(self).credentials(),
                b64_of_text(username@),
            ) && final(self).files() == files_without_owner(
                old(self).files(),
                b64_of_text(username@),
            ),
            r matches Err(e) ==> (e is DatabaseError ==> tables_unchanged(*old(self), *final(self))),
            r matches Err(e) ==> (e matches Error::AccountNotFoundError(u) ==> !old(self).accounts().contains_key(b64_of_text(username@)) && u@ == username@ && final(self).accounts() == old(self).accounts() && final(self).credentials()
                == credentials_without_owner(old(self).credentials(), b64_of_text(username@))
                && final(self).files() == files_without_owner(
                old(self).files(),
                b64_of_text(username@),
            )),
            r matches Err(e) ==> e is DatabaseError || e is AccountNotFoundError,
    {
        let username_b64 = username.into_b64();
        match self.exec_delete_account(Account::sql_delete(), username_b64.as_str()) {
            Ok(n) => {
                if n == 0 {
                    proof {
                        assert(old(self).accounts().remove(b64_of_text(username@))
                            =~= old(self).accounts());
                    }
                    Err(Error::AccountNotFoundError(username.to_owned()))
                } else {
                    Ok(())
                }
            },
            Err(()) => Err(Error::DatabaseError),
        }
    }

    /// Delete a credential row by owner and encrypted name; fail when no
    /// such credential exists.
    pub fn delete_credential(&mut self, owner_username: &str, name_cipherbytes: &[u8]) -> (r:
        Result<(), Error>)
        requires
            old(self).wf(),
        ensures
            final(self).wf(),
            final(self).pending() == old(self).pending(),
            final(self).accounts() == old(self).accounts(),
            final(self).files() == old(self).files(),
            old(self).pending() ==> saved_unchanged(*old(self), *final(self)),
            r is Ok ==> old(self).credentials().contains_key(
                (b64_of_text(owner_username@), b64_encode(name_cipherbytes@)),
            ) && final(self).credentials() == old(self).credentials().remove(
                (b64_of_text(owner_username@), b64_encode(name_cipherbytes@)),
            ),
            r is Err ==> final(self).credentials() == old(self).credentials(),
            r matches Err(e) ==> e is DatabaseError || e is CredentialNotFoundError,
    {
        let owner_b64 = owner_username.into_b64();
        let name_b64 = crate::helpers::bytes_to_b64(name_cipherbytes);
        match self.exec_delete_credential(
            Credential::sql_delete(),
            owner_b64.as_str(),
            name_b64.as_str(),
        ) {
            Ok(n) => {
                if n == 0 {
                    proof {
                        assert(old(self).credentials().remove(
                            (b64_of_text(owner_username@), b64_encode(name_cipherbytes@)),
                        ) =~= old(self).credentials());
                    }
                    Err(Error::CredentialNotFoundError(owner_username.to_owned()))
                } else {
                    Ok(())
                }
            },
            Err(()) => Err(Error::DatabaseError),
        }
    }

    /// Delete a files-data row by path; fail when no such row exists.
    pub fn delete_file_data(&mut self, path: &str) -> (r: Result<(), Error>)
        requires
            old(self).wf(),
        ensures
            final(self).wf(),
            final(self).pending() == old(self).pending(),
            final(self).accounts() == old(self).accounts(),
            final(self).credentials() == old(self).credentials(),
            old(self).pending() ==> saved_unchanged(*old(self), *final(self)),
            r is Ok ==> old(self).files().contains_key(b64_of_text(path@)) && final(self).files()
                == old(self).files().remove(b64_of_text(path@)),
            r is Err ==> final(self).files() == old(self).files(),
            r matches Err(e) ==> e is DatabaseError || e is FileDataNotFoundError,
    {
        let path_b64 = path.into_b64();
        match self.exec_delete_file_data(FileData::sql_delete(), path_b64.as_str()) {
            Ok(n) => {
                if n == 0 {
                    proof {
                        assert(old(self).files().remove(b64_of_text(path@)) =~= old(self).files());
                    }
                    Err(Error::FileDataNotFoundError(path.to_owned()))
                } else {
                    Ok(())
                }
            },
            Err(()) => Err(Error::DatabaseError),
        }
    }

    /// Update one column of the account row with the given username; the
    /// result is the number of rows changed, and an update that matched no
    /// row is an error.
    pub fn update_account_field(
        &mut self,
        username: &str,
        field: AccountUpdateField,
        value_b64: &str,
    ) -> (r: Result<usize, Error>)
        requires
            old(self).wf(),
        ensures
            final(self).wf(),
            final(self).pending() == old(self).pending(),
            final(self).credentials() == old(self).credentials(),
            final(self).files() == old(self).files(),
            old(self).pending() ==> saved_unchanged(*old(self), *final(self)),
            r matches Ok(n) ==> n == 1 && old(self).accounts().contains_key(b64_of_text(username@))
                && final(self).accounts() == old(self).accounts().insert(
                b64_of_text(username@),
                account_cols_update(
                    old(self).accounts()[b64_of_text(username@)],
                    field,
                    value_b64@,
                ),
            ),
            r is Err ==> final(self).accounts() == old(self).accounts(),
            r matches Err(e) ==> e is DatabaseError,
    {
        let username_b64 = username.into_b64();
        let sql = Account::sql_update(field);
        match self.exec_update_account(sql, value_b64, username_b64.as_str()) {
            Ok(n) => {
                if n == 1 {
                    Ok(n)
                } else {
                    proof {
                        assert(self.accounts() =~= old(self).accounts());
                    }
                    Err(Error::DatabaseError)
                }
            },
            Err(()) => Err(Error::DatabaseError),
        }
    }

    /// Update one column of the credential row with the given key; the
    /// result is the number of rows changed, and an update that matched no
    /// row is an error.
    pub fn update_credential_field(
        &mut self,
        owner_username: &str,
        name_cipherbytes: &[u8],
        field: CredentialUpdateField,
        value_b64: &str,
    ) -> (r: Result<usize, Error>)
        requires
            old(self).wf(),
        ensures
            final(self).wf(),
            final(self).pending() == old(self).pending(),
            final(self).accounts() == old(self).accounts(),
            final(self).files() == old(self).files(),
            old(self).pending() ==> saved_unchanged(*old(self), *final(self)),
            r matches Ok(n) ==> n == 1 && old(self).credentials().contains_key(
                (b64_of_text(owner_username@), b64_encode(name_cipherbytes@)),
            ) && final(self).credentials() == old(self).credentials().insert(
                (b64_of_text(owner_username@), b64_encode(name_cipherbytes@)),
                credential_cols_update(
                    old(self).credentials()[(
                        b64_of_text(owner_username@),
                        b64_encode(name_cipherbytes@),
                    )],
                    field,
                    value_b64@,
                ),
            ),
            r is Err ==> final(self).credentials() == old(self).credentials(),
            r matches Err(e) ==> e is DatabaseError,
    {
        let owner_b64 = owner_username.into_b64();
        let name_b64 = crate::helpers::bytes_to_b64(name_cipherbytes);
        let sql = Credential::sql_update(field);
        match self.exec_update_credential(sql, value_b64, owner_b64.as_str(), name_b64.as_str()) {
            Ok(n) => {
                if n == 1 {
                    Ok(n)
                } else {
                    proof {
                        assert(self.credentials() =~= old(self).credentials());
                    }
                    Err(Error::DatabaseError)
                }
            },
            Err(()) => Err(Error::DatabaseError),
        }
    }

    /// Update one column of the files-data row with the given path; the
    /// result is the number of rows changed, and an update that matched no
    /// row is an error.
    pub fn update_file_data_field(
        &mut self,
        path: &str,
        field: FileDataUpdateField,
        value_b64: &str,
    ) -> (r: Result<usize, Error>)
        requires
            old(self).wf(),
        ensures
            final(self).wf(),
            final(self).pending() == old(self).pending(),
            final(self).accounts() == old(self).accounts(),
            final(self).credentials() == old(self).credentials(),
            old(self).pending() ==> saved_unchanged(*old(self), *final(self)),
            r matches Ok(n) ==> n == 1 && old(self).files().contains_key(b64_of_text(path@))
                && final(self).files() == old(self).files().insert(
                b64_of_text(path@),
                file_data_cols_update(old(self).files()[b64_of_text(path@)], field, value_b64@),
            ),
            r is Err ==> final(self).files() == old(self).files(),
            r matches Err(e) ==> e is DatabaseError,
    {
        let path_b64 = path.into_b64();
        let sql = FileData::sql_update(field);
        match self.exec_update_file_data(sql, value_b64, path_b64.as_str()) {
            Ok(n) => {
                if n == 1 {
                    Ok(n)
                } else {
                    proof {
                        assert(self.files() =~= old(self).files());
                    }
                    Err(Error::DatabaseError)
                }
            },
            Err(()) => Err(Error::DatabaseError),
        }
    }
}

/// Decode one stored account row back into an [`Account`]; reject corrupt
/// rows (wrong lengths, bad base 64, bad UTF-8, empty username).
fn decode_account_row(row: &AccountRow) -> (r: Result<Account, Error>)
    ensures
        r matches Ok(a) ==> a.wf() && account_cols(a) == row.cols(),
        r matches Ok(a) ==> forall|t: Seq<char>| row.username@ == b64_of_text(t) ==> a.username@ == t,
        r matches Ok(a) ==> forall|a2: Account|
            row.cols() == account_cols(a2) ==> account_views_equal(a, a2),
        r matches Err(e) ==> e is InvalidB64Error || e is InvalidLengthB64Error
            || e is Utf8FromBytesError,
        account_cols_canonical(row.cols()) ==> r is Ok,
{
    let username_bytes = crate::helpers::b64_to_bytes(row.username.as_str())?;
    proof {
        assert forall|t: Seq<char>| row.username@ == b64_of_text(t) implies username_bytes@
            == vstd::utf8::encode_utf8(t) && vstd::utf8::valid_utf8(username_bytes@) by {
            assert(username_bytes@ == vstd::utf8::encode_utf8(t));
            vstd::utf8::encode_utf8_valid_utf8(t);
        }
    }
    let username = crate::helpers::bytes_to_utf8(username_bytes.as_slice(), "username")?;
    proof {
        assert forall|t: Seq<char>| row.username@ == b64_of_text(t) implies username@ == t by {
            assert(username_bytes@ == vstd::utf8::encode_utf8(t));
            vstd::utf8::encode_utf8_decode_utf8(t);
        }
    }
    if username.as_str().is_empty() {
        return Err(Error::Utf8FromBytesError("username".to_owned()));
    }
    let password_salt = crate::helpers::b64_to_fixed::<64>(
        row.password_salt.as_str(),
        "password_salt",
    )?;
    let dbl_hashed_password = crate::hashing::Hashed::<32, 64>::from_b64(
        row.dbl_hashed_password_hash.as_str(),
        row.dbl_hashed_password_salt.as_str(),
    )?;
    let encrypted_key = crate::encryption::Encrypted::from_b64(
        row.encrypted_key_cipherbytes.as_str(),
        row.encrypted_key_nonce.as_str(),
    )?;
    let account = Account::from_fields(username, password_salt, dbl_hashed_password, encrypted_key);
    proof {
        assert forall|t: Seq<char>| row.username@ == b64_of_text(t) implies account.username@
            == t by {
            assert(username_bytes@ == vstd::utf8::encode_utf8(t));
            vstd::utf8::encode_utf8_decode_utf8(t);
        }
        assert forall|a2: Account| row.cols() == account_cols(a2) implies account_views_equal(
            account,
            a2,
        ) by {
            assert(row.username@ == b64_of_text(a2.username@));
            assert(row.password_salt@ == b64_encode(a2.password_salt@));
            assert(row.dbl_hashed_password_hash@ == b64_encode(a2.dbl_hashed_password.hash@));
            assert(row.dbl_hashed_password_salt@ == b64_encode(a2.dbl_hashed_password.salt@));
            assert(row.encrypted_key_cipherbytes@ == b64_encode(a2.encrypted_key.cipherbytes@));
            assert(row.encrypted_key_nonce@ == b64_encode(a2.encrypted_key.nonce@));
        }
        vstd::utf8::decode_utf8_encode_utf8(username_bytes@);
        assert(account_cols(account) =~= row.cols());
    }
    Ok(account)
}

/// Decode one stored credential row back into a [`Credential`]; reject
/// corrupt rows.
fn decode_credential_row(row: &CredentialRow) -> (r: Result<Credential, Error>)
    ensures
        r matches Ok(c) ==> c.wf() && credential_cols(c) == row.cols(),
        r matches Ok(c) ==> forall|t: Seq<char>|
            row.owner_username@ == b64_of_text(t) ==> c.owner_username@ == t,
        r matches Ok(c) ==> forall|u: Seq<u8>|
            row.encrypted_name_cipherbytes@ == b64_encode(u) ==> c.encrypted_name.cipherbytes@ == u,
        r matches Ok(c) ==> forall|c2: Credential|
            row.cols() == credential_cols(c2) ==> credential_views_equal(c, c2),
        r matches Err(e) ==> e is InvalidB64Error || e is InvalidLengthB64Error
            || e is Utf8FromBytesError,
        credential_cols_canonical(row.cols()) ==> r is Ok,
{
    let owner_bytes = crate::helpers::b64_to_bytes(row.owner_username.as_str())?;
    proof {
        assert forall|t: Seq<char>| row.owner_username@ == b64_of_text(t) implies owner_bytes@
            == vstd::utf8::encode_utf8(t) && vstd::utf8::valid_utf8(owner_bytes@) by {
            assert(owner_bytes@ == vstd::utf8::encode_utf8(t));
            vstd::utf8::encode_utf8_valid_utf8(t);
        }
    }
    let owner_username = crate::helpers::bytes_to_utf8(owner_bytes.as_slice(), "owner_username")?;
    proof {
        assert forall|t: Seq<char>| row.owner_username@ == b64_of_text(t) implies owner_username@
            == t by {
            assert(owner_bytes@ == vstd::utf8::encode_utf8(t));
            vstd::utf8::encode_utf8_decode_utf8(t);
        }
    }
    if owner_username.as_str().is_empty() {
        return Err(Error::Utf8FromBytesError("owner_username".to_owned()));
    }
    let encrypted_name = crate::encryption::Encrypted::from_b64(
        row.encrypted_name_cipherbytes.as_str(),
        row.encrypted_name_nonce.as_str(),
    )?;
    let encrypted_username = crate::encryption::Encrypted::from_b64(
        row.encrypted_username_cipherbytes.as_str(),
        row.encrypted_username_nonce.as_str(),
    )?;
    let encrypted_password = crate::encryption::Encrypted::from_b64(
        row.encrypted_password_cipherbytes.as_str(),
        row.encrypted_password_nonce.as_str(),
    )?;
    let encrypted_notes = crate::encryption::Encrypted::from_b64(
        row.encrypted_notes_cipherbytes.as_str(),
        row.encrypted_notes_nonce.as_str(),
    )?;
    let credential = Credential::from_fields(
        owner_username,
        encrypted_name,
        encrypted_username,
        encrypted_password,
        encrypted_notes,
    );
    proof {
        assert forall|t: Seq<char>| row.owner_username@ == b64_of_text(t) implies credential.owner_username@
            == t by {
            assert(owner_bytes@ == vstd::utf8::encode_utf8(t));
            vstd::utf8::encode_utf8_decode_utf8(t);
        }
        assert forall|c2: Credential| row.cols() == credential_cols(c2) implies credential_views_equal(
            credential,
            c2,
        ) by {
            assert(row.owner_username@ == b64_of_text(c2.owner_username@));
            assert(row.encrypted_name_cipherbytes@ == b64_encode(c2.encrypted_name.cipherbytes@));
            assert(row.encrypted_name_nonce@ == b64_encode(c2.encrypted_name.nonce@));
            assert(row.encrypted_username_cipherbytes@ == b64_encode(
                c2.encrypted_username.cipherbytes@,
            ));
            assert(row.encrypted_username_nonce@ == b64_encode(c2.encrypted_username.nonce@));
            assert(row.encrypted_password_cipherbytes@ == b64_encode(
                c2.encrypted_password.cipherbytes@,
            ));
            assert(row.encrypted_password_nonce@ == b64_encode(c2.encrypted_password.nonce@));
            assert(row.encrypted_notes_cipherbytes@ == b64_encode(c2.encrypted_notes.cipherbytes@));
            assert(row.encrypted_notes_nonce@ == b64_encode(c2.encrypted_notes.nonce@));
        }
        vstd::utf8::decode_utf8_encode_utf8(owner_bytes@);
        assert(credential_cols(credential) =~= row.cols());
    }
    Ok(credential)
}

/// Decode one stored files-data row back into a [`FileData`]; reject corrupt
/// rows.
fn decode_file_data_row(row: &FileDataRow) -> (r: Result<FileData, Error>)
    ensures
        r matches Ok(f) ==> f.wf() && file_data_cols(f) == row.cols(),
        r matches Ok(f) ==> forall|t: Seq<char>| row.path@ == b64_of_text(t) ==> f.path@ == t,
        r matches Ok(f) ==> forall|t: Seq<char>|
            row.owner_username@ == b64_of_text(t) ==> f.owner_username@ == t,
        r matches Ok(f) ==> forall|f2: FileData|
            row.cols() == file_data_cols(f2) ==> file_data_views_equal(f, f2),
        r matches Err(e) ==> e is InvalidB64Error || e is InvalidLengthB64Error
            || e is Utf8FromBytesError,
        file_data_cols_canonical(row.cols()) ==> r is Ok,
{
    let path_bytes = crate::helpers::b64_to_bytes(row.path.as_str())?;
    proof {
        assert forall|t: Seq<char>| row.path@ == b64_of_text(t) implies path_bytes@
            == vstd::utf8::encode_utf8(t) && vstd::utf8::valid_utf8(path_bytes@) by {
            assert(path_bytes@ == vstd::utf8::encode_utf8(t));
            vstd::utf8::encode_utf8_valid_utf8(t);
        }
    }
    let path = crate::helpers::bytes_to_utf8(path_bytes.as_slice(), "path")?;
    proof {
        assert forall|t: Seq<char>| row.path@ == b64_of_text(t) implies path@ == t by {
            assert(path_bytes@ == vstd::utf8::encode_utf8(t));
            vstd::utf8::encode_utf8_decode_utf8(t);
        }
    }
    if path.as_str().is_empty() {
        return Err(Error::Utf8FromBytesError("path".to_owned()));
    }
    let filename_bytes = crate::helpers::b64_to_bytes(row.filename.as_str())?;
    proof {
        assert forall|t: Seq<char>| row.filename@ == b64_of_text(t) implies filename_bytes@
            == vstd::utf8::encode_utf8(t) && vstd::utf8::valid_utf8(filename_bytes@) by {
            assert(filename_bytes@ == vstd::utf8::encode_utf8(t));
            vstd::utf8::encode_utf8_valid_utf8(t);
        }
    }
    let filename = crate::helpers::bytes_to_utf8(filename_bytes.as_slice(), "filename")?;
    let owner_bytes = crate::helpers::b64_to_bytes(row.owner_username.as_str())?;
    proof {
        assert forall|t: Seq<char>| row.owner_username@ == b64_of_text(t) implies owner_bytes@
            == vstd::utf8::encode_utf8(t) && vstd::utf8::valid_utf8(owner_bytes@) by {
            assert(owner_bytes@ == vstd::utf8::encode_utf8(t));
            vstd::utf8::encode_utf8_valid_utf8(t);
        }
    }
    let owner_username = crate::helpers::bytes_to_utf8(owner_bytes.as_slice(), "owner_username")?;
    proof {
        assert forall|t: Seq<char>| row.owner_username@ == b64_of_text(t) implies owner_username@
            == t by {
            assert(owner_bytes@ == vstd::utf8::encode_utf8(t));
            vstd::utf8::encode_utf8_decode_utf8(t);
        }
    }
    if owner_username.as_str().is_empty() {
        return Err(Error::Utf8FromBytesError("owner_username".to_owned()));
    }
    let contents_nonce = crate::helpers::b64_to_fixed::<12>(
        row.contents_nonce.as_str(),
        "contents_nonce",
    )?;
    let file_data = FileData::from_fields(path, filename, owner_username, contents_nonce);
    proof {
        assert forall|t: Seq<char>| row.path@ == b64_of_text(t) implies file_data.path@ == t by {
            assert(path_bytes@ == vstd::utf8::encode_utf8(t));
            vstd::utf8::encode_utf8_decode_utf8(t);
        }
        assert forall|t: Seq<char>| row.owner_username@ == b64_of_text(t) implies file_data.owner_username@
            == t by {
            assert(owner_bytes@ == vstd::utf8::encode_utf8(t));
            vstd::utf8::encode_utf8_decode_utf8(t);
        }
        assert forall|f2: FileData| row.cols() == file_data_cols(f2) implies file_data_views_equal(
            file_data,
            f2,
        ) by {
            assert(row.path@ == b64_of_text(f2.path@));
            assert(path_bytes@ == vstd::utf8::encode_utf8(f2.path@));
            vstd::utf8::encode_utf8_decode_utf8(f2.path@);
            assert(row.filename@ == b64_of_text(f2.filename@));
            assert(filename_bytes@ == vstd::utf8::encode_utf8(f2.filename@));
            vstd::utf8::encode_utf8_decode_utf8(f2.filename@);
            assert(row.owner_username@ == b64_of_text(f2.owner_username@));
            assert(row.contents_nonce@ == b64_encode(f2.contents_nonce@));
        }
        vstd::utf8::decode_utf8_encode_utf8(path_bytes@);
        vstd::utf8::decode_utf8_encode_utf8(filename_bytes@);
        vstd::utf8::decode_utf8_encode_utf8(owner_bytes@);
        assert(file_data_cols(file_data) =~= row.cols());
    }
    Ok(file_data)
}

impl Database {
    /// Retrieve the account with the given username, or nothing when no
    /// such account exists. What comes back holds exactly the stored column
    /// values: any two accounts with the same stored form hold the same
    /// data.
    pub fn select_account(&self, username: &str) -> (r: Result<Option<Account>, Error>)
        requires
            self.wf(),
        ensures
            r matches Ok(Some(a)) ==> {
                &&& a.wf()
                &&& a.username@ == username@
                &&& self.accounts().contains_key(b64_of_text(username@))
                &&& self.accounts()[b64_of_text(username@)] == account_cols(a)
                &&& forall|a2: Account|
                    self.accounts()[b64_of_text(username@)] == account_cols(a2)
                        ==> account_views_equal(a, a2)
            },
            r matches Ok(None) ==> !self.accounts().contains_key(b64_of_text(username@)),
            r matches Err(e) ==> e is DatabaseError || e is InvalidB64Error
                || e is InvalidLengthB64Error || e is Utf8FromBytesError,
            r matches Err(e) ==> (!(e is DatabaseError) ==> self.accounts().contains_key(
                b64_of_text(username@),
            ) && !account_cols_canonical(self.accounts()[b64_of_text(username@)])),
    {
        let username_b64 = username.into_b64();
        let row = match self.query_account_row(Account::sql_select(), username_b64.as_str()) {
            Ok(Some(row)) => row,
            Ok(None) => return Ok(None),
            Err(()) => return Err(Error::DatabaseError),
        };
        let account = decode_account_row(&row)?;
        proof {
            assert(row.username@ == b64_of_text(username@));
            assert(account.username@ == username@);
        }
        Ok(Some(account))
    }

    /// Retrieve the credential with the given owner and sealed-name
    /// cipherbytes, or nothing when no such credential exists.
    pub fn select_credential(&self, owner_username: &str, name_cipherbytes: &[u8]) -> (r: Result<
        Option<Credential>,
        Error,
    >)
        requires
            self.wf(),
        ensures
            r matches Ok(Some(c)) ==> {
                &&& c.wf()
                &&& c.owner_username@ == owner_username@
                &&& c.encrypted_name.cipherbytes@ == name_cipherbytes@
                &&& self.credentials().contains_key(
                    (b64_of_text(owner_username@), b64_encode(name_cipherbytes@)),
                )
                &&& self.credentials()[(b64_of_text(owner_username@), b64_encode(
                    name_cipherbytes@,
                ))] == credential_cols(c)
                &&& forall|c2: Credential|
                    self.credentials()[(b64_of_text(owner_username@), b64_encode(
                        name_cipherbytes@,
                    ))] == credential_cols(c2) ==> credential_views_equal(c, c2)
            },
            r matches Ok(None) ==> !self.credentials().contains_key(
                (b64_of_text(owner_username@), b64_encode(name_cipherbytes@)),
            ),
            r matches Err(e) ==> e is DatabaseError || e is InvalidB64Error
                || e is InvalidLengthB64Error || e is Utf8FromBytesError,
            r matches Err(e) ==> (!(e is DatabaseError) ==> self.credentials().contains_key(
                (b64_of_text(owner_username@), b64_encode(name_cipherbytes@)),
            ) && !credential_cols_canonical(
                self.credentials()[(b64_of_text(owner_username@), b64_encode(name_cipherbytes@))],
            )),
    {
        let owner_b64 = owner_username.into_b64();
        let name_b64 = crate::helpers::bytes_to_b64(name_cipherbytes);
        let row = match self.query_credential_row(
            Credential::sql_select(),
            owner_b64.as_str(),
            name_b64.as_str(),
        ) {
            Ok(Some(row)) => row,
            Ok(None) => return Ok(None),
            Err(()) => return Err(Error::DatabaseError),
        };
        let credential = decode_credential_row(&row)?;
        proof {
            assert(row.owner_username@ == b64_of_text(owner_username@));
            assert(credential.owner_username@ == owner_username@);
            assert(row.encrypted_name_cipherbytes@ == b64_encode(name_cipherbytes@));
            assert(credential.encrypted_name.cipherbytes@ == name_cipherbytes@);
        }
        Ok(Some(credential))
    }

    /// Retrieve every credential owned by the given account: exactly the
    /// stored rows, decoded, each once.
    pub fn select_account_credentials(&self, owner_username: &str) -> (r: Result<
        Vec<Credential>,
        Error,
    >)
        requires
            self.wf(),
        ensures
            r matches Ok(v) ==> forall|i: int|
                0 <= i < v@.len() ==> {
                    &&& (#[trigger] v@[i]).wf()
                    &&& v@[i].owner_username@ == owner_username@
                    &&& self.credentials().contains_key(
                        (
                            b64_of_text(owner_username@),
                            b64_encode(v@[i].encrypted_name.cipherbytes@),
                        ),
                    )
                    &&& self.credentials()[(
                        b64_of_text(owner_username@),
                        b64_encode(v@[i].encrypted_name.cipherbytes@),
                    )] == credential_cols(v@[i])
                },
            r matches Ok(v) ==> forall|k: (Seq<char>, Seq<char>)|
                #[trigger] self.credentials().dom().contains(k) && k.0 == b64_of_text(
                    owner_username@,
                ) ==> exists|i: int|
                    0 <= i < v@.len() && b64_encode(
                        (#[trigger] v@[i]).encrypted_name.cipherbytes@,
                    ) == k.1,
            r matches Ok(v) ==> forall|i: int, j: int|
                0 <= i < v@.len() && 0 <= j < v@.len() && i != j ==> b64_encode(
                    (#[trigger] v@[i]).encrypted_name.cipherbytes@,
                ) != b64_encode((#[trigger] v@[j]).encrypted_name.cipherbytes@),
            r matches Ok(v) ==> forall|i: int, c2: Credential|
                0 <= i < v@.len() && #[trigger] credential_cols(c2) == #[trigger] credential_cols(
                    v@[i],
                ) ==> credential_views_equal(v@[i], c2),
            r matches Err(e) ==> e is DatabaseError || e is InvalidB64Error
                || e is InvalidLengthB64Error || e is Utf8FromBytesError,
            r matches Err(e) ==> (!(e is DatabaseError) ==> exists|k: (Seq<char>, Seq<char>)|
                #[trigger] self.credentials().dom().contains(k) && k.0 == b64_of_text(
                    owner_username@,
                ) && !credential_cols_canonical(self.credentials()[k])),
    {
        let owner_b64 = owner_username.into_b64();
        let rows = match self.query_credentials_owned(
            Credential::sql_select_owned(),
            owner_b64.as_str(),
        ) {
            Ok(rows) => rows,
            Err(()) => return Err(Error::DatabaseError),
        };
        let mut results: Vec<Credential> = Vec::new();
        let mut idx: usize = 0;
        while idx < rows.len()
            invariant
                self.wf(),
                owner_b64@ == b64_of_text(owner_username@),
                0 <= idx <= rows@.len(),
                results@.len() == idx,
                forall|i: int|
                    0 <= i < rows@.len() ==> {
                        &&& (#[trigger] rows@[i]).owner_username@ == owner_b64@
                        &&& self.credentials().contains_key(
                            (owner_b64@, rows@[i].encrypted_name_cipherbytes@),
                        )
                        &&& rows@[i].cols() == self.credentials()[(
                            owner_b64@,
                            rows@[i].encrypted_name_cipherbytes@,
                        )]
                    },
                forall|i: int|
                    0 <= i < idx ==> {
                        &&& (#[trigger] results@[i]).wf()
                        &&& results@[i].owner_username@ == owner_username@
                        &&& credential_cols(results@[i]) == rows@[i].cols()
                        &&& b64_encode(results@[i].encrypted_name.cipherbytes@) == rows@[
                            i
                        ].encrypted_name_cipherbytes@
                    },
                forall|i: int, c2: Credential|
                    0 <= i < idx && #[trigger] credential_cols(c2) == #[trigger] credential_cols(
                        results@[i],
                    ) ==> credential_views_equal(results@[i], c2),
            decreases rows@.len() - idx,
        {
            let credential = match decode_credential_row(&rows[idx]) {
                Ok(credential) => credential,
                Err(e) => {
                    proof {
                        assert(self.credentials().dom().contains(
                            (owner_b64@, rows@[idx as int].encrypted_name_cipherbytes@),
                        ));
                    }
                    return Err(e);
                },
            };
            proof {
                assert(credential.owner_username@ == owner_username@);
            }
            results.push(credential);
            idx = idx + 1;
        }
        proof {
            assert forall|k: (Seq<char>, Seq<char>)|
                #[trigger] self.credentials().dom().contains(k) && k.0 == b64_of_text(
                    owner_username@,
                ) implies exists|i: int|
                0 <= i < results@.len() && b64_encode(
                    (#[trigger] results@[i]).encrypted_name.cipherbytes@,
                ) == k.1 by {
                let i = choose|i: int|
                    0 <= i < rows@.len() && (#[trigger] rows@[i]).encrypted_name_cipherbytes@
                        == k.1;
                assert(b64_encode(results@[i].encrypted_name.cipherbytes@) == k.1);
            }
        }
        Ok(results)
    }

    /// Retrieve the files-data record with the given path, or nothing when
    /// no such record exists.
    pub fn select_file_data(&self, path: &str) -> (r: Result<Option<FileData>, Error>)
        requires
            self.wf(),
        ensures
            r matches Ok(Some(f)) ==> {
                &&& f.wf()
                &&& f.path@ == path@
                &&& self.files().contains_key(b64_of_text(path@))
                &&& self.files()[b64_of_text(path@)] == file_data_cols(f)
                &&& forall|f2: FileData|
                    self.files()[b64_of_text(path@)] == file_data_cols(f2)
                        ==> file_data_views_equal(f, f2)
            },
            r matches Ok(None) ==> !self.files().contains_key(b64_of_text(path@)),
            r matches Err(e) ==> e is DatabaseError || e is InvalidB64Error
                || e is InvalidLengthB64Error || e is Utf8FromBytesError,
            r matches Err(e) ==> (!(e is DatabaseError) ==> self.files().contains_key(
                b64_of_text(path@),
            ) && !file_data_cols_canonical(self.files()[b64_of_text(path@)])),
    {
        let path_b64 = path.into_b64();
        let row = match self.query_file_data_row(FileData::sql_select(), path_b64.as_str()) {
            Ok(Some(row)) => row,
            Ok(None) => return Ok(None),
            Err(()) => return Err(Error::DatabaseError),
        };
        let file_data = decode_file_data_row(&row)?;
        proof {
            assert(row.path@ == b64_of_text(path@));
            assert(file_data.path@ == path@);
        }
        Ok(Some(file_data))
    }

    /// Retrieve every stored account: exactly the stored rows, decoded, each
    /// once.
    pub fn select_all_accounts(&self) -> (r: Result<Vec<Account>, Error>)
        requires
            self.wf(),
        ensures
            r matches Ok(v) ==> forall|i: int|
                0 <= i < v@.len() ==> {
                    &&& (#[trigger] v@[i]).wf()
                    &&& self.accounts().contains_key(account_key(v@[i]))
                    &&& self.accounts()[account_key(v@[i])] == account_cols(v@[i])
                },
            r matches Ok(v) ==> accounts_listing_complete(self.accounts(), v@),
    {
        let rows = match self.query_all_accounts(Account::sql_select_all()) {
            Ok(rows) => rows,
            Err(()) => return Err(Error::DatabaseError),
        };
        let mut results: Vec<Account> = Vec::new();
        let mut idx: usize = 0;
        while idx < rows.len()
            invariant
                self.wf(),
                0 <= idx <= rows@.len(),
                results@.len() == idx,
                forall|i: int|
                    0 <= i < rows@.len() ==> {
                        &&& self.accounts().contains_key((#[trigger] rows@[i]).username@)
                        &&& rows@[i].cols() == self.accounts()[rows@[i].username@]
                    },
                forall|i: int|
                    0 <= i < idx ==> {
                        &&& (#[trigger] results@[i]).wf()
                        &&& account_cols(results@[i]) == rows@[i].cols()
                        &&& account_key(results@[i]) == rows@[i].username@
                    },
            decreases rows@.len() - idx,
        {
            let account = decode_account_row(&rows[idx])?;
            proof {
                assert(account_key(account) == rows@[idx as int].username@);
            }
            results.push(account);
            idx = idx + 1;
        }
        proof {
            assert forall|k: Seq<char>| #[trigger] self.accounts().dom().contains(k) implies exists|i: int|
                0 <= i < results@.len() && account_key(#[trigger] results@[i]) == k by {
                let i = choose|i: int|
                    0 <= i < rows@.len() && (#[trigger] rows@[i]).username@ == k;
                assert(account_key(results@[i]) == k);
            }
            assert(accounts_listing_complete(self.accounts(), results@));
        }
        Ok(results)
    }

    /// Retrieve every stored files-data record: exactly the stored rows,
    /// decoded, each once.
    pub fn select_all_files_data(&self) -> (r: Result<Vec<FileData>, Error>)
        requires
            self.wf(),
        ensures
            r matches Ok(v) ==> forall|i: int|
                0 <= i < v@.len() ==> {
                    &&& (#[trigger] v@[i]).wf()
                    &&& self.files().contains_key(b64_of_text(v@[i].path@))
                    &&& self.files()[b64_of_text(v@[i].path@)] == file_data_cols(v@[i])
                },
            r matches Ok(v) ==> all_files_listing_complete(self.files(), v@),
    {
        let rows = match self.query_all_files(FileData::sql_select_all()) {
            Ok(rows) => rows,
            Err(()) => return Err(Error::DatabaseError),
        };
        let mut results: Vec<FileData> = Vec::new();
        let mut idx: usize = 0;
        while idx < rows.len()
            invariant
                self.wf(),
                0 <= idx <= rows@.len(),
                results@.len() == idx,
                forall|i: int|
                    0 <= i < rows@.len() ==> {
                        &&& self.files().contains_key((#[trigger] rows@[i]).path@)
                        &&& rows@[i].cols() == self.files()[rows@[i].path@]
                    },
                forall|i: int|
                    0 <= i < idx ==> {
                        &&& (#[trigger] results@[i]).wf()
                        &&& file_data_cols(results@[i]) == rows@[i].cols()
                        &&& b64_of_text(results@[i].path@) == rows@[i].path@
                    },
            decreases rows@.len() - idx,
        {
            let file_data = decode_file_data_row(&rows[idx])?;
            proof {
                assert(b64_of_text(file_data.path@) == rows@[idx as int].path@);
            }
            results.push(file_data);
            idx = idx + 1;
        }
        proof {
            assert forall|k: Seq<char>| #[trigger] self.files().dom().contains(k) implies exists|i: int|
                0 <= i < results@.len() && b64_of_text((#[trigger] results@[i]).path@) == k by {
                let i = choose|i: int| 0 <= i < rows@.len() && (#[trigger] rows@[i]).path@ == k;
                assert(b64_of_text(results@[i].path@) == k);
            }
            assert(all_files_listing_complete(self.files(), results@));
        }
        Ok(results)
    }

    /// Retrieve every files-data record owned by the given account: exactly
    /// the stored rows, decoded, each once.
    #[verifier::rlimit(50)]
    pub fn select_account_files_data(&self, owner_username: &str) -> (r: Result<
        Vec<FileData>,
        Error,
    >)
        requires
            self.wf(),
        ensures
            r matches Ok(v) ==> forall|i: int|
                0 <= i < v@.len() ==> {
                    &&& (#[trigger] v@[i]).wf()
                    &&& v@[i].owner_username@ == owner_username@
                    &&& self.files().contains_key(b64_of_text(v@[i].path@))
                    &&& self.files()[b64_of_text(v@[i].path@)] == file_data_cols(v@[i])
                },
            r matches Ok(v) ==> files_listing_complete(self.files(), owner_username@, v@),
            r matches Ok(v) ==> forall|i: int, j: int|
                0 <= i < v@.len() && 0 <= j < v@.len() && i != j ==> b64_of_text(
                    (#[trigger] v@[i]).path@,
                ) != b64_of_text((#[trigger] v@[j]).path@),
            r matches Err(e) ==> e is DatabaseError || e is InvalidB64Error
                || e is InvalidLengthB64Error || e is Utf8FromBytesError,
            r matches Err(e) ==> (!(e is DatabaseError) ==> exists|k: Seq<char>|
                #[trigger] self.files().dom().contains(k) && !file_data_cols_canonical(
                    self.files()[k],
                )),
    {
        let owner_b64 = owner_username.into_b64();
        let rows = match self.query_files_owned(
            FileData::sql_select_owned(),
            owner_b64.as_str(),
        ) {
            Ok(rows) => rows,
            Err(()) => return Err(Error::DatabaseError),
        };
        let mut results: Vec<FileData> = Vec::new();
        let mut idx: usize = 0;
        while idx < rows.len()
            invariant
                self.wf(),
                owner_b64@ == b64_of_text(owner_username@),
                0 <= idx <= rows@.len(),
                results@.len() == idx,
                forall|i: int|
                    0 <= i < rows@.len() ==> {
                        &&& (#[trigger] rows@[i]).owner_username@ == owner_b64@
                        &&& self.files().contains_key(rows@[i].path@)
                        &&& rows@[i].cols() == self.files()[rows@[i].path@]
                    },
                forall|i: int|
                    0 <= i < idx ==> {
                        &&& (#[trigger] results@[i]).wf()
                        &&& results@[i].owner_username@ == owner_username@
                        &&& file_data_cols(results@[i]) == rows@[i].cols()
                        &&& b64_of_text(results@[i].path@) == rows@[i].path@
                    },
            decreases rows@.len() - idx,
        {
            let file_data = match decode_file_data_row(&rows[idx]) {
                Ok(file_data) => file_data,
                Err(e) => {
                    proof {
                        assert(self.files().dom().contains(rows@[idx as int].path@));
                    }
                    return Err(e);
                },
            };
            proof {
                assert(file_data.owner_username@ == owner_username@);
                assert(b64_of_text(file_data.path@) == rows@[idx as int].path@);
            }
            results.push(file_data);
            idx = idx + 1;
        }
        proof {
            assert forall|k: Seq<char>|
                #[trigger] self.files().dom().contains(k) && self.files()[k].owner_username
                    == b64_of_text(owner_username@) implies exists|i: int|
                0 <= i < results@.len() && b64_of_text((#[trigger] results@[i]).path@) == k by {
                let i = choose|i: int| 0 <= i < rows@.len() && (#[trigger] rows@[i]).path@ == k;
                assert(b64_of_text(results@[i].path@) == k);
            }
            assert(files_listing_complete(self.files(), owner_username@, results@));
        }
        Ok(results)
    }
}


} // verus!
