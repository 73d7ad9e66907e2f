//! How the entity types are converted to and from the base 64 text rows that
//! the metadata store holds, and which SQL statement serves each operation.
use vstd::prelude::*;

use crate::account::Account;
use crate::credential::Credential;
use crate::file_data::FileData;
use crate::helpers::{b64_encode, bytes_to_b64};
use crate::sql_statements::{
    DELETE_ACCOUNT, DELETE_CREDENTIAL, DELETE_FILE_DATA, INSERT_ACCOUNT, INSERT_CREDENTIAL,
    INSERT_FILE_DATA, SELECT_ACCOUNT, SELECT_ACCOUNT_CREDENTIALS, SELECT_ACCOUNT_FILES_DATA,
    SELECT_ALL_ACCOUNTS, SELECT_ALL_CREDENTIALS, SELECT_ALL_FILES_DATA,
    SELECT_CREDENTIAL, SELECT_FILE_DATA, UPDATE_ACCOUNT_DBL_HASHED_PASSWORD_HASH,
    UPDATE_ACCOUNT_DBL_HASHED_PASSWORD_SALT, UPDATE_ACCOUNT_ENCRYPTED_KEY_CIPHERBYTES,
    UPDATE_ACCOUNT_ENCRYPTED_KEY_NONCE, UPDATE_ACCOUNT_PASSWORD_SALT,
    UPDATE_CREDENTIAL_ENCRYPTED_NOTES_CIPHERBYTES, UPDATE_CREDENTIAL_ENCRYPTED_NOTES_NONCE,
    UPDATE_CREDENTIAL_ENCRYPTED_PASSWORD_CIPHERBYTES, UPDATE_CREDENTIAL_ENCRYPTED_PASSWORD_NONCE,
    UPDATE_CREDENTIAL_ENCRYPTED_USERNAME_CIPHERBYTES, UPDATE_CREDENTIAL_ENCRYPTED_USERNAME_NONCE,
    UPDATE_FILE_DATA_CONTENTS_NONCE,
};
use vstd::utf8::encode_utf8;

verus! {

/// The base 64 encoding of a piece of UTF-8 text, as the database stores it.
pub open spec fn b64_of_text(text: Seq<char>) -> Seq<char> {
    b64_encode(encode_utf8(text))
}

/// Implementors of this trait can be converted to a base 64 encoded string
/// for storage in the database.
pub trait IntoB64 {
    /// The bytes whose encoding the conversion returns.
    spec fn b64_source(&self) -> Seq<u8>;

    /// Convert to a base 64 string.
    fn into_b64(self) -> (r: String)
        ensures
            r@ == b64_encode(self.b64_source()),
    ;
}

impl IntoB64 for &Vec<u8> {
    open spec fn b64_source(&self) -> Seq<u8> {
        (*self)@
    }

    fn into_b64(self) -> (r: String) {
        bytes_to_b64(self.as_slice())
    }
}

impl IntoB64 for &[u8] {
    open spec fn b64_source(&self) -> Seq<u8> {
        (*self)@
    }

    fn into_b64(self) -> (r: String) {
        bytes_to_b64(self)
    }
}

impl IntoB64 for &str {
    open spec fn b64_source(&self) -> Seq<u8> {
        encode_utf8((*self)@)
    }

    fn into_b64(self) -> (r: String) {
        bytes_to_b64(self.as_bytes())
    }
}

/// The column values of one `accounts` row, as the store holds them: all
/// base 64 text.
#[verifier::ext_equal]
pub struct AccountCols {
    /// Base 64 of the UTF-8 username.
    pub username: Seq<char>,
    /// Base 64 of the 64-byte password salt.
    pub password_salt: Seq<char>,
    /// Base 64 of the 32-byte double-hashed password hash.
    pub dbl_hashed_password_hash: Seq<char>,
    /// Base 64 of the 64-byte double-hashed password salt.
    pub dbl_hashed_password_salt: Seq<char>,
    /// Base 64 of the sealed-key cipherbytes.
    pub encrypted_key_cipherbytes: Seq<char>,
    /// Base 64 of the sealed-key 12-byte nonce.
    pub encrypted_key_nonce: Seq<char>,
}

/// The column values of one `credentials` row.
#[verifier::ext_equal]
pub struct CredentialCols {
    /// Base 64 of the UTF-8 owner username.
    pub owner_username: Seq<char>,
    /// Base 64 of the encrypted-name cipherbytes (key component).
    pub encrypted_name_cipherbytes: Seq<char>,
    /// Base 64 of the encrypted-name nonce.
    pub encrypted_name_nonce: Seq<char>,
    /// Base 64 of the encrypted-username cipherbytes.
    pub encrypted_username_cipherbytes: Seq<char>,
    /// Base 64 of the encrypted-username nonce.
    pub encrypted_username_nonce: Seq<char>,
    /// Base 64 of the encrypted-password cipherbytes.
    pub encrypted_password_cipherbytes: Seq<char>,
    /// Base 64 of the encrypted-password nonce.
    pub encrypted_password_nonce: Seq<char>,
    /// Base 64 of the encrypted-notes cipherbytes.
    pub encrypted_notes_cipherbytes: Seq<char>,
    /// Base 64 of the encrypted-notes nonce.
    pub encrypted_notes_nonce: Seq<char>,
}

/// The column values of one `files_data` row.
#[verifier::ext_equal]
pub struct FileDataCols {
    /// Base 64 of the UTF-8 blob path.
    pub path: Seq<char>,
    /// Base 64 of the UTF-8 leaf filename.
    pub filename: Seq<char>,
    /// Base 64 of the UTF-8 owner username.
    pub owner_username: Seq<char>,
    /// Base 64 of the 12-byte contents nonce.
    pub contents_nonce: Seq<char>,
}

/// The stored form of an [`Account`].
pub open spec fn account_cols(a: Account) -> AccountCols {
    AccountCols {
        username: b64_of_text(a.username@),
        password_salt: b64_encode(a.password_salt@),
        dbl_hashed_password_hash: b64_encode(a.dbl_hashed_password.hash@),
        dbl_hashed_password_salt: b64_encode(a.dbl_hashed_password.salt@),
        encrypted_key_cipherbytes: b64_encode(a.encrypted_key.cipherbytes@),
        encrypted_key_nonce: b64_encode(a.encrypted_key.nonce@),
    }
}

/// The stored form of a [`Credential`].
pub open spec fn credential_cols(c: Credential) -> CredentialCols {
    CredentialCols {
        owner_username: b64_of_text(c.owner_username@),
        encrypted_name_cipherbytes: b64_encode(c.encrypted_name.cipherbytes@),
        encrypted_name_nonce: b64_encode(c.encrypted_name.nonce@),
        encrypted_username_cipherbytes: b64_encode(c.encrypted_username.cipherbytes@),
        encrypted_username_nonce: b64_encode(c.encrypted_username.nonce@),
        encrypted_password_cipherbytes: b64_encode(c.encrypted_password.cipherbytes@),
        encrypted_password_nonce: b64_encode(c.encrypted_password.nonce@),
        encrypted_notes_cipherbytes: b64_encode(c.encrypted_notes.cipherbytes@),
        encrypted_notes_nonce: b64_encode(c.encrypted_notes.nonce@),
    }
}

/// The stored form of a [`FileData`].
pub open spec fn file_data_cols(f: FileData) -> FileDataCols {
    FileDataCols {
        path: b64_of_text(f.path@),
        filename: b64_of_text(f.filename@),
        owner_username: b64_of_text(f.owner_username@),
        contents_nonce: b64_encode(f.contents_nonce@),
    }
}

/// The column values of an account row are the canonical encodings the
/// store itself writes: a non-empty UTF-8 username, salts and hash of the
/// protocol lengths, and a 12-byte nonce. Decoding such a row always
/// succeeds.
pub open spec fn account_cols_canonical(c: AccountCols) -> bool {
    &&& exists|t: Seq<char>| c.username == b64_of_text(t) && t.len() > 0
    &&& exists|u: Seq<u8>| c.password_salt == b64_encode(u) && u.len() == 64
    &&& exists|u: Seq<u8>| c.dbl_hashed_password_hash == b64_encode(u) && u.len() == 32
    &&& exists|u: Seq<u8>| c.dbl_hashed_password_salt == b64_encode(u) && u.len() == 64
    &&& exists|u: Seq<u8>| c.encrypted_key_cipherbytes == b64_encode(u)
    &&& exists|u: Seq<u8>| c.encrypted_key_nonce == b64_encode(u) && u.len() == 12
}

/// The column values of a credential row are the canonical encodings the
/// store itself writes: a non-empty UTF-8 owner and four sealed pairs with
/// 12-byte nonces. Decoding such a row always succeeds.
pub open spec fn credential_cols_canonical(c: CredentialCols) -> bool {
    &&& exists|t: Seq<char>| c.owner_username == b64_of_text(t) && t.len() > 0
    &&& exists|u: Seq<u8>| c.encrypted_name_cipherbytes == b64_encode(u)
    &&& exists|u: Seq<u8>| c.encrypted_name_nonce == b64_encode(u) && u.len() == 12
    &&& exists|u: Seq<u8>| c.encrypted_username_cipherbytes == b64_encode(u)
    &&& exists|u: Seq<u8>| c.encrypted_username_nonce == b64_encode(u) && u.len() == 12
    &&& exists|u: Seq<u8>| c.encrypted_password_cipherbytes == b64_encode(u)
    &&& exists|u: Seq<u8>| c.encrypted_password_nonce == b64_encode(u) && u.len() == 12
    &&& exists|u: Seq<u8>| c.encrypted_notes_cipherbytes == b64_encode(u)
    &&& exists|u: Seq<u8>| c.encrypted_notes_nonce == b64_encode(u) && u.len() == 12
}

/// The column values of a files-data row are the canonical encodings the
/// store itself writes: non-empty UTF-8 path and owner, a UTF-8 filename,
/// and a 12-byte nonce. Decoding such a row always succeeds.
pub open spec fn file_data_cols_canonical(c: FileDataCols) -> bool {
    &&& exists|t: Seq<char>| c.path == b64_of_text(t) && t.len() > 0
    &&& exists|t: Seq<char>| c.filename == b64_of_text(t)
    &&& exists|t: Seq<char>| c.owner_username == b64_of_text(t) && t.len() > 0
    &&& exists|u: Seq<u8>| c.contents_nonce == b64_encode(u) && u.len() == 12
}

/// The stored form of a well-formed account is canonical: selecting a row
/// this library wrote always decodes.
pub proof fn lemma_account_cols_canonical(a: Account)
    requires
        a.wf(),
    ensures
        account_cols_canonical(account_cols(a)),
{
    assert(account_cols(a).username == b64_of_text(a.username@));
    assert(account_cols(a).password_salt == b64_encode(a.password_salt@));
    assert(account_cols(a).dbl_hashed_password_hash == b64_encode(a.dbl_hashed_password.hash@));
    assert(account_cols(a).dbl_hashed_password_salt == b64_encode(a.dbl_hashed_password.salt@));
    assert(account_cols(a).encrypted_key_cipherbytes == b64_encode(a.encrypted_key.cipherbytes@));
    assert(account_cols(a).encrypted_key_nonce == b64_encode(a.encrypted_key.nonce@));
}

/// The stored form of a well-formed credential is canonical.
pub proof fn lemma_credential_cols_canonical(c: Credential)
    requires
        c.wf(),
    ensures
        credential_cols_canonical(credential_cols(c)),
{
    assert(credential_cols(c).owner_username == b64_of_text(c.owner_username@));
    assert(credential_cols(c).encrypted_name_cipherbytes == b64_encode(
        c.encrypted_name.cipherbytes@,
    ));
    assert(credential_cols(c).encrypted_name_nonce == b64_encode(c.encrypted_name.nonce@));
    assert(credential_cols(c).encrypted_username_cipherbytes == b64_encode(
        c.encrypted_username.cipherbytes@,
    ));
    assert(credential_cols(c).encrypted_username_nonce == b64_encode(c.encrypted_username.nonce@));
    assert(credential_cols(c).encrypted_password_cipherbytes == b64_encode(
        c.encrypted_password.cipherbytes@,
    ));
    assert(credential_cols(c).encrypted_password_nonce == b64_encode(c.encrypted_password.nonce@));
    assert(credential_cols(c).encrypted_notes_cipherbytes == b64_encode(
        c.encrypted_notes.cipherbytes@,
    ));
    assert(credential_cols(c).encrypted_notes_nonce == b64_encode(c.encrypted_notes.nonce@));
}

/// The stored form of a well-formed files-data record is canonical.
pub proof fn lemma_file_data_cols_canonical(f: FileData)
    requires
        f.wf(),
    ensures
        file_data_cols_canonical(file_data_cols(f)),
{
    assert(file_data_cols(f).path == b64_of_text(f.path@));
    assert(file_data_cols(f).filename == b64_of_text(f.filename@));
    assert(file_data_cols(f).owner_username == b64_of_text(f.owner_username@));
    assert(file_data_cols(f).contents_nonce == b64_encode(f.contents_nonce@));
}

/// Two accounts hold the same data, field by field.
pub open spec fn account_views_equal(a1: Account, a2: Account) -> bool {
    &&& a1.username@ == a2.username@
    &&& a1.password_salt@ == a2.password_salt@
    &&& a1.dbl_hashed_password.hash@ == a2.dbl_hashed_password.hash@
    &&& a1.dbl_hashed_password.salt@ == a2.dbl_hashed_password.salt@
    &&& a1.encrypted_key.cipherbytes@ == a2.encrypted_key.cipherbytes@
    &&& a1.encrypted_key.nonce@ == a2.encrypted_key.nonce@
}

/// Two credentials hold the same data, field by field.
pub open spec fn credential_views_equal(c1: Credential, c2: Credential) -> bool {
    &&& c1.owner_username@ == c2.owner_username@
    &&& c1.encrypted_name.cipherbytes@ == c2.encrypted_name.cipherbytes@
    &&& c1.encrypted_name.nonce@ == c2.encrypted_name.nonce@
    &&& c1.encrypted_username.cipherbytes@ == c2.encrypted_username.cipherbytes@
    &&& c1.encrypted_username.nonce@ == c2.encrypted_username.nonce@
    &&& c1.encrypted_password.cipherbytes@ == c2.encrypted_password.cipherbytes@
    &&& c1.encrypted_password.nonce@ == c2.encrypted_password.nonce@
    &&& c1.encrypted_notes.cipherbytes@ == c2.encrypted_notes.cipherbytes@
    &&& c1.encrypted_notes.nonce@ == c2.encrypted_notes.nonce@
}

/// Two file-data records hold the same data, field by field.
pub open spec fn file_data_views_equal(f1: FileData, f2: FileData) -> bool {
    &&& f1.path@ == f2.path@
    &&& f1.filename@ == f2.filename@
    &&& f1.owner_username@ == f2.owner_username@
    &&& f1.contents_nonce@ == f2.contents_nonce@
}

/// One `accounts` row in executable form: the six base 64 strings.
pub struct AccountRow {
    /// Base 64 of the username (primary key).
    pub username: String,
    /// Base 64 of the password salt.
    pub password_salt: String,
    /// Base 64 of the double-hashed password hash.
    pub dbl_hashed_password_hash: String,
    /// Base 64 of the double-hashed password salt.
    pub dbl_hashed_password_salt: String,
    /// Base 64 of the sealed-key cipherbytes.
    pub encrypted_key_cipherbytes: String,
    /// Base 64 of the sealed-key nonce.
    pub encrypted_key_nonce: String,
}

impl AccountRow {
    /// The column values this row holds.
    pub open spec fn cols(&self) -> AccountCols {
        AccountCols {
            username: self.username@,
            password_salt: self.password_salt@,
            dbl_hashed_password_hash: self.dbl_hashed_password_hash@,
            dbl_hashed_password_salt: self.dbl_hashed_password_salt@,
            encrypted_key_cipherbytes: self.encrypted_key_cipherbytes@,
            encrypted_key_nonce: self.encrypted_key_nonce@,
        }
    }
}

/// One `credentials` row in executable form: the nine base 64 strings.
pub struct CredentialRow {
    /// Base 64 of the owner username (key component).
    pub owner_username: String,
    /// Base 64 of the encrypted-name cipherbytes (key component).
    pub encrypted_name_cipherbytes: String,
    /// Base 64 of the encrypted-name nonce.
    pub encrypted_name_nonce: String,
    /// Base 64 of the encrypted-username cipherbytes.
    pub encrypted_username_cipherbytes: String,
    /// Base 64 of the encrypted-username nonce.
    pub encrypted_username_nonce: String,
    /// Base 64 of the encrypted-password cipherbytes.
    pub encrypted_password_cipherbytes: String,
    /// Base 64 of the encrypted-password nonce.
    pub encrypted_password_nonce: String,
    /// Base 64 of the encrypted-notes cipherbytes.
    pub encrypted_notes_cipherbytes: String,
    /// Base 64 of the encrypted-notes nonce.
    pub encrypted_notes_nonce: String,
}

impl CredentialRow {
    /// The column values this row holds.
    pub open spec fn cols(&self) -> CredentialCols {
        CredentialCols {
            owner_username: self.owner_username@,
            encrypted_name_cipherbytes: self.encrypted_name_cipherbytes@,
            encrypted_name_nonce: self.encrypted_name_nonce@,
            encrypted_username_cipherbytes: self.encrypted_username_cipherbytes@,
            encrypted_username_nonce: self.encrypted_username_nonce@,
            encrypted_password_cipherbytes: self.encrypted_password_cipherbytes@,
            encrypted_password_nonce: self.encrypted_password_nonce@,
            encrypted_notes_cipherbytes: self.encrypted_notes_cipherbytes@,
            encrypted_notes_nonce: self.encrypted_notes_nonce@,
        }
    }
}

/// One `files_data` row in executable form: the four base 64 strings.
pub struct FileDataRow {
    /// Base 64 of the path (primary key).
    pub path: String,
    /// Base 64 of the filename.
    pub filename: String,
    /// Base 64 of the owner username.
    pub owner_username: String,
    /// Base 64 of the contents nonce.
    pub contents_nonce: String,
}

impl FileDataRow {
    /// The column values this row holds.
    pub open spec fn cols(&self) -> FileDataCols {
        FileDataCols {
            path: self.path@,
            filename: self.filename@,
            owner_username: self.owner_username@,
            contents_nonce: self.contents_nonce@,
        }
    }
}

/// This trait defines how an entity is converted into the base 64 encoded
/// strings the database stores.
pub trait IntoDatabase {
    /// The row type the conversion produces.
    type FixedSizeStringArray;

    /// Convert into the database storage format.
    fn into_database(self) -> Self::FixedSizeStringArray;
}

impl IntoDatabase for Account {
    type FixedSizeStringArray = AccountRow;

    fn into_database(self) -> (r: AccountRow)
        ensures
            r.cols() == account_cols(self),
    {
        AccountRow {
            username: self.username.as_str().into_b64(),
            password_salt: (&self.password_salt).into_b64(),
            dbl_hashed_password_hash: (&self.dbl_hashed_password.hash).into_b64(),
            dbl_hashed_password_salt: (&self.dbl_hashed_password.salt).into_b64(),
            encrypted_key_cipherbytes: (&self.encrypted_key.cipherbytes).into_b64(),
            encrypted_key_nonce: (&self.encrypted_key.nonce).into_b64(),
        }
    }
}

impl IntoDatabase for Credential {
    type FixedSizeStringArray = CredentialRow;

    fn into_database(self) -> (r: CredentialRow)
        ensures
            r.cols() == credential_cols(self),
    {
        CredentialRow {
            owner_username: self.owner_username.as_str().into_b64(),
            encrypted_name_cipherbytes: (&self.encrypted_name.cipherbytes).into_b64(),
            encrypted_name_nonce: (&self.encrypted_name.nonce).into_b64(),
            encrypted_username_cipherbytes: (&self.encrypted_username.cipherbytes).into_b64(),
            encrypted_username_nonce: (&self.encrypted_username.nonce).into_b64(),
            encrypted_password_cipherbytes: (&self.encrypted_password.cipherbytes).into_b64(),
            encrypted_password_nonce: (&self.encrypted_password.nonce).into_b64(),
            encrypted_notes_cipherbytes: (&self.encrypted_notes.cipherbytes).into_b64(),
            encrypted_notes_nonce: (&self.encrypted_notes.nonce).into_b64(),
        }
    }
}

impl IntoDatabase for FileData {
    type FixedSizeStringArray = FileDataRow;

    fn into_database(self) -> (r: FileDataRow)
        ensures
            r.cols() == file_data_cols(self),
    {
        FileDataRow {
            path: self.path.as_str().into_b64(),
            filename: self.filename.as_str().into_b64(),
            owner_username: self.owner_username.as_str().into_b64(),
            contents_nonce: (&self.contents_nonce).into_b64(),
        }
    }
}

/// All the fields of account rows that may be updated.
pub enum AccountUpdateField {
    /// The password salt column.
    PasswordSalt,
    /// The double-hashed password hash column.
    DblHashedPasswordHash,
    /// The double-hashed password salt column.
    DblHashedPasswordSalt,
    /// The sealed-key cipherbytes column.
    EncryptedKeyCipherbytes,
    /// The sealed-key nonce column.
    EncryptedKeyNonce,
}

/// All the fields of credential rows that may be updated.
pub enum CredentialUpdateField {
    /// The encrypted-username cipherbytes column.
    UsernameCipherbytes,
    /// The encrypted-username nonce column.
    UsernameNonce,
    /// The encrypted-password cipherbytes column.
    PasswordCipherbytes,
    /// The encrypted-password nonce column.
    PasswordNonce,
    /// The encrypted-notes cipherbytes column.
    NotesCipherbytes,
    /// The encrypted-notes nonce column.
    NotesNonce,
}

/// All the fields of files-data rows that may be updated.
pub enum FileDataUpdateField {
    /// The contents-nonce column.
    ContentsNonce,
}

/// The result of replacing one updatable column of an account row.
pub open spec fn account_cols_update(
    cols: AccountCols,
    field: AccountUpdateField,
    value: Seq<char>,
) -> AccountCols {
    match field {
        AccountUpdateField::PasswordSalt => (AccountCols { password_salt: value, ..cols }),
        AccountUpdateField::DblHashedPasswordHash => (
        AccountCols { dbl_hashed_password_hash: value, ..cols }),
        AccountUpdateField::DblHashedPasswordSalt => (
        AccountCols { dbl_hashed_password_salt: value, ..cols }),
        AccountUpdateField::EncryptedKeyCipherbytes => (
        AccountCols { encrypted_key_cipherbytes: value, ..cols }),
        AccountUpdateField::EncryptedKeyNonce => (
        AccountCols { encrypted_key_nonce: value, ..cols }),
    }
}

/// The result of replacing one updatable column of a credential row.
pub open spec fn credential_cols_update(
    cols: CredentialCols,
    field: CredentialUpdateField,
    value: Seq<char>,
) -> CredentialCols {
    match field {
        CredentialUpdateField::UsernameCipherbytes => (
        CredentialCols { encrypted_username_cipherbytes: value, ..cols }),
        CredentialUpdateField::UsernameNonce => (
        CredentialCols { encrypted_username_nonce: value, ..cols }),
        CredentialUpdateField::PasswordCipherbytes => (
        CredentialCols { encrypted_password_cipherbytes: value, ..cols }),
        CredentialUpdateField::PasswordNonce => (
        CredentialCols { encrypted_password_nonce: value, ..cols }),
        CredentialUpdateField::NotesCipherbytes => (
        CredentialCols { encrypted_notes_cipherbytes: value, ..cols }),
        CredentialUpdateField::NotesNonce => (
        CredentialCols { encrypted_notes_nonce: value, ..cols }),
    }
}

/// The result of replacing one updatable column of a files-data row.
pub open spec fn file_data_cols_update(
    cols: FileDataCols,
    field: FileDataUpdateField,
    value: Seq<char>,
) -> FileDataCols {
    match field {
        FileDataUpdateField::ContentsNonce => (FileDataCols { contents_nonce: value, ..cols }),
    }
}

/// Implementors of this trait have a set of basic, core SQL statements.
pub trait HasSqlStatements {
    /// The enum naming the updatable fields of this entity.
    type UpdateField;

    /// The SQL statement that inserts an entry of this type.
    fn sql_insert() -> &'static str;

    /// The SQL statement that deletes an entry of this type.
    fn sql_delete() -> &'static str;

    /// The SQL statement that selects an entry of this type.
    fn sql_select() -> &'static str;

    /// The SQL statement that selects all entries of this type.
    fn sql_select_all() -> &'static str;

    /// The SQL statement that updates the given field of an entry of this
    /// type.
    fn sql_update(field: Self::UpdateField) -> &'static str;
}

impl HasSqlStatements for Account {
    type UpdateField = AccountUpdateField;

    fn sql_insert() -> (r: &'static str)
        ensures
            r@ == INSERT_ACCOUNT@,
    {
        INSERT_ACCOUNT
    }

    fn sql_delete() -> (r: &'static str)
        ensures
            r@ == DELETE_ACCOUNT@,
    {
        DELETE_ACCOUNT
    }

    fn sql_select() -> (r: &'static str)
        ensures
            r@ == SELECT_ACCOUNT@,
    {
        SELECT_ACCOUNT
    }

    fn sql_select_all() -> (r: &'static str)
        ensures
            r@ == SELECT_ALL_ACCOUNTS@,
    {
        SELECT_ALL_ACCOUNTS
    }

    fn sql_update(field: AccountUpdateField) -> (r: &'static str)
        ensures
            field is PasswordSalt ==> r@ == UPDATE_ACCOUNT_PASSWORD_SALT@,
            field is DblHashedPasswordHash ==> r@ == UPDATE_ACCOUNT_DBL_HASHED_PASSWORD_HASH@,
            field is DblHashedPasswordSalt ==> r@ == UPDATE_ACCOUNT_DBL_HASHED_PASSWORD_SALT@,
            field is EncryptedKeyCipherbytes ==> r@ == UPDATE_ACCOUNT_ENCRYPTED_KEY_CIPHERBYTES@,
            field is EncryptedKeyNonce ==> r@ == UPDATE_ACCOUNT_ENCRYPTED_KEY_NONCE@,
    {
        match field {
            AccountUpdateField::PasswordSalt => UPDATE_ACCOUNT_PASSWORD_SALT,
            AccountUpdateField::DblHashedPasswordHash => UPDATE_ACCOUNT_DBL_HASHED_PASSWORD_HASH,
            AccountUpdateField::DblHashedPasswordSalt => UPDATE_ACCOUNT_DBL_HASHED_PASSWORD_SALT,
            AccountUpdateField::EncryptedKeyCipherbytes => UPDATE_ACCOUNT_ENCRYPTED_KEY_CIPHERBYTES,
            AccountUpdateField::EncryptedKeyNonce => UPDATE_ACCOUNT_ENCRYPTED_KEY_NONCE,
        }
    }
}

impl HasSqlStatements for Credential {
    type UpdateField = CredentialUpdateField;

    fn sql_insert() -> (r: &'static str)
        ensures
            r@ == INSERT_CREDENTIAL@,
    {
        INSERT_CREDENTIAL
    }

    fn sql_delete() -> (r: &'static str)
        ensures
            r@ == DELETE_CREDENTIAL@,
    {
        DELETE_CREDENTIAL
    }

    fn sql_select() -> (r: &'static str)
        ensures
            r@ == SELECT_CREDENTIAL@,
    {
        SELECT_CREDENTIAL
    }

    fn sql_select_all() -> (r: &'static str)
        ensures
            r@ == SELECT_ALL_CREDENTIALS@,
    {
        SELECT_ALL_CREDENTIALS
    }

    fn sql_update(field: CredentialUpdateField) -> (r: &'static str)
        ensures
            field is UsernameCipherbytes ==> r@
                == UPDATE_CREDENTIAL_ENCRYPTED_USERNAME_CIPHERBYTES@,
            field is UsernameNonce ==> r@ == UPDATE_CREDENTIAL_ENCRYPTED_USERNAME_NONCE@,
            field is PasswordCipherbytes ==> r@
                == UPDATE_CREDENTIAL_ENCRYPTED_PASSWORD_CIPHERBYTES@,
            field is PasswordNonce ==> r@ == UPDATE_CREDENTIAL_ENCRYPTED_PASSWORD_NONCE@,
            field is NotesCipherbytes ==> r@ == UPDATE_CREDENTIAL_ENCRYPTED_NOTES_CIPHERBYTES@,
            field is NotesNonce ==> r@ == UPDATE_CREDENTIAL_ENCRYPTED_NOTES_NONCE@,
    {
        match field {
            CredentialUpdateField::UsernameCipherbytes => UPDATE_CREDENTIAL_ENCRYPTED_USERNAME_CIPHERBYTES,
            CredentialUpdateField::UsernameNonce => UPDATE_CREDENTIAL_ENCRYPTED_USERNAME_NONCE,
            CredentialUpdateField::PasswordCipherbytes => UPDATE_CREDENTIAL_ENCRYPTED_PASSWORD_CIPHERBYTES,
            CredentialUpdateField::PasswordNonce => UPDATE_CREDENTIAL_ENCRYPTED_PASSWORD_NONCE,
            CredentialUpdateField::NotesCipherbytes => UPDATE_CREDENTIAL_ENCRYPTED_NOTES_CIPHERBYTES,
            CredentialUpdateField::NotesNonce => UPDATE_CREDENTIAL_ENCRYPTED_NOTES_NONCE,
        }
    }
}

impl HasSqlStatements for FileData {
    type UpdateField = FileDataUpdateField;

    fn sql_insert() -> (r: &'static str)
        ensures
            r@ == INSERT_FILE_DATA@,
    {
        INSERT_FILE_DATA
    }

    fn sql_delete() -> (r: &'static str)
        ensures
            r@ == DELETE_FILE_DATA@,
    {
        DELETE_FILE_DATA
    }

    fn sql_select() -> (r: &'static str)
        ensures
            r@ == SELECT_FILE_DATA@,
    {
        SELECT_FILE_DATA
    }

    fn sql_select_all() -> (r: &'static str)
        ensures
            r@ == SELECT_ALL_FILES_DATA@,
    {
        SELECT_ALL_FILES_DATA
    }

    fn sql_update(field: FileDataUpdateField) -> (r: &'static str)
        ensures
            field is ContentsNonce ==> r@ == UPDATE_FILE_DATA_CONTENTS_NONCE@,
    {
        match field {
            FileDataUpdateField::ContentsNonce => UPDATE_FILE_DATA_CONTENTS_NONCE,
        }
    }
}

/// Implementors of this trait have entries that can be selected by an owning
/// account username.
pub trait OwnedByAccount {
    /// The SQL statement that selects all entries owned by the given account
    /// username.
    fn sql_select_owned() -> &'static str;
}

impl OwnedByAccount for Credential {
    fn sql_select_owned() -> (r: &'static str)
        ensures
            r@ == SELECT_ACCOUNT_CREDENTIALS@,
    {
        SELECT_ACCOUNT_CREDENTIALS
    }
}

impl OwnedByAccount for FileData {
    fn sql_select_owned() -> (r: &'static str)
        ensures
            r@ == SELECT_ACCOUNT_FILES_DATA@,
    {
        SELECT_ACCOUNT_FILES_DATA
    }
}

} // verus!
