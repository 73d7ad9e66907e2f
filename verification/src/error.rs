//! All the handled error conditions of the vault, meant to be mapped to
//! user-facing messages by a front-end.
use vstd::prelude::*;

verus! {

/// Every failure a vault operation can surface.
#[derive(Debug, Clone)]
pub enum Error {
    /// Given password was incorrect.
    IncorrectPasswordError,
    /// Invalid encoding of provided base 64 string.
    InvalidB64Error(String),
    /// Tried to read an incorrect-length base 64 string: field name,
    /// intended byte length, actual byte length.
    InvalidLengthB64Error(String, usize, usize),
    /// Failed to convert to base 64.
    ToB64Error(String),
    /// Could not parse UTF-8 string from bytes.
    Utf8FromBytesError(String),
    /// Could not find an account with that username in the database.
    AccountNotFoundError(String),
    /// Could not find a credential with that name owned by that account.
    CredentialNotFoundError(String),
    /// Could not find stored data for a file at that path.
    FileDataNotFoundError(String),
    /// A credential with the same plaintext name already exists for that owner.
    CredentialAlreadyExistsError(String),
    /// Problem encrypting something.
    EncryptionError,
    /// Problem decrypting something: wrong key or corrupt record.
    DecryptionError,
    /// Tried to create a file at a path that already exists.
    FileAlreadyExistsError(String),
    /// Tried to interact with a file with insufficient permissions.
    PermissionDeniedError(String),
    /// Tried to open a file that doesn't exist.
    FileNotFoundError(String),
    /// Tried to use a non-UTF-8 file path.
    NonUtf8FilePathError(String),
    /// The underlying metadata store reported a failure.
    DatabaseError,
    /// A statement that had to affect exactly one row affected another count.
    ProtocolViolationError(usize),
    /// A filesystem step of a two-store mutation failed; the metadata
    /// changes were rolled back.
    FilesystemError,
    /// Generic error for conditions that should never occur.
    UnhandledError(String),
}

impl Error {
    /// A short, constant description of the error kind.
    pub fn kind_message(&self) -> (r: &'static str)
        ensures
            self is IncorrectPasswordError ==> r@ == "IncorrectPasswordError"@,
    {
        match self {
            Error::IncorrectPasswordError => "IncorrectPasswordError",
            Error::InvalidB64Error(_) => "InvalidB64Error",
            Error::InvalidLengthB64Error(_, _, _) => "InvalidLengthB64Error",
            Error::ToB64Error(_) => "ToB64Error",
            Error::Utf8FromBytesError(_) => "Utf8FromBytesError",
            Error::AccountNotFoundError(_) => "AccountNotFoundError",
            Error::CredentialNotFoundError(_) => "CredentialNotFoundError",
            Error::FileDataNotFoundError(_) => "FileDataNotFoundError",
            Error::CredentialAlreadyExistsError(_) => "CredentialAlreadyExistsError",
            Error::EncryptionError => "EncryptionError",
            Error::DecryptionError => "DecryptionError",
            Error::FileAlreadyExistsError(_) => "FileAlreadyExistsError",
            Error::PermissionDeniedError(_) => "PermissionDeniedError",
            Error::FileNotFoundError(_) => "FileNotFoundError",
            Error::NonUtf8FilePathError(_) => "NonUtf8FilePathError",
            Error::DatabaseError => "DatabaseError",
            Error::ProtocolViolationError(_) => "ProtocolViolationError",
            Error::FilesystemError => "FilesystemError",
            Error::UnhandledError(_) => "UnhandledError",
        }
    }
}

} // verus!
