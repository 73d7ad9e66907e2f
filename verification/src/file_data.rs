//! Functionality for data associated with user files stored in the vault
//! filesystem directory.
use vstd::prelude::*;

use crate::encryption::AES256_NONCE_LEN;

verus! {

/// Metadata for one encrypted file: where its ciphertext blob lives, its
/// user-visible name, its owner, and the nonce the blob was sealed under.
/// The blob itself lives on the filesystem; only the nonce is stored here.
#[derive(Debug)]
pub struct FileData {
    /// The UTF-8 path of the ciphertext blob (primary key).
    pub path: String,
    /// The user-visible leaf name.
    pub filename: String,
    /// The username of the account that owns this file.
    pub owner_username: String,
    /// The 12-byte nonce the blob on disk was sealed under.
    pub contents_nonce: Vec<u8>,
}

impl Clone for FileData {
    fn clone(&self) -> (r: Self)
        ensures
            r.path@ == self.path@,
            r.filename@ == self.filename@,
            r.owner_username@ == self.owner_username@,
            r.contents_nonce@ == self.contents_nonce@,
    {
        FileData {
            path: self.path.clone(),
            filename: self.filename.clone(),
            owner_username: self.owner_username.clone(),
            contents_nonce: self.contents_nonce.clone(),
        }
    }
}

impl PartialEq for FileData {
    fn eq(&self, other: &Self) -> (r: bool) {
        self.path == other.path && self.filename == other.filename && self.owner_username
            == other.owner_username && crate::encryption::vecs_equal(
            &self.contents_nonce,
            &other.contents_nonce,
        )
    }
}

impl vstd::std_specs::cmp::PartialEqSpecImpl for FileData {
    open spec fn obeys_eq_spec() -> bool {
        true
    }

    open spec fn eq_spec(&self, other: &FileData) -> bool {
        &&& self.path@ == other.path@
        &&& self.filename@ == other.filename@
        &&& self.owner_username@ == other.owner_username@
        &&& self.contents_nonce@ == other.contents_nonce@
    }
}

impl FileData {
    /// Structural validity: non-empty path and owner, a 12-byte nonce.
    pub open spec fn wf(&self) -> bool {
        &&& self.path@.len() > 0
        &&& self.owner_username@.len() > 0
        &&& self.contents_nonce@.len() == AES256_NONCE_LEN
    }

    /// Create a new [`FileData`].
    pub fn new(path: &str, filename: String, owner_username: String, contents_nonce: Vec<u8>) -> (r:
        Self)
        requires
            path@.len() > 0,
            owner_username@.len() > 0,
            contents_nonce@.len() == AES256_NONCE_LEN,
        ensures
            r.wf(),
            r.path@ == path@,
            r.filename@ == filename@,
            r.owner_username@ == owner_username@,
            r.contents_nonce@ == contents_nonce@,
    {
        FileData { path: path.to_owned(), filename, owner_username, contents_nonce }
    }

    /// Create a [`FileData`] from its fields.
    pub fn from_fields(
        path: String,
        filename: String,
        owner_username: String,
        contents_nonce: Vec<u8>,
    ) -> (r: Self)
        requires
            path@.len() > 0,
            owner_username@.len() > 0,
            contents_nonce@.len() == AES256_NONCE_LEN,
        ensures
            r.wf(),
            r.path@ == path@,
            r.filename@ == filename@,
            r.owner_username@ == owner_username@,
            r.contents_nonce@ == contents_nonce@,
    {
        FileData { path, filename, owner_username, contents_nonce }
    }

    /// Return the `path` of this [`FileData`].
    pub fn path(&self) -> (r: &str)
        ensures
            r@ == self.path@,
    {
        self.path.as_str()
    }

    /// Return the `filename` of this [`FileData`].
    pub fn filename(&self) -> (r: &str)
        ensures
            r@ == self.filename@,
    {
        self.filename.as_str()
    }

    /// Return the `owner_username` of this [`FileData`].
    pub fn owner_username(&self) -> (r: &str)
        ensures
            r@ == self.owner_username@,
    {
        self.owner_username.as_str()
    }

    /// Return the `contents_nonce` of this [`FileData`].
    pub fn contents_nonce(&self) -> (r: &Vec<u8>)
        ensures
            r@ == self.contents_nonce@,
    {
        &self.contents_nonce
    }
}

/// A [`FileData`] converted for base 64 storage.
#[derive(Debug)]
pub struct Base64FileData {
    /// File path in base 64 format.
    pub b64_path: String,
    /// File name in base 64 format.
    pub b64_name: String,
    /// Owner username in base 64 format.
    pub b64_owner_username: String,
    /// Encrypted content nonce in base 64 format.
    pub b64_content_nonce: String,
}

impl Base64FileData {
    /// Output fields as a tuple.
    pub fn as_tuple(&self) -> (r: (&str, &str, &str, &str))
        ensures
            r.0@ == self.b64_path@,
            r.1@ == self.b64_name@,
            r.2@ == self.b64_owner_username@,
            r.3@ == self.b64_content_nonce@,
    {
        (
            self.b64_path.as_str(),
            self.b64_name.as_str(),
            self.b64_owner_username.as_str(),
            self.b64_content_nonce.as_str(),
        )
    }
}

} // verus!
