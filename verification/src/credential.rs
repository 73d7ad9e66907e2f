//! Functionality for credentials stored by vault user accounts.
use vstd::prelude::*;

use crate::crypto::aead_open;
use crate::crypto::AES_GCM_P_MAX;
use crate::encryption::{Aes256Key, Encrypted, TryFromEncrypted};
use crate::error::Error;
use vstd::utf8::encode_utf8;

verus! {

/// User-defined login information for various sites and services: a name,
/// username, password, and notes, each independently sealed under the owning
/// account's data-encryption key with its own fresh nonce.
#[derive(Debug)]
pub struct Credential {
    /// The username of the account that owns this credential.
    pub owner_username: String,
    /// The encrypted user-chosen name of this credential.
    pub encrypted_name: Encrypted,
    /// The encrypted username of the stored login itself.
    pub encrypted_username: Encrypted,
    /// The encrypted password of the stored login itself.
    pub encrypted_password: Encrypted,
    /// The encrypted user-defined notes.
    pub encrypted_notes: Encrypted,
}

impl Clone for Credential {
    fn clone(&self) -> (r: Self)
        ensures
            r.owner_username@ == self.owner_username@,
            r.encrypted_name.cipherbytes@ == self.encrypted_name.cipherbytes@,
            r.encrypted_name.nonce@ == self.encrypted_name.nonce@,
            r.encrypted_username.cipherbytes@ == self.encrypted_username.cipherbytes@,
            r.encrypted_username.nonce@ == self.encrypted_username.nonce@,
            r.encrypted_password.cipherbytes@ == self.encrypted_password.cipherbytes@,
            r.encrypted_password.nonce@ == self.encrypted_password.nonce@,
            r.encrypted_notes.cipherbytes@ == self.encrypted_notes.cipherbytes@,
            r.encrypted_notes.nonce@ == self.encrypted_notes.nonce@,
    {
        Credential {
            owner_username: self.owner_username.clone(),
            encrypted_name: self.encrypted_name.clone(),
            encrypted_username: self.encrypted_username.clone(),
            encrypted_password: self.encrypted_password.clone(),
            encrypted_notes: self.encrypted_notes.clone(),
        }
    }
}

impl PartialEq for Credential {
    fn eq(&self, other: &Self) -> (r: bool) {
        self.owner_username == other.owner_username && self.encrypted_name == other.encrypted_name
            && self.encrypted_username == other.encrypted_username && self.encrypted_password
            == other.encrypted_password && self.encrypted_notes == other.encrypted_notes
    }
}

impl vstd::std_specs::cmp::PartialEqSpecImpl for Credential {
    open spec fn obeys_eq_spec() -> bool {
        true
    }

    open spec fn eq_spec(&self, other: &Credential) -> bool {
        &&& self.owner_username@ == other.owner_username@
        &&& self.encrypted_name.cipherbytes@ == other.encrypted_name.cipherbytes@
        &&& self.encrypted_name.nonce@ == other.encrypted_name.nonce@
        &&& self.encrypted_username.cipherbytes@ == other.encrypted_username.cipherbytes@
        &&& self.encrypted_username.nonce@ == other.encrypted_username.nonce@
        &&& self.encrypted_password.cipherbytes@ == other.encrypted_password.cipherbytes@
        &&& self.encrypted_password.nonce@ == other.encrypted_password.nonce@
        &&& self.encrypted_notes.cipherbytes@ == other.encrypted_notes.cipherbytes@
        &&& self.encrypted_notes.nonce@ == other.encrypted_notes.nonce@
    }
}

impl Credential {
    /// Structural validity: a non-empty owner and well-formed sealed fields.
    pub open spec fn wf(&self) -> bool {
        &&& self.owner_username@.len() > 0
        &&& self.encrypted_name.wf()
        &&& self.encrypted_username.wf()
        &&& self.encrypted_password.wf()
        &&& self.encrypted_notes.wf()
    }

    /// This credential's sealed name decrypts under `key` to the given
    /// plaintext name.
    pub open spec fn name_is(&self, key: Seq<u8>, plaintext_name: Seq<char>) -> bool {
        self.encrypted_name.seals(key, encode_utf8(plaintext_name))
    }

    /// Create a new [`Credential`], sealing each field with its own fresh
    /// nonce.
    pub fn try_new(
        owner_username: &str,
        encryption_key: &Aes256Key,
        name: &str,
        username: &str,
        password: &str,
        notes: &str,
    ) -> (r: Result<Self, Error>)
        requires
            owner_username@.len() > 0,
            encryption_key.wf(),
        ensures
            r matches Ok(c) ==> {
                &&& c.wf()
                &&& c.owner_username@ == owner_username@
                &&& c.name_is(encryption_key@, name@)
                &&& c.encrypted_username.seals(encryption_key@, encode_utf8(username@))
                &&& c.encrypted_password.seals(encryption_key@, encode_utf8(password@))
                &&& c.encrypted_notes.seals(encryption_key@, encode_utf8(notes@))
            },
            r matches Err(e) ==> e is EncryptionError,
            encode_utf8(name@).len() <= AES_GCM_P_MAX && encode_utf8(username@).len()
                <= AES_GCM_P_MAX && encode_utf8(password@).len() <= AES_GCM_P_MAX && encode_utf8(
                notes@,
            ).len() <= AES_GCM_P_MAX ==> r is Ok,
    {
        let encrypted_name = Encrypted::new(name.as_bytes(), encryption_key)?;
        let encrypted_username = Encrypted::new(username.as_bytes(), encryption_key)?;
        let encrypted_password = Encrypted::new(password.as_bytes(), encryption_key)?;
        let encrypted_notes = Encrypted::new(notes.as_bytes(), encryption_key)?;
        Ok(
            Credential {
                owner_username: owner_username.to_owned(),
                encrypted_name,
                encrypted_username,
                encrypted_password,
                encrypted_notes,
            },
        )
    }

    /// Create a [`Credential`] from its fields.
    pub fn from_fields(
        owner_username: String,
        encrypted_name: Encrypted,
        encrypted_username: Encrypted,
        encrypted_password: Encrypted,
        encrypted_notes: Encrypted,
    ) -> (r: Self)
        requires
            owner_username@.len() > 0,
            encrypted_name.wf(),
            encrypted_username.wf(),
            encrypted_password.wf(),
            encrypted_notes.wf(),
        ensures
            r.wf(),
            r.owner_username@ == owner_username@,
            r.encrypted_name == encrypted_name,
            r.encrypted_username == encrypted_username,
            r.encrypted_password == encrypted_password,
            r.encrypted_notes == encrypted_notes,
    {
        Credential {
            owner_username,
            encrypted_name,
            encrypted_username,
            encrypted_password,
            encrypted_notes,
        }
    }

    /// Get the `owner_username` of this [`Credential`].
    pub fn owner_username(&self) -> (r: &str)
        ensures
            r@ == self.owner_username@,
    {
        self.owner_username.as_str()
    }

    /// Get the `encrypted_name` of this [`Credential`].
    pub fn encrypted_name(&self) -> (r: &Encrypted)
        ensures
            r == self.encrypted_name,
    {
        &self.encrypted_name
    }

    /// Get the `encrypted_username` of this [`Credential`].
    pub fn encrypted_username(&self) -> (r: &Encrypted)
        ensures
            r == self.encrypted_username,
    {
        &self.encrypted_username
    }

    /// Get the `encrypted_password` of this [`Credential`].
    pub fn encrypted_password(&self) -> (r: &Encrypted)
        ensures
            r == self.encrypted_password,
    {
        &self.encrypted_password
    }

    /// Get the `encrypted_notes` of this [`Credential`].
    pub fn encrypted_notes(&self) -> (r: &Encrypted)
        ensures
            r == self.encrypted_notes,
    {
        &self.encrypted_notes
    }

    /// Decrypt the `encrypted_name` of this [`Credential`].
    pub fn name<T: TryFromEncrypted>(&self, key: &Aes256Key) -> (r: Result<T, Error>)
        requires
            self.wf(),
            key.wf(),
        ensures
            r matches Ok(v) ==> (aead_open(key@, self.encrypted_name.nonce@, self.encrypted_name.cipherbytes@)
                matches Some(p) && v.spec_is_decoding_of(p)),
            r is Err ==> (aead_open(key@, self.encrypted_name.nonce@, self.encrypted_name.cipherbytes@)
                matches Some(p) ==> !T::spec_decodable(p)),
    {
        T::try_decrypt(&self.encrypted_name, key)
    }

    /// Decrypt the `encrypted_username` of this [`Credential`].
    pub fn username<T: TryFromEncrypted>(&self, key: &Aes256Key) -> (r: Result<T, Error>)
        requires
            self.wf(),
            key.wf(),
        ensures
            r matches Ok(v) ==> (aead_open(key@, self.encrypted_username.nonce@, self.encrypted_username.cipherbytes@)
                matches Some(p) && v.spec_is_decoding_of(p)),
            r is Err ==> (aead_open(key@, self.encrypted_username.nonce@, self.encrypted_username.cipherbytes@)
                matches Some(p) ==> !T::spec_decodable(p)),
    {
        T::try_decrypt(&self.encrypted_username, key)
    }

    /// Decrypt the `encrypted_password` of this [`Credential`].
    pub fn password<T: TryFromEncrypted>(&self, key: &Aes256Key) -> (r: Result<T, Error>)
        requires
            self.wf(),
            key.wf(),
        ensures
            r matches Ok(v) ==> (aead_open(key@, self.encrypted_password.nonce@, self.encrypted_password.cipherbytes@)
                matches Some(p) && v.spec_is_decoding_of(p)),
            r is Err ==> (aead_open(key@, self.encrypted_password.nonce@, self.encrypted_password.cipherbytes@)
                matches Some(p) ==> !T::spec_decodable(p)),
    {
        T::try_decrypt(&self.encrypted_password, key)
    }

    /// Decrypt the `encrypted_notes` of this [`Credential`].
    pub fn notes<T: TryFromEncrypted>(&self, key: &Aes256Key) -> (r: Result<T, Error>)
        requires
            self.wf(),
            key.wf(),
        ensures
            r matches Ok(v) ==> (aead_open(key@, self.encrypted_notes.nonce@, self.encrypted_notes.cipherbytes@)
                matches Some(p) && v.spec_is_decoding_of(p)),
            r is Err ==> (aead_open(key@, self.encrypted_notes.nonce@, self.encrypted_notes.cipherbytes@)
                matches Some(p) ==> !T::spec_decodable(p)),
    {
        T::try_decrypt(&self.encrypted_notes, key)
    }
}

} // verus!
