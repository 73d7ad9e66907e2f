//! Functionality related to reading and writing encrypted stored passwords.
//!
//! These are *stored passwords*, not passwords for vault accounts.
use vstd::prelude::*;

use crate::crypto::{aead_open, AES_GCM_P_MAX};
use crate::encryption::{Aes256Key, Encrypted, TryFromEncrypted};
use crate::error::Error;
use crate::helpers::b64_encode;
use vstd::utf8::encode_utf8;

verus! {

/// A stored login: a name, username, password content, and notes, each
/// sealed under the owning account's key, together with the owner's account
/// username.
#[derive(Debug)]
pub struct Password {
    /// The username of the vault account that owns this stored password.
    pub owner_username: String,
    /// The encrypted user-chosen name of this entry.
    pub encrypted_name: Encrypted,
    /// The encrypted username of the stored login itself.
    pub encrypted_username: Encrypted,
    /// The encrypted password content of the stored login itself.
    pub encrypted_content: Encrypted,
    /// The encrypted user-defined notes.
    pub encrypted_notes: Encrypted,
}

impl Password {
    /// Structural validity: well-formed sealed fields.
    pub open spec fn wf(&self) -> bool {
        &&& self.encrypted_name.wf()
        &&& self.encrypted_username.wf()
        &&& self.encrypted_content.wf()
        &&& self.encrypted_notes.wf()
    }

    /// Create a new [`Password`], sealing each field with its own fresh
    /// nonce.
    pub fn new(
        owner_username: &str,
        key: &Aes256Key,
        name: &str,
        username: &str,
        password: &str,
        notes: &str,
    ) -> (r: Result<Self, Error>)
        requires
            key.wf(),
        ensures
            r matches Ok(p) ==> {
                &&& p.wf()
                &&& p.owner_username@ == owner_username@
                &&& p.encrypted_name.seals(key@, encode_utf8(name@))
                &&& p.encrypted_username.seals(key@, encode_utf8(username@))
                &&& p.encrypted_content.seals(key@, encode_utf8(password@))
                &&& p.encrypted_notes.seals(key@, encode_utf8(notes@))
            },
            r matches Err(e) ==> e is EncryptionError,
            encode_utf8(name@).len() <= AES_GCM_P_MAX && encode_utf8(username@).len()
                <= AES_GCM_P_MAX && encode_utf8(password@).len() <= AES_GCM_P_MAX && encode_utf8(
                notes@,
            ).len() <= AES_GCM_P_MAX ==> r is Ok,
    {
        let encrypted_name = Encrypted::new(name.as_bytes(), key)?;
        let encrypted_username = Encrypted::new(username.as_bytes(), key)?;
        let encrypted_content = Encrypted::new(password.as_bytes(), key)?;
        let encrypted_notes = Encrypted::new(notes.as_bytes(), key)?;
        Ok(
            Password {
                owner_username: owner_username.to_owned(),
                encrypted_name,
                encrypted_username,
                encrypted_content,
                encrypted_notes,
            },
        )
    }

    /// Load a [`Password`] from a [`Base64Password`]: a set of base 64
    /// encoded strings.
    pub fn from_b64(b64_password: Base64Password) -> (r: Result<Self, Error>)
        ensures
            r matches Ok(p) ==> {
                &&& p.wf()
                &&& b64_password.b64_owner_username@ == b64_encode(encode_utf8(p.owner_username@))
                &&& b64_password.b64_name_ciphertext@ == b64_encode(p.encrypted_name.cipherbytes@)
                &&& b64_password.b64_name_nonce@ == b64_encode(p.encrypted_name.nonce@)
                &&& b64_password.b64_username_ciphertext@ == b64_encode(
                    p.encrypted_username.cipherbytes@,
                )
                &&& b64_password.b64_username_nonce@ == b64_encode(p.encrypted_username.nonce@)
                &&& b64_password.b64_content_ciphertext@ == b64_encode(
                    p.encrypted_content.cipherbytes@,
                )
                &&& b64_password.b64_content_nonce@ == b64_encode(p.encrypted_content.nonce@)
                &&& b64_password.b64_notes_ciphertext@ == b64_encode(
                    p.encrypted_notes.cipherbytes@,
                )
                &&& b64_password.b64_notes_nonce@ == b64_encode(p.encrypted_notes.nonce@)
            },
            (exists|ob: Seq<u8>|
                b64_password.b64_owner_username@ == b64_encode(ob) && vstd::utf8::valid_utf8(ob))
                && (exists|u: Seq<u8>| b64_password.b64_name_ciphertext@ == b64_encode(u)) && (
            exists|n: Seq<u8>|
                b64_password.b64_name_nonce@ == b64_encode(n) && n.len() == 12) && (exists|u: Seq<u8>|
                b64_password.b64_username_ciphertext@ == b64_encode(u)) && (exists|n: Seq<u8>|
                b64_password.b64_username_nonce@ == b64_encode(n) && n.len() == 12) && (exists|u: Seq<u8>|
                b64_password.b64_content_ciphertext@ == b64_encode(u)) && (exists|n: Seq<u8>|
                b64_password.b64_content_nonce@ == b64_encode(n) && n.len() == 12) && (exists|u: Seq<u8>|
                b64_password.b64_notes_ciphertext@ == b64_encode(u)) && (exists|n: Seq<u8>|
                b64_password.b64_notes_nonce@ == b64_encode(n) && n.len() == 12) ==> r is Ok,
            r matches Ok(p) ==> forall|t: Seq<char>|
                b64_password.b64_owner_username@ == b64_encode(encode_utf8(t))
                    ==> p.owner_username@ == t,
            r matches Ok(p) ==> (forall|u: Seq<u8>|
                b64_password.b64_name_ciphertext@ == b64_encode(u)
                    ==> p.encrypted_name.cipherbytes@ == u) && (forall|n: Seq<u8>|
                b64_password.b64_name_nonce@ == b64_encode(n) ==> p.encrypted_name.nonce@ == n),
            r matches Ok(p) ==> (forall|u: Seq<u8>|
                b64_password.b64_username_ciphertext@ == b64_encode(u)
                    ==> p.encrypted_username.cipherbytes@ == u) && (forall|n: Seq<u8>|
                b64_password.b64_username_nonce@ == b64_encode(n)
                    ==> p.encrypted_username.nonce@ == n),
            r matches Ok(p) ==> (forall|u: Seq<u8>|
                b64_password.b64_content_ciphertext@ == b64_encode(u)
                    ==> p.encrypted_content.cipherbytes@ == u) && (forall|n: Seq<u8>|
                b64_password.b64_content_nonce@ == b64_encode(n)
                    ==> p.encrypted_content.nonce@ == n),
            r matches Ok(p) ==> (forall|u: Seq<u8>|
                b64_password.b64_notes_ciphertext@ == b64_encode(u)
                    ==> p.encrypted_notes.cipherbytes@ == u) && (forall|n: Seq<u8>|
                b64_password.b64_notes_nonce@ == b64_encode(n) ==> p.encrypted_notes.nonce@ == n),
    {
        let owner_bytes = crate::helpers::b64_to_bytes(b64_password.b64_owner_username.as_str())?;
        let owner_username = crate::helpers::bytes_to_utf8(owner_bytes.as_slice(), "owner_username")?;
        let encrypted_name = Encrypted::from_b64(
            b64_password.b64_name_ciphertext.as_str(),
            b64_password.b64_name_nonce.as_str(),
        )?;
        let encrypted_username = Encrypted::from_b64(
            b64_password.b64_username_ciphertext.as_str(),
            b64_password.b64_username_nonce.as_str(),
        )?;
        let encrypted_content = Encrypted::from_b64(
            b64_password.b64_content_ciphertext.as_str(),
            b64_password.b64_content_nonce.as_str(),
        )?;
        let encrypted_notes = Encrypted::from_b64(
            b64_password.b64_notes_ciphertext.as_str(),
            b64_password.b64_notes_nonce.as_str(),
        )?;
        proof {
            vstd::utf8::decode_utf8_encode_utf8(owner_bytes@);
            assert forall|t: Seq<char>|
                b64_password.b64_owner_username@ == b64_encode(
                    encode_utf8(t),
                ) implies owner_username@ == t by {
                assert(owner_bytes@ == encode_utf8(t));
                vstd::utf8::encode_utf8_decode_utf8(t);
            }
        }
        Ok(
            Password {
                owner_username,
                encrypted_name,
                encrypted_username,
                encrypted_content,
                encrypted_notes,
            },
        )
    }

    /// Convert this [`Password`] to a [`Base64Password`] for storage.
    pub fn to_b64(&self) -> (r: Base64Password)
        ensures
            r.b64_owner_username@ == b64_encode(encode_utf8(self.owner_username@)),
            r.b64_name_ciphertext@ == b64_encode(self.encrypted_name.cipherbytes@),
            r.b64_name_nonce@ == b64_encode(self.encrypted_name.nonce@),
            r.b64_username_ciphertext@ == b64_encode(self.encrypted_username.cipherbytes@),
            r.b64_username_nonce@ == b64_encode(self.encrypted_username.nonce@),
            r.b64_content_ciphertext@ == b64_encode(self.encrypted_content.cipherbytes@),
            r.b64_content_nonce@ == b64_encode(self.encrypted_content.nonce@),
            r.b64_notes_ciphertext@ == b64_encode(self.encrypted_notes.cipherbytes@),
            r.b64_notes_nonce@ == b64_encode(self.encrypted_notes.nonce@),
    {
        Base64Password {
            b64_owner_username: crate::helpers::bytes_to_b64(self.owner_username.as_str().as_bytes()),
            b64_name_ciphertext: self.encrypted_name.ciphertext_as_b64(),
            b64_username_ciphertext: self.encrypted_username.ciphertext_as_b64(),
            b64_content_ciphertext: self.encrypted_content.ciphertext_as_b64(),
            b64_notes_ciphertext: self.encrypted_notes.ciphertext_as_b64(),
            b64_name_nonce: self.encrypted_name.nonce_as_b64(),
            b64_username_nonce: self.encrypted_username.nonce_as_b64(),
            b64_content_nonce: self.encrypted_content.nonce_as_b64(),
            b64_notes_nonce: self.encrypted_notes.nonce_as_b64(),
        }
    }

    /// Return the owner username of this [`Password`]. This is the vault
    /// account's username, not the username stored in the entry.
    pub fn owner_username(&self) -> (r: &str)
        ensures
            r@ == self.owner_username@,
    {
        self.owner_username.as_str()
    }

    /// Return the encrypted name of this [`Password`].
    pub fn encrypted_name(&self) -> (r: &Encrypted)
        ensures
            r == self.encrypted_name,
    {
        &self.encrypted_name
    }

    /// Return the encrypted username of this [`Password`].
    pub fn encrypted_username(&self) -> (r: &Encrypted)
        ensures
            r == self.encrypted_username,
    {
        &self.encrypted_username
    }

    /// Return the encrypted content of this [`Password`]: the stored
    /// password itself.
    pub fn encrypted_content(&self) -> (r: &Encrypted)
        ensures
            r == self.encrypted_content,
    {
        &self.encrypted_content
    }

    /// Return the encrypted notes of this [`Password`].
    pub fn encrypted_notes(&self) -> (r: &Encrypted)
        ensures
            r == self.encrypted_notes,
    {
        &self.encrypted_notes
    }

    /// Decrypt all fields of this [`Password`], including the secure ones.
    /// Use with caution and restraint.
    pub fn unlock(&self, key: &Aes256Key) -> (r: Result<DecryptedPasswordFields, Error>)
        requires
            self.wf(),
            key.wf(),
        ensures
            r matches Ok(fields) ==> {
                &&& (aead_open(key@, self.encrypted_name.nonce@, self.encrypted_name.cipherbytes@)
                    matches Some(p) && fields.name.spec_is_decoding_of(p))
                &&& (aead_open(
                    key@,
                    self.encrypted_username.nonce@,
                    self.encrypted_username.cipherbytes@,
                ) matches Some(p) && fields.username.spec_is_decoding_of(p))
                &&& (aead_open(
                    key@,
                    self.encrypted_content.nonce@,
                    self.encrypted_content.cipherbytes@,
                ) matches Some(p) && fields.content.spec_is_decoding_of(p))
                &&& (aead_open(
                    key@,
                    self.encrypted_notes.nonce@,
                    self.encrypted_notes.cipherbytes@,
                ) matches Some(p) && fields.notes.spec_is_decoding_of(p))
            },
            (aead_open(key@, self.encrypted_name.nonce@, self.encrypted_name.cipherbytes@)
                matches Some(p) && vstd::utf8::valid_utf8(p)) && (aead_open(
                key@,
                self.encrypted_username.nonce@,
                self.encrypted_username.cipherbytes@,
            ) matches Some(p) && vstd::utf8::valid_utf8(p)) && (aead_open(
                key@,
                self.encrypted_content.nonce@,
                self.encrypted_content.cipherbytes@,
            ) matches Some(p) && vstd::utf8::valid_utf8(p)) && (aead_open(
                key@,
                self.encrypted_notes.nonce@,
                self.encrypted_notes.cipherbytes@,
            ) matches Some(p) && vstd::utf8::valid_utf8(p)) ==> r is Ok,
    {
        let name: String = String::try_decrypt(&self.encrypted_name, key)?;
        let username: String = String::try_decrypt(&self.encrypted_username, key)?;
        let content: String = String::try_decrypt(&self.encrypted_content, key)?;
        let notes: String = String::try_decrypt(&self.encrypted_notes, key)?;
        Ok(DecryptedPasswordFields { name, username, content, notes })
    }
}

/// All the decrypted fields of a [`Password`]. Use with caution and
/// restraint.
pub struct DecryptedPasswordFields {
    /// The plaintext entry name.
    pub name: String,
    /// The plaintext stored username.
    pub username: String,
    /// The plaintext stored password.
    pub content: String,
    /// The plaintext notes.
    pub notes: String,
}

impl DecryptedPasswordFields {
    /// Return the name of this [`DecryptedPasswordFields`].
    pub fn name(&self) -> (r: &str)
        ensures
            r@ == self.name@,
    {
        self.name.as_str()
    }

    /// Return the username of this [`DecryptedPasswordFields`].
    pub fn username(&self) -> (r: &str)
        ensures
            r@ == self.username@,
    {
        self.username.as_str()
    }

    /// Return the content of this [`DecryptedPasswordFields`].
    pub fn content(&self) -> (r: &str)
        ensures
            r@ == self.content@,
    {
        self.content.as_str()
    }

    /// Return the notes of this [`DecryptedPasswordFields`].
    pub fn notes(&self) -> (r: &str)
        ensures
            r@ == self.notes@,
    {
        self.notes.as_str()
    }
}

/// A [`Password`] converted for base 64 storage.
#[derive(Debug)]
pub struct Base64Password {
    /// Owner username in base 64 format.
    pub b64_owner_username: String,
    /// Entry name ciphertext in base 64 format.
    pub b64_name_ciphertext: String,
    /// Stored username ciphertext in base 64 format.
    pub b64_username_ciphertext: String,
    /// Stored password ciphertext in base 64 format.
    pub b64_content_ciphertext: String,
    /// Notes ciphertext in base 64 format.
    pub b64_notes_ciphertext: String,
    /// Entry name nonce in base 64 format.
    pub b64_name_nonce: String,
    /// Stored username nonce in base 64 format.
    pub b64_username_nonce: String,
    /// Stored password nonce in base 64 format.
    pub b64_content_nonce: String,
    /// Notes nonce in base 64 format.
    pub b64_notes_nonce: String,
}

impl Base64Password {
    /// Output fields as a tuple.
    pub fn as_tuple(&self) -> (r: (&str, &str, &str, &str, &str, &str, &str, &str, &str))
        ensures
            r.0@ == self.b64_owner_username@,
            r.1@ == self.b64_name_ciphertext@,
            r.2@ == self.b64_username_ciphertext@,
            r.3@ == self.b64_content_ciphertext@,
            r.4@ == self.b64_notes_ciphertext@,
            r.5@ == self.b64_name_nonce@,
            r.6@ == self.b64_username_nonce@,
            r.7@ == self.b64_content_nonce@,
            r.8@ == self.b64_notes_nonce@,
    {
        (
            self.b64_owner_username.as_str(),
            self.b64_name_ciphertext.as_str(),
            self.b64_username_ciphertext.as_str(),
            self.b64_content_ciphertext.as_str(),
            self.b64_notes_ciphertext.as_str(),
            self.b64_name_nonce.as_str(),
            self.b64_username_nonce.as_str(),
            self.b64_content_nonce.as_str(),
            self.b64_notes_nonce.as_str(),
        )
    }
}

} // verus!
