//! Functionality related to encrypting and decrypting data with AES-256-GCM.
use vstd::prelude::*;

use crate::crypto::{
    aead_open, aead_seal, aes256gcm_decrypt, aes256gcm_encrypt, random_bytes, AES_GCM_P_MAX,
};
use crate::error::Error;
use crate::helpers::{b64_encode, bytes_to_b64};

verus! {

/// Whether two byte vectors hold the same bytes.
pub fn vecs_equal(a: &Vec<u8>, b: &Vec<u8>) -> (r: bool)
    ensures
        r == (a@ == b@),
{
    if a.len() != b.len() {
        return false;
    }
    let mut i: usize = 0;
    while i < a.len()
        invariant
            0 <= i <= a@.len(),
            a@.len() == b@.len(),
            forall|j: int| 0 <= j < i ==> a@[j] == b@[j],
        decreases a@.len() - i,
    {
        if a[i] != b[i] {
            return false;
        }
        i = i + 1;
    }
    proof {
        assert(a@ =~= b@);
    }
    true
}

/// The byte length of an AES-256 key.
pub const AES256_KEY_LEN: usize = 32;

/// The byte length of an AES-256-GCM nonce.
pub const AES256_NONCE_LEN: usize = 12;

/// A 32-byte key used for AES-256 encryption and decryption.
#[derive(Debug)]
pub struct Aes256Key {
    /// The raw key bytes.
    pub bytes: Vec<u8>,
}

impl View for Aes256Key {
    type V = Seq<u8>;

    open spec fn view(&self) -> Seq<u8> {
        self.bytes@
    }
}

impl Clone for Aes256Key {
    fn clone(&self) -> (r: Self)
        ensures
            r@ == self@,
    {
        Aes256Key { bytes: self.bytes.clone() }
    }
}

impl PartialEq for Aes256Key {
    fn eq(&self, other: &Self) -> (r: bool) {
        vecs_equal(&self.bytes, &other.bytes)
    }
}

impl vstd::std_specs::cmp::PartialEqSpecImpl for Aes256Key {
    open spec fn obeys_eq_spec() -> bool {
        true
    }

    open spec fn eq_spec(&self, other: &Aes256Key) -> bool {
        self.bytes@ == other.bytes@
    }
}

impl Aes256Key {
    /// A key is exactly 32 bytes long.
    pub open spec fn wf(&self) -> bool {
        self@.len() == AES256_KEY_LEN
    }

    /// Build a key from its raw bytes.
    pub fn from_bytes(bytes: Vec<u8>) -> (r: Self)
        requires
            bytes@.len() == AES256_KEY_LEN,
        ensures
            r.wf(),
            r@ == bytes@,
    {
        Aes256Key { bytes }
    }

    /// The raw bytes of this key.
    pub fn get_bytes(&self) -> (r: &Vec<u8>)
        ensures
            r@ == self@,
    {
        &self.bytes
    }
}

/// Generate a random [`Aes256Key`] from the CSPRNG.
pub fn new_rand_key() -> (r: Aes256Key)
    ensures
        r.wf(),
{
    Aes256Key { bytes: random_bytes(AES256_KEY_LEN) }
}

/// Generate a random 12-byte AES-256-GCM nonce from the CSPRNG.
pub fn new_rand_nonce() -> (r: Vec<u8>)
    ensures
        r@.len() == AES256_NONCE_LEN,
{
    random_bytes(AES256_NONCE_LEN)
}

/// An encrypted byte string: the AES-256-GCM cipherbytes (authentication tag
/// included) together with the 12-byte nonce they were sealed under.
#[derive(Debug)]
pub struct Encrypted {
    /// The AES-256-GCM output, authentication tag included.
    pub cipherbytes: Vec<u8>,
    /// The 12-byte nonce the cipherbytes were sealed under.
    pub nonce: Vec<u8>,
}

impl PartialEq for Encrypted {
    fn eq(&self, other: &Self) -> (r: bool) {
        let cipher_eq = vecs_equal(&self.cipherbytes, &other.cipherbytes);
        let nonce_eq = vecs_equal(&self.nonce, &other.nonce);
        cipher_eq && nonce_eq
    }
}

impl vstd::std_specs::cmp::PartialEqSpecImpl for Encrypted {
    open spec fn obeys_eq_spec() -> bool {
        true
    }

    open spec fn eq_spec(&self, other: &Encrypted) -> bool {
        self.cipherbytes@ == other.cipherbytes@ && self.nonce@ == other.nonce@
    }
}

impl Clone for Encrypted {
    fn clone(&self) -> (r: Self)
        ensures
            r.cipherbytes@ == self.cipherbytes@,
            r.nonce@ == self.nonce@,
    {
        Encrypted { cipherbytes: self.cipherbytes.clone(), nonce: self.nonce.clone() }
    }
}

impl Encrypted {
    /// The nonce is exactly 12 bytes long.
    pub open spec fn wf(&self) -> bool {
        self.nonce@.len() == AES256_NONCE_LEN
    }

    /// This record holds exactly the given plaintext, sealed under the given
    /// key: opening its cipherbytes under its nonce yields that plaintext.
    pub open spec fn seals(&self, key: Seq<u8>, plaintext: Seq<u8>) -> bool {
        aead_open(key, self.nonce@, self.cipherbytes@) == Some(plaintext)
    }

    /// Encrypt a byte slice using a given key and nonce.
    pub fn try_encrypt_bytes_key_nonce(byte_slice: &[u8], key: &Aes256Key, nonce: Vec<u8>) -> (r:
        Result<Encrypted, Error>)
        requires
            key.wf(),
            nonce@.len() == AES256_NONCE_LEN,
        ensures
            r matches Ok(e) ==> e.wf() && e.nonce@ == nonce@ && e.cipherbytes@ == aead_seal(
                key@,
                nonce@,
                byte_slice@,
            ) && e.seals(key@, byte_slice@) && e.cipherbytes@.len() == byte_slice@.len() + 16,
            r matches Err(e) ==> e is EncryptionError,
            byte_slice@.len() <= AES_GCM_P_MAX ==> r is Ok,
    {
        match aes256gcm_encrypt(key.get_bytes().as_slice(), nonce.as_slice(), byte_slice) {
            Some(cipherbytes) => Ok(Encrypted { cipherbytes, nonce }),
            None => Err(Error::EncryptionError),
        }
    }

    /// Encrypt a byte slice using a given key and a fresh random nonce.
    pub fn new(content: &[u8], key: &Aes256Key) -> (r: Result<Encrypted, Error>)
        requires
            key.wf(),
        ensures
            r matches Ok(e) ==> e.wf() && e.cipherbytes@ == aead_seal(key@, e.nonce@, content@)
                && e.seals(key@, content@) && e.cipherbytes@.len() == content@.len() + 16,
            r matches Err(e) ==> e is EncryptionError,
            content@.len() <= AES_GCM_P_MAX ==> r is Ok,
    {
        let nonce = new_rand_nonce();
        Encrypted::try_encrypt_bytes_key_nonce(content, key, nonce)
    }

    /// Encrypt a byte slice using a given key and a given nonce.
    pub fn from_nonce(content: &[u8], key: &Aes256Key, nonce: &[u8]) -> (r: Result<
        Encrypted,
        Error,
    >)
        requires
            key.wf(),
            nonce@.len() == AES256_NONCE_LEN,
        ensures
            r matches Ok(e) ==> e.wf() && e.nonce@ == nonce@ && e.cipherbytes@ == aead_seal(
                key@,
                nonce@,
                content@,
            ) && e.seals(key@, content@),
            r matches Err(e) ==> e is EncryptionError,
            content@.len() <= AES_GCM_P_MAX ==> r is Ok,
    {
        let mut nonce_vec: Vec<u8> = Vec::new();
        nonce_vec.extend_from_slice(nonce);
        Encrypted::try_encrypt_bytes_key_nonce(content, key, nonce_vec)
    }

    /// Create an [`Encrypted`] from its fields.
    pub fn from_fields(cipherbytes: Vec<u8>, nonce: Vec<u8>) -> (r: Self)
        requires
            nonce@.len() == AES256_NONCE_LEN,
        ensures
            r.wf(),
            r.cipherbytes@ == cipherbytes@,
            r.nonce@ == nonce@,
    {
        Encrypted { cipherbytes, nonce }
    }

    /// Read an [`Encrypted`] from already-encrypted cipherbytes and the nonce
    /// they were sealed under.
    pub fn from_bytes(ciphertext: &[u8], nonce: &[u8]) -> (r: Self)
        requires
            nonce@.len() == AES256_NONCE_LEN,
        ensures
            r.wf(),
            r.cipherbytes@ == ciphertext@,
            r.nonce@ == nonce@,
    {
        let mut cipherbytes: Vec<u8> = Vec::new();
        cipherbytes.extend_from_slice(ciphertext);
        let mut nonce_vec: Vec<u8> = Vec::new();
        nonce_vec.extend_from_slice(nonce);
        Encrypted { cipherbytes, nonce: nonce_vec }
    }

    /// Read an [`Encrypted`] from a base 64 ciphertext and a base 64 nonce.
    pub fn from_b64(b64_ciphertext: &str, b64_nonce: &str) -> (r: Result<Self, Error>)
        ensures
            r matches Ok(e) ==> e.wf() && b64_ciphertext@ == b64_encode(e.cipherbytes@)
                && b64_nonce@ == b64_encode(e.nonce@),
            (exists|u: Seq<u8>| b64_ciphertext@ == b64_encode(u)) && (exists|v: Seq<u8>|
                b64_nonce@ == b64_encode(v) && v.len() == AES256_NONCE_LEN) ==> r is Ok,
            r matches Ok(e) ==> forall|u: Seq<u8>|
                b64_ciphertext@ == b64_encode(u) ==> e.cipherbytes@ == u,
            r matches Ok(e) ==> forall|v: Seq<u8>| b64_nonce@ == b64_encode(v) ==> e.nonce@ == v,
            r matches Err(err) ==> err is InvalidB64Error || err is InvalidLengthB64Error,
    {
        let cipherbytes = crate::helpers::b64_to_bytes(b64_ciphertext)?;
        let nonce = crate::helpers::b64_to_fixed::<12>(b64_nonce, "b64_nonce")?;
        Ok(Encrypted { cipherbytes, nonce })
    }

    /// Decrypt this [`Encrypted`] into a byte vector; fail when the
    /// authentication tag does not verify under the given key.
    pub fn try_decrypt_bytes(&self, key: &Aes256Key) -> (r: Result<Vec<u8>, Error>)
        requires
            self.wf(),
            key.wf(),
        ensures
            r matches Ok(v) ==> aead_open(key@, self.nonce@, self.cipherbytes@) == Some(v@),
            r is Err ==> aead_open(key@, self.nonce@, self.cipherbytes@) is None,
            r matches Err(e) ==> e is DecryptionError,
    {
        match aes256gcm_decrypt(
            key.get_bytes().as_slice(),
            self.nonce.as_slice(),
            self.cipherbytes.as_slice(),
        ) {
            Some(v) => Ok(v),
            None => Err(Error::DecryptionError),
        }
    }

    /// Decrypt this [`Encrypted`] using its key.
    pub fn decrypt(&self, key: &Aes256Key) -> (r: Result<Vec<u8>, Error>)
        requires
            self.wf(),
            key.wf(),
        ensures
            r matches Ok(v) ==> aead_open(key@, self.nonce@, self.cipherbytes@) == Some(v@),
            r is Err ==> aead_open(key@, self.nonce@, self.cipherbytes@) is None,
            r matches Err(e) ==> e is DecryptionError,
    {
        self.try_decrypt_bytes(key)
    }

    /// Return the cipherbytes of this [`Encrypted`].
    pub fn cipherbytes(&self) -> (r: &[u8])
        ensures
            r@ == self.cipherbytes@,
    {
        self.cipherbytes.as_slice()
    }

    /// Return the ciphertext of this [`Encrypted`].
    pub fn ciphertext(&self) -> (r: &[u8])
        ensures
            r@ == self.cipherbytes@,
    {
        self.cipherbytes.as_slice()
    }

    /// Return the ciphertext of this [`Encrypted`] as a base 64 string.
    pub fn ciphertext_as_b64(&self) -> (r: String)
        ensures
            r@ == b64_encode(self.cipherbytes@),
    {
        bytes_to_b64(self.cipherbytes.as_slice())
    }

    /// Return the nonce of this [`Encrypted`].
    pub fn nonce(&self) -> (r: &[u8])
        ensures
            r@ == self.nonce@,
    {
        self.nonce.as_slice()
    }

    /// Return the nonce of this [`Encrypted`] as a base 64 string.
    pub fn nonce_as_b64(&self) -> (r: String)
        ensures
            r@ == b64_encode(self.nonce@),
    {
        bytes_to_b64(self.nonce.as_slice())
    }
}

/// Implementors of this trait can be AES-256 decrypted and converted from an
/// [`Encrypted`].
pub trait TryFromEncrypted: Sized {
    /// Whether a plaintext byte string converts into a value of this type.
    spec fn spec_decodable(bytes: Seq<u8>) -> bool;

    /// Whether this value is the conversion of the given plaintext bytes.
    spec fn spec_is_decoding_of(&self, bytes: Seq<u8>) -> bool;

    /// Decrypt the [`Encrypted`] into the implementing type.
    fn try_decrypt(encrypted: &Encrypted, key: &Aes256Key) -> (r: Result<Self, Error>)
        requires
            encrypted.wf(),
            key.wf(),
        ensures
            r matches Ok(v) ==> (aead_open(key@, encrypted.nonce@, encrypted.cipherbytes@)
                matches Some(p) && v.spec_is_decoding_of(p) && Self::spec_decodable(p)),
            r is Err ==> (aead_open(key@, encrypted.nonce@, encrypted.cipherbytes@)
                matches Some(p) ==> !Self::spec_decodable(p)),
    ;
}

impl TryFromEncrypted for Vec<u8> {
    open spec fn spec_decodable(bytes: Seq<u8>) -> bool {
        true
    }

    open spec fn spec_is_decoding_of(&self, bytes: Seq<u8>) -> bool {
        self@ == bytes
    }

    fn try_decrypt(encrypted: &Encrypted, key: &Aes256Key) -> (r: Result<Self, Error>) {
        encrypted.try_decrypt_bytes(key)
    }
}

impl TryFromEncrypted for String {
    open spec fn spec_decodable(bytes: Seq<u8>) -> bool {
        vstd::utf8::valid_utf8(bytes)
    }

    open spec fn spec_is_decoding_of(&self, bytes: Seq<u8>) -> bool {
        vstd::utf8::valid_utf8(bytes) && self@ == vstd::utf8::decode_utf8(bytes)
    }

    fn try_decrypt(encrypted: &Encrypted, key: &Aes256Key) -> (r: Result<Self, Error>) {
        let bytes = encrypted.try_decrypt_bytes(key)?;
        crate::helpers::bytes_to_utf8(bytes.as_slice(), "decrypted_text")
    }
}

impl TryFromEncrypted for Aes256Key {
    open spec fn spec_decodable(bytes: Seq<u8>) -> bool {
        bytes.len() == AES256_KEY_LEN
    }

    open spec fn spec_is_decoding_of(&self, bytes: Seq<u8>) -> bool {
        self@ == bytes && bytes.len() == AES256_KEY_LEN
    }

    fn try_decrypt(encrypted: &Encrypted, key: &Aes256Key) -> (r: Result<Self, Error>) {
        let bytes = encrypted.try_decrypt_bytes(key)?;
        if bytes.len() == AES256_KEY_LEN {
            Ok(Aes256Key { bytes })
        } else {
            Err(Error::DecryptionError)
        }
    }
}

/// Round trip: decrypting a record that seals a plaintext under a key — as
/// every record produced by encryption under that key does — yields exactly
/// that plaintext.
pub proof fn lemma_seal_open_round_trip(e: Encrypted, key: Seq<u8>, plaintext: Seq<u8>)
    requires
        e.seals(key, plaintext),
    ensures
        aead_open(key, e.nonce@, e.cipherbytes@) == Some(plaintext),
        forall|other: Seq<u8>| e.seals(key, other) ==> other == plaintext,
{
}

} // verus!
