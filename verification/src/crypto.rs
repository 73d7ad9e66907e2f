//! Trusted bindings to the cryptographic primitives: AES-256-GCM sealing and
//! opening, PBKDF2-HMAC-SHA256 key derivation, and random byte generation.
//!
//! What the primitives compute is given names ([`aead_seal`], [`aead_open`],
//! [`pbkdf2_hmac_sha256`]): each is a function of its arguments alone, the
//! same in every process and on every machine.
use aes_gcm::aead::{Aead, KeyInit};
use rand_chacha::rand_core::{RngCore, SeedableRng};
use vstd::prelude::*;

verus! {

/// The longest plaintext AES-GCM accepts, in bytes; sealing anything up to
/// this length succeeds.
pub const AES_GCM_P_MAX: u64 = 0x10_0000_0000;

/// The AES-256-GCM ciphertext (tag appended) of a plaintext under a 32-byte
/// key and a 12-byte nonce, as computed by `aes_gcm::Aes256Gcm::encrypt`.
pub uninterp spec fn aead_seal(key: Seq<u8>, nonce: Seq<u8>, plaintext: Seq<u8>) -> Seq<u8>;

/// What `aes_gcm::Aes256Gcm::decrypt` returns for a 32-byte key, a 12-byte
/// nonce and a ciphertext: the plaintext when the authentication tag
/// verifies, nothing otherwise.
pub uninterp spec fn aead_open(key: Seq<u8>, nonce: Seq<u8>, ciphertext: Seq<u8>) -> Option<
    Seq<u8>,
>;

/// The `out_len`-byte output of PBKDF2-HMAC-SHA256 over a password and a
/// salt with the given round count, as computed by `pbkdf2::pbkdf2_hmac`.
pub uninterp spec fn pbkdf2_hmac_sha256(
    password: Seq<u8>,
    salt: Seq<u8>,
    rounds: u32,
    out_len: nat,
) -> Seq<u8>;

/// Relies on `aes_gcm::Aes256Gcm::encrypt` (via `aead::Aead`): the ciphertext
/// is a function of key, nonce and plaintext; it is the plaintext length plus
/// the 16-byte tag; `decrypt` under the same key and nonce inverts it; and
/// sealing fails only above the plaintext length bound the cipher checks.
#[verifier::external_body]
pub(crate) fn aes256gcm_encrypt(key: &[u8], nonce: &[u8], plaintext: &[u8]) -> (r: Option<
    Vec<u8>,
>)
    requires
        key@.len() == 32,
        nonce@.len() == 12,
    ensures
        r matches Some(c) ==> c@ == aead_seal(key@, nonce@, plaintext@),
        r matches Some(c) ==> aead_open(key@, nonce@, c@) == Some(plaintext@),
        r matches Some(c) ==> c@.len() == plaintext@.len() + 16,
        plaintext@.len() <= AES_GCM_P_MAX ==> r is Some,
{
    let cipher = match aes_gcm::Aes256Gcm::new_from_slice(key) {
        Ok(c) => c,
        Err(_) => return None,
    };
    match cipher.encrypt(aes_gcm::Nonce::from_slice(nonce), plaintext) {
        Ok(cipherbytes) => Some(cipherbytes),
        Err(_) => None,
    }
}

/// Relies on `aes_gcm::Aes256Gcm::decrypt` (via `aead::Aead`): opening is a
/// function of key, nonce and ciphertext; it returns the plaintext exactly
/// when the authentication tag verifies.
#[verifier::external_body]
pub(crate) fn aes256gcm_decrypt(key: &[u8], nonce: &[u8], ciphertext: &[u8]) -> (r: Option<
    Vec<u8>,
>)
    requires
        key@.len() == 32,
        nonce@.len() == 12,
    ensures
        r matches Some(p) ==> aead_open(key@, nonce@, ciphertext@) == Some(p@),
        r is None ==> aead_open(key@, nonce@, ciphertext@) is None,
{
    let cipher = match aes_gcm::Aes256Gcm::new_from_slice(key) {
        Ok(c) => c,
        Err(_) => return None,
    };
    match cipher.decrypt(aes_gcm::Nonce::from_slice(nonce), ciphertext) {
        Ok(plainbytes) => Some(plainbytes),
        Err(_) => None,
    }
}

/// Relies on `pbkdf2::pbkdf2_hmac::<sha2::Sha256>`: it fills the output
/// buffer with a value that depends on the password, salt, round count and
/// output length alone.
#[verifier::external_body]
pub(crate) fn pbkdf2_sha256(password: &[u8], salt: &[u8], rounds: u32, out_len: usize) -> (r:
    Vec<u8>)
    ensures
        r@ == pbkdf2_hmac_sha256(password@, salt@, rounds, out_len as nat),
        r@.len() == out_len,
{
    let mut out = vec![0u8; out_len];
    pbkdf2::pbkdf2_hmac::<sha2::Sha256>(password, salt, rounds, &mut out);
    out
}

/// Relies on `rand_chacha::ChaCha20Rng` seeded from OS entropy
/// (`SeedableRng::from_entropy`, `RngCore::fill_bytes`): it fills the buffer.
/// Nothing is promised of the values beyond their count. Seeding aborts the
/// process when the operating system's entropy source fails — an
/// environmental fault, like running out of memory, that no input excludes.
#[verifier::external_body]
pub(crate) fn random_bytes(len: usize) -> (r: Vec<u8>)
    ensures
        r@.len() == len,
{
    let mut rng = rand_chacha::ChaCha20Rng::from_entropy();
    let mut bytes = vec![0u8; len];
    rng.fill_bytes(&mut bytes);
    bytes
}

} // verus!
