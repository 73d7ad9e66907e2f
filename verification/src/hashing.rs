//! Functionality related to hashing with PBKDF2-HMAC-SHA256.
use vstd::prelude::*;

use crate::crypto::{pbkdf2_hmac_sha256, pbkdf2_sha256, random_bytes};
use crate::error::Error;
use crate::helpers::{b64_encode, bytes_to_b64};

verus! {

/// The PBKDF2 round count used for every hash. Part of the on-disk format:
/// changing it makes existing records unreadable.
pub const NUM_ITERATIONS: u32 = 50_000;

/// The `out_len`-byte hash this module computes for an input and a salt.
pub open spec fn hashed_bytes(input: Seq<u8>, salt: Seq<u8>, out_len: nat) -> Seq<u8> {
    pbkdf2_hmac_sha256(input, salt, NUM_ITERATIONS, out_len)
}

/// `H` bytes hashed and salted using PBKDF2-HMAC-SHA256 and an `S`-byte salt.
#[derive(Debug)]
pub struct Hashed<const H: usize, const S: usize> {
    /// The `H`-byte hash.
    pub hash: Vec<u8>,
    /// The `S`-byte salt the hash was computed with.
    pub salt: Vec<u8>,
}

impl<const H: usize, const S: usize> Clone for Hashed<H, S> {
    fn clone(&self) -> (r: Self)
        ensures
            r.hash@ == self.hash@,
            r.salt@ == self.salt@,
    {
        Hashed { hash: self.hash.clone(), salt: self.salt.clone() }
    }
}

impl<const H: usize, const S: usize> PartialEq for Hashed<H, S> {
    fn eq(&self, other: &Self) -> (r: bool) {
        let hash_eq = crate::encryption::vecs_equal(&self.hash, &other.hash);
        let salt_eq = crate::encryption::vecs_equal(&self.salt, &other.salt);
        hash_eq && salt_eq
    }
}

impl<const H: usize, const S: usize> vstd::std_specs::cmp::PartialEqSpecImpl for Hashed<H, S> {
    open spec fn obeys_eq_spec() -> bool {
        true
    }

    open spec fn eq_spec(&self, other: &Hashed<H, S>) -> bool {
        self.hash@ == other.hash@ && self.salt@ == other.salt@
    }
}

impl<const H: usize, const S: usize> Hashed<H, S> {
    /// The hash is exactly `H` bytes and the salt exactly `S` bytes.
    pub open spec fn wf(&self) -> bool {
        self.hash@.len() == H && self.salt@.len() == S
    }

    /// This record's hash is the PBKDF2 output for the given input under
    /// this record's own salt.
    pub open spec fn is_hash_of(&self, input: Seq<u8>) -> bool {
        self.hash@ == hashed_bytes(input, self.salt@, H as nat)
    }

    /// Hash and salt a byte slice using a given salt.
    pub fn hash_with_salt(byte_slice: &[u8], salt: Vec<u8>) -> (r: Self)
        requires
            salt@.len() == S,
        ensures
            r.wf(),
            r.salt@ == salt@,
            r.is_hash_of(byte_slice@),
    {
        let hash = pbkdf2_sha256(byte_slice, salt.as_slice(), NUM_ITERATIONS, H);
        Hashed { hash, salt }
    }

    /// Hash a byte slice using a given salt.
    pub fn from_salt(input_bytes: &[u8], salt: &[u8]) -> (r: Self)
        requires
            salt@.len() == S,
        ensures
            r.wf(),
            r.salt@ == salt@,
            r.is_hash_of(input_bytes@),
    {
        let mut salt_vec: Vec<u8> = Vec::new();
        salt_vec.extend_from_slice(salt);
        Hashed::hash_with_salt(input_bytes, salt_vec)
    }

    /// Hash and salt the given bytes with a fresh random salt.
    pub fn new(input_bytes: &[u8]) -> (r: Self)
        ensures
            r.wf(),
            r.is_hash_of(input_bytes@),
    {
        let salt = random_bytes(S);
        Hashed::hash_with_salt(input_bytes, salt)
    }

    /// Create a [`Hashed`] from its fields.
    pub fn from_fields(hash: Vec<u8>, salt: Vec<u8>) -> (r: Self)
        requires
            hash@.len() == H,
            salt@.len() == S,
        ensures
            r.wf(),
            r.hash@ == hash@,
            r.salt@ == salt@,
    {
        Hashed { hash, salt }
    }

    /// Read a [`Hashed`] from a base 64 hash and a base 64 salt.
    pub fn from_b64(b64_hash: &str, b64_salt: &str) -> (r: Result<Self, Error>)
        ensures
            r matches Ok(h) ==> h.wf() && b64_hash@ == b64_encode(h.hash@) && b64_salt@
                == b64_encode(h.salt@),
            (exists|u: Seq<u8>| b64_hash@ == b64_encode(u) && u.len() == H) && (exists|v: Seq<u8>|
                b64_salt@ == b64_encode(v) && v.len() == S) ==> r is Ok,
            r matches Ok(h) ==> (forall|u: Seq<u8>| b64_hash@ == b64_encode(u) ==> h.hash@ == u)
                && (forall|v: Seq<u8>| b64_salt@ == b64_encode(v) ==> h.salt@ == v),
            r matches Err(e) ==> e is InvalidB64Error || e is InvalidLengthB64Error,
            (exists|u: Seq<u8>| b64_hash@ == b64_encode(u)) && (forall|u: Seq<u8>|
                b64_hash@ == b64_encode(u) ==> u.len() != H) ==> (r matches Err(e)
                && e matches Error::InvalidLengthB64Error(d, l, a) && d@ == "b64_hash"@ && l == H
                && (forall|u: Seq<u8>| b64_hash@ == b64_encode(u) ==> a == u.len())),
            (exists|u: Seq<u8>| b64_hash@ == b64_encode(u) && u.len() == H) && (exists|v: Seq<u8>|
                b64_salt@ == b64_encode(v)) && (forall|v: Seq<u8>|
                b64_salt@ == b64_encode(v) ==> v.len() != S) ==> (r matches Err(e)
                && e matches Error::InvalidLengthB64Error(d, l, a) && d@ == "b64_salt"@ && l == S
                && (forall|v: Seq<u8>| b64_salt@ == b64_encode(v) ==> a == v.len())),
    {
        let hash = crate::helpers::b64_to_fixed::<H>(b64_hash, "b64_hash")?;
        let salt = crate::helpers::b64_to_fixed::<S>(b64_salt, "b64_salt")?;
        Ok(Hashed { hash, salt })
    }

    /// Check whether the given bytes match the bytes used to make this
    /// [`Hashed`]: hash them under this record's salt and compare.
    pub fn check_match(&self, byte_slice: &[u8]) -> (r: bool)
        requires
            self.wf(),
        ensures
            r == (self.hash@ == hashed_bytes(byte_slice@, self.salt@, H as nat)),
    {
        let hashed_input = Hashed::<H, S>::from_salt(byte_slice, self.salt.as_slice());
        crate::encryption::vecs_equal(&self.hash, &hashed_input.hash)
    }

    /// Return the hash of this [`Hashed`].
    pub fn hash(&self) -> (r: &Vec<u8>)
        ensures
            r@ == self.hash@,
    {
        &self.hash
    }

    /// Return the hash of this [`Hashed`] as a base 64 string.
    pub fn hash_as_b64(&self) -> (r: String)
        ensures
            r@ == b64_encode(self.hash@),
    {
        bytes_to_b64(self.hash.as_slice())
    }

    /// Return the salt of this [`Hashed`].
    pub fn salt(&self) -> (r: &Vec<u8>)
        ensures
            r@ == self.salt@,
    {
        &self.salt
    }

    /// Return the salt of this [`Hashed`] as a base 64 string.
    pub fn salt_as_b64(&self) -> (r: String)
        ensures
            r@ == b64_encode(self.salt@),
    {
        bytes_to_b64(self.salt.as_slice())
    }
}

/// Hash determinism: hashing the same input under the same salt always
/// yields the same hash, on every call.
pub proof fn lemma_pbkdf2_deterministic<const H: usize, const S: usize>(
    h1: Hashed<H, S>,
    h2: Hashed<H, S>,
    input: Seq<u8>,
)
    requires
        h1.is_hash_of(input),
        h2.is_hash_of(input),
        h1.salt@ == h2.salt@,
    ensures
        h1.hash@ == h2.hash@,
{
}

} // verus!
