//! Functionality centred around the [`Salt`] struct.
use vstd::prelude::*;

use crate::crypto::random_bytes;
use crate::error::Error;
use crate::helpers::{b64_encode, b64_to_bytes, bytes_to_b64};

verus! {

/// A cryptographic salt utilised for password storage, kept both as raw
/// bytes and as their base 64 text form.
#[derive(Debug)]
pub struct Salt {
    /// The raw salt bytes.
    pub bytes: Vec<u8>,
    /// The base 64 encoding of the salt bytes.
    pub string: String,
}

impl Salt {
    /// The text form is the base 64 encoding of the byte form.
    pub open spec fn wf(&self) -> bool {
        self.string@ == b64_encode(self.bytes@)
    }

    /// Generate a random [`Salt`] of a given length.
    pub fn new(length: usize) -> (r: Self)
        ensures
            r.wf(),
            r.bytes@.len() == length,
    {
        let bytes = random_bytes(length);
        let string = bytes_to_b64(bytes.as_slice());
        Salt { bytes, string }
    }

    /// Read a [`Salt`] from a given base 64 string.
    pub fn from_string(string: &str) -> (r: Result<Self, Error>)
        ensures
            r matches Ok(s) ==> s.wf() && s.string@ == string@,
            (exists|u: Seq<u8>| string@ == b64_encode(u)) ==> r is Ok,
            r matches Ok(s) ==> forall|u: Seq<u8>| string@ == b64_encode(u) ==> s.bytes@ == u,
    {
        let bytes = b64_to_bytes(string)?;
        Ok(Salt { bytes, string: string.to_owned() })
    }

    /// Read a [`Salt`] from a given byte slice.
    pub fn from_bytes(bytes: &[u8]) -> (r: Self)
        ensures
            r.wf(),
            r.bytes@ == bytes@,
    {
        let mut bytes_vec: Vec<u8> = Vec::new();
        bytes_vec.extend_from_slice(bytes);
        let string = bytes_to_b64(bytes_vec.as_slice());
        Salt { bytes: bytes_vec, string }
    }

    /// Get this salt in bytes form.
    pub fn get_bytes(&self) -> (r: &Vec<u8>)
        ensures
            r@ == self.bytes@,
    {
        &self.bytes
    }

    /// Get this salt in base 64 ASCII string form.
    pub fn get_str(&self) -> (r: &str)
        ensures
            r@ == self.string@,
    {
        self.string.as_str()
    }
}

} // verus!
