//! Helpers for user input validation.
use vstd::prelude::*;
use vstd::string::StrSliceExecFns;

use crate::error::Error;

verus! {

/// The byte length of a piece of text, as `str::len` reports it.
pub open spec fn spec_byte_len(text: Seq<char>) -> usize {
    vstd::utf8::encode_utf8(text).len() as usize
}

/// Ensure that the given string satisfies the given restrictions: its byte
/// length lies between the bounds and it contains none of the forbidden
/// characters.
pub fn validate_input(input: String, min_len: usize, max_len: usize, forbidden_chars: &str) -> (r:
    Result<(), Error>)
    ensures
        r is Ok <==> {
            &&& min_len <= spec_byte_len(input@) <= max_len
            &&& forall|i: int, j: int|
                0 <= i < input@.len() && 0 <= j < forbidden_chars@.len() ==> input@[i]
                    != forbidden_chars@[j]
        },
{
    if input.as_str().len() < min_len {
        return Err(Error::UnhandledError("input shorter than the minimum length".to_owned()));
    }
    if input.as_str().len() > max_len {
        return Err(Error::UnhandledError("input longer than the maximum length".to_owned()));
    }
    let input_str = input.as_str();
    let forbidden_len = forbidden_chars.unicode_len();
    let input_len = input_str.unicode_len();
    let mut f: usize = 0;
    while f < forbidden_len
        invariant
            forbidden_len == forbidden_chars@.len(),
            input_len == input_str@.len(),
            input_str@ == input@,
            0 <= f <= forbidden_len,
            forall|i: int, j: int|
                0 <= i < input@.len() && 0 <= j < f ==> input@[i] != forbidden_chars@[j],
        decreases forbidden_len - f,
    {
        let f_char = forbidden_chars.get_char(f);
        let mut i: usize = 0;
        while i < input_len
            invariant
                input_len == input_str@.len(),
                input_str@ == input@,
                0 <= f < forbidden_chars@.len(),
                f_char == forbidden_chars@[f as int],
                0 <= i <= input_len,
                forall|k: int| 0 <= k < i ==> input@[k] != f_char,
            decreases input_len - i,
        {
            let i_char = input_str.get_char(i);
            if i_char == f_char {
                return Err(
                    Error::UnhandledError("input contains a forbidden character".to_owned()),
                );
            }
            i = i + 1;
        }
        f = f + 1;
    }
    Ok(())
}

} // verus!
