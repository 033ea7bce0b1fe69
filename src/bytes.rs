//! Byte vectors: case mapping of ASCII letters, and conversion from text.
use vstd::prelude::*;

use vstd::string::StringSliceAdditionalSpecFns;

use crate::error::Size0Error;
use crate::vec1::Vec1;

verus! {

/// The upper case of an ASCII letter; any other byte is itself.
pub open spec fn ascii_upper(b: u8) -> u8 {
    if 97 <= b <= 122 {
        (b - 32) as u8
    } else {
        b
    }
}

/// The lower case of an ASCII letter; any other byte is itself.
pub open spec fn ascii_lower(b: u8) -> u8 {
    if 65 <= b <= 90 {
        (b + 32) as u8
    } else {
        b
    }
}

/// Relies on `<[u8]>::to_ascii_uppercase`: a new vector in which each byte
/// `a..=z` becomes `A..=Z` and every other byte stays as it is.
#[verifier::external_body]
fn slice_to_ascii_uppercase(b: &[u8]) -> (r: Vec<u8>)
    ensures
        r@.len() == b@.len(),
        forall|i: int| 0 <= i < b@.len() ==> #[trigger] r@[i] == ascii_upper(b@[i]),
{
    b.to_ascii_uppercase()
}

/// Relies on `<[u8]>::to_ascii_lowercase`: a new vector in which each byte
/// `A..=Z` becomes `a..=z` and every other byte stays as it is.
#[verifier::external_body]
fn slice_to_ascii_lowercase(b: &[u8]) -> (r: Vec<u8>)
    ensures
        r@.len() == b@.len(),
        forall|i: int| 0 <= i < b@.len() ==> #[trigger] r@[i] == ascii_lower(b@[i]),
{
    b.to_ascii_lowercase()
}

impl Vec1<u8> {
    /// A copy in which the ASCII letters are in upper case.
    pub fn to_ascii_uppercase(&self) -> (r: Vec1<u8>)
        requires
            self.wf(),
        ensures
            r.wf(),
            r@.len() == self@.len(),
            forall|i: int| 0 <= i < self@.len() ==> #[trigger] r@[i] == ascii_upper(self@[i]),
    {
        Vec1::from_non_empty(slice_to_ascii_uppercase(self.as_slice()))
    }

    /// A copy in which the ASCII letters are in lower case.
    pub fn to_ascii_lowercase(&self) -> (r: Vec1<u8>)
        requires
            self.wf(),
        ensures
            r.wf(),
            r@.len() == self@.len(),
            forall|i: int| 0 <= i < self@.len() ==> #[trigger] r@[i] == ascii_lower(self@[i]),
    {
        Vec1::from_non_empty(slice_to_ascii_lowercase(self.as_slice()))
    }

    /// Takes the UTF-8 bytes of `s`; fails if `s` is empty.
    pub fn try_from_str(s: &str) -> (r: Result<Vec1<u8>, Size0Error>)
        ensures
            r is Ok <==> s.spec_bytes().len() >= 1,
            r matches Ok(v) ==> v.wf() && v@ == s.spec_bytes(),
            r matches Err(e) ==> e == Size0Error,
    {
        let bytes = vstd::slice::slice_to_vec(s.as_bytes());
        Vec1::try_from_vec(bytes)
    }
}

} // verus!
