//! The error returned where an operation would leave a vector empty.
use vstd::prelude::*;

verus! {

/// Error returned by operations that would leave a `Vec1` with no element.
#[derive(Debug, Clone, Copy, PartialEq, Eq, Hash, Structural)]
pub struct Size0Error;

impl Size0Error {
    /// The message that describes this error.
    pub fn message(&self) -> (r: &'static str)
        ensures
            r@ == "Cannot produce a Vec1 with a length of zero."@,
    {
        "Cannot produce a Vec1 with a length of zero."
    }
}

} // verus!
