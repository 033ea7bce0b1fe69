//! The elements that a splice took out of a vector.
use vstd::prelude::*;

verus! {

/// The elements that [`crate::Vec1::splice`] took out, in their order.
#[derive(Debug)]
pub struct Splice<T> {
    removed: Vec<T>,
}

impl<T> View for Splice<T> {
    type V = Seq<T>;

    closed spec fn view(&self) -> Seq<T> {
        self.removed@
    }
}

impl<T> Splice<T> {
    pub(crate) fn new(removed: Vec<T>) -> (r: Self)
        ensures
            r@ == removed@,
    {
        Splice { removed }
    }

    /// The number of elements taken out.
    pub fn len(&self) -> (r: usize)
        ensures
            r == self@.len(),
    {
        self.removed.len()
    }

    /// The elements taken out, as a `Vec`.
    pub fn into_vec(self) -> (r: Vec<T>)
        ensures
            r@ == self@,
    {
        self.removed
    }
}

} // verus!
