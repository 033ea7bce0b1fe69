//! Ranges of indices, given by a pair of bounds, and the question whether one
//! spans a whole vector.
use vstd::prelude::*;

use core::ops::Bound;

verus! {

#[verifier::external_type_specification]
#[verifier::reject_recursive_types(T)]
pub struct ExBound<T>(Bound<T>);

/// The first index that a start bound admits.
pub open spec fn start_index(b: Bound<usize>) -> int {
    match b {
        Bound::Included(i) => i as int,
        Bound::Excluded(i) => i + 1,
        Bound::Unbounded => 0,
    }
}

/// One past the last index that an end bound admits, in a vector of length `len`.
pub open spec fn end_index(b: Bound<usize>, len: int) -> int {
    match b {
        Bound::Included(i) => i + 1,
        Bound::Excluded(i) => i as int,
        Bound::Unbounded => len,
    }
}

/// Whether `range` selects a run of indices of a vector of length `len`
/// (a range that starts after it ends, or reaches past the end, does not).
pub open spec fn range_in_bounds(range: (Bound<usize>, Bound<usize>), len: int) -> bool {
    start_index(range.0) <= end_index(range.1, len) <= len
}

/// Whether `range` starts at index 0.
pub open spec fn covers_start(range: (Bound<usize>, Bound<usize>)) -> bool {
    start_index(range.0) <= 0
}

/// Whether `range`, applied to a vector of length `len`, reaches its last index.
pub open spec fn covers_end(range: (Bound<usize>, Bound<usize>), len: int) -> bool {
    end_index(range.1, len) >= len
}

/// Tells whether `range` covers index 0.
pub fn range_covers_vec_start(range: &(Bound<usize>, Bound<usize>)) -> (r: bool)
    ensures
        r == covers_start(*range),
{
    match range.0 {
        Bound::Included(idx) => idx == 0,
        // no index comes before 0, so an excluded start never covers it
        Bound::Excluded(_idx) => false,
        Bound::Unbounded => true,
    }
}

/// Tells whether `range` reaches the last index of a vector of length `len`.
pub fn range_covers_vec_end(range: &(Bound<usize>, Bound<usize>), len: usize) -> (r: bool)
    requires
        range.1 is Included ==> len >= 1,
    ensures
        r == covers_end(*range, len as int),
{
    match range.1 {
        // the last index is len - 1
        Bound::Included(idx) => idx >= len - 1,
        // an excluded end covers the last index when it is at least len
        Bound::Excluded(idx) => idx >= len,
        Bound::Unbounded => true,
    }
}

/// Tells whether `range` spans every index of a non-empty vector of length `len`.
pub fn range_covers_vec1(range: &(Bound<usize>, Bound<usize>), vec1_len: usize) -> (r: bool)
    requires
        vec1_len >= 1,
    ensures
        r == (covers_start(*range) && covers_end(*range, vec1_len as int)),
{
    range_covers_vec_start(range) && range_covers_vec_end(range, vec1_len)
}

/// The first index that `range` selects, for a range within a vector of length `len`.
pub(crate) fn start_of(range: &(Bound<usize>, Bound<usize>), len: usize) -> (r: usize)
    requires
        range_in_bounds(*range, len as int),
    ensures
        r == start_index(range.0),
{
    match range.0 {
        Bound::Included(idx) => idx,
        Bound::Excluded(idx) => idx + 1,
        Bound::Unbounded => 0,
    }
}

/// One past the last index that `range` selects, for a range within a vector of length `len`.
pub(crate) fn end_of(range: &(Bound<usize>, Bound<usize>), len: usize) -> (r: usize)
    requires
        range_in_bounds(*range, len as int),
    ensures
        r == end_index(range.1, len as int),
{
    match range.1 {
        Bound::Included(idx) => idx + 1,
        Bound::Excluded(idx) => idx,
        Bound::Unbounded => len,
    }
}

} // verus!
