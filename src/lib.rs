//! Vectors that always hold at least one element.
//!
//! [`Vec1`] wraps a `Vec`, and [`SmallVec1`] is sized for a fixed number of
//! elements and converts to and from arrays of that size. Every operation
//! keeps at least one element: those that could remove the last one return a
//! [`Size0Error`] instead, and leave the vector as it was.
use vstd::prelude::*;

mod bytes;
mod error;
mod range;
mod small_vec1;
mod splice;
mod vec1;

pub use bytes::{ascii_lower, ascii_upper};
pub use error::Size0Error;
pub use range::{
    covers_end, covers_start, end_index, range_covers_vec1, range_covers_vec_end,
    range_covers_vec_start, range_in_bounds, start_index,
};
pub use small_vec1::SmallVec1;
pub use splice::Splice;
pub use vec1::{as_non_empty, dedup_of, kept, lemma_round_trip, retained, Vec1};
