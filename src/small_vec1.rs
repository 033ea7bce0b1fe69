//! A non-empty vector sized for `N` elements, that converts to and from
//! arrays of exactly `N` elements. Its guarded operations are those of
//! [`Vec1`], on which it is built.
use vstd::prelude::*;

use core::ops::Bound;
use vstd::std_specs::cmp::PartialEqSpec;

use crate::error::Size0Error;
use crate::vec1::{as_non_empty, dedup_of, Vec1};

verus! {

/// Relies on `From<[T; N]> for Vec<T>`: the array's elements, moved into a
/// vector in their order.
#[verifier::external_body]
fn array_into_vec<T, const N: usize>(buf: [T; N]) -> (r: Vec<T>)
    ensures
        r@ == buf@,
{
    Vec::from(buf)
}

/// Relies on `TryFrom<Vec<T>> for [T; N]`: the vector's elements as an array
/// when there are exactly `N` of them; otherwise the vector comes back.
#[verifier::external_body]
fn vec_into_array<T, const N: usize>(vec: Vec<T>) -> (r: Result<[T; N], Vec<T>>)
    ensures
        r is Ok <==> vec@.len() == N,
        r matches Ok(a) ==> a@ == vec@,
        r matches Err(v) ==> v@ == vec@,
{
    <[T; N]>::try_from(vec)
}

/// A vector with at least one element, sized for `N` elements.
#[derive(Debug, Clone, PartialEq, Eq, Hash, PartialOrd, Ord)]
pub struct SmallVec1<T, const N: usize> {
    items: Vec1<T>,
}

impl<T, const N: usize> View for SmallVec1<T, N> {
    type V = Seq<T>;

    closed spec fn view(&self) -> Seq<T> {
        self.items@
    }
}

impl<T, const N: usize> SmallVec1<T, N> {
    /// The invariant of every `SmallVec1`: it holds at least one element.
    pub open spec fn wf(&self) -> bool {
        self@.len() >= 1
    }

    /// Creates a `SmallVec1` that holds `first` alone.
    pub fn new(first: T) -> (r: Self)
        ensures
            r.wf(),
            r@ == seq![first],
    {
        SmallVec1 { items: Vec1::new(first) }
    }

    /// Creates a `SmallVec1` that holds `first` alone, with room for at least
    /// `capacity` elements and never less than `N`.
    pub fn with_capacity(first: T, capacity: usize) -> (r: Self)
        ensures
            r.wf(),
            r@ == seq![first],
    {
        let room = if capacity < N { N } else { capacity };
        SmallVec1 { items: Vec1::with_capacity(first, room) }
    }

    /// Takes the elements of `vec`; fails if it is empty.
    pub fn try_from_vec(vec: Vec<T>) -> (r: Result<Self, Size0Error>)
        ensures
            r is Ok <==> vec@.len() >= 1,
            r matches Ok(v) ==> v.wf() && as_non_empty(vec@) == Some(v@),
            r matches Err(e) ==> e == Size0Error,
    {
        match Vec1::try_from_vec(vec) {
            Ok(items) => Ok(SmallVec1 { items }),
            Err(e) => Err(e),
        }
    }

    /// Takes the elements of the array `buf`; fails if `N` is 0.
    pub fn try_from_buf(buf: [T; N]) -> (r: Result<Self, Size0Error>)
        ensures
            r is Ok <==> N >= 1,
            r matches Ok(v) ==> v.wf() && v@ == buf@,
            r matches Err(e) ==> e == Size0Error,
    {
        Self::try_from_vec(array_into_vec(buf))
    }

    /// Takes the first `len` elements of the array `buf`; fails if `len` is 0.
    pub fn try_from_buf_and_len(buf: [T; N], len: usize) -> (r: Result<Self, Size0Error>)
        requires
            len <= N,
        ensures
            r is Ok <==> len >= 1,
            r matches Ok(v) ==> v.wf() && v@ == buf@.subrange(0, len as int),
            r matches Err(e) ==> e == Size0Error,
    {
        let mut vec = array_into_vec(buf);
        vec.truncate(len);
        Self::try_from_vec(vec)
    }

    /// Turns this into the array of its elements, if it holds exactly `N`;
    /// otherwise hands it back unchanged.
    pub fn into_inner(self) -> (r: Result<[T; N], Self>)
        requires
            self.wf(),
        ensures
            r is Ok <==> self@.len() == N,
            r matches Ok(a) ==> a@ == self@,
            r matches Err(v) ==> v.wf() && v@ == self@,
    {
        match vec_into_array(self.items.into_vec()) {
            Ok(a) => Ok(a),
            Err(vec) => Err(SmallVec1 { items: Vec1::from_non_empty(vec) }),
        }
    }

    /// Turns this into a `Vec` with the same elements.
    pub fn into_vec(self) -> (r: Vec<T>)
        requires
            self.wf(),
        ensures
            r@ == self@,
    {
        self.items.into_vec()
    }

    /// The number of elements it holds without growing past its size `N`.
    pub fn inline_size(&self) -> (r: usize)
        ensures
            r == N,
    {
        N
    }

    /// The number of elements, which is never zero.
    pub fn len(&self) -> (r: usize)
        requires
            self.wf(),
        ensures
            r == self@.len(),
            r >= 1,
    {
        self.items.len()
    }

    /// The elements as a slice.
    pub fn as_slice(&self) -> (r: &[T])
        requires
            self.wf(),
        ensures
            r@ == self@,
    {
        self.items.as_slice()
    }

    /// The elements as a mutable slice, through which the length cannot change.
    pub fn as_mut_slice(&mut self) -> (r: &mut [T])
        requires
            old(self).wf(),
        ensures
            r@ == old(self)@,
            final(self)@ == final(r)@,
    {
        self.items.as_mut_slice()
    }

    /// The first element, which always exists.
    pub fn first(&self) -> (r: &T)
        requires
            self.wf(),
        ensures
            *r == self@[0],
    {
        self.items.first()
    }

    /// The last element, which always exists.
    pub fn last(&self) -> (r: &T)
        requires
            self.wf(),
        ensures
            *r == self@.last(),
    {
        self.items.last()
    }

    /// A mutable reference to the first element, which always exists.
    pub fn first_mut(&mut self) -> (r: &mut T)
        requires
            old(self).wf(),
        ensures
            *r == old(self)@[0],
            final(self)@ == old(self)@.update(0, *final(r)),
    {
        self.items.first_mut()
    }

    /// A mutable reference to the last element, which always exists.
    pub fn last_mut(&mut self) -> (r: &mut T)
        requires
            old(self).wf(),
        ensures
            *r == old(self)@.last(),
            final(self)@ == old(self)@.update(old(self)@.len() - 1, *final(r)),
    {
        self.items.last_mut()
    }

    /// Appends an element at the end.
    pub fn push(&mut self, value: T)
        requires
            old(self).wf(),
        ensures
            final(self).wf(),
            final(self)@ == old(self)@.push(value),
    {
        self.items.push(value);
    }

    /// Inserts an element at position `idx`, shifting those after it.
    pub fn insert(&mut self, idx: usize, val: T)
        requires
            old(self).wf(),
            idx <= old(self)@.len(),
        ensures
            final(self).wf(),
            final(self)@ == old(self)@.insert(idx as int, val),
    {
        self.items.insert(idx, val);
    }

    /// Inserts the elements of `items`, in their order, at position `index`.
    pub fn insert_many(&mut self, index: usize, items: Vec<T>)
        requires
            old(self).wf(),
            index <= old(self)@.len(),
        ensures
            final(self).wf(),
            final(self)@ == old(self)@.subrange(0, index as int) + items@ + old(self)@.subrange(
                index as int,
                old(self)@.len() as int,
            ),
    {
        // an empty range leaves the elements around it in place, and is
        // never refused, as it cannot span a non-empty vector
        let _ = self.items.splice((Bound::Included(index), Bound::Excluded(index)), items);
    }

    /// Removes and returns the last element, unless it is the only one.
    pub fn try_pop(&mut self) -> (r: Result<T, Size0Error>)
        requires
            old(self).wf(),
        ensures
            final(self).wf(),
            old(self)@.len() > 1 ==> r == Ok::<T, Size0Error>(old(self)@.last())
                && final(self)@ == old(self)@.drop_last(),
            old(self)@.len() == 1 ==> r == Err::<T, Size0Error>(Size0Error)
                && final(self)@ == old(self)@,
    {
        self.items.pop()
    }

    /// Removes and returns the element at `index`, shifting those after it,
    /// unless it is the only element.
    pub fn try_remove(&mut self, index: usize) -> (r: Result<T, Size0Error>)
        requires
            old(self).wf(),
            old(self)@.len() > 1 ==> index < old(self)@.len(),
        ensures
            final(self).wf(),
            old(self)@.len() > 1 ==> r == Ok::<T, Size0Error>(old(self)@[index as int])
                && final(self)@ == old(self)@.remove(index as int),
            old(self)@.len() == 1 ==> r == Err::<T, Size0Error>(Size0Error)
                && final(self)@ == old(self)@,
    {
        self.items.remove(index)
    }

    /// Removes and returns the element at `index`, putting the last element in
    /// its place, unless it is the only element.
    pub fn try_swap_remove(&mut self, index: usize) -> (r: Result<T, Size0Error>)
        requires
            old(self).wf(),
            old(self)@.len() > 1 ==> index < old(self)@.len(),
        ensures
            final(self).wf(),
            old(self)@.len() > 1 ==> r == Ok::<T, Size0Error>(old(self)@[index as int])
                && final(self)@ == old(self)@.update(index as int, old(self)@.last()).drop_last(),
            old(self)@.len() == 1 ==> r == Err::<T, Size0Error>(Size0Error)
                && final(self)@ == old(self)@,
    {
        self.items.swap_remove(index)
    }

    /// Shortens to the first `len` elements (no change if there are not more);
    /// fails, changing nothing, if `len` is 0.
    pub fn try_truncate(&mut self, len: usize) -> (r: Result<(), Size0Error>)
        requires
            old(self).wf(),
        ensures
            final(self).wf(),
            r is Ok <==> len > 0,
            r matches Err(e) ==> e == Size0Error && final(self)@ == old(self)@,
            len > 0 && len <= old(self)@.len() ==> final(self)@ == old(self)@.subrange(0, len as int),
            len > old(self)@.len() ==> final(self)@ == old(self)@,
    {
        self.items.truncate(len)
    }

    /// Resizes to `new_len` elements, dropping those past it or appending the
    /// results of calls of `f`; fails, changing nothing, if `new_len` is 0.
    pub fn try_resize_with<F>(&mut self, new_len: usize, f: F) -> (r: Result<(), Size0Error>)
        where
            F: FnMut() -> T,
        requires
            old(self).wf(),
            f.requires(()),
        ensures
            final(self).wf(),
            r is Ok <==> new_len > 0,
            r matches Err(e) ==> e == Size0Error && final(self)@ == old(self)@,
            r is Ok ==> final(self)@.len() == new_len,
            r is Ok && new_len <= old(self)@.len() ==> final(self)@ == old(self)@.subrange(
                0,
                new_len as int,
            ),
            r is Ok && new_len > old(self)@.len() ==> {
                &&& final(self)@.subrange(0, old(self)@.len() as int) == old(self)@
                &&& forall|i: int|
                    old(self)@.len() <= i < new_len ==> f.ensures((), #[trigger] final(self)@[i])
            },
    {
        self.items.resize_with(new_len, f)
    }

    /// Moves all elements of `other` to the end, leaving `other` empty.
    pub fn append(&mut self, other: &mut Vec<T>)
        requires
            old(self).wf(),
        ensures
            final(self).wf(),
            final(self)@ == old(self)@ + old(other)@,
            final(other)@.len() == 0,
    {
        self.items.append(other);
    }

    /// Reserves room for at least `additional` more elements.
    pub fn reserve(&mut self, additional: usize)
        requires
            old(self).wf(),
        ensures
            final(self).wf(),
            final(self)@ == old(self)@,
    {
        self.items.reserve(additional);
    }

    /// The number of elements it can hold without reallocating.
    pub fn capacity(&self) -> (r: usize)
        requires
            self.wf(),
        ensures
            r >= self@.len(),
    {
        self.items.capacity()
    }

    /// Takes the first element apart from the others.
    pub fn split_off_first(self) -> (r: (T, Vec<T>))
        requires
            self.wf(),
        ensures
            r.0 == self@[0],
            r.1@ == self@.subrange(1, self@.len() as int),
    {
        self.items.split_off_first()
    }

    /// Takes the last element apart from the others.
    pub fn split_off_last(self) -> (r: (Vec<T>, T))
        requires
            self.wf(),
        ensures
            r.0@ == self@.drop_last(),
            r.1 == self@.last(),
    {
        self.items.split_off_last()
    }
}

impl<T: PartialEq, const N: usize> SmallVec1<T, N> {
    /// Removes every element equal to the element kept before it, so that each
    /// run of adjacent equal elements shrinks to its first element.
    pub fn dedup(&mut self)
        requires
            old(self).wf(),
        ensures
            final(self).wf(),
            final(self)@.len() <= old(self)@.len(),
            T::obeys_eq_spec() ==> final(self)@ == dedup_of(old(self)@),
    {
        self.items.dedup();
    }
}

impl<T: Clone, const N: usize> SmallVec1<T, N> {
    /// Takes clones of the elements of `slice`; fails if it is empty.
    pub fn try_from_slice(slice: &[T]) -> (r: Result<Self, Size0Error>)
        ensures
            r is Ok <==> slice@.len() >= 1,
            r matches Err(e) ==> e == Size0Error,
            r matches Ok(v) ==> {
                &&& v.wf()
                &&& v@.len() == slice@.len()
                &&& forall|i: int| 0 <= i < slice@.len() ==> cloned::<T>(slice@[i], #[trigger] v@[i])
            },
    {
        match Vec1::try_from_slice(slice) {
            Ok(items) => Ok(SmallVec1 { items }),
            Err(e) => Err(e),
        }
    }

    /// Holds `len` clones of `element`; fails if `len` is 0.
    pub fn try_from_elem(element: T, len: usize) -> (r: Result<Self, Size0Error>)
        ensures
            r is Ok <==> len >= 1,
            r matches Err(e) ==> e == Size0Error,
            r matches Ok(v) ==> {
                &&& v.wf()
                &&& v@.len() == len
                &&& forall|i: int| 0 <= i < len ==> cloned::<T>(element, #[trigger] v@[i])
            },
    {
        if len == 0 {
            return Err(Size0Error);
        }
        let mut vec: Vec<T> = Vec::new();
        vec.resize(len, element);
        Self::try_from_vec(vec)
    }

    /// Resizes to `len` elements, dropping those past it or appending clones of
    /// `value`; fails, changing nothing, if `len` is 0.
    pub fn try_resize(&mut self, len: usize, value: T) -> (r: Result<(), Size0Error>)
        requires
            old(self).wf(),
        ensures
            final(self).wf(),
            r is Ok <==> len > 0,
            r matches Err(e) ==> e == Size0Error && final(self)@ == old(self)@,
            r is Ok && len <= old(self)@.len() ==> final(self)@ == old(self)@.subrange(0, len as int),
            r is Ok && len > old(self)@.len() ==> {
                &&& final(self)@.len() == len
                &&& final(self)@.subrange(0, old(self)@.len() as int) == old(self)@
                &&& forall|i: int|
                    old(self)@.len() <= i < len ==> cloned::<T>(value, #[trigger] final(self)@[i])
            },
    {
        self.items.resize(len, value)
    }

    /// Appends clones of the elements of `slice`.
    pub fn extend_from_slice(&mut self, slice: &[T])
        requires
            old(self).wf(),
        ensures
            final(self).wf(),
            final(self)@.len() == old(self)@.len() + slice@.len(),
            final(self)@.subrange(0, old(self)@.len() as int) == old(self)@,
            forall|i: int|
                0 <= i < slice@.len() ==> cloned::<T>(
                    slice@[i],
                    #[trigger] final(self)@[old(self)@.len() + i],
                ),
    {
        self.items.extend_from_slice(slice);
    }

    /// Inserts clones of the elements of `slice`, in their order, at position `index`.
    pub fn insert_from_slice(&mut self, index: usize, slice: &[T])
        requires
            old(self).wf(),
            index <= old(self)@.len(),
        ensures
            final(self).wf(),
            final(self)@.len() == old(self)@.len() + slice@.len(),
            final(self)@.subrange(0, index as int) == old(self)@.subrange(0, index as int),
            final(self)@.subrange(index + slice@.len(), final(self)@.len() as int)
                == old(self)@.subrange(index as int, old(self)@.len() as int),
            forall|i: int|
                0 <= i < slice@.len() ==> cloned::<T>(slice@[i], #[trigger] final(self)@[index + i]),
    {
        let mut copies: Vec<T> = Vec::with_capacity(slice.len());
        let mut i: usize = 0;
        while i < slice.len()
            invariant
                i <= slice@.len(),
                copies@.len() == i,
                forall|j: int| 0 <= j < i ==> cloned::<T>(slice@[j], #[trigger] copies@[j]),
            decreases slice@.len() - i,
        {
            copies.push(slice[i].clone());
            i = i + 1;
        }
        let ghost before = self@;
        let ghost added = copies@;
        self.insert_many(index, copies);
        assert(self@.subrange(0, index as int) =~= before.subrange(0, index as int));
        assert(self@.subrange(index + added.len(), self@.len() as int) =~= before.subrange(
            index as int,
            before.len() as int,
        ));
        assert forall|i: int| 0 <= i < slice@.len() implies cloned::<T>(
            slice@[i],
            #[trigger] self@[index + i],
        ) by {
            assert(self@[index + i] == added[i]);
        }
    }
}

} // verus!
