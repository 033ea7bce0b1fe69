//! The non-empty vector type, its contracts, and the laws that relate its operations.
use vstd::prelude::*;

use core::ops::Bound;
use std::collections::VecDeque;
use vstd::std_specs::cmp::PartialEqSpec;

use crate::error::Size0Error;
use crate::range::{
    covers_end, covers_start, end_index, end_of, range_covers_vec1, range_in_bounds, start_index,
    start_of,
};
use crate::splice::Splice;

verus! {

/// A `Vec` that always holds at least one element.
///
/// Methods of `Vec` that cannot shrink it are offered as they are; those that
/// could empty it return a `Size0Error` instead of doing so.
#[derive(Debug, Clone, PartialEq, Eq, Hash, PartialOrd, Ord)]
pub struct Vec1<T>(Vec<T>);

impl<T> View for Vec1<T> {
    type V = Seq<T>;

    closed spec fn view(&self) -> Seq<T> {
        self.0@
    }
}

impl<T: Default> Default for Vec1<T> {
    /// A `Vec1` that holds the default value of `T` alone.
    fn default() -> (r: Self)
        ensures
            r.wf(),
            r@.len() == 1,
    {
        Vec1::new(T::default())
    }
}

/// Relies on `Vec::capacity`: the number of elements the vector can hold
/// without reallocating, never less than its length.
#[verifier::external_body]
fn vec_capacity<T>(v: &Vec<T>) -> (r: usize)
    ensures
        r >= v@.len(),
{
    v.capacity()
}

/// Relies on `Vec::reserve_exact`: only the capacity changes, not the elements.
#[verifier::external_body]
fn vec_reserve_exact<T>(v: &mut Vec<T>, additional: usize)
    ensures
        final(v)@ == old(v)@,
{
    v.reserve_exact(additional)
}

/// Relies on `Vec::shrink_to_fit`: only the capacity changes, not the elements.
#[verifier::external_body]
fn vec_shrink_to_fit<T>(v: &mut Vec<T>)
    ensures
        final(v)@ == old(v)@,
{
    v.shrink_to_fit()
}

/// The elements of `s` whose flag in `keep` is set, in their order.
pub open spec fn kept<T>(s: Seq<T>, keep: Seq<bool>) -> Seq<T>
    decreases s.len(),
{
    if s.len() == 0 {
        Seq::empty()
    } else if keep[s.len() - 1] {
        kept(s.drop_last(), keep).push(s.last())
    } else {
        kept(s.drop_last(), keep)
    }
}

/// What a filter leaves of the non-empty `s`, given the flags in `keep`, and
/// whether it kept any element by its flag. When no flag is set, the last
/// element stays all the same.
pub open spec fn retained<T>(s: Seq<T>, keep: Seq<bool>) -> (Seq<T>, bool) {
    if exists|i: int| 0 <= i < s.len() && keep[i] {
        (kept(s, keep), true)
    } else {
        (seq![s.last()], false)
    }
}

/// `s` as the contents of a `Vec1`, where that is possible.
pub open spec fn as_non_empty<T>(s: Seq<T>) -> Option<Seq<T>> {
    if s.len() >= 1 {
        Some(s)
    } else {
        None
    }
}

/// A non-empty sequence is exactly what a `Vec1` can hold: turning a non-empty
/// sequence into a `Vec1` and back gives the same sequence, and turning a
/// `Vec1` into a sequence and back gives the same `Vec1`.
pub proof fn lemma_round_trip<T>(s: Seq<T>, v: Vec1<T>)
    requires
        s.len() >= 1,
        v.wf(),
    ensures
        as_non_empty(s) == Some(s),
        as_non_empty(v@) == Some(v@),
{
}

proof fn lemma_kept_len<T>(s: Seq<T>, keep: Seq<bool>)
    ensures
        kept(s, keep).len() <= s.len(),
        (exists|i: int| 0 <= i < s.len() && keep[i]) <==> kept(s, keep).len() >= 1,
    decreases s.len(),
{
    if s.len() > 0 {
        lemma_kept_len(s.drop_last(), keep);
        if exists|i: int| 0 <= i < s.len() && keep[i] {
            let i = choose|i: int| 0 <= i < s.len() && keep[i];
            if i < s.len() - 1 {
                assert(0 <= i < s.drop_last().len() && keep[i]);
            }
        }
        if kept(s.drop_last(), keep).len() >= 1 {
            let i = choose|i: int| 0 <= i < s.drop_last().len() && keep[i];
            assert(0 <= i < s.len() && keep[i]);
        }
        if keep[s.len() - 1] {
            assert(0 <= s.len() - 1 < s.len() && keep[s.len() - 1]);
        }
    }
}

proof fn lemma_kept_prefix<T>(s: Seq<T>, keep1: Seq<bool>, keep2: Seq<bool>)
    requires
        forall|i: int| 0 <= i < s.len() ==> keep1[i] == keep2[i],
    ensures
        kept(s, keep1) == kept(s, keep2),
    decreases s.len(),
{
    if s.len() > 0 {
        lemma_kept_prefix(s.drop_last(), keep1, keep2);
    }
}

impl<T> Vec1<T> {
    /// The invariant of every `Vec1`: it holds at least one element.
    pub open spec fn wf(&self) -> bool {
        self@.len() >= 1
    }

    /// Creates a `Vec1` that holds `first` alone.
    pub fn new(first: T) -> (r: Self)
        ensures
            r.wf(),
            r@ == seq![first],
    {
        let mut inner = Vec::new();
        inner.push(first);
        Vec1(inner)
    }

    /// Creates a `Vec1` that holds `first` alone, with room for `capacity` elements.
    pub fn with_capacity(first: T, capacity: usize) -> (r: Self)
        ensures
            r.wf(),
            r@ == seq![first],
    {
        let mut inner = Vec::with_capacity(capacity);
        inner.push(first);
        Vec1(inner)
    }

    /// Takes the elements of `vec`; fails, dropping `vec`, if it is empty.
    pub fn try_from_vec(vec: Vec<T>) -> (r: Result<Self, Size0Error>)
        ensures
            r is Ok <==> vec@.len() >= 1,
            r matches Ok(v) ==> v.wf() && as_non_empty(vec@) == Some(v@),
            r matches Err(e) ==> e == Size0Error,
    {
        if vec.is_empty() {
            Err(Size0Error)
        } else {
            Ok(Vec1(vec))
        }
    }

    /// Wraps `vec`, which the caller knows to be non-empty.
    pub(crate) fn from_non_empty(vec: Vec<T>) -> (r: Self)
        requires
            vec@.len() >= 1,
        ensures
            r.wf(),
            r@ == vec@,
    {
        Vec1(vec)
    }

    /// Takes the elements of `vec`; if it is empty, hands `vec` back as the error.
    pub fn from_vec(vec: Vec<T>) -> (r: Result<Self, Vec<T>>)
        ensures
            r is Ok <==> vec@.len() >= 1,
            r matches Ok(v) ==> v.wf() && as_non_empty(vec@) == Some(v@),
            r matches Err(e) ==> e@ == vec@,
    {
        if vec.is_empty() {
            Err(vec)
        } else {
            Ok(Vec1(vec))
        }
    }

    /// Takes the elements of `queue`, front to back; fails if it is empty.
    pub fn try_from_vec_deque(queue: VecDeque<T>) -> (r: Result<Self, Size0Error>)
        ensures
            r is Ok <==> queue@.len() >= 1,
            r matches Ok(v) ==> v.wf() && as_non_empty(queue@) == Some(v@),
            r matches Err(e) ==> e == Size0Error,
    {
        let ghost src = queue@;
        let mut queue = queue;
        let mut out: Vec<T> = Vec::with_capacity(queue.len());
        while queue.len() > 0
            invariant
                out@ + queue@ == src,
            decreases queue@.len(),
        {
            match queue.pop_front() {
                Some(x) => {
                    out.push(x);
                    assert(out@ + queue@ =~= src);
                },
                None => {},
            }
        }
        assert(out@ =~= src);
        Vec1::try_from_vec(out)
    }

    /// Turns this `Vec1` into a `Vec` with the same elements.
    pub fn into_vec(self) -> (r: Vec<T>)
        requires
            self.wf(),
        ensures
            r@ == self@,
            as_non_empty(r@) == Some(self@),
    {
        self.0
    }

    /// The underlying `Vec`.
    pub fn as_vec(&self) -> (r: &Vec<T>)
        requires
            self.wf(),
        ensures
            r@ == self@,
    {
        &self.0
    }

    /// The elements as a slice.
    pub fn as_slice(&self) -> (r: &[T])
        requires
            self.wf(),
        ensures
            r@ == self@,
    {
        self.0.as_slice()
    }

    /// The elements as a mutable slice, through which the length cannot change.
    pub fn as_mut_slice(&mut self) -> (r: &mut [T])
        requires
            old(self).wf(),
        ensures
            r@ == old(self)@,
            final(self)@ == final(r)@,
    {
        self.0.as_mut_slice()
    }

    /// The number of elements, which is never zero.
    pub fn len(&self) -> (r: usize)
        requires
            self.wf(),
        ensures
            r == self@.len(),
            r >= 1,
    {
        self.0.len()
    }

    /// Always false: a `Vec1` is never empty.
    pub fn is_empty(&self) -> (r: bool)
        requires
            self.wf(),
        ensures
            !r,
    {
        self.0.is_empty()
    }

    /// The first element, which always exists.
    pub fn first(&self) -> (r: &T)
        requires
            self.wf(),
        ensures
            *r == self@[0],
    {
        &self.0[0]
    }

    /// The last element, which always exists.
    pub fn last(&self) -> (r: &T)
        requires
            self.wf(),
        ensures
            *r == self@.last(),
    {
        &self.0[self.0.len() - 1]
    }

    /// A mutable reference to the first element, which always exists.
    pub fn first_mut(&mut self) -> (r: &mut T)
        requires
            old(self).wf(),
        ensures
            *r == old(self)@[0],
            final(self)@ == old(self)@.update(0, *final(r)),
    {
        self.0.as_mut_slice().first_mut().unwrap()
    }

    /// A mutable reference to the last element, which always exists.
    pub fn last_mut(&mut self) -> (r: &mut T)
        requires
            old(self).wf(),
        ensures
            *r == old(self)@.last(),
            final(self)@ == old(self)@.update(old(self)@.len() - 1, *final(r)),
    {
        self.0.as_mut_slice().last_mut().unwrap()
    }

    /// Appends an element at the end.
    pub fn push(&mut self, value: T)
        requires
            old(self).wf(),
        ensures
            final(self).wf(),
            final(self)@ == old(self)@.push(value),
    {
        self.0.push(value);
    }

    /// Inserts an element at position `idx`, shifting those after it.
    pub fn insert(&mut self, idx: usize, val: T)
        requires
            old(self).wf(),
            idx <= old(self)@.len(),
        ensures
            final(self).wf(),
            final(self)@ == old(self)@.insert(idx as int, val),
    {
        self.0.insert(idx, val);
    }

    /// Moves all elements of `other` to the end, leaving `other` empty.
    pub fn append(&mut self, other: &mut Vec<T>)
        requires
            old(self).wf(),
        ensures
            final(self).wf(),
            final(self)@ == old(self)@ + old(other)@,
            final(other)@.len() == 0,
    {
        self.0.append(other);
    }

    /// Moves all elements of `items` to the end.
    pub fn extend(&mut self, items: Vec<T>)
        requires
            old(self).wf(),
        ensures
            final(self).wf(),
            final(self)@ == old(self)@ + items@,
    {
        let mut items = items;
        self.0.append(&mut items);
    }

    /// Reserves room for at least `additional` more elements.
    pub fn reserve(&mut self, additional: usize)
        requires
            old(self).wf(),
        ensures
            final(self).wf(),
            final(self)@ == old(self)@,
    {
        self.0.reserve(additional);
    }

    /// Reserves room for exactly `additional` more elements.
    pub fn reserve_exact(&mut self, additional: usize)
        requires
            old(self).wf(),
        ensures
            final(self).wf(),
            final(self)@ == old(self)@,
    {
        vec_reserve_exact(&mut self.0, additional);
    }

    /// Gives back as much of the reserved room as it can.
    pub fn shrink_to_fit(&mut self)
        requires
            old(self).wf(),
        ensures
            final(self).wf(),
            final(self)@ == old(self)@,
    {
        vec_shrink_to_fit(&mut self.0);
    }

    /// The number of elements it can hold without reallocating.
    pub fn capacity(&self) -> (r: usize)
        requires
            self.wf(),
        ensures
            r >= self@.len(),
    {
        vec_capacity(&self.0)
    }

    /// Removes and returns the last element, unless it is the only one.
    pub fn pop(&mut self) -> (r: Result<T, Size0Error>)
        requires
            old(self).wf(),
        ensures
            final(self).wf(),
            old(self)@.len() > 1 ==> r == Ok::<T, Size0Error>(old(self)@.last())
                && final(self)@ == old(self)@.drop_last(),
            old(self)@.len() == 1 ==> r == Err::<T, Size0Error>(Size0Error)
                && final(self)@ == old(self)@,
    {
        if self.len() > 1 {
            match self.0.pop() {
                Some(x) => Ok(x),
                None => Err(Size0Error),
            }
        } else {
            Err(Size0Error)
        }
    }

    /// Same as [`Vec1::pop`].
    pub fn try_pop(&mut self) -> (r: Result<T, Size0Error>)
        requires
            old(self).wf(),
        ensures
            final(self).wf(),
            old(self)@.len() > 1 ==> r == Ok::<T, Size0Error>(old(self)@.last())
                && final(self)@ == old(self)@.drop_last(),
            old(self)@.len() == 1 ==> r == Err::<T, Size0Error>(Size0Error)
                && final(self)@ == old(self)@,
    {
        self.pop()
    }

    /// Removes and returns the element at `index`, shifting those after it,
    /// unless it is the only element.
    pub fn remove(&mut self, index: usize) -> (r: Result<T, Size0Error>)
        requires
            old(self).wf(),
            old(self)@.len() > 1 ==> index < old(self)@.len(),
        ensures
            final(self).wf(),
            old(self)@.len() > 1 ==> r == Ok::<T, Size0Error>(old(self)@[index as int])
                && final(self)@ == old(self)@.remove(index as int),
            old(self)@.len() == 1 ==> r == Err::<T, Size0Error>(Size0Error)
                && final(self)@ == old(self)@,
    {
        if self.len() > 1 {
            Ok(self.0.remove(index))
        } else {
            Err(Size0Error)
        }
    }

    /// Same as [`Vec1::remove`].
    pub fn try_remove(&mut self, index: usize) -> (r: Result<T, Size0Error>)
        requires
            old(self).wf(),
            old(self)@.len() > 1 ==> index < old(self)@.len(),
        ensures
            final(self).wf(),
            old(self)@.len() > 1 ==> r == Ok::<T, Size0Error>(old(self)@[index as int])
                && final(self)@ == old(self)@.remove(index as int),
            old(self)@.len() == 1 ==> r == Err::<T, Size0Error>(Size0Error)
                && final(self)@ == old(self)@,
    {
        self.remove(index)
    }

    /// Removes and returns the element at `index`, putting the last element in
    /// its place, unless it is the only element.
    pub fn swap_remove(&mut self, index: usize) -> (r: Result<T, Size0Error>)
        requires
            old(self).wf(),
            old(self)@.len() > 1 ==> index < old(self)@.len(),
        ensures
            final(self).wf(),
            old(self)@.len() > 1 ==> r == Ok::<T, Size0Error>(old(self)@[index as int])
                && final(self)@ == old(self)@.update(index as int, old(self)@.last()).drop_last(),
            old(self)@.len() == 1 ==> r == Err::<T, Size0Error>(Size0Error)
                && final(self)@ == old(self)@,
    {
        if self.len() > 1 {
            Ok(self.0.swap_remove(index))
        } else {
            Err(Size0Error)
        }
    }

    /// Same as [`Vec1::swap_remove`].
    pub fn try_swap_remove(&mut self, index: usize) -> (r: Result<T, Size0Error>)
        requires
            old(self).wf(),
            old(self)@.len() > 1 ==> index < old(self)@.len(),
        ensures
            final(self).wf(),
            old(self)@.len() > 1 ==> r == Ok::<T, Size0Error>(old(self)@[index as int])
                && final(self)@ == old(self)@.update(index as int, old(self)@.last()).drop_last(),
            old(self)@.len() == 1 ==> r == Err::<T, Size0Error>(Size0Error)
                && final(self)@ == old(self)@,
    {
        self.swap_remove(index)
    }

    /// Shortens to the first `len` elements (no change if there are not more);
    /// fails, changing nothing, if `len` is 0.
    pub fn truncate(&mut self, len: usize) -> (r: Result<(), Size0Error>)
        requires
            old(self).wf(),
        ensures
            final(self).wf(),
            r is Ok <==> len > 0,
            r matches Err(e) ==> e == Size0Error && final(self)@ == old(self)@,
            len > 0 && len <= old(self)@.len() ==> final(self)@ == old(self)@.subrange(0, len as int),
            len > old(self)@.len() ==> final(self)@ == old(self)@,
    {
        if len > 0 {
            self.0.truncate(len);
            Ok(())
        } else {
            Err(Size0Error)
        }
    }

    /// Same as [`Vec1::truncate`].
    pub fn try_truncate(&mut self, len: usize) -> (r: Result<(), Size0Error>)
        requires
            old(self).wf(),
        ensures
            final(self).wf(),
            r is Ok <==> len > 0,
            r matches Err(e) ==> e == Size0Error && final(self)@ == old(self)@,
            len > 0 && len <= old(self)@.len() ==> final(self)@ == old(self)@.subrange(0, len as int),
            len > old(self)@.len() ==> final(self)@ == old(self)@,
    {
        self.truncate(len)
    }

    /// Splits off the elements from index `at` on into a new `Vec1`, keeping
    /// those before it; fails, changing nothing, if either part would be empty.
    pub fn try_split_off(&mut self, at: usize) -> (r: Result<Vec1<T>, Size0Error>)
        requires
            old(self).wf(),
        ensures
            final(self).wf(),
            r is Ok <==> 0 < at < old(self)@.len(),
            r matches Ok(v) ==> v.wf() && final(self)@ == old(self)@.subrange(0, at as int)
                && v@ == old(self)@.subrange(at as int, old(self)@.len() as int),
            r matches Err(e) ==> e == Size0Error && final(self)@ == old(self)@,
    {
        if at == 0 || at >= self.len() {
            Err(Size0Error)
        } else {
            let out = self.0.split_off(at);
            Ok(Vec1(out))
        }
    }

    /// Takes the first element apart from the others.
    pub fn split_off_first(self) -> (r: (T, Vec<T>))
        requires
            self.wf(),
        ensures
            r.0 == self@[0],
            r.1@ == self@.subrange(1, self@.len() as int),
    {
        let mut inner = self.0;
        let first = inner.remove(0);
        (first, inner)
    }

    /// Takes the last element apart from the others.
    pub fn split_off_last(self) -> (r: (Vec<T>, T))
        requires
            self.wf(),
        ensures
            r.0@ == self@.drop_last(),
            r.1 == self@.last(),
    {
        let mut inner = self.0;
        let last_idx = inner.len() - 1;
        let last = inner.remove(last_idx);
        (inner, last)
    }

    /// Replaces the elements that `range` selects by those of `replace_with`,
    /// and returns the removed ones; fails, changing nothing, if `range` spans
    /// every element and `replace_with` is empty.
    pub fn splice(&mut self, range: (Bound<usize>, Bound<usize>), replace_with: Vec<T>) -> (r:
        Result<Splice<T>, Size0Error>)
        requires
            old(self).wf(),
            range_in_bounds(range, old(self)@.len() as int),
        ensures
            final(self).wf(),
            r is Err <==> (covers_start(range) && covers_end(range, old(self)@.len() as int)
                && replace_with@.len() == 0),
            r matches Err(e) ==> e == Size0Error && final(self)@ == old(self)@,
            r matches Ok(removed) ==> ({
                let s = start_index(range.0);
                let e = end_index(range.1, old(self)@.len() as int);
                &&& removed@ == old(self)@.subrange(s, e)
                &&& final(self)@ == old(self)@.subrange(0, s) + replace_with@ + old(self)@.subrange(
                    e,
                    old(self)@.len() as int,
                )
            }),
    {
        let len = self.0.len();
        let covers_all = range_covers_vec1(&range, len);
        if covers_all && replace_with.len() == 0 {
            Err(Size0Error)
        } else {
            let start = start_of(&range, len);
            let end = end_of(&range, len);
            let ghost before = self@;
            let mut tail = self.0.split_off(end);
            let removed = self.0.split_off(start);
            let mut replacement = replace_with;
            self.0.append(&mut replacement);
            self.0.append(&mut tail);
            assert(before.subrange(0, end as int).subrange(0, start as int) == before.subrange(
                0,
                start as int,
            ));
            assert(before.subrange(0, end as int).subrange(start as int, end as int)
                == before.subrange(start as int, end as int));
            Ok(Splice::new(removed))
        }
    }

    /// Keeps the elements for which `f` returns true, in their order. If `f`
    /// rejects every element, the last element is kept all the same and the
    /// call fails.
    pub fn retain<F>(&mut self, f: F) -> (r: Result<(), Size0Error>)
        where
            F: FnMut(&T) -> bool,
        requires
            old(self).wf(),
            forall|i: int| 0 <= i < old(self)@.len() ==> f.requires((&old(self)@[i],)),
        ensures
            final(self).wf(),
            r matches Err(e) ==> e == Size0Error,
            exists|keep: Seq<bool>|
                {
                    &&& keep.len() == old(self)@.len()
                    &&& forall|i: int|
                        0 <= i < keep.len() ==> f.ensures((&old(self)@[i],), #[trigger] keep[i])
                    &&& final(self)@ == (#[trigger] retained(old(self)@, keep)).0
                    &&& r is Ok == retained(old(self)@, keep).1
                },
    {
        let ghost f0 = f;
        let ghost src = self@;
        let mut f = f;
        let mut inner: Vec<T> = Vec::new();
        core::mem::swap(&mut inner, &mut self.0);
        // the kept elements move to `out`; the latest rejected one is held
        // back, so that it can stay if `f` rejects every element
        let mut out: Vec<T> = Vec::new();
        let mut last_rejected: Option<T> = None;
        let ghost mut keep: Seq<bool> = Seq::empty();
        for element in it: inner.into_iter()
            invariant
                it.seq() == src,
                src.len() >= 1,
                f == f0,
                forall|i: int| 0 <= i < src.len() ==> f.requires((&src[i],)),
                keep.len() == it.index(),
                forall|i: int| 0 <= i < keep.len() ==> f.ensures((&src[i],), #[trigger] keep[i]),
                out@ == kept(src.subrange(0, it.index() as int), keep),
                it.index() > 0 && !keep[it.index() - 1] ==> last_rejected == Some(
                    src[it.index() - 1],
                ),
        {
            let ghost k = it.index();
            let ghost old_keep = keep;
            let b = f(&element);
            proof {
                keep = keep.push(b);
                assert(src.subrange(0, k + 1).drop_last() == src.subrange(0, k as int));
                lemma_kept_prefix(src.subrange(0, k as int), old_keep, keep);
            }
            if b {
                out.push(element);
            } else {
                last_rejected = Some(element);
            }
        }
        assert(src.subrange(0, src.len() as int) == src);
        proof { lemma_kept_len(src, keep); }
        assert(forall|i: int| 0 <= i < keep.len() ==> f0.ensures((&src[i],), #[trigger] keep[i]));
        if out.len() == 0 {
            assert(!exists|i: int| 0 <= i < keep.len() && keep[i]);
            match last_rejected {
                Some(x) => {
                    out.push(x);
                },
                None => {},
            }
            self.0 = out;
            assert(self@ == retained(src, keep).0);
            Err(Size0Error)
        } else {
            self.0 = out;
            assert(self@ == retained(src, keep).0);
            Ok(())
        }
    }
}

impl<T> Vec1<T> {
    /// Makes a new `Vec1` by handing each element, in order, to `map_fn`.
    pub fn mapped<F, N>(self, map_fn: F) -> (r: Vec1<N>)
        where
            F: FnMut(T) -> N,
        requires
            self.wf(),
            forall|i: int| 0 <= i < self@.len() ==> map_fn.requires((self@[i],)),
        ensures
            r.wf(),
            r@.len() == self@.len(),
            forall|i: int| 0 <= i < self@.len() ==> map_fn.ensures((self@[i],), #[trigger] r@[i]),
    {
        let ghost f0 = map_fn;
        let ghost src = self@;
        let mut map_fn = map_fn;
        let mut out: Vec<N> = Vec::with_capacity(self.0.len());
        for element in it: self.0.into_iter()
            invariant
                it.seq() == src,
                map_fn == f0,
                out@.len() == it.index(),
                forall|i: int| 0 <= i < src.len() ==> map_fn.requires((src[i],)),
                forall|i: int| 0 <= i < out@.len() ==> map_fn.ensures((src[i],), #[trigger] out@[i]),
        {
            out.push(map_fn(element));
        }
        Vec1(out)
    }

    /// Makes a new `Vec1` by handing a reference to each element, in order, to `map_fn`.
    pub fn mapped_ref<F, N>(&self, map_fn: F) -> (r: Vec1<N>)
        where
            F: FnMut(&T) -> N,
        requires
            self.wf(),
            forall|i: int| 0 <= i < self@.len() ==> map_fn.requires((&self@[i],)),
        ensures
            r.wf(),
            r@.len() == self@.len(),
            forall|i: int|
                0 <= i < self@.len() ==> map_fn.ensures((&self@[i],), #[trigger] r@[i]),
    {
        let ghost f0 = map_fn;
        let mut map_fn = map_fn;
        let len = self.0.len();
        let mut out: Vec<N> = Vec::with_capacity(len);
        let mut i: usize = 0;
        while i < len
            invariant
                len == self@.len(),
                i <= len,
                map_fn == f0,
                out@.len() == i,
                forall|j: int| 0 <= j < len ==> map_fn.requires((&self@[j],)),
                forall|j: int| 0 <= j < i ==> map_fn.ensures((&self@[j],), #[trigger] out@[j]),
            decreases len - i,
        {
            out.push(map_fn(&self.0[i]));
            i = i + 1;
        }
        Vec1(out)
    }

    /// Makes a new `Vec1` by handing each element, in order, to `map_fn`, which
    /// may fail; the first failure is returned.
    pub fn try_mapped<F, N, E>(self, map_fn: F) -> (r: Result<Vec1<N>, E>)
        where
            F: FnMut(T) -> Result<N, E>,
        requires
            self.wf(),
            forall|i: int| 0 <= i < self@.len() ==> map_fn.requires((self@[i],)),
        ensures
            r matches Ok(v) ==> {
                &&& v.wf()
                &&& v@.len() == self@.len()
                &&& forall|i: int|
                    0 <= i < self@.len() ==> map_fn.ensures(
                        (self@[i],),
                        Ok::<N, E>(#[trigger] v@[i]),
                    )
            },
            r is Err ==> exists|k: int|
                0 <= k < self@.len() && map_fn.ensures(
                    (#[trigger] self@[k],),
                    Err::<N, E>(r->Err_0),
                ),
    {
        let ghost f0 = map_fn;
        let ghost src = self@;
        let mut call = map_fn;
        // collecting into a Result would start from a capacity of 0, as the
        // first call may already fail
        let mut out: Vec<N> = Vec::with_capacity(self.0.len());
        for element in it: self.0.into_iter()
            invariant
                it.seq() == src,
                src == self@,
                call == f0,
                f0 == map_fn,
                out@.len() == it.index(),
                forall|i: int| 0 <= i < src.len() ==> call.requires((src[i],)),
                forall|i: int|
                    0 <= i < out@.len() ==> map_fn.ensures((src[i],), Ok::<N, E>(#[trigger] out@[i])),
        {
            let ghost k = it.index();
            match call(element) {
                Ok(x) => out.push(x),
                Err(e) => {
                    assert(0 <= k < src.len() && f0.ensures((src[k],), Err::<N, E>(e)));
                    return Err(e);
                },
            }
        }
        Ok(Vec1(out))
    }

    /// Makes a new `Vec1` by handing a reference to each element, in order, to
    /// `map_fn`, which may fail; the first failure is returned.
    pub fn try_mapped_ref<F, N, E>(&self, map_fn: F) -> (r: Result<Vec1<N>, E>)
        where
            F: FnMut(&T) -> Result<N, E>,
        requires
            self.wf(),
            forall|i: int| 0 <= i < self@.len() ==> map_fn.requires((&self@[i],)),
        ensures
            r matches Ok(v) ==> {
                &&& v.wf()
                &&& v@.len() == self@.len()
                &&& forall|i: int|
                    0 <= i < self@.len() ==> map_fn.ensures(
                        (&self@[i],),
                        Ok::<N, E>(#[trigger] v@[i]),
                    )
            },
            r matches Err(e) ==> exists|k: int|
                0 <= k < self@.len() && map_fn.ensures((&(#[trigger] self@[k]),), Err::<N, E>(e)),
    {
        let ghost f0 = map_fn;
        let mut call = map_fn;
        let len = self.0.len();
        let mut out: Vec<N> = Vec::with_capacity(len);
        let mut i: usize = 0;
        while i < len
            invariant
                len == self@.len(),
                i <= len,
                call == f0,
                f0 == map_fn,
                out@.len() == i,
                forall|j: int| 0 <= j < len ==> call.requires((&self@[j],)),
                forall|j: int|
                    0 <= j < i ==> map_fn.ensures((&self@[j],), Ok::<N, E>(#[trigger] out@[j])),
            decreases len - i,
        {
            match call(&self.0[i]) {
                Ok(x) => out.push(x),
                Err(e) => {
                    assert(0 <= i < len && f0.ensures((&self@[i as int],), Err::<N, E>(e)));
                    return Err(e);
                },
            }
            i = i + 1;
        }
        Ok(Vec1(out))
    }

    /// Resizes to `new_len` elements, dropping those past it or appending the
    /// results of calls of `f`; fails, changing nothing, if `new_len` is 0.
    pub fn resize_with<F>(&mut self, new_len: usize, f: F) -> (r: Result<(), Size0Error>)
        where
            F: FnMut() -> T,
        requires
            old(self).wf(),
            f.requires(()),
        ensures
            final(self).wf(),
            r is Ok <==> new_len > 0,
            r matches Err(e) ==> e == Size0Error && final(self)@ == old(self)@,
            r is Ok ==> final(self)@.len() == new_len,
            r is Ok && new_len <= old(self)@.len() ==> final(self)@ == old(self)@.subrange(
                0,
                new_len as int,
            ),
            r is Ok && new_len > old(self)@.len() ==> {
                &&& final(self)@.subrange(0, old(self)@.len() as int) == old(self)@
                &&& forall|i: int|
                    old(self)@.len() <= i < new_len ==> f.ensures((), #[trigger] final(self)@[i])
            },
    {
        if new_len == 0 {
            return Err(Size0Error);
        }
        let ghost f0 = f;
        let ghost before = self@;
        let mut f = f;
        if new_len <= self.0.len() {
            self.0.truncate(new_len);
        } else {
            while self.0.len() < new_len
                invariant
                    f == f0,
                    f.requires(()),
                    before.len() < new_len,
                    before.len() <= self@.len() <= new_len,
                    self@.subrange(0, before.len() as int) == before,
                    forall|i: int| before.len() <= i < self@.len() ==> f.ensures((), #[trigger] self@[i]),
                decreases new_len - self@.len(),
            {
                let x = f();
                self.0.push(x);
                assert(self@.subrange(0, before.len() as int) =~= before);
            }
        }
        Ok(())
    }

    /// Same as [`Vec1::resize_with`].
    pub fn try_resize_with<F>(&mut self, new_len: usize, f: F) -> (r: Result<(), Size0Error>)
        where
            F: FnMut() -> T,
        requires
            old(self).wf(),
            f.requires(()),
        ensures
            final(self).wf(),
            r is Ok <==> new_len > 0,
            r matches Err(e) ==> e == Size0Error && final(self)@ == old(self)@,
            r is Ok ==> final(self)@.len() == new_len,
            r is Ok && new_len <= old(self)@.len() ==> final(self)@ == old(self)@.subrange(
                0,
                new_len as int,
            ),
            r is Ok && new_len > old(self)@.len() ==> {
                &&& final(self)@.subrange(0, old(self)@.len() as int) == old(self)@
                &&& forall|i: int|
                    old(self)@.len() <= i < new_len ==> f.ensures((), #[trigger] final(self)@[i])
            },
    {
        self.resize_with(new_len, f)
    }
}

impl<T: Clone> Vec1<T> {
    /// Resizes to `len` elements, dropping those past it or appending clones of
    /// `value`; fails, changing nothing, if `len` is 0.
    pub fn resize(&mut self, len: usize, value: T) -> (r: Result<(), Size0Error>)
        requires
            old(self).wf(),
        ensures
            final(self).wf(),
            r is Ok <==> len > 0,
            r matches Err(e) ==> e == Size0Error && final(self)@ == old(self)@,
            r is Ok && len <= old(self)@.len() ==> final(self)@ == old(self)@.subrange(0, len as int),
            r is Ok && len > old(self)@.len() ==> {
                &&& final(self)@.len() == len
                &&& final(self)@.subrange(0, old(self)@.len() as int) == old(self)@
                &&& forall|i: int|
                    old(self)@.len() <= i < len ==> cloned::<T>(value, #[trigger] final(self)@[i])
            },
    {
        if len == 0 {
            Err(Size0Error)
        } else {
            self.0.resize(len, value);
            Ok(())
        }
    }

    /// Same as [`Vec1::resize`].
    pub fn try_resize(&mut self, len: usize, value: T) -> (r: Result<(), Size0Error>)
        requires
            old(self).wf(),
        ensures
            final(self).wf(),
            r is Ok <==> len > 0,
            r matches Err(e) ==> e == Size0Error && final(self)@ == old(self)@,
            r is Ok && len <= old(self)@.len() ==> final(self)@ == old(self)@.subrange(0, len as int),
            r is Ok && len > old(self)@.len() ==> {
                &&& final(self)@.len() == len
                &&& final(self)@.subrange(0, old(self)@.len() as int) == old(self)@
                &&& forall|i: int|
                    old(self)@.len() <= i < len ==> cloned::<T>(value, #[trigger] final(self)@[i])
            },
    {
        self.resize(len, value)
    }

    /// Appends clones of the elements of `slice`.
    pub fn extend_from_slice(&mut self, slice: &[T])
        requires
            old(self).wf(),
        ensures
            final(self).wf(),
            final(self)@.len() == old(self)@.len() + slice@.len(),
            final(self)@.subrange(0, old(self)@.len() as int) == old(self)@,
            forall|i: int|
                0 <= i < slice@.len() ==> cloned::<T>(
                    slice@[i],
                    #[trigger] final(self)@[old(self)@.len() + i],
                ),
    {
        let ghost before = self@;
        self.0.extend_from_slice(slice);
        assert(self@.subrange(0, before.len() as int) =~= before);
        assert forall|i: int| 0 <= i < slice@.len() implies cloned::<T>(
            slice@[i],
            #[trigger] self@[before.len() + i],
        ) by {
            assert(self@[before.len() + i] == self@[before.len() + i]);
        }
    }
}

impl<T: Clone> Vec1<T> {
    /// Takes clones of the elements of `slice`; fails if it is empty.
    pub fn try_from_slice(slice: &[T]) -> (r: Result<Self, Size0Error>)
        ensures
            r is Ok <==> slice@.len() >= 1,
            r matches Err(e) ==> e == Size0Error,
            r matches Ok(v) ==> {
                &&& v.wf()
                &&& v@.len() == slice@.len()
                &&& forall|i: int| 0 <= i < slice@.len() ==> cloned::<T>(slice@[i], #[trigger] v@[i])
            },
    {
        if slice.len() == 0 {
            return Err(Size0Error);
        }
        let mut out: Vec<T> = Vec::with_capacity(slice.len());
        let mut i: usize = 0;
        while i < slice.len()
            invariant
                i <= slice@.len(),
                out@.len() == i,
                forall|j: int| 0 <= j < i ==> cloned::<T>(slice@[j], #[trigger] out@[j]),
            decreases slice@.len() - i,
        {
            out.push(slice[i].clone());
            i = i + 1;
        }
        Ok(Vec1(out))
    }
}

/// `s` with every run of adjacent equal elements cut down to its first element.
pub open spec fn dedup_of<T: PartialEq>(s: Seq<T>) -> Seq<T>
    decreases s.len(),
{
    if s.len() <= 1 {
        s
    } else {
        let d = dedup_of(s.drop_last());
        if s.last().eq_spec(&d.last()) {
            d
        } else {
            d.push(s.last())
        }
    }
}

proof fn lemma_dedup_of_non_empty<T: PartialEq>(s: Seq<T>)
    requires
        s.len() >= 1,
    ensures
        dedup_of(s).len() >= 1,
        dedup_of(s)[0] == s[0],
    decreases s.len(),
{
    if s.len() > 1 {
        lemma_dedup_of_non_empty(s.drop_last());
    }
}

impl<T: PartialEq> Vec1<T> {
    /// Removes every element equal to the element kept before it, so that each
    /// run of adjacent equal elements shrinks to its first element. This never
    /// empties the vector.
    pub fn dedup(&mut self)
        requires
            old(self).wf(),
        ensures
            final(self).wf(),
            final(self)@.len() <= old(self)@.len(),
            T::obeys_eq_spec() ==> final(self)@ == dedup_of(old(self)@),
    {
        let ghost src = self@;
        let mut inner: Vec<T> = Vec::new();
        core::mem::swap(&mut inner, &mut self.0);
        let mut out: Vec<T> = Vec::with_capacity(inner.len());
        for element in it: inner.into_iter()
            invariant
                it.seq() == src,
                src.len() >= 1,
                it.index() == 0 <==> out@.len() == 0,
                out@.len() <= it.index(),
                T::obeys_eq_spec() ==> out@ == dedup_of(src.subrange(0, it.index() as int)),
        {
            let ghost k = it.index();
            assert(src.subrange(0, k + 1).drop_last() == src.subrange(0, k as int));
            let n = out.len();
            if n == 0 {
                out.push(element);
            } else if !(element == out[n - 1]) {
                out.push(element);
            }
        }
        assert(src.subrange(0, src.len() as int) == src);
        self.0 = out;
    }

    /// Same as [`Vec1::dedup`].
    pub fn dedub(&mut self)
        requires
            old(self).wf(),
        ensures
            final(self).wf(),
            final(self)@.len() <= old(self)@.len(),
            T::obeys_eq_spec() ==> final(self)@ == dedup_of(old(self)@),
    {
        self.dedup()
    }
}

} // verus!
