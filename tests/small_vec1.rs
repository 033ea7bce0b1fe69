use std::collections::hash_map::DefaultHasher;
use std::hash::{Hash, Hasher};

use vec1::{Size0Error, SmallVec1};

fn sv<const N: usize>(items: &[u8]) -> SmallVec1<u8, N> {
    SmallVec1::try_from_slice(items).unwrap()
}

#[test]
fn impl_clone() {
    let a: SmallVec1<u8, 4> = sv(&[1, 2, 3]);
    let b = a.clone();
    assert_eq!(a, b);
}

#[test]
fn impl_eq() {
    let a: SmallVec1<u8, 4> = sv(&[1, 2, 3]);
    let b: SmallVec1<u8, 4> = sv(&[1, 2, 3]);
    let c: SmallVec1<u8, 4> = sv(&[2, 2, 3]);
    assert_eq!(a, b);
    assert_ne!(a, c);
}

#[test]
fn impl_partial_eq() {
    let a: SmallVec1<String, 4> = SmallVec1::new("hy".to_owned());
    let b: SmallVec1<&'static str, 4> = SmallVec1::new("hy");
    assert_eq!(a.as_slice(), b.as_slice());
    let a: SmallVec1<u8, 4> = sv(&[1, 2, 3, 4, 5]);
    let b: SmallVec1<u8, 8> = sv(&[1, 2, 3, 4, 5]);
    assert_eq!(a.as_slice(), b.as_slice());
}

#[test]
fn impl_ord() {
    let a: SmallVec1<u8, 4> = sv(&[1, 2]);
    let b: SmallVec1<u8, 4> = sv(&[1, 3]);
    assert_eq!(Ord::cmp(&a, &b), std::cmp::Ordering::Less);
}

#[test]
fn impl_hash() {
    let a: SmallVec1<u8, 4> = sv(&[1, 3]);
    let b = vec![1u8, 3];
    assert_eq!(compute_hash(&a), compute_hash(&b));
}

fn compute_hash<T: Hash>(value: &T) -> u64 {
    let mut hasher = DefaultHasher::new();
    value.hash(&mut hasher);
    hasher.finish()
}

#[test]
fn impl_debug() {
    let a: SmallVec1<u8, 4> = sv(&[1, 2]);
    assert_eq!(format!("{:?}", a.as_slice()), "[1, 2]");
}

#[test]
fn impl_deref() {
    let a: SmallVec1<u8, 4> = sv(&[1, 2]);
    let b: &[u8] = a.as_slice();
    assert_eq!(b, &[1u8, 2] as &[u8]);
}

#[test]
fn impl_deref_mut() {
    let mut a: SmallVec1<u8, 4> = sv(&[1, 2]);
    let b: &mut [u8] = a.as_mut_slice();
    assert_eq!(b, &[1u8, 2] as &[u8]);
}

#[test]
fn impl_into_iter() {
    let a: SmallVec1<u8, 4> = sv(&[12, 23]);
    let a_ = a.clone();
    let b = a.into_vec().into_iter().collect::<Vec<_>>();
    assert_eq!(a_.as_slice(), &b[..]);
}

#[test]
fn impl_extend() {
    let mut a: SmallVec1<u8, 4> = sv(&[12, 23]);
    a.append(&mut vec![1u8, 2, 3]);
    assert_eq!(a.as_slice(), &[12u8, 23, 1, 2, 3] as &[u8]);
}

#[test]
fn smallvec_v1_index() {
    let a: SmallVec1<u8, 4> = sv(&[12, 23]);
    assert_eq!(a.as_slice()[0], 12);
}

#[test]
fn smallvec_v1_index_mut() {
    let mut a: SmallVec1<u8, 4> = sv(&[12, 23]);
    a.as_mut_slice()[0] = 33;
    assert_eq!(a.as_slice()[0], 33);
}

#[test]
fn impl_try_from_slice_by_from_trait() {
    let a = SmallVec1::<String, 4>::try_from_slice(&["hy".to_owned()] as &[String]).unwrap();
    assert_eq!(a.as_slice()[0], "hy");
    SmallVec1::<String, 4>::try_from_slice(&[] as &[String]).unwrap_err();
}

#[test]
fn into_iterator_ref() {
    let a: SmallVec1<u8, 4> = sv(&[12, 23]);
    let a = a.as_slice().iter().collect::<Vec<_>>();
    assert_eq!(a, vec![&12u8, &23]);
}

#[test]
fn into_iterator_ref_mut() {
    let mut a: SmallVec1<u8, 4> = sv(&[12, 23]);
    let a = a.as_mut_slice().iter_mut().collect::<Vec<_>>();
    assert_eq!(a, vec![&mut 12u8, &mut 23]);
}

#[test]
fn smallvec_v1_new() {
    let a = SmallVec1::<u8, 4>::new(12);
    let b: SmallVec1<u8, 4> = sv(&[12]);
    assert_eq!(a, b);
}

#[test]
fn smallvec_v1_with_capacity() {
    let a = SmallVec1::<u8, 4>::with_capacity(32, 21);
    assert_eq!(a.len(), 1);
    assert_eq!(a.capacity(), 21);

    let a = SmallVec1::<u8, 4>::with_capacity(32, 1);
    assert_eq!(a.len(), 1);
    assert_eq!(a.capacity(), 4);
}

#[test]
fn try_from_vec() {
    let a = SmallVec1::<u8, 4>::try_from_vec(vec![1, 2, 3]);
    assert_eq!(a, Ok(sv(&[1, 2, 3])));
    let b = SmallVec1::<u8, 4>::try_from_vec(vec![]);
    assert_eq!(b, Err(Size0Error));
}

#[test]
fn try_from_buf() {
    let a = SmallVec1::try_from_buf([1u8, 2, 3, 4]);
    assert_eq!(a, Ok(sv(&[1, 2, 3, 4])));
    let a = SmallVec1::try_from_buf([] as [u8; 0]);
    assert_eq!(a, Err(Size0Error));
}

#[test]
fn try_from_buf_and_len() {
    let a = SmallVec1::try_from_buf_and_len([1u8, 2, 3, 4, 0, 0, 0, 0], 4);
    assert_eq!(a, Ok(sv(&[1, 2, 3, 4])));
    let a = SmallVec1::try_from_buf_and_len([1u8, 2, 3], 0);
    assert_eq!(a, Err(Size0Error));
}

#[test]
fn impl_try_from_traits() {
    let _ = SmallVec1::<u8, 4>::try_from_vec(vec![1, 2, 3]).unwrap();
    let _ = SmallVec1::<u8, 4>::try_from_vec(vec![]).unwrap_err();
    let _ = SmallVec1::<u8, 4>::try_from_buf([1u8, 2, 3, 4]).unwrap();
    let _ = SmallVec1::<u8, 0>::try_from_buf([] as [u8; 0]).unwrap_err();
}

#[test]
fn into_vec() {
    let a: SmallVec1<u8, 4> = sv(&[1, 3, 2]);
    let a: Vec<u8> = a.into_vec();
    assert_eq!(a, vec![1, 3, 2])
}

#[test]
fn into_inner() {
    let a: SmallVec1<u8, 4> = sv(&[1, 3, 2, 4]);
    let a: [u8; 4] = a.into_inner().unwrap();
    assert_eq!(a, [1, 3, 2, 4])
}

#[test]
fn into_traits() {
    let a: SmallVec1<u8, 4> = sv(&[1, 3, 2, 4]);
    let _: Vec<u8> = a.into_vec();

    let a: SmallVec1<u8, 4> = sv(&[1, 3, 2, 4]);
    let a: Result<[u8; 4], _> = a.into_inner();
    a.unwrap();

    let a: SmallVec1<u8, 4> = sv(&[1, 3, 2]);
    let a: Result<[u8; 4], _> = a.into_inner();
    assert_eq!(a.unwrap_err().as_slice(), &[1u8, 3, 2]);
}

#[test]
fn last_first_methods_are_shadowed() {
    let mut a: SmallVec1<u8, 4> = sv(&[1, 3, 2, 4]);
    assert_eq!(a.last(), &4);
    assert_eq!(a.last_mut(), &mut 4);
    assert_eq!(a.first(), &1);
    assert_eq!(a.first_mut(), &mut 1);
}

#[test]
fn smallvec_v1_try_truncate() {
    let mut a: SmallVec1<u8, 4> = sv(&[1, 3, 2, 4]);
    assert_eq!(a.try_truncate(0), Err(Size0Error));
    assert_eq!(a.try_truncate(1), Ok(()));
    assert_eq!(a.len(), 1);
}

#[test]
fn smallvec_v1_reserve() {
    let mut a: SmallVec1<u8, 4> = sv(&[1, 3, 2, 4]);
    a.reserve(4);
    assert!(a.capacity() >= 8);
}

#[test]
fn smallvec_v1_push() {
    let mut a: SmallVec1<u8, 4> = sv(&[1, 3]);
    a.push(12);
    let b: SmallVec1<u8, 4> = sv(&[1, 3, 12]);
    assert_eq!(a, b);
}

#[test]
fn smallvec_v1_insert() {
    let mut a: SmallVec1<u8, 4> = sv(&[1, 3]);
    a.insert(0, 12);
    let b: SmallVec1<u8, 4> = sv(&[12, 1, 3]);
    assert_eq!(a, b);
}

#[test]
fn smallvec_v1_len() {
    let a: SmallVec1<u8, 4> = sv(&[1, 3]);
    assert_eq!(a.len(), 2);
}

#[test]
fn smallvec_v1_as_slice() {
    let a: SmallVec1<u8, 4> = sv(&[1, 3]);
    assert_eq!(a.as_slice(), &[1u8, 3] as &[u8]);
}

#[test]
fn smallvec_v1_as_mut_slice() {
    let mut a: SmallVec1<u8, 4> = sv(&[1, 3]);
    a.as_mut_slice()[0] = 10;
    let b: SmallVec1<u8, 4> = sv(&[10, 3]);
    assert_eq!(a, b);
}

#[test]
fn inline_size() {
    let a: SmallVec1<u8, 4> = sv(&[1, 3]);
    assert_eq!(a.inline_size(), 4);
}

#[test]
fn smallvec_v1_try_pop() {
    let mut a: SmallVec1<u8, 4> = sv(&[1, 3]);
    assert_eq!(a.try_pop(), Ok(3));
    assert_eq!(a.try_pop(), Err(Size0Error));
}

#[test]
fn smallvec_v1_append() {
    let mut a: SmallVec1<u8, 4> = sv(&[1, 3]);
    let mut b: Vec<u8> = vec![53, 12];
    a.append(&mut b);
    let c: SmallVec1<u8, 4> = sv(&[1, 3, 53, 12]);
    assert_eq!(a, c);
}

#[test]
fn smallvec_v1_try_swap_remove() {
    let mut a: SmallVec1<u8, 4> = sv(&[1, 3]);
    assert_eq!(a.try_swap_remove(0), Ok(1));
    assert_eq!(a.try_swap_remove(0), Err(Size0Error));
}

#[test]
fn smallvec_v1_try_remove() {
    let mut a: SmallVec1<u8, 4> = sv(&[1, 3]);
    assert_eq!(a.try_remove(0), Ok(1));
    assert_eq!(a.try_remove(0), Err(Size0Error));
}

#[test]
fn insert_many() {
    let mut a: SmallVec1<u8, 4> = sv(&[1, 3]);
    a.insert_many(1, vec![2, 4, 8]);
    let b: SmallVec1<u8, 4> = sv(&[1, 2, 4, 8, 3]);
    assert_eq!(a, b);
}

#[test]
fn smallvec_v1_dedup() {
    let mut a: SmallVec1<u8, 4> = sv(&[1, 1]);
    a.dedup();
    assert_eq!(a.as_slice(), &[1u8] as &[u8]);
}

#[test]
fn try_resize_with() {
    let mut a: SmallVec1<u8, 4> = sv(&[1, 2]);
    assert_eq!(a.try_resize_with(0, Default::default), Err(Size0Error));
    assert_eq!(a.try_resize_with(4, Default::default), Ok(()));
    assert_eq!(a.as_slice(), &[1u8, 2, 0, 0] as &[u8]);
}

#[test]
fn try_from_slice() {
    let a = SmallVec1::<u8, 4>::try_from_slice(&[1u8, 2, 9]).unwrap();
    assert_eq!(a.as_slice(), &[1u8, 2, 9] as &[u8]);
    SmallVec1::<u8, 4>::try_from_slice(&[]).unwrap_err();
}

#[test]
fn insert_from_slice() {
    let mut a: SmallVec1<u8, 4> = sv(&[1, 2]);
    a.insert_from_slice(1, &[3, 9]);
    assert_eq!(a.as_slice(), &[1u8, 3, 9, 2] as &[u8]);
}

#[test]
fn smallvec_v1_extend_from_slice() {
    let mut a: SmallVec1<u8, 4> = sv(&[1, 2]);
    a.extend_from_slice(&[3, 9]);
    assert_eq!(a.as_slice(), &[1u8, 2, 3, 9] as &[u8]);
}

#[test]
fn smallvec_v1_try_resize() {
    let mut a: SmallVec1<u8, 4> = sv(&[1, 2, 3]);
    assert_eq!(a.try_resize(0, 12), Err(Size0Error));
    assert_eq!(a.try_resize(2, 12), Ok(()));
    assert_eq!(a.try_resize(4, 12), Ok(()));
    assert_eq!(a.as_slice(), &[1u8, 2, 12, 12] as &[u8]);
}

#[test]
fn try_from_elem() {
    let a = SmallVec1::<u8, 4>::try_from_elem(1u8, 3).unwrap();
    assert_eq!(a.as_slice(), &[1u8, 1, 1] as &[u8]);
    SmallVec1::<u8, 4>::try_from_elem(1u8, 0).unwrap_err();
}

#[test]
fn split_off_first() {
    let a: SmallVec1<u8, 4> = sv(&[32]);
    assert_eq!((32, Vec::<u8>::new()), a.split_off_first());
    let a: SmallVec1<u8, 4> = sv(&[32, 43]);
    assert_eq!((32, vec![43u8]), a.split_off_first());
}

#[test]
fn split_off_last() {
    let a: SmallVec1<u8, 4> = sv(&[32]);
    assert_eq!((Vec::<u8>::new(), 32), a.split_off_last());
    let a: SmallVec1<u8, 4> = sv(&[32, 43]);
    assert_eq!((vec![32u8], 43), a.split_off_last());
}

#[test]
fn into_inner_mismatch_returns_the_same_vector() {
    let a: SmallVec1<u8, 4> = sv(&[1, 2, 3, 4, 5]);
    let back = a.clone().into_inner().unwrap_err();
    assert_eq!(back, a);
    let b: SmallVec1<u8, 4> = sv(&[7]);
    assert_eq!(b.clone().into_inner().unwrap_err(), b);
}
