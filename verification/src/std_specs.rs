//! What this crate takes on trust from the standard library.
//!
//! Everything else in the crate is proved, from these statements and from
//! the ones that `vstd` makes about `std`. Each item here names the standard
//! item it speaks of and says what is claimed of it.

use core::ops::{RangeFrom, RangeFull, RangeInclusive, RangeTo, RangeToInclusive};
use core::slice::IterMut;
use vstd::prelude::*;
use vstd::std_specs::iter::IteratorSpec;

verus! {

/// `core::ops::RangeFrom`, the type of `a..`. Declared with its one public
/// field, `start`, so that contracts and code can read it.
#[verifier::external_type_specification]
#[verifier::reject_recursive_types(Idx)]
pub struct ExRangeFrom<Idx>(RangeFrom<Idx>);

/// `core::ops::RangeTo`, the type of `..b`. Declared with its one public
/// field, `end`.
#[verifier::external_type_specification]
#[verifier::reject_recursive_types(Idx)]
pub struct ExRangeTo<Idx>(RangeTo<Idx>);

/// `core::ops::RangeToInclusive`, the type of `..=b`. Declared with its one
/// public field, `end`.
#[verifier::external_type_specification]
#[verifier::reject_recursive_types(Idx)]
pub struct ExRangeToInclusive<Idx>(RangeToInclusive<Idx>);

/// `core::ops::RangeFull`, the type of `..`. It has no fields.
#[verifier::external_type_specification]
pub struct ExRangeFull(RangeFull);

/// `core::slice::IterMut`, the iterator that `<[T]>::iter_mut` returns. Its
/// fields are not read: what it will yield is spoken of through `remaining`.
#[verifier::external_type_specification]
#[verifier::external_body]
#[verifier::reject_recursive_types(T)]
pub struct ExIterMut<'a, T: 'a>(IterMut<'a, T>);

/// `RangeInclusive::into_inner` gives back the two bounds that the range was
/// made with, lower bound first. The standard library leaves the result
/// unspecified for a range that has been iterated to exhaustion, so the claim
/// is made for the other ranges only.
pub assume_specification<Idx>[ RangeInclusive::<Idx>::into_inner ](r: RangeInclusive<Idx>) -> (bounds: (
    Idx,
    Idx,
))
    ensures
        !r@.exhausted ==> bounds == (r@.start, r@.end),
;

/// `<Vec<T> as From<[T; N]>>::from` moves the array's items into a newly
/// allocated vector: same items, same order.
pub assume_specification<T, const N: usize>[ <Vec<T> as From<[T; N]>>::from ](array: [T; N]) -> (v:
    Vec<T>)
    ensures
        v@ == array@,
;

/// `<Box<[T]> as From<[T; N]>>::from` moves the array to the heap: same
/// items, same order.
pub assume_specification<T, const N: usize>[ <Box<[T]> as From<[T; N]>>::from ](array: [T; N]) -> (b:
    Box<[T]>)
    ensures
        b@ == array@,
;

/// `Vec::into_boxed_slice` drops the spare capacity and hands the items over
/// as a boxed slice: same items, same order.
#[verifier::external_body]
pub(crate) fn vec_into_boxed_slice<T>(v: Vec<T>) -> (b: Box<[T]>)
    ensures
        b@ == v@,
{
    v.into_boxed_slice()
}

/// `<[T]>::iter_mut` returns an iterator that yields a mutable reference to
/// each element of the slice, first to last, and then ends. Each reference
/// holds at first the element as it was; the slice borrowed stays as long as
/// it was and ends up holding, at each position, what is left in the
/// reference to that position. The iterator's `next` follows the rules that
/// `vstd` states for iterators, over `remaining`, the references still to
/// come.
#[verifier::external_body]
pub(crate) fn slice_iter_mut<'a, T>(slice: &'a mut [T]) -> (it: IterMut<'a, T>)
    ensures
        it.obeys_prophetic_iter_laws(),
        it.remaining().len() == old(slice)@.len(),
        forall|i: int|
            0 <= i < old(slice)@.len() ==> *(#[trigger] it.remaining()[i]) == old(slice)@[i],
        final(slice)@.len() == old(slice)@.len(),
        forall|i: int|
            0 <= i < old(slice)@.len() ==> #[trigger] final(slice)@[i] == *final(it.remaining()[i]),
{
    slice.iter_mut()
}

} // verus!
