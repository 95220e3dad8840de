//! What holds of the interface as a whole, proved from the contracts of its
//! operations.
//!
//! The laws speak of sequences and of the specification functions that the
//! contracts use. `got` stands for a result of `get`, `out` for a result of
//! `get_unchecked`, `left` for what a part handed out for writing holds when
//! its borrow ends.

use crate::index::{is_get, is_get_mut, splice, SeqIndex};
use crate::sequence::ArrayOrVec;
use crate::summation::total;
use core::ops::{Add, Range, RangeFrom, RangeFull, RangeInclusive, RangeTo, RangeToInclusive};
use vstd::prelude::*;

verus! {

/// Every array of type `[T; N]` has `N` elements, and the type says so.
pub proof fn law_array_len<T, const N: usize>(a: [T; N])
    ensures
        a@.len() == N,
        <[T; N] as ArrayOrVec<T>>::fixed_len() == Some(N),
{
}

/// The type of a vector fixes no length: its `len` is the number of elements
/// that it holds at the time.
pub proof fn law_vec_len<T>(v: Vec<T>)
    ensures
        <Vec<T> as ArrayOrVec<T>>::fixed_len() == None::<usize>,
{
}

/// At a position inside the sequence, `get` finds the element that indexing
/// gives, and `get_unchecked` hands out the same one.
pub proof fn law_get_in_bounds<T>(s: Seq<T>, i: usize, got: Option<&T>, out: &T)
    requires
        i < s.len(),
        is_get(s, i, got),
        i.selects(s, out),
    ensures
        got == Some(&s[i as int]),
        *out == s[i as int],
        got == Some(out),
{
}

/// At a position outside the sequence, `get` finds nothing.
pub proof fn law_get_out_of_bounds<T>(s: Seq<T>, i: usize, got: Option<&T>)
    requires
        i >= s.len(),
        is_get(s, i, got),
    ensures
        got is None,
{
}

/// For a range `a..b` with `a <= b <= len`, `get` finds a part of `b - a`
/// elements, which are the elements of the sequence from position `a` on.
pub proof fn law_get_range<T>(s: Seq<T>, range: Range<usize>, got: Option<&[T]>)
    requires
        range.start <= range.end <= s.len(),
        is_get(s, range, got),
    ensures
        got is Some,
        got.unwrap()@.len() == range.end - range.start,
        forall|k: int|
            0 <= k < range.end - range.start ==> got.unwrap()@[k] == s[range.start + k],
{
}

/// A range that does not lie within the sequence finds nothing.
pub proof fn law_get_range_out_of_bounds<T>(s: Seq<T>, range: Range<usize>, got: Option<&[T]>)
    requires
        range.start > range.end || range.end > s.len(),
        is_get(s, range, got),
    ensures
        got is None,
{
}

/// After an element has been written through `get_mut`, `get` finds the new
/// value at that position and the old values everywhere else, and the
/// sequence is as long as before.
pub proof fn law_write_element<T>(
    before: Seq<T>,
    i: usize,
    held: &T,
    left: &T,
    after: Seq<T>,
    j: usize,
    got: Option<&T>,
)
    requires
        is_get_mut(before, i, held, left, after),
        is_get(after, j, got),
    ensures
        *held == before[i as int],
        after.len() == before.len(),
        j == i ==> got == Some(left),
        j != i && j < before.len() ==> got == Some(&before[j as int]),
        j >= before.len() ==> got is None,
{
}

/// After a part has been written through `get_mut` with a range, and is as
/// long as it was, the sequence is as long as before, `get` with the same
/// range finds what was written, and the elements outside the range are the
/// old ones.
pub proof fn law_write_range<T>(
    before: Seq<T>,
    range: Range<usize>,
    held: &[T],
    left: &[T],
    after: Seq<T>,
    got: Option<&[T]>,
)
    requires
        is_get_mut(before, range, held, left, after),
        left@.len() == held@.len(),
        is_get(after, range, got),
    ensures
        after.len() == before.len(),
        got is Some,
        got.unwrap()@ == left@,
        forall|k: int| 0 <= k < range.start ==> after[k] == before[k],
        forall|k: int| range.end <= k < before.len() ==> after[k] == before[k],
{
    assert(after =~= splice(before, range.start as int, range.end as int, left@));
    assert(after.subrange(range.start as int, range.end as int) =~= left@);
}

/// `get` with one of the other range forms returns what it returns with the
/// range `a..b` that has the same first position and the same position after
/// the last; an inclusive range that ends at the largest `usize` finds
/// nothing.
pub proof fn law_range_forms<T>(
    s: Seq<T>,
    from: RangeFrom<usize>,
    to: RangeTo<usize>,
    full: RangeFull,
    inclusive: RangeInclusive<usize>,
    to_inclusive: RangeToInclusive<usize>,
    got: Option<&[T]>,
)
    requires
        s.len() <= usize::MAX,
    ensures
        is_get(s, from, got) <==> is_get(s, from.start..(s.len() as usize), got),
        is_get(s, to, got) <==> is_get(s, 0usize..to.end, got),
        is_get(s, full, got) <==> is_get(s, 0usize..(s.len() as usize), got),
        inclusive@.end < usize::MAX ==> (is_get(s, inclusive, got) <==> is_get(
            s,
            inclusive@.start..((inclusive@.end + 1) as usize),
            got,
        )),
        inclusive@.end == usize::MAX ==> (is_get(s, inclusive, got) <==> got is None),
        to_inclusive.end < usize::MAX ==> (is_get(s, to_inclusive, got) <==> is_get(
            s,
            0usize..((to_inclusive.end + 1) as usize),
            got,
        )),
        to_inclusive.end == usize::MAX ==> (is_get(s, to_inclusive, got) <==> got is None),
{
    assert(s.subrange(0, s.len() as int) =~= s);
}

/// What is written through `as_mut_slice` is what `as_slice` shows
/// afterwards: both speak of the same sequence.
pub proof fn law_write_slice<T>(after: Seq<T>, left: &[T], seen: &[T])
    requires
        left@ == after,
        seen@ == after,
    ensures
        seen@ == left@,
        seen@.len() == left@.len(),
{
}

/// An array and a vector with the same elements cannot be told apart
/// through the interface: they have the same length, `get` finds the same
/// element at every position, and their elements sum to the same total.
pub proof fn law_same_contents_same_results<T: Add<Output = T>, const N: usize>(
    array: [T; N],
    vec: Vec<T>,
    i: usize,
    from_array: Option<&T>,
    from_vec: Option<&T>,
    zero: T,
)
    requires
        array@ == vec@,
        is_get(array@, i, from_array),
        is_get(vec@, i, from_vec),
    ensures
        vec@.len() == N,
        from_array == from_vec,
        total(zero, array@) == total(zero, vec@),
{
}

/// A conversion that keeps the view keeps the number of elements and each
/// element at its position.
pub proof fn law_conversion_keeps_order<T>(from: Seq<T>, to: Seq<T>)
    requires
        to == from,
    ensures
        to.len() == from.len(),
        forall|k: int| 0 <= k < from.len() ==> to[k] == from[k],
{
}

} // verus!
