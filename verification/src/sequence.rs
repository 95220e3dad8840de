//! The interface itself, and its two implementations: arrays, whose length is
//! part of the type, and vectors, whose length is known at run time.

use crate::index::{is_get, is_get_mut, SeqIndex};
use crate::std_specs::{slice_iter_mut, vec_into_boxed_slice};
use core::borrow::Borrow;
use core::ops::{
    Index, IndexMut, Range, RangeFrom, RangeFull, RangeInclusive, RangeTo, RangeToInclusive,
};
use core::slice::{Iter, IterMut, SliceIndex};
use vstd::prelude::*;
use vstd::std_specs::iter::IteratorSpec;

verus! {

/// A contiguous sequence of `T` that is either an array or a vector.
///
/// The view of a value is the sequence of its elements, in storage order.
/// Every contract below is stated over that view.
pub trait ArrayOrVec<T>:
    View<V = Seq<T>>
    + Sized
    + Borrow<[T]>
    + Into<Box<[T]>>
    + Into<Vec<T>>
    + Index<usize>
    + Index<Range<usize>>
    + Index<RangeFrom<usize>>
    + Index<RangeFull>
    + Index<RangeInclusive<usize>>
    + Index<RangeTo<usize>>
    + Index<RangeToInclusive<usize>>
    + IndexMut<usize>
    + IndexMut<Range<usize>>
    + IndexMut<RangeFrom<usize>>
    + IndexMut<RangeFull>
    + IndexMut<RangeInclusive<usize>>
    + IndexMut<RangeTo<usize>>
    + IndexMut<RangeToInclusive<usize>>
{
    /// The element type.
    type Item;

    /// The number of elements that every value of the type has, where the
    /// type fixes it; `None` where the number is known only at run time.
    spec fn fixed_len() -> Option<usize>;

    /// A value of a type that fixes the number of elements has that many.
    proof fn lemma_fixed_len(&self)
        ensures
            Self::fixed_len() matches Some(n) ==> self@.len() == n,
    ;

    /// The number of elements that the type fixes, if it fixes one.
    fn static_len() -> (n: Option<usize>)
        ensures
            n == Self::fixed_len(),
    ;

    /// All elements, as a slice.
    fn as_slice(&self) -> (slice: &[T])
        ensures
            slice@ == self@,
    ;

    /// All elements, as a slice to write to. What the slice holds when the
    /// borrow ends is what the sequence then holds.
    fn as_mut_slice(&mut self) -> (slice: &mut [T])
        ensures
            slice@ == old(self)@,
            final(slice)@ == final(self)@,
    ;

    /// An iterator over the elements, first to last.
    fn iter(&self) -> (it: Iter<'_, T>)
        ensures
            it.remaining() == self@.as_ref(),
            it.decrease() is Some,
            it.initial_value_relation(&it),
    ;

    /// An iterator over the elements, first to last, for writing. It yields
    /// one reference for each element, which holds that element at first;
    /// the sequence is as long afterwards as before, and holds at each
    /// position what is left in the reference to that position.
    fn iter_mut(&mut self) -> (it: IterMut<'_, T>)
        ensures
            it.obeys_prophetic_iter_laws(),
            it.remaining().len() == old(self)@.len(),
            forall|i: int|
                0 <= i < old(self)@.len() ==> *(#[trigger] it.remaining()[i]) == old(self)@[i],
            final(self)@.len() == old(self)@.len(),
            forall|i: int|
                0 <= i < old(self)@.len() ==> #[trigger] final(self)@[i] == *final(it.remaining()[i]),
    ;

    /// What `index` selects, or `None` where it does not lie within the
    /// sequence.
    fn get<I>(&self, index: I) -> (r: Option<&<I as SliceIndex<[T]>>::Output>) where
        I: SeqIndex<T>,

        ensures
            index.wf() ==> is_get(self@, index, r),
    ;

    /// What `index` selects, for writing, or `None` where it does not lie
    /// within the sequence. The sequence ends up with the selected part
    /// replaced by what is left in it when the borrow ends.
    fn get_mut<I>(&mut self, index: I) -> (r: Option<&mut <I as SliceIndex<[T]>>::Output>) where
        I: SeqIndex<T>,

        ensures
            index.wf() ==> match r {
                Some(out) => is_get_mut(old(self)@, index, &*out, &*final(out), final(self)@),
                None => !index.in_bounds(old(self)@.len()) && final(self)@ == old(self)@,
            },
    ;

    /// What `index` selects, for a caller who has made sure that it lies
    /// within the sequence.
    fn get_unchecked<I>(&self, index: I) -> (out: &<I as SliceIndex<[T]>>::Output) where
        I: SeqIndex<T>,

        requires
            index.wf(),
            index.in_bounds(self@.len()),
        ensures
            index.selects(self@, out),
    ;

    /// What `index` selects, for writing, for a caller who has made sure that
    /// it lies within the sequence.
    fn get_unchecked_mut<I>(&mut self, index: I) -> (out: &mut <I as SliceIndex<[T]>>::Output) where
        I: SeqIndex<T>,

        requires
            index.wf(),
            index.in_bounds(old(self)@.len()),
        ensures
            is_get_mut(old(self)@, index, &*out, &*final(out), final(self)@),
    ;

    /// The number of elements.
    fn len(&self) -> (n: usize)
        ensures
            n == self@.len(),
    ;

    /// The elements, moved into a vector.
    fn into_vec(self) -> (v: Vec<T>)
        ensures
            v@ == self@,
    ;

    /// The elements, moved into a boxed slice.
    fn into_boxed_slice(self) -> (b: Box<[T]>)
        ensures
            b@ == self@,
    ;
}

impl<T, const N: usize> ArrayOrVec<T> for [T; N] {
    type Item = T;

    open spec fn fixed_len() -> Option<usize> {
        Some(N)
    }

    proof fn lemma_fixed_len(&self) {
    }

    fn static_len() -> (n: Option<usize>) {
        Some(N)
    }

    fn as_slice(&self) -> (slice: &[T]) {
        self
    }

    fn as_mut_slice(&mut self) -> (slice: &mut [T]) {
        self
    }

    fn iter(&self) -> (it: Iter<'_, T>) {
        <[T]>::iter(self)
    }

    fn iter_mut(&mut self) -> (it: IterMut<'_, T>) {
        slice_iter_mut(self)
    }

    fn get<I>(&self, index: I) -> (r: Option<&<I as SliceIndex<[T]>>::Output>) where
        I: SeqIndex<T>,
     {
        index.get_in(self)
    }

    fn get_mut<I>(&mut self, index: I) -> (r: Option<&mut <I as SliceIndex<[T]>>::Output>) where
        I: SeqIndex<T>,
     {
        index.get_mut_in(self)
    }

    fn get_unchecked<I>(&self, index: I) -> (out: &<I as SliceIndex<[T]>>::Output) where
        I: SeqIndex<T>,
     {
        index.get_in(self).unwrap()
    }

    fn get_unchecked_mut<I>(&mut self, index: I) -> (out: &mut <I as SliceIndex<[T]>>::Output) where
        I: SeqIndex<T>,
     {
        index.get_mut_in(self).unwrap()
    }

    fn len(&self) -> (n: usize)
        ensures
            n == N,
    {
        N
    }

    fn into_vec(self) -> (v: Vec<T>) {
        self.into()
    }

    fn into_boxed_slice(self) -> (b: Box<[T]>) {
        self.into()
    }
}

impl<T> ArrayOrVec<T> for Vec<T> {
    type Item = T;

    open spec fn fixed_len() -> Option<usize> {
        None
    }

    proof fn lemma_fixed_len(&self) {
    }

    fn static_len() -> (n: Option<usize>) {
        None
    }

    fn as_slice(&self) -> (slice: &[T]) {
        <Vec<T>>::as_slice(self)
    }

    fn as_mut_slice(&mut self) -> (slice: &mut [T]) {
        <Vec<T>>::as_mut_slice(self)
    }

    fn iter(&self) -> (it: Iter<'_, T>) {
        <[T]>::iter(<Vec<T>>::as_slice(self))
    }

    fn iter_mut(&mut self) -> (it: IterMut<'_, T>) {
        slice_iter_mut(<Vec<T>>::as_mut_slice(self))
    }

    fn get<I>(&self, index: I) -> (r: Option<&<I as SliceIndex<[T]>>::Output>) where
        I: SeqIndex<T>,
     {
        index.get_in(<Vec<T>>::as_slice(self))
    }

    fn get_mut<I>(&mut self, index: I) -> (r: Option<&mut <I as SliceIndex<[T]>>::Output>) where
        I: SeqIndex<T>,
     {
        index.get_mut_in(<Vec<T>>::as_mut_slice(self))
    }

    fn get_unchecked<I>(&self, index: I) -> (out: &<I as SliceIndex<[T]>>::Output) where
        I: SeqIndex<T>,
     {
        index.get_in(<Vec<T>>::as_slice(self)).unwrap()
    }

    fn get_unchecked_mut<I>(&mut self, index: I) -> (out: &mut <I as SliceIndex<[T]>>::Output) where
        I: SeqIndex<T>,
     {
        index.get_mut_in(<Vec<T>>::as_mut_slice(self)).unwrap()
    }

    fn len(&self) -> (n: usize) {
        <Vec<T>>::len(self)
    }

    fn into_vec(self) -> (v: Vec<T>) {
        self
    }

    fn into_boxed_slice(self) -> (b: Box<[T]>) {
        vec_into_boxed_slice(self)
    }
}

} // verus!
