//! The index forms that select part of a sequence: a single position and the
//! six kinds of range.
//!
//! Each form says, as specification functions, when it lies within a sequence
//! of a given length, what it selects there, and what the sequence looks like
//! once the selected part has been written to. The executable methods are
//! proved against those statements.

use core::ops::{Range, RangeFrom, RangeFull, RangeInclusive, RangeTo, RangeToInclusive};
use core::slice::SliceIndex;
use vstd::prelude::*;

verus! {

/// `s` with the positions `lo..hi` replaced by `part`.
pub open spec fn splice<T>(s: Seq<T>, lo: int, hi: int, part: Seq<T>) -> Seq<T> {
    s.subrange(0, lo) + part + s.subrange(hi, s.len() as int)
}

/// The part `lo..hi` of a slice.
fn subslice<'a, T>(slice: &'a [T], lo: usize, hi: usize) -> (part: &'a [T])
    requires
        lo <= hi <= slice@.len(),
    ensures
        part@ == slice@.subrange(lo as int, hi as int),
{
    &slice[lo..hi]
}

/// The part `lo..hi` of a slice, for writing. What is left in `part` when the
/// borrow ends is what the slice then holds at `lo..hi`; the rest of the
/// slice stays as it was.
fn subslice_mut<'a, T>(slice: &'a mut [T], lo: usize, hi: usize) -> (part: &'a mut [T])
    requires
        lo <= hi <= old(slice)@.len(),
    ensures
        part@ == old(slice)@.subrange(lo as int, hi as int),
        final(slice)@ == splice(old(slice)@, lo as int, hi as int, final(part)@),
{
    let (_, rest) = slice.split_at_mut(lo);
    let (part, _) = rest.split_at_mut(hi - lo);
    part
}

/// An index into a sequence of `T`: a position, or a range of positions.
pub trait SeqIndex<T>: SliceIndex<[T]> + Sized {
    /// Whether the bounds of the index are known. This holds of every index
    /// but an inclusive range that has been iterated to exhaustion: the
    /// standard library does not say which bounds such a range has.
    spec fn wf(&self) -> bool;

    /// Whether the index lies within a sequence of `len` elements.
    spec fn in_bounds(&self, len: nat) -> bool;

    /// Whether `out` is what the index selects in `s`.
    spec fn selects(&self, s: Seq<T>, out: &<Self as SliceIndex<[T]>>::Output) -> bool;

    /// `s` with what the index selects replaced by `out`.
    spec fn rebuilt(&self, s: Seq<T>, out: &<Self as SliceIndex<[T]>>::Output) -> Seq<T>;

    /// The selected part of `slice`, or `None` where the index does not lie
    /// within it.
    fn get_in(self, slice: &[T]) -> (r: Option<&<Self as SliceIndex<[T]>>::Output>)
        ensures
            self.wf() ==> match r {
                Some(out) => self.in_bounds(slice@.len()) && self.selects(slice@, out),
                None => !self.in_bounds(slice@.len()),
            },
    ;

    /// The selected part of `slice`, for writing, or `None` where the index
    /// does not lie within it. The slice ends up as `rebuilt` says, from what
    /// is left in the part when the borrow ends.
    fn get_mut_in(self, slice: &mut [T]) -> (r: Option<&mut <Self as SliceIndex<[T]>>::Output>)
        ensures
            self.wf() ==> match r {
                Some(out) => self.in_bounds(old(slice)@.len()) && self.selects(old(slice)@, &*out)
                    && final(slice)@ == self.rebuilt(old(slice)@, &*final(out)),
                None => !self.in_bounds(old(slice)@.len()) && final(slice)@ == old(slice)@,
            },
    ;
}

/// What `get` returns for `index` in the sequence `s`: the selected part
/// where the index lies within `s`, nothing where it does not.
pub open spec fn is_get<T, I: SeqIndex<T>>(
    s: Seq<T>,
    index: I,
    got: Option<&<I as SliceIndex<[T]>>::Output>,
) -> bool {
    match got {
        Some(out) => index.in_bounds(s.len()) && index.selects(s, out),
        None => !index.in_bounds(s.len()),
    }
}

/// What `get_mut` does where it returns a part: `index` lies within the
/// sequence `before`, the part holds at first what the index selects there
/// (`held`), and once the borrow has ended with `left` in the part, the
/// sequence is `after`.
pub open spec fn is_get_mut<T, I: SeqIndex<T>>(
    before: Seq<T>,
    index: I,
    held: &<I as SliceIndex<[T]>>::Output,
    left: &<I as SliceIndex<[T]>>::Output,
    after: Seq<T>,
) -> bool {
    &&& index.in_bounds(before.len())
    &&& index.selects(before, held)
    &&& after == index.rebuilt(before, left)
}

/// A single position `i` selects the element at `i`.
impl<T> SeqIndex<T> for usize {
    open spec fn wf(&self) -> bool {
        true
    }

    open spec fn in_bounds(&self, len: nat) -> bool {
        *self < len
    }

    open spec fn selects(&self, s: Seq<T>, out: &T) -> bool {
        *out == s[*self as int]
    }

    open spec fn rebuilt(&self, s: Seq<T>, out: &T) -> Seq<T> {
        s.update(*self as int, *out)
    }

    fn get_in(self, slice: &[T]) -> (r: Option<&T>) {
        slice.get(self)
    }

    fn get_mut_in(self, slice: &mut [T]) -> (r: Option<&mut T>) {
        if self < slice.len() {
            Some(&mut slice[self])
        } else {
            None
        }
    }
}

/// `a..b` selects the positions from `a` up to, not including, `b`.
impl<T> SeqIndex<T> for Range<usize> {
    open spec fn wf(&self) -> bool {
        true
    }

    open spec fn in_bounds(&self, len: nat) -> bool {
        self.start <= self.end <= len
    }

    open spec fn selects(&self, s: Seq<T>, out: &[T]) -> bool {
        out@ == s.subrange(self.start as int, self.end as int)
    }

    open spec fn rebuilt(&self, s: Seq<T>, out: &[T]) -> Seq<T> {
        splice(s, self.start as int, self.end as int, out@)
    }

    fn get_in(self, slice: &[T]) -> (r: Option<&[T]>) {
        if self.start <= self.end && self.end <= slice.len() {
            Some(subslice(slice, self.start, self.end))
        } else {
            None
        }
    }

    fn get_mut_in(self, slice: &mut [T]) -> (r: Option<&mut [T]>) {
        if self.start <= self.end && self.end <= slice.len() {
            Some(subslice_mut(slice, self.start, self.end))
        } else {
            None
        }
    }
}

/// `a..` selects the positions from `a` to the end.
impl<T> SeqIndex<T> for RangeFrom<usize> {
    open spec fn wf(&self) -> bool {
        true
    }

    open spec fn in_bounds(&self, len: nat) -> bool {
        self.start <= len
    }

    open spec fn selects(&self, s: Seq<T>, out: &[T]) -> bool {
        out@ == s.subrange(self.start as int, s.len() as int)
    }

    open spec fn rebuilt(&self, s: Seq<T>, out: &[T]) -> Seq<T> {
        splice(s, self.start as int, s.len() as int, out@)
    }

    fn get_in(self, slice: &[T]) -> (r: Option<&[T]>) {
        if self.start <= slice.len() {
            Some(subslice(slice, self.start, slice.len()))
        } else {
            None
        }
    }

    fn get_mut_in(self, slice: &mut [T]) -> (r: Option<&mut [T]>) {
        let len = slice.len();
        if self.start <= len {
            Some(subslice_mut(slice, self.start, len))
        } else {
            None
        }
    }
}

/// `..b` selects the positions before `b`.
impl<T> SeqIndex<T> for RangeTo<usize> {
    open spec fn wf(&self) -> bool {
        true
    }

    open spec fn in_bounds(&self, len: nat) -> bool {
        self.end <= len
    }

    open spec fn selects(&self, s: Seq<T>, out: &[T]) -> bool {
        out@ == s.subrange(0, self.end as int)
    }

    open spec fn rebuilt(&self, s: Seq<T>, out: &[T]) -> Seq<T> {
        splice(s, 0, self.end as int, out@)
    }

    fn get_in(self, slice: &[T]) -> (r: Option<&[T]>) {
        if self.end <= slice.len() {
            Some(subslice(slice, 0, self.end))
        } else {
            None
        }
    }

    fn get_mut_in(self, slice: &mut [T]) -> (r: Option<&mut [T]>) {
        if self.end <= slice.len() {
            Some(subslice_mut(slice, 0, self.end))
        } else {
            None
        }
    }
}

/// `..` selects every position.
impl<T> SeqIndex<T> for RangeFull {
    open spec fn wf(&self) -> bool {
        true
    }

    open spec fn in_bounds(&self, len: nat) -> bool {
        true
    }

    open spec fn selects(&self, s: Seq<T>, out: &[T]) -> bool {
        out@ == s
    }

    open spec fn rebuilt(&self, s: Seq<T>, out: &[T]) -> Seq<T> {
        out@
    }

    fn get_in(self, slice: &[T]) -> (r: Option<&[T]>) {
        Some(slice)
    }

    fn get_mut_in(self, slice: &mut [T]) -> (r: Option<&mut [T]>) {
        Some(slice)
    }
}

/// `a..=b` selects the positions from `a` up to and including `b`.
impl<T> SeqIndex<T> for RangeInclusive<usize> {
    open spec fn wf(&self) -> bool {
        !self@.exhausted
    }

    open spec fn in_bounds(&self, len: nat) -> bool {
        self@.start <= self@.end + 1 <= len
    }

    open spec fn selects(&self, s: Seq<T>, out: &[T]) -> bool {
        out@ == s.subrange(self@.start as int, self@.end + 1)
    }

    open spec fn rebuilt(&self, s: Seq<T>, out: &[T]) -> Seq<T> {
        splice(s, self@.start as int, self@.end + 1, out@)
    }

    fn get_in(self, slice: &[T]) -> (r: Option<&[T]>) {
        let (start, end) = self.into_inner();
        if end < slice.len() && start <= end + 1 {
            Some(subslice(slice, start, end + 1))
        } else {
            None
        }
    }

    fn get_mut_in(self, slice: &mut [T]) -> (r: Option<&mut [T]>) {
        let (start, end) = self.into_inner();
        if end < slice.len() && start <= end + 1 {
            Some(subslice_mut(slice, start, end + 1))
        } else {
            None
        }
    }
}

/// `..=b` selects the positions up to and including `b`.
impl<T> SeqIndex<T> for RangeToInclusive<usize> {
    open spec fn wf(&self) -> bool {
        true
    }

    open spec fn in_bounds(&self, len: nat) -> bool {
        self.end < len
    }

    open spec fn selects(&self, s: Seq<T>, out: &[T]) -> bool {
        out@ == s.subrange(0, self.end + 1)
    }

    open spec fn rebuilt(&self, s: Seq<T>, out: &[T]) -> Seq<T> {
        splice(s, 0, self.end + 1, out@)
    }

    fn get_in(self, slice: &[T]) -> (r: Option<&[T]>) {
        if self.end < slice.len() {
            Some(subslice(slice, 0, self.end + 1))
        } else {
            None
        }
    }

    fn get_mut_in(self, slice: &mut [T]) -> (r: Option<&mut [T]>) {
        if self.end < slice.len() {
            Some(subslice_mut(slice, 0, self.end + 1))
        } else {
            None
        }
    }
}

} // verus!
