//! Summing the elements of a sequence, whichever container holds them.

use crate::sequence::ArrayOrVec;
use core::ops::Add;
use vstd::prelude::*;
use vstd::std_specs::iter::IteratorSpec;
use vstd::std_specs::ops::AddSpec;

verus! {

/// `start` with the elements of `s` added to it one by one, first to last.
pub open spec fn total<T: Add<Output = T>>(start: T, s: Seq<T>) -> T
    decreases s.len(),
{
    if s.len() == 0 {
        start
    } else {
        total(start, s.drop_last()).add_spec(s.last())
    }
}

/// Whether each addition that `total(start, s)` stands for is one that `T`
/// allows: for the machine integers, whether none of them overflows.
pub open spec fn addable<T: Add<Output = T>>(start: T, s: Seq<T>) -> bool {
    forall|k: int| 0 <= k < s.len() ==> #[trigger] total(start, s.take(k)).add_req(s[k])
}

/// The sum of the elements of `a`, added first to last to `T`'s default
/// value. The result depends on the elements alone, not on the container.
pub fn sum<T, A>(a: &A) -> (r: T) where T: Copy + Default + Add<Output = T>, A: ArrayOrVec<T>
    requires
        T::obeys_add_spec(),
        forall|zero: T| call_ensures(T::default, (), zero) ==> addable(zero, a@),
    ensures
        exists|zero: T| call_ensures(T::default, (), zero) && r == total(zero, a@),
{
    let zero = T::default();
    let mut acc = zero;
    for x in it: a.iter()
        invariant
            T::obeys_add_spec(),
            it.seq() == a@.as_ref(),
            addable(zero, a@),
            acc == total(zero, a@.take(it.index())),
    {
        assert(a@.take(it.index() + 1).drop_last() =~= a@.take(it.index()));
        acc = acc + *x;
    }
    assert(a@.take(a@.len() as int) =~= a@);
    acc
}

} // verus!
