use std::ops::{
    Bound, Range, RangeBounds, RangeFrom, RangeFull, RangeInclusive, RangeTo, RangeToInclusive,
};
use vstd::prelude::*;

verus! {

/// The pair of bounds that a count range converts to.
pub type Times = (Bound<usize>, Bound<usize>);

/// How many times something is expected to occur: an exact count or a range
/// of counts, given as a lower and an upper bound. The bounds are passed on as
/// they are, with no check that the lower one lies below the upper one.
pub trait IntoTimes: Sealed {
    /// Whether `r` is what converting `self` gives.
    spec fn yields(&self, r: Times) -> bool;

    /// Provide the lower and upper bounds.
    fn into_times(self) -> (r: Times)
        ensures
            self.yields(r),
    ;
}

/// Not reachable from outside the crate, so `IntoTimes` can be used there but
/// not implemented for any further type.
pub trait Sealed {}

/// The bound with the referenced value copied out.
pub open spec fn copied<T>(b: Bound<&T>) -> Bound<T> {
    match b {
        Bound::Included(x) => Bound::Included(*x),
        Bound::Excluded(x) => Bound::Excluded(*x),
        Bound::Unbounded => Bound::Unbounded,
    }
}

fn copy_bound<T: Copy>(b: Bound<&T>) -> (r: Bound<T>)
    ensures
        r == copied(b),
{
    match b {
        Bound::Included(x) => Bound::Included(*x),
        Bound::Excluded(x) => Bound::Excluded(*x),
        Bound::Unbounded => Bound::Unbounded,
    }
}

impl IntoTimes for usize {
    open spec fn yields(&self, r: Times) -> bool {
        r == (Bound::Included(*self), Bound::Included(*self))
    }

    fn into_times(self) -> (r: Times) {
        (Bound::Included(self), Bound::Included(self))
    }
}

impl Sealed for usize {}

impl IntoTimes for Range<usize> {
    open spec fn yields(&self, r: Times) -> bool {
        r == (Bound::Included(self.start), Bound::Excluded(self.end))
    }

    fn into_times(self) -> (r: Times) {
        (Bound::Included(self.start), Bound::Excluded(self.end))
    }
}

impl Sealed for Range<usize> {}

impl<'a> IntoTimes for Range<&'a usize> {
    open spec fn yields(&self, r: Times) -> bool {
        r == (Bound::Included(*self.start), Bound::Excluded(*self.end))
    }

    fn into_times(self) -> (r: Times) {
        (Bound::Included(*self.start), Bound::Excluded(*self.end))
    }
}

impl<'a> Sealed for Range<&'a usize> {}

impl IntoTimes for RangeFrom<usize> {
    open spec fn yields(&self, r: Times) -> bool {
        r == (Bound::Included(self.start), Bound::<usize>::Unbounded)
    }

    fn into_times(self) -> (r: Times) {
        (Bound::Included(self.start), Bound::Unbounded)
    }
}

impl Sealed for RangeFrom<usize> {}

impl<'a> IntoTimes for RangeFrom<&'a usize> {
    open spec fn yields(&self, r: Times) -> bool {
        r == (Bound::Included(*self.start), Bound::<usize>::Unbounded)
    }

    fn into_times(self) -> (r: Times) {
        (Bound::Included(*self.start), Bound::Unbounded)
    }
}

impl<'a> Sealed for RangeFrom<&'a usize> {}

impl IntoTimes for RangeInclusive<usize> {
    // std leaves the bounds of a range iterated to exhaustion unspecified.
    open spec fn yields(&self, r: Times) -> bool {
        !self@.exhausted ==> r == (Bound::Included(self@.start), Bound::Included(self@.end))
    }

    fn into_times(self) -> (r: Times) {
        (copy_bound(self.start_bound()), copy_bound(self.end_bound()))
    }
}

impl Sealed for RangeInclusive<usize> {}

impl<'a> IntoTimes for RangeInclusive<&'a usize> {
    // std leaves the bounds of a range iterated to exhaustion unspecified.
    open spec fn yields(&self, r: Times) -> bool {
        !self@.exhausted ==> r == (Bound::Included(*self@.start), Bound::Included(*self@.end))
    }

    fn into_times(self) -> (r: Times) {
        (copy_bound(copy_bound(self.start_bound())), copy_bound(copy_bound(self.end_bound())))
    }
}

impl<'a> Sealed for RangeInclusive<&'a usize> {}

impl IntoTimes for RangeTo<usize> {
    open spec fn yields(&self, r: Times) -> bool {
        r == (Bound::<usize>::Unbounded, Bound::Excluded(self.end))
    }

    fn into_times(self) -> (r: Times) {
        (Bound::Unbounded, Bound::Excluded(self.end))
    }
}

impl Sealed for RangeTo<usize> {}

impl<'a> IntoTimes for RangeTo<&'a usize> {
    open spec fn yields(&self, r: Times) -> bool {
        r == (Bound::<usize>::Unbounded, Bound::Excluded(*self.end))
    }

    fn into_times(self) -> (r: Times) {
        (Bound::Unbounded, Bound::Excluded(*self.end))
    }
}

impl<'a> Sealed for RangeTo<&'a usize> {}

impl IntoTimes for RangeToInclusive<usize> {
    open spec fn yields(&self, r: Times) -> bool {
        r == (Bound::<usize>::Unbounded, Bound::Included(self.end))
    }

    fn into_times(self) -> (r: Times) {
        (Bound::Unbounded, Bound::Included(self.end))
    }
}

impl Sealed for RangeToInclusive<usize> {}

impl<'a> IntoTimes for RangeToInclusive<&'a usize> {
    open spec fn yields(&self, r: Times) -> bool {
        r == (Bound::<usize>::Unbounded, Bound::Included(*self.end))
    }

    fn into_times(self) -> (r: Times) {
        (Bound::Unbounded, Bound::Included(*self.end))
    }
}

impl<'a> Sealed for RangeToInclusive<&'a usize> {}

impl IntoTimes for RangeFull {
    open spec fn yields(&self, r: Times) -> bool {
        r == (Bound::<usize>::Unbounded, Bound::<usize>::Unbounded)
    }

    fn into_times(self) -> (r: Times) {
        (Bound::Unbounded, Bound::Unbounded)
    }
}

impl Sealed for RangeFull {}

impl IntoTimes for (Bound<usize>, Bound<usize>) {
    open spec fn yields(&self, r: Times) -> bool {
        r == *self
    }

    fn into_times(self) -> (r: Times) {
        self
    }
}

impl Sealed for (Bound<usize>, Bound<usize>) {}

impl<'a, 'b> IntoTimes for (Bound<&'a usize>, Bound<&'b usize>) {
    open spec fn yields(&self, r: Times) -> bool {
        r == (copied(self.0), copied(self.1))
    }

    fn into_times(self) -> (r: Times) {
        (copy_bound(self.0), copy_bound(self.1))
    }
}

impl<'a, 'b> Sealed for (Bound<&'a usize>, Bound<&'b usize>) {}

} // verus!
