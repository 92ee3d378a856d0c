//! Converts an expected number of occurrences, an exact count or any range of
//! counts, into a lower and an upper `Bound`.
mod into_times;
mod range_types;

pub use into_times::{copied, IntoTimes, Times};

use std::ops::{Bound, Range, RangeFrom, RangeFull, RangeInclusive, RangeTo, RangeToInclusive};
use vstd::prelude::*;

verus! {

/// An exact count `k` converts to `k` included at both ends.
pub proof fn exact_count_is_closed(k: usize, r: Times)
    ensures
        k.yields(r) <==> r == (Bound::Included(k), Bound::Included(k)),
{
}

/// `a..b` converts to `a` included and `b` excluded, and a fresh `a..=b` to
/// `a` and `b` both included. Neither asks `a <= b`: the bounds are not checked.
pub proof fn bounded_ranges(a: usize, b: usize, inclusive: RangeInclusive<usize>, r: Times)
    requires
        inclusive@.start == a,
        inclusive@.end == b,
        !inclusive@.exhausted,
    ensures
        (Range { start: a, end: b }).yields(r) <==> r == (
            Bound::Included(a),
            Bound::Excluded(b),
        ),
        inclusive.yields(r) <==> r == (Bound::Included(a), Bound::Included(b)),
{
}

/// `a..` converts to `a` included and no upper bound.
pub proof fn range_from_is_open_above(a: usize, r: Times)
    ensures
        (RangeFrom { start: a }).yields(r) <==> r == (
            Bound::Included(a),
            Bound::<usize>::Unbounded,
        ),
{
}

/// `..b` converts to no lower bound and `b` excluded; `..=b` to no lower bound
/// and `b` included.
pub proof fn range_to_is_open_below(b: usize, r: Times)
    ensures
        (RangeTo { end: b }).yields(r) <==> r == (Bound::<usize>::Unbounded, Bound::Excluded(b)),
        (RangeToInclusive { end: b }).yields(r) <==> r == (
            Bound::<usize>::Unbounded,
            Bound::Included(b),
        ),
{
}

/// `..` converts to no bound at either end.
pub proof fn full_range_is_unbounded(r: Times)
    ensures
        RangeFull.yields(r) <==> r == (Bound::<usize>::Unbounded, Bound::<usize>::Unbounded),
{
}

/// A pair of bounds converts to itself.
pub proof fn bound_pair_is_kept(p: Times, r: Times)
    ensures
        p.yields(r) <==> r == p,
{
}

/// Each range over references converts exactly as the same range over the
/// referenced values.
pub proof fn referenced_ranges_agree<'a>(
    a: &'a usize,
    b: &'a usize,
    inclusive: RangeInclusive<usize>,
    referenced: RangeInclusive<&'a usize>,
    r: Times,
)
    requires
        inclusive@.start == *referenced@.start,
        inclusive@.end == *referenced@.end,
        inclusive@.exhausted == referenced@.exhausted,
    ensures
        (Range { start: *a, end: *b }).yields(r) <==> (Range { start: a, end: b }).yields(r),
        (RangeFrom { start: *a }).yields(r) <==> (RangeFrom { start: a }).yields(r),
        (RangeTo { end: *b }).yields(r) <==> (RangeTo { end: b }).yields(r),
        (RangeToInclusive { end: *b }).yields(r) <==> (RangeToInclusive { end: b }).yields(r),
        inclusive.yields(r) <==> referenced.yields(r),
{
}

/// A pair of bounds over references converts exactly as the same pair over
/// the referenced values.
pub proof fn referenced_bound_pair_agrees<'a, 'b>(
    p: (Bound<&'a usize>, Bound<&'b usize>),
    r: Times,
)
    ensures
        p.yields(r) <==> (copied(p.0), copied(p.1)).yields(r),
{
}

} // verus!
