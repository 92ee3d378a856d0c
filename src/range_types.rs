use std::ops::{
    Bound, RangeBounds, RangeFrom, RangeFull, RangeInclusive, RangeTo, RangeToInclusive,
};
use vstd::prelude::*;

verus! {

/// std's `Bound`: `Included(n)`, `Excluded(n)` or `Unbounded`, with public variants.
#[verifier::external_type_specification]
#[verifier::reject_recursive_types(T)]
pub struct ExBound<T>(Bound<T>);

/// std's `RangeFrom` (`a..`), whose one field `start` is public.
#[verifier::external_type_specification]
#[verifier::reject_recursive_types(Idx)]
pub struct ExRangeFrom<Idx>(RangeFrom<Idx>);

/// std's `RangeTo` (`..b`), whose one field `end` is public.
#[verifier::external_type_specification]
#[verifier::reject_recursive_types(Idx)]
pub struct ExRangeTo<Idx>(RangeTo<Idx>);

/// std's `RangeToInclusive` (`..=b`), whose one field `end` is public.
#[verifier::external_type_specification]
#[verifier::reject_recursive_types(Idx)]
pub struct ExRangeToInclusive<Idx>(RangeToInclusive<Idx>);

/// std's `RangeFull` (`..`), which has no fields.
#[verifier::external_type_specification]
pub struct ExRangeFull(RangeFull);


/// Relies on `RangeBounds::start_bound` of `RangeInclusive`: documented to give
/// the start value as `Included`; the value is left unspecified once the range
/// has been iterated to exhaustion.
pub assume_specification<T>[ <RangeInclusive<T> as RangeBounds<T>>::start_bound ](
    r: &RangeInclusive<T>,
) -> (b: Bound<&T>)
    ensures
        !r@.exhausted ==> b == Bound::Included(&r@.start),
;

/// Relies on `RangeBounds::end_bound` of `RangeInclusive`: documented to give
/// the (inclusive) end value as `Included`; the value is left unspecified once
/// the range has been iterated to exhaustion.
pub assume_specification<T>[ <RangeInclusive<T> as RangeBounds<T>>::end_bound ](
    r: &RangeInclusive<T>,
) -> (b: Bound<&T>)
    ensures
        !r@.exhausted ==> b == Bound::Included(&r@.end),
;

} // verus!
