use into_times::IntoTimes;
use std::ops::Bound::{Excluded, Included, Unbounded};

#[test]
fn exact_count() {
    assert_eq!(5usize.into_times(), (Included(5), Included(5)));
}

#[test]
fn exact_count_zero_and_max() {
    assert_eq!(0usize.into_times(), (Included(0), Included(0)));
    assert_eq!(usize::MAX.into_times(), (Included(usize::MAX), Included(usize::MAX)));
}

#[test]
fn half_open_range() {
    assert_eq!((2..5usize).into_times(), (Included(2), Excluded(5)));
}

#[test]
fn closed_range() {
    assert_eq!((2..=5usize).into_times(), (Included(2), Included(5)));
}

#[test]
fn range_from() {
    assert_eq!((3usize..).into_times(), (Included(3), Unbounded));
}

#[test]
fn range_to() {
    assert_eq!((..7usize).into_times(), (Unbounded, Excluded(7)));
}

#[test]
fn range_to_inclusive() {
    assert_eq!((..=7usize).into_times(), (Unbounded, Included(7)));
}

#[test]
fn full_range() {
    assert_eq!((..).into_times(), (Unbounded::<usize>, Unbounded::<usize>));
}

#[test]
fn empty_bound_pair_is_kept() {
    assert_eq!(
        (Included(1usize), Excluded(1usize)).into_times(),
        (Included(1), Excluded(1))
    );
}

#[test]
fn bound_pairs_are_kept() {
    assert_eq!((Unbounded, Included(9usize)).into_times(), (Unbounded, Included(9)));
    assert_eq!((Excluded(0usize), Unbounded).into_times(), (Excluded(0), Unbounded));
}

#[test]
fn inverted_range_is_not_checked() {
    #[allow(clippy::reversed_empty_ranges)]
    let r = 5..2usize;
    assert_eq!(r.into_times(), (Included(5), Excluded(2)));
}

#[test]
fn referenced_ranges_match_owned() {
    let a: usize = 2;
    let b: usize = 5;
    assert_eq!((&a..&b).into_times(), (a..b).into_times());
    assert_eq!((&a..=&b).into_times(), (a..=b).into_times());
    assert_eq!((&a..).into_times(), (a..).into_times());
    assert_eq!((..&b).into_times(), (..b).into_times());
    assert_eq!((..=&b).into_times(), (..=b).into_times());
    assert_eq!((&a..=&b).into_times(), (Included(2), Included(5)));
}

#[test]
fn referenced_bound_pair_matches_owned() {
    let a: usize = 4;
    let b: usize = 8;
    assert_eq!(
        (Included(&a), Excluded(&b)).into_times(),
        (Included(a), Excluded(b)).into_times()
    );
    assert_eq!(
        (Unbounded::<&usize>, Included(&b)).into_times(),
        (Unbounded, Included(8))
    );
}
