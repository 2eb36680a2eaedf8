//! Small additions to std's ranges.

use vstd::prelude::*;
use std::ops::RangeInclusive;

verus! {

/// Relies on std's `RangeInclusive::start`: it returns the lower bound the
/// range was made with.
pub assume_specification<Idx>[ RangeInclusive::<Idx>::start ](r: &RangeInclusive<Idx>) -> (ret: &Idx)
    ensures
        *ret == r@.start,
;

/// Relies on std's `RangeInclusive::end`: it returns the upper bound the
/// range was made with.
pub assume_specification<Idx>[ RangeInclusive::<Idx>::end ](r: &RangeInclusive<Idx>) -> (ret: &Idx)
    ensures
        *ret == r@.end,
;

pub trait RangeExt<T> {
    /// Whether the width can be represented.
    spec fn width_fits(&self) -> bool;

    /// End minus start.
    spec fn spec_width(&self) -> T;

    /// The distance from the range's start to its end.
    fn width(&self) -> (r: T)
        requires
            self.width_fits(),
        ensures
            r == self.spec_width(),
    ;
}

impl RangeExt<i64> for RangeInclusive<i64> {
    open spec fn width_fits(&self) -> bool {
        i64::MIN <= self@.end - self@.start <= i64::MAX
    }

    open spec fn spec_width(&self) -> i64 {
        (self@.end - self@.start) as i64
    }

    fn width(&self) -> (r: i64) {
        *self.end() - *self.start()
    }
}

impl RangeExt<u32> for RangeInclusive<u32> {
    open spec fn width_fits(&self) -> bool {
        self@.start <= self@.end
    }

    open spec fn spec_width(&self) -> u32 {
        (self@.end - self@.start) as u32
    }

    fn width(&self) -> (r: u32) {
        *self.end() - *self.start()
    }
}

} // verus!
