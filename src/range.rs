//! The bounds of an inclusive range, as the combinators read them from their arguments.
use vstd::prelude::*;

verus! {

/// Relies on `RangeInclusive::start`: the lower bound the range was made with, while the range
/// has not been iterated to exhaustion.
pub assume_specification<Idx>[ core::ops::RangeInclusive::<Idx>::start ](
    r: &core::ops::RangeInclusive<Idx>,
) -> (s: &Idx)
    ensures
        !r@.exhausted ==> *s == r@.start,
;

/// Relies on `RangeInclusive::end`: the upper bound the range was made with, while the range
/// has not been iterated to exhaustion.
pub assume_specification<Idx>[ core::ops::RangeInclusive::<Idx>::end ](
    r: &core::ops::RangeInclusive<Idx>,
) -> (e: &Idx)
    ensures
        !r@.exhausted ==> *e == r@.end,
;

} // verus!
