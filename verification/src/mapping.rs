//! The minimum-brightness floor: a percentage squeezed onto the range from
//! the floor to 100.

use vstd::prelude::*;
use crate::protocols::{capped, cap_percentage};

verus! {

/// `percentage` carried linearly from 0..=100 onto `floor`..=100, rounded
/// down.
pub open spec fn floored(percentage: int, floor: int) -> int {
    floor + percentage * (100 - floor) / 100
}

/// Carries a percentage onto the range from `min_brightness` to 100. Both
/// count as 100 where they are larger.
pub fn apply_min_brightness(percentage: u16, min_brightness: u16) -> (result: u16)
    ensures
        result == floored(capped(percentage) as int, capped(min_brightness) as int),
        capped(min_brightness) <= result <= 100,
{
    let p: u16 = cap_percentage(percentage);
    let floor: u16 = cap_percentage(min_brightness);
    let span: u16 = 100 - floor;
    assert(0 <= p * span <= 100 * span) by (nonlinear_arith)
        requires
            0 <= p <= 100,
            0 <= span <= 100,
    ;
    floor + p * span / 100
}

/// The two ends of the range go to the floor and to 100, and without a floor
/// nothing changes.
pub proof fn floor_keeps_the_ends(percentage: int, floor: int)
    requires
        0 <= percentage <= 100,
        0 <= floor <= 100,
    ensures
        floored(0, floor) == floor,
        floored(100, floor) == 100,
        floored(percentage, 0) == percentage,
        floor <= floored(percentage, floor) <= 100,
{
    assert(0 <= percentage * (100 - floor) <= 100 * (100 - floor)) by (nonlinear_arith)
        requires
            0 <= percentage <= 100,
            0 <= floor <= 100,
    ;
}

/// A larger percentage never comes out smaller, whatever the floor.
pub proof fn floor_is_monotonic(low: int, high: int, floor: int)
    requires
        0 <= low <= high <= 100,
        0 <= floor <= 100,
    ensures
        floored(low, floor) <= floored(high, floor),
{
    assert(low * (100 - floor) <= high * (100 - floor)) by (nonlinear_arith)
        requires
            0 <= low <= high,
            0 <= floor <= 100,
    ;
}

} // verus!
