//! Decimal quantities as exact integers.
//!
//! Frequencies, powers, gains, angles, heights and distances are held as
//! whole numbers of millionths of their unit, so that the quantity `2.15` is
//! the integer `2_150_000`. Sums and differences that leave the range of
//! `i64` stop at its ends.

use vstd::prelude::*;

verus! {

/// A decimal quantity, in millionths of its unit.
pub type Micro = i64;

/// Millionths in one unit.
pub const MICRO: i64 = 1_000_000;

/// `x` limited to what an `i64` holds.
pub open spec fn clamped(x: int) -> int {
    if x < i64::MIN {
        i64::MIN as int
    } else if x > i64::MAX {
        i64::MAX as int
    } else {
        x
    }
}

/// The quantity of opposite sign.
pub fn negated(x: Micro) -> (y: Micro)
    ensures
        y == clamped(-(x as int)),
{
    if x == i64::MIN {
        i64::MAX
    } else {
        -x
    }
}

/// `x` lowered by `by`.
pub fn lowered(x: Micro, by: Micro) -> (y: Micro)
    ensures
        y == clamped(x - by),
{
    if by >= 0 {
        if x < i64::MIN + by {
            i64::MIN
        } else {
            x - by
        }
    } else {
        if x > i64::MAX + by {
            i64::MAX
        } else {
            x - by
        }
    }
}

/// A whole number of units as a quantity.
pub fn whole(units: i32) -> (y: Micro)
    ensures
        y == units * MICRO,
{
    let wide: i64 = units as i64;
    wide * MICRO
}

} // verus!
