//! Angular helpers over whole-degree compass headings.
//!
//! Headings are given in degrees; `360` is accepted as a synonym for north
//! (`0`). All angular differences use the shortest-arc distance.

use vstd::prelude::*;

verus! {

/// Shortest-arc distance between two headings, in `[0, 180]`.
pub open spec fn spec_diff_angle(a: int, b: int) -> int {
    let d = if a >= b {
        a - b
    } else {
        b - a
    };
    if d > 180 {
        360 - d
    } else {
        d
    }
}

/// Clockwise rotation from heading `b` to heading `a`, in `[0, 360]`.
pub open spec fn spec_diff_rotation(a: int, b: int) -> int {
    if a - b < 0 {
        a - b + 360
    } else {
        a - b
    }
}

/// Shortest-arc angular distance between two headings.
pub fn diff_angle(a: u16, b: u16) -> (r: u16)
    requires
        a <= 360,
        b <= 360,
    ensures
        r == spec_diff_angle(a as int, b as int),
        r <= 180,
{
    let d: u16 = if a >= b {
        a - b
    } else {
        b - a
    };
    if d > 180 {
        360 - d
    } else {
        d
    }
}

/// Clockwise rotation needed to go from heading `b` to heading `a`.
pub fn diff_rotation(a: u16, b: u16) -> (r: u16)
    requires
        a <= 360,
        b <= 360,
    ensures
        r == spec_diff_rotation(a as int, b as int),
        r <= 360,
{
    if a < b {
        a + 360 - b
    } else {
        a - b
    }
}

} // verus!
