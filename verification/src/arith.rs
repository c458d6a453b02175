//! Saturating `i32` arithmetic, the overflow policy of the whole simulation.

use vstd::prelude::*;

verus! {

/// Addition of two `i32`-ranged values, clamped to the representable range.
pub open spec fn sat_add(a: int, b: int) -> int {
    if a + b > i32::MAX as int {
        i32::MAX as int
    } else if a + b < i32::MIN as int {
        i32::MIN as int
    } else {
        a + b
    }
}

/// The floor clamp applied to electricity demand.
pub open spec fn clamp_min_zero(a: int) -> int {
    if a < 0 {
        0
    } else {
        a
    }
}

/// Saturating addition on `i32`.
pub fn sat_add_i32(a: i32, b: i32) -> (r: i32)
    ensures
        r as int == sat_add(a as int, b as int),
{
    match a.checked_add(b) {
        Some(v) => v,
        None => {
            if b > 0 {
                i32::MAX
            } else {
                i32::MIN
            }
        },
    }
}

} // verus!
