//! The fixed-point scale of the library, and the clamping and division
//! helpers that the filter recurrence is built from.

use vstd::prelude::*;

verus! {

/// One unit of signal amplitude, in billionths: a sample value `v`
/// stands for the real number `v / SCALE`, and a full-scale signal
/// ranges over `[-SCALE, SCALE]`.
pub const SCALE: i64 = 1_000_000_000;

/// `x` restricted to the closed range `[lo, hi]`: `lo` if `x < lo`,
/// `hi` if `x > hi`, else `x` itself.
pub open spec fn clamp_spec(x: int, lo: int, hi: int) -> int {
    if x < lo {
        lo
    } else if x > hi {
        hi
    } else {
        x
    }
}

/// Division rounded toward zero, as the machine's signed division
/// rounds, written over the mathematical (Euclidean) `/`.
pub open spec fn div_trunc(a: int, b: int) -> int {
    if a >= 0 {
        a / b
    } else {
        -((-a) / b)
    }
}

/// Clamp a wide intermediate value to `[lo, hi]`.
pub fn clamp_i128(x: i128, lo: i128, hi: i128) -> (r: i128)
    requires
        lo <= hi,
    ensures
        r == clamp_spec(x as int, lo as int, hi as int),
        lo <= r <= hi,
{
    if x < lo {
        lo
    } else if x > hi {
        hi
    } else {
        x
    }
}

} // verus!
