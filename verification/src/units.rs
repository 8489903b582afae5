//! Fixed-point arithmetic: the scale constants, truncating division and
//! saturation, with the spec-level functions that the contracts of the whole
//! crate are phrased in.

use vstd::arithmetic::div_mod::{lemma_div_nonincreasing, lemma_div_pos_is_pos};
use vstd::prelude::*;

verus! {

/// Number of fixed-point time units in one second.  A time-of-impact of
/// `TIME_SCALE` therefore means "one second from now".
pub const TIME_SCALE: i64 = 1000;

/// Largest magnitude accepted for positions, lengths and radii.  Keeping
/// coordinates within this band is what lets every intermediate product of
/// the collision arithmetic fit in an `i64`.
pub const COORD_LIMIT: i64 = 1_000_000;

/// Largest movement integration step, in fixed-point time units (one hour):
/// ticks are far shorter, and the bound keeps `velocity * delta_time` inside
/// an `i64`.
pub const STEP_LIMIT: i64 = 3_600_000;

/// Largest magnitude of a velocity component.  Steering velocities and
/// rescaled ball velocities saturate at this value instead of growing
/// without bound when a time-of-impact is tiny.
pub const VEL_LIMIT: i64 = 1_000_000_000;

/// Magnitude of an integer.
pub open spec fn abs_val(x: int) -> int {
    if x < 0 {
        -x
    } else {
        x
    }
}

/// Quotient of `a` by `b` rounded toward zero, the rounding the executable
/// division of this crate performs (spec-level `/` on `int` rounds toward
/// negative infinity instead).
pub open spec fn div_t(a: int, b: int) -> int {
    if (a < 0) == (b < 0) {
        abs_val(a) / abs_val(b)
    } else {
        -(abs_val(a) / abs_val(b))
    }
}

/// `v` forced into the interval `[lo, hi]`.
pub open spec fn clamp_val(v: int, lo: int, hi: int) -> int {
    if v < lo {
        lo
    } else if v > hi {
        hi
    } else {
        v
    }
}

/// The magnitude of a truncating quotient never exceeds the magnitude of the
/// dividend.
pub proof fn lemma_div_t_mag(a: int, b: int)
    requires
        b != 0,
    ensures
        abs_val(div_t(a, b)) <= abs_val(a),
        abs_val(div_t(a, b)) == abs_val(a) / abs_val(b),
{
    lemma_div_pos_is_pos(abs_val(a), abs_val(b));
    lemma_div_nonincreasing(abs_val(a), abs_val(b));
}

/// A truncating quotient carries the algebraic sign of `a * b`: it is
/// non-negative when dividend and divisor agree in sign and non-positive when
/// they differ.
pub proof fn lemma_div_t_sign(a: int, b: int)
    requires
        b != 0,
    ensures
        a >= 0 && b > 0 ==> div_t(a, b) >= 0,
        a <= 0 && b > 0 ==> div_t(a, b) <= 0,
        a >= 0 && b < 0 ==> div_t(a, b) <= 0,
        a <= 0 && b < 0 ==> div_t(a, b) >= 0,
{
    lemma_div_pos_is_pos(abs_val(a), abs_val(b));
    lemma_div_nonincreasing(abs_val(a), abs_val(b));
}

/// Truncating division, defined for every `i64` pair except a zero divisor
/// and the one magnitude (`i64::MIN`) that has no `i64` negation.
pub fn div_fix(a: i64, b: i64) -> (q: i64)
    requires
        b != 0,
        a > i64::MIN,
        b > i64::MIN,
    ensures
        q == div_t(a as int, b as int),
{
    let neg: bool = (a < 0) != (b < 0);
    let ua: u64 = if a < 0 {
        (-a) as u64
    } else {
        a as u64
    };
    let ub: u64 = if b < 0 {
        (-b) as u64
    } else {
        b as u64
    };
    let uq: u64 = ua / ub;
    proof {
        lemma_div_pos_is_pos(ua as int, ub as int);
        lemma_div_nonincreasing(ua as int, ub as int);
    }
    if neg {
        -(uq as i64)
    } else {
        uq as i64
    }
}

/// `v` forced into the interval `[lo, hi]`.
pub fn clamp_fix(v: i64, lo: i64, hi: i64) -> (r: i64)
    requires
        lo <= hi,
    ensures
        r == clamp_val(v as int, lo as int, hi as int),
{
    if v < lo {
        lo
    } else if v > hi {
        hi
    } else {
        v
    }
}

} // verus!
