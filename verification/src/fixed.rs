//! Fixed-point arithmetic in micro-units.
//!
//! A unit value (`1.0`) is the integer `1_000_000`. All continuous engine
//! quantities (positions, speeds, parameter levels, tension, velocities,
//! saliences) live on this scale, so a product of two unit-scale values fits
//! comfortably in an `i64`.
use vstd::prelude::*;

verus! {

use vstd::arithmetic::mul::lemma_mul_inequality;
use vstd::arithmetic::div_mod::lemma_div_is_ordered;
use vstd::arithmetic::div_mod::lemma_div_by_multiple;

/// One whole unit (`1.0`) in micro-units.
pub const UNIT: i64 = 1_000_000;

/// Clamp `v` into `[lo, hi]`.
pub open spec fn spec_clamp(v: int, lo: int, hi: int) -> int {
    if v < lo {
        lo
    } else if v > hi {
        hi
    } else {
        v
    }
}

/// Clamp a value into `[lo, hi]`.
pub fn clamp_i64(v: i64, lo: i64, hi: i64) -> (r: i64)
    requires
        lo <= hi,
    ensures
        r == spec_clamp(v as int, lo as int, hi as int),
        lo <= r <= hi,
{
    if v < lo {
        lo
    } else if v > hi {
        hi
    } else {
        v
    }
}

/// Absolute value on the spec side.
pub open spec fn spec_abs(v: int) -> int {
    if v < 0 {
        -v
    } else {
        v
    }
}

/// Absolute value of a micro-unit quantity.
pub fn abs_i64(v: i64) -> (r: i64)
    requires
        v > i64::MIN,
    ensures
        r == spec_abs(v as int),
{
    if v < 0 {
        -v
    } else {
        v
    }
}

/// The product of two micro-unit quantities, rescaled to micro-units
/// (rounded down).
pub open spec fn spec_mul_unit(a: int, b: int) -> int {
    a * b / (UNIT as int)
}

/// A product in `[0, a]` comes from rescaling `a * b` when `b` is at most one
/// unit, and it is also at most `b` when `a` is at most one unit.
pub proof fn lemma_mul_unit_bounds(a: int, b: int)
    requires
        0 <= a,
        0 <= b <= UNIT,
    ensures
        0 <= spec_mul_unit(a, b) <= a,
        a <= UNIT ==> spec_mul_unit(a, b) <= b,
{
    lemma_mul_inequality(b, UNIT as int, a);
    assert(a * b == b * a) by (nonlinear_arith);
    assert(a * UNIT == UNIT * a) by (nonlinear_arith);
    lemma_div_is_ordered(a * b, a * (UNIT as int), UNIT as int);
    lemma_div_by_multiple(a, UNIT as int);
    assert(a * b / (UNIT as int) >= 0) by {
        lemma_div_is_ordered(0, a * b, UNIT as int);
        assert(a * b >= 0) by (nonlinear_arith)
            requires
                a >= 0,
                b >= 0,
        ;
    }
    if a <= UNIT {
        lemma_mul_inequality(a, UNIT as int, b);
        assert(b * UNIT == UNIT * b) by (nonlinear_arith);
        lemma_div_is_ordered(a * b, b * (UNIT as int), UNIT as int);
        lemma_div_by_multiple(b, UNIT as int);
    }
}

/// Multiply two micro-unit quantities and rescale, rounding down.
pub fn mul_unit(a: i64, b: i64) -> (r: i64)
    requires
        0 <= a <= UNIT,
        0 <= b <= UNIT,
    ensures
        r == spec_mul_unit(a as int, b as int),
        0 <= r <= a,
        r <= b,
{
    proof {
        lemma_mul_unit_bounds(a as int, b as int);
        assert(a * b <= UNIT * UNIT) by (nonlinear_arith)
            requires
                0 <= a <= UNIT,
                0 <= b <= UNIT,
        ;
    }
    a * b / UNIT
}

/// One step of a single-pole filter: move `cur` toward `tgt` by the fraction
/// `coeff` of the remaining distance (rounded down).
pub open spec fn spec_lerp_toward(cur: int, tgt: int, coeff: int) -> int {
    if tgt > cur {
        cur + spec_mul_unit(tgt - cur, coeff)
    } else {
        cur - spec_mul_unit(cur - tgt, coeff)
    }
}

/// A lerp step never overshoots: the result stays between `cur` and `tgt`.
pub proof fn lemma_lerp_toward_bounds(cur: int, tgt: int, coeff: int)
    requires
        0 <= coeff <= UNIT,
    ensures
        tgt > cur ==> cur <= spec_lerp_toward(cur, tgt, coeff) <= tgt,
        tgt <= cur ==> tgt <= spec_lerp_toward(cur, tgt, coeff) <= cur,
{
    if tgt > cur {
        lemma_mul_unit_bounds(tgt - cur, coeff);
    } else {
        lemma_mul_unit_bounds(cur - tgt, coeff);
    }
}

/// Executable lerp step on micro-unit values.
pub fn lerp_toward(cur: i64, tgt: i64, coeff: i64) -> (r: i64)
    requires
        0 <= cur <= UNIT,
        0 <= tgt <= UNIT,
        0 <= coeff <= UNIT,
    ensures
        r == spec_lerp_toward(cur as int, tgt as int, coeff as int),
        0 <= r <= UNIT,
        tgt > cur ==> cur <= r <= tgt,
        tgt <= cur ==> tgt <= r <= cur,
{
    proof {
        lemma_lerp_toward_bounds(cur as int, tgt as int, coeff as int);
    }
    if tgt > cur {
        let step = mul_unit(tgt - cur, coeff);
        cur + step
    } else {
        let step = mul_unit(cur - tgt, coeff);
        cur - step
    }
}

/// Saturating addition of two `u64` values, on the spec side.
pub open spec fn spec_sat_add_u64(a: u64, b: u64) -> u64 {
    if a + b > u64::MAX {
        u64::MAX
    } else {
        (a + b) as u64
    }
}

/// Saturating subtraction of two `u64` values, on the spec side.
pub open spec fn spec_sat_sub_u64(a: u64, b: u64) -> u64 {
    if a >= b {
        (a - b) as u64
    } else {
        0u64
    }
}

} // verus!
