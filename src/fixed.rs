//! Fixed-point scalars: an `i64` holding millionths of a unit.
//!
//! Every operation saturates at the bounds of `i64` instead of wrapping, and
//! every division rounds toward zero.

use vstd::prelude::*;

verus! {

/// Raw units in one whole unit.
pub const SCALE: i64 = 1_000_000;

/// An ideal value clamped into the range of `i64`.
pub open spec fn sat(x: int) -> int {
    if x > i64::MAX {
        i64::MAX as int
    } else if x < i64::MIN {
        i64::MIN as int
    } else {
        x
    }
}

/// Integer division rounding toward zero, for a positive divisor.
pub open spec fn div_trunc(a: int, b: int) -> int
    recommends
        b > 0,
{
    if a >= 0 {
        a / b
    } else {
        -((-a) / b)
    }
}

/// Saturating sum.
pub open spec fn add_sat(a: int, b: int) -> int {
    sat(a + b)
}

/// Saturating difference.
pub open spec fn sub_sat(a: int, b: int) -> int {
    sat(a - b)
}

/// Saturating absolute value (only `i64::MIN` saturates).
pub open spec fn abs_sat(a: int) -> int {
    sat(if a < 0 { -a } else { a })
}

/// Fixed-point product: `a * b / SCALE`, rounded toward zero, saturated.
pub open spec fn mul_fx(a: int, b: int) -> int {
    sat(div_trunc(a * b, SCALE as int))
}

/// Fixed-point quotient: `a * SCALE / b`, rounded toward zero, saturated.
pub open spec fn div_fx(a: int, b: int) -> int
    recommends
        b > 0,
{
    sat(div_trunc(a * SCALE, b))
}

/// Half of a value, rounded toward zero.
pub open spec fn half(a: int) -> int {
    div_trunc(a, 2)
}

proof fn lemma_div_trunc_bounded(a: int, b: int)
    requires
        b > 0,
    ensures
        -(if a < 0 { -a } else { a }) <= div_trunc(a, b) <= (if a < 0 { -a } else { a }),
{
    if a >= 0 {
        assert(0 <= a / b <= a) by (nonlinear_arith)
            requires
                a >= 0,
                b > 0,
        ;
    } else {
        assert(0 <= (-a) / b <= -a) by (nonlinear_arith)
            requires
                -a > 0,
                b > 0,
        ;
    }
}

proof fn lemma_wide_product_bounded(a: int, b: int)
    requires
        -0x8000_0000_0000_0000 <= a <= 0x8000_0000_0000_0000,
        -0x8000_0000_0000_0000 <= b <= 0x8000_0000_0000_0000,
    ensures
        -0x4000_0000_0000_0000_0000_0000_0000_0000 <= a * b <= 0x4000_0000_0000_0000_0000_0000_0000_0000,
{
    let m: int = 0x8000_0000_0000_0000;
    let aa: int = if a < 0 { -a } else { a };
    let bb: int = if b < 0 { -b } else { b };
    assert(aa * bb <= m * m) by (nonlinear_arith)
        requires
            0 <= aa <= m,
            0 <= bb <= m,
    ;
    assert(a * b == aa * bb || a * b == -(aa * bb)) by (nonlinear_arith)
        requires
            aa == a || aa == -a,
            bb == b || bb == -b,
    ;
    assert(aa * bb >= 0) by (nonlinear_arith)
        requires
            aa >= 0,
            bb >= 0,
    ;
}

/// Clamps a wide value into `i64`.
fn clamp_wide(x: i128) -> (r: i64)
    ensures
        r == sat(x as int),
{
    if x > i64::MAX as i128 {
        i64::MAX
    } else if x < i64::MIN as i128 {
        i64::MIN
    } else {
        x as i64
    }
}

/// Divides rounding toward zero, on wide values.
fn div_trunc_wide(a: i128, b: i128) -> (r: i128)
    requires
        b > 0,
        a > i128::MIN,
    ensures
        r == div_trunc(a as int, b as int),
{
    proof {
        lemma_div_trunc_bounded(a as int, b as int);
    }
    if a >= 0 {
        a / b
    } else {
        let m: i128 = -a;
        -(m / b)
    }
}

/// Saturating sum.
pub fn fx_add(a: i64, b: i64) -> (r: i64)
    ensures
        r == add_sat(a as int, b as int),
{
    clamp_wide(a as i128 + b as i128)
}

/// Saturating difference.
pub fn fx_sub(a: i64, b: i64) -> (r: i64)
    ensures
        r == sub_sat(a as int, b as int),
{
    clamp_wide(a as i128 - b as i128)
}

/// Saturating absolute value.
pub fn fx_abs(a: i64) -> (r: i64)
    ensures
        r == abs_sat(a as int),
{
    let w: i128 = a as i128;
    if w < 0 {
        clamp_wide(-w)
    } else {
        clamp_wide(w)
    }
}

/// Fixed-point product, rounded toward zero and saturated.
pub fn fx_mul(a: i64, b: i64) -> (r: i64)
    ensures
        r == mul_fx(a as int, b as int),
{
    let wa: i128 = a as i128;
    let wb: i128 = b as i128;
    proof {
        lemma_wide_product_bounded(wa as int, wb as int);
    }
    let p: i128 = wa * wb;
    clamp_wide(div_trunc_wide(p, SCALE as i128))
}

/// Fixed-point quotient, rounded toward zero and saturated.
pub fn fx_div(a: i64, b: i64) -> (r: i64)
    requires
        b > 0,
    ensures
        r == div_fx(a as int, b as int),
{
    let wa: i128 = a as i128;
    proof {
        lemma_wide_product_bounded(wa as int, SCALE as int);
    }
    let p: i128 = wa * (SCALE as i128);
    clamp_wide(div_trunc_wide(p, b as i128))
}

/// Half of a value, rounded toward zero.
pub fn fx_half(a: i64) -> (r: i64)
    ensures
        r == half(a as int),
{
    let w: i128 = a as i128;
    div_trunc_wide(w, 2) as i64
}

/// The fixed-point value of a whole number, saturated.
pub fn from_int(n: i64) -> (r: i64)
    ensures
        r == sat(n * SCALE),
{
    proof {
        lemma_wide_product_bounded(n as int, SCALE as int);
    }
    clamp_wide(n as i128 * SCALE as i128)
}

/// The fixed-point value of the fraction `num / den`, rounded toward zero and
/// saturated.
pub fn from_ratio(num: i64, den: i64) -> (r: i64)
    requires
        den > 0,
    ensures
        r == div_fx(num as int, den as int),
{
    fx_div(num, den)
}

} // verus!
