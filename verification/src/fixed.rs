//! Fixed-point scalar arithmetic.
//!
//! A scalar is an `i64` counting millionths of a unit. Each operation
//! whose result could leave the representable range `[-FX_MAX, FX_MAX]`
//! is checked: it returns `Some` exactly when the true result fits and
//! `None` otherwise, so the integrators can fail fast instead of wrapping
//! around.

use vstd::prelude::*;

verus! {

/// Number of fixed-point steps per unit; values are stored in millionths.
pub const SCALE: i64 = 1_000_000;

/// Largest magnitude a fixed-point value may take.
pub const FX_MAX: i64 = 2_000_000_000_000_000_000;

/// The magnitude of a mathematical integer.
pub open spec fn abs_i(a: int) -> int {
    if a >= 0 {
        a
    } else {
        -a
    }
}

/// Division truncating toward zero, the rounding used by every fixed-point
/// operation in this crate.
pub open spec fn tdiv(a: int, b: int) -> int {
    if (a >= 0) == (b >= 0) {
        abs_i(a) / abs_i(b)
    } else {
        -(abs_i(a) / abs_i(b))
    }
}

/// Whether a value lies in the representable fixed-point range.
pub open spec fn in_fx(a: int) -> bool {
    -FX_MAX <= a <= FX_MAX
}

/// The exact value of a fixed-point product.
pub open spec fn fmul(a: int, b: int) -> int {
    tdiv(a * b, SCALE as int)
}

/// The exact value of a fixed-point quotient.
pub open spec fn fdiv(a: int, b: int) -> int {
    tdiv(a * (SCALE as int), b)
}

/// Checked addition at the specification level: `None` once any operand or
/// the sum leaves the representable range.
pub open spec fn oadd(a: Option<int>, b: Option<int>) -> Option<int> {
    match (a, b) {
        (Some(x), Some(y)) => if in_fx(x + y) {
            Some(x + y)
        } else {
            None
        },
        _ => None,
    }
}

/// Checked subtraction at the specification level.
pub open spec fn osub(a: Option<int>, b: Option<int>) -> Option<int> {
    match (a, b) {
        (Some(x), Some(y)) => if in_fx(x - y) {
            Some(x - y)
        } else {
            None
        },
        _ => None,
    }
}

/// Checked fixed-point multiplication at the specification level.
pub open spec fn omul(a: Option<int>, b: Option<int>) -> Option<int> {
    match (a, b) {
        (Some(x), Some(y)) => if in_fx(fmul(x, y)) {
            Some(fmul(x, y))
        } else {
            None
        },
        _ => None,
    }
}

/// Checked fixed-point division at the specification level; a zero divisor
/// yields `None`.
pub open spec fn odiv(a: Option<int>, b: Option<int>) -> Option<int> {
    match (a, b) {
        (Some(x), Some(y)) => if y != 0 && in_fx(fdiv(x, y)) {
            Some(fdiv(x, y))
        } else {
            None
        },
        _ => None,
    }
}

/// Negation at the specification level; an in-range value stays in range.
pub open spec fn oneg(a: Option<int>) -> Option<int> {
    match a {
        Some(x) => Some(-x),
        None => None,
    }
}

/// Magnitude at the specification level.
pub open spec fn oabs(a: Option<int>) -> Option<int> {
    match a {
        Some(x) => Some(abs_i(x)),
        None => None,
    }
}

/// The magnitude of a fixed-point value; always representable.
pub fn fx_abs(a: i64) -> (r: i64)
    requires
        in_fx(a as int),
    ensures
        r as int == abs_i(a as int),
{
    if a >= 0 {
        a
    } else {
        -a
    }
}

/// Truncating division by a positive divisor divides the magnitude.
pub proof fn lemma_tdiv_abs(a: int, s: int)
    requires
        s > 0,
    ensures
        abs_i(tdiv(a, s)) == abs_i(a) / s,
        abs_i(a) / s >= 0,
{
    vstd::arithmetic::div_mod::lemma_div_pos_is_pos(abs_i(a), s);
}

/// A bound on each factor of a fixed-point product bounds the product.
pub proof fn lemma_fmul_bound(a: int, b: int, ab: int, bb: int)
    requires
        abs_i(a) <= ab,
        abs_i(b) <= bb,
    ensures
        abs_i(fmul(a, b)) <= (ab * bb) / (SCALE as int),
{
    assert(abs_i(a * b) == abs_i(a) * abs_i(b)) by (nonlinear_arith);
    assert(abs_i(a) * abs_i(b) <= ab * bb) by (nonlinear_arith)
        requires
            0 <= abs_i(a) <= ab,
            0 <= abs_i(b) <= bb,
    ;
    lemma_tdiv_abs(a * b, SCALE as int);
    vstd::arithmetic::div_mod::lemma_div_is_ordered(abs_i(a * b), ab * bb, SCALE as int);
}

/// For nonnegative `a` and `0 <= b <= s`, the scaled product `a * b / s`
/// does not exceed `a`.
pub proof fn lemma_mul_div_le(a: int, b: int, s: int)
    requires
        0 <= a,
        0 <= b <= s,
        0 < s,
    ensures
        (a * b) / s <= a,
        0 <= (a * b) / s,
{
    assert(a * b <= a * s) by (nonlinear_arith)
        requires
            0 <= a,
            b <= s,
    ;
    assert(a * b >= 0) by (nonlinear_arith)
        requires
            0 <= a,
            0 <= b,
    ;
    vstd::arithmetic::div_mod::lemma_div_is_ordered(a * b, a * s, s);
    vstd::arithmetic::div_mod::lemma_div_by_multiple(a, s);
    assert(a * s == s * a) by (nonlinear_arith);
    vstd::arithmetic::div_mod::lemma_div_is_ordered(0, a * b, s);
}

/// A value rounded to the nearest whole unit (ties away from zero), still in
/// fixed-point representation.
pub open spec fn round_unit(a: int) -> int {
    if a >= 0 {
        ((a + 500_000) / (SCALE as int)) * (SCALE as int)
    } else {
        -(((-a + 500_000) / (SCALE as int)) * (SCALE as int))
    }
}

/// Rounds a fixed-point value to the nearest whole unit, ties away from zero.
pub fn fx_round_unit(a: i64) -> (r: i64)
    requires
        in_fx(a as int),
    ensures
        r as int == round_unit(a as int),
{
    let m: u64 = mag(a);
    let q: u64 = ((m + 500_000) / 1_000_000) * 1_000_000;
    proof {
        let n = m as int + 500_000;
        vstd::arithmetic::div_mod::lemma_fundamental_div_mod(n, SCALE as int);
        vstd::arithmetic::div_mod::lemma_div_pos_is_pos(n, SCALE as int);
    }
    if a >= 0 {
        q as i64
    } else {
        -(q as i64)
    }
}

/// The magnitude of an in-range value, as an unsigned integer.
pub(crate) fn mag(a: i64) -> (r: u64)
    requires
        in_fx(a as int),
    ensures
        r as int == abs_i(a as int),
{
    if a >= 0 {
        a as u64
    } else {
        (-a) as u64
    }
}

/// Checked fixed-point addition.
pub fn fx_add(a: i64, b: i64) -> (r: Option<i64>)
    requires
        in_fx(a as int),
        in_fx(b as int),
    ensures
        in_fx(a + b) ==> r == Some((a + b) as i64),
        !in_fx(a + b) ==> r is None,
{
    let s: i64 = a + b;
    if -FX_MAX <= s && s <= FX_MAX {
        Some(s)
    } else {
        None
    }
}

/// Checked fixed-point subtraction.
pub fn fx_sub(a: i64, b: i64) -> (r: Option<i64>)
    requires
        in_fx(a as int),
        in_fx(b as int),
    ensures
        in_fx(a - b) ==> r == Some((a - b) as i64),
        !in_fx(a - b) ==> r is None,
{
    let s: i64 = a - b;
    if -FX_MAX <= s && s <= FX_MAX {
        Some(s)
    } else {
        None
    }
}

/// Fixed-point negation; always representable.
pub fn fx_neg(a: i64) -> (r: i64)
    requires
        in_fx(a as int),
    ensures
        r as int == -(a as int),
{
    -a
}

/// Checked fixed-point multiplication: `a * b / SCALE`, truncated toward zero.
pub fn fx_mul(a: i64, b: i64) -> (r: Option<i64>)
    requires
        in_fx(a as int),
        in_fx(b as int),
    ensures
        in_fx(fmul(a as int, b as int)) ==> r == Some(fmul(a as int, b as int) as i64),
        !in_fx(fmul(a as int, b as int)) ==> r is None,
{
    proof {
        assert(abs_i(a as int) * abs_i(b as int) == abs_i((a as int) * (b as int)))
            by (nonlinear_arith);
    }
    let am: u64 = mag(a);
    let bm: u64 = mag(b);
    proof {
        assert((am as int) * (bm as int) <= (FX_MAX as int) * (FX_MAX as int))
            by (nonlinear_arith)
            requires
                0 <= am as int <= FX_MAX as int,
                0 <= bm as int <= FX_MAX as int,
        ;
    }
    let p: u128 = (am as u128) * (bm as u128);
    let q: u128 = p / (SCALE as u128);
    proof {
        assert(a as int >= 0 && b as int >= 0 ==> (a as int) * (b as int) >= 0)
            by (nonlinear_arith);
        assert(a as int <= 0 && b as int <= 0 ==> (a as int) * (b as int) >= 0)
            by (nonlinear_arith);
        assert(a as int <= 0 && b as int >= 0 ==> (a as int) * (b as int) <= 0)
            by (nonlinear_arith);
        assert(a as int >= 0 && b as int <= 0 ==> (a as int) * (b as int) <= 0)
            by (nonlinear_arith);
    }
    if q > (FX_MAX as u128) {
        None
    } else {
        let qi: i64 = q as i64;
        if (a < 0) != (b < 0) {
            Some(-qi)
        } else {
            Some(qi)
        }
    }
}

/// Checked fixed-point division: `a * SCALE / b`, truncated toward zero.
/// Division by zero yields `None`.
pub fn fx_div(a: i64, b: i64) -> (r: Option<i64>)
    requires
        in_fx(a as int),
        in_fx(b as int),
    ensures
        b == 0 ==> r is None,
        b != 0 && in_fx(fdiv(a as int, b as int)) ==> r == Some(
            fdiv(a as int, b as int) as i64,
        ),
        b != 0 && !in_fx(fdiv(a as int, b as int)) ==> r is None,
{
    if b == 0 {
        return None;
    }
    let am: u64 = mag(a);
    let bm: u64 = mag(b);
    let p: u128 = (am as u128) * (SCALE as u128);
    proof {
        assert(abs_i(a as int) * (SCALE as int) == abs_i((a as int) * (SCALE as int)))
            by (nonlinear_arith);
    }
    let q: u128 = p / (bm as u128);
    if q > (FX_MAX as u128) {
        None
    } else {
        let qi: i64 = q as i64;
        if (a < 0) != (b < 0) {
            Some(-qi)
        } else {
            Some(qi)
        }
    }
}

} // verus!
