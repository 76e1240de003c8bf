//! Sine and cosine on fixed-point angles.
//!
//! An angle is a fixed-point number of radians (micro-radians as an `i64`)
//! and may be unbounded, since a pendulum's angle accumulates continuous
//! rotation. The angle is first reduced to one turn, then a quarter-turn
//! polynomial (the odd Taylor series through the ninth power, evaluated in
//! nested form) gives the value. The contracts pin the computed value
//! exactly, so every caller is reproducible bit for bit; how close the
//! polynomial comes to the real sine is a numerical quality question,
//! exercised by the test suite rather than proved.

use vstd::arithmetic::div_mod::lemma_fundamental_div_mod;
use vstd::arithmetic::div_mod::lemma_mod_multiples_vanish;
use vstd::prelude::*;

use crate::fixed::in_fx;
use crate::fixed::lemma_mul_div_le;
use crate::fixed::SCALE;

verus! {

/// One full turn (two pi) in micro-radians, truncated.
pub const TWO_PI_FX: i64 = 6_283_185;

/// Half a turn (pi) in micro-radians, rounded.
pub const PI_FX: i64 = 3_141_593;

/// A quarter turn (pi over two) in micro-radians, truncated.
pub const HALF_PI_FX: i64 = 1_570_796;

/// Largest argument the quarter-turn polynomial is applied to: the widest
/// quadrant after reduction is `PI_FX - HALF_PI_FX` long.
pub const QUARTER_MAX: i64 = 1_570_797;

/// An angle folded into `[0, TWO_PI_FX)`.
pub open spec fn reduce_spec(a: int) -> int {
    a % (TWO_PI_FX as int)
}

/// The quarter-turn sine polynomial on `[0, QUARTER_MAX]`:
/// `x * (1 - x^2/6 * (1 - x^2/20 * (1 - x^2/42 * (1 - x^2/72))))`,
/// each product scaled back down and truncated.
pub open spec fn sin_poly(x: int) -> int {
    let s = SCALE as int;
    let x2 = (x * x) / s;
    let c4 = s - x2 / 72;
    let c3 = s - ((x2 * c4) / s) / 42;
    let c2 = s - ((x2 * c3) / s) / 20;
    let c1 = s - ((x2 * c2) / s) / 6;
    (x * c1) / s
}

/// The sine of an angle, by quadrant of the reduced angle.
pub open spec fn sin_spec(a: int) -> int {
    let x = reduce_spec(a);
    if x < HALF_PI_FX {
        sin_poly(x)
    } else if x < PI_FX {
        sin_poly(PI_FX - x)
    } else if x < PI_FX + HALF_PI_FX {
        -sin_poly(x - PI_FX)
    } else {
        -sin_poly(TWO_PI_FX - x)
    }
}

/// The cosine of an angle: the sine a quarter turn ahead of the reduced angle.
pub open spec fn cos_spec(a: int) -> int {
    sin_spec(reduce_spec(a) + HALF_PI_FX)
}

/// Sine at the specification level, lifted over checked intermediates.
pub open spec fn osin(a: Option<int>) -> Option<int> {
    match a {
        Some(x) => Some(sin_spec(x)),
        None => None,
    }
}

/// Cosine at the specification level, lifted over checked intermediates.
pub open spec fn ocos(a: Option<int>) -> Option<int> {
    match a {
        Some(x) => Some(cos_spec(x)),
        None => None,
    }
}

/// Folds an angle into `[0, TWO_PI_FX)`.
pub fn reduce_angle(a: i64) -> (r: i64)
    requires
        in_fx(a as int),
    ensures
        0 <= r < TWO_PI_FX,
        r as int == reduce_spec(a as int),
{
    let t: u64 = TWO_PI_FX as u64;
    if a >= 0 {
        let m: u64 = (a as u64) % t;
        m as i64
    } else {
        let x: u64 = (-a) as u64;
        let m: u64 = x % t;
        proof {
            let xi = x as int;
            let ti = TWO_PI_FX as int;
            let q = xi / ti;
            lemma_fundamental_div_mod(xi, ti);
            assert(a as int == ti * (-q) + (-(xi % ti)));
            if xi % ti == 0 {
                lemma_mod_multiples_vanish(-q, 0, ti);
            } else {
                assert(a as int == ti * (-q - 1) + (ti - xi % ti)) by {
                    assert(ti * (-q - 1) == ti * (-q) - ti) by (nonlinear_arith);
                }
                lemma_mod_multiples_vanish(-q - 1, ti - xi % ti, ti);
            }
        }
        if m == 0 {
            0
        } else {
            (t - m) as i64
        }
    }
}

/// The quarter-turn polynomial, evaluated on unsigned fixed-point values.
fn sin_quarter(x: u64) -> (r: u64)
    requires
        x <= QUARTER_MAX as u64,
    ensures
        r as int == sin_poly(x as int),
        r <= QUARTER_MAX as u64,
{
    let s: u64 = 1_000_000;
    proof {
        assert((x as int) * (x as int) <= 1_570_797 * 1_570_797) by (nonlinear_arith)
            requires
                0 <= x as int <= 1_570_797,
        ;
    }
    let x2: u64 = (x * x) / s;
    let c4: u64 = s - x2 / 72;
    proof {
        lemma_mul_div_le(x2 as int, c4 as int, SCALE as int);
    }
    let c3: u64 = s - ((x2 * c4) / s) / 42;
    proof {
        lemma_mul_div_le(x2 as int, c3 as int, SCALE as int);
    }
    let c2: u64 = s - ((x2 * c3) / s) / 20;
    proof {
        lemma_mul_div_le(x2 as int, c2 as int, SCALE as int);
    }
    let c1: u64 = s - ((x2 * c2) / s) / 6;
    proof {
        lemma_mul_div_le(x as int, c1 as int, SCALE as int);
    }
    (x * c1) / s
}

/// The sine of a fixed-point angle; the result is exactly `sin_spec`.
pub fn sin_fx(a: i64) -> (r: i64)
    requires
        in_fx(a as int),
    ensures
        r as int == sin_spec(a as int),
        -QUARTER_MAX <= r <= QUARTER_MAX,
{
    let x: i64 = reduce_angle(a);
    if x < HALF_PI_FX {
        sin_quarter(x as u64) as i64
    } else if x < PI_FX {
        sin_quarter((PI_FX - x) as u64) as i64
    } else if x < PI_FX + HALF_PI_FX {
        -(sin_quarter((x - PI_FX) as u64) as i64)
    } else {
        -(sin_quarter((TWO_PI_FX - x) as u64) as i64)
    }
}

/// The cosine of a fixed-point angle; the result is exactly `cos_spec`.
pub fn cos_fx(a: i64) -> (r: i64)
    requires
        in_fx(a as int),
    ensures
        r as int == cos_spec(a as int),
        -QUARTER_MAX <= r <= QUARTER_MAX,
{
    let x: i64 = reduce_angle(a);
    sin_fx(x + HALF_PI_FX)
}

} // verus!
