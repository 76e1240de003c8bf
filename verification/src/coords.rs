//! Cartesian and polar plane coordinates.
//!
//! One angle convention holds throughout the crate: an angle is measured
//! from the vertical axis, so a polar vector maps to `x = length * sin(angle)`
//! and `y = length * cos(angle)` (a hanging pendulum at angle zero points
//! straight along positive `y`). `from_xy` inverts that map: its angle is the
//! arc tangent of `x` over `y`, so converting a point to polar form and back
//! returns (approximately) the same point.

use vstd::arithmetic::div_mod::lemma_div_by_multiple;
use vstd::arithmetic::div_mod::lemma_div_is_ordered;
use vstd::arithmetic::div_mod::lemma_div_is_ordered_by_denominator;
use vstd::arithmetic::div_mod::lemma_div_pos_is_pos;
use vstd::prelude::*;

use crate::fixed::abs_i;
use crate::fixed::fmul;
use crate::fixed::fx_mul;
use crate::fixed::fx_round_unit;
use crate::fixed::in_fx;
use crate::fixed::lemma_fmul_bound;
use crate::fixed::lemma_mul_div_le;
use crate::fixed::mag;
use crate::fixed::round_unit;
use crate::fixed::SCALE;
use crate::trig::cos_fx;
use crate::trig::cos_spec;
use crate::trig::sin_fx;
use crate::trig::sin_spec;
use crate::trig::HALF_PI_FX;
use crate::trig::PI_FX;
use crate::trig::QUARTER_MAX;

verus! {

/// Largest coordinate or arm length magnitude the converters accept.
pub const COORD_MAX: i64 = 1_000_000_000_000_000;

/// An eighth of a turn (pi over eight) in micro-radians.
pub const EIGHTH_PI_FX: i64 = 392_699;

/// The tangent of an eighth turn, fixed-point.
pub const TAN_EIGHTH_FX: i64 = 414_214;

/// A point in the plane, fixed-point Cartesian coordinates.
#[derive(Clone, Copy, Debug, PartialEq, Eq, Structural)]
pub struct XY {
    pub x: i64,
    pub y: i64,
}

/// A plane vector in polar form. The length is nonnegative when produced by
/// `from_xy`; the angle is unbounded, since it tracks continuous rotation.
#[derive(Clone, Copy, Debug, PartialEq, Eq, Structural)]
pub struct Polar {
    pub length: i64,
    pub angle: i64,
}

/// The arc-tangent polynomial on `[0, TAN_EIGHTH_FX]` (odd Taylor series
/// through the ninth power, evaluated innermost first, each product scaled
/// back down and truncated).
pub open spec fn atan_poly(u: int) -> int {
    let s = SCALE as int;
    let u2 = (u * u) / s;
    let p7 = 142_857 - (u2 * 111_111) / s;
    let p5 = 200_000 - (u2 * p7) / s;
    let p3 = 333_333 - (u2 * p5) / s;
    u - (((u * u2) / s) * p3) / s
}

/// The arc tangent of a ratio in `[0, 1]`: directly by the polynomial below
/// an eighth turn, otherwise an eighth turn plus the arc tangent of the
/// residual ratio `(z - t) / (1 + z * t)`.
pub open spec fn atan_unit(z: int) -> int {
    let s = SCALE as int;
    let t = TAN_EIGHTH_FX as int;
    if z <= t {
        atan_poly(z)
    } else {
        let d = s + (z * t) / s;
        (EIGHTH_PI_FX as int) + atan_poly(((z - t) * s) / d)
    }
}

/// The angle of the point `(x, y)` measured from the positive `x` axis,
/// in `(-pi, pi]`; zero at the origin.
pub open spec fn atan2_spec(y: int, x: int) -> int {
    let ax = abs_i(x);
    let ay = abs_i(y);
    if ax == 0 && ay == 0 {
        0
    } else {
        let base = if ay <= ax {
            atan_unit((ay * (SCALE as int)) / ax)
        } else {
            (HALF_PI_FX as int) - atan_unit((ax * (SCALE as int)) / ay)
        };
        if x >= 0 && y >= 0 {
            base
        } else if x < 0 && y >= 0 {
            (PI_FX as int) - base
        } else if x < 0 {
            -((PI_FX as int) - base)
        } else {
            -base
        }
    }
}

/// The floor of the square root, by bisection.
fn isqrt_u128(n: u128) -> (r: u64)
    ensures
        (r as int) * (r as int) <= n as int,
        (n as int) < ((r as int) + 1) * ((r as int) + 1),
{
    let mut lo: u128 = 0;
    let mut hi: u128 = 18_446_744_073_709_551_616;
    proof {
        assert((n as int) < (hi as int) * (hi as int)) by (nonlinear_arith)
            requires
                n as int <= u128::MAX as int,
                hi as int == 18_446_744_073_709_551_616int,
        ;
    }
    while hi - lo > 1
        invariant
            0 <= lo < hi <= 18_446_744_073_709_551_616u128,
            (lo as int) * (lo as int) <= n as int,
            (n as int) < (hi as int) * (hi as int),
        decreases hi - lo,
    {
        let mid: u128 = lo + (hi - lo) / 2;
        proof {
            assert((mid as int) * (mid as int) <= u128::MAX as int) by (nonlinear_arith)
                requires
                    0 <= mid as int <= 18_446_744_073_709_551_615int,
            ;
        }
        if mid * mid <= n {
            lo = mid;
        } else {
            hi = mid;
        }
    }
    lo as u64
}

/// The arc-tangent polynomial; the result is exactly `atan_poly`.
fn atan_poly_fx(u: u64) -> (r: u64)
    requires
        u <= 600_000,
    ensures
        r as int == atan_poly(u as int),
        r <= u,
{
    let s: u64 = 1_000_000;
    proof {
        assert((u as int) * (u as int) <= 600_000 * 600_000) by (nonlinear_arith)
            requires
                0 <= u as int <= 600_000,
        ;
    }
    let u2: u64 = (u * u) / s;
    let p7: u64 = 142_857 - (u2 * 111_111) / s;
    proof {
        assert((u2 as int) * (p7 as int) <= 360_000 * 142_857) by (nonlinear_arith)
            requires
                0 <= u2 as int <= 360_000,
                0 <= p7 as int <= 142_857,
        ;
        lemma_div_pos_is_pos((u2 as int) * (p7 as int), SCALE as int);
        lemma_div_is_ordered((u2 as int) * (p7 as int), 360_000int * 142_857, SCALE as int);
    }
    let p5: u64 = 200_000 - (u2 * p7) / s;
    proof {
        assert((u2 as int) * (p5 as int) <= 360_000 * 200_000) by (nonlinear_arith)
            requires
                0 <= u2 as int <= 360_000,
                0 <= p5 as int <= 200_000,
        ;
        lemma_div_pos_is_pos((u2 as int) * (p5 as int), SCALE as int);
        lemma_div_is_ordered((u2 as int) * (p5 as int), 360_000int * 200_000, SCALE as int);
    }
    let p3: u64 = 333_333 - (u2 * p5) / s;
    proof {
        lemma_mul_div_le(u as int, u2 as int, SCALE as int);
    }
    let u3: u64 = (u * u2) / s;
    proof {
        lemma_mul_div_le(u3 as int, p3 as int, SCALE as int);
    }
    let t: u64 = (u3 * p3) / s;
    u - t
}

/// The arc tangent of a ratio in `[0, 1]`; the result is exactly `atan_unit`.
fn atan_unit_fx(z: u64) -> (r: u64)
    requires
        z <= 1_000_000,
    ensures
        r as int == atan_unit(z as int),
        r <= 1_000_000,
{
    if z <= TAN_EIGHTH_FX as u64 {
        atan_poly_fx(z)
    } else {
        let d: u64 = 1_000_000 + (z * (TAN_EIGHTH_FX as u64)) / 1_000_000;
        proof {
            lemma_div_pos_is_pos((z as int) * (TAN_EIGHTH_FX as int), SCALE as int);
        }
        let num: u128 = ((z - (TAN_EIGHTH_FX as u64)) as u128) * 1_000_000;
        proof {
            lemma_div_pos_is_pos(((z - (TAN_EIGHTH_FX as u64)) as int) * 1_000_000, d as int);
            lemma_div_is_ordered_by_denominator(
                ((z - (TAN_EIGHTH_FX as u64)) as int) * 1_000_000,
                SCALE as int,
                d as int,
            );
            lemma_div_by_multiple((z - (TAN_EIGHTH_FX as u64)) as int, SCALE as int);
        }
        let u: u64 = (num / (d as u128)) as u64;
        (EIGHTH_PI_FX as u64) + atan_poly_fx(u)
    }
}

/// The fixed-point angle of the point `(x, y)` from the positive `x` axis;
/// the result is exactly `atan2_spec`.
pub fn atan2_fx(y: i64, x: i64) -> (r: i64)
    requires
        -COORD_MAX <= y <= COORD_MAX,
        -COORD_MAX <= x <= COORD_MAX,
    ensures
        r as int == atan2_spec(y as int, x as int),
        -PI_FX <= r <= PI_FX,
{
    let ax: u64 = mag(x);
    let ay: u64 = mag(y);
    if ax == 0 && ay == 0 {
        return 0;
    }
    let base: i64 = if ay <= ax {
        let num: u128 = (ay as u128) * 1_000_000;
        proof {
            lemma_div_pos_is_pos((ay as int) * 1_000_000, ax as int);
            lemma_div_is_ordered((ay as int) * 1_000_000, (ax as int) * 1_000_000, ax as int);
            lemma_div_by_multiple(SCALE as int, ax as int);
        }
        let z: u64 = (num / (ax as u128)) as u64;
        atan_unit_fx(z) as i64
    } else {
        let num: u128 = (ax as u128) * 1_000_000;
        proof {
            lemma_div_pos_is_pos((ax as int) * 1_000_000, ay as int);
            lemma_div_is_ordered((ax as int) * 1_000_000, (ay as int) * 1_000_000, ay as int);
            lemma_div_by_multiple(SCALE as int, ay as int);
        }
        let z: u64 = (num / (ay as u128)) as u64;
        HALF_PI_FX - (atan_unit_fx(z) as i64)
    };
    if x >= 0 && y >= 0 {
        base
    } else if x < 0 && y >= 0 {
        PI_FX - base
    } else if x < 0 {
        -(PI_FX - base)
    } else {
        -base
    }
}

impl XY {
    /// A point from its coordinates.
    pub fn new(x: i64, y: i64) -> (r: Self)
        ensures
            r.x == x,
            r.y == y,
    {
        Self { x, y }
    }

    /// Both coordinates rounded to the nearest whole unit, ties away from
    /// zero.
    pub fn round(self) -> (r: Self)
        requires
            in_fx(self.x as int),
            in_fx(self.y as int),
        ensures
            r.x as int == round_unit(self.x as int),
            r.y as int == round_unit(self.y as int),
    {
        Self { x: fx_round_unit(self.x), y: fx_round_unit(self.y) }
    }
}

impl Polar {
    /// A polar vector from its length and angle.
    pub fn new(length: i64, angle: i64) -> (r: Self)
        ensures
            r.length == length,
            r.angle == angle,
    {
        Self { length, angle }
    }

    /// The Cartesian point of this polar vector:
    /// `x = length * sin(angle)`, `y = length * cos(angle)`.
    pub fn to_xy(&self) -> (r: XY)
        requires
            in_fx(self.angle as int),
            -COORD_MAX <= self.length <= COORD_MAX,
        ensures
            r.x as int == fmul(sin_spec(self.angle as int), self.length as int),
            r.y as int == fmul(cos_spec(self.angle as int), self.length as int),
            abs_i(r.x as int) <= 2 * COORD_MAX,
            abs_i(r.y as int) <= 2 * COORD_MAX,
    {
        let s = sin_fx(self.angle);
        let c = cos_fx(self.angle);
        proof {
            lemma_fmul_bound(s as int, self.length as int, QUARTER_MAX as int, COORD_MAX as int);
            lemma_fmul_bound(c as int, self.length as int, QUARTER_MAX as int, COORD_MAX as int);
        }
        let x = fx_mul(s, self.length).unwrap();
        let y = fx_mul(c, self.length).unwrap();
        XY { x, y }
    }

    /// The polar form of a Cartesian point: the length is the floor of the
    /// Euclidean norm, the angle is measured from the positive `y` axis
    /// (inverting `to_xy`). At the origin the angle is zero.
    pub fn from_xy(xy: XY) -> (r: Self)
        requires
            -COORD_MAX <= xy.x <= COORD_MAX,
            -COORD_MAX <= xy.y <= COORD_MAX,
        ensures
            0 <= r.length <= 2 * COORD_MAX,
            (r.length as int) * (r.length as int) <= (xy.x as int) * (xy.x as int) + (xy.y
                as int) * (xy.y as int),
            (xy.x as int) * (xy.x as int) + (xy.y as int) * (xy.y as int) < ((
            r.length as int) + 1) * ((r.length as int) + 1),
            r.angle as int == atan2_spec(xy.x as int, xy.y as int),
            -PI_FX <= r.angle <= PI_FX,
    {
        let ax: u64 = mag(xy.x);
        let ay: u64 = mag(xy.y);
        proof {
            assert((ax as int) * (ax as int) + (ay as int) * (ay as int) <= 2 * (
            COORD_MAX as int) * (COORD_MAX as int)) by (nonlinear_arith)
                requires
                    0 <= ax as int <= COORD_MAX as int,
                    0 <= ay as int <= COORD_MAX as int,
            ;
            assert((ax as int) * (ax as int) == abs_i(xy.x as int) * abs_i(xy.x as int));
            assert(abs_i(xy.x as int) * abs_i(xy.x as int) == (xy.x as int) * (xy.x as int))
                by (nonlinear_arith);
            assert(abs_i(xy.y as int) * abs_i(xy.y as int) == (xy.y as int) * (xy.y as int))
                by (nonlinear_arith);
        }
        let sq: u128 = (ax as u128) * (ax as u128) + (ay as u128) * (ay as u128);
        let l64: u64 = isqrt_u128(sq);
        proof {
            assert(l64 as int <= 2 * (COORD_MAX as int)) by (nonlinear_arith)
                requires
                    0 <= l64 as int,
                    (l64 as int) * (l64 as int) <= sq as int,
                    sq as int <= 2 * (COORD_MAX as int) * (COORD_MAX as int),
                    COORD_MAX as int == 1_000_000_000_000_000int,
            ;
        }
        let length: i64 = l64 as i64;
        let angle: i64 = atan2_fx(xy.x, xy.y);
        Self { length, angle }
    }
}

} // verus!
