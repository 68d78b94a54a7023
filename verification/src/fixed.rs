//! Fixed-point scalars and 2D vectors.
//!
//! A real quantity `q` is represented by the integer `q * SCALE`, so the
//! unit length is `SCALE` and, for example, the vector (0, 1) is stored as
//! `Vec2 { x: 0, y: SCALE }`.  Division always truncates toward zero, which
//! keeps every magnitude bound monotone: rounding never grows a value.

use vstd::prelude::*;

verus! {

/// Number of fixed-point units in one real unit.
pub const SCALE: i64 = 10000;

/// Magnitude cap on the coordinates accepted by the interpolation helpers.
/// Large enough for every panel size and position that the layout engine can
/// produce, small enough that every intermediate product fits in an `i64`.
pub const COORD_LIMIT: i64 = 10_000_000_000;

/// Magnitude cap on an interpolation fraction.  Fractions come from
/// orientation components, which are bounded by `ORIENT_LIMIT` in
/// `play_area`; this constant equals that bound.
pub const FRACTION_LIMIT: i64 = 80_000;

/// Magnitude bound on the result of `lerp`:
/// `COORD_LIMIT + 2 * COORD_LIMIT * FRACTION_LIMIT / SCALE`.
pub const LERP_LIMIT: i64 = 170_000_000_000;

/// A 2D vector with fixed-point components.
#[derive(Clone, Copy, PartialEq, Eq, Structural, Debug)]
pub struct Vec2 {
    pub x: i64,
    pub y: i64,
}

/// Absolute value of a mathematical integer.
pub open spec fn abs_int(a: int) -> int {
    if a >= 0 {
        a
    } else {
        -a
    }
}

/// Division truncating toward zero, as the executable code computes it.
/// (On nonnegative operands it coincides with Euclidean division.)
pub open spec fn div_trunc(a: int, d: int) -> int {
    if a >= 0 {
        a / d
    } else {
        -((-a) / d)
    }
}

/// Linear interpolation from `a` toward `b` by the fraction `t / SCALE`.
pub open spec fn spec_lerp(a: int, b: int, t: int) -> int {
    a + div_trunc((b - a) * t, SCALE as int)
}

/// `v` clamped to the interval `[lo, hi]`.
pub open spec fn spec_clamp(v: int, lo: int, hi: int) -> int {
    if v < lo {
        lo
    } else if v > hi {
        hi
    } else {
        v
    }
}

/// Truncating division never grows a magnitude: `|a / d| * d <= |a|`.
pub proof fn lemma_div_trunc_magnitude(a: int, d: int)
    requires
        d > 0,
    ensures
        abs_int(div_trunc(a, d)) * d <= abs_int(a),
        abs_int(div_trunc(a, d)) <= abs_int(a),
{
    let m = abs_int(a);
    let q = m / d;
    vstd::arithmetic::div_mod::lemma_fundamental_div_mod(m, d);
    vstd::arithmetic::div_mod::lemma_div_pos_is_pos(m, d);
    assert(q * d <= m && q <= q * d) by (nonlinear_arith)
        requires
            m == d * q + m % d,
            0 <= m % d,
            1 <= d,
            0 <= q,
    ;
}

/// Truncating division is monotone in the dividend.
pub proof fn lemma_div_trunc_ordered(a: int, b: int, d: int)
    requires
        d > 0,
        a <= b,
    ensures
        div_trunc(a, d) <= div_trunc(b, d),
{
    if a >= 0 {
        vstd::arithmetic::div_mod::lemma_div_is_ordered(a, b, d);
    } else if b >= 0 {
        vstd::arithmetic::div_mod::lemma_div_pos_is_pos(-a, d);
        vstd::arithmetic::div_mod::lemma_div_pos_is_pos(b, d);
    } else {
        vstd::arithmetic::div_mod::lemma_div_is_ordered(-b, -a, d);
    }
}

/// Multiples of the divisor divide exactly, with either sign.
pub proof fn lemma_div_trunc_exact(k: int, d: int)
    requires
        d > 0,
    ensures
        div_trunc(k * d, d) == k,
{
    if k >= 0 {
        vstd::arithmetic::div_mod::lemma_div_multiples_vanish(k, d);
        assert(k * d == d * k && k * d >= 0) by (nonlinear_arith)
            requires
                0 <= k,
                0 < d,
        ;
    } else {
        vstd::arithmetic::div_mod::lemma_div_multiples_vanish(-k, d);
        assert(k * d < 0 && -(k * d) == d * (-k)) by (nonlinear_arith)
            requires
                k < 0,
                0 < d,
        ;
    }
}

/// Interpolating by fraction 0 returns the start value exactly.
pub proof fn lemma_lerp_zero(a: int, b: int)
    ensures
        spec_lerp(a, b, 0) == a,
{
    vstd::arithmetic::div_mod::lemma_div_of0(SCALE as int);
}

/// Interpolating by the full fraction `SCALE` returns the end value exactly.
pub proof fn lemma_lerp_full(a: int, b: int)
    ensures
        spec_lerp(a, b, SCALE as int) == b,
{
    lemma_div_trunc_exact(b - a, SCALE as int);
}

/// Interpolation is monotone in the fraction: toward `b` when `b` is above
/// `a`, away from it when `b` is below.
pub proof fn lemma_lerp_monotone(a: int, b: int, t1: int, t2: int)
    requires
        0 <= t1 <= t2,
    ensures
        a <= b ==> spec_lerp(a, b, t1) <= spec_lerp(a, b, t2),
        b <= a ==> spec_lerp(a, b, t2) <= spec_lerp(a, b, t1),
{
    if a <= b {
        assert((b - a) * t1 <= (b - a) * t2) by (nonlinear_arith)
            requires
                0 <= t1 <= t2,
                a <= b,
        ;
        lemma_div_trunc_ordered((b - a) * t1, (b - a) * t2, SCALE as int);
    }
    if b <= a {
        assert((b - a) * t2 <= (b - a) * t1) by (nonlinear_arith)
            requires
                0 <= t1 <= t2,
                b <= a,
        ;
        lemma_div_trunc_ordered((b - a) * t2, (b - a) * t1, SCALE as int);
    }
}

/// For fractions within `[0, SCALE]` the interpolated value lies between
/// the two endpoints.
pub proof fn lemma_lerp_between(a: int, b: int, t: int)
    requires
        0 <= t <= SCALE,
    ensures
        a <= b ==> a <= spec_lerp(a, b, t) <= b,
        b <= a ==> b <= spec_lerp(a, b, t) <= a,
{
    lemma_lerp_zero(a, b);
    lemma_lerp_full(a, b);
    lemma_lerp_monotone(a, b, 0, t);
    lemma_lerp_monotone(a, b, t, SCALE as int);
}

/// Division by `d`, truncating toward zero (both signs of `a`).
pub fn div_i64(a: i64, d: i64) -> (r: i64)
    requires
        i64::MIN < a,
        0 < d,
    ensures
        r == div_trunc(a as int, d as int),
{
    if a >= 0 {
        a / d
    } else {
        proof {
            vstd::arithmetic::div_mod::lemma_div_pos_is_pos(-a as int, d as int);
            vstd::arithmetic::div_mod::lemma_div_nonincreasing(-a as int, d as int);
        }
        -((-a) / d)
    }
}

/// Linear interpolation from `a` toward `b` by `t / SCALE`.
pub fn lerp(a: i64, b: i64, t: i64) -> (r: i64)
    requires
        -COORD_LIMIT <= a <= COORD_LIMIT,
        -COORD_LIMIT <= b <= COORD_LIMIT,
        -FRACTION_LIMIT <= t <= FRACTION_LIMIT,
    ensures
        r == spec_lerp(a as int, b as int, t as int),
        -LERP_LIMIT <= r <= LERP_LIMIT,
{
    assert((b - a) * t <= 2 * COORD_LIMIT * FRACTION_LIMIT && -(2 * COORD_LIMIT * FRACTION_LIMIT)
        <= (b - a) * t) by (nonlinear_arith)
        requires
            -COORD_LIMIT <= a <= COORD_LIMIT,
            -COORD_LIMIT <= b <= COORD_LIMIT,
            -FRACTION_LIMIT <= t <= FRACTION_LIMIT,
    ;
    let p: i64 = (b - a) * t;
    let q: i64 = div_i64(p, SCALE);
    proof {
        lemma_div_trunc_magnitude(p as int, SCALE as int);
        vstd::arithmetic::mul::lemma_mul_inequality(1, SCALE as int, abs_int(div_trunc(
            p as int,
            SCALE as int,
        )));
    }
    a + q
}

/// Magnitude cap on the components of the vectors handed to
/// `angle_between`: every intermediate product then fits in an `i64`.
pub const ANGLE_ARG_LIMIT: i64 = 1_000_000;

/// `m` carrying the sign of `c` (`m` is a magnitude, `c` a cross product).
pub open spec fn with_sign(c: int, m: int) -> int {
    if c < 0 {
        -m
    } else {
        m
    }
}

/// The signed angle from `v` to `w`, measured in fixed-point quarter turns:
/// `SCALE` stands for a quarter turn (90 degrees) counterclockwise and
/// `2 * SCALE` for a half turn.  The measure is the piecewise-rational
/// "diamond" angle built from the cross and dot products: it is exact at
/// every multiple of 45 degrees, strictly monotone in the circular angle in
/// between, and scale-invariant in either argument.  When either vector is
/// zero both products vanish and the angle is defined to be 0.
pub open spec fn spec_angle_between(v: Vec2, w: Vec2) -> int {
    let c = v.x * w.y - v.y * w.x;
    let t = v.x * w.x + v.y * w.y;
    if c == 0 && t == 0 {
        0
    } else if t >= 0 {
        with_sign(c, abs_int(c) * SCALE / (t + abs_int(c)))
    } else {
        with_sign(c, 2 * SCALE - abs_int(c) * SCALE / (abs_int(c) - t))
    }
}

impl Vec2 {
    /// The signed angle from `self` to `rhs` in fixed-point quarter turns
    /// (see `spec_angle_between`).
    pub fn angle_between(self, rhs: Vec2) -> (r: i64)
        requires
            -ANGLE_ARG_LIMIT <= self.x <= ANGLE_ARG_LIMIT,
            -ANGLE_ARG_LIMIT <= self.y <= ANGLE_ARG_LIMIT,
            -ANGLE_ARG_LIMIT <= rhs.x <= ANGLE_ARG_LIMIT,
            -ANGLE_ARG_LIMIT <= rhs.y <= ANGLE_ARG_LIMIT,
        ensures
            r == spec_angle_between(self, rhs),
            -2 * SCALE <= r <= 2 * SCALE,
    {
        proof {
            assert(-(ANGLE_ARG_LIMIT * ANGLE_ARG_LIMIT) <= self.x * rhs.y <= ANGLE_ARG_LIMIT
                * ANGLE_ARG_LIMIT && -(ANGLE_ARG_LIMIT * ANGLE_ARG_LIMIT) <= self.y * rhs.x
                <= ANGLE_ARG_LIMIT * ANGLE_ARG_LIMIT && -(ANGLE_ARG_LIMIT * ANGLE_ARG_LIMIT)
                <= self.x * rhs.x <= ANGLE_ARG_LIMIT * ANGLE_ARG_LIMIT && -(ANGLE_ARG_LIMIT
                * ANGLE_ARG_LIMIT) <= self.y * rhs.y <= ANGLE_ARG_LIMIT * ANGLE_ARG_LIMIT)
                by (nonlinear_arith)
                requires
                    -ANGLE_ARG_LIMIT <= self.x <= ANGLE_ARG_LIMIT,
                    -ANGLE_ARG_LIMIT <= self.y <= ANGLE_ARG_LIMIT,
                    -ANGLE_ARG_LIMIT <= rhs.x <= ANGLE_ARG_LIMIT,
                    -ANGLE_ARG_LIMIT <= rhs.y <= ANGLE_ARG_LIMIT,
            ;
        }
        let c: i64 = self.x * rhs.y - self.y * rhs.x;
        let t: i64 = self.x * rhs.x + self.y * rhs.y;
        let ac: i64 = if c >= 0 {
            c
        } else {
            -c
        };
        if c == 0 && t == 0 {
            0
        } else if t >= 0 {
            proof {
                vstd::arithmetic::mul::lemma_mul_nonnegative(ac as int, SCALE as int);
                vstd::arithmetic::div_mod::lemma_div_pos_is_pos(
                    ac * SCALE,
                    t + ac,
                );
                vstd::arithmetic::mul::lemma_mul_inequality(
                    ac as int,
                    t + ac,
                    SCALE as int,
                );
                vstd::arithmetic::div_mod::lemma_multiply_divide_le(
                    ac * SCALE,
                    t + ac,
                    SCALE as int,
                );
            }
            let m: i64 = (ac * SCALE) / (t + ac);
            if c < 0 {
                -m
            } else {
                m
            }
        } else {
            proof {
                vstd::arithmetic::mul::lemma_mul_nonnegative(ac as int, SCALE as int);
                vstd::arithmetic::div_mod::lemma_div_pos_is_pos(
                    ac * SCALE,
                    ac - t,
                );
                vstd::arithmetic::mul::lemma_mul_inequality(
                    ac as int,
                    ac - t,
                    SCALE as int,
                );
                vstd::arithmetic::div_mod::lemma_multiply_divide_le(
                    ac * SCALE,
                    ac - t,
                    SCALE as int,
                );
            }
            let m: i64 = 2 * SCALE - (ac * SCALE) / (ac - t);
            if c < 0 {
                -m
            } else {
                m
            }
        }
    }
}

/// Componentwise linear interpolation of vectors.
pub open spec fn spec_lerp2(a: Vec2, b: Vec2, t: int) -> Vec2 {
    Vec2 { x: spec_lerp(a.x as int, b.x as int, t) as i64, y: spec_lerp(a.y as int, b.y as int, t) as i64 }
}

/// Componentwise linear interpolation of vectors by `t / SCALE`.
pub fn lerp2(a: Vec2, b: Vec2, t: i64) -> (r: Vec2)
    requires
        -COORD_LIMIT <= a.x <= COORD_LIMIT,
        -COORD_LIMIT <= a.y <= COORD_LIMIT,
        -COORD_LIMIT <= b.x <= COORD_LIMIT,
        -COORD_LIMIT <= b.y <= COORD_LIMIT,
        -FRACTION_LIMIT <= t <= FRACTION_LIMIT,
    ensures
        r == spec_lerp2(a, b, t as int),
        -LERP_LIMIT <= r.x <= LERP_LIMIT,
        -LERP_LIMIT <= r.y <= LERP_LIMIT,
{
    Vec2 { x: lerp(a.x, b.x, t), y: lerp(a.y, b.y, t) }
}

/// `v` clamped to `[lo, hi]`.
pub fn clamp(v: i64, lo: i64, hi: i64) -> (r: i64)
    ensures
        r == spec_clamp(v as int, lo as int, hi as int),
{
    if v < lo {
        lo
    } else if v > hi {
        hi
    } else {
        v
    }
}

} // verus!
