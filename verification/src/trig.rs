//! Degree-based trigonometry in fixed point.
//!
//! Angles are measured in milli-degrees (`90_000` is a quarter turn) and the
//! trigonometric values in milli-units (`1_000` is one).  The sine is
//! Bhaskara I's classical rational approximation, chosen because it is exact
//! integer arithmetic — every value the engine computes is pinned down to the
//! last unit by the spec functions here — and exact at multiples of 90°.

use vstd::prelude::*;
use crate::arith::{
    isqrt, lemma_sqrt_exists, lemma_sqrt_floor_is, lemma_sqrt_le, lemma_sqrt_of_square,
    sqrt_floor,
};
use vstd::arithmetic::div_mod::{
    lemma_add_mod_noop, lemma_add_mod_noop_right, lemma_div_by_multiple, lemma_div_of0,
    lemma_div_pos_is_pos, lemma_fundamental_div_mod, lemma_fundamental_div_mod_converse_mod,
    lemma_mod_multiples_vanish, lemma_multiply_divide_le, lemma_small_mod,
};

verus! {

/// One full turn, in milli-degrees.
pub const FULL_TURN: i64 = 360_000;

/// Half a turn, in milli-degrees.
pub const HALF_TURN: i64 = 180_000;

/// A quarter turn, in milli-degrees.
pub const QUARTER_TURN: i64 = 90_000;

/// Largest magnitude an angle argument may have; far beyond anything a frame
/// produces, and small enough that offsetting by turns never overflows.
pub const ANGLE_LIMIT: i64 = 1_000_000_000_000;

/// An angle reduced to `[0, 360°)` by Euclidean remainder.
pub open spec fn norm_spec(a: int) -> int {
    a % 360000
}

/// Reduce an angle to `[0, 360°)`.
pub fn norm_mdeg(a: i64) -> (r: i64)
    requires
        -ANGLE_LIMIT <= a <= ANGLE_LIMIT,
    ensures
        0 <= r < 360000,
        r as int == norm_spec(a as int),
{
    if a >= 0 {
        let m: u64 = (a as u64) % 360000;
        m as i64
    } else {
        let neg: i64 = -a;
        let m: u64 = (neg as u64) % 360000;
        proof {
            lemma_fundamental_div_mod(neg as int, 360000);
            let h = neg as int / 360000;
            if m == 0 {
                lemma_fundamental_div_mod_converse_mod(a as int, 360000, -h, 0);
            } else {
                lemma_fundamental_div_mod_converse_mod(a as int, 360000, -h - 1, 360000 - m);
            }
        }
        if m == 0 {
            0
        } else {
            (360000 - m) as i64
        }
    }
}

/// Normalization is periodic in full turns.
pub proof fn lemma_norm_periodic(a: int)
    ensures
        norm_spec(a + 360000) == norm_spec(a),
{
    lemma_mod_multiples_vanish(1, a, 360000);
}

/// Normalization leaves an angle already in `[0, 360°)` unchanged.
pub proof fn lemma_norm_small(a: int)
    requires
        0 <= a < 360000,
    ensures
        norm_spec(a) == a,
{
    lemma_small_mod(a as nat, 360000nat);
}

/// An angle one turn too far reduces by a full turn.
pub proof fn lemma_norm_shift_down(v: int)
    requires
        360000 <= v < 720000,
    ensures
        norm_spec(v) == v - 360000,
{
    lemma_fundamental_div_mod_converse_mod(v, 360000, 1, v - 360000);
}

/// An angle less than a turn below zero comes back up by a full turn.
pub proof fn lemma_norm_neg(v: int)
    requires
        -360000 <= v < 0,
    ensures
        norm_spec(v) == v + 360000,
{
    lemma_fundamental_div_mod_converse_mod(v, 360000, -1, v + 360000);
}

/// Normalizing a summand before adding changes nothing.
pub proof fn lemma_norm_add(a: int, b: int)
    ensures
        norm_spec(norm_spec(a) + b) == norm_spec(a + b),
{
    lemma_add_mod_noop_right(a % 360000, b, 360000);
    lemma_add_mod_noop(a, b, 360000);
}

/// Bhaskara I's sine on `[0°, 180°]`: `sin x ≈ 4x(180−x) / (40500 − x(180−x))`
/// with `x` in degrees, carried over to milli-degrees and milli-units.
pub open spec fn half_sine_spec(x: int) -> int {
    let q = x * (180000 - x);
    (4000 * q) / (40500000000 - q)
}

/// The sine of any angle, in milli-units in `[−1000, 1000]`.
pub open spec fn sin_spec(a: int) -> int {
    let n = norm_spec(a);
    if n <= 180000 {
        half_sine_spec(n)
    } else {
        -half_sine_spec(n - 180000)
    }
}

/// The cosine, phase-shifted sine.
pub open spec fn cos_spec(a: int) -> int {
    sin_spec(a + 90000)
}

/// Range of the half sine over its arch.
pub proof fn lemma_half_sine_range(x: int)
    requires
        0 <= x <= 180000,
    ensures
        0 <= half_sine_spec(x) <= 1000,
{
    let q = x * (180000 - x);
    assert(0 <= x * (180000 - x) <= 8100000000int) by (nonlinear_arith)
        requires
            0 <= x <= 180000,
    ;
    lemma_div_pos_is_pos(4000 * q, 40500000000 - q);
    lemma_multiply_divide_le(4000 * q, 40500000000 - q, 1000);
}

/// The sine's arch on `[0°, 180°]`, in executable form.
fn half_sine(x: i64) -> (r: i64)
    requires
        0 <= x <= 180000,
    ensures
        r as int == half_sine_spec(x as int),
        0 <= r <= 1000,
{
    proof {
        assert(0 <= x * (180000 - x) <= 8100000000int) by (nonlinear_arith)
            requires
                0 <= x as int <= 180000,
        ;
    }
    let q: u64 = (x as u64) * ((180000 - x) as u64);
    let num: u64 = 4000 * q;
    let den: u64 = 40500000000 - q;
    let r: u64 = num / den;
    proof {
        lemma_div_pos_is_pos(num as int, den as int);
        lemma_multiply_divide_le(num as int, den as int, 1000);
    }
    r as i64
}

/// The sine of an angle in milli-degrees, in milli-units.
pub fn sin_mdeg(a: i64) -> (r: i64)
    requires
        -ANGLE_LIMIT <= a <= ANGLE_LIMIT,
    ensures
        r as int == sin_spec(a as int),
        -1000 <= r <= 1000,
{
    let n = norm_mdeg(a);
    if n <= 180000 {
        half_sine(n)
    } else {
        -half_sine(n - 180000)
    }
}

/// The cosine of an angle in milli-degrees, in milli-units.
pub fn cos_mdeg(a: i64) -> (r: i64)
    requires
        -ANGLE_LIMIT <= a <= ANGLE_LIMIT,
    ensures
        r as int == cos_spec(a as int),
        -1000 <= r <= 1000,
{
    let n = norm_mdeg(a);
    proof {
        lemma_small_mod(90000nat, 360000nat);
        vstd::arithmetic::div_mod::lemma_add_mod_noop(a as int, 90000, 360000);
    }
    sin_mdeg(n + 90000)
}

/// The tangent scaled by 1000, rounded toward zero; `None` exactly where the
/// cosine vanishes.
pub open spec fn tan_spec(a: int) -> Option<int> {
    let s = sin_spec(a);
    let c = cos_spec(a);
    if c == 0 {
        None
    } else if c > 0 {
        Some(crate::arith::div_to_zero(1000 * s, c))
    } else {
        Some(crate::arith::div_to_zero(-1000 * s, -c))
    }
}

/// The tangent of an angle in milli-degrees, in milli-units.
pub fn tan_mdeg(a: i64) -> (r: Option<i64>)
    requires
        -ANGLE_LIMIT <= a <= ANGLE_LIMIT,
    ensures
        match r {
            Some(t) => Some(t as int) == tan_spec(a as int),
            None => tan_spec(a as int) is None,
        },
{
    let s = sin_mdeg(a);
    let c = cos_mdeg(a);
    if c == 0 {
        None
    } else if c > 0 {
        let q = crate::arith::div_i128(1000 * (s as i128), c as i128);
        proof {
            crate::arith::lemma_div_to_zero_bound(1000 * (s as int), c as int, 1000000);
        }
        Some(q as i64)
    } else {
        let q = crate::arith::div_i128(-1000 * (s as i128), -(c as i128));
        proof {
            crate::arith::lemma_div_to_zero_bound(-1000 * (s as int), -(c as int), 1000000);
        }
        Some(q as i64)
    }
}

/// Inverse of the sine's arch, from milli-units back to milli-degrees in
/// `[0°, 90°]`, obtained by solving Bhaskara's formula for the angle.
pub open spec fn asin_spec(s: int) -> int {
    let q = (40500000000 * s) / (4000 + s);
    90000 - sqrt_floor(8100000000 - q)
}

/// Range of the inverse sine, at the spec level.
pub proof fn lemma_asin_range(s: int)
    requires
        0 <= s <= 1000,
    ensures
        0 <= asin_spec(s) <= 90000,
{
    let q = (40500000000 * s) / (4000 + s);
    lemma_div_pos_is_pos(40500000000 * s, 4000 + s);
    lemma_multiply_divide_le(40500000000 * s, 4000 + s, 8100000000int);
    let rt = lemma_sqrt_under_8_1e9(8100000000 - q);
}

/// The square root of anything up to `90000²` is at most `90000`.
proof fn lemma_sqrt_under_8_1e9(n: int) -> (r: int)
    requires
        0 <= n <= 8100000000int,
    ensures
        r == sqrt_floor(n),
        0 <= r <= 90000,
{
    let w = crate::arith::lemma_sqrt_exists(n);
    lemma_sqrt_floor_is(n, w);
    lemma_sqrt_of_square(90000);
    lemma_sqrt_le(n, 8100000000int);
    w
}

/// Executable inverse sine arch.
fn asin_milli(s: i64) -> (r: i64)
    requires
        0 <= s <= 1000,
    ensures
        r as int == asin_spec(s as int),
        0 <= r <= 90000,
{
    let num: u64 = 40500000000 * (s as u64);
    let den: u64 = (4000 + s) as u64;
    let q: u64 = num / den;
    proof {
        lemma_div_pos_is_pos(num as int, den as int);
        lemma_multiply_divide_le(num as int, den as int, 8100000000int);
    }
    let under: u64 = 8100000000 - q;
    let rt: u64 = isqrt(under);
    proof {
        lemma_sqrt_of_square(90000);
        lemma_sqrt_le(under as int, 8100000000int);
    }
    90000 - (rt as i64)
}

/// The direction, in milli-degrees in `(−180°, 180°]`, of the vector
/// `(dx, dy)`: the fixed-point counterpart of a degree-valued `atan2`.
/// A third-quadrant vector whose tiny |dy| rounds away lands on the half
/// turn, which is reported as +180°, never −180°, keeping the range
/// half-open as a true `atan2`'s is.  The zero vector has no direction; it
/// is mapped to 0.
pub open spec fn dir_angle_spec(dy: int, dx: int) -> int {
    let ady = if dy < 0 { -dy } else { dy };
    let rr = sqrt_floor(dx * dx + dy * dy);
    if rr == 0 {
        0
    } else {
        let a = asin_spec((ady * 1000) / rr);
        if dx >= 0 && dy >= 0 {
            a
        } else if dx < 0 && dy >= 0 {
            180000 - a
        } else if dx < 0 {
            if a == 0 {
                180000
            } else {
                -(180000 - a)
            }
        } else {
            -a
        }
    }
}

/// The inverse sine at the bottom of its range.
proof fn lemma_asin_zero()
    ensures
        asin_spec(0) == 0,
{
    lemma_div_of0(4000);
    lemma_sqrt_of_square(90000);
}

/// The inverse sine at the top of its range.
proof fn lemma_asin_one()
    ensures
        asin_spec(1000) == 90000,
{
    assert((40500000000int * 1000) / (4000int + 1000int) == 8100000000int);
    lemma_sqrt_of_square(0);
}

/// The shared skeleton of a direction angle and its opposite: one
/// inverse-sine value serves both vectors, with the quadrant picked by the
/// coordinate signs.
proof fn lemma_dir_angle_pair(dy: int, dx: int) -> (a: int)
    requires
        !(dy == 0 && dx == 0),
    ensures
        0 <= a <= 90000,
        dy == 0 ==> a == 0,
        dx == 0 ==> a == 90000,
        dx >= 0 && dy >= 0 ==> dir_angle_spec(dy, dx) == a,
        dx < 0 && dy >= 0 ==> dir_angle_spec(dy, dx) == 180000 - a,
        dx < 0 && dy < 0 ==> dir_angle_spec(dy, dx) == (if a == 0 {
            180000int
        } else {
            -(180000 - a)
        }),
        dx >= 0 && dy < 0 ==> dir_angle_spec(dy, dx) == -a,
        -dx >= 0 && -dy >= 0 ==> dir_angle_spec(-dy, -dx) == a,
        -dx < 0 && -dy >= 0 ==> dir_angle_spec(-dy, -dx) == 180000 - a,
        -dx < 0 && -dy < 0 ==> dir_angle_spec(-dy, -dx) == (if a == 0 {
            180000int
        } else {
            -(180000 - a)
        }),
        -dx >= 0 && -dy < 0 ==> dir_angle_spec(-dy, -dx) == -a,
{
    let ady = if dy < 0 { -dy } else { dy };
    let sum = dx * dx + dy * dy;
    assert((-dx) * (-dx) == dx * dx && (-dy) * (-dy) == dy * dy && dy * dy == ady * ady
        && ady * ady >= 0 && dx * dx >= 0 && dx * dx + dy * dy >= 1) by (nonlinear_arith)
        requires
            !(dy == 0 && dx == 0),
            ady == (if dy < 0 { -dy } else { dy }),
    ;
    let w = lemma_sqrt_exists(sum);
    lemma_sqrt_floor_is(sum, w);
    let rr = sqrt_floor(sum);
    assert(rr >= 1);
    assert(ady <= rr) by (nonlinear_arith)
        requires
            0 <= ady,
            0 <= rr,
            ady * ady <= sum,
            sum < (rr + 1) * (rr + 1),
    ;
    let s = (ady * 1000) / rr;
    lemma_div_pos_is_pos(ady * 1000, rr);
    lemma_multiply_divide_le(ady * 1000, rr, 1000);
    let a = asin_spec(s);
    lemma_asin_range(s);
    if dy == 0 {
        lemma_div_of0(rr);
        lemma_asin_zero();
    }
    if dx == 0 {
        lemma_sqrt_of_square(ady);
        lemma_div_by_multiple(1000, ady);
        lemma_asin_one();
    }
    a
}

/// Reversing a vector turns its direction by exactly half a turn.
pub proof fn lemma_dir_angle_reflect(dy: int, dx: int)
    requires
        !(dy == 0 && dx == 0),
    ensures
        norm_spec(dir_angle_spec(-dy, -dx)) == norm_spec(dir_angle_spec(dy, dx) + 180000),
{
    let a = lemma_dir_angle_pair(dy, dx);
    if dx >= 0 && dy >= 0 {
        if dx > 0 && dy > 0 {
            if a == 0 {
                lemma_norm_small(180000);
            } else {
                lemma_norm_neg(a - 180000);
                lemma_norm_small(a + 180000);
            }
        } else if dx > 0 {
            lemma_norm_small(180000);
        } else {
            lemma_norm_neg(-90000);
            lemma_norm_small(270000);
        }
    } else if dx < 0 && dy >= 0 {
        if dy > 0 {
            if a > 0 {
                lemma_norm_neg(-a);
                lemma_norm_small(360000 - a);
            } else {
                lemma_norm_small(0);
                lemma_norm_shift_down(360000);
            }
        } else {
            lemma_norm_small(0);
            lemma_norm_shift_down(360000);
        }
    } else if dx < 0 && dy < 0 {
        if a == 0 {
            lemma_norm_small(0);
            lemma_norm_shift_down(360000);
        } else {
            lemma_norm_small(a);
        }
    } else {
        if dx > 0 {
            lemma_norm_small(180000 - a);
        } else {
            lemma_norm_small(90000);
        }
    }
}

/// The sine and cosine are exact at the four axis angles.
pub proof fn lemma_sin_axis_values()
    ensures
        sin_spec(0) == 0,
        sin_spec(90000) == 1000,
        sin_spec(180000) == 0,
        sin_spec(270000) == -1000,
        cos_spec(0) == 1000,
        cos_spec(90000) == 0,
        cos_spec(180000) == -1000,
        cos_spec(270000) == 0,
{
    lemma_norm_small(0);
    lemma_norm_small(90000);
    lemma_norm_small(180000);
    lemma_norm_small(270000);
    lemma_norm_shift_down(360000);
    lemma_div_of0(40500000000int);
    lemma_div_of0(32400000000int);
    assert(32400000000000int / 32400000000int == 1000);
    assert(half_sine_spec(0) == 0);
    assert(half_sine_spec(180000) == 0);
    assert(half_sine_spec(90000) == 1000);
}

/// The round trip through the helpers keeps to the first quadrant: for any
/// `θ` in `[0°, 90°]`, the direction recovered from `(cos θ, sin θ)` lies
/// in `[0°, 90°]` as `θ` does.
pub proof fn lemma_round_trip_first_quadrant(theta: int)
    requires
        0 <= theta <= 90000,
    ensures
        0 <= dir_angle_spec(sin_spec(theta), cos_spec(theta)) <= 90000,
{
    lemma_norm_small(theta);
    lemma_norm_small(theta + 90000);
    lemma_half_sine_range(theta);
    lemma_half_sine_range(theta + 90000);
    let s = sin_spec(theta);
    let c = cos_spec(theta);
    if s == 0 && c == 0 {
        lemma_sqrt_of_square(0);
    } else {
        let a = lemma_dir_angle_pair(s, c);
    }
}

/// The degree helpers and the direction angle round-trip exactly at the
/// four axis angles: the direction of `(cos θ, sin θ)` is `θ` again.
pub proof fn lemma_round_trip_axes()
    ensures
        norm_spec(dir_angle_spec(sin_spec(0), cos_spec(0))) == 0,
        norm_spec(dir_angle_spec(sin_spec(90000), cos_spec(90000))) == 90000,
        norm_spec(dir_angle_spec(sin_spec(180000), cos_spec(180000))) == 180000,
        norm_spec(dir_angle_spec(sin_spec(270000), cos_spec(270000))) == 270000,
{
    lemma_sin_axis_values();
    let a1 = lemma_dir_angle_pair(0, 1000);
    lemma_norm_small(0);
    let a2 = lemma_dir_angle_pair(1000, 0);
    lemma_norm_small(90000);
    let a3 = lemma_dir_angle_pair(0, -1000);
    lemma_norm_small(180000);
    let a4 = lemma_dir_angle_pair(-1000, 0);
    lemma_norm_neg(-90000);
    lemma_norm_small(270000);
}

/// Direction of a vector: `atan2(dy, dx)` in milli-degrees.
pub fn direction_angle(dy: i64, dx: i64) -> (r: i64)
    requires
        -2_000_000_000 <= dy <= 2_000_000_000,
        -2_000_000_000 <= dx <= 2_000_000_000,
    ensures
        r as int == dir_angle_spec(dy as int, dx as int),
        -180000 < r <= 180000,
{
    let ady: i64 = if dy < 0 { -dy } else { dy };
    proof {
        assert(0 <= dx as int * dx as int <= 4000000000000000000int
            && dy as int * dy as int == ady as int * ady as int
            && 0 <= ady as int * ady as int <= 4000000000000000000int) by (nonlinear_arith)
            requires
                -2_000_000_000 <= dy as int <= 2_000_000_000,
                -2_000_000_000 <= dx as int <= 2_000_000_000,
                ady as int == (if dy < 0 { -(dy as int) } else { dy as int }),
        ;
    }
    let sq128: i128 = crate::arith::wide_mul(dx, dx) + crate::arith::wide_mul(dy, dy);
    let sq: u64 = sq128 as u64;
    let rr: u64 = isqrt(sq);
    if rr == 0 {
        proof {
            assert(dx as int * dx as int == 0 && dy as int * dy as int == 0 ==> dx == 0 && dy == 0)
                by (nonlinear_arith);
        }
        0
    } else {
        proof {
            assert(ady as int <= rr as int) by (nonlinear_arith)
                requires
                    0 <= ady as int,
                    0 <= rr as int,
                    ady as int * ady as int <= sq as int,
                    (sq as int) < (rr as int + 1) * (rr as int + 1),
            ;
        }
        let s: u64 = ((ady as u64) * 1000) / rr;
        proof {
            lemma_div_pos_is_pos(ady as int * 1000, rr as int);
            lemma_multiply_divide_le(ady as int * 1000, rr as int, 1000);
        }
        let a: i64 = asin_milli(s as i64);
        if dx >= 0 && dy >= 0 {
            a
        } else if dx < 0 && dy >= 0 {
            180000 - a
        } else if dx < 0 {
            if a == 0 {
                180000
            } else {
                -(180000 - a)
            }
        } else {
            -a
        }
    }
}

} // verus!
