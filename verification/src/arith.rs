//! Fixed-point arithmetic primitives: wide multiplication, division that
//! rounds toward zero, and the integer square root.

use vstd::prelude::*;
use vstd::arithmetic::div_mod::{
    lemma_div_nonincreasing, lemma_div_pos_is_pos, lemma_multiply_divide_le,
};
use vstd::arithmetic::mul::lemma_mul_upper_bound;

verus! {

/// `r` is the integer square root of `n`: the largest integer whose square
/// does not exceed `n`.
pub open spec fn sqrt_ok(n: int, r: int) -> bool {
    &&& 0 <= r
    &&& r * r <= n
    &&& n < (r + 1) * (r + 1)
}

/// The integer square root of `n`, as a spec-level function.
pub open spec fn sqrt_floor(n: int) -> int {
    choose|r: int| sqrt_ok(n, r)
}

/// Every non-negative integer has an integer square root.
pub proof fn lemma_sqrt_exists(n: int) -> (r: int)
    requires
        n >= 0,
    ensures
        sqrt_ok(n, r),
    decreases n,
{
    if n == 0 {
        0
    } else {
        let p = lemma_sqrt_exists(n - 1);
        if (p + 1) * (p + 1) <= n {
            assert(n < (p + 1 + 1) * (p + 1 + 1)) by (nonlinear_arith)
                requires
                    p >= 0,
                    n - 1 < (p + 1) * (p + 1),
                    (p + 1) * (p + 1) <= n,
            ;
            assert(sqrt_ok(n, p + 1));
            p + 1
        } else {
            assert(sqrt_ok(n, p));
            p
        }
    }
}

/// The integer square root is unique.
pub proof fn lemma_sqrt_unique(n: int, r1: int, r2: int)
    requires
        sqrt_ok(n, r1),
        sqrt_ok(n, r2),
    ensures
        r1 == r2,
{
    assert(r1 == r2) by (nonlinear_arith)
        requires
            0 <= r1,
            r1 * r1 <= n,
            n < (r1 + 1) * (r1 + 1),
            0 <= r2,
            r2 * r2 <= n,
            n < (r2 + 1) * (r2 + 1),
    ;
}

/// Any witness of `sqrt_ok` is the value `sqrt_floor` denotes.
pub proof fn lemma_sqrt_floor_is(n: int, r: int)
    requires
        n >= 0,
        sqrt_ok(n, r),
    ensures
        sqrt_floor(n) == r,
{
    assert(sqrt_ok(n, sqrt_floor(n)));
    lemma_sqrt_unique(n, sqrt_floor(n), r);
}

/// Squares grow with their argument, so square roots order the same way.
pub proof fn lemma_sqrt_le(n1: int, n2: int)
    requires
        0 <= n1 <= n2,
    ensures
        sqrt_floor(n1) <= sqrt_floor(n2),
{
    let r1 = lemma_sqrt_exists(n1);
    let r2 = lemma_sqrt_exists(n2);
    lemma_sqrt_floor_is(n1, r1);
    lemma_sqrt_floor_is(n2, r2);
    assert(r1 <= r2) by (nonlinear_arith)
        requires
            0 <= r1,
            0 <= r2,
            r1 * r1 <= n1,
            n1 <= n2,
            n2 < (r2 + 1) * (r2 + 1),
    ;
}

/// The exact square root of a perfect square.
pub proof fn lemma_sqrt_of_square(k: int)
    requires
        k >= 0,
    ensures
        sqrt_floor(k * k) == k,
{
    assert(k * k < (k + 1) * (k + 1)) by (nonlinear_arith)
        requires
            k >= 0,
    ;
    lemma_sqrt_floor_is(k * k, k);
}

/// Integer square root by binary search.
pub fn isqrt(n: u64) -> (r: u64)
    ensures
        sqrt_ok(n as int, r as int),
        r as int == sqrt_floor(n as int),
{
    let mut lo: u64 = 0;
    let mut hi: u64 = 4294967295;
    while lo < hi
        invariant
            lo <= hi <= 4294967295,
            (lo as int) * (lo as int) <= n as int,
            (n as int) < (hi as int + 1) * (hi as int + 1),
        decreases hi - lo,
    {
        let mid: u64 = lo + (hi - lo + 1) / 2;
        proof {
            lemma_mul_upper_bound(mid as int, 4294967295, mid as int, 4294967295);
        }
        let sq: u64 = mid * mid;
        if sq <= n {
            lo = mid;
        } else {
            hi = mid - 1;
        }
    }
    proof {
        lemma_sqrt_floor_is(n as int, lo as int);
    }
    lo
}

/// The product of two machine words, computed without overflow.
pub fn wide_mul(a: i64, b: i64) -> (r: i128)
    ensures
        r == (a as int) * (b as int),
{
    proof {
        assert((a as int) * (b as int) <= 0x40000000000000000000000000000000int
            && (a as int) * (b as int) >= -0x40000000000000000000000000000000int)
            by (nonlinear_arith)
            requires
                -0x8000000000000000int <= a as int <= 0x7fffffffffffffffint,
                -0x8000000000000000int <= b as int <= 0x7fffffffffffffffint,
        ;
    }
    (a as i128) * (b as i128)
}

/// Interval bound on a product from interval bounds on its factors.
pub proof fn lemma_mul_bound(a: int, b: int, m1: int, m2: int)
    requires
        -m1 <= a <= m1,
        -m2 <= b <= m2,
        0 <= m1,
        0 <= m2,
    ensures
        -(m1 * m2) <= a * b <= m1 * m2,
{
    assert(-(m1 * m2) <= a * b <= m1 * m2) by (nonlinear_arith)
        requires
            -m1 <= a <= m1,
            -m2 <= b <= m2,
            0 <= m1,
            0 <= m2,
    ;
}

/// Division whose quotient is rounded toward zero, the convention every
/// fixed-point conversion in the engine uses.
pub open spec fn div_to_zero(n: int, d: int) -> int {
    if n >= 0 {
        n / d
    } else {
        -((-n) / d)
    }
}

/// Rounding toward zero never increases magnitude beyond the true quotient's.
pub proof fn lemma_div_to_zero_bound(n: int, d: int, b: int)
    requires
        0 < d,
        0 <= b,
        -(b * d) <= n <= b * d,
    ensures
        -b <= div_to_zero(n, d) <= b,
{
    assert(b * d == d * b) by (nonlinear_arith);
    if n >= 0 {
        lemma_multiply_divide_le(n, d, b);
        lemma_div_pos_is_pos(n, d);
    } else {
        lemma_multiply_divide_le(-n, d, b);
        lemma_div_pos_is_pos(-n, d);
    }
}

/// A quotient rounded toward zero lies on the same side of zero as its
/// numerator, and a bound on the numerator scales down to the quotient.
pub proof fn lemma_div_to_zero_signed_range(n: int, d: int, b: int)
    requires
        0 < d,
    ensures
        (0 <= b && 0 <= n <= b * d) ==> 0 <= div_to_zero(n, d) <= b,
        (b <= 0 && b * d <= n <= 0) ==> b <= div_to_zero(n, d) <= 0,
{
    assert(b * d == d * b) by (nonlinear_arith);
    assert(d * (-b) == -(b * d)) by (nonlinear_arith);
    if 0 <= b && 0 <= n <= b * d {
        lemma_div_pos_is_pos(n, d);
        lemma_multiply_divide_le(n, d, b);
    }
    if b <= 0 && b * d <= n <= 0 {
        lemma_div_pos_is_pos(-n, d);
        lemma_multiply_divide_le(-n, d, -b);
    }
}

/// Quotient rounded toward zero, on 128-bit operands.
pub fn div_i128(n: i128, d: i128) -> (r: i128)
    requires
        0 < d,
        -0x10000000000000000000000000000000int < n < 0x10000000000000000000000000000000int,
    ensures
        r == div_to_zero(n as int, d as int),
{
    if n >= 0 {
        let q: u128 = (n as u128) / (d as u128);
        proof {
            lemma_div_pos_is_pos(n as int, d as int);
            lemma_div_nonincreasing(n as int, d as int);
        }
        q as i128
    } else {
        let m: i128 = -n;
        let q: u128 = (m as u128) / (d as u128);
        proof {
            lemma_div_pos_is_pos(m as int, d as int);
            lemma_div_nonincreasing(m as int, d as int);
        }
        -(q as i128)
    }
}

} // verus!
