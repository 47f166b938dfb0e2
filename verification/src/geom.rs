//! Plain 2D vectors of whole world units, and the two integer division
//! conventions the simulation is built on: truncation toward zero (the way a
//! float-to-integer cast behaves) and rounding to the nearest whole number.

use vstd::prelude::*;

verus! {

use vstd::arithmetic::div_mod::{
    lemma_div_is_ordered, lemma_div_multiples_vanish_fancy, lemma_div_nonincreasing,
    lemma_fundamental_div_mod,
};

/// A two-dimensional vector of whole world units.
#[derive(Clone, Copy, Debug, PartialEq, Eq, Structural)]
pub struct Vector2 {
    pub x: i64,
    pub y: i64,
}

impl Vector2 {
    pub fn new(x: i64, y: i64) -> (r: Vector2)
        ensures
            r.x == x,
            r.y == y,
    {
        Vector2 { x, y }
    }
}

/// Quotient of `a` by `b` truncated toward zero, the convention a
/// float-to-integer cast follows; it differs from Euclidean division
/// only on negative dividends.
pub open spec fn div_trunc(a: int, b: int) -> int
    recommends
        b > 0,
{
    if a >= 0 {
        a / b
    } else {
        -((-a) / b)
    }
}

/// Quotient of `a` by `b` rounded to the nearest whole number,
/// ties away from zero.
pub open spec fn div_round(a: int, b: int) -> int
    recommends
        b > 0,
{
    if a >= 0 {
        (a + b / 2) / b
    } else {
        -((-a + b / 2) / b)
    }
}

/// Truncating quotients never grow in magnitude.
pub proof fn lemma_div_trunc_bound(a: int, b: int)
    requires
        b > 0,
    ensures
        a >= 0 ==> 0 <= div_trunc(a, b) <= a,
        a < 0 ==> a <= div_trunc(a, b) <= 0,
{
    if a >= 0 {
        lemma_div_nonincreasing(a, b);
        assert(a / b >= 0) by (nonlinear_arith)
            requires
                a >= 0,
                b > 0,
        ;
    } else {
        lemma_div_nonincreasing(-a, b);
        assert((-a) / b >= 0) by (nonlinear_arith)
            requires
                a < 0,
                b > 0,
        ;
    }
}

/// Rounded quotients never grow in magnitude.
pub proof fn lemma_div_round_bound(a: int, b: int)
    requires
        b > 0,
    ensures
        a >= 0 ==> 0 <= div_round(a, b) <= a,
        a < 0 ==> a <= div_round(a, b) <= 0,
{
    let h = b / 2;
    lemma_fundamental_div_mod(b, 2);
    assert(0 <= h < b);
    let m = if a >= 0 {
        a
    } else {
        -a
    };
    let q = (m + h) / b;
    lemma_fundamental_div_mod(m + h, b);
    assert(q >= 0) by (nonlinear_arith)
        requires
            m + h >= 0,
            b > 0,
            b * q + ((m + h) % b) == m + h,
            0 <= (m + h) % b < b,
    ;
    assert(q <= m) by (nonlinear_arith)
        requires
            b > 0,
            0 <= h < b,
            m >= 0,
            b * q + ((m + h) % b) == m + h,
            0 <= (m + h) % b < b,
    ;
}

/// The rounded quotient is off from the exact ratio by at most half the
/// divisor: `|div_round(a, b) * b - a| <= b / 2` (weighted by `b`).
pub proof fn lemma_div_round_error(a: int, b: int)
    requires
        b > 0,
    ensures
        -b <= 2 * (div_round(a, b) * b - a) <= b,
{
    let h = b / 2;
    lemma_fundamental_div_mod(b, 2);
    assert(2 * h <= b < 2 * h + 2);
    let m = if a >= 0 {
        a
    } else {
        -a
    };
    let q = (m + h) / b;
    lemma_fundamental_div_mod(m + h, b);
    assert(-b <= 2 * (q * b - m) <= b) by (nonlinear_arith)
        requires
            b > 0,
            2 * h <= b < 2 * h + 2,
            b * q + ((m + h) % b) == m + h,
            0 <= (m + h) % b < b,
    ;
    if a >= 0 {
        assert(div_round(a, b) == q && m == a);
    } else {
        assert(div_round(a, b) == -q && m == -a);
        assert(2 * ((-q) * b - a) == -(2 * (q * b - m))) by (nonlinear_arith)
            requires
                m == -a,
        ;
    }
}

/// Truncating division is monotone in the dividend.
pub proof fn lemma_div_trunc_ordered(a1: int, a2: int, b: int)
    requires
        a1 <= a2,
        b > 0,
    ensures
        div_trunc(a1, b) <= div_trunc(a2, b),
{
    if a1 >= 0 {
        lemma_div_is_ordered(a1, a2, b);
    } else if a2 < 0 {
        lemma_div_is_ordered(-a2, -a1, b);
    } else {
        lemma_div_trunc_bound(a1, b);
        lemma_div_trunc_bound(a2, b);
    }
}

/// A multiple of the divisor plus an offset smaller than the divisor lands
/// exactly on that multiple, for non-negative multiples.
pub proof fn lemma_div_trunc_in_cell(i: int, e: int, b: int)
    requires
        i >= 0,
        0 <= e < b,
    ensures
        div_trunc(i * b + e, b) == i,
{
    assert(i * b + e >= 0) by (nonlinear_arith)
        requires
            i >= 0,
            b > 0,
            e >= 0,
    ;
    lemma_div_multiples_vanish_fancy(i, e, b);
    assert(b * i == i * b) by (nonlinear_arith);
}

/// Truncating quotient of `a / b`, as executable code.
pub fn trunc_div(a: i64, b: i64) -> (q: i64)
    requires
        b > 0,
    ensures
        q == div_trunc(a as int, b as int),
{
    proof {
        lemma_div_trunc_bound(a as int, b as int);
    }
    a / b
}

/// Nearest-whole-number quotient of `a / b`, ties away from zero,
/// as executable code.
pub fn round_div(a: i64, b: i64) -> (q: i64)
    requires
        b > 0,
        -0x2000_0000_0000_0000 <= a <= 0x2000_0000_0000_0000,
        b <= 0x2000_0000_0000_0000,
    ensures
        q == div_round(a as int, b as int),
{
    proof {
        lemma_div_round_bound(a as int, b as int);
    }
    let half = b / 2;
    if a >= 0 {
        proof {
            lemma_div_nonincreasing(a + half, b as int);
        }
        (a + half) / b
    } else {
        proof {
            lemma_div_nonincreasing(-a + half, b as int);
        }
        -((-a + half) / b)
    }
}

} // verus!
