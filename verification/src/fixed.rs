//! Exact integer arithmetic behind the fixed-point quantities.
//!
//! Every physical value in this crate is a whole number of millionths of its
//! unit, held in an `i32`. Intermediate products are formed exactly in `i128`,
//! each quotient is rounded toward negative infinity, and a final value that
//! does not fit an `i32` saturates at the nearest end of its range.

use vstd::prelude::*;
use vstd::arithmetic::div_mod::{
    lemma_fundamental_div_mod, lemma_fundamental_div_mod_converse_div,
};

verus! {

/// The quotient of `n` by `d`, rounded toward negative infinity.
pub open spec fn floor_div(n: int, d: int) -> int
    recommends
        d != 0,
{
    if d > 0 {
        n / d
    } else {
        (-n) / (-d)
    }
}

/// `x` brought into the range of an `i32`.
pub open spec fn saturate(x: int) -> int {
    if x < i32::MIN {
        i32::MIN as int
    } else if x > i32::MAX {
        i32::MAX as int
    } else {
        x
    }
}

/// A quotient whose numerator is a whole multiple of the divisor is exact.
pub proof fn lemma_floor_div_exact(q: int, d: int)
    requires
        d != 0,
    ensures
        floor_div(q * d, d) == q,
{
    if d > 0 {
        lemma_fundamental_div_mod_converse_div(q * d, d, q, 0);
    } else {
        assert(-(q * d) == q * (-d) + 0) by (nonlinear_arith);
        lemma_fundamental_div_mod_converse_div(-(q * d), -d, q, 0);
    }
}

/// The floor quotient is the one integer `q` with `q * d <= n < (q + 1) * d`
/// for a positive divisor `d`.
pub proof fn lemma_floor_div_bounds(n: int, d: int)
    requires
        d > 0,
    ensures
        floor_div(n, d) * d <= n < (floor_div(n, d) + 1) * d,
{
    lemma_fundamental_div_mod(n, d);
    assert(d * (n / d) == (n / d) * d) by (nonlinear_arith);
    assert(((n / d) + 1) * d == (n / d) * d + d) by (nonlinear_arith);
}

/// A floor quotient `t` of `n` by `d`, seen over a common denominator
/// `d * e`: the exact quotient `n / d`, which is `(n * e) / (d * e)`, lies in
/// the interval from `t` up to, but not including, `t + 1`.
pub proof fn lemma_floor_div_scaled(n: int, d: int, e: int)
    requires
        d != 0,
        e != 0,
    ensures
        d * e > 0 ==> floor_div(n, d) * (d * e) <= n * e < (floor_div(n, d) + 1) * (d * e),
        d * e < 0 ==> (floor_div(n, d) + 1) * (d * e) < n * e <= floor_div(n, d) * (d * e),
{
    let t = floor_div(n, d);
    if d > 0 {
        lemma_floor_div_bounds(n, d);
        assert((d * e > 0 ==> t * (d * e) <= n * e < (t + 1) * (d * e)) && (d * e < 0 ==> (t + 1)
            * (d * e) < n * e <= t * (d * e))) by (nonlinear_arith)
            requires
                d > 0,
                e != 0,
                t * d <= n < (t + 1) * d,
        ;
    } else {
        lemma_floor_div_bounds(-n, -d);
        assert((d * e > 0 ==> t * (d * e) <= n * e < (t + 1) * (d * e)) && (d * e < 0 ==> (t + 1)
            * (d * e) < n * e <= t * (d * e))) by (nonlinear_arith)
            requires
                d < 0,
                e != 0,
                t * (-d) <= -n < (t + 1) * (-d),
        ;
    }
}

/// A floor quotient is no larger in magnitude than its numerator.
pub proof fn lemma_floor_div_magnitude(n: int, d: int, bound: int)
    requires
        d != 0,
        -bound <= n <= bound,
    ensures
        -bound <= floor_div(n, d) <= bound,
{
    let m: int = if d > 0 { n } else { -n };
    let e: int = if d > 0 { d } else { -d };
    lemma_floor_div_bounds(m, e);
    let q = floor_div(m, e);
    assert(floor_div(n, d) == q);
    assert(-bound <= q <= bound) by (nonlinear_arith)
        requires
            e >= 1,
            q * e <= m < (q + 1) * e,
            -bound <= m <= bound,
    ;
}

/// A product of two bounded factors is bounded by the product of the bounds.
pub proof fn lemma_product_bounds(a: int, b: int, bound_a: int, bound_b: int)
    by (nonlinear_arith)
    requires
        -bound_a <= a <= bound_a,
        -bound_b <= b <= bound_b,
    ensures
        -(bound_a * bound_b) <= a * b <= bound_a * bound_b,
{
}

/// Divides rounding toward negative infinity.
pub fn div_floor(n: i128, d: i128) -> (q: i128)
    requires
        d != 0,
        n > i128::MIN,
        d > i128::MIN,
    ensures
        q == floor_div(n as int, d as int),
    no_unwind
{
    let negative: bool = (n < 0) != (d < 0);
    let num: u128 = if n < 0 { (-n) as u128 } else { n as u128 };
    let den: u128 = if d < 0 { (-d) as u128 } else { d as u128 };
    let q: u128 = num / den;
    let r: u128 = num % den;
    proof {
        let m: int = if d > 0 { n as int } else { -(n as int) };
        let e: int = den as int;
        assert(floor_div(n as int, d as int) == m / e);
        lemma_fundamental_div_mod(num as int, e);
        assert(num == (q as int) * e + (r as int)) by (nonlinear_arith)
            requires
                num == e * (q as int) + (r as int),
        ;
        assert(q <= num) by (nonlinear_arith)
            requires
                num == (q as int) * e + (r as int),
                e >= 1,
                q >= 0,
                r >= 0,
        ;
        if !negative {
            assert(m == num);
        } else if r == 0 {
            assert(m == (-(q as int)) * e + 0) by (nonlinear_arith)
                requires
                    num == (q as int) * e + (r as int),
                    r == 0,
                    m == -(num as int),
            ;
            lemma_fundamental_div_mod_converse_div(m, e, -(q as int), 0);
        } else {
            let rest: int = e - (r as int);
            assert(m == (-(q as int) - 1) * e + rest) by (nonlinear_arith)
                requires
                    num == (q as int) * e + (r as int),
                    rest == e - (r as int),
                    m == -(num as int),
            ;
            lemma_fundamental_div_mod_converse_div(m, e, -(q as int) - 1, rest);
        }
    }
    if !negative {
        q as i128
    } else if r == 0 {
        -(q as i128)
    } else {
        -(q as i128) - 1
    }
}

/// Narrows to an `i32`, saturating at the ends of its range.
pub fn saturate_i32(x: i128) -> (r: i32)
    ensures
        r == saturate(x as int),
    no_unwind
{
    if x < -2_147_483_648 {
        -2_147_483_648
    } else if x > 2_147_483_647 {
        2_147_483_647
    } else {
        x as i32
    }
}

} // verus!
