//! Fixed-point scalars, vectors, and exact division helpers.
//!
//! Every physical quantity in the crate is an `i64` holding millionths of
//! a world unit ([`SCALE`] per unit). Products are formed in 128 bits, so
//! the only rounding happens at the explicitly chosen divisions:
//! truncation ([`div_trunc`]) or rounding up ([`div_up`]).

use vstd::arithmetic::div_mod::{
    lemma_div_is_ordered, lemma_div_multiples_vanish, lemma_div_nonincreasing,
    lemma_div_pos_is_pos, lemma_fundamental_div_mod, lemma_fundamental_div_mod_converse,
    lemma_mod_bound,
};
use vstd::arithmetic::mul::{lemma_mul_is_commutative, lemma_mul_unary_negation};
use vstd::math::abs;
use vstd::prelude::*;

verus! {

/// Fixed-point scale: the `i64` value that stands for one world unit.
pub const SCALE: i64 = 1_000_000;

/// A two-dimensional vector of fixed-point coordinates.
#[derive(Clone, Copy, Debug, PartialEq, Eq, Structural)]
pub struct Vec2 {
    pub x: i64,
    pub y: i64,
}

impl Vec2 {
    /// Build a vector from its two coordinates.
    pub fn new(x: i64, y: i64) -> (v: Vec2)
        ensures
            v.x == x,
            v.y == y,
    {
        Vec2 { x, y }
    }
}

/// Division rounded toward zero (the rounding of machine division),
/// stated over mathematical integers. `/` on `int` is Euclidean, so the
/// two directions are spelled out.
pub open spec fn div_trunc(a: int, b: int) -> int
    recommends
        b > 0,
{
    if a >= 0 {
        a / b
    } else {
        -((-a) / b)
    }
}

/// Division rounded toward positive infinity.
pub open spec fn div_up(a: int, b: int) -> int
    recommends
        b > 0,
{
    -((-a) / b)
}

/// Facts about truncated division: its sign follows the dividend, its
/// magnitude is the magnitude of the exact quotient rounded down, and the
/// product `div_trunc(a, b) * b` never passes `a`.
pub proof fn lemma_div_trunc_facts(a: int, b: int)
    requires
        b > 0,
    ensures
        abs(div_trunc(a, b)) == abs(a) as int / b,
        abs(div_trunc(a, b)) <= abs(a),
        a >= 0 ==> div_trunc(a, b) >= 0 && div_trunc(a, b) * b <= a,
        a <= 0 ==> div_trunc(a, b) <= 0 && div_trunc(a, b) * b >= a,
{
    if a >= 0 {
        lemma_div_pos_is_pos(a, b);
        lemma_fundamental_div_mod(a, b);
        lemma_mod_bound(a, b);
        lemma_mul_is_commutative(b, a / b);
        lemma_div_nonincreasing(a, b);
    } else {
        let q = (-a) / b;
        lemma_div_pos_is_pos(-a, b);
        lemma_fundamental_div_mod(-a, b);
        lemma_mod_bound(-a, b);
        lemma_mul_unary_negation(q, b);
        lemma_mul_is_commutative(b, q);
        lemma_div_nonincreasing(-a, b);
    }
}

/// Facts about division rounded up: it sits within one step above the
/// truncated quotient, and `div_up(a, b) * b` is at least `a`.
pub proof fn lemma_div_up_facts(a: int, b: int)
    requires
        b > 0,
    ensures
        div_up(a, b) * b >= a,
        div_trunc(a, b) <= div_up(a, b) <= div_trunc(a, b) + 1,
        abs(div_up(a, b)) <= abs(a) + 1,
{
    let q = (-a) / b;
    lemma_fundamental_div_mod(-a, b);
    lemma_mod_bound(-a, b);
    lemma_mul_unary_negation(q, b);
    lemma_mul_is_commutative(b, q);
    lemma_div_trunc_facts(a, b);
    if a >= 0 {
        let q0 = a / b;
        let r0 = a % b;
        lemma_fundamental_div_mod(a, b);
        lemma_mod_bound(a, b);
        lemma_div_pos_is_pos(a, b);
        lemma_div_nonincreasing(a, b);
        lemma_mul_is_commutative(b, q0);
        if r0 == 0 {
            lemma_mul_unary_negation(q0, b);
            lemma_fundamental_div_mod_converse(-a, b, -q0, 0);
        } else {
            assert((-(q0 + 1)) * b == -(b * q0) - b) by (nonlinear_arith);
            lemma_fundamental_div_mod_converse(-a, b, -(q0 + 1), b - r0);
        }
    }
}

/// A quotient bound transferred through truncated division: if the
/// dividend is at most `m * b` in magnitude, the quotient is at most `m`.
pub proof fn lemma_div_trunc_within(a: int, b: int, m: int)
    requires
        b > 0,
        0 <= m,
        abs(a) <= m * b,
    ensures
        abs(div_trunc(a, b)) <= m,
{
    lemma_div_trunc_facts(a, b);
    lemma_div_is_ordered(abs(a) as int, m * b, b);
    lemma_div_multiples_vanish(m, b);
    lemma_mul_is_commutative(m, b);
}

/// The same bound for division rounded up.
pub proof fn lemma_div_up_within(a: int, b: int, m: int)
    requires
        b > 0,
        0 <= m,
        abs(a) <= m * b,
    ensures
        -m <= div_up(a, b) <= m,
{
    lemma_mul_is_commutative(m, b);
    lemma_mul_unary_negation(m, b);
    lemma_mul_is_commutative(-m, b);
    lemma_div_is_ordered(-a, m * b, b);
    lemma_div_is_ordered((-m) * b, -a, b);
    lemma_div_multiples_vanish(m, b);
    lemma_div_multiples_vanish(-m, b);
}

/// Dividing an exact multiple recovers the factor, under either rounding.
pub proof fn lemma_div_exact_multiple(x: int, b: int)
    requires
        b > 0,
    ensures
        div_trunc(x * b, b) == x,
        div_up(x * b, b) == x,
{
    lemma_div_multiples_vanish(x, b);
    lemma_div_multiples_vanish(-x, b);
    lemma_mul_is_commutative(x, b);
    lemma_mul_unary_negation(x, b);
    lemma_mul_is_commutative(-x, b);
}

/// The product of two `i64` values, exact in 128 bits.
pub fn wide_mul(a: i64, b: i64) -> (p: i128)
    ensures
        p as int == a * b,
{
    proof {
        assert(-0x4000_0000_0000_0000_0000_0000_0000_0000 <= (a as int) * (b as int)
            <= 0x4000_0000_0000_0000_0000_0000_0000_0000) by (nonlinear_arith)
            requires
                -0x8000_0000_0000_0000 <= a as int <= 0x7fff_ffff_ffff_ffff,
                -0x8000_0000_0000_0000 <= b as int <= 0x7fff_ffff_ffff_ffff,
        ;
    }
    (a as i128) * (b as i128)
}

/// The dot product of two `i64` vectors, exact in 128 bits. The operand
/// bound keeps the sum of the two products inside `i128`.
pub fn wide_dot(ax: i64, ay: i64, bx: i64, by: i64) -> (p: i128)
    requires
        abs(ax as int) <= 0x2000_0000_0000_0000,
        abs(ay as int) <= 0x2000_0000_0000_0000,
        abs(bx as int) <= 0x2000_0000_0000_0000,
        abs(by as int) <= 0x2000_0000_0000_0000,
    ensures
        p as int == ax * bx + ay * by,
{
    proof {
        assert(-0x400_0000_0000_0000_0000_0000_0000_0000 <= (ax as int) * (bx as int)
            <= 0x400_0000_0000_0000_0000_0000_0000_0000
            && -0x400_0000_0000_0000_0000_0000_0000_0000 <= (ay as int) * (by as int)
            <= 0x400_0000_0000_0000_0000_0000_0000_0000) by (nonlinear_arith)
            requires
                -0x2000_0000_0000_0000 <= ax as int <= 0x2000_0000_0000_0000,
                -0x2000_0000_0000_0000 <= ay as int <= 0x2000_0000_0000_0000,
                -0x2000_0000_0000_0000 <= bx as int <= 0x2000_0000_0000_0000,
                -0x2000_0000_0000_0000 <= by as int <= 0x2000_0000_0000_0000,
        ;
    }
    wide_mul(ax, bx) + wide_mul(ay, by)
}

/// Truncated division of a 128-bit value by a positive divisor.
pub fn div_wide_trunc(p: i128, d: i64) -> (r: i128)
    requires
        d > 0,
        p != -0x8000_0000_0000_0000_0000_0000_0000_0000,
    ensures
        r as int == div_trunc(p as int, d as int),
{
    let neg = p < 0;
    let mag: u128 = if neg {
        (-p) as u128
    } else {
        p as u128
    };
    let q: u128 = mag / (d as u128);
    proof {
        lemma_div_nonincreasing(mag as int, d as int);
    }
    if neg {
        -(q as i128)
    } else {
        q as i128
    }
}

/// Division of a 128-bit value by a positive divisor, rounded up. The
/// dividend bound leaves headroom for the rounding addend.
pub fn div_wide_up(p: i128, d: i64) -> (r: i128)
    requires
        d > 0,
        abs(p as int) <= 0x4000_0000_0000_0000_0000_0000_0000_0000,
    ensures
        r as int == div_up(p as int, d as int),
{
    let du: u128 = d as u128;
    if p < 0 {
        let mag: u128 = (-p) as u128;
        let q: u128 = mag / du;
        proof {
            lemma_div_nonincreasing(mag as int, d as int);
        }
        -(q as i128)
    } else {
        let mag: u128 = p as u128;
        let q: u128 = (mag + du - 1) / du;
        proof {
            let q0 = (p as int) / (d as int);
            let r0 = (p as int) % (d as int);
            lemma_fundamental_div_mod(p as int, d as int);
            lemma_mod_bound(p as int, d as int);
            lemma_div_pos_is_pos(p as int, d as int);
            lemma_div_nonincreasing(p as int + d as int - 1, d as int);
            lemma_mul_is_commutative(d as int, q0);
            if r0 == 0 {
                lemma_fundamental_div_mod_converse(
                    p as int + d as int - 1,
                    d as int,
                    q0,
                    d as int - 1,
                );
                lemma_mul_unary_negation(q0, d as int);
                lemma_fundamental_div_mod_converse(-(p as int), d as int, -q0, 0);
            } else {
                assert((q0 + 1) * (d as int) == (d as int) * q0 + d as int) by (nonlinear_arith);
                lemma_fundamental_div_mod_converse(
                    p as int + d as int - 1,
                    d as int,
                    q0 + 1,
                    r0 - 1,
                );
                assert((-(q0 + 1)) * (d as int) == -((d as int) * q0) - d as int)
                    by (nonlinear_arith);
                lemma_fundamental_div_mod_converse(
                    -(p as int),
                    d as int,
                    -(q0 + 1),
                    d as int - r0,
                );
            }
        }
        q as i128
    }
}

/// A 128-bit value known to fit, returned as `i64`.
pub fn narrow_to_i64(p: i128) -> (r: i64)
    requires
        -0x8000_0000_0000_0000 <= p as int <= 0x7fff_ffff_ffff_ffff,
    ensures
        r as int == p as int,
{
    p as i64
}

/// `div_trunc(a * b, d)` computed without 64-bit overflow.
pub fn mul_div_trunc(a: i64, b: i64, d: i64) -> (r: i64)
    requires
        d > 0,
        -0x8000_0000_0000_0000 <= div_trunc(a * b, d as int) <= 0x7fff_ffff_ffff_ffff,
    ensures
        r as int == div_trunc(a * b, d as int),
{
    proof {
        assert(-0x4000_0000_0000_0000_0000_0000_0000_0000 <= (a as int) * (b as int)
            <= 0x4000_0000_0000_0000_0000_0000_0000_0000) by (nonlinear_arith)
            requires
                -0x8000_0000_0000_0000 <= a as int <= 0x7fff_ffff_ffff_ffff,
                -0x8000_0000_0000_0000 <= b as int <= 0x7fff_ffff_ffff_ffff,
        ;
    }
    let p = wide_mul(a, b);
    let q = div_wide_trunc(p, d);
    q as i64
}

/// `div_up(a * b, d)` computed without 64-bit overflow.
pub fn mul_div_up(a: i64, b: i64, d: i64) -> (r: i64)
    requires
        d > 0,
        -0x8000_0000_0000_0000 <= div_up(a * b, d as int) <= 0x7fff_ffff_ffff_ffff,
    ensures
        r as int == div_up(a * b, d as int),
{
    proof {
        assert(-0x4000_0000_0000_0000_0000_0000_0000_0000 <= (a as int) * (b as int)
            <= 0x4000_0000_0000_0000_0000_0000_0000_0000) by (nonlinear_arith)
            requires
                -0x8000_0000_0000_0000 <= a as int <= 0x7fff_ffff_ffff_ffff,
                -0x8000_0000_0000_0000 <= b as int <= 0x7fff_ffff_ffff_ffff,
        ;
    }
    let p = wide_mul(a, b);
    let q = div_wide_up(p, d);
    q as i64
}

} // verus!
