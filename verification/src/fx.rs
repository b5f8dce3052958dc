//! Fixed-point scalars.
//!
//! A scalar is an `i64` counting steps of `1 / FX_ONE` of a unit, so that
//! every geometric computation is exact integer arithmetic. Products are
//! formed in `i128` and scaled back down with floor division.

use vstd::prelude::*;
use vstd::arithmetic::div_mod::{
    lemma_fundamental_div_mod, lemma_fundamental_div_mod_converse, lemma_div_is_ordered,
};

verus! {

/// Number of fractional steps in one unit: scalars have 16 fractional bits.
pub const FX_ONE: i64 = 65536;

/// Does a mathematical integer fit in an `i64`?
pub open spec fn fits_i64(x: int) -> bool {
    i64::MIN <= x <= i64::MAX
}

/// The product of two fixed-point scalars, scaled back down.
/// Division by the positive constant `FX_ONE` rounds toward minus infinity.
pub open spec fn spec_fx_mul(a: int, b: int) -> int {
    (a * b) / (FX_ONE as int)
}

/// The quotient of two fixed-point scalars (divisor positive),
/// rounded toward minus infinity.
pub open spec fn spec_fx_div(a: int, b: int) -> int {
    (a * (FX_ONE as int)) / b
}

/// Floor division of an `i128` by a positive divisor.
/// Verus's mathematical `/` is Euclidean division, which for a positive
/// divisor coincides with floor division.
fn i128_div_floor(p: i128, d: i128) -> (r: i128)
    requires
        0 < d,
        i128::MIN < p,
    ensures
        r == p as int / d as int,
{
    if p >= 0 {
        let q: u128 = (p as u128) / (d as u128);
        proof {
            lemma_div_is_ordered(p as int, p as int, d as int);
            assert(p as int / d as int <= p as int);
        }
        q as i128
    } else {
        let n: u128 = (-p) as u128;
        let du: u128 = d as u128;
        let q: u128 = n / du;
        let rem: u128 = n % du;
        proof {
            lemma_fundamental_div_mod(n as int, du as int);
        }
        if rem == 0 {
            proof {
                assert(p as int == (-(q as int)) * (d as int) + 0) by (nonlinear_arith)
                    requires
                        n as int == (d as int) * (q as int),
                        p as int == -(n as int),
                ;
                lemma_fundamental_div_mod_converse(p as int, d as int, -(q as int), 0);
            }
            -(q as i128)
        } else {
            proof {
                assert(q as int + 1 <= n as int) by (nonlinear_arith)
                    requires
                        n as int == (d as int) * (q as int) + (rem as int),
                        0 < (rem as int) < (d as int),
                        0 < d as int,
                ;
                assert(p as int == (-(q as int) - 1) * (d as int) + ((d as int) - (rem as int)))
                    by (nonlinear_arith)
                    requires
                        n as int == (d as int) * (q as int) + (rem as int),
                        p as int == -(n as int),
                ;
                lemma_fundamental_div_mod_converse(
                    p as int,
                    d as int,
                    -(q as int) - 1,
                    (d as int) - (rem as int),
                );
            }
            -((q as i128) + 1)
        }
    }
}

/// Multiplies two fixed-point scalars.
pub fn fx_mul(a: i64, b: i64) -> (r: i64)
    requires
        fits_i64(spec_fx_mul(a as int, b as int)),
    ensures
        r as int == spec_fx_mul(a as int, b as int),
{
    let p: i128 = (a as i128) * (b as i128);
    let q: i128 = i128_div_floor(p, FX_ONE as i128);
    q as i64
}

/// Divides one fixed-point scalar by another; the divisor must be positive.
pub fn fx_div(a: i64, b: i64) -> (r: i64)
    requires
        0 < b,
        fits_i64(spec_fx_div(a as int, b as int)),
    ensures
        r as int == spec_fx_div(a as int, b as int),
{
    let p: i128 = (a as i128) * (FX_ONE as i128);
    let q: i128 = i128_div_floor(p, b as i128);
    q as i64
}

/// Half of a scalar, rounded toward minus infinity.
pub fn half(a: i64) -> (r: i64)
    ensures
        r as int == (a as int) / 2,
{
    let q: i128 = i128_div_floor(a as i128, 2);
    proof {
        lemma_div_floor_bound(a as int, 2, i64::MAX as int + 1);
    }
    q as i64
}

/// The remainder of a fixed-point scalar modulo a positive divisor,
/// always in `[0, b)` (Euclidean remainder).
pub fn fx_mod(a: i64, b: i64) -> (r: i64)
    requires
        0 < b,
    ensures
        r as int == (a as int) % (b as int),
        0 <= r < b,
{
    let q: i128 = i128_div_floor(a as i128, b as i128);
    proof {
        lemma_fundamental_div_mod(a as int, b as int);
        vstd::arithmetic::div_mod::lemma_mod_division_less_than_divisor(a as int, b as int);
    }
    (a as i128 - (b as i128) * q) as i64
}

/// Floor division by a positive divisor never overshoots the magnitude of
/// the dividend's bound by more than one.
pub proof fn lemma_div_floor_bound(p: int, d: int, m: int)
    requires
        0 < d,
        0 <= m,
        -m <= p <= m,
    ensures
        -(m / d) - 1 <= p / d <= m / d,
{
    lemma_div_is_ordered(p, m, d);
    lemma_div_is_ordered(-m, p, d);
    lemma_fundamental_div_mod(m, d);
    if m % d == 0 {
        assert(-m == (-(m / d)) * d + 0) by (nonlinear_arith)
            requires
                m == d * (m / d),
        ;
        lemma_fundamental_div_mod_converse(-m, d, -(m / d), 0);
    } else {
        assert(-m == (-(m / d) - 1) * d + (d - m % d)) by (nonlinear_arith)
            requires
                m == d * (m / d) + m % d,
        ;
        lemma_fundamental_div_mod_converse(-m, d, -(m / d) - 1, d - m % d);
    }
}

/// A bound on the magnitude of a fixed-point product.
pub proof fn lemma_fx_mul_bound(a: int, b: int, m_a: int, m_b: int)
    requires
        0 <= m_a,
        0 <= m_b,
        -m_a <= a <= m_a,
        -m_b <= b <= m_b,
    ensures
        -((m_a * m_b) / (FX_ONE as int)) - 1 <= spec_fx_mul(a, b) <= (m_a * m_b) / (FX_ONE as int),
{
    assert(-(m_a * m_b) <= a * b <= m_a * m_b) by (nonlinear_arith)
        requires
            0 <= m_a,
            0 <= m_b,
            -m_a <= a <= m_a,
            -m_b <= b <= m_b,
    ;
    lemma_div_floor_bound(a * b, FX_ONE as int, m_a * m_b);
}

} // verus!
