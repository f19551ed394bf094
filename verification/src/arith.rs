//! Exact fixed-point arithmetic for amounts and decimal fractions.
//!
//! Amounts are unsigned 128-bit integers; decimal fractions are atomics
//! scaled by `10^18`. Products are taken over a 256-bit intermediate and
//! narrowed back with a check, so no step ever wraps or saturates.
use vstd::prelude::*;
use vstd::arithmetic::div_mod::lemma_fundamental_div_mod;
use vstd::arithmetic::mul::lemma_mul_inequality;

verus! {

/// The product `a * b` divided by `d`, truncated toward zero.
pub open spec fn mul_div_floor(a: int, b: int, d: int) -> int {
    (a * b) / d
}

/// Relies on `cosmwasm_std::Uint128::checked_multiply_ratio`: the full
/// 256-bit product `a * num` divided by `den`, truncated toward zero;
/// `None` when `den` is zero or when the quotient does not fit in `u128`.
#[verifier::external_body]
pub fn checked_mul_ratio(a: u128, num: u128, den: u128) -> (r: Option<u128>)
    ensures
        r == (if den != 0 && mul_div_floor(a as int, num as int, den as int) <= u128::MAX as int {
            Some(mul_div_floor(a as int, num as int, den as int) as u128)
        } else {
            None::<u128>
        }),
{
    match cosmwasm_std::Uint128::new(a).checked_multiply_ratio(num, den) {
        Ok(v) => Some(v.u128()),
        Err(_) => None,
    }
}

/// The sum of two amounts, or `None` when it would overflow.
pub fn checked_add_u128(a: u128, b: u128) -> (r: Option<u128>)
    ensures
        r == (if a + b <= u128::MAX { Some((a + b) as u128) } else { None::<u128> }),
{
    if a <= u128::MAX - b {
        Some(a + b)
    } else {
        None
    }
}

/// The product of two amounts, or `None` when it would overflow.
pub fn checked_mul_u128(a: u128, b: u128) -> (r: Option<u128>)
    ensures
        r == (if a * b <= u128::MAX { Some((a * b) as u128) } else { None::<u128> }),
{
    if a == 0 {
        return Some(0);
    }
    proof {
        lemma_le_div_iff(b as int, u128::MAX as int, a as int);
        assert(b * a == a * b) by (nonlinear_arith);
    }
    if b <= u128::MAX / a {
        Some(a * b)
    } else {
        None
    }
}

/// An integer is at most a truncated quotient exactly when scaling it by the
/// divisor keeps it at most the dividend.
pub proof fn lemma_le_div_iff(q: int, x: int, d: int)
    requires
        d > 0,
    ensures
        (q <= x / d) <==> (q * d <= x),
{
    lemma_fundamental_div_mod(x, d);
    if q * d <= x {
        assert(q <= x / d) by (nonlinear_arith)
            requires
                d > 0,
                q * d <= x,
                x == d * (x / d) + x % d,
                0 <= x % d < d,
        ;
    }
    if q <= x / d {
        lemma_mul_inequality(q, x / d, d);
        assert(q * d <= x) by (nonlinear_arith)
            requires
                q * d <= (x / d) * d,
                x == d * (x / d) + x % d,
                0 <= x % d,
        ;
    }
}

/// A truncated quotient of a product never exceeds the first factor when the
/// second factor is at most the divisor.
pub proof fn lemma_mul_ratio_le(t: int, l: int, s: int)
    requires
        0 < s,
        0 <= l <= s,
        0 <= t,
    ensures
        mul_div_floor(t, l, s) <= t,
{
    lemma_mul_inequality(l, s, t);
    assert(t * l == l * t) by (nonlinear_arith);
    assert(t * s == s * t) by (nonlinear_arith);
    lemma_le_div_iff((t * l) / s, t * l, s);
    lemma_fundamental_div_mod(t * l, s);
    assert((t * l) / s <= t) by (nonlinear_arith)
        requires
            0 < s,
            t * l <= t * s,
            t * l == s * ((t * l) / s) + (t * l) % s,
            0 <= (t * l) % s < s,
            0 <= t,
    ;
}

/// The liquidity split is proportional within integer truncation: the
/// settlement amount `q = (t * l) / s` satisfies
/// `q * s <= t * l < (q + 1) * s`, and never exceeds the raise total `t`.
pub proof fn lemma_lp_split_proportional(t: int, l: int, s: int)
    requires
        0 < s,
        0 <= l <= s,
        0 <= t,
    ensures
        mul_div_floor(t, l, s) * s <= t * l,
        t * l < (mul_div_floor(t, l, s) + 1) * s,
        mul_div_floor(t, l, s) <= t,
{
    let q = (t * l) / s;
    lemma_fundamental_div_mod(t * l, s);
    assert(q * s <= t * l && t * l < (q + 1) * s) by (nonlinear_arith)
        requires
            0 < s,
            t * l == s * q + (t * l) % s,
            0 <= (t * l) % s < s,
    ;
    lemma_mul_ratio_le(t, l, s);
}

} // verus!
