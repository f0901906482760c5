//! Fixed-point rate arithmetic.
//!
//! A rate (a royalty percentage, the minimum bid-increase percentage, the
//! cancellation-fee percentage) is a fraction with the fixed denominator
//! `RATE_ONE`: the numerator `r` stands for the fraction `r / RATE_ONE`.
//! Scaling an amount by a rate always rounds down.

use vstd::prelude::*;
#[allow(unused_imports)]
use vstd::arithmetic::div_mod::{
    lemma_div_is_ordered, lemma_div_pos_is_pos, lemma_fundamental_div_mod,
    lemma_hoist_over_denominator,
};
#[allow(unused_imports)]
use vstd::arithmetic::mul::{lemma_mul_inequality, lemma_mul_upper_bound};

verus! {

/// The rate numerator that stands for the fraction one (100%).
pub const RATE_ONE: u128 = 1_000_000_000_000_000_000;

/// `amount` scaled by the fraction `rate / RATE_ONE`, rounded down.
pub open spec fn rate_mul(amount: int, rate: int) -> int {
    (amount * rate) / (RATE_ONE as int)
}

/// Scaling a nonnegative amount by a rate of at most one never exceeds the amount.
pub proof fn lemma_rate_mul_le_amount(amount: int, rate: int)
    requires
        0 <= amount,
        0 <= rate <= RATE_ONE,
    ensures
        0 <= rate_mul(amount, rate) <= amount,
{
    let d = RATE_ONE as int;
    lemma_mul_upper_bound(amount, amount, rate, d);
    lemma_div_pos_is_pos(amount * rate, d);
    lemma_div_is_ordered(amount * rate, amount * d, d);
    assert((amount * d) / d == amount) by {
        lemma_hoist_over_denominator(0, amount, RATE_ONE as nat);
    }
}

/// Scaling is monotone in the rate.
pub proof fn lemma_rate_mul_monotone(amount: int, rate1: int, rate2: int)
    requires
        0 <= amount,
        0 <= rate1 <= rate2,
    ensures
        rate_mul(amount, rate1) <= rate_mul(amount, rate2),
{
    lemma_mul_inequality(rate1, rate2, amount);
    assert(amount * rate1 == rate1 * amount) by (nonlinear_arith);
    assert(amount * rate2 == rate2 * amount) by (nonlinear_arith);
    lemma_div_is_ordered(amount * rate1, amount * rate2, RATE_ONE as int);
}

/// Scaling by two rates separately, each rounded down, never exceeds
/// scaling by their sum.
pub proof fn lemma_rate_mul_superadditive(amount: int, rate1: int, rate2: int)
    requires
        0 <= amount,
        0 <= rate1,
        0 <= rate2,
    ensures
        rate_mul(amount, rate1) + rate_mul(amount, rate2) <= rate_mul(amount, rate1 + rate2),
{
    let d = RATE_ONE as int;
    let x = amount * rate1;
    let y = amount * rate2;
    assert(amount * (rate1 + rate2) == x + y) by (nonlinear_arith)
        requires
            x == amount * rate1,
            y == amount * rate2,
    ;
    lemma_fundamental_div_mod(x, d);
    lemma_fundamental_div_mod(y, d);
    assert(x + y == (x % d + y % d) + (x / d + y / d) * d) by (nonlinear_arith)
        requires
            x == d * (x / d) + x % d,
            y == d * (y / d) + y % d,
    ;
    assert((x + y) / d == (x % d + y % d) / d + (x / d + y / d)) by {
        lemma_hoist_over_denominator(x % d + y % d, x / d + y / d, RATE_ONE as nat);
    }
    lemma_div_pos_is_pos(x % d + y % d, d);
}

/// `amount` scaled by `rate / RATE_ONE`, rounded down, for rates of at
/// most one; the result never exceeds `amount`.
pub fn mul_rate(amount: u128, rate: u128) -> (r: u128)
    requires
        rate <= RATE_ONE,
    ensures
        r == rate_mul(amount as int, rate as int),
        r <= amount,
{
    let q: u128 = amount / RATE_ONE;
    let s: u128 = amount % RATE_ONE;
    proof {
        let d = RATE_ONE as int;
        lemma_fundamental_div_mod(amount as int, d);
        assert(q * rate <= q * d) by {
            lemma_mul_inequality(rate as int, d, q as int);
            assert(q * rate == rate * q) by (nonlinear_arith);
            assert(q * d == d * q) by (nonlinear_arith);
        }
        assert(q * d <= amount) by (nonlinear_arith)
            requires
                amount == d * q + s,
                s >= 0,
        ;
        lemma_mul_upper_bound(s as int, d - 1, rate as int, d);
        lemma_div_pos_is_pos(s * rate, d);
        assert((s * rate) / d <= s) by {
            lemma_mul_upper_bound(s as int, s as int, rate as int, d);
            assert(s * d == d * s) by (nonlinear_arith);
            lemma_div_is_ordered(s * rate, s * d, d);
            assert((s * d) / d == s) by {
                lemma_hoist_over_denominator(0, s as int, RATE_ONE as nat);
            }
        }
        assert(amount * rate == s * rate + (q * rate) * d) by (nonlinear_arith)
            requires
                amount == d * q + s,
        ;
        assert((s * rate) / d + q * rate == (s * rate + (q * rate) * d) / d) by {
            lemma_hoist_over_denominator(s * rate, q * rate, RATE_ONE as nat);
        }
    }
    q * rate + (s * rate) / RATE_ONE
}

/// `amount` scaled by `rate / RATE_ONE`, rounded down, for rates of at
/// most two; `None` exactly when the scaled value does not fit in 128 bits.
pub fn checked_mul_rate(amount: u128, rate: u128) -> (r: Option<u128>)
    requires
        rate <= 2 * RATE_ONE,
    ensures
        match r {
            Some(v) => v == rate_mul(amount as int, rate as int),
            None => rate_mul(amount as int, rate as int) > u128::MAX,
        },
{
    let q: u128 = amount / RATE_ONE;
    let s: u128 = amount % RATE_ONE;
    proof {
        let d = RATE_ONE as int;
        lemma_fundamental_div_mod(amount as int, d);
        lemma_mul_upper_bound(s as int, d - 1, rate as int, 2 * d);
        lemma_div_pos_is_pos(s * rate, d);
        assert(amount * rate == s * rate + (q * rate) * d) by (nonlinear_arith)
            requires
                amount == d * q + s,
        ;
        assert((s * rate) / d + q * rate == (s * rate + (q * rate) * d) / d) by {
            lemma_hoist_over_denominator(s * rate, q * rate, RATE_ONE as nat);
        }
    }
    let tail: u128 = (s * rate) / RATE_ONE;
    match q.checked_mul(rate) {
        Some(head) => head.checked_add(tail),
        None => None,
    }
}

} // verus!
