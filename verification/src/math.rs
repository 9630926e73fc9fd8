//! Checked integer arithmetic for the pool economics: widening and narrowing
//! conversions, ceiling division, fee fractions, and integer square roots.
//! Nothing here wraps silently; every operation that can lose value reports
//! it, and every rounding direction is explicit.

use crate::error::SwapError;
use vstd::arithmetic::div_mod::{
    lemma_fundamental_div_mod, lemma_fundamental_div_mod_converse, lemma_mod_pos_bound,
};
use vstd::prelude::*;

verus! {

/// The quotient of `a / b`, rounded towards positive infinity.
pub open spec fn ceil_div_spec(a: int, b: int) -> int {
    (a + b - 1) / b
}

/// How the ceiling quotient relates to the floor quotient, and the bounds
/// that make it a ceiling.
pub proof fn lemma_ceil_div(a: int, b: int)
    requires
        a >= 0,
        b > 0,
    ensures
        a % b == 0 ==> ceil_div_spec(a, b) == a / b,
        a % b != 0 ==> ceil_div_spec(a, b) == a / b + 1,
        b * ceil_div_spec(a, b) >= a,
        b * ceil_div_spec(a, b) < a + b,
        ceil_div_spec(a, b) >= 0,
        a > 0 ==> ceil_div_spec(a, b) >= 1,
        a <= 0 ==> ceil_div_spec(a, b) == 0,
{
    let q = a / b;
    let r = a % b;
    lemma_fundamental_div_mod(a, b);
    lemma_mod_pos_bound(a, b);
    if r == 0 {
        assert(a + b - 1 == q * b + (b - 1)) by (nonlinear_arith)
            requires
                a == b * q + r,
                r == 0,
        ;
        lemma_fundamental_div_mod_converse(a + b - 1, b, q, b - 1);
        assert(b * q >= a && b * q < a + b) by (nonlinear_arith)
            requires
                a == b * q + r,
                r == 0,
                b > 0,
        ;
    } else {
        assert(a + b - 1 == (q + 1) * b + (r - 1)) by (nonlinear_arith)
            requires
                a == b * q + r,
        ;
        lemma_fundamental_div_mod_converse(a + b - 1, b, q + 1, r - 1);
        assert(b * (q + 1) >= a && b * (q + 1) < a + b) by (nonlinear_arith)
            requires
                a == b * q + r,
                0 < r < b,
        ;
    }
    if a > 0 {
        assert(ceil_div_spec(a, b) >= 1) by {
            if ceil_div_spec(a, b) <= 0 {
                assert(b * ceil_div_spec(a, b) <= 0) by (nonlinear_arith)
                    requires
                        b > 0,
                        ceil_div_spec(a, b) <= 0,
                ;
            }
        }
    }
    if ceil_div_spec(a, b) < 0 {
        assert(b * ceil_div_spec(a, b) < 0) by (nonlinear_arith)
            requires
                b > 0,
                ceil_div_spec(a, b) < 0,
        ;
    }
    if a == 0 {
        if ceil_div_spec(a, b) > 0 {
            assert(b * ceil_div_spec(a, b) >= b) by (nonlinear_arith)
                requires
                    b > 0,
                    ceil_div_spec(a, b) > 0,
            ;
        }
    }
}

/// Widens a token amount for intermediate computation.
pub fn to_u128(val: u64) -> (r: Result<u128, SwapError>)
    ensures
        r == Ok::<u128, SwapError>(val as u128),
{
    Ok(val as u128)
}

/// Narrows an intermediate result back to a token amount, failing (never
/// truncating) when the value does not fit.
pub fn to_u64(val: u128) -> (r: Result<u64, SwapError>)
    ensures
        val <= u64::MAX ==> r == Ok::<u64, SwapError>(val as u64),
        val > u64::MAX ==> r == Err::<u64, SwapError>(SwapError::ConversionFailure),
{
    if val <= u64::MAX as u128 {
        Ok(val as u64)
    } else {
        Err(SwapError::ConversionFailure)
    }
}

/// Divides rounding the quotient up, and pairs it with the least divisor
/// that still yields that quotient, itself rounded up. Returns `None` when
/// the divisor is zero or larger than the dividend, so a caller can never
/// mistake a vanishing quotient for a small one.
pub fn checked_ceil_div(dividend: u128, divisor: u128) -> (r: Option<(u128, u128)>)
    ensures
        r is Some <==> 0 < divisor <= dividend,
        r matches Some(p) ==> ({
            &&& p.0 == ceil_div_spec(dividend as int, divisor as int)
            &&& p.1 == ceil_div_spec(dividend as int, p.0 as int)
            &&& 1 <= p.0
            &&& 1 <= p.1 <= divisor
            &&& p.0 * p.1 >= dividend
        }),
{
    if divisor == 0 {
        return None;
    }
    let quotient = dividend / divisor;
    if quotient == 0 {
        proof {
            lemma_fundamental_div_mod(dividend as int, divisor as int);
            lemma_mod_pos_bound(dividend as int, divisor as int);
        }
        return None;
    }
    proof {
        lemma_fundamental_div_mod(dividend as int, divisor as int);
        lemma_mod_pos_bound(dividend as int, divisor as int);
        assert(dividend >= divisor) by (nonlinear_arith)
            requires
                dividend as int == divisor as int * (dividend as int / divisor as int) + dividend
                    as int % divisor as int,
                dividend as int / divisor as int >= 1,
                divisor > 0,
                dividend as int % divisor as int >= 0,
        ;
        lemma_ceil_div(dividend as int, divisor as int);
    }
    let remainder = dividend % divisor;
    if remainder > 0 {
        proof {
            assert(divisor >= 2);
            assert(quotient < u128::MAX) by (nonlinear_arith)
                requires
                    dividend as int == divisor as int * (quotient as int) + dividend as int
                        % divisor as int,
                    divisor >= 2,
                    quotient as int == dividend as int / divisor as int,
                    dividend as int % divisor as int >= 0,
                    dividend <= u128::MAX,
                    quotient >= 1,
            ;
        }
        let q2 = quotient + 1;
        proof {
            lemma_ceil_div(dividend as int, q2 as int);
        }
        let mut d2 = dividend / q2;
        proof {
            lemma_fundamental_div_mod(dividend as int, q2 as int);
            lemma_mod_pos_bound(dividend as int, q2 as int);
            assert(d2 < u128::MAX) by (nonlinear_arith)
                requires
                    dividend as int == q2 as int * (d2 as int) + dividend as int % q2 as int,
                    q2 >= 2,
                    dividend as int % q2 as int >= 0,
                    dividend <= u128::MAX,
                    d2 >= 0,
            ;
        }
        if dividend % q2 > 0 {
            d2 = d2 + 1;
        }
        proof {
            let a = dividend as int;
            let b = divisor as int;
            let q = q2 as int;
            let d = d2 as int;
            assert(d == ceil_div_spec(a, q));
            assert(q * d >= a) by (nonlinear_arith)
                requires
                    q * ceil_div_spec(a, q) >= a,
                    d == ceil_div_spec(a, q),
            ;
            assert(d <= b) by {
                if d > b {
                    assert(q * d >= q * (b + 1)) by (nonlinear_arith)
                        requires
                            q >= 1,
                            d >= b + 1,
                    ;
                    assert(q * (b + 1) == q * b + q) by (nonlinear_arith);
                    assert(b * q >= a) by (nonlinear_arith)
                        requires
                            b * ceil_div_spec(a, b) >= a,
                            q == ceil_div_spec(a, b),
                    ;
                    assert(q * b == b * q) by (nonlinear_arith);
                    assert(q * d < a + q) by (nonlinear_arith)
                        requires
                            q * ceil_div_spec(a, q) < a + q,
                            d == ceil_div_spec(a, q),
                    ;
                }
            }
            assert(d >= 1);
        }
        Some((q2, d2))
    } else {
        proof {
            let a = dividend as int;
            let b = divisor as int;
            assert(ceil_div_spec(a, quotient as int) == b) by {
                assert(a == quotient as int * b) by (nonlinear_arith)
                    requires
                        a == b * (a / b) + a % b,
                        a % b == 0,
                        quotient as int == a / b,
                ;
                lemma_fundamental_div_mod_converse(a, quotient as int, b, 0);
                lemma_ceil_div(a, quotient as int);
            }
            assert(quotient as int * b >= a) by (nonlinear_arith)
                requires
                    a == quotient as int * b,
            ;
        }
        Some((quotient, divisor))
    }
}

/// `r` is the integer square root of `x`: the greatest whole number whose
/// square does not exceed `x`.
pub open spec fn is_sqrt(x: int, r: int) -> bool {
    &&& 0 <= r
    &&& r * r <= x
    &&& (r + 1) * (r + 1) > x
}

/// The integer square root of a nonnegative value.
pub open spec fn sqrt_spec(x: int) -> int {
    choose|r: int| is_sqrt(x, r)
}

pub proof fn lemma_sqrt_unique(x: int, r1: int, r2: int)
    requires
        is_sqrt(x, r1),
        is_sqrt(x, r2),
    ensures
        r1 == r2,
{
    if r1 < r2 {
        assert((r1 + 1) * (r1 + 1) <= r2 * r2) by (nonlinear_arith)
            requires
                0 <= r1,
                r1 + 1 <= r2,
        ;
    }
    if r2 < r1 {
        assert((r2 + 1) * (r2 + 1) <= r1 * r1) by (nonlinear_arith)
            requires
                0 <= r2,
                r2 + 1 <= r1,
        ;
    }
}

/// The integer square root: the greatest whole number whose square does not
/// exceed the radicand.
pub fn integer_sqrt(radicand: u128) -> (r: u128)
    ensures
        is_sqrt(radicand as int, r as int),
        r == sqrt_spec(radicand as int),
        r < 0x1_0000_0000_0000_0000,
{
    let mut lo: u128 = 0;
    let mut hi: u128 = 0x1_0000_0000_0000_0000;
    proof {
        assert(hi * hi > u128::MAX) by (nonlinear_arith)
            requires
                hi == 0x1_0000_0000_0000_0000,
        ;
    }
    while lo + 1 < hi
        invariant
            lo < hi <= 0x1_0000_0000_0000_0000,
            lo * lo <= radicand,
            hi * hi > radicand,
        decreases hi - lo,
    {
        let mid = lo + (hi - lo) / 2;
        proof {
            assert(lo < mid < hi);
            assert(mid * mid <= u128::MAX) by (nonlinear_arith)
                requires
                    mid < 0x1_0000_0000_0000_0000,
            ;
        }
        if mid * mid <= radicand {
            lo = mid;
        } else {
            hi = mid;
        }
    }
    proof {
        assert((lo + 1) * (lo + 1) >= hi * hi) by (nonlinear_arith)
            requires
                lo + 1 >= hi,
                hi >= 1,
        ;
        assert(is_sqrt(radicand as int, lo as int));
        assert(exists|r: int| is_sqrt(radicand as int, r));
        lemma_sqrt_unique(radicand as int, lo as int, sqrt_spec(radicand as int));
    }
    lo
}

/// The fee taken from `amount` at the fraction `num / den`, rounded down but
/// never rounded to nothing: a nonzero amount under a nonzero fee owes at
/// least one token.
pub open spec fn fee_floor_spec(amount: int, num: int, den: int) -> int {
    if num == 0 || amount == 0 {
        0
    } else if amount * num / den == 0 {
        1
    } else {
        amount * num / den
    }
}

/// The outcome of applying a fee fraction to an amount: `None` exactly where
/// the computation must fail, on an unusable fraction (zero denominator under
/// a nonzero numerator) or on overflow of the widened product.
pub open spec fn fee_result(amount: int, num: int, den: int) -> Option<u128> {
    if num == 0 || amount == 0 {
        Some(0u128)
    } else if den > 0 && amount * num <= u128::MAX {
        Some(fee_floor_spec(amount, num, den) as u128)
    } else {
        None
    }
}

/// Applies a fee fraction to an amount.
pub fn calculate_fee(token_amount: u128, fee_numerator: u128, fee_denominator: u128) -> (r: Option<
    u128,
>)
    ensures
        r == fee_result(token_amount as int, fee_numerator as int, fee_denominator as int),
{
    if fee_numerator == 0 || token_amount == 0 {
        Some(0)
    } else {
        if fee_denominator == 0 {
            return None;
        }
        if token_amount > u128::MAX / fee_numerator {
            proof {
                let a = token_amount as int;
                let n = fee_numerator as int;
                let m = u128::MAX as int;
                lemma_fundamental_div_mod(m, n);
                lemma_mod_pos_bound(m, n);
                assert(a * n > m) by (nonlinear_arith)
                    requires
                        a > m / n,
                        m == n * (m / n) + m % n,
                        0 <= m % n < n,
                ;
            }
            return None;
        }
        proof {
            let a = token_amount as int;
            let n = fee_numerator as int;
            let m = u128::MAX as int;
            lemma_fundamental_div_mod(m, n);
            lemma_mod_pos_bound(m, n);
            assert(m >= n * (m / n));
            assert(a * n <= m) by (nonlinear_arith)
                requires
                    a <= m / n,
                    n > 0,
                    m >= n * (m / n),
                    a >= 0,
            ;
        }
        let fee = token_amount * fee_numerator / fee_denominator;
        if fee == 0 {
            Some(1)
        } else {
            Some(fee)
        }
    }
}

} // verus!
