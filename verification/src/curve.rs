//! The constant-product trade curve: the invariant arithmetic behind swaps,
//! proportional share conversions, and single-sided conversions. Every
//! executable function here is specified exactly by a spec function, and the
//! economic laws are proved over those spec functions.

use crate::error::SwapError;
use crate::fees::Fees;
use crate::math::fee_result;
use crate::math::{ceil_div_spec, checked_ceil_div, integer_sqrt, is_sqrt, lemma_ceil_div,
    sqrt_spec};
use vstd::prelude::*;

verus! {

/// Which reserve feeds a trade and which one pays it out.
#[derive(Clone, Copy, Debug, PartialEq, Eq, Structural)]
pub enum TradeDirection {
    AtoB,
    BtoA,
}

/// Which way a conversion rounds. Every rounding in the engine favors the
/// pool over the individual caller.
#[derive(Clone, Copy, Debug, PartialEq, Eq, Structural)]
pub enum RoundDirection {
    Floor,
    Ceiling,
}

/// Amounts moved by one invariant exchange, fees not included.
#[derive(Clone, Copy, Debug, PartialEq, Eq, Structural)]
pub struct SwapWithoutFeesResult {
    pub source_amount_swapped: u128,
    pub destination_amount_swapped: u128,
}

/// A pool-share amount converted to amounts of both trading tokens.
#[derive(Clone, Copy, Debug, PartialEq, Eq, Structural)]
pub struct TradingTokenResult {
    pub token_a_amount: u128,
    pub token_b_amount: u128,
}

/// The pool shares minted by the very first deposit into any pool.
pub const INITIAL_SWAP_POOL_AMOUNT: u128 = 1_000_000_000;

/// The destination reserve after an exchange of `src` against reserves
/// `(rs, rd)`: the constant product, divided by the grown source reserve,
/// rounded up so the pool keeps every fraction.
pub open spec fn cp_new_destination(src: int, rs: int, rd: int) -> int {
    ceil_div_spec(rs * rd, rs + src)
}

/// The source reserve after the exchange: the least source reserve that
/// still buys the new destination reserve, rounded up.
pub open spec fn cp_new_source(src: int, rs: int, rd: int) -> int {
    ceil_div_spec(rs * rd, cp_new_destination(src, rs, rd))
}

/// When the exchange is accepted: no overflow, a funded pool, and both
/// moved amounts strictly positive.
pub open spec fn cp_swap_ok(src: int, rs: int, rd: int) -> bool {
    &&& rs + src <= u128::MAX
    &&& rs * rd <= u128::MAX
    &&& 0 < rs + src <= rs * rd
    &&& rs < cp_new_source(src, rs, rd)
    &&& cp_new_destination(src, rs, rd) < rd
}

/// What the exchange takes from the caller; never more than `src`.
pub open spec fn cp_source_swapped(src: int, rs: int, rd: int) -> int {
    cp_new_source(src, rs, rd) - rs
}

/// What the exchange pays out.
pub open spec fn cp_destination_swapped(src: int, rs: int, rd: int) -> int {
    rd - cp_new_destination(src, rs, rd)
}

/// One constant-product exchange, fees already deducted from
/// `source_amount`. `None` whenever the exchange would overflow, drain the
/// pool, or move nothing in either direction.
pub fn swap_without_fees(
    source_amount: u128,
    swap_source_amount: u128,
    swap_destination_amount: u128,
) -> (r: Option<SwapWithoutFeesResult>)
    ensures
        r is Some <==> cp_swap_ok(
            source_amount as int,
            swap_source_amount as int,
            swap_destination_amount as int,
        ),
        r matches Some(x) ==> ({
            &&& x.source_amount_swapped == cp_source_swapped(
                source_amount as int,
                swap_source_amount as int,
                swap_destination_amount as int,
            )
            &&& x.destination_amount_swapped == cp_destination_swapped(
                source_amount as int,
                swap_source_amount as int,
                swap_destination_amount as int,
            )
        }),
{
    let invariant_value = match swap_source_amount.checked_mul(swap_destination_amount) {
        Some(v) => v,
        None => {
            return None;
        },
    };
    let new_source_candidate = match swap_source_amount.checked_add(source_amount) {
        Some(v) => v,
        None => {
            return None;
        },
    };
    let (new_destination, new_source) = match checked_ceil_div(
        invariant_value,
        new_source_candidate,
    ) {
        Some(p) => p,
        None => {
            return None;
        },
    };
    let source_amount_swapped = match new_source.checked_sub(swap_source_amount) {
        Some(v) => v,
        None => {
            return None;
        },
    };
    if source_amount_swapped == 0 {
        return None;
    }
    let destination_amount_swapped = match swap_destination_amount.checked_sub(new_destination) {
        Some(v) => v,
        None => {
            return None;
        },
    };
    if destination_amount_swapped == 0 {
        return None;
    }
    Some(SwapWithoutFeesResult { source_amount_swapped, destination_amount_swapped })
}

/// Invariant non-decrease: an accepted exchange never reduces the product
/// of the reserves, so value can never be pulled out through a trade.
pub proof fn lemma_swap_invariant_nondecrease(src: int, rs: int, rd: int)
    requires
        0 <= src,
        0 <= rs,
        0 <= rd,
        cp_swap_ok(src, rs, rd),
    ensures
        (rs + cp_source_swapped(src, rs, rd)) * (rd - cp_destination_swapped(src, rs, rd)) >= rs
            * rd,
{
    let inv = rs * rd;
    let q = cp_new_destination(src, rs, rd);
    lemma_ceil_div(inv, rs + src);
    lemma_ceil_div(inv, q);
    assert(rs + cp_source_swapped(src, rs, rd) == cp_new_source(src, rs, rd));
    assert(rd - cp_destination_swapped(src, rs, rd) == q);
    assert(q * cp_new_source(src, rs, rd) >= inv);
    assert(cp_new_source(src, rs, rd) * q == q * cp_new_source(src, rs, rd)) by (nonlinear_arith);
}

/// The pool never pays out more than it was fed: what the exchange takes
/// stays within the caller's offer.
pub proof fn lemma_swap_source_bounded(src: int, rs: int, rd: int)
    requires
        0 <= src,
        0 <= rs,
        0 <= rd,
        cp_swap_ok(src, rs, rd),
    ensures
        cp_source_swapped(src, rs, rd) <= src,
        0 < cp_source_swapped(src, rs, rd),
        0 < cp_destination_swapped(src, rs, rd) < rd,
{
    let inv = rs * rd;
    let q = cp_new_destination(src, rs, rd);
    lemma_ceil_div(inv, rs + src);
    lemma_ceil_div(inv, q);
    // The adjusted source reserve never exceeds the candidate `rs + src`.
    assert(cp_new_source(src, rs, rd) <= rs + src) by {
        if cp_new_source(src, rs, rd) > rs + src {
            let d = cp_new_source(src, rs, rd);
            assert(q * d >= q * (rs + src + 1)) by (nonlinear_arith)
                requires
                    q >= 1,
                    d >= rs + src + 1,
            ;
            assert(q * (rs + src + 1) == q * (rs + src) + q) by (nonlinear_arith);
            assert((rs + src) * q >= inv) by (nonlinear_arith)
                requires
                    (rs + src) * ceil_div_spec(inv, rs + src) >= inv,
                    q == ceil_div_spec(inv, rs + src),
            ;
            assert(q * (rs + src) == (rs + src) * q) by (nonlinear_arith);
            assert(q * d < inv + q) by (nonlinear_arith)
                requires
                    q * ceil_div_spec(inv, q) < inv + q,
                    d == ceil_div_spec(inv, q),
            ;
        }
    }
}

/// The floor shares-to-tokens conversion of one side.
pub open spec fn ptt_floor(pool_tokens: int, supply: int, reserve: int) -> int {
    pool_tokens * reserve / supply
}

/// The rounded shares-to-tokens conversion of one side: rounding up only
/// ever adds a single token, and only to a nonzero amount.
pub open spec fn ptt_rounded(pool_tokens: int, supply: int, reserve: int, round: RoundDirection) -> int {
    let floor = ptt_floor(pool_tokens, supply, reserve);
    match round {
        RoundDirection::Floor => floor,
        RoundDirection::Ceiling => if (pool_tokens * reserve) % supply > 0 && floor > 0 {
            floor + 1
        } else {
            floor
        },
    }
}

/// When the conversion is accepted: a live share supply and no overflow.
pub open spec fn ptt_ok(pool_tokens: int, supply: int, a: int, b: int) -> bool {
    &&& supply > 0
    &&& pool_tokens * a <= u128::MAX
    &&& pool_tokens * b <= u128::MAX
}

/// Converts a pool-share amount to the proportional amounts of both
/// trading tokens, rounding in the given direction.
pub fn pool_tokens_to_trading_tokens(
    pool_tokens: u128,
    pool_token_supply: u128,
    swap_token_a_amount: u128,
    swap_token_b_amount: u128,
    round_direction: RoundDirection,
) -> (r: Option<TradingTokenResult>)
    ensures
        r is Some <==> ptt_ok(
            pool_tokens as int,
            pool_token_supply as int,
            swap_token_a_amount as int,
            swap_token_b_amount as int,
        ),
        r matches Some(x) ==> ({
            &&& x.token_a_amount == ptt_rounded(
                pool_tokens as int,
                pool_token_supply as int,
                swap_token_a_amount as int,
                round_direction,
            )
            &&& x.token_b_amount == ptt_rounded(
                pool_tokens as int,
                pool_token_supply as int,
                swap_token_b_amount as int,
                round_direction,
            )
        }),
{
    if pool_token_supply == 0 {
        return None;
    }
    let prod_a = match pool_tokens.checked_mul(swap_token_a_amount) {
        Some(v) => v,
        None => {
            return None;
        },
    };
    let prod_b = match pool_tokens.checked_mul(swap_token_b_amount) {
        Some(v) => v,
        None => {
            return None;
        },
    };
    let token_a_amount = prod_a / pool_token_supply;
    let token_b_amount = prod_b / pool_token_supply;
    match round_direction {
        RoundDirection::Floor => Some(TradingTokenResult { token_a_amount, token_b_amount }),
        RoundDirection::Ceiling => {
            let a_rem = prod_a % pool_token_supply;
            let b_rem = prod_b % pool_token_supply;
            proof {
                lemma_ceiling_bump_fits(prod_a as int, pool_token_supply as int);
                lemma_ceiling_bump_fits(prod_b as int, pool_token_supply as int);
            }
            let token_a_amount = if a_rem > 0 && token_a_amount > 0 {
                token_a_amount + 1
            } else {
                token_a_amount
            };
            let token_b_amount = if b_rem > 0 && token_b_amount > 0 {
                token_b_amount + 1
            } else {
                token_b_amount
            };
            Some(TradingTokenResult { token_a_amount, token_b_amount })
        },
    }
}

/// Bumping a floored quotient by one cannot overflow: a nonzero remainder
/// means the divisor was at least two.
proof fn lemma_ceiling_bump_fits(p: int, s: int)
    requires
        0 <= p <= u128::MAX,
        s > 0,
    ensures
        p % s > 0 ==> p / s + 1 <= u128::MAX,
{
    vstd::arithmetic::div_mod::lemma_fundamental_div_mod(p, s);
    vstd::arithmetic::div_mod::lemma_mod_pos_bound(p, s);
    if p % s > 0 {
        assert(s >= 2);
        assert(p / s + 1 <= u128::MAX) by (nonlinear_arith)
            requires
                p == s * (p / s) + p % s,
                s >= 2,
                0 < p % s < s,
                p <= u128::MAX,
                p / s >= 0,
        ;
    }
}

/// The traded-side reserve selected by a direction.
pub open spec fn side_reserve(a: int, b: int, dir: TradeDirection) -> int {
    match dir {
        TradeDirection::AtoB => a,
        TradeDirection::BtoA => b,
    }
}

/// When a single-sided deposit conversion is accepted.
pub open spec fn dsd_ok(source: int, s: int, supply: int) -> bool {
    &&& s > 0
    &&& s + source <= u128::MAX
    &&& s * (s + source) <= u128::MAX
    &&& supply * (sqrt_spec(s * (s + source)) - s) <= u128::MAX
}

/// The pool shares owed for depositing `source` into the side holding `s`:
/// the supply scaled by the growth of the invariant's square root, floored.
pub open spec fn dsd_shares(source: int, s: int, supply: int) -> int {
    supply * (sqrt_spec(s * (s + source)) - s) / s
}

/// Converts a one-sided deposit into pool shares by the marginal effect on
/// the invariant, rounding down.
pub fn cp_deposit_single(source_amount: u128, swap_source_amount: u128, pool_supply: u128) -> (r:
    Option<u128>)
    ensures
        r is Some <==> dsd_ok(source_amount as int, swap_source_amount as int, pool_supply as int),
        r matches Some(x) ==> x == dsd_shares(
            source_amount as int,
            swap_source_amount as int,
            pool_supply as int,
        ),
{
    if swap_source_amount == 0 {
        return None;
    }
    let grown = match swap_source_amount.checked_add(source_amount) {
        Some(v) => v,
        None => {
            return None;
        },
    };
    let product = match swap_source_amount.checked_mul(grown) {
        Some(v) => v,
        None => {
            return None;
        },
    };
    let root = integer_sqrt(product);
    proof {
        let s = swap_source_amount as int;
        let rt = root as int;
        assert(s * s <= product) by (nonlinear_arith)
            requires
                s >= 0,
                s <= grown as int,
                product as int == s * (grown as int),
        ;
        assert(s <= rt) by (nonlinear_arith)
            requires
                s >= 0,
                rt >= 0,
                s * s <= product as int,
                (rt + 1) * (rt + 1) > product as int,
        ;
    }
    let gain = root - swap_source_amount;
    let scaled = match pool_supply.checked_mul(gain) {
        Some(v) => v,
        None => {
            return None;
        },
    };
    Some(scaled / swap_source_amount)
}

/// When a single-sided exact-out withdrawal conversion is accepted.
pub open spec fn wsd_ok(out: int, s: int, supply: int) -> bool {
    &&& s > 0
    &&& 0 <= out <= s
    &&& s * (s - out) <= u128::MAX
    &&& supply * (s - sqrt_spec(s * (s - out))) <= u128::MAX
}

/// The pool shares to burn for taking `out` from the side holding `s`: the
/// supply scaled by the shrinkage of the invariant's square root, rounded
/// up so the pool never underburns.
pub open spec fn wsd_shares(out: int, s: int, supply: int) -> int {
    ceil_div_spec(supply * (s - sqrt_spec(s * (s - out))), s)
}

/// Converts a one-sided exact withdrawal amount into the pool shares to
/// burn, by the marginal effect on the invariant, rounding up.
pub fn cp_withdraw_single(
    destination_amount: u128,
    swap_source_amount: u128,
    pool_supply: u128,
) -> (r: Option<u128>)
    ensures
        r is Some <==> wsd_ok(
            destination_amount as int,
            swap_source_amount as int,
            pool_supply as int,
        ),
        r matches Some(x) ==> x == wsd_shares(
            destination_amount as int,
            swap_source_amount as int,
            pool_supply as int,
        ),
{
    if swap_source_amount == 0 {
        return None;
    }
    let remaining = match swap_source_amount.checked_sub(destination_amount) {
        Some(v) => v,
        None => {
            return None;
        },
    };
    let product = match swap_source_amount.checked_mul(remaining) {
        Some(v) => v,
        None => {
            return None;
        },
    };
    let root = integer_sqrt(product);
    proof {
        let s = swap_source_amount as int;
        let rt = root as int;
        assert(product as int <= s * s) by (nonlinear_arith)
            requires
                s >= 0,
                remaining as int <= s,
                product as int == s * (remaining as int),
        ;
        assert(rt <= s) by (nonlinear_arith)
            requires
                s >= 0,
                rt >= 0,
                rt * rt <= product as int,
                product as int <= s * s,
        ;
    }
    let drop_amount = swap_source_amount - root;
    let scaled = match pool_supply.checked_mul(drop_amount) {
        Some(v) => v,
        None => {
            return None;
        },
    };
    let floor = scaled / swap_source_amount;
    let rem = scaled % swap_source_amount;
    proof {
        lemma_ceil_div(scaled as int, swap_source_amount as int);
        lemma_ceiling_bump_fits(scaled as int, swap_source_amount as int);
    }
    if rem > 0 {
        Some(floor + 1)
    } else {
        Some(floor)
    }
}

/// The full outcome of a swap through the curve with fees applied.
#[derive(Clone, Copy, Debug, PartialEq, Eq, Structural)]
pub struct SwapResult {
    pub new_swap_source_amount: u128,
    pub new_swap_destination_amount: u128,
    pub source_amount_swapped: u128,
    pub destination_amount_swapped: u128,
    pub trade_fee: u128,
    pub owner_fee: u128,
}

/// The curve variants the protocol defines: a closed set, selected by a tag
/// byte in every packed record that carries a curve.
#[derive(Clone, Copy, Debug, PartialEq, Eq, Structural)]
pub enum CurveType {
    ConstantProduct,
}

/// A trade curve: the selected variant. The constant product carries no
/// parameters, so its packed parameter block is all zero.
#[derive(Clone, Copy, Debug, PartialEq, Eq, Structural)]
pub struct SwapCurve {
    pub curve_type: CurveType,
}

/// The outcome of a full swap: both trading fees are taken off the input
/// leg, the remainder is exchanged on the curve, and the fees are counted
/// back into what the caller pays the pool.
pub open spec fn curve_swap_spec(fees: Fees, src: int, rs: int, rd: int) -> Option<SwapResult> {
    match (
        fee_result(src, fees.trade_fee_numerator as int, fees.trade_fee_denominator as int),
        fee_result(
            src,
            fees.owner_trade_fee_numerator as int,
            fees.owner_trade_fee_denominator as int,
        ),
    ) {
        (Some(tf), Some(of)) => {
            if tf + of > u128::MAX || src < tf + of {
                None
            } else {
                let less = src - tf - of;
                if !cp_swap_ok(less, rs, rd) {
                    None
                } else {
                    let ss = cp_source_swapped(less, rs, rd) + tf + of;
                    let ds = cp_destination_swapped(less, rs, rd);
                    if rs + ss > u128::MAX {
                        None
                    } else {
                        Some(
                            SwapResult {
                                new_swap_source_amount: (rs + ss) as u128,
                                new_swap_destination_amount: (rd - ds) as u128,
                                source_amount_swapped: ss as u128,
                                destination_amount_swapped: ds as u128,
                                trade_fee: tf,
                                owner_fee: of,
                            },
                        )
                    }
                }
            }
        },
        _ => None,
    }
}

/// The half of a one-sided deposit that is effectively traded, floored but
/// never to nothing.
pub open spec fn half_down(source: int) -> int {
    if source / 2 == 0 {
        1
    } else {
        source / 2
    }
}

/// The outcome of converting a one-sided deposit to pool shares: both
/// trading fees apply to the traded half, the rest converts by the
/// invariant.
pub open spec fn deposit_single_spec(
    fees: Fees,
    source: int,
    a: int,
    b: int,
    supply: int,
    dir: TradeDirection,
) -> Option<u128> {
    if source == 0 {
        Some(0u128)
    } else {
        let half = half_down(source);
        match (
            fee_result(half, fees.trade_fee_numerator as int, fees.trade_fee_denominator as int),
            fee_result(
                half,
                fees.owner_trade_fee_numerator as int,
                fees.owner_trade_fee_denominator as int,
            ),
        ) {
            (Some(tf), Some(of)) => {
                if tf + of > u128::MAX || source < tf + of {
                    None
                } else {
                    let s = side_reserve(a, b, dir);
                    if !dsd_ok(source - tf - of, s, supply) {
                        None
                    } else {
                        Some(dsd_shares(source - tf - of, s, supply) as u128)
                    }
                }
            },
            _ => None,
        }
    }
}

/// The outcome of converting a one-sided exact withdrawal to the pool
/// shares to burn: both trading fees apply to half the amount, rounded up,
/// and are added to what must be withdrawn from the side.
pub open spec fn withdraw_single_spec(
    fees: Fees,
    out: int,
    a: int,
    b: int,
    supply: int,
    dir: TradeDirection,
) -> Option<u128> {
    if out == 0 {
        Some(0u128)
    } else if out + 1 > u128::MAX {
        None
    } else {
        let half = (out + 1) / 2;
        match (
            fee_result(half, fees.trade_fee_numerator as int, fees.trade_fee_denominator as int),
            fee_result(
                half,
                fees.owner_trade_fee_numerator as int,
                fees.owner_trade_fee_denominator as int,
            ),
        ) {
            (Some(tf), Some(of)) => {
                if tf + of > u128::MAX || out + tf + of > u128::MAX {
                    None
                } else {
                    let s = side_reserve(a, b, dir);
                    if !wsd_ok(out + tf + of, s, supply) {
                        None
                    } else {
                        Some(wsd_shares(out + tf + of, s, supply) as u128)
                    }
                }
            },
            _ => None,
        }
    }
}

impl SwapCurve {
    /// A constant-product curve.
    pub fn constant_product() -> (r: SwapCurve)
        ensures
            r.curve_type == CurveType::ConstantProduct,
    {
        SwapCurve { curve_type: CurveType::ConstantProduct }
    }

    /// Exchanges `source_amount` against the reserves, fees included. The
    /// direction does not bend the constant product; it is carried for the
    /// caller's bookkeeping.
    pub fn swap(
        &self,
        source_amount: u128,
        swap_source_amount: u128,
        swap_destination_amount: u128,
        _trade_direction: TradeDirection,
        fees: &Fees,
    ) -> (r: Option<SwapResult>)
        ensures
            r == curve_swap_spec(
                *fees,
                source_amount as int,
                swap_source_amount as int,
                swap_destination_amount as int,
            ),
    {
        let trade_fee = match fees.trading_fee(source_amount) {
            Some(v) => v,
            None => {
                return None;
            },
        };
        let owner_fee = match fees.owner_trading_fee(source_amount) {
            Some(v) => v,
            None => {
                return None;
            },
        };
        let total_fees = match trade_fee.checked_add(owner_fee) {
            Some(v) => v,
            None => {
                return None;
            },
        };
        let source_amount_less_fees = match source_amount.checked_sub(total_fees) {
            Some(v) => v,
            None => {
                return None;
            },
        };
        let result = match swap_without_fees(
            source_amount_less_fees,
            swap_source_amount,
            swap_destination_amount,
        ) {
            Some(v) => v,
            None => {
                return None;
            },
        };
        proof {
            lemma_swap_source_bounded(
                source_amount_less_fees as int,
                swap_source_amount as int,
                swap_destination_amount as int,
            );
        }
        let source_amount_swapped = result.source_amount_swapped + total_fees;
        let new_swap_source_amount = match swap_source_amount.checked_add(source_amount_swapped) {
            Some(v) => v,
            None => {
                return None;
            },
        };
        let new_swap_destination_amount = swap_destination_amount
            - result.destination_amount_swapped;
        Some(
            SwapResult {
                new_swap_source_amount,
                new_swap_destination_amount,
                source_amount_swapped,
                destination_amount_swapped: result.destination_amount_swapped,
                trade_fee,
                owner_fee,
            },
        )
    }

    /// Converts a one-sided deposit into the pool shares it buys.
    pub fn deposit_single_token_type(
        &self,
        source_amount: u128,
        swap_token_a_amount: u128,
        swap_token_b_amount: u128,
        pool_supply: u128,
        trade_direction: TradeDirection,
        fees: &Fees,
    ) -> (r: Option<u128>)
        ensures
            r == deposit_single_spec(
                *fees,
                source_amount as int,
                swap_token_a_amount as int,
                swap_token_b_amount as int,
                pool_supply as int,
                trade_direction,
            ),
    {
        if source_amount == 0 {
            return Some(0);
        }
        let half = {
            let h = source_amount / 2;
            if h == 0 {
                1
            } else {
                h
            }
        };
        let trade_fee = match fees.trading_fee(half) {
            Some(v) => v,
            None => {
                return None;
            },
        };
        let owner_fee = match fees.owner_trading_fee(half) {
            Some(v) => v,
            None => {
                return None;
            },
        };
        let total_fees = match trade_fee.checked_add(owner_fee) {
            Some(v) => v,
            None => {
                return None;
            },
        };
        let amount = match source_amount.checked_sub(total_fees) {
            Some(v) => v,
            None => {
                return None;
            },
        };
        let swap_source_amount = match trade_direction {
            TradeDirection::AtoB => swap_token_a_amount,
            TradeDirection::BtoA => swap_token_b_amount,
        };
        cp_deposit_single(amount, swap_source_amount, pool_supply)
    }

    /// Converts a one-sided exact withdrawal into the pool shares to burn.
    pub fn withdraw_single_token_type_exact_out(
        &self,
        source_amount: u128,
        swap_token_a_amount: u128,
        swap_token_b_amount: u128,
        pool_supply: u128,
        trade_direction: TradeDirection,
        fees: &Fees,
    ) -> (r: Option<u128>)
        ensures
            r == withdraw_single_spec(
                *fees,
                source_amount as int,
                swap_token_a_amount as int,
                swap_token_b_amount as int,
                pool_supply as int,
                trade_direction,
            ),
    {
        if source_amount == 0 {
            return Some(0);
        }
        let grown = match source_amount.checked_add(1) {
            Some(v) => v,
            None => {
                return None;
            },
        };
        let half = grown / 2;
        let trade_fee = match fees.trading_fee(half) {
            Some(v) => v,
            None => {
                return None;
            },
        };
        let owner_fee = match fees.owner_trading_fee(half) {
            Some(v) => v,
            None => {
                return None;
            },
        };
        let total_fees = match trade_fee.checked_add(owner_fee) {
            Some(v) => v,
            None => {
                return None;
            },
        };
        let amount = match source_amount.checked_add(total_fees) {
            Some(v) => v,
            None => {
                return None;
            },
        };
        let swap_source_amount = match trade_direction {
            TradeDirection::AtoB => swap_token_a_amount,
            TradeDirection::BtoA => swap_token_b_amount,
        };
        cp_withdraw_single(amount, swap_source_amount, pool_supply)
    }

    /// Curve-specific parameter checks, run once at initialization. The
    /// constant product has no parameters to reject.
    pub fn validate(&self) -> (r: Result<(), SwapError>)
        ensures
            r is Ok,
    {
        Ok(())
    }

    /// Both reserves must be funded before a pool can open.
    pub fn validate_supply(&self, token_a_amount: u64, token_b_amount: u64) -> (r: Result<
        (),
        SwapError,
    >)
        ensures
            r is Ok <==> (token_a_amount > 0 && token_b_amount > 0),
            r is Err ==> r == Err::<(), SwapError>(SwapError::EmptySupply),
    {
        if token_a_amount == 0 {
            return Err(SwapError::EmptySupply);
        }
        if token_b_amount == 0 {
            return Err(SwapError::EmptySupply);
        }
        Ok(())
    }

    /// The pool-share supply created by the first deposit.
    pub fn new_pool_supply(&self) -> (r: u128)
        ensures
            r == INITIAL_SWAP_POOL_AMOUNT,
    {
        INITIAL_SWAP_POOL_AMOUNT
    }

    /// Whether the curve accepts deposits at all; the constant product does.
    pub fn allows_deposits(&self) -> (r: bool)
        ensures
            r,
    {
        true
    }
}

/// The 33-byte packed form of a curve: the variant tag, then its 32-byte
/// parameter block, all zero for the constant product.
pub open spec fn curve_bytes(c: SwapCurve) -> Seq<u8> {
    Seq::new(33, |i: int| 0u8)
}

impl SwapCurve {
    /// Appends the 33-byte packed form.
    pub fn pack_into(&self, dst: &mut Vec<u8>)
        ensures
            final(dst)@ == old(dst)@ + curve_bytes(*self),
    {
        let mut i: usize = 0;
        while i < 33
            invariant
                i <= 33,
                dst@ == old(dst)@ + Seq::new(i as nat, |j: int| 0u8),
            decreases 33 - i,
        {
            dst.push(0u8);
            proof {
                assert(dst@ =~= old(dst)@ + Seq::new((i + 1) as nat, |j: int| 0u8));
            }
            i = i + 1;
        }
        proof {
            assert(dst@ =~= old(dst)@ + curve_bytes(*self));
        }
    }

    /// Reads the 33-byte packed form at `off`. An unknown variant tag is
    /// refused; the parameter block of the constant product is ignored.
    pub fn unpack_at(src: &[u8], off: usize) -> (r: Result<SwapCurve, SwapError>)
        requires
            off + 33 <= src@.len(),
        ensures
            src@[off as int] == 0 ==> r == Ok::<SwapCurve, SwapError>(
                SwapCurve { curve_type: CurveType::ConstantProduct },
            ),
            src@[off as int] != 0 ==> r == Err::<SwapCurve, SwapError>(
                SwapError::UnsupportedCurveType,
            ),
    {
        let tag = src[off];
        if tag == 0 {
            Ok(SwapCurve { curve_type: CurveType::ConstantProduct })
        } else {
            Err(SwapError::UnsupportedCurveType)
        }
    }
}

/// Invariant non-decrease through a full swap with fees: the product of
/// the reserves never shrinks, and the fees only push it further up.
pub proof fn lemma_curve_swap_invariant_nondecrease(fees: Fees, src: int, rs: int, rd: int)
    requires
        0 <= src,
        0 <= rs,
        0 <= rd,
        curve_swap_spec(fees, src, rs, rd) is Some,
    ensures
        ({
            let r = curve_swap_spec(fees, src, rs, rd).unwrap();
            r.new_swap_source_amount * r.new_swap_destination_amount >= rs * rd
        }),
{
    let tf_r = fee_result(src, fees.trade_fee_numerator as int, fees.trade_fee_denominator as int);
    let of_r = fee_result(
        src,
        fees.owner_trade_fee_numerator as int,
        fees.owner_trade_fee_denominator as int,
    );
    let tf = tf_r.unwrap() as int;
    let of = of_r.unwrap() as int;
    let less = src - tf - of;
    lemma_swap_invariant_nondecrease(less, rs, rd);
    lemma_swap_source_bounded(less, rs, rd);
    let r = curve_swap_spec(fees, src, rs, rd).unwrap();
    let ns = cp_new_source(less, rs, rd);
    let q = cp_new_destination(less, rs, rd);
    assert(rs >= 1 && rd >= 1) by (nonlinear_arith)
        requires
            0 < rs + less <= rs * rd,
            rs >= 0,
            rd >= 0,
    ;
    assert(rd <= u128::MAX) by (nonlinear_arith)
        requires
            rs >= 1,
            rd >= 0,
            rs * rd <= u128::MAX,
    ;
    assert(r.new_swap_source_amount == ns + tf + of);
    assert(r.new_swap_destination_amount == q);
    assert(ns * q >= rs * rd) by (nonlinear_arith)
        requires
            (rs + (ns - rs)) * (rd - (rd - q)) >= rs * rd,
    ;
    assert((ns + tf + of) * q >= ns * q) by (nonlinear_arith)
        requires
            tf >= 0,
            of >= 0,
            q >= 0,
            ns >= 0,
    ;
}

/// Conservation through a deposit-then-withdraw of the same nominal share
/// amount with no intervening trade: when the proportions divide evenly,
/// the returned amounts equal the deposited amounts minus exactly the
/// value of the declared withdraw fee at the pre-deposit rate. Rounding
/// residues are the only other way value can stay behind, and the
/// divisibility premises rule them out.
pub proof fn lemma_deposit_withdraw_conservation(p: int, f: int, t: int, a: int, b: int)
    requires
        t > 0,
        p > 0,
        0 <= f <= p,
        a >= 0,
        b >= 0,
        (p * a) % t == 0,
        (p * b) % t == 0,
        (f * a) % t == 0,
        (f * b) % t == 0,
    ensures
        ({
            let a_in = ptt_rounded(p, t, a, RoundDirection::Ceiling);
            let b_in = ptt_rounded(p, t, b, RoundDirection::Ceiling);
            let a_out = ptt_rounded(p - f, t + p, a + a_in, RoundDirection::Floor);
            let b_out = ptt_rounded(p - f, t + p, b + b_in, RoundDirection::Floor);
            &&& a_out == a_in - (f * a) / t
            &&& b_out == b_in - (f * b) / t
        }),
{
    lemma_conservation_side(p, f, t, a);
    lemma_conservation_side(p, f, t, b);
}

proof fn lemma_conservation_side(p: int, f: int, t: int, a: int)
    requires
        t > 0,
        p > 0,
        0 <= f <= p,
        a >= 0,
        (p * a) % t == 0,
        (f * a) % t == 0,
    ensures
        ({
            let a_in = ptt_rounded(p, t, a, RoundDirection::Ceiling);
            let a_out = ptt_rounded(p - f, t + p, a + a_in, RoundDirection::Floor);
            a_out == a_in - (f * a) / t
        }),
{
    let a_in = ptt_rounded(p, t, a, RoundDirection::Ceiling);
    vstd::arithmetic::div_mod::lemma_fundamental_div_mod(p * a, t);
    assert(a_in == (p * a) / t);
    let q = (p * a) / t;
    assert(p * a == t * q);
    // The grown reserve is the old reserve scaled by (t + p) / t.
    assert((a + q) * t == a * (t + p)) by (nonlinear_arith)
        requires
            p * a == t * q,
    ;
    // The withdrawn numerator is an exact multiple of the new supply.
    let w = (p - f) * (a + q);
    vstd::arithmetic::div_mod::lemma_fundamental_div_mod(f * a, t);
    let fa = (f * a) / t;
    let pa_f = q - fa;
    assert(f * a == t * fa);
    assert(t * (fa * p) == t * (f * q)) by (nonlinear_arith)
        requires
            f * a == t * fa,
            p * a == t * q,
    ;
    assert(fa * p == f * q) by (nonlinear_arith)
        requires
            t > 0,
            t * (fa * p) == t * (f * q),
    ;
    assert(w == pa_f * (t + p)) by (nonlinear_arith)
        requires
            p * a == t * q,
            f * a == t * fa,
            fa * p == f * q,
            pa_f == q - fa,
            w == (p - f) * (a + q),
    ;
    assert(t + p > 0);
    vstd::arithmetic::div_mod::lemma_div_multiples_vanish(pa_f, t + p);
    assert((pa_f * (t + p)) / (t + p) == pa_f);
    assert(w % (t + p) == 0) by {
        vstd::arithmetic::div_mod::lemma_fundamental_div_mod(w, t + p);
        vstd::arithmetic::div_mod::lemma_fundamental_div_mod_converse(w, t + p, pa_f, 0);
    }
    assert(ptt_rounded(p - f, t + p, a + q, RoundDirection::Floor) == w / (t + p));
}


} // verus!
