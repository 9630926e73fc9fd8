//! The fee schedule of a pool: pure fractions over trade and share amounts.
//! Amounts move, fees are computed; nothing in here holds state.

use crate::bytes::{le_bytes, le_value, lemma_le_bytes_len, lemma_le_roundtrip,
    lemma_le_value_agree, lemma_pow256_values, read_u64_le, write_u64_le};
use crate::error::SwapError;
use crate::math::{calculate_fee, fee_result};
use vstd::prelude::*;

verus! {

/// The fee parameters of one pool, each a numerator/denominator pair.
///
/// - the trading fee stays in the reserves and accrues to all share holders;
/// - the owner trading fee is minted as pool shares to the fee collector;
/// - the owner withdraw fee is retained from withdrawn pool shares;
/// - the host fee carves a share of the owner trading fee out for a caller-
///   supplied host account.
#[derive(Clone, Copy, Debug, PartialEq, Eq, Structural)]
pub struct Fees {
    pub trade_fee_numerator: u64,
    pub trade_fee_denominator: u64,
    pub owner_trade_fee_numerator: u64,
    pub owner_trade_fee_denominator: u64,
    pub owner_withdraw_fee_numerator: u64,
    pub owner_withdraw_fee_denominator: u64,
    pub host_fee_numerator: u64,
    pub host_fee_denominator: u64,
}

/// The 64-byte packed form: the eight ratio fields, little endian, in
/// declaration order.
pub open spec fn fees_bytes(f: Fees) -> Seq<u8> {
    le_bytes(f.trade_fee_numerator as int, 8) + le_bytes(f.trade_fee_denominator as int, 8)
        + le_bytes(f.owner_trade_fee_numerator as int, 8) + le_bytes(
        f.owner_trade_fee_denominator as int,
        8,
    ) + le_bytes(f.owner_withdraw_fee_numerator as int, 8) + le_bytes(
        f.owner_withdraw_fee_denominator as int,
        8,
    ) + le_bytes(f.host_fee_numerator as int, 8) + le_bytes(f.host_fee_denominator as int, 8)
}

/// The eight fields of `f`, as read back from a buffer that holds
/// `fees_bytes(f)` at `off`.
pub open spec fn fees_parsed(b: Seq<u8>, off: int) -> Fees {
    Fees {
        trade_fee_numerator: le_value(b, off, 8) as u64,
        trade_fee_denominator: le_value(b, off + 8, 8) as u64,
        owner_trade_fee_numerator: le_value(b, off + 16, 8) as u64,
        owner_trade_fee_denominator: le_value(b, off + 24, 8) as u64,
        owner_withdraw_fee_numerator: le_value(b, off + 32, 8) as u64,
        owner_withdraw_fee_denominator: le_value(b, off + 40, 8) as u64,
        host_fee_numerator: le_value(b, off + 48, 8) as u64,
        host_fee_denominator: le_value(b, off + 56, 8) as u64,
    }
}

impl Fees {
    /// A fraction is usable as a fee when it does not exceed one.
    pub open spec fn fraction_valid(num: u64, den: u64) -> bool {
        num <= den
    }

    /// All four fee fractions are usable.
    pub open spec fn is_valid(self) -> bool {
        &&& Self::fraction_valid(self.trade_fee_numerator, self.trade_fee_denominator)
        &&& Self::fraction_valid(self.owner_trade_fee_numerator, self.owner_trade_fee_denominator)
        &&& Self::fraction_valid(
            self.owner_withdraw_fee_numerator,
            self.owner_withdraw_fee_denominator,
        )
        &&& Self::fraction_valid(self.host_fee_numerator, self.host_fee_denominator)
    }

    /// Checks every fraction; run once, at pool initialization.
    pub fn validate(&self) -> (r: Result<(), SwapError>)
        ensures
            r is Ok <==> self.is_valid(),
            !self.is_valid() ==> r == Err::<(), SwapError>(SwapError::InvalidFee),
    {
        if self.trade_fee_numerator > self.trade_fee_denominator
            || self.owner_trade_fee_numerator > self.owner_trade_fee_denominator
            || self.owner_withdraw_fee_numerator > self.owner_withdraw_fee_denominator
            || self.host_fee_numerator > self.host_fee_denominator {
            Err(SwapError::InvalidFee)
        } else {
            Ok(())
        }
    }

    /// The fee the pool keeps from the input leg of a swap.
    pub fn trading_fee(&self, trading_tokens: u128) -> (r: Option<u128>)
        ensures
            r == fee_result(
                trading_tokens as int,
                self.trade_fee_numerator as int,
                self.trade_fee_denominator as int,
            ),
    {
        calculate_fee(
            trading_tokens,
            self.trade_fee_numerator as u128,
            self.trade_fee_denominator as u128,
        )
    }

    /// The fee minted as pool shares to the fee collector for a swap.
    pub fn owner_trading_fee(&self, trading_tokens: u128) -> (r: Option<u128>)
        ensures
            r == fee_result(
                trading_tokens as int,
                self.owner_trade_fee_numerator as int,
                self.owner_trade_fee_denominator as int,
            ),
    {
        calculate_fee(
            trading_tokens,
            self.owner_trade_fee_numerator as u128,
            self.owner_trade_fee_denominator as u128,
        )
    }

    /// The fee retained from a withdrawal, in pool shares.
    pub fn owner_withdraw_fee(&self, pool_tokens: u128) -> (r: Option<u128>)
        ensures
            r == fee_result(
                pool_tokens as int,
                self.owner_withdraw_fee_numerator as int,
                self.owner_withdraw_fee_denominator as int,
            ),
    {
        calculate_fee(
            pool_tokens,
            self.owner_withdraw_fee_numerator as u128,
            self.owner_withdraw_fee_denominator as u128,
        )
    }

    /// The share of the owner trading fee owed to a host account.
    pub fn host_fee(&self, pool_tokens: u128) -> (r: Option<u128>)
        ensures
            r == fee_result(
                pool_tokens as int,
                self.host_fee_numerator as int,
                self.host_fee_denominator as int,
            ),
    {
        calculate_fee(pool_tokens, self.host_fee_numerator as u128, self.host_fee_denominator as u128)
    }

    /// Appends the 64-byte packed form.
    pub fn pack_into(&self, dst: &mut Vec<u8>)
        ensures
            final(dst)@ == old(dst)@ + fees_bytes(*self),
    {
        write_u64_le(dst, self.trade_fee_numerator);
        write_u64_le(dst, self.trade_fee_denominator);
        write_u64_le(dst, self.owner_trade_fee_numerator);
        write_u64_le(dst, self.owner_trade_fee_denominator);
        write_u64_le(dst, self.owner_withdraw_fee_numerator);
        write_u64_le(dst, self.owner_withdraw_fee_denominator);
        write_u64_le(dst, self.host_fee_numerator);
        write_u64_le(dst, self.host_fee_denominator);
        proof {
            assert(dst@ =~= old(dst)@ + fees_bytes(*self));
        }
    }

    /// Reads the 64-byte packed form at `off`.
    pub fn unpack_at(src: &[u8], off: usize) -> (r: Fees)
        requires
            off + 64 <= src@.len(),
        ensures
            r == fees_parsed(src@, off as int),
    {
        let len = src.len();
        proof {
            assert(off + 64 <= len);
            lemma_pow256_values();
            crate::bytes::lemma_le_value_bound(src@, off as int, 8);
            crate::bytes::lemma_le_value_bound(src@, off as int + 8, 8);
            crate::bytes::lemma_le_value_bound(src@, off as int + 16, 8);
            crate::bytes::lemma_le_value_bound(src@, off as int + 24, 8);
            crate::bytes::lemma_le_value_bound(src@, off as int + 32, 8);
            crate::bytes::lemma_le_value_bound(src@, off as int + 40, 8);
            crate::bytes::lemma_le_value_bound(src@, off as int + 48, 8);
            crate::bytes::lemma_le_value_bound(src@, off as int + 56, 8);
        }
        Fees {
            trade_fee_numerator: read_u64_le(src, off),
            trade_fee_denominator: read_u64_le(src, off + 8),
            owner_trade_fee_numerator: read_u64_le(src, off + 16),
            owner_trade_fee_denominator: read_u64_le(src, off + 24),
            owner_withdraw_fee_numerator: read_u64_le(src, off + 32),
            owner_withdraw_fee_denominator: read_u64_le(src, off + 40),
            host_fee_numerator: read_u64_le(src, off + 48),
            host_fee_denominator: read_u64_le(src, off + 56),
        }
    }
}

/// The packed fee schedule is always 64 bytes.
pub proof fn lemma_fees_len(f: Fees)
    ensures
        fees_bytes(f).len() == 64,
{
    lemma_le_bytes_len(f.trade_fee_numerator as int, 8);
    lemma_le_bytes_len(f.trade_fee_denominator as int, 8);
    lemma_le_bytes_len(f.owner_trade_fee_numerator as int, 8);
    lemma_le_bytes_len(f.owner_trade_fee_denominator as int, 8);
    lemma_le_bytes_len(f.owner_withdraw_fee_numerator as int, 8);
    lemma_le_bytes_len(f.owner_withdraw_fee_denominator as int, 8);
    lemma_le_bytes_len(f.host_fee_numerator as int, 8);
    lemma_le_bytes_len(f.host_fee_denominator as int, 8);
}

/// Unpacking a packed fee schedule restores it field for field.
pub proof fn lemma_fees_roundtrip(f: Fees, b: Seq<u8>, off: int)
    requires
        off >= 0,
        off + 64 <= b.len(),
        b.subrange(off, off + 64) == fees_bytes(f),
    ensures
        fees_parsed(b, off) == f,
{
    lemma_pow256_values();
    let seg = b.subrange(off, off + 64);
    let fields: Seq<int> = seq![
        f.trade_fee_numerator as int,
        f.trade_fee_denominator as int,
        f.owner_trade_fee_numerator as int,
        f.owner_trade_fee_denominator as int,
        f.owner_withdraw_fee_numerator as int,
        f.owner_withdraw_fee_denominator as int,
        f.host_fee_numerator as int,
        f.host_fee_denominator as int,
    ];
    assert forall|k: int| 0 <= k < 8 implies le_value(b, off + 8 * k, 8) == #[trigger] fields[k] by {
        lemma_le_bytes_len(fields[0], 8);
        lemma_le_bytes_len(fields[1], 8);
        lemma_le_bytes_len(fields[2], 8);
        lemma_le_bytes_len(fields[3], 8);
        lemma_le_bytes_len(fields[4], 8);
        lemma_le_bytes_len(fields[5], 8);
        lemma_le_bytes_len(fields[6], 8);
        lemma_le_bytes_len(fields[7], 8);
        let enc = le_bytes(fields[k], 8);
        assert forall|j: int| 0 <= j < 8 implies #[trigger] b[off + 8 * k + j] == enc[j] by {
            assert(seg[8 * k + j] == b[off + 8 * k + j]);
            assert(seg[8 * k + j] == enc[j]);
        }
        lemma_le_value_agree(b, enc, off + 8 * k, 0, 8);
        lemma_le_roundtrip(fields[k], 8);
    }
    assert(le_value(b, off, 8) == fields[0]);
    assert(le_value(b, off + 8, 8) == fields[1]);
    assert(le_value(b, off + 16, 8) == fields[2]);
    assert(le_value(b, off + 24, 8) == fields[3]);
    assert(le_value(b, off + 32, 8) == fields[4]);
    assert(le_value(b, off + 40, 8) == fields[5]);
    assert(le_value(b, off + 48, 8) == fields[6]);
    assert(le_value(b, off + 56, 8) == fields[7]);
}

} // verus!
