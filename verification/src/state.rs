//! The persisted pool record: one fixed-size packed structure per pool,
//! written once by initialization and read by every later operation.

use crate::curve::{curve_bytes, CurveType, SwapCurve};
use crate::error::SwapError;
use crate::fees::{fees_bytes, fees_parsed, lemma_fees_roundtrip, Fees};
use crate::keys::{read_key, write_key, Key};
use vstd::prelude::*;

verus! {

/// The total packed length: a version byte followed by the record.
pub const STATE_PACKED_LEN: usize = 324;

/// One pool instance: its derivation nonce, the trusted token-ledger
/// program, the two custodial reserves, the traded mints, the pool-share
/// mint and fee collector, and the economic parameters.
#[derive(Clone, Copy, Debug, PartialEq)]
pub struct SwapV1 {
    /// One-shot latch: set by the only write this engine ever performs.
    pub is_initialized: bool,
    /// Nonce of the pool authority derivation.
    pub bump_seed: u8,
    /// The external ledger program trusted for all transfer, mint and burn
    /// calls of this pool.
    pub token_program_id: Key,
    /// Custodial reserve account of token A.
    pub token_a: Key,
    /// Custodial reserve account of token B.
    pub token_b: Key,
    /// Mint of the pool shares.
    pub pool_mint: Key,
    /// Mint of token A.
    pub token_a_mint: Key,
    /// Mint of token B.
    pub token_b_mint: Key,
    /// Account collecting owner fees, denominated in pool shares.
    pub pool_fee_account: Key,
    /// The fee schedule.
    pub fees: Fees,
    /// The trade curve.
    pub swap_curve: SwapCurve,
}

/// The packed form: version byte, latch, nonce, seven keys, the fee
/// schedule, and the curve block.
pub open spec fn state_bytes(s: SwapV1) -> Seq<u8> {
    seq![1u8, (if s.is_initialized { 1u8 } else { 0u8 }), s.bump_seed] + s.token_program_id@
        + s.token_a@ + s.token_b@ + s.pool_mint@ + s.token_a_mint@ + s.token_b_mint@
        + s.pool_fee_account@ + fees_bytes(s.fees) + curve_bytes(s.swap_curve)
}

/// A buffer that holds an initialized pool record this engine accepts.
pub open spec fn state_wf(b: Seq<u8>) -> bool {
    &&& b.len() == 324
    &&& b[0] == 1
    &&& b[1] == 1
    &&& b[291] == 0
}

impl SwapV1 {
    /// Packs the record. The version byte comes first, so a record written
    /// by a newer layout is never misread.
    pub fn pack(&self) -> (r: Vec<u8>)
        ensures
            r@ == state_bytes(*self),
            r@.len() == 324,
    {
        let mut out: Vec<u8> = Vec::new();
        out.push(1u8);
        if self.is_initialized {
            out.push(1u8);
        } else {
            out.push(0u8);
        }
        out.push(self.bump_seed);
        proof {
            assert(out@ =~= seq![
                1u8,
                (if self.is_initialized {
                    1u8
                } else {
                    0u8
                }),
                self.bump_seed,
            ]);
        }
        write_key(&mut out, &self.token_program_id);
        write_key(&mut out, &self.token_a);
        write_key(&mut out, &self.token_b);
        write_key(&mut out, &self.pool_mint);
        write_key(&mut out, &self.token_a_mint);
        write_key(&mut out, &self.token_b_mint);
        write_key(&mut out, &self.pool_fee_account);
        self.fees.pack_into(&mut out);
        self.swap_curve.pack_into(&mut out);
        proof {
            crate::fees::lemma_fees_len(self.fees);
            assert(out@ =~= state_bytes(*self));
        }
        out
    }

    /// Reads a packed record. Only an initialized record of the current
    /// version with a known curve is accepted: everything else is a state
    /// error, so no later operation can run against a half-made pool.
    pub fn unpack(src: &[u8]) -> (r: Result<SwapV1, SwapError>)
        ensures
            r is Ok <==> state_wf(src@),
            r matches Ok(s) ==> ({
                &&& s.is_initialized == true
                &&& s.bump_seed == src@[2]
                &&& s.token_program_id@ == src@.subrange(3, 35)
                &&& s.token_a@ == src@.subrange(35, 67)
                &&& s.token_b@ == src@.subrange(67, 99)
                &&& s.pool_mint@ == src@.subrange(99, 131)
                &&& s.token_a_mint@ == src@.subrange(131, 163)
                &&& s.token_b_mint@ == src@.subrange(163, 195)
                &&& s.pool_fee_account@ == src@.subrange(195, 227)
                &&& s.fees == fees_parsed(src@, 227)
                &&& s.swap_curve == SwapCurve { curve_type: CurveType::ConstantProduct }
            }),
            r is Err ==> (r == Err::<SwapV1, SwapError>(SwapError::InvalidState) || r
                == Err::<SwapV1, SwapError>(SwapError::UnsupportedCurveType)),
            (src@.len() == 324 && src@[0] == 1 && src@[1] == 1 && src@[291] != 0) ==> r
                == Err::<SwapV1, SwapError>(SwapError::UnsupportedCurveType),
    {
        if src.len() != 324 {
            return Err(SwapError::InvalidState);
        }
        if src[0] != 1 {
            return Err(SwapError::InvalidState);
        }
        if src[1] != 1 {
            return Err(SwapError::InvalidState);
        }
        let swap_curve = match SwapCurve::unpack_at(src, 291) {
            Ok(c) => c,
            Err(e) => {
                return Err(e);
            },
        };
        let fees = Fees::unpack_at(src, 227);
        Ok(
            SwapV1 {
                is_initialized: true,
                bump_seed: src[2],
                token_program_id: read_key(src, 3),
                token_a: read_key(src, 35),
                token_b: read_key(src, 67),
                pool_mint: read_key(src, 99),
                token_a_mint: read_key(src, 131),
                token_b_mint: read_key(src, 163),
                pool_fee_account: read_key(src, 195),
                fees,
                swap_curve,
            },
        )
    }

    /// Whether a buffer already holds an initialized pool record: the test
    /// initialization uses as its one-shot latch.
    pub fn is_initialized_bytes(src: &[u8]) -> (r: bool)
        ensures
            r == state_wf(src@),
    {
        if src.len() != 324 {
            return false;
        }
        if src[0] != 1 {
            return false;
        }
        if src[1] != 1 {
            return false;
        }
        if src[291] != 0 {
            return false;
        }
        true
    }
}

/// Unpacking a packed record restores it field for field: the persisted
/// layout loses nothing.
pub proof fn lemma_state_roundtrip(s: SwapV1)
    requires
        s.is_initialized,
        s.swap_curve == (SwapCurve { curve_type: CurveType::ConstantProduct }),
    ensures
        state_wf(state_bytes(s)),
        state_bytes(s)[2] == s.bump_seed,
        state_bytes(s).subrange(3, 35) == s.token_program_id@,
        state_bytes(s).subrange(35, 67) == s.token_a@,
        state_bytes(s).subrange(67, 99) == s.token_b@,
        state_bytes(s).subrange(99, 131) == s.pool_mint@,
        state_bytes(s).subrange(131, 163) == s.token_a_mint@,
        state_bytes(s).subrange(163, 195) == s.token_b_mint@,
        state_bytes(s).subrange(195, 227) == s.pool_fee_account@,
        fees_parsed(state_bytes(s), 227) == s.fees,
{
    let b = state_bytes(s);
    crate::fees::lemma_fees_len(s.fees);
    assert(b.len() == 324);
    assert(b.subrange(3, 35) =~= s.token_program_id@);
    assert(b.subrange(35, 67) =~= s.token_a@);
    assert(b.subrange(67, 99) =~= s.token_b@);
    assert(b.subrange(99, 131) =~= s.pool_mint@);
    assert(b.subrange(131, 163) =~= s.token_a_mint@);
    assert(b.subrange(163, 195) =~= s.token_b_mint@);
    assert(b.subrange(195, 227) =~= s.pool_fee_account@);
    assert(b.subrange(227, 291) =~= fees_bytes(s.fees));
    lemma_fees_roundtrip(s.fees, b, 227);
}

/// The one-shot latch: a record that a successful initialization packed is
/// recognized as initialized, so a second initialization of the same pool
/// account is always refused as already in use.
pub proof fn lemma_initialize_latch(s: SwapV1)
    requires
        s.is_initialized,
        s.swap_curve == (SwapCurve { curve_type: CurveType::ConstantProduct }),
    ensures
        state_wf(state_bytes(s)),
{
    lemma_state_roundtrip(s);
}


} // verus!
