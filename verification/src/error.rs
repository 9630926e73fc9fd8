//! Errors surfaced by the exchange engine. Every error is fatal to the
//! invocation that raised it: nothing is retried and nothing is partially
//! applied.

use vstd::prelude::*;

verus! {

/// The reasons an operation on a pool can be refused.
#[derive(Clone, Copy, Debug, PartialEq, Eq, Structural)]
pub enum SwapError {
    /// The pool account already carries an initialized pool record.
    AlreadyInUse,
    /// The supplied authority does not match the derivation from the pool
    /// address and the stored bump seed, or the derivation itself fails.
    InvalidProgramAddress,
    /// An account that must be owned by the pool authority is not.
    InvalidOwner,
    /// An account that must not be owned by the pool authority is.
    InvalidOutputOwner,
    /// A mint account could not be read.
    ExpectedMint,
    /// A token account could not be read.
    ExpectedAccount,
    /// A reserve is empty where the curve requires both to be funded.
    EmptySupply,
    /// The pool-share mint has a nonzero supply before initialization.
    InvalidSupply,
    /// A reserve account carries a delegate.
    InvalidDelegate,
    /// The pool record bytes do not hold a valid pool record.
    InvalidState,
    /// A self-trade, or an account standing on both sides of a transfer.
    InvalidInput,
    /// A supplied reserve account does not match the pool record.
    IncorrectSwapAccount,
    /// The supplied pool-share mint does not match the pool record.
    IncorrectPoolMint,
    /// A computed amount overflows or a checked operation fails.
    CalculationFailure,
    /// The instruction bytes do not decode to any opcode.
    InvalidInstruction,
    /// The two traded mints are the same.
    RepeatedMint,
    /// A caller-declared bound on amounts in or out was violated.
    ExceededSlippage,
    /// An involved account carries a close authority.
    InvalidCloseAuthority,
    /// The pool-share mint carries a freeze authority.
    InvalidFreezeAuthority,
    /// The supplied fee-collector account does not match the pool record.
    IncorrectFeeAccount,
    /// An account is not owned by a recognized token-ledger program.
    IncorrectTokenProgramId,
    /// The curve selector byte names no supported curve.
    UnsupportedCurveType,
    /// A fee numerator exceeds its denominator.
    InvalidFee,
    /// A fee computation fails.
    FeeCalculationFailure,
    /// A computed trade or share amount is exactly zero.
    ZeroTradingTokens,
    /// The selected curve does not support the requested operation.
    UnsupportedCurveOperation,
    /// A narrowing conversion between integer widths fails.
    ConversionFailure,
    /// The pool account is not owned by this program.
    IncorrectProgramId,
}

} // verus!
