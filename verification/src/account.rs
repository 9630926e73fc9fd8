//! What the engine reads of the external token ledger: plain records of
//! token accounts and mints, handed in by the host that performed the
//! reads, and the checks the engine makes before trusting them.

use crate::error::SwapError;
use crate::keys::Key;
use vstd::prelude::*;

verus! {

/// An asset-level transfer fee that the ledger itself deducts on
/// transfers, already resolved for the current epoch.
#[derive(Clone, Copy, Debug, PartialEq, Eq, Structural)]
pub struct TransferFee {
    /// Fee in hundredths of a percent of the transferred amount.
    pub basis_points: u16,
    /// The fee never exceeds this amount.
    pub maximum_fee: u64,
}

/// What the engine reads of one token account.
#[derive(Clone, Copy, Debug, PartialEq)]
pub struct TokenAccountView {
    pub mint: Key,
    pub owner: Key,
    pub amount: u64,
    pub has_delegate: bool,
    pub has_close_authority: bool,
}

/// What the engine reads of one mint.
#[derive(Clone, Copy, Debug, PartialEq)]
pub struct MintView {
    pub supply: u64,
    pub decimals: u8,
    pub mint_authority: Option<Key>,
    pub has_freeze_authority: bool,
    pub has_close_authority: bool,
    /// The transfer-fee schedule of the asset, where it carries one.
    pub transfer_fee: Option<TransferFee>,
}

/// A token-account reference from the caller's account list: its address,
/// the program owning it on the ledger, and its content where it parses.
#[derive(Clone, Copy, Debug, PartialEq)]
pub struct AccountReading {
    pub key: Key,
    pub owner_program: Key,
    pub token: Option<TokenAccountView>,
}

/// A mint reference from the caller's account list.
#[derive(Clone, Copy, Debug, PartialEq)]
pub struct MintReading {
    pub key: Key,
    pub owner_program: Key,
    pub mint: Option<MintView>,
}

/// Whether a key is one of the recognized token-ledger programs.
pub open spec fn recognized_contains(ks: Seq<Key>, k: Key) -> bool {
    exists|i: int| 0 <= i < ks.len() && ks[i]@ == k@
}

/// The owning program of an account is acceptable when it is the pool's
/// ledger program or any recognized one.
pub open spec fn owner_program_ok(owner_program: Key, token_program_id: Key, recognized: Seq<Key>) -> bool {
    owner_program@ == token_program_id@ || recognized_contains(recognized, owner_program)
}

/// What unpacking a token account yields: the program-ownership check,
/// then the parse.
pub open spec fn token_account_unpack_spec(
    a: AccountReading,
    token_program_id: Key,
    recognized: Seq<Key>,
) -> Result<TokenAccountView, SwapError> {
    if !owner_program_ok(a.owner_program, token_program_id, recognized) {
        Err(SwapError::IncorrectTokenProgramId)
    } else {
        match a.token {
            Some(t) => Ok(t),
            None => Err(SwapError::ExpectedAccount),
        }
    }
}

/// What unpacking a mint yields.
pub open spec fn mint_unpack_spec(m: MintReading, token_program_id: Key, recognized: Seq<Key>) -> Result<
    MintView,
    SwapError,
> {
    if !owner_program_ok(m.owner_program, token_program_id, recognized) {
        Err(SwapError::IncorrectTokenProgramId)
    } else {
        match m.mint {
            Some(v) => Ok(v),
            None => Err(SwapError::ExpectedMint),
        }
    }
}

fn key_in(ks: &Vec<Key>, k: &Key) -> (r: bool)
    ensures
        r == recognized_contains(ks@, *k),
{
    let mut i: usize = 0;
    while i < ks.len()
        invariant
            i <= ks@.len(),
            forall|j: int| 0 <= j < i ==> #[trigger] ks@[j]@ != k@,
        decreases ks@.len() - i,
    {
        if ks[i] == *k {
            return true;
        }
        i = i + 1;
    }
    false
}

/// Accepts a token account only when a recognized ledger program owns it
/// and it parses; the checks every operation makes before trusting one.
pub fn unpack_token_account(
    a: &AccountReading,
    token_program_id: &Key,
    recognized: &Vec<Key>,
) -> (r: Result<TokenAccountView, SwapError>)
    ensures
        r == token_account_unpack_spec(*a, *token_program_id, recognized@),
{
    if !(a.owner_program == *token_program_id || key_in(recognized, &a.owner_program)) {
        Err(SwapError::IncorrectTokenProgramId)
    } else {
        match a.token {
            Some(t) => Ok(t),
            None => Err(SwapError::ExpectedAccount),
        }
    }
}

/// Accepts a mint under the same ownership rule.
pub fn unpack_mint(m: &MintReading, token_program_id: &Key, recognized: &Vec<Key>) -> (r: Result<
    MintView,
    SwapError,
>)
    ensures
        r == mint_unpack_spec(*m, *token_program_id, recognized@),
{
    if !(m.owner_program == *token_program_id || key_in(recognized, &m.owner_program)) {
        Err(SwapError::IncorrectTokenProgramId)
    } else {
        match m.mint {
            Some(v) => Ok(v),
            None => Err(SwapError::ExpectedMint),
        }
    }
}

/// One call the engine instructs the host to make on the token ledger.
/// The calls of one operation are performed in order, each authorized by
/// the named authority and signed with the pool's seeds.
#[derive(Clone, Copy, Debug, PartialEq)]
pub enum LedgerAction {
    Transfer {
        token_program: Key,
        source: Key,
        mint: Key,
        destination: Key,
        authority: Key,
        amount: u64,
        decimals: u8,
    },
    MintTo { token_program: Key, mint: Key, destination: Key, authority: Key, amount: u64 },
    Burn { token_program: Key, source: Key, mint: Key, authority: Key, amount: u64 },
}

} // verus!
