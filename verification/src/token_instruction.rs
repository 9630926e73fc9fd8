//! Small wire-level helpers of the token-ledger interface that callers of
//! this crate share: the authority kinds a `SetAuthority` call can name,
//! and the bound on multisignature signer indexes.

use vstd::prelude::*;

verus! {

/// The fewest signers a multisignature account can require.
pub const MIN_SIGNERS: usize = 1;

/// The most signers a multisignature account can hold.
pub const MAX_SIGNERS: usize = 11;

/// Whether a signer index lies in the multisignature range.
pub fn is_valid_signer_index(index: usize) -> (r: bool)
    ensures
        r == (MIN_SIGNERS <= index <= MAX_SIGNERS),
{
    MIN_SIGNERS <= index && index <= MAX_SIGNERS
}

/// The errors of decoding a token-ledger authority kind.
#[derive(Clone, Copy, Debug, PartialEq, Eq, Structural)]
pub enum TokenInstructionError {
    /// The byte names no authority kind.
    InvalidInstruction,
}

/// The authority kinds a `SetAuthority` call can change.
#[derive(Clone, Copy, Debug, PartialEq, Eq, Structural)]
pub enum AuthorityType {
    /// Authority to mint new tokens.
    MintTokens,
    /// Authority to freeze any account associated with the mint.
    FreezeAccount,
    /// Owner of a given token account.
    AccountOwner,
    /// Authority to close a token account.
    CloseAccount,
}

/// The wire byte of each authority kind.
pub open spec fn authority_type_byte(t: AuthorityType) -> u8 {
    match t {
        AuthorityType::MintTokens => 0,
        AuthorityType::FreezeAccount => 1,
        AuthorityType::AccountOwner => 2,
        AuthorityType::CloseAccount => 3,
    }
}

impl AuthorityType {
    /// Encodes the kind as its wire byte.
    pub fn into(&self) -> (r: u8)
        ensures
            r == authority_type_byte(*self),
    {
        match self {
            AuthorityType::MintTokens => 0,
            AuthorityType::FreezeAccount => 1,
            AuthorityType::AccountOwner => 2,
            AuthorityType::CloseAccount => 3,
        }
    }

    /// Decodes a wire byte; exactly the four kinds are accepted.
    pub fn from(index: u8) -> (r: Result<AuthorityType, TokenInstructionError>)
        ensures
            index <= 3 ==> (r matches Ok(t) && authority_type_byte(t) == index),
            index > 3 ==> r == Err::<AuthorityType, TokenInstructionError>(
                TokenInstructionError::InvalidInstruction,
            ),
    {
        match index {
            0 => Ok(AuthorityType::MintTokens),
            1 => Ok(AuthorityType::FreezeAccount),
            2 => Ok(AuthorityType::AccountOwner),
            3 => Ok(AuthorityType::CloseAccount),
            _ => Err(TokenInstructionError::InvalidInstruction),
        }
    }
}

} // verus!
