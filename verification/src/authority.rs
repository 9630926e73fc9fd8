//! Derivation and verification of a program's signing identity: a
//! non-keyed identity computed from a 32-byte seed (a pool address, an
//! auction seller), a bump seed, and the program identity. Only the
//! program can sign ledger calls as that identity, so holding it at the
//! ledger level is what makes an account custodial.

use crate::error::SwapError;
use crate::keys::Key;
use vstd::prelude::*;

verus! {

/// The identity the host derives from a seed, a bump seed and a program
/// identity, where it accepts that bump; `None` where it rejects it. The
/// derivation is deterministic, so the same three inputs always name the
/// same identity.
pub uninterp spec fn derived_authority(seed: Seq<u8>, bump: u8, program: Seq<u8>) -> Option<
    Seq<u8>,
>;

/// Relies on `Pubkey::create_program_address` with the seeds
/// `[seed, [bump]]`: its result is a function of those inputs alone —
/// a hash that is either off the signing curve (an identity with no
/// private key) or rejected for this bump. It never panics for two seeds
/// of 32 and 1 bytes.
#[verifier::external_body]
fn derive_raw_authority(seed: &Key, bump: u8, program: &Key) -> (r: Option<Key>)
    ensures
        match r {
            Some(k) => derived_authority(seed@, bump, program@) == Some(k@),
            None => derived_authority(seed@, bump, program@) is None,
        },
{
    let program_key = solana_program::pubkey::Pubkey::new_from_array(program.bytes);
    let bump_bytes = [bump];
    let seeds: &[&[u8]] = &[&seed.bytes, &bump_bytes];
    match solana_program::pubkey::Pubkey::create_program_address(seeds, &program_key) {
        Ok(addr) => Some(Key { bytes: addr.to_bytes() }),
        Err(_) => None,
    }
}

/// The canonical bump of a seed: the largest bump the derivation accepts.
pub open spec fn canonical_bump(seed: Seq<u8>, program: Seq<u8>, bump: u8) -> bool {
    &&& derived_authority(seed, bump, program) is Some
    &&& forall|b2: u8| b2 > bump ==> derived_authority(seed, b2, program) is None
}

/// Finds the derived authority of a seed: tries bump seeds from the
/// largest down and returns the first accepted derivation with its bump.
/// `None` only in the statistically improbable event that every bump is
/// rejected.
pub fn find_authority(seed: &Key, program: &Key) -> (r: Option<(Key, u8)>)
    ensures
        r matches Some(p) ==> canonical_bump(seed@, program@, p.1) && derived_authority(
            seed@,
            p.1,
            program@,
        ) == Some(p.0@),
        r is None ==> forall|b: u8| derived_authority(seed@, b, program@) is None,
{
    let mut i: u16 = 256;
    while i > 0
        invariant
            i <= 256,
            forall|b2: u8| b2 as int >= i as int ==> derived_authority(seed@, b2, program@) is None,
        decreases i,
    {
        i = i - 1;
        let b = i as u8;
        match derive_raw_authority(seed, b, program) {
            Some(k) => {
                return Some((k, b));
            },
            None => {},
        }
    }
    None
}

/// Re-derives the pool authority from the stored bump seed, as every
/// operation after initialization must before trusting a caller-supplied
/// authority account.
pub fn authority_id(program_id: &Key, my_info: &Key, bump_seed: u8) -> (r: Result<Key, SwapError>)
    ensures
        match r {
            Ok(k) => derived_authority(my_info@, bump_seed, program_id@) == Some(k@),
            Err(e) => e == SwapError::InvalidProgramAddress && derived_authority(
                my_info@,
                bump_seed,
                program_id@,
            ) is None,
        },
{
    match derive_raw_authority(my_info, bump_seed, program_id) {
        Some(k) => Ok(k),
        None => Err(SwapError::InvalidProgramAddress),
    }
}

} // verus!
