//! A visit counter kept in a four-byte account record: the simplest record
//! this crate packs, and the program logic that bumps it.

use crate::bytes::{le_bytes, le_value, lemma_le_roundtrip, lemma_le_value_bound,
    lemma_pow256_values, read_u32_le, write_u32_le};
use crate::keys::Key;
use vstd::prelude::*;

verus! {

/// The record: how many times the account has called the program.
#[derive(Clone, Copy, Debug, PartialEq, Eq, Structural)]
pub struct GreetingAccount {
    pub counter: u32,
}

/// The errors of the counter program.
#[derive(Clone, Copy, Debug, PartialEq, Eq, Structural)]
pub enum GreetingError {
    /// The account is not owned by this program.
    IncorrectProgramId,
    /// The account record is not a four-byte counter.
    InvalidAccountData,
}

/// The packed form: the counter, little endian.
pub open spec fn greeting_bytes(g: GreetingAccount) -> Seq<u8> {
    le_bytes(g.counter as int, 4)
}

impl GreetingAccount {
    /// Reads the record; exactly four bytes hold one.
    pub fn unpack(src: &[u8]) -> (r: Result<GreetingAccount, GreetingError>)
        ensures
            src@.len() == 4 ==> (r matches Ok(g) && g.counter as int == le_value(src@, 0, 4)),
            src@.len() != 4 ==> r == Err::<GreetingAccount, GreetingError>(
                GreetingError::InvalidAccountData,
            ),
    {
        if src.len() != 4 {
            return Err(GreetingError::InvalidAccountData);
        }
        proof {
            lemma_pow256_values();
            lemma_le_value_bound(src@, 0, 4);
        }
        Ok(GreetingAccount { counter: read_u32_le(src, 0) })
    }

    /// Writes the record.
    pub fn pack(&self) -> (r: Vec<u8>)
        ensures
            r@ == greeting_bytes(*self),
    {
        let mut out: Vec<u8> = Vec::new();
        write_u32_le(&mut out, self.counter);
        proof {
            assert(out@ =~= greeting_bytes(*self));
        }
        out
    }
}

/// Reading a packed counter restores it.
pub proof fn lemma_greeting_roundtrip(g: GreetingAccount)
    ensures
        le_value(greeting_bytes(g), 0, 4) == g.counter,
        greeting_bytes(g).len() == 4,
{
    lemma_pow256_values();
    lemma_le_roundtrip(g.counter as int, 4);
    crate::bytes::lemma_le_bytes_len(g.counter as int, 4);
}

/// One visit: the account must belong to this program, its record must
/// parse, and the counter grows by one, wrapping at the limit as the
/// stored width forces.
pub fn process_instruction(program_id: &Key, account_owner: &Key, account_data: &mut Vec<u8>) -> (r:
    Result<u32, GreetingError>)
    ensures
        account_owner@ != program_id@ ==> r == Err::<u32, GreetingError>(
            GreetingError::IncorrectProgramId,
        ) && final(account_data)@ == old(account_data)@,
        (account_owner@ == program_id@ && old(account_data)@.len() != 4) ==> r == Err::<
            u32,
            GreetingError,
        >(GreetingError::InvalidAccountData) && final(account_data)@ == old(account_data)@,
        (account_owner@ == program_id@ && old(account_data)@.len() == 4) ==> (r matches Ok(c) && {
            &&& c as int == (le_value(old(account_data)@, 0, 4) + 1) % 0x1_0000_0000
            &&& final(account_data)@ == le_bytes(c as int, 4)
        }),
{
    if !(*account_owner == *program_id) {
        return Err(GreetingError::IncorrectProgramId);
    }
    let greeting = match GreetingAccount::unpack(account_data.as_slice()) {
        Ok(g) => g,
        Err(e) => {
            return Err(e);
        },
    };
    proof {
        lemma_pow256_values();
        lemma_le_value_bound(old(account_data)@, 0, 4);
    }
    let bumped: u32 = if greeting.counter == u32::MAX {
        0
    } else {
        greeting.counter + 1
    };
    let updated = GreetingAccount { counter: bumped };
    let packed = updated.pack();
    account_data.clear();
    let mut i: usize = 0;
    while i < packed.len()
        invariant
            i <= packed@.len(),
            account_data@ == packed@.take(i as int),
        decreases packed@.len() - i,
    {
        account_data.push(packed[i]);
        proof {
            assert(account_data@ =~= packed@.take((i + 1) as int));
        }
        i = i + 1;
    }
    proof {
        assert(packed@.take(packed@.len() as int) =~= packed@);
    }
    Ok(bumped)
}

} // verus!
