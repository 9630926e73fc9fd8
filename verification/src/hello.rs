//! The message board: a tag byte selecting a store, an erase, or a query
//! on the wire, with the stored text carried as UTF-8 after the tag, and
//! the fixed 289-byte record the board keeps per account.

use crate::keys::{read_key, write_key, Key};
use vstd::prelude::*;

verus! {

/// The errors of the message-board program.
#[derive(Clone, Copy, Debug, PartialEq, Eq, Structural)]
pub enum HelloWorldError {
    /// The payload decodes to no opcode, or its text is not UTF-8.
    InvalidInstruction,
}

/// What decoding a byte sequence as UTF-8 yields: the text, or a rejection
/// of an ill-formed sequence. A function of the bytes alone.
pub uninterp spec fn utf8_decode(bytes: Seq<u8>) -> Option<Seq<char>>;

/// Relies on `core::str::from_utf8`: the decoded text is a function of the
/// bytes alone, and ill-formed UTF-8 is rejected.
#[verifier::external_body]
fn bytes_to_string(bytes: &[u8]) -> (r: Option<String>)
    ensures
        match r {
            Some(s) => utf8_decode(bytes@) == Some(s@),
            None => utf8_decode(bytes@) is None,
        },
{
    match core::str::from_utf8(bytes) {
        Ok(s) => Some(s.to_string()),
        Err(_) => None,
    }
}

/// Relies on `str::as_bytes`: the UTF-8 form of a string decodes back to
/// the same text.
#[verifier::external_body]
fn string_to_bytes(s: &String) -> (r: Vec<u8>)
    ensures
        utf8_decode(r@) == Some(s@),
{
    s.as_bytes().to_vec()
}

/// One decoded opcode.
#[derive(Clone, Debug, PartialEq)]
pub enum HelloWorldInstruction {
    /// Store the message.
    Hello { message: String },
    /// Drain the record account, erasing the stored message.
    Erase,
    /// Read the stored message back.
    Query,
}

impl HelloWorldInstruction {
    /// Decodes an opcode payload. Text that is not UTF-8 is refused, never
    /// stored.
    pub fn unpack(input: &[u8]) -> (r: Result<HelloWorldInstruction, HelloWorldError>)
        ensures
            input@.len() == 0 ==> r is Err,
            (input@.len() >= 1 && input@[0] == 0) ==> (match utf8_decode(input@.skip(1)) {
                Some(m) => (r matches Ok(i) && i matches HelloWorldInstruction::Hello { message }
                    && message@ == m),
                None => r is Err,
            }),
            (input@.len() >= 1 && input@[0] == 1) ==> (r matches Ok(i) && i
                matches HelloWorldInstruction::Erase),
            (input@.len() >= 1 && input@[0] == 2) ==> (r matches Ok(i) && i
                matches HelloWorldInstruction::Query),
            (input@.len() >= 1 && input@[0] > 2) ==> r is Err,
            r is Err ==> r == Err::<HelloWorldInstruction, HelloWorldError>(
                HelloWorldError::InvalidInstruction,
            ),
    {
        let len = input.len();
        if len < 1 {
            return Err(HelloWorldError::InvalidInstruction);
        }
        let tag = input[0];
        if tag == 0 {
            let mut rest: Vec<u8> = Vec::new();
            let mut i: usize = 1;
            while i < len
                invariant
                    1 <= i <= len == input@.len(),
                    rest@ == input@.subrange(1, i as int),
                decreases len - i,
            {
                rest.push(input[i]);
                proof {
                    assert(rest@ =~= input@.subrange(1, (i + 1) as int));
                }
                i = i + 1;
            }
            proof {
                assert(input@.subrange(1, len as int) =~= input@.skip(1));
            }
            match bytes_to_string(rest.as_slice()) {
                Some(message) => Ok(HelloWorldInstruction::Hello { message }),
                None => Err(HelloWorldError::InvalidInstruction),
            }
        } else if tag == 1 {
            Ok(HelloWorldInstruction::Erase)
        } else if tag == 2 {
            Ok(HelloWorldInstruction::Query)
        } else {
            Err(HelloWorldError::InvalidInstruction)
        }
    }

    /// Encodes the opcode: the tag byte, then for a store the UTF-8 text,
    /// which decodes back to the same message.
    pub fn pack(&self) -> (r: Vec<u8>)
        ensures
            r@.len() >= 1,
            (self matches HelloWorldInstruction::Hello { message } ==> r@[0] == 0 && utf8_decode(
                r@.skip(1),
            ) == Some(message@)),
            (self matches HelloWorldInstruction::Erase ==> r@ =~= seq![1u8]),
            (self matches HelloWorldInstruction::Query ==> r@ =~= seq![2u8]),
    {
        let mut buf: Vec<u8> = Vec::new();
        match self {
            HelloWorldInstruction::Hello { message } => {
                buf.push(0);
                let body = string_to_bytes(message);
                let mut i: usize = 0;
                while i < body.len()
                    invariant
                        i <= body@.len(),
                        buf@ == seq![0u8] + body@.take(i as int),
                    decreases body@.len() - i,
                {
                    buf.push(body[i]);
                    proof {
                        assert(buf@ =~= seq![0u8] + body@.take((i + 1) as int));
                    }
                    i = i + 1;
                }
                proof {
                    assert(body@.take(body@.len() as int) =~= body@);
                    assert(buf@.skip(1) =~= body@);
                }
            },
            HelloWorldInstruction::Erase => {
                buf.push(1);
            },
            HelloWorldInstruction::Query => {
                buf.push(2);
            },
        }
        buf
    }
}

/// The errors of the message-board handlers.
#[derive(Clone, Copy, Debug, PartialEq, Eq, Structural)]
pub enum HelloProcessorError {
    /// The writing account did not sign the invocation.
    MissingRequiredSignature,
    /// The record has the wrong size.
    InvalidAccountData,
}

/// One stored message: who wrote it and its UTF-8 bytes. The wire opcode
/// validates the text before it gets here, so the record holds bytes.
#[derive(Clone, Debug, PartialEq)]
pub struct HelloWorldState {
    pub account_key: Key,
    pub message: Vec<u8>,
}

/// The 289-byte packed form: the writer's key, a length byte, and a
/// 256-byte message area, zero-padded past the message.
pub open spec fn hello_state_bytes(s: HelloWorldState) -> Seq<u8> {
    s.account_key@ + seq![s.message@.len() as u8] + s.message@ + Seq::new(
        (256 - s.message@.len()) as nat,
        |i: int| 0u8,
    )
}

impl HelloWorldState {
    /// Writes the record. The message area holds at most 255 bytes, as
    /// the length byte forces.
    pub fn pack(&self) -> (r: Vec<u8>)
        requires
            self.message@.len() <= 255,
        ensures
            r@ == hello_state_bytes(*self),
            r@.len() == 289,
    {
        let mut out: Vec<u8> = Vec::new();
        write_key(&mut out, &self.account_key);
        out.push(self.message.len() as u8);
        let mut i: usize = 0;
        while i < self.message.len()
            invariant
                i <= self.message@.len() <= 255,
                out@ == self.account_key@ + seq![self.message@.len() as u8] + self.message@.take(
                    i as int,
                ),
            decreases self.message@.len() - i,
        {
            out.push(self.message[i]);
            proof {
                assert(out@ =~= self.account_key@ + seq![self.message@.len() as u8]
                    + self.message@.take((i + 1) as int));
            }
            i = i + 1;
        }
        proof {
            assert(self.message@.take(self.message@.len() as int) =~= self.message@);
        }
        let pad = 256 - self.message.len();
        let mut j: usize = 0;
        while j < pad
            invariant
                j <= pad == 256 - self.message@.len(),
                out@ == self.account_key@ + seq![self.message@.len() as u8] + self.message@
                    + Seq::new(j as nat, |i: int| 0u8),
            decreases pad - j,
        {
            out.push(0u8);
            proof {
                assert(out@ =~= self.account_key@ + seq![self.message@.len() as u8]
                    + self.message@ + Seq::new((j + 1) as nat, |i: int| 0u8));
            }
            j = j + 1;
        }
        proof {
            assert(out@ =~= hello_state_bytes(*self));
        }
        out
    }

    /// Reads the record: the key, then as many message bytes as the
    /// length byte names.
    pub fn unpack_from_slice(src: &[u8]) -> (r: Result<HelloWorldState, HelloProcessorError>)
        ensures
            src@.len() != 289 ==> r == Err::<HelloWorldState, HelloProcessorError>(
                HelloProcessorError::InvalidAccountData,
            ),
            src@.len() == 289 ==> (r matches Ok(s) && {
                &&& s.account_key@ == src@.subrange(0, 32)
                &&& s.message@ == src@.subrange(33, 33 + src@[32] as int)
            }),
    {
        if src.len() != 289 {
            return Err(HelloProcessorError::InvalidAccountData);
        }
        let account_key = read_key(src, 0);
        let len = src[32] as usize;
        let mut message: Vec<u8> = Vec::new();
        let mut i: usize = 0;
        while i < len
            invariant
                i <= len <= 255,
                src@.len() == 289,
                message@ == src@.subrange(33, 33 + i as int),
            decreases len - i,
        {
            message.push(src[33 + i]);
            proof {
                assert(message@ =~= src@.subrange(33, 33 + (i + 1) as int));
            }
            i = i + 1;
        }
        Ok(HelloWorldState { account_key, message })
    }
}

/// Reading a packed record restores it field for field.
pub proof fn lemma_hello_state_roundtrip(s: HelloWorldState)
    requires
        s.message@.len() <= 255,
    ensures
        hello_state_bytes(s).len() == 289,
        hello_state_bytes(s).subrange(0, 32) == s.account_key@,
        hello_state_bytes(s)[32] == s.message@.len() as u8,
        hello_state_bytes(s).subrange(33, 33 + s.message@.len() as int) == s.message@,
{
    let b = hello_state_bytes(s);
    assert(b.subrange(0, 32) =~= s.account_key@);
    assert(b.subrange(33, 33 + s.message@.len() as int) =~= s.message@);
}

/// Stores a message: the writer must have signed, and the record then
/// names the writer and carries the message.
pub fn processor_hello(
    client_key: &Key,
    client_is_signer: bool,
    message: Vec<u8>,
) -> (r: Result<HelloWorldState, HelloProcessorError>)
    requires
        message@.len() <= 255,
    ensures
        !client_is_signer ==> r == Err::<HelloWorldState, HelloProcessorError>(
            HelloProcessorError::MissingRequiredSignature,
        ),
        client_is_signer ==> (r matches Ok(s) && s.account_key@ == client_key@ && s.message@
            == message@),
{
    if !client_is_signer {
        return Err(HelloProcessorError::MissingRequiredSignature);
    }
    Ok(HelloWorldState { account_key: *client_key, message })
}

/// Erases a record by draining its rent balance: the whole balance of the
/// record account moves to the signing client, wrapping as the ledger's
/// balance arithmetic does, and the record account is left at zero so the
/// host reclaims it.
pub fn processor_erase(
    client_is_signer: bool,
    client_lamports: u64,
    message_lamports: u64,
) -> (r: Result<(u64, u64), HelloProcessorError>)
    ensures
        !client_is_signer ==> r == Err::<(u64, u64), HelloProcessorError>(
            HelloProcessorError::MissingRequiredSignature,
        ),
        client_is_signer ==> r == Ok::<(u64, u64), HelloProcessorError>(
            (
                ((client_lamports + message_lamports) % 0x1_0000_0000_0000_0000) as u64,
                0u64,
            ),
        ),
{
    if !client_is_signer {
        return Err(HelloProcessorError::MissingRequiredSignature);
    }
    let total = client_lamports.wrapping_add(message_lamports);
    Ok((total, 0))
}


} // verus!
