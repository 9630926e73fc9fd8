//! The wire encoding of the six opcodes: a tag byte followed by
//! little-endian fields. Decoding is specified exactly by `parse_instruction`
//! and packing by `instruction_bytes`; the round trip is proved.

use crate::bytes::{le_bytes, le_value, lemma_le_bytes_len, lemma_le_roundtrip,
    lemma_le_value_agree, lemma_le_value_bound, lemma_pow256_values, read_u64_le, write_u64_le};
use crate::curve::{curve_bytes, CurveType, SwapCurve};
use crate::error::SwapError;
use crate::fees::{fees_bytes, fees_parsed, lemma_fees_len, lemma_fees_roundtrip, Fees};
use vstd::prelude::*;

verus! {

/// Opens a pool: the fee schedule and the curve it will trade on.
#[derive(Clone, Copy, Debug, PartialEq)]
pub struct Initialize {
    pub fees: Fees,
    pub swap_curve: SwapCurve,
}

/// Trades an exact input for at least the declared minimum output.
#[derive(Clone, Copy, Debug, PartialEq, Eq, Structural)]
pub struct Swap {
    pub amount_in: u64,
    pub minimum_amount_out: u64,
}

/// Buys an exact pool-share amount for at most the declared inputs.
#[derive(Clone, Copy, Debug, PartialEq, Eq, Structural)]
pub struct DepositAllTokenTypes {
    pub pool_token_amount: u64,
    pub maximum_token_a_amount: u64,
    pub maximum_token_b_amount: u64,
}

/// Redeems an exact pool-share amount for at least the declared outputs.
#[derive(Clone, Copy, Debug, PartialEq, Eq, Structural)]
pub struct WithdrawAllTokenTypes {
    pub pool_token_amount: u64,
    pub minimum_token_a_amount: u64,
    pub minimum_token_b_amount: u64,
}

/// Deposits an exact amount of one token for at least the declared shares.
#[derive(Clone, Copy, Debug, PartialEq, Eq, Structural)]
pub struct DepositSingleTokenTypeExactAmountIn {
    pub source_token_amount: u64,
    pub minimum_pool_token_amount: u64,
}

/// Withdraws an exact amount of one token for at most the declared shares.
#[derive(Clone, Copy, Debug, PartialEq, Eq, Structural)]
pub struct WithdrawSingleTokenTypeExactAmountOut {
    pub destination_token_amount: u64,
    pub maximum_pool_token_amount: u64,
}

/// One decoded opcode with its payload.
#[derive(Clone, Copy, Debug, PartialEq)]
pub enum SwapInstruction {
    Initialize(Initialize),
    Swap(Swap),
    DepositAllTokenTypes(DepositAllTokenTypes),
    WithdrawAllTokenTypes(WithdrawAllTokenTypes),
    DepositSingleTokenTypeExactAmountIn(DepositSingleTokenTypeExactAmountIn),
    WithdrawSingleTokenTypeExactAmountOut(WithdrawSingleTokenTypeExactAmountOut),
}

/// The canonical encoding of an opcode.
pub open spec fn instruction_bytes(i: SwapInstruction) -> Seq<u8> {
    match i {
        SwapInstruction::Initialize(x) => seq![0u8] + fees_bytes(x.fees) + curve_bytes(
            x.swap_curve,
        ),
        SwapInstruction::Swap(x) => seq![1u8] + le_bytes(x.amount_in as int, 8) + le_bytes(
            x.minimum_amount_out as int,
            8,
        ),
        SwapInstruction::DepositAllTokenTypes(x) => seq![2u8] + le_bytes(
            x.pool_token_amount as int,
            8,
        ) + le_bytes(x.maximum_token_a_amount as int, 8) + le_bytes(
            x.maximum_token_b_amount as int,
            8,
        ),
        SwapInstruction::WithdrawAllTokenTypes(x) => seq![3u8] + le_bytes(
            x.pool_token_amount as int,
            8,
        ) + le_bytes(x.minimum_token_a_amount as int, 8) + le_bytes(
            x.minimum_token_b_amount as int,
            8,
        ),
        SwapInstruction::DepositSingleTokenTypeExactAmountIn(x) => seq![4u8] + le_bytes(
            x.source_token_amount as int,
            8,
        ) + le_bytes(x.minimum_pool_token_amount as int, 8),
        SwapInstruction::WithdrawSingleTokenTypeExactAmountOut(x) => seq![5u8] + le_bytes(
            x.destination_token_amount as int,
            8,
        ) + le_bytes(x.maximum_pool_token_amount as int, 8),
    }
}

/// What decoding a payload yields: the tag selects the opcode, each opcode
/// demands its exact fields, and trailing bytes are tolerated as the wire
/// contract allows.
pub open spec fn parse_instruction(b: Seq<u8>) -> Result<SwapInstruction, SwapError> {
    if b.len() < 1 {
        Err(SwapError::InvalidInstruction)
    } else if b[0] == 0 {
        if b.len() < 98 {
            Err(SwapError::InvalidInstruction)
        } else if b[65] != 0 {
            Err(SwapError::UnsupportedCurveType)
        } else {
            Ok(
                SwapInstruction::Initialize(
                    Initialize {
                        fees: fees_parsed(b, 1),
                        swap_curve: SwapCurve { curve_type: CurveType::ConstantProduct },
                    },
                ),
            )
        }
    } else if b[0] == 1 {
        if b.len() < 17 {
            Err(SwapError::InvalidInstruction)
        } else {
            Ok(
                SwapInstruction::Swap(
                    Swap {
                        amount_in: le_value(b, 1, 8) as u64,
                        minimum_amount_out: le_value(b, 9, 8) as u64,
                    },
                ),
            )
        }
    } else if b[0] == 2 {
        if b.len() < 25 {
            Err(SwapError::InvalidInstruction)
        } else {
            Ok(
                SwapInstruction::DepositAllTokenTypes(
                    DepositAllTokenTypes {
                        pool_token_amount: le_value(b, 1, 8) as u64,
                        maximum_token_a_amount: le_value(b, 9, 8) as u64,
                        maximum_token_b_amount: le_value(b, 17, 8) as u64,
                    },
                ),
            )
        }
    } else if b[0] == 3 {
        if b.len() < 25 {
            Err(SwapError::InvalidInstruction)
        } else {
            Ok(
                SwapInstruction::WithdrawAllTokenTypes(
                    WithdrawAllTokenTypes {
                        pool_token_amount: le_value(b, 1, 8) as u64,
                        minimum_token_a_amount: le_value(b, 9, 8) as u64,
                        minimum_token_b_amount: le_value(b, 17, 8) as u64,
                    },
                ),
            )
        }
    } else if b[0] == 4 {
        if b.len() < 17 {
            Err(SwapError::InvalidInstruction)
        } else {
            Ok(
                SwapInstruction::DepositSingleTokenTypeExactAmountIn(
                    DepositSingleTokenTypeExactAmountIn {
                        source_token_amount: le_value(b, 1, 8) as u64,
                        minimum_pool_token_amount: le_value(b, 9, 8) as u64,
                    },
                ),
            )
        }
    } else if b[0] == 5 {
        if b.len() < 17 {
            Err(SwapError::InvalidInstruction)
        } else {
            Ok(
                SwapInstruction::WithdrawSingleTokenTypeExactAmountOut(
                    WithdrawSingleTokenTypeExactAmountOut {
                        destination_token_amount: le_value(b, 1, 8) as u64,
                        maximum_pool_token_amount: le_value(b, 9, 8) as u64,
                    },
                ),
            )
        }
    } else {
        Err(SwapError::InvalidInstruction)
    }
}

impl SwapInstruction {
    /// Decodes an opcode payload.
    pub fn unpack(input: &[u8]) -> (r: Result<SwapInstruction, SwapError>)
        ensures
            r == parse_instruction(input@),
    {
        let len = input.len();
        if len < 1 {
            return Err(SwapError::InvalidInstruction);
        }
        proof {
            lemma_pow256_values();
            lemma_le_value_bound(input@, 1, 8);
            lemma_le_value_bound(input@, 9, 8);
            lemma_le_value_bound(input@, 17, 8);
        }
        let tag = input[0];
        if tag == 0 {
            if len < 98 {
                return Err(SwapError::InvalidInstruction);
            }
            let swap_curve = match SwapCurve::unpack_at(input, 65) {
                Ok(c) => c,
                Err(e) => {
                    return Err(e);
                },
            };
            let fees = Fees::unpack_at(input, 1);
            Ok(SwapInstruction::Initialize(Initialize { fees, swap_curve }))
        } else if tag == 1 {
            if len < 17 {
                return Err(SwapError::InvalidInstruction);
            }
            Ok(
                SwapInstruction::Swap(
                    Swap {
                        amount_in: read_u64_le(input, 1),
                        minimum_amount_out: read_u64_le(input, 9),
                    },
                ),
            )
        } else if tag == 2 {
            if len < 25 {
                return Err(SwapError::InvalidInstruction);
            }
            Ok(
                SwapInstruction::DepositAllTokenTypes(
                    DepositAllTokenTypes {
                        pool_token_amount: read_u64_le(input, 1),
                        maximum_token_a_amount: read_u64_le(input, 9),
                        maximum_token_b_amount: read_u64_le(input, 17),
                    },
                ),
            )
        } else if tag == 3 {
            if len < 25 {
                return Err(SwapError::InvalidInstruction);
            }
            Ok(
                SwapInstruction::WithdrawAllTokenTypes(
                    WithdrawAllTokenTypes {
                        pool_token_amount: read_u64_le(input, 1),
                        minimum_token_a_amount: read_u64_le(input, 9),
                        minimum_token_b_amount: read_u64_le(input, 17),
                    },
                ),
            )
        } else if tag == 4 {
            if len < 17 {
                return Err(SwapError::InvalidInstruction);
            }
            Ok(
                SwapInstruction::DepositSingleTokenTypeExactAmountIn(
                    DepositSingleTokenTypeExactAmountIn {
                        source_token_amount: read_u64_le(input, 1),
                        minimum_pool_token_amount: read_u64_le(input, 9),
                    },
                ),
            )
        } else if tag == 5 {
            if len < 17 {
                return Err(SwapError::InvalidInstruction);
            }
            Ok(
                SwapInstruction::WithdrawSingleTokenTypeExactAmountOut(
                    WithdrawSingleTokenTypeExactAmountOut {
                        destination_token_amount: read_u64_le(input, 1),
                        maximum_pool_token_amount: read_u64_le(input, 9),
                    },
                ),
            )
        } else {
            Err(SwapError::InvalidInstruction)
        }
    }

    /// Encodes the opcode canonically.
    pub fn pack(&self) -> (r: Vec<u8>)
        ensures
            r@ == instruction_bytes(*self),
    {
        let mut buf: Vec<u8> = Vec::new();
        match self {
            SwapInstruction::Initialize(x) => {
                buf.push(0);
                x.fees.pack_into(&mut buf);
                x.swap_curve.pack_into(&mut buf);
            },
            SwapInstruction::Swap(x) => {
                buf.push(1);
                write_u64_le(&mut buf, x.amount_in);
                write_u64_le(&mut buf, x.minimum_amount_out);
            },
            SwapInstruction::DepositAllTokenTypes(x) => {
                buf.push(2);
                write_u64_le(&mut buf, x.pool_token_amount);
                write_u64_le(&mut buf, x.maximum_token_a_amount);
                write_u64_le(&mut buf, x.maximum_token_b_amount);
            },
            SwapInstruction::WithdrawAllTokenTypes(x) => {
                buf.push(3);
                write_u64_le(&mut buf, x.pool_token_amount);
                write_u64_le(&mut buf, x.minimum_token_a_amount);
                write_u64_le(&mut buf, x.minimum_token_b_amount);
            },
            SwapInstruction::DepositSingleTokenTypeExactAmountIn(x) => {
                buf.push(4);
                write_u64_le(&mut buf, x.source_token_amount);
                write_u64_le(&mut buf, x.minimum_pool_token_amount);
            },
            SwapInstruction::WithdrawSingleTokenTypeExactAmountOut(x) => {
                buf.push(5);
                write_u64_le(&mut buf, x.destination_token_amount);
                write_u64_le(&mut buf, x.maximum_pool_token_amount);
            },
        }
        proof {
            assert(buf@ =~= instruction_bytes(*self));
        }
        buf
    }
}

/// Decoding a canonical encoding yields the opcode back: nothing on the
/// wire is ambiguous.
pub proof fn lemma_instruction_roundtrip(i: SwapInstruction)
    requires
        (i matches SwapInstruction::Initialize(x) ==> x.swap_curve == (SwapCurve {
            curve_type: CurveType::ConstantProduct,
        })),
    ensures
        parse_instruction(instruction_bytes(i)) matches Ok(j) && eq_instruction(i, j),
{
    let b = instruction_bytes(i);
    lemma_pow256_values();
    match i {
        SwapInstruction::Initialize(x) => {
            lemma_fees_len(x.fees);
            assert(b.len() == 98);
            assert(b[0] == 0);
            assert(b[65] == 0);
            assert(b.subrange(1, 65) =~= fees_bytes(x.fees));
            lemma_fees_roundtrip(x.fees, b, 1);
        },
        SwapInstruction::Swap(x) => {
            lemma_le_bytes_len(x.amount_in as int, 8);
            lemma_le_bytes_len(x.minimum_amount_out as int, 8);
            assert(b.subrange(1, 9) =~= le_bytes(x.amount_in as int, 8));
            assert(b.subrange(9, 17) =~= le_bytes(x.minimum_amount_out as int, 8));
            lemma_two_u64_fields(b, x.amount_in, x.minimum_amount_out);
        },
        SwapInstruction::DepositAllTokenTypes(x) => {
            lemma_le_bytes_len(x.pool_token_amount as int, 8);
            lemma_le_bytes_len(x.maximum_token_a_amount as int, 8);
            lemma_le_bytes_len(x.maximum_token_b_amount as int, 8);
            assert(b.subrange(1, 9) =~= le_bytes(x.pool_token_amount as int, 8));
            assert(b.subrange(9, 17) =~= le_bytes(x.maximum_token_a_amount as int, 8));
            assert(b.subrange(17, 25) =~= le_bytes(x.maximum_token_b_amount as int, 8));
            lemma_three_u64_fields(
                b,
                x.pool_token_amount,
                x.maximum_token_a_amount,
                x.maximum_token_b_amount,
            );
        },
        SwapInstruction::WithdrawAllTokenTypes(x) => {
            lemma_le_bytes_len(x.pool_token_amount as int, 8);
            lemma_le_bytes_len(x.minimum_token_a_amount as int, 8);
            lemma_le_bytes_len(x.minimum_token_b_amount as int, 8);
            assert(b.subrange(1, 9) =~= le_bytes(x.pool_token_amount as int, 8));
            assert(b.subrange(9, 17) =~= le_bytes(x.minimum_token_a_amount as int, 8));
            assert(b.subrange(17, 25) =~= le_bytes(x.minimum_token_b_amount as int, 8));
            lemma_three_u64_fields(
                b,
                x.pool_token_amount,
                x.minimum_token_a_amount,
                x.minimum_token_b_amount,
            );
        },
        SwapInstruction::DepositSingleTokenTypeExactAmountIn(x) => {
            lemma_le_bytes_len(x.source_token_amount as int, 8);
            lemma_le_bytes_len(x.minimum_pool_token_amount as int, 8);
            assert(b.subrange(1, 9) =~= le_bytes(x.source_token_amount as int, 8));
            assert(b.subrange(9, 17) =~= le_bytes(x.minimum_pool_token_amount as int, 8));
            lemma_two_u64_fields(b, x.source_token_amount, x.minimum_pool_token_amount);
        },
        SwapInstruction::WithdrawSingleTokenTypeExactAmountOut(x) => {
            lemma_le_bytes_len(x.destination_token_amount as int, 8);
            lemma_le_bytes_len(x.maximum_pool_token_amount as int, 8);
            assert(b.subrange(1, 9) =~= le_bytes(x.destination_token_amount as int, 8));
            assert(b.subrange(9, 17) =~= le_bytes(x.maximum_pool_token_amount as int, 8));
            lemma_two_u64_fields(b, x.destination_token_amount, x.maximum_pool_token_amount);
        },
    }
}

/// Structural equality of two decoded opcodes, spelled out because the
/// payload structs carry no spec-level equality of their own.
pub open spec fn eq_instruction(i: SwapInstruction, j: SwapInstruction) -> bool {
    match (i, j) {
        (SwapInstruction::Initialize(x), SwapInstruction::Initialize(y)) => x.fees == y.fees
            && x.swap_curve == y.swap_curve,
        (SwapInstruction::Swap(x), SwapInstruction::Swap(y)) => x == y,
        (
            SwapInstruction::DepositAllTokenTypes(x),
            SwapInstruction::DepositAllTokenTypes(y),
        ) => x == y,
        (
            SwapInstruction::WithdrawAllTokenTypes(x),
            SwapInstruction::WithdrawAllTokenTypes(y),
        ) => x == y,
        (
            SwapInstruction::DepositSingleTokenTypeExactAmountIn(x),
            SwapInstruction::DepositSingleTokenTypeExactAmountIn(y),
        ) => x == y,
        (
            SwapInstruction::WithdrawSingleTokenTypeExactAmountOut(x),
            SwapInstruction::WithdrawSingleTokenTypeExactAmountOut(y),
        ) => x == y,
        _ => false,
    }
}

/// A tag byte followed by two little-endian fields reads back correctly.
proof fn lemma_two_u64_fields(b: Seq<u8>, v1: u64, v2: u64)
    requires
        b.len() >= 17,
        b.subrange(1, 9) == le_bytes(v1 as int, 8),
        b.subrange(9, 17) == le_bytes(v2 as int, 8),
    ensures
        le_value(b, 1, 8) == v1,
        le_value(b, 9, 8) == v2,
{
    lemma_pow256_values();
    lemma_le_bytes_len(v1 as int, 8);
    lemma_le_bytes_len(v2 as int, 8);
    let e1 = le_bytes(v1 as int, 8);
    let e2 = le_bytes(v2 as int, 8);
    assert forall|j: int| 0 <= j < 8 implies #[trigger] b[1 + j] == e1[j] by {
        assert(b.subrange(1, 9)[j] == b[1 + j]);
    }
    assert forall|j: int| 0 <= j < 8 implies #[trigger] b[9 + j] == e2[j] by {
        assert(b.subrange(9, 17)[j] == b[9 + j]);
    }
    lemma_le_value_agree(b, e1, 1, 0, 8);
    lemma_le_value_agree(b, e2, 9, 0, 8);
    lemma_le_roundtrip(v1 as int, 8);
    lemma_le_roundtrip(v2 as int, 8);
}

/// A tag byte followed by three little-endian fields reads back correctly.
proof fn lemma_three_u64_fields(b: Seq<u8>, v1: u64, v2: u64, v3: u64)
    requires
        b.len() >= 25,
        b.subrange(1, 9) == le_bytes(v1 as int, 8),
        b.subrange(9, 17) == le_bytes(v2 as int, 8),
        b.subrange(17, 25) == le_bytes(v3 as int, 8),
    ensures
        le_value(b, 1, 8) == v1,
        le_value(b, 9, 8) == v2,
        le_value(b, 17, 8) == v3,
{
    lemma_two_u64_fields(b, v1, v2);
    lemma_pow256_values();
    lemma_le_bytes_len(v3 as int, 8);
    let e3 = le_bytes(v3 as int, 8);
    assert forall|j: int| 0 <= j < 8 implies #[trigger] b[17 + j] == e3[j] by {
        assert(b.subrange(17, 25)[j] == b[17 + j]);
    }
    lemma_le_value_agree(b, e3, 17, 0, 8);
    lemma_le_roundtrip(v3 as int, 8);
}

} // verus!
