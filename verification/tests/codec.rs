use solana_program::pubkey::Pubkey;
use std::str::FromStr;
use token_swap::auction::{Auction, AuctionError, AuctionInstruction};
use token_swap::curve::{CurveType, SwapCurve};
use token_swap::error::SwapError;
use token_swap::fees::Fees;
use token_swap::greeting::{process_instruction, GreetingAccount, GreetingError};
use token_swap::hello::{processor_erase, processor_hello, HelloProcessorError, HelloWorldError,
    HelloWorldInstruction, HelloWorldState};
use token_swap::instruction::{DepositAllTokenTypes, DepositSingleTokenTypeExactAmountIn,
    Initialize, Swap, SwapInstruction, WithdrawAllTokenTypes,
    WithdrawSingleTokenTypeExactAmountOut};
use token_swap::keys::Key;
use token_swap::state::SwapV1;
use token_swap::token_instruction::{is_valid_signer_index, AuthorityType, TokenInstructionError};

fn pk(s: &str) -> Key {
    Key::new(Pubkey::from_str(s).unwrap().to_bytes())
}

const AUCTION_DATA: [u8; 232] = [
    155, 223, 245, 186, 87, 123, 202, 87, 3, 244, 165, 72, 147, 80, 16, 41, 197, 14, 57, 96, 239,
    172, 90, 101, 168, 211, 132, 86, 70, 172, 14, 121, 37, 198, 132, 32, 63, 71, 81, 180, 24, 168,
    70, 238, 174, 211, 132, 126, 37, 33, 74, 50, 227, 200, 7, 48, 254, 34, 67, 22, 161, 74, 224,
    249, 222, 164, 160, 26, 92, 76, 214, 250, 120, 86, 178, 67, 175, 216, 46, 116, 249, 205, 211,
    136, 175, 117, 66, 172, 221, 213, 200, 61, 173, 67, 91, 37, 159, 113, 69, 97, 71, 173, 95,
    254, 20, 37, 26, 26, 210, 82, 18, 209, 68, 108, 167, 252, 243, 16, 244, 30, 114, 202, 132,
    223, 149, 107, 227, 21, 222, 33, 94, 41, 10, 10, 118, 49, 101, 52, 192, 78, 171, 210, 237,
    138, 151, 36, 123, 100, 14, 26, 162, 56, 124, 99, 177, 76, 51, 215, 112, 210, 213, 12, 76,
    221, 151, 56, 247, 250, 170, 122, 211, 60, 235, 243, 101, 71, 225, 0, 169, 229, 25, 3, 152,
    105, 127, 221, 19, 72, 200, 91, 152, 253, 191, 213, 97, 49, 159, 191, 3, 181, 236, 255, 53,
    161, 134, 235, 33, 246, 120, 249, 122, 239, 68, 147, 37, 246, 205, 227, 113, 119, 200, 114,
    234, 239, 50, 0, 0, 0, 0, 0, 0, 0,
];

fn sample_auction() -> Auction {
    Auction {
        seller: pk("BVUGLStgsasiAQHjT8tc2SJMUVgxpFopwchV9PeoBCkY"),
        item: pk("3YTeuJHrQt5e9ggtVE69kWP6f4rc8damLhfZ9yeBH7XN"),
        item_holder: pk("Fz774M8wRQAfHBFQvL1s32GnXPNsiV6LrA9ictCFwh5n"),
        currency: pk("BjQ15j2gyAFLBTDB1MDU6DCGWcwR4Y9PgDCycVygRfY8"),
        money_holder: pk("Fx728pgJGWqqdzjyCVN3ZdybMhrcAK5m4wxiKugmuDbo"),
        bidder: pk("FLeieTgGK8PMQ89n4NbtdQZJMm8vW98M6Q7hSfAzXy6U"),
        refund_address: pk("DuqatgVfG5qKZVtxaXCP4U5BRyPXM7w53DJjFmS1ZWAr"),
        price: 50,
    }
}

#[test]
fn unpack_auction() {
    let auction = Auction::unpack_from_slice(&AUCTION_DATA).unwrap();
    let expected_auction = sample_auction();
    assert_eq!(auction, expected_auction);
}

#[test]
fn pack_auction() {
    let auction = sample_auction();
    let mut data_dst = vec![0x00; 232];
    auction.pack_into_slice(&mut data_dst);
    let expected_data = AUCTION_DATA;
    assert_eq!(data_dst, expected_data.to_vec());
}

#[test]
fn auction_record_rejects_wrong_size() {
    assert_eq!(
        Auction::unpack_from_slice(&AUCTION_DATA[..231]),
        Err(AuctionError::InvalidInstructionData)
    );
}

#[test]
fn auction_instruction_round_trips() {
    let cases = vec![
        AuctionInstruction::CreateAuction { start_price: 917 },
        AuctionInstruction::Bidding { price: u64::MAX, decimals: 9 },
        AuctionInstruction::CloseAuction,
    ];
    for case in cases {
        let packed = case.pack();
        assert_eq!(AuctionInstruction::unpack(&packed), Ok(case));
    }
    assert_eq!(
        AuctionInstruction::unpack(&[]),
        Err(AuctionError::InvalidInstructionData)
    );
    assert_eq!(
        AuctionInstruction::unpack(&[0, 1, 2]),
        Err(AuctionError::InvalidInstructionData)
    );
    assert_eq!(
        AuctionInstruction::unpack(&[7]),
        Err(AuctionError::InvalidInstructionData)
    );
}

#[test]
fn auction_instruction_exact_bytes() {
    let packed = AuctionInstruction::CreateAuction { start_price: 513 }.pack();
    assert_eq!(packed, vec![0, 1, 2, 0, 0, 0, 0, 0, 0]);
    let packed = AuctionInstruction::Bidding { price: 5, decimals: 6 }.pack();
    assert_eq!(packed, vec![1, 5, 0, 0, 0, 0, 0, 0, 0, 6]);
    let packed = AuctionInstruction::CloseAuction.pack();
    assert_eq!(packed, vec![2]);
}

#[test]
fn test_sanity() {
    let program_id = Key::new([0u8; 32]);
    let owner = Key::new([0u8; 32]);
    let mut data = vec![0; 4];
    let counter = GreetingAccount::unpack(&data).unwrap().counter;
    assert_eq!(counter, 0);
    process_instruction(&program_id, &owner, &mut data).unwrap();
    assert_eq!(GreetingAccount::unpack(&data).unwrap().counter, 1);
    process_instruction(&program_id, &owner, &mut data).unwrap();
    assert_eq!(GreetingAccount::unpack(&data).unwrap().counter, 2);
}

#[test]
fn greeting_rejects_foreign_owner() {
    let program_id = Key::new([1u8; 32]);
    let owner = Key::new([2u8; 32]);
    let mut data = vec![0; 4];
    assert_eq!(
        process_instruction(&program_id, &owner, &mut data),
        Err(GreetingError::IncorrectProgramId)
    );
    let mut short = vec![0; 3];
    assert_eq!(
        process_instruction(&program_id, &program_id, &mut short),
        Err(GreetingError::InvalidAccountData)
    );
}

#[test]
fn hello_instruction_round_trips() {
    let hello = HelloWorldInstruction::Hello { message: String::from("hi there") };
    let packed = hello.pack();
    assert_eq!(packed[0], 0);
    assert_eq!(HelloWorldInstruction::unpack(&packed), Ok(hello));
    assert_eq!(
        HelloWorldInstruction::unpack(&HelloWorldInstruction::Erase.pack()),
        Ok(HelloWorldInstruction::Erase)
    );
    assert_eq!(
        HelloWorldInstruction::unpack(&HelloWorldInstruction::Query.pack()),
        Ok(HelloWorldInstruction::Query)
    );
    assert_eq!(
        HelloWorldInstruction::unpack(&[]),
        Err(HelloWorldError::InvalidInstruction)
    );
    assert_eq!(
        HelloWorldInstruction::unpack(&[9]),
        Err(HelloWorldError::InvalidInstruction)
    );
    // Ill-formed UTF-8 is refused, not stored.
    assert_eq!(
        HelloWorldInstruction::unpack(&[0, 0xff, 0xfe]),
        Err(HelloWorldError::InvalidInstruction)
    );
}

fn sample_fees() -> Fees {
    Fees {
        trade_fee_numerator: 3,
        trade_fee_denominator: 1000,
        owner_trade_fee_numerator: 1,
        owner_trade_fee_denominator: 100,
        owner_withdraw_fee_numerator: 1,
        owner_withdraw_fee_denominator: 50,
        host_fee_numerator: 1,
        host_fee_denominator: 5,
    }
}

#[test]
fn fees_round_trip() {
    let fees = sample_fees();
    let mut buf: Vec<u8> = Vec::new();
    fees.pack_into(&mut buf);
    assert_eq!(buf.len(), 64);
    assert_eq!(Fees::unpack_at(&buf, 0), fees);
}

#[test]
fn fees_validation() {
    assert_eq!(sample_fees().validate(), Ok(()));
    let mut bad = sample_fees();
    bad.trade_fee_numerator = 1001;
    assert_eq!(bad.validate(), Err(SwapError::InvalidFee));
    let zero = Fees {
        trade_fee_numerator: 0,
        trade_fee_denominator: 0,
        owner_trade_fee_numerator: 0,
        owner_trade_fee_denominator: 0,
        owner_withdraw_fee_numerator: 0,
        owner_withdraw_fee_denominator: 0,
        host_fee_numerator: 0,
        host_fee_denominator: 0,
    };
    assert_eq!(zero.validate(), Ok(()));
}

fn sample_state() -> SwapV1 {
    SwapV1 {
        is_initialized: true,
        bump_seed: 251,
        token_program_id: Key::new([7u8; 32]),
        token_a: Key::new([10u8; 32]),
        token_b: Key::new([11u8; 32]),
        pool_mint: Key::new([22u8; 32]),
        token_a_mint: Key::new([20u8; 32]),
        token_b_mint: Key::new([21u8; 32]),
        pool_fee_account: Key::new([12u8; 32]),
        fees: sample_fees(),
        swap_curve: SwapCurve { curve_type: CurveType::ConstantProduct },
    }
}

#[test]
fn state_round_trips() {
    let state = sample_state();
    let packed = state.pack();
    assert_eq!(packed.len(), 324);
    assert_eq!(packed[0], 1);
    assert_eq!(packed[1], 1);
    assert_eq!(packed[2], 251);
    let unpacked = SwapV1::unpack(&packed).unwrap();
    assert_eq!(unpacked, state);
    assert!(SwapV1::is_initialized_bytes(&packed));
}

#[test]
fn state_rejects_bad_records() {
    let state = sample_state();
    let packed = state.pack();
    assert_eq!(
        SwapV1::unpack(&packed[..300]),
        Err(SwapError::InvalidState)
    );
    let mut wrong_version = packed.clone();
    wrong_version[0] = 2;
    assert_eq!(SwapV1::unpack(&wrong_version), Err(SwapError::InvalidState));
    let mut uninitialized = packed.clone();
    uninitialized[1] = 0;
    assert_eq!(SwapV1::unpack(&uninitialized), Err(SwapError::InvalidState));
    assert!(!SwapV1::is_initialized_bytes(&uninitialized));
    let mut bad_curve = packed.clone();
    bad_curve[291] = 9;
    assert_eq!(
        SwapV1::unpack(&bad_curve),
        Err(SwapError::UnsupportedCurveType)
    );
    assert!(!SwapV1::is_initialized_bytes(&vec![0u8; 324]));
}

#[test]
fn swap_instruction_round_trips() {
    let cases = vec![
        SwapInstruction::Initialize(Initialize {
            fees: sample_fees(),
            swap_curve: SwapCurve { curve_type: CurveType::ConstantProduct },
        }),
        SwapInstruction::Swap(Swap { amount_in: 10_000, minimum_amount_out: 9_900 }),
        SwapInstruction::DepositAllTokenTypes(DepositAllTokenTypes {
            pool_token_amount: 100_000,
            maximum_token_a_amount: 100_000,
            maximum_token_b_amount: 200_000,
        }),
        SwapInstruction::WithdrawAllTokenTypes(WithdrawAllTokenTypes {
            pool_token_amount: 1,
            minimum_token_a_amount: 2,
            minimum_token_b_amount: 3,
        }),
        SwapInstruction::DepositSingleTokenTypeExactAmountIn(DepositSingleTokenTypeExactAmountIn {
            source_token_amount: 44,
            minimum_pool_token_amount: 200,
        }),
        SwapInstruction::WithdrawSingleTokenTypeExactAmountOut(
            WithdrawSingleTokenTypeExactAmountOut {
                destination_token_amount: 36,
                maximum_pool_token_amount: 200,
            },
        ),
    ];
    for case in cases {
        let packed = case.pack();
        assert_eq!(SwapInstruction::unpack(&packed), Ok(case));
    }
}

#[test]
fn swap_instruction_exact_bytes() {
    let packed = SwapInstruction::Swap(Swap { amount_in: 258, minimum_amount_out: 1 }).pack();
    assert_eq!(
        packed,
        vec![1, 2, 1, 0, 0, 0, 0, 0, 0, 1, 0, 0, 0, 0, 0, 0, 0]
    );
}

#[test]
fn swap_instruction_rejects_bad_payloads() {
    assert_eq!(
        SwapInstruction::unpack(&[]),
        Err(SwapError::InvalidInstruction)
    );
    assert_eq!(
        SwapInstruction::unpack(&[1, 2, 3]),
        Err(SwapError::InvalidInstruction)
    );
    assert_eq!(
        SwapInstruction::unpack(&[6]),
        Err(SwapError::InvalidInstruction)
    );
    // An initialize payload naming an unknown curve variant.
    let mut init = SwapInstruction::Initialize(Initialize {
        fees: sample_fees(),
        swap_curve: SwapCurve { curve_type: CurveType::ConstantProduct },
    })
    .pack();
    init[65] = 3;
    assert_eq!(
        SwapInstruction::unpack(&init),
        Err(SwapError::UnsupportedCurveType)
    );
    let short_init = &init[..90];
    assert_eq!(
        SwapInstruction::unpack(short_init),
        Err(SwapError::InvalidInstruction)
    );
}

#[test]
fn authority_type_codec() {
    let kinds = vec![
        AuthorityType::MintTokens,
        AuthorityType::FreezeAccount,
        AuthorityType::AccountOwner,
        AuthorityType::CloseAccount,
    ];
    for (i, kind) in kinds.iter().enumerate() {
        assert_eq!(kind.into(), i as u8);
        assert_eq!(AuthorityType::from(i as u8), Ok(*kind));
    }
    assert_eq!(
        AuthorityType::from(4),
        Err(TokenInstructionError::InvalidInstruction)
    );
}

#[test]
fn signer_index_bounds() {
    assert!(!is_valid_signer_index(0));
    assert!(is_valid_signer_index(1));
    assert!(is_valid_signer_index(11));
    assert!(!is_valid_signer_index(12));
}

#[test]
fn hello_state_round_trips() {
    let state = HelloWorldState {
        account_key: Key::new([9u8; 32]),
        message: b"hello chain".to_vec(),
    };
    let packed = state.pack();
    assert_eq!(packed.len(), 289);
    assert_eq!(packed[32], 11);
    assert_eq!(HelloWorldState::unpack_from_slice(&packed), Ok(state));
    assert_eq!(
        HelloWorldState::unpack_from_slice(&packed[..288]),
        Err(HelloProcessorError::InvalidAccountData)
    );
}

#[test]
fn hello_handlers_require_a_signature() {
    let client = Key::new([3u8; 32]);
    let stored = processor_hello(&client, true, b"hi".to_vec()).unwrap();
    assert_eq!(stored.account_key, client);
    assert_eq!(stored.message, b"hi".to_vec());
    assert_eq!(
        processor_hello(&client, false, b"hi".to_vec()),
        Err(HelloProcessorError::MissingRequiredSignature)
    );
    // Erasing drains the record account's whole balance to the client.
    assert_eq!(processor_erase(true, 10, 32), Ok((42, 0)));
    assert_eq!(processor_erase(true, u64::MAX, 1), Ok((0, 0)));
    assert_eq!(
        processor_erase(false, 10, 32),
        Err(HelloProcessorError::MissingRequiredSignature)
    );
}
