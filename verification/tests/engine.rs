use solana_program::pubkey::Pubkey;
use token_swap::account::{AccountReading, LedgerAction, MintReading, MintView, TokenAccountView,
    TransferFee};
use token_swap::curve::{cp_deposit_single, cp_withdraw_single, pool_tokens_to_trading_tokens,
    swap_without_fees, CurveType, RoundDirection, SwapCurve, TradeDirection};
use token_swap::error::SwapError;
use token_swap::fees::Fees;
use token_swap::keys::Key;
use token_swap::math::{calculate_fee, checked_ceil_div, integer_sqrt, to_u128, to_u64};
use token_swap::processor::{epoch_transfer_fee, InitializeAccounts, Processor, SwapAccounts,
    SwapConstraints, DepositAllAccounts, WithdrawAllAccounts, DepositSingleAccounts,
    WithdrawSingleAccounts};
use token_swap::auction::{process_bidding, process_close_auction, process_create_auction,
    Auction, AuctionError, BidAccounts, CloseAuctionAccounts, CreateAuctionAccounts};
use token_swap::state::SwapV1;

fn key(n: u8) -> Key {
    Key::new([n; 32])
}

fn program_id() -> Key {
    key(1)
}

fn swap_key() -> Key {
    key(2)
}

fn derived_authority() -> (Key, u8) {
    let program = Pubkey::new_from_array(program_id().bytes);
    let (addr, bump) = Pubkey::find_program_address(&[&swap_key().bytes], &program);
    (Key::new(addr.to_bytes()), bump)
}

fn token_program() -> Key {
    key(200)
}

fn fees_trading_only() -> Fees {
    Fees {
        trade_fee_numerator: 3,
        trade_fee_denominator: 1000,
        owner_trade_fee_numerator: 0,
        owner_trade_fee_denominator: 0,
        owner_withdraw_fee_numerator: 0,
        owner_withdraw_fee_denominator: 0,
        host_fee_numerator: 0,
        host_fee_denominator: 0,
    }
}

fn curve() -> SwapCurve {
    SwapCurve { curve_type: CurveType::ConstantProduct }
}

fn token_account(mint: Key, owner: Key, amount: u64) -> Option<TokenAccountView> {
    Some(TokenAccountView { mint, owner, amount, has_delegate: false, has_close_authority: false })
}

fn plain_mint(supply: u64) -> Option<MintView> {
    Some(MintView {
        supply,
        decimals: 6,
        mint_authority: None,
        has_freeze_authority: false,
        has_close_authority: false,
        transfer_fee: None,
    })
}

fn init_accounts() -> InitializeAccounts {
    let (authority, _) = derived_authority();
    InitializeAccounts {
        swap_key: swap_key(),
        swap_data: vec![0u8; 324],
        authority_key: authority,
        token_a: AccountReading {
            key: key(10),
            owner_program: token_program(),
            token: token_account(key(20), authority, 1_000_000),
        },
        token_b: AccountReading {
            key: key(11),
            owner_program: token_program(),
            token: token_account(key(21), authority, 1_000_000),
        },
        pool_mint: MintReading {
            key: key(22),
            owner_program: token_program(),
            mint: Some(MintView {
                supply: 0,
                decimals: 6,
                mint_authority: Some(authority),
                has_freeze_authority: false,
                has_close_authority: false,
                transfer_fee: None,
            }),
        },
        fee_account: AccountReading {
            key: key(12),
            owner_program: token_program(),
            token: token_account(key(22), key(30), 0),
        },
        destination: AccountReading {
            key: key(13),
            owner_program: token_program(),
            token: token_account(key(22), key(31), 0),
        },
        pool_token_program_key: token_program(),
    }
}

fn initialize_pool() -> Vec<u8> {
    let accs = init_accounts();
    let out = Processor::process_initialize(
        &program_id(),
        fees_trading_only(),
        curve(),
        &accs,
        &None,
        &Vec::new(),
    )
    .unwrap();
    out.state_data
}

fn swap_accounts(state_data: Vec<u8>) -> SwapAccounts {
    let (authority, _) = derived_authority();
    SwapAccounts {
        swap_key: swap_key(),
        swap_owner_program: program_id(),
        swap_data: state_data,
        authority_key: authority,
        user_transfer_authority_key: key(40),
        source_key: key(41),
        swap_source: AccountReading {
            key: key(10),
            owner_program: token_program(),
            token: token_account(key(20), authority, 1_000_000),
        },
        swap_destination: AccountReading {
            key: key(11),
            owner_program: token_program(),
            token: token_account(key(21), authority, 1_000_000),
        },
        destination_key: key(42),
        pool_mint: MintReading {
            key: key(22),
            owner_program: token_program(),
            mint: plain_mint(1_000_000_000),
        },
        pool_fee_account: AccountReading {
            key: key(12),
            owner_program: token_program(),
            token: token_account(key(22), key(30), 0),
        },
        source_token_mint: MintReading {
            key: key(20),
            owner_program: token_program(),
            mint: plain_mint(0),
        },
        destination_token_mint: MintReading {
            key: key(21),
            owner_program: token_program(),
            mint: plain_mint(0),
        },
        source_token_program_key: token_program(),
        destination_token_program_key: token_program(),
        pool_token_program_key: token_program(),
        host_fee_account: None,
    }
}

#[test]
fn initialize_opens_the_pool() {
    let accs = init_accounts();
    let (authority, bump) = derived_authority();
    let out = Processor::process_initialize(
        &program_id(),
        fees_trading_only(),
        curve(),
        &accs,
        &None,
        &Vec::new(),
    )
    .unwrap();
    assert_eq!(out.state.bump_seed, bump);
    assert_eq!(out.state.token_a, key(10));
    assert_eq!(out.state.token_b, key(11));
    assert_eq!(out.state.pool_mint, key(22));
    assert_eq!(out.state.token_a_mint, key(20));
    assert_eq!(out.state.token_b_mint, key(21));
    assert_eq!(out.state.pool_fee_account, key(12));
    assert_eq!(out.state.fees, fees_trading_only());
    assert!(out.state.is_initialized);
    assert_eq!(out.state_data.len(), 324);
    assert_eq!(
        out.actions,
        vec![LedgerAction::MintTo {
            token_program: token_program(),
            mint: key(22),
            destination: key(13),
            authority,
            amount: 1_000_000_000,
        }]
    );
    // The persisted record reads back as the same pool.
    assert_eq!(SwapV1::unpack(&out.state_data).unwrap(), out.state);
}

#[test]
fn second_initialize_is_rejected() {
    let state_data = initialize_pool();
    let mut accs = init_accounts();
    accs.swap_data = state_data;
    let r = Processor::process_initialize(
        &program_id(),
        fees_trading_only(),
        curve(),
        &accs,
        &None,
        &Vec::new(),
    );
    assert_eq!(r.err(), Some(SwapError::AlreadyInUse));
}

#[test]
fn initialize_rejections() {
    let run = |accs: &InitializeAccounts, fees: Fees| {
        Processor::process_initialize(&program_id(), fees, curve(), accs, &None, &Vec::new()).err()
    };
    let fees = fees_trading_only();
    let (authority, _) = derived_authority();

    let mut a = init_accounts();
    a.authority_key = key(99);
    assert_eq!(run(&a, fees), Some(SwapError::InvalidProgramAddress));

    let mut a = init_accounts();
    a.token_a.token = token_account(key(20), key(99), 1_000_000);
    assert_eq!(run(&a, fees), Some(SwapError::InvalidOwner));

    let mut a = init_accounts();
    a.destination.token = token_account(key(22), authority, 0);
    assert_eq!(run(&a, fees), Some(SwapError::InvalidOutputOwner));

    let mut a = init_accounts();
    a.fee_account.token = token_account(key(22), authority, 0);
    assert_eq!(run(&a, fees), Some(SwapError::InvalidOutputOwner));

    let mut a = init_accounts();
    a.pool_mint.mint = plain_mint(0);
    assert_eq!(run(&a, fees), Some(SwapError::InvalidOwner));

    let mut a = init_accounts();
    a.token_b.token = token_account(key(20), authority, 1_000_000);
    assert_eq!(run(&a, fees), Some(SwapError::RepeatedMint));

    let mut a = init_accounts();
    a.token_a.token = token_account(key(20), authority, 0);
    assert_eq!(run(&a, fees), Some(SwapError::EmptySupply));

    let mut a = init_accounts();
    a.token_a.token.as_mut().unwrap().has_delegate = true;
    assert_eq!(run(&a, fees), Some(SwapError::InvalidDelegate));

    let mut a = init_accounts();
    a.token_b.token.as_mut().unwrap().has_close_authority = true;
    assert_eq!(run(&a, fees), Some(SwapError::InvalidCloseAuthority));

    let mut a = init_accounts();
    a.pool_mint.mint.as_mut().unwrap().supply = 5;
    assert_eq!(run(&a, fees), Some(SwapError::InvalidSupply));

    let mut a = init_accounts();
    a.pool_mint.mint.as_mut().unwrap().has_freeze_authority = true;
    assert_eq!(run(&a, fees), Some(SwapError::InvalidFreezeAuthority));

    let mut a = init_accounts();
    a.fee_account.token.as_mut().unwrap().mint = key(77);
    assert_eq!(run(&a, fees), Some(SwapError::IncorrectPoolMint));

    let mut a = init_accounts();
    a.token_a.owner_program = key(88);
    assert_eq!(run(&a, fees), Some(SwapError::IncorrectTokenProgramId));

    let mut a = init_accounts();
    a.token_a.token = None;
    assert_eq!(run(&a, fees), Some(SwapError::ExpectedAccount));

    let mut a = init_accounts();
    a.pool_mint.mint = None;
    assert_eq!(run(&a, fees), Some(SwapError::ExpectedMint));

    let a = init_accounts();
    let mut bad_fees = fees;
    bad_fees.trade_fee_numerator = 1001;
    assert_eq!(run(&a, bad_fees), Some(SwapError::InvalidFee));
}

#[test]
fn initialize_respects_constraints() {
    let accs = init_accounts();
    let fees = fees_trading_only();
    // The fee collector must belong to the declared operator.
    let constraints = SwapConstraints {
        owner_key: key(99),
        valid_curve_types: vec![CurveType::ConstantProduct],
        fees,
    };
    let r = Processor::process_initialize(
        &program_id(),
        fees,
        curve(),
        &accs,
        &Some(constraints),
        &Vec::new(),
    );
    assert_eq!(r.err(), Some(SwapError::InvalidOwner));

    // An empty curve allow-list refuses every curve.
    let constraints = SwapConstraints {
        owner_key: key(30),
        valid_curve_types: vec![],
        fees,
    };
    let r = Processor::process_initialize(
        &program_id(),
        fees,
        curve(),
        &accs,
        &Some(constraints),
        &Vec::new(),
    );
    assert_eq!(r.err(), Some(SwapError::UnsupportedCurveType));

    // Fees below the constraint floor are refused.
    let mut floor = fees;
    floor.trade_fee_numerator = 5;
    let constraints = SwapConstraints {
        owner_key: key(30),
        valid_curve_types: vec![CurveType::ConstantProduct],
        fees: floor,
    };
    let r = Processor::process_initialize(
        &program_id(),
        fees,
        curve(),
        &accs,
        &Some(constraints),
        &Vec::new(),
    );
    assert_eq!(r.err(), Some(SwapError::InvalidFee));

    // Matching constraints let the pool open.
    let constraints = SwapConstraints {
        owner_key: key(30),
        valid_curve_types: vec![CurveType::ConstantProduct],
        fees,
    };
    let r = Processor::process_initialize(
        &program_id(),
        fees,
        curve(),
        &accs,
        &Some(constraints),
        &Vec::new(),
    );
    assert!(r.is_ok());
}

#[test]
fn swap_slippage_guard() {
    // A 0.30% trading fee on a balanced million-token pool: 10,000 in
    // buys 9,871 out, so a declared minimum of 9,900 must fail.
    let state_data = initialize_pool();
    let accs = swap_accounts(state_data);
    let r = Processor::process_swap(&program_id(), 10_000, 9_900, &accs, &Vec::new());
    assert_eq!(r.err(), Some(SwapError::ExceededSlippage));
}

#[test]
fn swap_concrete_amounts() {
    let state_data = initialize_pool();
    let accs = swap_accounts(state_data);
    let (authority, _) = derived_authority();
    let out = Processor::process_swap(&program_id(), 10_000, 9_871, &accs, &Vec::new()).unwrap();
    assert_eq!(out.source_transfer_amount, 10_000);
    assert_eq!(out.destination_transfer_amount, 9_871);
    assert_eq!(out.result.new_swap_source_amount, 1_010_000);
    assert_eq!(out.result.new_swap_destination_amount, 990_129);
    assert_eq!(out.result.trade_fee, 30);
    assert_eq!(out.result.owner_fee, 0);
    // Invariant non-decrease on the concrete numbers.
    assert!(1_010_000u128 * 990_129u128 >= 1_000_000u128 * 1_000_000u128);
    assert_eq!(
        out.actions,
        vec![
            LedgerAction::Transfer {
                token_program: token_program(),
                source: key(41),
                mint: key(20),
                destination: key(10),
                authority: key(40),
                amount: 10_000,
                decimals: 6,
            },
            LedgerAction::Transfer {
                token_program: token_program(),
                source: key(11),
                mint: key(21),
                destination: key(42),
                authority,
                amount: 9_871,
                decimals: 6,
            },
        ]
    );
}

#[test]
fn swap_self_trade_rejected() {
    let state_data = initialize_pool();
    let mut accs = swap_accounts(state_data.clone());
    accs.swap_destination = accs.swap_source;
    let r = Processor::process_swap(&program_id(), 10_000, 0, &accs, &Vec::new());
    assert_eq!(r.err(), Some(SwapError::InvalidInput));

    let mut accs = swap_accounts(state_data.clone());
    accs.source_key = accs.swap_source.key;
    let r = Processor::process_swap(&program_id(), 10_000, 0, &accs, &Vec::new());
    assert_eq!(r.err(), Some(SwapError::InvalidInput));

    let mut accs = swap_accounts(state_data);
    accs.destination_key = accs.swap_destination.key;
    let r = Processor::process_swap(&program_id(), 10_000, 0, &accs, &Vec::new());
    assert_eq!(r.err(), Some(SwapError::InvalidInput));
}

#[test]
fn swap_fee_free_concrete() {
    // In the fee-free limit a 10,000 trade on the balanced pool pays out
    // 9,900, and the rounded-up price refunds one token of the offer.
    let accs0 = init_accounts();
    let zero_fees = Fees {
        trade_fee_numerator: 0,
        trade_fee_denominator: 0,
        owner_trade_fee_numerator: 0,
        owner_trade_fee_denominator: 0,
        owner_withdraw_fee_numerator: 0,
        owner_withdraw_fee_denominator: 0,
        host_fee_numerator: 0,
        host_fee_denominator: 0,
    };
    let out =
        Processor::process_initialize(&program_id(), zero_fees, curve(), &accs0, &None, &Vec::new())
            .unwrap();
    let accs = swap_accounts(out.state_data);
    let out = Processor::process_swap(&program_id(), 10_000, 9_900, &accs, &Vec::new()).unwrap();
    assert_eq!(out.destination_transfer_amount, 9_900);
    assert_eq!(out.source_transfer_amount, 9_999);
    assert_eq!(out.result.new_swap_source_amount, 1_009_999);
    assert_eq!(out.result.new_swap_destination_amount, 990_100);
    assert!(
        out.result.new_swap_source_amount * out.result.new_swap_destination_amount
            >= 1_000_000u128 * 1_000_000u128
    );
}

#[test]
fn swap_zero_amount_rejected() {
    let state_data = initialize_pool();
    let accs = swap_accounts(state_data);
    let r = Processor::process_swap(&program_id(), 0, 0, &accs, &Vec::new());
    assert_eq!(r.err(), Some(SwapError::ZeroTradingTokens));
}

#[test]
fn swap_account_binding_rejections() {
    let state_data = initialize_pool();

    let mut accs = swap_accounts(state_data.clone());
    accs.swap_owner_program = key(99);
    let r = Processor::process_swap(&program_id(), 10_000, 0, &accs, &Vec::new());
    assert_eq!(r.err(), Some(SwapError::IncorrectProgramId));

    let mut accs = swap_accounts(state_data.clone());
    accs.swap_data = vec![0u8; 10];
    let r = Processor::process_swap(&program_id(), 10_000, 0, &accs, &Vec::new());
    assert_eq!(r.err(), Some(SwapError::InvalidState));

    let mut accs = swap_accounts(state_data.clone());
    accs.swap_data[291] = 9;
    let r = Processor::process_swap(&program_id(), 10_000, 0, &accs, &Vec::new());
    assert_eq!(r.err(), Some(SwapError::UnsupportedCurveType));

    let mut accs = swap_accounts(state_data.clone());
    accs.swap_source.key = key(77);
    let r = Processor::process_swap(&program_id(), 10_000, 0, &accs, &Vec::new());
    assert_eq!(r.err(), Some(SwapError::IncorrectSwapAccount));

    let mut accs = swap_accounts(state_data.clone());
    accs.pool_mint.key = key(77);
    let r = Processor::process_swap(&program_id(), 10_000, 0, &accs, &Vec::new());
    assert_eq!(r.err(), Some(SwapError::IncorrectPoolMint));

    let mut accs = swap_accounts(state_data.clone());
    accs.pool_fee_account.key = key(77);
    let r = Processor::process_swap(&program_id(), 10_000, 0, &accs, &Vec::new());
    assert_eq!(r.err(), Some(SwapError::IncorrectFeeAccount));

    let mut accs = swap_accounts(state_data);
    accs.authority_key = key(77);
    let r = Processor::process_swap(&program_id(), 10_000, 0, &accs, &Vec::new());
    assert_eq!(r.err(), Some(SwapError::InvalidProgramAddress));
}

#[test]
fn swap_accounts_transfer_fees() {
    // A 1% ledger-level transfer fee on the input asset: the engine
    // deducts it from the offered amount, trades the remainder, and then
    // re-adds the fee on what the curve consumed.
    let state_data = initialize_pool();
    let mut accs = swap_accounts(state_data);
    accs.source_token_mint.mint.as_mut().unwrap().transfer_fee =
        Some(TransferFee { basis_points: 100, maximum_fee: 10_000 });
    let out = Processor::process_swap(&program_id(), 10_000, 9_000, &accs, &Vec::new()).unwrap();
    assert_eq!(out.result.source_amount_swapped, 9_900);
    assert_eq!(out.source_transfer_amount, 9_999);
    assert_eq!(out.destination_transfer_amount, 9_774);
    assert_eq!(out.result.new_swap_source_amount, 1_009_900);
    assert_eq!(out.result.new_swap_destination_amount, 990_226);
}

#[test]
fn swap_pays_owner_and_host_fees() {
    // With a 1% owner trading fee and a 1-in-5 host split, the owner fee
    // of a 10,000 trade prices at 52 pool shares: 10 minted to the host,
    // 42 to the fee collector, between the two transfers.
    let mut fees = fees_trading_only();
    fees.owner_trade_fee_numerator = 1;
    fees.owner_trade_fee_denominator = 100;
    fees.host_fee_numerator = 1;
    fees.host_fee_denominator = 5;
    let accs0 = init_accounts();
    let out = Processor::process_initialize(&program_id(), fees, curve(), &accs0, &None, &Vec::new())
        .unwrap();
    let (authority, _) = derived_authority();
    let mut accs = swap_accounts(out.state_data);
    accs.pool_mint.mint = plain_mint(1_000_000);
    accs.host_fee_account = Some(AccountReading {
        key: key(50),
        owner_program: token_program(),
        token: token_account(key(22), key(51), 0),
    });
    let out = Processor::process_swap(&program_id(), 10_000, 9_000, &accs, &Vec::new()).unwrap();
    assert_eq!(out.result.owner_fee, 100);
    assert_eq!(out.result.trade_fee, 30);
    assert_eq!(out.source_transfer_amount, 10_000);
    assert_eq!(out.destination_transfer_amount, 9_773);
    assert_eq!(out.result.new_swap_source_amount, 1_010_000);
    assert_eq!(out.result.new_swap_destination_amount, 990_227);
    assert_eq!(out.actions.len(), 4);
    assert_eq!(
        out.actions[1],
        LedgerAction::MintTo {
            token_program: token_program(),
            mint: key(22),
            destination: key(50),
            authority,
            amount: 10,
        }
    );
    assert_eq!(
        out.actions[2],
        LedgerAction::MintTo {
            token_program: token_program(),
            mint: key(22),
            destination: key(12),
            authority,
            amount: 42,
        }
    );
    // A host account of the wrong mint is refused.
    let mut bad = accs;
    bad.host_fee_account.as_mut().unwrap().token = token_account(key(77), key(51), 0);
    let r = Processor::process_swap(&program_id(), 10_000, 9_000, &bad, &Vec::new());
    assert_eq!(r.err(), Some(SwapError::IncorrectPoolMint));
}

#[test]
fn epoch_fee_is_capped() {
    let tf = TransferFee { basis_points: 100, maximum_fee: 50 };
    assert_eq!(epoch_transfer_fee(&tf, 10_000), 50);
    let tf = TransferFee { basis_points: 100, maximum_fee: 1_000 };
    assert_eq!(epoch_transfer_fee(&tf, 10_001), 101);
    let tf = TransferFee { basis_points: 0, maximum_fee: 1_000 };
    assert_eq!(epoch_transfer_fee(&tf, 10_000), 0);
}

#[test]
fn proportional_conversion_concrete() {
    // Deposit 100,000 shares into supply 1,000,000 over (1,000,000,
    // 2,000,000): exactly 100,000 of A and 200,000 of B, ceiling-rounded.
    let r = pool_tokens_to_trading_tokens(
        100_000,
        1_000_000,
        1_000_000,
        2_000_000,
        RoundDirection::Ceiling,
    )
    .unwrap();
    assert_eq!(r.token_a_amount, 100_000);
    assert_eq!(r.token_b_amount, 200_000);
    // An uneven share makes the ceiling round up.
    let r = pool_tokens_to_trading_tokens(1, 3, 100, 100, RoundDirection::Ceiling).unwrap();
    assert_eq!(r.token_a_amount, 34);
    let r = pool_tokens_to_trading_tokens(1, 3, 100, 100, RoundDirection::Floor).unwrap();
    assert_eq!(r.token_a_amount, 33);
}

#[test]
fn deposit_withdraw_conservation_concrete() {
    // Deposit then withdraw the same nominal share amount with no trade in
    // between: everything comes back, minus exactly the withdraw fee.
    let deposit = pool_tokens_to_trading_tokens(
        100_000,
        1_000_000,
        1_000_000,
        2_000_000,
        RoundDirection::Ceiling,
    )
    .unwrap();
    assert_eq!((deposit.token_a_amount, deposit.token_b_amount), (100_000, 200_000));
    // Fee-free withdraw of the same shares from the grown pool.
    let back = pool_tokens_to_trading_tokens(
        100_000,
        1_100_000,
        1_100_000,
        2_200_000,
        RoundDirection::Floor,
    )
    .unwrap();
    assert_eq!((back.token_a_amount, back.token_b_amount), (100_000, 200_000));
    // With a 1% withdraw fee (1,000 shares), the returned amounts shrink
    // by exactly the fee's worth at the pre-deposit rate.
    let back = pool_tokens_to_trading_tokens(
        99_000,
        1_100_000,
        1_100_000,
        2_200_000,
        RoundDirection::Floor,
    )
    .unwrap();
    assert_eq!((back.token_a_amount, back.token_b_amount), (99_000, 198_000));
}

fn deposit_all_accounts(state_data: Vec<u8>) -> DepositAllAccounts {
    let (authority, _) = derived_authority();
    DepositAllAccounts {
        swap_key: swap_key(),
        swap_owner_program: program_id(),
        swap_data: state_data,
        authority_key: authority,
        user_transfer_authority_key: key(40),
        source_a_key: key(41),
        source_b_key: key(43),
        token_a: AccountReading {
            key: key(10),
            owner_program: token_program(),
            token: token_account(key(20), authority, 1_000_000),
        },
        token_b: AccountReading {
            key: key(11),
            owner_program: token_program(),
            token: token_account(key(21), authority, 2_000_000),
        },
        pool_mint: MintReading {
            key: key(22),
            owner_program: token_program(),
            mint: plain_mint(1_000_000),
        },
        dest_key: key(42),
        token_a_mint: MintReading {
            key: key(20),
            owner_program: token_program(),
            mint: plain_mint(0),
        },
        token_b_mint: MintReading {
            key: key(21),
            owner_program: token_program(),
            mint: plain_mint(0),
        },
        token_a_program_key: token_program(),
        token_b_program_key: token_program(),
        pool_token_program_key: token_program(),
    }
}

#[test]
fn deposit_all_concrete() {
    let state_data = initialize_pool();
    let accs = deposit_all_accounts(state_data);
    let out = Processor::process_deposit_all_token_types(
        &program_id(),
        100_000,
        100_000,
        200_000,
        &accs,
        &Vec::new(),
    )
    .unwrap();
    assert_eq!(out.token_a_amount, 100_000);
    assert_eq!(out.token_b_amount, 200_000);
    assert_eq!(out.pool_token_amount, 100_000);
    assert_eq!(out.actions.len(), 3);
}

#[test]
fn deposit_all_respects_maxima() {
    let state_data = initialize_pool();
    let accs = deposit_all_accounts(state_data.clone());
    let r = Processor::process_deposit_all_token_types(
        &program_id(),
        100_000,
        99_999,
        200_000,
        &accs,
        &Vec::new(),
    );
    assert_eq!(r.err(), Some(SwapError::ExceededSlippage));
    let accs = deposit_all_accounts(state_data);
    let r = Processor::process_deposit_all_token_types(
        &program_id(),
        100_000,
        100_000,
        199_999,
        &accs,
        &Vec::new(),
    );
    assert_eq!(r.err(), Some(SwapError::ExceededSlippage));
}

#[test]
fn deposit_all_rejects_zero_amounts() {
    let state_data = initialize_pool();
    let accs = deposit_all_accounts(state_data);
    let r = Processor::process_deposit_all_token_types(
        &program_id(),
        0,
        100_000,
        200_000,
        &accs,
        &Vec::new(),
    );
    assert_eq!(r.err(), Some(SwapError::ZeroTradingTokens));
}

fn withdraw_all_accounts(state_data: Vec<u8>, withdraw_fees: bool) -> WithdrawAllAccounts {
    let (authority, _) = derived_authority();
    WithdrawAllAccounts {
        swap_key: swap_key(),
        swap_owner_program: program_id(),
        swap_data: state_data,
        authority_key: authority,
        user_transfer_authority_key: key(40),
        pool_mint: MintReading {
            key: key(22),
            owner_program: token_program(),
            mint: plain_mint(1_100_000),
        },
        source_key: key(44),
        token_a: AccountReading {
            key: key(10),
            owner_program: token_program(),
            token: token_account(key(20), authority, 1_100_000),
        },
        token_b: AccountReading {
            key: key(11),
            owner_program: token_program(),
            token: token_account(key(21), authority, 2_200_000),
        },
        dest_token_a_key: key(45),
        dest_token_b_key: key(46),
        pool_fee_account: AccountReading {
            key: key(12),
            owner_program: if withdraw_fees { token_program() } else { key(99) },
            token: token_account(key(22), key(30), 0),
        },
        token_a_mint: MintReading {
            key: key(20),
            owner_program: token_program(),
            mint: plain_mint(0),
        },
        token_b_mint: MintReading {
            key: key(21),
            owner_program: token_program(),
            mint: plain_mint(0),
        },
        pool_token_program_key: token_program(),
        token_a_program_key: token_program(),
        token_b_program_key: token_program(),
    }
}

#[test]
fn withdraw_all_concrete() {
    // The pool from the deposit scenario: supply 1,100,000 over
    // (1,100,000, 2,200,000); no withdraw fee configured.
    let state_data = initialize_pool();
    let accs = withdraw_all_accounts(state_data, true);
    let out = Processor::process_withdraw_all_token_types(
        &program_id(),
        100_000,
        100_000,
        200_000,
        &accs,
        &Vec::new(),
    )
    .unwrap();
    assert_eq!(out.token_a_amount, 100_000);
    assert_eq!(out.token_b_amount, 200_000);
    assert_eq!(out.withdraw_fee, 0);
    assert_eq!(out.burn_amount, 100_000);
    // Burn first, then the two payouts.
    assert_eq!(out.actions.len(), 3);
    assert!(matches!(out.actions[0], LedgerAction::Burn { amount: 100_000, .. }));
}

#[test]
fn withdraw_all_respects_minima() {
    let state_data = initialize_pool();
    let accs = withdraw_all_accounts(state_data, true);
    let r = Processor::process_withdraw_all_token_types(
        &program_id(),
        100_000,
        100_001,
        200_000,
        &accs,
        &Vec::new(),
    );
    assert_eq!(r.err(), Some(SwapError::ExceededSlippage));
}

#[test]
fn withdraw_all_charges_the_declared_fee() {
    // A 1-in-50 owner withdraw fee: 2,000 of the 100,000 shares go to the
    // fee collector and only the remainder is burned and paid out.
    let mut fees = fees_trading_only();
    fees.owner_withdraw_fee_numerator = 1;
    fees.owner_withdraw_fee_denominator = 50;
    let accs0 = init_accounts();
    let out = Processor::process_initialize(&program_id(), fees, curve(), &accs0, &None, &Vec::new())
        .unwrap();
    let accs = withdraw_all_accounts(out.state_data, true);
    let out = Processor::process_withdraw_all_token_types(
        &program_id(),
        100_000,
        0,
        0,
        &accs,
        &Vec::new(),
    )
    .unwrap();
    assert_eq!(out.withdraw_fee, 2_000);
    assert_eq!(out.burn_amount, 98_000);
    assert_eq!(out.token_a_amount, 98_000);
    assert_eq!(out.token_b_amount, 196_000);
    assert_eq!(out.actions.len(), 4);
    assert!(matches!(
        out.actions[0],
        LedgerAction::Transfer { amount: 2_000, .. }
    ));
    assert!(matches!(out.actions[1], LedgerAction::Burn { amount: 98_000, .. }));
}

#[test]
fn withdraw_fee_calculation_can_fail() {
    // A record holding an unusable withdraw-fee fraction fails the fee
    // computation rather than charging something else.
    let mut fees = fees_trading_only();
    fees.owner_withdraw_fee_numerator = 1;
    fees.owner_withdraw_fee_denominator = 0;
    let state = SwapV1 {
        fees,
        ..SwapV1::unpack(&initialize_pool()).unwrap()
    };
    let accs = withdraw_all_accounts(state.pack(), true);
    let r = Processor::process_withdraw_all_token_types(
        &program_id(),
        100_000,
        0,
        0,
        &accs,
        &Vec::new(),
    );
    assert_eq!(r.err(), Some(SwapError::FeeCalculationFailure));
}

fn deposit_single_accounts(state_data: Vec<u8>) -> DepositSingleAccounts {
    let (authority, _) = derived_authority();
    DepositSingleAccounts {
        swap_key: swap_key(),
        swap_owner_program: program_id(),
        swap_data: state_data,
        authority_key: authority,
        user_transfer_authority_key: key(40),
        source: AccountReading {
            key: key(41),
            owner_program: token_program(),
            token: token_account(key(20), key(40), 500_000),
        },
        swap_token_a: AccountReading {
            key: key(10),
            owner_program: token_program(),
            token: token_account(key(20), authority, 100),
        },
        swap_token_b: AccountReading {
            key: key(11),
            owner_program: token_program(),
            token: token_account(key(21), authority, 400),
        },
        pool_mint: MintReading {
            key: key(22),
            owner_program: token_program(),
            mint: plain_mint(1_000),
        },
        destination_key: key(42),
        source_token_mint: MintReading {
            key: key(20),
            owner_program: token_program(),
            mint: plain_mint(0),
        },
        source_token_program_key: token_program(),
        pool_token_program_key: token_program(),
    }
}

#[test]
fn deposit_single_concrete() {
    // Fee-free pool: depositing 44 into the side holding 100 grows the
    // invariant's root from 100 to 120, earning 200 of the 1,000 shares.
    let accs0 = init_accounts();
    let zero_fees = Fees {
        trade_fee_numerator: 0,
        trade_fee_denominator: 0,
        owner_trade_fee_numerator: 0,
        owner_trade_fee_denominator: 0,
        owner_withdraw_fee_numerator: 0,
        owner_withdraw_fee_denominator: 0,
        host_fee_numerator: 0,
        host_fee_denominator: 0,
    };
    let out =
        Processor::process_initialize(&program_id(), zero_fees, curve(), &accs0, &None, &Vec::new())
            .unwrap();
    let accs = deposit_single_accounts(out.state_data);
    let out = Processor::process_deposit_single_token_type_exact_amount_in(
        &program_id(),
        44,
        200,
        &accs,
        &Vec::new(),
    )
    .unwrap();
    assert_eq!(out.pool_token_amount, 200);
    assert_eq!(out.actions.len(), 2);
    // A higher declared minimum fails.
    let accs = deposit_single_accounts(initialize_pool());
    let r = Processor::process_deposit_single_token_type_exact_amount_in(
        &program_id(),
        44,
        100_000,
        &accs,
        &Vec::new(),
    );
    assert_eq!(r.err(), Some(SwapError::ExceededSlippage));
    // A source account of a foreign mint matches neither reserve.
    let mut accs = deposit_single_accounts(initialize_pool());
    accs.source.token = token_account(key(77), key(40), 500_000);
    let r = Processor::process_deposit_single_token_type_exact_amount_in(
        &program_id(),
        44,
        0,
        &accs,
        &Vec::new(),
    );
    assert_eq!(r.err(), Some(SwapError::IncorrectSwapAccount));
}

fn withdraw_single_accounts(state_data: Vec<u8>) -> WithdrawSingleAccounts {
    let (authority, _) = derived_authority();
    WithdrawSingleAccounts {
        swap_key: swap_key(),
        swap_owner_program: program_id(),
        swap_data: state_data,
        authority_key: authority,
        user_transfer_authority_key: key(40),
        pool_mint: MintReading {
            key: key(22),
            owner_program: token_program(),
            mint: plain_mint(1_000),
        },
        source_key: key(44),
        swap_token_a: AccountReading {
            key: key(10),
            owner_program: token_program(),
            token: token_account(key(20), authority, 100),
        },
        swap_token_b: AccountReading {
            key: key(11),
            owner_program: token_program(),
            token: token_account(key(21), authority, 400),
        },
        destination: AccountReading {
            key: key(45),
            owner_program: token_program(),
            token: token_account(key(20), key(40), 0),
        },
        pool_fee_account: AccountReading {
            key: key(12),
            owner_program: key(99),
            token: token_account(key(22), key(30), 0),
        },
        destination_token_mint: MintReading {
            key: key(20),
            owner_program: token_program(),
            mint: plain_mint(0),
        },
        pool_token_program_key: token_program(),
        destination_token_program_key: token_program(),
    }
}

#[test]
fn withdraw_single_concrete() {
    // Fee-free pool: taking 36 out of the side holding 100 shrinks the
    // invariant's root from 100 to 80, costing 200 of the 1,000 shares.
    let accs0 = init_accounts();
    let zero_fees = Fees {
        trade_fee_numerator: 0,
        trade_fee_denominator: 0,
        owner_trade_fee_numerator: 0,
        owner_trade_fee_denominator: 0,
        owner_withdraw_fee_numerator: 0,
        owner_withdraw_fee_denominator: 0,
        host_fee_numerator: 0,
        host_fee_denominator: 0,
    };
    let out =
        Processor::process_initialize(&program_id(), zero_fees, curve(), &accs0, &None, &Vec::new())
            .unwrap();
    let accs = withdraw_single_accounts(out.state_data);
    let out = Processor::process_withdraw_single_token_type_exact_amount_out(
        &program_id(),
        36,
        200,
        &accs,
        &Vec::new(),
    )
    .unwrap();
    assert_eq!(out.burn_pool_token_amount, 200);
    assert_eq!(out.withdraw_fee, 0);
    assert_eq!(out.actions.len(), 2);
    // A tighter declared maximum fails.
    let accs = withdraw_single_accounts(initialize_pool());
    let r = Processor::process_withdraw_single_token_type_exact_amount_out(
        &program_id(),
        36,
        100,
        &accs,
        &Vec::new(),
    );
    assert_eq!(r.err(), Some(SwapError::ExceededSlippage));
}

#[test]
fn curve_units() {
    // One small exchange, end to end through the ceiling division.
    let r = swap_without_fees(10, 100, 100).unwrap();
    assert_eq!(r.source_amount_swapped, 10);
    assert_eq!(r.destination_amount_swapped, 9);
    // Nothing moves, nothing is accepted.
    assert!(swap_without_fees(0, 100, 100).is_none());
    assert!(swap_without_fees(10, 0, 100).is_none());
    // Single-sided conversions on square numbers.
    assert_eq!(cp_deposit_single(44, 100, 1_000), Some(200));
    assert_eq!(cp_withdraw_single(36, 100, 1_000), Some(200));
    // The curve ignores direction for its invariant.
    let c = SwapCurve { curve_type: CurveType::ConstantProduct };
    let fees = fees_trading_only();
    let a = c.swap(10_000, 1_000_000, 1_000_000, TradeDirection::AtoB, &fees).unwrap();
    let b = c.swap(10_000, 1_000_000, 1_000_000, TradeDirection::BtoA, &fees).unwrap();
    assert_eq!(a, b);
    assert_eq!(c.new_pool_supply(), 1_000_000_000);
    assert!(c.allows_deposits());
    assert_eq!(c.validate_supply(0, 1), Err(SwapError::EmptySupply));
    assert_eq!(c.validate_supply(1, 1), Ok(()));
}

#[test]
fn math_units() {
    assert_eq!(to_u128(7), Ok(7u128));
    assert_eq!(to_u64(7), Ok(7u64));
    assert_eq!(to_u64(u128::MAX), Err(SwapError::ConversionFailure));
    assert_eq!(checked_ceil_div(10, 3), Some((4, 3)));
    assert_eq!(checked_ceil_div(10, 0), None);
    assert_eq!(checked_ceil_div(3, 10), None);
    assert_eq!(checked_ceil_div(1_000_000_000_000, 1_009_970), Some((990_129, 1_009_970)));
    assert_eq!(integer_sqrt(0), 0);
    assert_eq!(integer_sqrt(15), 3);
    assert_eq!(integer_sqrt(16), 4);
    assert_eq!(integer_sqrt(u128::MAX), (1u128 << 64) - 1);
    // The minimum-fee rule: a nonzero amount under a nonzero fee owes at
    // least one token.
    assert_eq!(calculate_fee(5, 1, 1_000), Some(1));
    assert_eq!(calculate_fee(0, 1, 1_000), Some(0));
    assert_eq!(calculate_fee(5, 0, 1_000), Some(0));
    assert_eq!(calculate_fee(10_000, 3, 1_000), Some(30));
    assert_eq!(calculate_fee(5, 1, 0), None);
}


fn seller_authority(seller: Key) -> (Key, u8) {
    let program = Pubkey::new_from_array(program_id().bytes);
    let (addr, bump) = Pubkey::find_program_address(&[&seller.bytes], &program);
    (Key::new(addr.to_bytes()), bump)
}

fn sample_open_auction() -> Auction {
    let seller = key(60);
    Auction {
        seller,
        item: key(61),
        item_holder: key(62),
        currency: key(63),
        money_holder: key(64),
        bidder: key(65),
        refund_address: key(66),
        price: 100,
    }
}

fn packed_auction(a: &Auction) -> Vec<u8> {
    let mut buf = vec![0u8; 232];
    a.pack_into_slice(&mut buf);
    buf
}

#[test]
fn create_auction_places_custody() {
    let seller = key(60);
    let (pda, bump) = seller_authority(seller);
    let accs = CreateAuctionAccounts {
        auction_data: vec![0u8; 232],
        seller_key: seller,
        item_key: key(61),
        item_holder: AccountReading {
            key: key(62),
            owner_program: token_program(),
            token: token_account(key(61), pda, 0),
        },
        currency_key: key(63),
        money_holder: AccountReading {
            key: key(64),
            owner_program: token_program(),
            token: token_account(key(63), pda, 0),
        },
        bidder_key: key(65),
        refund_address_key: key(66),
    };
    let out =
        process_create_auction(&program_id(), &token_program(), 100, &accs).unwrap();
    assert_eq!(out.bump_seed, bump);
    assert_eq!(out.authority, pda);
    assert_eq!(out.auction, sample_open_auction());
    assert_eq!(out.actions.len(), 2);
    assert!(matches!(out.actions[0], LedgerAction::Transfer { amount: 100, .. }));
    assert!(matches!(out.actions[1], LedgerAction::Transfer { amount: 1, .. }));

    // A holder of the wrong asset, or in the wrong custody, is refused.
    let mut bad = CreateAuctionAccounts { auction_data: vec![0u8; 232], ..accs };
    bad.item_holder.token = token_account(key(99), pda, 0);
    assert_eq!(
        process_create_auction(&program_id(), &token_program(), 100, &bad).err(),
        Some(AuctionError::InvalidAccountData)
    );
    let mut bad = CreateAuctionAccounts { auction_data: vec![0u8; 232], ..bad };
    bad.item_holder.token = token_account(key(61), key(99), 0);
    assert_eq!(
        process_create_auction(&program_id(), &token_program(), 100, &bad).err(),
        Some(AuctionError::InvalidAccountData)
    );
}

#[test]
fn bidding_raises_the_price() {
    let auction = sample_open_auction();
    let (pda, _) = seller_authority(auction.seller);
    let accs = BidAccounts {
        auction_data: packed_auction(&auction),
        bidder_key: key(70),
        item_receiver: AccountReading {
            key: key(71),
            owner_program: token_program(),
            token: token_account(key(61), key(70), 0),
        },
        refund_address: AccountReading {
            key: key(72),
            owner_program: token_program(),
            token: token_account(key(63), key(70), 0),
        },
        payer_key: key(73),
    };
    let out = process_bidding(&program_id(), &token_program(), 150, 6, &accs).unwrap();
    assert_eq!(out.authority, pda);
    assert_eq!(out.auction.bidder, key(71));
    assert_eq!(out.auction.refund_address, key(72));
    assert_eq!(out.auction.price, 150);
    assert_eq!(out.auction.seller, auction.seller);
    assert_eq!(out.actions.len(), 2);
    // The previous leader is refunded the old price from custody.
    assert_eq!(
        out.actions[0],
        LedgerAction::Transfer {
            token_program: token_program(),
            source: auction.money_holder,
            mint: auction.currency,
            destination: auction.refund_address,
            authority: pda,
            amount: 100,
            decimals: 6,
        }
    );
    assert!(matches!(out.actions[1], LedgerAction::Transfer { amount: 150, .. }));

    // A bid at or below the standing price is too low.
    let r = process_bidding(&program_id(), &token_program(), 100, 6, &accs);
    assert_eq!(r.err(), Some(AuctionError::InvalidAccountData));

    // A record with no seller has not been created.
    let blank = BidAccounts { auction_data: vec![0u8; 232], ..accs };
    let r = process_bidding(&program_id(), &token_program(), 150, 6, &blank);
    assert_eq!(r.err(), Some(AuctionError::UninitializedAccount));

    // A receiver of some other asset cannot take the item.
    let mut bad = BidAccounts { auction_data: packed_auction(&auction), ..blank };
    bad.item_receiver.token = token_account(key(99), key(70), 0);
    let r = process_bidding(&program_id(), &token_program(), 150, 6, &bad);
    assert_eq!(r.err(), Some(AuctionError::InvalidAccountData));
}

#[test]
fn closing_settles_the_auction() {
    let auction = sample_open_auction();
    let (pda, _) = seller_authority(auction.seller);
    let accs = CloseAuctionAccounts {
        auction_data: packed_auction(&auction),
        seller_key: auction.seller,
        seller_is_signer: true,
        money_receiver_key: key(80),
    };
    let out = process_close_auction(&program_id(), &token_program(), &accs).unwrap();
    assert_eq!(out.authority, pda);
    assert_eq!(out.actions.len(), 2);
    assert_eq!(
        out.actions[0],
        LedgerAction::Transfer {
            token_program: token_program(),
            source: auction.money_holder,
            mint: auction.currency,
            destination: key(80),
            authority: pda,
            amount: 100,
            decimals: 0,
        }
    );
    assert_eq!(
        out.actions[1],
        LedgerAction::Transfer {
            token_program: token_program(),
            source: auction.item_holder,
            mint: auction.item,
            destination: auction.bidder,
            authority: pda,
            amount: 1,
            decimals: 0,
        }
    );

    // Only the signing seller may close.
    let bad = CloseAuctionAccounts {
        auction_data: packed_auction(&auction),
        seller_key: key(99),
        seller_is_signer: true,
        money_receiver_key: key(80),
    };
    let r = process_close_auction(&program_id(), &token_program(), &bad);
    assert_eq!(r.err(), Some(AuctionError::InvalidAccountData));
    let bad = CloseAuctionAccounts {
        auction_data: packed_auction(&auction),
        seller_key: auction.seller,
        seller_is_signer: false,
        money_receiver_key: key(80),
    };
    let r = process_close_auction(&program_id(), &token_program(), &bad);
    assert_eq!(r.err(), Some(AuctionError::InvalidAccountData));
}
