//! The dispatcher: one decision function per opcode. Each function takes
//! the caller's ordered account references and the host's ledger readings
//! as plain values, validates everything the protocol demands, computes
//! the amounts, and returns the ledger calls to perform — or the first
//! error, with nothing to perform. The host makes the reads and carries
//! out the calls; every decision in between is made, and proved, here.

use crate::account::{mint_unpack_spec, token_account_unpack_spec, unpack_mint,
    unpack_token_account, AccountReading, LedgerAction, MintReading, MintView, TransferFee};
use crate::authority::{authority_id, canonical_bump, derived_authority, find_authority};
use crate::curve::{curve_swap_spec, deposit_single_spec, pool_tokens_to_trading_tokens, ptt_ok,
    ptt_rounded, withdraw_single_spec, CurveType, RoundDirection, SwapCurve, SwapResult,
    TradeDirection, INITIAL_SWAP_POOL_AMOUNT};
use crate::error::SwapError;
use crate::fees::Fees;
use crate::instruction::{parse_instruction, SwapInstruction};
use crate::keys::Key;
use crate::math::{ceil_div_spec, fee_result, to_u64};
use crate::state::{state_bytes, state_wf, SwapV1};
use vstd::arithmetic::div_mod::{lemma_fundamental_div_mod, lemma_mod_pos_bound};
use vstd::prelude::*;

verus! {

/// Program state handler.
pub struct Processor {}

/// Operator-supplied constraints checked once, at initialization: the
/// required owner of the fee collector, the curve variants a pool may use,
/// and the fee floor every pool must respect.
pub struct SwapConstraints {
    pub owner_key: Key,
    pub valid_curve_types: Vec<CurveType>,
    pub fees: Fees,
}

impl SwapConstraints {
    /// The curve variant is on the allow-list.
    pub open spec fn curve_ok(self, c: SwapCurve) -> bool {
        exists|i: int|
            0 <= i < self.valid_curve_types@.len() && self.valid_curve_types@[i] == c.curve_type
    }

    /// The pool's fees respect the constraint schedule: the same
    /// denominators, numerators no lower, and the host split exactly as
    /// declared.
    pub open spec fn fees_ok(self, f: Fees) -> bool {
        &&& f.trade_fee_numerator >= self.fees.trade_fee_numerator
        &&& f.trade_fee_denominator == self.fees.trade_fee_denominator
        &&& f.owner_trade_fee_numerator >= self.fees.owner_trade_fee_numerator
        &&& f.owner_trade_fee_denominator == self.fees.owner_trade_fee_denominator
        &&& f.owner_withdraw_fee_numerator >= self.fees.owner_withdraw_fee_numerator
        &&& f.owner_withdraw_fee_denominator == self.fees.owner_withdraw_fee_denominator
        &&& f.host_fee_numerator == self.fees.host_fee_numerator
        &&& f.host_fee_denominator == self.fees.host_fee_denominator
    }

    /// Checks a curve against the allow-list.
    pub fn validate_curve(&self, c: &SwapCurve) -> (r: Result<(), SwapError>)
        ensures
            r is Ok <==> self.curve_ok(*c),
            r is Err ==> r == Err::<(), SwapError>(SwapError::UnsupportedCurveType),
    {
        let mut i: usize = 0;
        while i < self.valid_curve_types.len()
            invariant
                i <= self.valid_curve_types@.len(),
                forall|j: int| 0 <= j < i ==> self.valid_curve_types@[j] != c.curve_type,
            decreases self.valid_curve_types@.len() - i,
        {
            if self.valid_curve_types[i] == c.curve_type {
                return Ok(());
            }
            i = i + 1;
        }
        Err(SwapError::UnsupportedCurveType)
    }

    /// Checks a fee schedule against the constraint schedule.
    pub fn validate_fees(&self, f: &Fees) -> (r: Result<(), SwapError>)
        ensures
            r is Ok <==> self.fees_ok(*f),
            r is Err ==> r == Err::<(), SwapError>(SwapError::InvalidFee),
    {
        if f.trade_fee_numerator >= self.fees.trade_fee_numerator && f.trade_fee_denominator
            == self.fees.trade_fee_denominator && f.owner_trade_fee_numerator
            >= self.fees.owner_trade_fee_numerator && f.owner_trade_fee_denominator
            == self.fees.owner_trade_fee_denominator && f.owner_withdraw_fee_numerator
            >= self.fees.owner_withdraw_fee_numerator && f.owner_withdraw_fee_denominator
            == self.fees.owner_withdraw_fee_denominator && f.host_fee_numerator
            == self.fees.host_fee_numerator && f.host_fee_denominator
            == self.fees.host_fee_denominator {
            Ok(())
        } else {
            Err(SwapError::InvalidFee)
        }
    }
}

/// `a - b`, stopping at zero.
pub open spec fn sat_sub(a: int, b: int) -> int {
    if a >= b {
        a - b
    } else {
        0
    }
}

/// `a + b`, stopping at the largest token amount.
pub open spec fn sat_add_u64(a: int, b: int) -> int {
    if a + b > u64::MAX {
        u64::MAX as int
    } else {
        a + b
    }
}

/// The ledger-level transfer fee on `amount`: basis points of the amount,
/// rounded up, capped by the schedule's maximum.
pub open spec fn epoch_fee_spec(tf: TransferFee, amount: int) -> int {
    if tf.basis_points == 0 || amount == 0 {
        0
    } else {
        let raw = ceil_div_spec(amount * tf.basis_points, 10000);
        if raw < tf.maximum_fee {
            raw
        } else {
            tf.maximum_fee as int
        }
    }
}

/// Computes the ledger-level transfer fee the token ledger will deduct.
pub fn epoch_transfer_fee(tf: &TransferFee, amount: u64) -> (r: u64)
    ensures
        r == epoch_fee_spec(*tf, amount as int),
{
    if tf.basis_points == 0 || amount == 0 {
        return 0;
    }
    proof {
        assert((amount as int) * (tf.basis_points as int) <= u128::MAX) by (nonlinear_arith)
            requires
                amount <= u64::MAX,
                tf.basis_points <= u16::MAX,
        ;
    }
    let num = (amount as u128) * (tf.basis_points as u128);
    let floor = num / 10000;
    let rem = num % 10000;
    proof {
        lemma_fundamental_div_mod(num as int, 10000);
        lemma_mod_pos_bound(num as int, 10000);
        crate::math::lemma_ceil_div(num as int, 10000);
    }
    let raw = if rem > 0 {
        floor + 1
    } else {
        floor
    };
    if raw < tf.maximum_fee as u128 {
        raw as u64
    } else {
        tf.maximum_fee
    }
}

/// All fields of `s` read back from the packed record `b`: what unpacking
/// `b` yields, stated as a relation so laws can connect packing to every
/// later operation.
pub open spec fn state_matches(s: SwapV1, b: Seq<u8>) -> bool {
    &&& state_wf(b)
    &&& s.is_initialized == true
    &&& s.bump_seed == b[2]
    &&& s.token_program_id@ == b.subrange(3, 35)
    &&& s.token_a@ == b.subrange(35, 67)
    &&& s.token_b@ == b.subrange(67, 99)
    &&& s.pool_mint@ == b.subrange(99, 131)
    &&& s.token_a_mint@ == b.subrange(131, 163)
    &&& s.token_b_mint@ == b.subrange(163, 195)
    &&& s.pool_fee_account@ == b.subrange(195, 227)
    &&& s.fees == crate::fees::fees_parsed(b, 227)
    &&& s.swap_curve == (SwapCurve { curve_type: CurveType::ConstantProduct })
}

/// Two records that match the same bytes are the same record.
pub proof fn lemma_state_matches_unique(s1: SwapV1, s2: SwapV1, b: Seq<u8>)
    requires
        state_matches(s1, b),
        state_matches(s2, b),
    ensures
        s1 == s2,
{
    crate::keys::lemma_key_view_eq(s1.token_program_id, s2.token_program_id);
    crate::keys::lemma_key_view_eq(s1.token_a, s2.token_a);
    crate::keys::lemma_key_view_eq(s1.token_b, s2.token_b);
    crate::keys::lemma_key_view_eq(s1.pool_mint, s2.pool_mint);
    crate::keys::lemma_key_view_eq(s1.token_a_mint, s2.token_a_mint);
    crate::keys::lemma_key_view_eq(s1.token_b_mint, s2.token_b_mint);
    crate::keys::lemma_key_view_eq(s1.pool_fee_account, s2.pool_fee_account);
}

/// The shared account binding checks of every operation after
/// initialization, in their checking order.
pub open spec fn check_accounts_spec(
    token_swap: SwapV1,
    program_id: Key,
    swap_key: Key,
    swap_owner_program: Key,
    authority_key: Key,
    token_a_key: Key,
    token_b_key: Key,
    pool_mint_key: Key,
    pool_token_program_key: Key,
    user_token_a_key: Option<Key>,
    user_token_b_key: Option<Key>,
    pool_fee_account_key: Option<Key>,
) -> Option<SwapError> {
    if swap_owner_program@ != program_id@ {
        Some(SwapError::IncorrectProgramId)
    } else if !(derived_authority(swap_key@, token_swap.bump_seed, program_id@) matches Some(k)
        && k == authority_key@) {
        Some(SwapError::InvalidProgramAddress)
    } else if token_a_key@ != token_swap.token_a@ {
        Some(SwapError::IncorrectSwapAccount)
    } else if token_b_key@ != token_swap.token_b@ {
        Some(SwapError::IncorrectSwapAccount)
    } else if pool_mint_key@ != token_swap.pool_mint@ {
        Some(SwapError::IncorrectPoolMint)
    } else if pool_token_program_key@ != token_swap.token_program_id@ {
        Some(SwapError::IncorrectTokenProgramId)
    } else if user_token_a_key matches Some(k) && k@ == token_a_key@ {
        Some(SwapError::InvalidInput)
    } else if user_token_b_key matches Some(k) && k@ == token_b_key@ {
        Some(SwapError::InvalidInput)
    } else if pool_fee_account_key matches Some(k) && k@ != token_swap.pool_fee_account@ {
        Some(SwapError::IncorrectFeeAccount)
    } else {
        None
    }
}

impl Processor {
    /// Validates the caller's account list against the pool record.
    #[allow(clippy::too_many_arguments)]
    fn check_accounts(
        token_swap: &SwapV1,
        program_id: &Key,
        swap_key: &Key,
        swap_owner_program: &Key,
        authority_key: &Key,
        token_a_key: &Key,
        token_b_key: &Key,
        pool_mint_key: &Key,
        pool_token_program_key: &Key,
        user_token_a_key: Option<Key>,
        user_token_b_key: Option<Key>,
        pool_fee_account_key: Option<Key>,
    ) -> (r: Result<(), SwapError>)
        ensures
            r == (match check_accounts_spec(
                *token_swap,
                *program_id,
                *swap_key,
                *swap_owner_program,
                *authority_key,
                *token_a_key,
                *token_b_key,
                *pool_mint_key,
                *pool_token_program_key,
                user_token_a_key,
                user_token_b_key,
                pool_fee_account_key,
            ) {
                Some(e) => Err::<(), SwapError>(e),
                None => Ok::<(), SwapError>(()),
            }),
    {
        if !(*swap_owner_program == *program_id) {
            return Err(SwapError::IncorrectProgramId);
        }
        let derived = match authority_id(program_id, swap_key, token_swap.bump_seed) {
            Ok(k) => k,
            Err(e) => {
                return Err(e);
            },
        };
        if !(*authority_key == derived) {
            return Err(SwapError::InvalidProgramAddress);
        }
        if !(*token_a_key == token_swap.token_a) {
            return Err(SwapError::IncorrectSwapAccount);
        }
        if !(*token_b_key == token_swap.token_b) {
            return Err(SwapError::IncorrectSwapAccount);
        }
        if !(*pool_mint_key == token_swap.pool_mint) {
            return Err(SwapError::IncorrectPoolMint);
        }
        if !(*pool_token_program_key == token_swap.token_program_id) {
            return Err(SwapError::IncorrectTokenProgramId);
        }
        match user_token_a_key {
            Some(k) => {
                if k == *token_a_key {
                    return Err(SwapError::InvalidInput);
                }
            },
            None => {},
        }
        match user_token_b_key {
            Some(k) => {
                if k == *token_b_key {
                    return Err(SwapError::InvalidInput);
                }
            },
            None => {},
        }
        match pool_fee_account_key {
            Some(k) => {
                if !(k == token_swap.pool_fee_account) {
                    return Err(SwapError::IncorrectFeeAccount);
                }
            },
            None => {},
        }
        Ok(())
    }
}

/// The account list of an initialization, in wire order, with the host's
/// readings of each referenced ledger account.
pub struct InitializeAccounts {
    pub swap_key: Key,
    pub swap_data: Vec<u8>,
    pub authority_key: Key,
    pub token_a: AccountReading,
    pub token_b: AccountReading,
    pub pool_mint: MintReading,
    pub fee_account: AccountReading,
    pub destination: AccountReading,
    pub pool_token_program_key: Key,
}

/// What a successful initialization produces: the record to persist, its
/// packed bytes, and the single mint of the bootstrap pool-share supply.
pub struct InitializeOutcome {
    pub state: SwapV1,
    pub state_data: Vec<u8>,
    pub actions: Vec<LedgerAction>,
}

/// The validation sequence of an initialization after the authority has
/// matched, in checking order; `None` when the pool may open.
pub open spec fn initialize_validate(
    accs: InitializeAccounts,
    fees: Fees,
    swap_curve: SwapCurve,
    constraints: Option<SwapConstraints>,
    recognized: Seq<Key>,
) -> Option<SwapError> {
    let tp = accs.pool_token_program_key;
    match token_account_unpack_spec(accs.token_a, tp, recognized) {
        Err(e) => Some(e),
        Ok(token_a) => match token_account_unpack_spec(accs.token_b, tp, recognized) {
            Err(e) => Some(e),
            Ok(token_b) => match token_account_unpack_spec(accs.fee_account, tp, recognized) {
                Err(e) => Some(e),
                Ok(fee_account) => match token_account_unpack_spec(
                    accs.destination,
                    tp,
                    recognized,
                ) {
                    Err(e) => Some(e),
                    Ok(destination) => match mint_unpack_spec(accs.pool_mint, tp, recognized) {
                        Err(e) => Some(e),
                        Ok(pool_mint) => if pool_mint.has_close_authority {
                            Some(SwapError::InvalidCloseAuthority)
                        } else if accs.authority_key@ != token_a.owner@ {
                            Some(SwapError::InvalidOwner)
                        } else if accs.authority_key@ != token_b.owner@ {
                            Some(SwapError::InvalidOwner)
                        } else if accs.authority_key@ == destination.owner@ {
                            Some(SwapError::InvalidOutputOwner)
                        } else if accs.authority_key@ == fee_account.owner@ {
                            Some(SwapError::InvalidOutputOwner)
                        } else if !(pool_mint.mint_authority matches Some(k) && k@
                            == accs.authority_key@) {
                            Some(SwapError::InvalidOwner)
                        } else if token_a.mint@ == token_b.mint@ {
                            Some(SwapError::RepeatedMint)
                        } else if token_a.amount == 0 || token_b.amount == 0 {
                            Some(SwapError::EmptySupply)
                        } else if token_a.has_delegate {
                            Some(SwapError::InvalidDelegate)
                        } else if token_b.has_delegate {
                            Some(SwapError::InvalidDelegate)
                        } else if token_a.has_close_authority {
                            Some(SwapError::InvalidCloseAuthority)
                        } else if token_b.has_close_authority {
                            Some(SwapError::InvalidCloseAuthority)
                        } else if pool_mint.supply != 0 {
                            Some(SwapError::InvalidSupply)
                        } else if pool_mint.has_freeze_authority {
                            Some(SwapError::InvalidFreezeAuthority)
                        } else if accs.pool_mint.key@ != fee_account.mint@ {
                            Some(SwapError::IncorrectPoolMint)
                        } else {
                            match constraints {
                                Some(c) => if fee_account.owner@ != c.owner_key@ {
                                    Some(SwapError::InvalidOwner)
                                } else if !c.curve_ok(swap_curve) {
                                    Some(SwapError::UnsupportedCurveType)
                                } else if !c.fees_ok(fees) {
                                    Some(SwapError::InvalidFee)
                                } else if !fees.is_valid() {
                                    Some(SwapError::InvalidFee)
                                } else {
                                    None
                                },
                                None => if !fees.is_valid() {
                                    Some(SwapError::InvalidFee)
                                } else {
                                    None
                                },
                            }
                        },
                    },
                },
            },
        },
    }
}

/// The record a successful initialization persists.
pub open spec fn initialized_state(
    accs: InitializeAccounts,
    fees: Fees,
    swap_curve: SwapCurve,
    bump_seed: u8,
) -> SwapV1 {
    SwapV1 {
        is_initialized: true,
        bump_seed,
        token_program_id: accs.pool_token_program_key,
        token_a: accs.token_a.key,
        token_b: accs.token_b.key,
        pool_mint: accs.pool_mint.key,
        token_a_mint: accs.token_a.token.unwrap().mint,
        token_b_mint: accs.token_b.token.unwrap().mint,
        pool_fee_account: accs.fee_account.key,
        fees,
        swap_curve,
    }
}

impl Processor {
    /// Opens a pool. The pool account must not already hold a record, the
    /// supplied authority must equal a fresh canonical derivation, every
    /// referenced account must be custodied by that authority as the
    /// protocol demands, and the fee schedule and curve must validate.
    /// On success: one mint of the bootstrap share supply to the chosen
    /// destination, and the record to persist.
    pub fn process_initialize(
        program_id: &Key,
        fees: Fees,
        swap_curve: SwapCurve,
        accs: &InitializeAccounts,
        swap_constraints: &Option<SwapConstraints>,
        recognized: &Vec<Key>,
    ) -> (r: Result<InitializeOutcome, SwapError>)
        ensures
            state_wf(accs.swap_data@) ==> (r matches Err(e) && e == SwapError::AlreadyInUse),
            (!state_wf(accs.swap_data@) && (forall|b: u8|
                derived_authority(accs.swap_key@, b, program_id@) is None)) ==> (r matches Err(e)
                && e == SwapError::InvalidProgramAddress),
            forall|b: u8|
                (!state_wf(accs.swap_data@) && #[trigger] canonical_bump(
                    accs.swap_key@,
                    program_id@,
                    b,
                ) && derived_authority(accs.swap_key@, b, program_id@) != Some(accs.authority_key@))
                    ==> (r matches Err(e) && e == SwapError::InvalidProgramAddress),
            forall|b: u8|
                (!state_wf(accs.swap_data@) && #[trigger] canonical_bump(
                    accs.swap_key@,
                    program_id@,
                    b,
                ) && derived_authority(accs.swap_key@, b, program_id@) == Some(accs.authority_key@))
                    ==> (match initialize_validate(
                    *accs,
                    fees,
                    swap_curve,
                    *swap_constraints,
                    recognized@,
                ) {
                    Some(e) => r == Err::<InitializeOutcome, SwapError>(e),
                    None => (r matches Ok(out) && {
                        &&& out.state == initialized_state(*accs, fees, swap_curve, b)
                        &&& out.state_data@ == state_bytes(out.state)
                        &&& out.actions@ =~= seq![
                            LedgerAction::MintTo {
                                token_program: accs.pool_token_program_key,
                                mint: accs.pool_mint.key,
                                destination: accs.destination.key,
                                authority: accs.authority_key,
                                amount: INITIAL_SWAP_POOL_AMOUNT as u64,
                            },
                        ]
                    }),
                }),
    {
        if SwapV1::is_initialized_bytes(accs.swap_data.as_slice()) {
            return Err(SwapError::AlreadyInUse);
        }
        let (swap_authority, bump_seed) = match find_authority(&accs.swap_key, program_id) {
            Some(p) => p,
            None => {
                return Err(SwapError::InvalidProgramAddress);
            },
        };
        proof {
            lemma_canonical_bump_unique(accs.swap_key@, program_id@, bump_seed);
        }
        if !(accs.authority_key == swap_authority) {
            return Err(SwapError::InvalidProgramAddress);
        }
        let token_a = match unpack_token_account(
            &accs.token_a,
            &accs.pool_token_program_key,
            recognized,
        ) {
            Ok(v) => v,
            Err(e) => {
                return Err(e);
            },
        };
        let token_b = match unpack_token_account(
            &accs.token_b,
            &accs.pool_token_program_key,
            recognized,
        ) {
            Ok(v) => v,
            Err(e) => {
                return Err(e);
            },
        };
        let fee_account = match unpack_token_account(
            &accs.fee_account,
            &accs.pool_token_program_key,
            recognized,
        ) {
            Ok(v) => v,
            Err(e) => {
                return Err(e);
            },
        };
        let destination = match unpack_token_account(
            &accs.destination,
            &accs.pool_token_program_key,
            recognized,
        ) {
            Ok(v) => v,
            Err(e) => {
                return Err(e);
            },
        };
        let pool_mint = match unpack_mint(
            &accs.pool_mint,
            &accs.pool_token_program_key,
            recognized,
        ) {
            Ok(v) => v,
            Err(e) => {
                return Err(e);
            },
        };
        if pool_mint.has_close_authority {
            return Err(SwapError::InvalidCloseAuthority);
        }
        if !(accs.authority_key == token_a.owner) {
            return Err(SwapError::InvalidOwner);
        }
        if !(accs.authority_key == token_b.owner) {
            return Err(SwapError::InvalidOwner);
        }
        if accs.authority_key == destination.owner {
            return Err(SwapError::InvalidOutputOwner);
        }
        if accs.authority_key == fee_account.owner {
            return Err(SwapError::InvalidOutputOwner);
        }
        let mint_authority_ok = match &pool_mint.mint_authority {
            Some(k) => *k == accs.authority_key,
            None => false,
        };
        if !mint_authority_ok {
            return Err(SwapError::InvalidOwner);
        }
        if token_a.mint == token_b.mint {
            return Err(SwapError::RepeatedMint);
        }
        match swap_curve.validate_supply(token_a.amount, token_b.amount) {
            Ok(_) => {},
            Err(e) => {
                return Err(e);
            },
        }
        if token_a.has_delegate {
            return Err(SwapError::InvalidDelegate);
        }
        if token_b.has_delegate {
            return Err(SwapError::InvalidDelegate);
        }
        if token_a.has_close_authority {
            return Err(SwapError::InvalidCloseAuthority);
        }
        if token_b.has_close_authority {
            return Err(SwapError::InvalidCloseAuthority);
        }
        if pool_mint.supply != 0 {
            return Err(SwapError::InvalidSupply);
        }
        if pool_mint.has_freeze_authority {
            return Err(SwapError::InvalidFreezeAuthority);
        }
        if !(accs.pool_mint.key == fee_account.mint) {
            return Err(SwapError::IncorrectPoolMint);
        }
        match swap_constraints {
            Some(constraints) => {
                if !(fee_account.owner == constraints.owner_key) {
                    return Err(SwapError::InvalidOwner);
                }
                match constraints.validate_curve(&swap_curve) {
                    Ok(_) => {},
                    Err(e) => {
                        return Err(e);
                    },
                }
                match constraints.validate_fees(&fees) {
                    Ok(_) => {},
                    Err(e) => {
                        return Err(e);
                    },
                }
            },
            None => {},
        }
        match fees.validate() {
            Ok(_) => {},
            Err(e) => {
                return Err(e);
            },
        }
        match swap_curve.validate() {
            Ok(_) => {},
            Err(e) => {
                return Err(e);
            },
        }
        let initial_amount = swap_curve.new_pool_supply();
        let initial_mint_amount = match to_u64(initial_amount) {
            Ok(v) => v,
            Err(e) => {
                return Err(e);
            },
        };
        let state = SwapV1 {
            is_initialized: true,
            bump_seed,
            token_program_id: accs.pool_token_program_key,
            token_a: accs.token_a.key,
            token_b: accs.token_b.key,
            pool_mint: accs.pool_mint.key,
            token_a_mint: token_a.mint,
            token_b_mint: token_b.mint,
            pool_fee_account: accs.fee_account.key,
            fees,
            swap_curve,
        };
        let state_data = state.pack();
        let mut actions: Vec<LedgerAction> = Vec::new();
        actions.push(
            LedgerAction::MintTo {
                token_program: accs.pool_token_program_key,
                mint: accs.pool_mint.key,
                destination: accs.destination.key,
                authority: accs.authority_key,
                amount: initial_mint_amount,
            },
        );
        Ok(InitializeOutcome { state, state_data, actions })
    }
}

/// Two canonical bumps of one pool and program are the same bump.
pub proof fn lemma_canonical_bump_unique(pool: Seq<u8>, program: Seq<u8>, b: u8)
    requires
        canonical_bump(pool, program, b),
    ensures
        forall|b2: u8| #[trigger] canonical_bump(pool, program, b2) ==> b2 == b,
{
    assert forall|b2: u8| #[trigger] canonical_bump(pool, program, b2) implies b2 == b by {
        if b2 > b {
            assert(derived_authority(pool, b2, program) is None);
        }
        if b2 < b {
            assert(derived_authority(pool, b, program) is None);
        }
    }
}

/// The fee collector reference is usable: it parses, the pool's ledger
/// program owns it, and it is denominated in pool shares.
pub open spec fn pool_fee_info_ok(s: SwapV1, fee_acc: AccountReading) -> bool {
    &&& fee_acc.token is Some
    &&& fee_acc.owner_program@ == s.token_program_id@
    &&& fee_acc.token.unwrap().mint@ == s.pool_mint@
}

fn check_pool_fee_info(token_swap: &SwapV1, fee_acc: &AccountReading) -> (r: bool)
    ensures
        r == pool_fee_info_ok(*token_swap, *fee_acc),
{
    match &fee_acc.token {
        Some(t) => fee_acc.owner_program == token_swap.token_program_id && t.mint
            == token_swap.pool_mint,
        None => false,
    }
}

/// The account list of a swap, in wire order.
pub struct SwapAccounts {
    pub swap_key: Key,
    pub swap_owner_program: Key,
    pub swap_data: Vec<u8>,
    pub authority_key: Key,
    pub user_transfer_authority_key: Key,
    pub source_key: Key,
    pub swap_source: AccountReading,
    pub swap_destination: AccountReading,
    pub destination_key: Key,
    pub pool_mint: MintReading,
    pub pool_fee_account: AccountReading,
    pub source_token_mint: MintReading,
    pub destination_token_mint: MintReading,
    pub source_token_program_key: Key,
    pub destination_token_program_key: Key,
    pub pool_token_program_key: Key,
    pub host_fee_account: Option<AccountReading>,
}

/// What a swap performs: the ledger calls in order, the curve outcome,
/// and the exact amounts moved in and out.
pub struct SwapOutcome {
    pub actions: Vec<LedgerAction>,
    pub result: SwapResult,
    pub source_transfer_amount: u64,
    pub destination_transfer_amount: u64,
}

/// The owner-fee mint at the end of a swap: only where the fee collector
/// reference is usable; a burned fee account waives the fee.
pub open spec fn owner_mint_spec(s: SwapV1, a: SwapAccounts, amount: int) -> Result<
    Seq<LedgerAction>,
    SwapError,
> {
    if pool_fee_info_ok(s, a.pool_fee_account) {
        if amount > u64::MAX {
            Err(SwapError::ConversionFailure)
        } else {
            Ok(
                seq![
                    LedgerAction::MintTo {
                        token_program: a.pool_token_program_key,
                        mint: a.pool_mint.key,
                        destination: a.pool_fee_account.key,
                        authority: a.authority_key,
                        amount: amount as u64,
                    },
                ],
            )
        }
    } else {
        Ok(Seq::empty())
    }
}

/// The fee mints of a swap: nothing when no owner fee accrued; otherwise
/// an optional host split followed by the owner mint.
pub open spec fn swap_fee_mints_spec(
    s: SwapV1,
    a: SwapAccounts,
    recognized: Seq<Key>,
    pool_token_amount: int,
) -> Result<Seq<LedgerAction>, SwapError> {
    if pool_token_amount == 0 {
        Ok(Seq::empty())
    } else {
        match a.host_fee_account {
            Some(h) => match token_account_unpack_spec(h, s.token_program_id, recognized) {
                Err(e) => Err(e),
                Ok(host) => if a.pool_mint.key@ != host.mint@ {
                    Err(SwapError::IncorrectPoolMint)
                } else {
                    match fee_result(
                        pool_token_amount,
                        s.fees.host_fee_numerator as int,
                        s.fees.host_fee_denominator as int,
                    ) {
                        None => Err(SwapError::FeeCalculationFailure),
                        Some(host_fee) => if host_fee > 0 {
                            if host_fee > pool_token_amount {
                                Err(SwapError::FeeCalculationFailure)
                            } else if host_fee > u64::MAX {
                                Err(SwapError::ConversionFailure)
                            } else {
                                match owner_mint_spec(s, a, pool_token_amount - host_fee) {
                                    Err(e) => Err(e),
                                    Ok(rest) => Ok(
                                        seq![
                                            LedgerAction::MintTo {
                                                token_program: a.pool_token_program_key,
                                                mint: a.pool_mint.key,
                                                destination: h.key,
                                                authority: a.authority_key,
                                                amount: host_fee as u64,
                                            },
                                        ] + rest,
                                    ),
                                }
                            }
                        } else {
                            owner_mint_spec(s, a, pool_token_amount)
                        },
                    }
                },
            },
            None => owner_mint_spec(s, a, pool_token_amount),
        }
    }
}

/// The back half of a swap: narrowing the curve amounts, applying the
/// ledger-level transfer fees, the slippage guard, and the fee mints.
pub open spec fn swap_tail_spec(
    s: SwapV1,
    a: SwapAccounts,
    minimum_amount_out: u64,
    recognized: Seq<Key>,
    dir: TradeDirection,
    result: SwapResult,
    source_mint: MintView,
    pool_mint: MintView,
) -> Result<(Seq<LedgerAction>, SwapResult, u64, u64), SwapError> {
    if result.source_amount_swapped > u64::MAX {
        Err(SwapError::ConversionFailure)
    } else {
        let source_swapped = result.source_amount_swapped as int;
        let source_transfer_amount = match source_mint.transfer_fee {
            Some(tf) => sat_add_u64(source_swapped, epoch_fee_spec(tf, source_swapped)),
            None => source_swapped,
        };
        match mint_unpack_spec(a.destination_token_mint, s.token_program_id, recognized) {
            Err(e) => Err(e),
            Ok(dest_mint) => if result.destination_amount_swapped > u64::MAX {
                Err(SwapError::ConversionFailure)
            } else {
                let amount_out = result.destination_amount_swapped as int;
                let amount_received = match dest_mint.transfer_fee {
                    Some(tf) => sat_sub(amount_out, epoch_fee_spec(tf, amount_out)),
                    None => amount_out,
                };
                if amount_received < minimum_amount_out {
                    Err(SwapError::ExceededSlippage)
                } else {
                    let swap_token_a_amount = if dir == TradeDirection::AtoB {
                        result.new_swap_source_amount as int
                    } else {
                        result.new_swap_destination_amount as int
                    };
                    let swap_token_b_amount = if dir == TradeDirection::AtoB {
                        result.new_swap_destination_amount as int
                    } else {
                        result.new_swap_source_amount as int
                    };
                    match withdraw_single_spec(
                        s.fees,
                        result.owner_fee as int,
                        swap_token_a_amount,
                        swap_token_b_amount,
                        pool_mint.supply as int,
                        dir,
                    ) {
                        None => Err(SwapError::FeeCalculationFailure),
                        Some(pool_token_amount) => match swap_fee_mints_spec(
                            s,
                            a,
                            recognized,
                            pool_token_amount as int,
                        ) {
                            Err(e) => Err(e),
                            Ok(mids) => Ok(
                                (
                                    seq![
                                        LedgerAction::Transfer {
                                            token_program: a.source_token_program_key,
                                            source: a.source_key,
                                            mint: a.source_token_mint.key,
                                            destination: a.swap_source.key,
                                            authority: a.user_transfer_authority_key,
                                            amount: source_transfer_amount as u64,
                                            decimals: source_mint.decimals,
                                        },
                                    ] + mids + seq![
                                        LedgerAction::Transfer {
                                            token_program: a.destination_token_program_key,
                                            source: a.swap_destination.key,
                                            mint: a.destination_token_mint.key,
                                            destination: a.destination_key,
                                            authority: a.authority_key,
                                            amount: amount_out as u64,
                                            decimals: dest_mint.decimals,
                                        },
                                    ],
                                    result,
                                    source_transfer_amount as u64,
                                    amount_out as u64,
                                ),
                            ),
                        },
                    }
                }
            },
        }
    }
}

/// The whole decision of a swap against an unpacked pool record, in the
/// checking order of the protocol.
pub open spec fn process_swap_spec(
    s: SwapV1,
    program_id: Key,
    amount_in: u64,
    minimum_amount_out: u64,
    a: SwapAccounts,
    recognized: Seq<Key>,
) -> Result<(Seq<LedgerAction>, SwapResult, u64, u64), SwapError> {
    if !(derived_authority(a.swap_key@, s.bump_seed, program_id@) matches Some(k) && k
        == a.authority_key@) {
        Err(SwapError::InvalidProgramAddress)
    } else if !(a.swap_source.key@ == s.token_a@ || a.swap_source.key@ == s.token_b@) {
        Err(SwapError::IncorrectSwapAccount)
    } else if !(a.swap_destination.key@ == s.token_a@ || a.swap_destination.key@ == s.token_b@) {
        Err(SwapError::IncorrectSwapAccount)
    } else if a.swap_source.key@ == a.swap_destination.key@ {
        Err(SwapError::InvalidInput)
    } else if a.swap_source.key@ == a.source_key@ {
        Err(SwapError::InvalidInput)
    } else if a.swap_destination.key@ == a.destination_key@ {
        Err(SwapError::InvalidInput)
    } else if a.pool_mint.key@ != s.pool_mint@ {
        Err(SwapError::IncorrectPoolMint)
    } else if a.pool_fee_account.key@ != s.pool_fee_account@ {
        Err(SwapError::IncorrectFeeAccount)
    } else if a.pool_token_program_key@ != s.token_program_id@ {
        Err(SwapError::IncorrectTokenProgramId)
    } else {
        match token_account_unpack_spec(a.swap_source, s.token_program_id, recognized) {
            Err(e) => Err(e),
            Ok(source_account) => match token_account_unpack_spec(
                a.swap_destination,
                s.token_program_id,
                recognized,
            ) {
                Err(e) => Err(e),
                Ok(dest_account) => match mint_unpack_spec(
                    a.pool_mint,
                    s.token_program_id,
                    recognized,
                ) {
                    Err(e) => Err(e),
                    Ok(pool_mint) => match mint_unpack_spec(
                        a.source_token_mint,
                        s.token_program_id,
                        recognized,
                    ) {
                        Err(e) => Err(e),
                        Ok(source_mint) => {
                            let actual_amount_in = match source_mint.transfer_fee {
                                Some(tf) => sat_sub(
                                    amount_in as int,
                                    epoch_fee_spec(tf, amount_in as int),
                                ),
                                None => amount_in as int,
                            };
                            let dir = if a.swap_source.key@ == s.token_a@ {
                                TradeDirection::AtoB
                            } else {
                                TradeDirection::BtoA
                            };
                            match curve_swap_spec(
                                s.fees,
                                actual_amount_in,
                                source_account.amount as int,
                                dest_account.amount as int,
                            ) {
                                None => Err(SwapError::ZeroTradingTokens),
                                Some(result) => swap_tail_spec(
                                    s,
                                    a,
                                    minimum_amount_out,
                                    recognized,
                                    dir,
                                    result,
                                    source_mint,
                                    pool_mint,
                                ),
                            }
                        },
                    },
                },
            },
        }
    }
}

impl Processor {
    /// The fee mints at the end of a swap, as `swap_fee_mints_spec` lays
    /// them out.
    fn swap_fee_mints(
        token_swap: &SwapV1,
        accs: &SwapAccounts,
        recognized: &Vec<Key>,
        pool_token_amount: u128,
    ) -> (r: Result<Vec<LedgerAction>, SwapError>)
        ensures
            (match swap_fee_mints_spec(*token_swap, *accs, recognized@, pool_token_amount as int) {
                Err(e) => r == Err::<Vec<LedgerAction>, SwapError>(e),
                Ok(t) => (r matches Ok(v) && v@ == t),
            }),
    {
        let mut actions: Vec<LedgerAction> = Vec::new();
        if pool_token_amount == 0 {
            proof {
                assert(actions@ =~= Seq::<LedgerAction>::empty());
            }
            return Ok(actions);
        }
        let mut remaining_pool_fee = pool_token_amount;
        match &accs.host_fee_account {
            Some(h) => {
                let host_account = match unpack_token_account(
                    h,
                    &token_swap.token_program_id,
                    recognized,
                ) {
                    Ok(v) => v,
                    Err(e) => {
                        return Err(e);
                    },
                };
                if !(accs.pool_mint.key == host_account.mint) {
                    return Err(SwapError::IncorrectPoolMint);
                }
                let host_fee = match token_swap.fees.host_fee(pool_token_amount) {
                    Some(v) => v,
                    None => {
                        return Err(SwapError::FeeCalculationFailure);
                    },
                };
                if host_fee > 0 {
                    remaining_pool_fee = match remaining_pool_fee.checked_sub(host_fee) {
                        Some(v) => v,
                        None => {
                            return Err(SwapError::FeeCalculationFailure);
                        },
                    };
                    let host_fee_64 = match to_u64(host_fee) {
                        Ok(v) => v,
                        Err(e) => {
                            return Err(e);
                        },
                    };
                    actions.push(
                        LedgerAction::MintTo {
                            token_program: accs.pool_token_program_key,
                            mint: accs.pool_mint.key,
                            destination: h.key,
                            authority: accs.authority_key,
                            amount: host_fee_64,
                        },
                    );
                }
            },
            None => {},
        }
        if check_pool_fee_info(token_swap, &accs.pool_fee_account) {
            let owner_fee_64 = match to_u64(remaining_pool_fee) {
                Ok(v) => v,
                Err(e) => {
                    return Err(e);
                },
            };
            actions.push(
                LedgerAction::MintTo {
                    token_program: accs.pool_token_program_key,
                    mint: accs.pool_mint.key,
                    destination: accs.pool_fee_account.key,
                    authority: accs.authority_key,
                    amount: owner_fee_64,
                },
            );
        }
        proof {
            let t = swap_fee_mints_spec(*token_swap, *accs, recognized@, pool_token_amount as int);
            assert(t matches Ok(tt) && actions@ =~= tt);
        }
        Ok(actions)
    }

    /// The back half of a swap, as `swap_tail_spec` lays it out.
    fn swap_tail(
        token_swap: &SwapV1,
        accs: &SwapAccounts,
        minimum_amount_out: u64,
        recognized: &Vec<Key>,
        trade_direction: TradeDirection,
        result: SwapResult,
        source_mint: MintView,
        pool_mint: MintView,
    ) -> (r: Result<SwapOutcome, SwapError>)
        ensures
            (match swap_tail_spec(
                *token_swap,
                *accs,
                minimum_amount_out,
                recognized@,
                trade_direction,
                result,
                source_mint,
                pool_mint,
            ) {
                Err(e) => r == Err::<SwapOutcome, SwapError>(e),
                Ok(t) => (r matches Ok(o) && {
                    &&& o.actions@ == t.0
                    &&& o.result == t.1
                    &&& o.source_transfer_amount == t.2
                    &&& o.destination_transfer_amount == t.3
                }),
            }),
    {
        let source_amount_swapped = match to_u64(result.source_amount_swapped) {
            Ok(v) => v,
            Err(e) => {
                return Err(e);
            },
        };
        let source_transfer_amount = match &source_mint.transfer_fee {
            Some(tf) => {
                let fee = epoch_transfer_fee(tf, source_amount_swapped);
                if source_amount_swapped as u128 + fee as u128 > u64::MAX as u128 {
                    u64::MAX
                } else {
                    source_amount_swapped + fee
                }
            },
            None => source_amount_swapped,
        };
        let dest_mint = match unpack_mint(
            &accs.destination_token_mint,
            &token_swap.token_program_id,
            recognized,
        ) {
            Ok(v) => v,
            Err(e) => {
                return Err(e);
            },
        };
        let amount_out = match to_u64(result.destination_amount_swapped) {
            Ok(v) => v,
            Err(e) => {
                return Err(e);
            },
        };
        let amount_received = match &dest_mint.transfer_fee {
            Some(tf) => {
                let fee = epoch_transfer_fee(tf, amount_out);
                if amount_out >= fee {
                    amount_out - fee
                } else {
                    0
                }
            },
            None => amount_out,
        };
        if amount_received < minimum_amount_out {
            return Err(SwapError::ExceededSlippage);
        }
        let (swap_token_a_amount, swap_token_b_amount) = match trade_direction {
            TradeDirection::AtoB => (
                result.new_swap_source_amount,
                result.new_swap_destination_amount,
            ),
            TradeDirection::BtoA => (
                result.new_swap_destination_amount,
                result.new_swap_source_amount,
            ),
        };
        let pool_token_amount = match token_swap.swap_curve.withdraw_single_token_type_exact_out(
            result.owner_fee,
            swap_token_a_amount,
            swap_token_b_amount,
            pool_mint.supply as u128,
            trade_direction,
            &token_swap.fees,
        ) {
            Some(v) => v,
            None => {
                return Err(SwapError::FeeCalculationFailure);
            },
        };
        let mids = match Self::swap_fee_mints(token_swap, accs, recognized, pool_token_amount) {
            Ok(v) => v,
            Err(e) => {
                return Err(e);
            },
        };
        let mut actions: Vec<LedgerAction> = Vec::new();
        actions.push(
            LedgerAction::Transfer {
                token_program: accs.source_token_program_key,
                source: accs.source_key,
                mint: accs.source_token_mint.key,
                destination: accs.swap_source.key,
                authority: accs.user_transfer_authority_key,
                amount: source_transfer_amount,
                decimals: source_mint.decimals,
            },
        );
        let mut i: usize = 0;
        while i < mids.len()
            invariant
                i <= mids@.len(),
                actions@ == seq![
                    LedgerAction::Transfer {
                        token_program: accs.source_token_program_key,
                        source: accs.source_key,
                        mint: accs.source_token_mint.key,
                        destination: accs.swap_source.key,
                        authority: accs.user_transfer_authority_key,
                        amount: source_transfer_amount,
                        decimals: source_mint.decimals,
                    },
                ] + mids@.take(i as int),
            decreases mids@.len() - i,
        {
            actions.push(mids[i]);
            proof {
                assert(mids@.take((i + 1) as int) =~= mids@.take(i as int) + seq![mids@[i as int]]);
                assert(actions@ =~= seq![
                    LedgerAction::Transfer {
                        token_program: accs.source_token_program_key,
                        source: accs.source_key,
                        mint: accs.source_token_mint.key,
                        destination: accs.swap_source.key,
                        authority: accs.user_transfer_authority_key,
                        amount: source_transfer_amount,
                        decimals: source_mint.decimals,
                    },
                ] + mids@.take((i + 1) as int));
            }
            i = i + 1;
        }
        actions.push(
            LedgerAction::Transfer {
                token_program: accs.destination_token_program_key,
                source: accs.swap_destination.key,
                mint: accs.destination_token_mint.key,
                destination: accs.destination_key,
                authority: accs.authority_key,
                amount: amount_out,
                decimals: dest_mint.decimals,
            },
        );
        proof {
            assert(mids@.take(mids@.len() as int) =~= mids@);
            let t = swap_tail_spec(
                *token_swap,
                *accs,
                minimum_amount_out,
                recognized@,
                trade_direction,
                result,
                source_mint,
                pool_mint,
            );
            assert(t matches Ok(tt) && actions@ =~= tt.0);
        }
        Ok(
            SwapOutcome {
                actions,
                result,
                source_transfer_amount,
                destination_transfer_amount: amount_out,
            },
        )
    }

    /// Trades an exact input for at least `minimum_amount_out`. All account
    /// bindings are validated first, the ledger-level transfer fees of both
    /// assets are accounted for, the curve computes the amounts, and the
    /// resulting ledger calls come back in order: input transfer, fee
    /// mints, output transfer. Nothing is performed on any error.
    #[verifier::rlimit(100)]
    pub fn process_swap(
        program_id: &Key,
        amount_in: u64,
        minimum_amount_out: u64,
        accs: &SwapAccounts,
        recognized: &Vec<Key>,
    ) -> (r: Result<SwapOutcome, SwapError>)
        ensures
            accs.swap_owner_program@ != program_id@ ==> r == Err::<SwapOutcome, SwapError>(
                SwapError::IncorrectProgramId,
            ),
            (accs.swap_owner_program@ == program_id@ && !state_wf(accs.swap_data@)) ==> (r
                == Err::<SwapOutcome, SwapError>(SwapError::InvalidState) || r == Err::<
                SwapOutcome,
                SwapError,
            >(SwapError::UnsupportedCurveType)),
            forall|s: SwapV1|
                (accs.swap_owner_program@ == program_id@ && #[trigger] state_matches(
                    s,
                    accs.swap_data@,
                )) ==> (match process_swap_spec(
                    s,
                    *program_id,
                    amount_in,
                    minimum_amount_out,
                    *accs,
                    recognized@,
                ) {
                    Err(e) => r == Err::<SwapOutcome, SwapError>(e),
                    Ok(t) => (r matches Ok(o) && {
                        &&& o.actions@ == t.0
                        &&& o.result == t.1
                        &&& o.source_transfer_amount == t.2
                        &&& o.destination_transfer_amount == t.3
                    }),
                }),
    {
        if !(accs.swap_owner_program == *program_id) {
            return Err(SwapError::IncorrectProgramId);
        }
        let token_swap = match SwapV1::unpack(accs.swap_data.as_slice()) {
            Ok(s) => s,
            Err(e) => {
                return Err(e);
            },
        };
        proof {
            assert(state_matches(token_swap, accs.swap_data@));
            assert forall|s: SwapV1| #[trigger]
                state_matches(s, accs.swap_data@) implies s == token_swap by {
                lemma_state_matches_unique(s, token_swap, accs.swap_data@);
            }
        }
        let derived = match authority_id(program_id, &accs.swap_key, token_swap.bump_seed) {
            Ok(k) => k,
            Err(e) => {
                return Err(e);
            },
        };
        if !(accs.authority_key == derived) {
            return Err(SwapError::InvalidProgramAddress);
        }
        if !(accs.swap_source.key == token_swap.token_a || accs.swap_source.key
            == token_swap.token_b) {
            return Err(SwapError::IncorrectSwapAccount);
        }
        if !(accs.swap_destination.key == token_swap.token_a || accs.swap_destination.key
            == token_swap.token_b) {
            return Err(SwapError::IncorrectSwapAccount);
        }
        if accs.swap_source.key == accs.swap_destination.key {
            return Err(SwapError::InvalidInput);
        }
        if accs.swap_source.key == accs.source_key {
            return Err(SwapError::InvalidInput);
        }
        if accs.swap_destination.key == accs.destination_key {
            return Err(SwapError::InvalidInput);
        }
        if !(accs.pool_mint.key == token_swap.pool_mint) {
            return Err(SwapError::IncorrectPoolMint);
        }
        if !(accs.pool_fee_account.key == token_swap.pool_fee_account) {
            return Err(SwapError::IncorrectFeeAccount);
        }
        if !(accs.pool_token_program_key == token_swap.token_program_id) {
            return Err(SwapError::IncorrectTokenProgramId);
        }
        let source_account = match unpack_token_account(
            &accs.swap_source,
            &token_swap.token_program_id,
            recognized,
        ) {
            Ok(v) => v,
            Err(e) => {
                return Err(e);
            },
        };
        let dest_account = match unpack_token_account(
            &accs.swap_destination,
            &token_swap.token_program_id,
            recognized,
        ) {
            Ok(v) => v,
            Err(e) => {
                return Err(e);
            },
        };
        let pool_mint = match unpack_mint(
            &accs.pool_mint,
            &token_swap.token_program_id,
            recognized,
        ) {
            Ok(v) => v,
            Err(e) => {
                return Err(e);
            },
        };
        let source_mint = match unpack_mint(
            &accs.source_token_mint,
            &token_swap.token_program_id,
            recognized,
        ) {
            Ok(v) => v,
            Err(e) => {
                return Err(e);
            },
        };
        // Effective input after the asset's own transfer fee.
        let actual_amount_in = match &source_mint.transfer_fee {
            Some(tf) => {
                let fee = epoch_transfer_fee(tf, amount_in);
                if amount_in >= fee {
                    amount_in - fee
                } else {
                    0
                }
            },
            None => amount_in,
        };
        let trade_direction = if accs.swap_source.key == token_swap.token_a {
            TradeDirection::AtoB
        } else {
            TradeDirection::BtoA
        };
        let result = match token_swap.swap_curve.swap(
            actual_amount_in as u128,
            source_account.amount as u128,
            dest_account.amount as u128,
            trade_direction,
            &token_swap.fees,
        ) {
            Some(v) => v,
            None => {
                return Err(SwapError::ZeroTradingTokens);
            },
        };
        Self::swap_tail(
            &token_swap,
            accs,
            minimum_amount_out,
            recognized,
            trade_direction,
            result,
            source_mint,
            pool_mint,
        )
    }
}

/// The account list of a proportional deposit, in wire order.
pub struct DepositAllAccounts {
    pub swap_key: Key,
    pub swap_owner_program: Key,
    pub swap_data: Vec<u8>,
    pub authority_key: Key,
    pub user_transfer_authority_key: Key,
    pub source_a_key: Key,
    pub source_b_key: Key,
    pub token_a: AccountReading,
    pub token_b: AccountReading,
    pub pool_mint: MintReading,
    pub dest_key: Key,
    pub token_a_mint: MintReading,
    pub token_b_mint: MintReading,
    pub token_a_program_key: Key,
    pub token_b_program_key: Key,
    pub pool_token_program_key: Key,
}

/// What a proportional deposit performs.
pub struct DepositAllOutcome {
    pub actions: Vec<LedgerAction>,
    pub token_a_amount: u64,
    pub token_b_amount: u64,
    pub pool_token_amount: u64,
}

/// The whole decision of a proportional deposit against an unpacked pool
/// record: the nominal share amount (or, on the first deposit, the
/// bootstrap supply) is converted to both token amounts, rounded up, and
/// each is held to the caller's maximum and rejected at zero.
pub open spec fn deposit_all_spec(
    s: SwapV1,
    program_id: Key,
    pool_token_amount: u64,
    maximum_token_a_amount: u64,
    maximum_token_b_amount: u64,
    a: DepositAllAccounts,
    recognized: Seq<Key>,
) -> Result<(Seq<LedgerAction>, u64, u64, u64), SwapError> {
    match check_accounts_spec(
        s,
        program_id,
        a.swap_key,
        a.swap_owner_program,
        a.authority_key,
        a.token_a.key,
        a.token_b.key,
        a.pool_mint.key,
        a.pool_token_program_key,
        Some(a.source_a_key),
        Some(a.source_b_key),
        None,
    ) {
        Some(e) => Err(e),
        None => match token_account_unpack_spec(a.token_a, s.token_program_id, recognized) {
            Err(e) => Err(e),
            Ok(token_a) => match token_account_unpack_spec(a.token_b, s.token_program_id, recognized) {
                Err(e) => Err(e),
                Ok(token_b) => match mint_unpack_spec(a.pool_mint, s.token_program_id, recognized) {
                    Err(e) => Err(e),
                    Ok(pool_mint) => {
                        let pt: int = if pool_mint.supply > 0 {
                            pool_token_amount as int
                        } else {
                            INITIAL_SWAP_POOL_AMOUNT as int
                        };
                        let supply: int = if pool_mint.supply > 0 {
                            pool_mint.supply as int
                        } else {
                            INITIAL_SWAP_POOL_AMOUNT as int
                        };
                        if !ptt_ok(pt, supply, token_a.amount as int, token_b.amount as int) {
                            Err(SwapError::ZeroTradingTokens)
                        } else {
                            let ta = ptt_rounded(
                                pt,
                                supply,
                                token_a.amount as int,
                                RoundDirection::Ceiling,
                            );
                            let tb = ptt_rounded(
                                pt,
                                supply,
                                token_b.amount as int,
                                RoundDirection::Ceiling,
                            );
                            if ta > u64::MAX {
                                Err(SwapError::ConversionFailure)
                            } else if ta > maximum_token_a_amount {
                                Err(SwapError::ExceededSlippage)
                            } else if ta == 0 {
                                Err(SwapError::ZeroTradingTokens)
                            } else if tb > u64::MAX {
                                Err(SwapError::ConversionFailure)
                            } else if tb > maximum_token_b_amount {
                                Err(SwapError::ExceededSlippage)
                            } else if tb == 0 {
                                Err(SwapError::ZeroTradingTokens)
                            } else {
                                match mint_unpack_spec(a.token_a_mint, s.token_program_id, recognized) {
                                    Err(e) => Err(e),
                                    Ok(mint_a) => match mint_unpack_spec(
                                        a.token_b_mint,
                                        s.token_program_id,
                                        recognized,
                                    ) {
                                        Err(e) => Err(e),
                                        Ok(mint_b) => Ok(
                                            (
                                                seq![
                                                    LedgerAction::Transfer {
                                                        token_program: a.token_a_program_key,
                                                        source: a.source_a_key,
                                                        mint: a.token_a_mint.key,
                                                        destination: a.token_a.key,
                                                        authority: a.user_transfer_authority_key,
                                                        amount: ta as u64,
                                                        decimals: mint_a.decimals,
                                                    },
                                                    LedgerAction::Transfer {
                                                        token_program: a.token_b_program_key,
                                                        source: a.source_b_key,
                                                        mint: a.token_b_mint.key,
                                                        destination: a.token_b.key,
                                                        authority: a.user_transfer_authority_key,
                                                        amount: tb as u64,
                                                        decimals: mint_b.decimals,
                                                    },
                                                    LedgerAction::MintTo {
                                                        token_program: a.pool_token_program_key,
                                                        mint: a.pool_mint.key,
                                                        destination: a.dest_key,
                                                        authority: a.authority_key,
                                                        amount: pt as u64,
                                                    },
                                                ],
                                                ta as u64,
                                                tb as u64,
                                                pt as u64,
                                            ),
                                        ),
                                    },
                                }
                            }
                        }
                    },
                },
            },
        },
    }
}

impl Processor {
    /// Deposits both tokens proportionally for an exact pool-share amount.
    /// The caller's declared maxima bound each leg; any zero computed
    /// amount is rejected, never applied as a no-op.
    #[verifier::rlimit(60)]
    pub fn process_deposit_all_token_types(
        program_id: &Key,
        pool_token_amount: u64,
        maximum_token_a_amount: u64,
        maximum_token_b_amount: u64,
        accs: &DepositAllAccounts,
        recognized: &Vec<Key>,
    ) -> (r: Result<DepositAllOutcome, SwapError>)
        ensures
            !state_wf(accs.swap_data@) ==> (r == Err::<DepositAllOutcome, SwapError>(
                SwapError::InvalidState,
            ) || r == Err::<DepositAllOutcome, SwapError>(SwapError::UnsupportedCurveType)),
            forall|s: SwapV1| #[trigger]
                state_matches(s, accs.swap_data@) ==> (match deposit_all_spec(
                    s,
                    *program_id,
                    pool_token_amount,
                    maximum_token_a_amount,
                    maximum_token_b_amount,
                    *accs,
                    recognized@,
                ) {
                    Err(e) => r == Err::<DepositAllOutcome, SwapError>(e),
                    Ok(t) => (r matches Ok(o) && {
                        &&& o.actions@ == t.0
                        &&& o.token_a_amount == t.1
                        &&& o.token_b_amount == t.2
                        &&& o.pool_token_amount == t.3
                    }),
                }),
    {
        let token_swap = match SwapV1::unpack(accs.swap_data.as_slice()) {
            Ok(s) => s,
            Err(e) => {
                return Err(e);
            },
        };
        proof {
            assert(state_matches(token_swap, accs.swap_data@));
            assert forall|s: SwapV1| #[trigger]
                state_matches(s, accs.swap_data@) implies s == token_swap by {
                lemma_state_matches_unique(s, token_swap, accs.swap_data@);
            }
        }
        if !token_swap.swap_curve.allows_deposits() {
            return Err(SwapError::UnsupportedCurveOperation);
        }
        match Self::check_accounts(
            &token_swap,
            program_id,
            &accs.swap_key,
            &accs.swap_owner_program,
            &accs.authority_key,
            &accs.token_a.key,
            &accs.token_b.key,
            &accs.pool_mint.key,
            &accs.pool_token_program_key,
            Some(accs.source_a_key),
            Some(accs.source_b_key),
            None,
        ) {
            Ok(_) => {},
            Err(e) => {
                return Err(e);
            },
        }
        let token_a = match unpack_token_account(
            &accs.token_a,
            &token_swap.token_program_id,
            recognized,
        ) {
            Ok(v) => v,
            Err(e) => {
                return Err(e);
            },
        };
        let token_b = match unpack_token_account(
            &accs.token_b,
            &token_swap.token_program_id,
            recognized,
        ) {
            Ok(v) => v,
            Err(e) => {
                return Err(e);
            },
        };
        let pool_mint = match unpack_mint(
            &accs.pool_mint,
            &token_swap.token_program_id,
            recognized,
        ) {
            Ok(v) => v,
            Err(e) => {
                return Err(e);
            },
        };
        let (pt, supply): (u128, u128) = if pool_mint.supply > 0 {
            (pool_token_amount as u128, pool_mint.supply as u128)
        } else {
            (
                token_swap.swap_curve.new_pool_supply(),
                token_swap.swap_curve.new_pool_supply(),
            )
        };
        let results = match pool_tokens_to_trading_tokens(
            pt,
            supply,
            token_a.amount as u128,
            token_b.amount as u128,
            RoundDirection::Ceiling,
        ) {
            Some(v) => v,
            None => {
                return Err(SwapError::ZeroTradingTokens);
            },
        };
        let token_a_amount = match to_u64(results.token_a_amount) {
            Ok(v) => v,
            Err(e) => {
                return Err(e);
            },
        };
        if token_a_amount > maximum_token_a_amount {
            return Err(SwapError::ExceededSlippage);
        }
        if token_a_amount == 0 {
            return Err(SwapError::ZeroTradingTokens);
        }
        let token_b_amount = match to_u64(results.token_b_amount) {
            Ok(v) => v,
            Err(e) => {
                return Err(e);
            },
        };
        if token_b_amount > maximum_token_b_amount {
            return Err(SwapError::ExceededSlippage);
        }
        if token_b_amount == 0 {
            return Err(SwapError::ZeroTradingTokens);
        }
        let pool_token_amount_64 = match to_u64(pt) {
            Ok(v) => v,
            Err(e) => {
                return Err(e);
            },
        };
        let mint_a = match unpack_mint(
            &accs.token_a_mint,
            &token_swap.token_program_id,
            recognized,
        ) {
            Ok(v) => v,
            Err(e) => {
                return Err(e);
            },
        };
        let mint_b = match unpack_mint(
            &accs.token_b_mint,
            &token_swap.token_program_id,
            recognized,
        ) {
            Ok(v) => v,
            Err(e) => {
                return Err(e);
            },
        };
        let mut actions: Vec<LedgerAction> = Vec::new();
        actions.push(
            LedgerAction::Transfer {
                token_program: accs.token_a_program_key,
                source: accs.source_a_key,
                mint: accs.token_a_mint.key,
                destination: accs.token_a.key,
                authority: accs.user_transfer_authority_key,
                amount: token_a_amount,
                decimals: mint_a.decimals,
            },
        );
        actions.push(
            LedgerAction::Transfer {
                token_program: accs.token_b_program_key,
                source: accs.source_b_key,
                mint: accs.token_b_mint.key,
                destination: accs.token_b.key,
                authority: accs.user_transfer_authority_key,
                amount: token_b_amount,
                decimals: mint_b.decimals,
            },
        );
        actions.push(
            LedgerAction::MintTo {
                token_program: accs.pool_token_program_key,
                mint: accs.pool_mint.key,
                destination: accs.dest_key,
                authority: accs.authority_key,
                amount: pool_token_amount_64,
            },
        );
        proof {
            let t = deposit_all_spec(
                token_swap,
                *program_id,
                pool_token_amount,
                maximum_token_a_amount,
                maximum_token_b_amount,
                *accs,
                recognized@,
            );
            assert(t matches Ok(tt) && actions@ =~= tt.0);
        }
        Ok(
            DepositAllOutcome {
                actions,
                token_a_amount,
                token_b_amount,
                pool_token_amount: pool_token_amount_64,
            },
        )
    }
}

/// The account list of a proportional withdrawal, in wire order.
pub struct WithdrawAllAccounts {
    pub swap_key: Key,
    pub swap_owner_program: Key,
    pub swap_data: Vec<u8>,
    pub authority_key: Key,
    pub user_transfer_authority_key: Key,
    pub pool_mint: MintReading,
    pub source_key: Key,
    pub token_a: AccountReading,
    pub token_b: AccountReading,
    pub dest_token_a_key: Key,
    pub dest_token_b_key: Key,
    pub pool_fee_account: AccountReading,
    pub token_a_mint: MintReading,
    pub token_b_mint: MintReading,
    pub pool_token_program_key: Key,
    pub token_a_program_key: Key,
    pub token_b_program_key: Key,
}

/// What a proportional withdrawal performs.
pub struct WithdrawAllOutcome {
    pub actions: Vec<LedgerAction>,
    pub token_a_amount: u64,
    pub token_b_amount: u64,
    pub withdraw_fee: u64,
    pub burn_amount: u64,
}

/// The owner withdraw fee on a share amount: waived when the withdrawer is
/// the fee collector, and when the fee collector reference is unusable.
pub open spec fn withdraw_fee_spec(s: SwapV1, fee_acc: AccountReading, source_key: Key, pool_tokens: int) -> Option<
    int,
> {
    if pool_fee_info_ok(s, fee_acc) {
        if fee_acc.key@ == source_key@ {
            Some(0)
        } else {
            match fee_result(
                pool_tokens,
                s.fees.owner_withdraw_fee_numerator as int,
                s.fees.owner_withdraw_fee_denominator as int,
            ) {
                Some(f) => Some(f as int),
                None => None,
            }
        }
    } else {
        Some(0)
    }
}

/// The whole decision of a proportional withdrawal against an unpacked
/// pool record: the withdraw fee comes off the nominal share amount, the
/// remainder converts to both token amounts rounded down, each held to
/// the caller's minimum, and the fee transfer and burn precede the
/// payouts.
pub open spec fn withdraw_all_spec(
    s: SwapV1,
    program_id: Key,
    pool_token_amount: u64,
    minimum_token_a_amount: u64,
    minimum_token_b_amount: u64,
    a: WithdrawAllAccounts,
    recognized: Seq<Key>,
) -> Result<(Seq<LedgerAction>, u64, u64, u64, u64), SwapError> {
    match check_accounts_spec(
        s,
        program_id,
        a.swap_key,
        a.swap_owner_program,
        a.authority_key,
        a.token_a.key,
        a.token_b.key,
        a.pool_mint.key,
        a.pool_token_program_key,
        Some(a.dest_token_a_key),
        Some(a.dest_token_b_key),
        Some(a.pool_fee_account.key),
    ) {
        Some(e) => Err(e),
        None => match token_account_unpack_spec(a.token_a, s.token_program_id, recognized) {
            Err(e) => Err(e),
            Ok(token_a) => match token_account_unpack_spec(a.token_b, s.token_program_id, recognized) {
                Err(e) => Err(e),
                Ok(token_b) => match mint_unpack_spec(a.pool_mint, s.token_program_id, recognized) {
                    Err(e) => Err(e),
                    Ok(pool_mint) => match withdraw_fee_spec(
                        s,
                        a.pool_fee_account,
                        a.source_key,
                        pool_token_amount as int,
                    ) {
                        None => Err(SwapError::FeeCalculationFailure),
                        Some(withdraw_fee) => if withdraw_fee > pool_token_amount {
                            Err(SwapError::CalculationFailure)
                        } else {
                            let pt = pool_token_amount - withdraw_fee;
                            if !ptt_ok(
                                pt,
                                pool_mint.supply as int,
                                token_a.amount as int,
                                token_b.amount as int,
                            ) {
                                Err(SwapError::ZeroTradingTokens)
                            } else {
                                let ta0 = ptt_rounded(
                                    pt,
                                    pool_mint.supply as int,
                                    token_a.amount as int,
                                    RoundDirection::Floor,
                                );
                                let tb0 = ptt_rounded(
                                    pt,
                                    pool_mint.supply as int,
                                    token_b.amount as int,
                                    RoundDirection::Floor,
                                );
                                if ta0 > u64::MAX {
                                    Err(SwapError::ConversionFailure)
                                } else {
                                    let ta = if token_a.amount < ta0 {
                                        token_a.amount as int
                                    } else {
                                        ta0
                                    };
                                    if ta < minimum_token_a_amount {
                                        Err(SwapError::ExceededSlippage)
                                    } else if ta == 0 && token_a.amount != 0 {
                                        Err(SwapError::ZeroTradingTokens)
                                    } else if tb0 > u64::MAX {
                                        Err(SwapError::ConversionFailure)
                                    } else {
                                        let tb = if token_b.amount < tb0 {
                                            token_b.amount as int
                                        } else {
                                            tb0
                                        };
                                        if tb < minimum_token_b_amount {
                                            Err(SwapError::ExceededSlippage)
                                        } else if tb == 0 && token_b.amount != 0 {
                                            Err(SwapError::ZeroTradingTokens)
                                        } else {
                                            withdraw_all_actions_spec(
                                                s,
                                                a,
                                                recognized,
                                                pool_mint,
                                                withdraw_fee,
                                                pt,
                                                ta,
                                                tb,
                                            )
                                        }
                                    }
                                }
                            }
                        },
                    },
                },
            },
        },
    }
}

/// The ledger calls of an accepted proportional withdrawal: fee transfer
/// where owed, the burn, then each nonzero payout.
pub open spec fn withdraw_all_actions_spec(
    s: SwapV1,
    a: WithdrawAllAccounts,
    recognized: Seq<Key>,
    pool_mint: MintView,
    withdraw_fee: int,
    burn_amount: int,
    ta: int,
    tb: int,
) -> Result<(Seq<LedgerAction>, u64, u64, u64, u64), SwapError> {
    let fee_part: Seq<LedgerAction> = if withdraw_fee > 0 {
        seq![
            LedgerAction::Transfer {
                token_program: a.pool_token_program_key,
                source: a.source_key,
                mint: a.pool_mint.key,
                destination: a.pool_fee_account.key,
                authority: a.user_transfer_authority_key,
                amount: withdraw_fee as u64,
                decimals: pool_mint.decimals,
            },
        ]
    } else {
        Seq::empty()
    };
    let burn_part = seq![
        LedgerAction::Burn {
            token_program: a.pool_token_program_key,
            source: a.source_key,
            mint: a.pool_mint.key,
            authority: a.user_transfer_authority_key,
            amount: burn_amount as u64,
        },
    ];
    if ta > 0 {
        match mint_unpack_spec(a.token_a_mint, s.token_program_id, recognized) {
            Err(e) => Err(e),
            Ok(mint_a) => {
                let a_part = seq![
                    LedgerAction::Transfer {
                        token_program: a.token_a_program_key,
                        source: a.token_a.key,
                        mint: a.token_a_mint.key,
                        destination: a.dest_token_a_key,
                        authority: a.authority_key,
                        amount: ta as u64,
                        decimals: mint_a.decimals,
                    },
                ];
                if tb > 0 {
                    match mint_unpack_spec(a.token_b_mint, s.token_program_id, recognized) {
                        Err(e) => Err(e),
                        Ok(mint_b) => Ok(
                            (
                                fee_part + burn_part + a_part + seq![
                                    LedgerAction::Transfer {
                                        token_program: a.token_b_program_key,
                                        source: a.token_b.key,
                                        mint: a.token_b_mint.key,
                                        destination: a.dest_token_b_key,
                                        authority: a.authority_key,
                                        amount: tb as u64,
                                        decimals: mint_b.decimals,
                                    },
                                ],
                                ta as u64,
                                tb as u64,
                                withdraw_fee as u64,
                                burn_amount as u64,
                            ),
                        ),
                    }
                } else {
                    Ok(
                        (
                            fee_part + burn_part + a_part,
                            ta as u64,
                            tb as u64,
                            withdraw_fee as u64,
                            burn_amount as u64,
                        ),
                    )
                }
            },
        }
    } else {
        if tb > 0 {
            match mint_unpack_spec(a.token_b_mint, s.token_program_id, recognized) {
                Err(e) => Err(e),
                Ok(mint_b) => Ok(
                    (
                        fee_part + burn_part + seq![
                            LedgerAction::Transfer {
                                token_program: a.token_b_program_key,
                                source: a.token_b.key,
                                mint: a.token_b_mint.key,
                                destination: a.dest_token_b_key,
                                authority: a.authority_key,
                                amount: tb as u64,
                                decimals: mint_b.decimals,
                            },
                        ],
                        ta as u64,
                        tb as u64,
                        withdraw_fee as u64,
                        burn_amount as u64,
                    ),
                ),
            }
        } else {
            Ok(
                (
                    fee_part + burn_part,
                    ta as u64,
                    tb as u64,
                    withdraw_fee as u64,
                    burn_amount as u64,
                ),
            )
        }
    }
}

impl Processor {
    /// Redeems an exact pool-share amount for both tokens proportionally.
    /// The owner withdraw fee is taken first (waived for the fee collector
    /// itself), the remaining shares convert rounded down, the caller's
    /// minima bound each leg, and fee transfer and burn precede the
    /// payouts.
    #[verifier::rlimit(100)]
    pub fn process_withdraw_all_token_types(
        program_id: &Key,
        pool_token_amount: u64,
        minimum_token_a_amount: u64,
        minimum_token_b_amount: u64,
        accs: &WithdrawAllAccounts,
        recognized: &Vec<Key>,
    ) -> (r: Result<WithdrawAllOutcome, SwapError>)
        ensures
            !state_wf(accs.swap_data@) ==> (r == Err::<WithdrawAllOutcome, SwapError>(
                SwapError::InvalidState,
            ) || r == Err::<WithdrawAllOutcome, SwapError>(SwapError::UnsupportedCurveType)),
            forall|s: SwapV1| #[trigger]
                state_matches(s, accs.swap_data@) ==> (match withdraw_all_spec(
                    s,
                    *program_id,
                    pool_token_amount,
                    minimum_token_a_amount,
                    minimum_token_b_amount,
                    *accs,
                    recognized@,
                ) {
                    Err(e) => r == Err::<WithdrawAllOutcome, SwapError>(e),
                    Ok(t) => (r matches Ok(o) && {
                        &&& o.actions@ == t.0
                        &&& o.token_a_amount == t.1
                        &&& o.token_b_amount == t.2
                        &&& o.withdraw_fee == t.3
                        &&& o.burn_amount == t.4
                    }),
                }),
    {
        let token_swap = match SwapV1::unpack(accs.swap_data.as_slice()) {
            Ok(s) => s,
            Err(e) => {
                return Err(e);
            },
        };
        proof {
            assert(state_matches(token_swap, accs.swap_data@));
            assert forall|s: SwapV1| #[trigger]
                state_matches(s, accs.swap_data@) implies s == token_swap by {
                lemma_state_matches_unique(s, token_swap, accs.swap_data@);
            }
        }
        match Self::check_accounts(
            &token_swap,
            program_id,
            &accs.swap_key,
            &accs.swap_owner_program,
            &accs.authority_key,
            &accs.token_a.key,
            &accs.token_b.key,
            &accs.pool_mint.key,
            &accs.pool_token_program_key,
            Some(accs.dest_token_a_key),
            Some(accs.dest_token_b_key),
            Some(accs.pool_fee_account.key),
        ) {
            Ok(_) => {},
            Err(e) => {
                return Err(e);
            },
        }
        let token_a = match unpack_token_account(
            &accs.token_a,
            &token_swap.token_program_id,
            recognized,
        ) {
            Ok(v) => v,
            Err(e) => {
                return Err(e);
            },
        };
        let token_b = match unpack_token_account(
            &accs.token_b,
            &token_swap.token_program_id,
            recognized,
        ) {
            Ok(v) => v,
            Err(e) => {
                return Err(e);
            },
        };
        let pool_mint = match unpack_mint(
            &accs.pool_mint,
            &token_swap.token_program_id,
            recognized,
        ) {
            Ok(v) => v,
            Err(e) => {
                return Err(e);
            },
        };
        let withdraw_fee: u128 = if check_pool_fee_info(&token_swap, &accs.pool_fee_account) {
            if accs.pool_fee_account.key == accs.source_key {
                // Withdrawing from the fee account itself: no withdraw fee.
                0
            } else {
                match token_swap.fees.owner_withdraw_fee(pool_token_amount as u128) {
                    Some(v) => v,
                    None => {
                        return Err(SwapError::FeeCalculationFailure);
                    },
                }
            }
        } else {
            0
        };
        let pt = match (pool_token_amount as u128).checked_sub(withdraw_fee) {
            Some(v) => v,
            None => {
                return Err(SwapError::CalculationFailure);
            },
        };
        let results = match pool_tokens_to_trading_tokens(
            pt,
            pool_mint.supply as u128,
            token_a.amount as u128,
            token_b.amount as u128,
            RoundDirection::Floor,
        ) {
            Some(v) => v,
            None => {
                return Err(SwapError::ZeroTradingTokens);
            },
        };
        let token_a_amount_0 = match to_u64(results.token_a_amount) {
            Ok(v) => v,
            Err(e) => {
                return Err(e);
            },
        };
        let token_a_amount = if token_a.amount < token_a_amount_0 {
            token_a.amount
        } else {
            token_a_amount_0
        };
        if token_a_amount < minimum_token_a_amount {
            return Err(SwapError::ExceededSlippage);
        }
        if token_a_amount == 0 && token_a.amount != 0 {
            return Err(SwapError::ZeroTradingTokens);
        }
        let token_b_amount_0 = match to_u64(results.token_b_amount) {
            Ok(v) => v,
            Err(e) => {
                return Err(e);
            },
        };
        let token_b_amount = if token_b.amount < token_b_amount_0 {
            token_b.amount
        } else {
            token_b_amount_0
        };
        if token_b_amount < minimum_token_b_amount {
            return Err(SwapError::ExceededSlippage);
        }
        if token_b_amount == 0 && token_b.amount != 0 {
            return Err(SwapError::ZeroTradingTokens);
        }
        let mut actions: Vec<LedgerAction> = Vec::new();
        let withdraw_fee_64: u64 = withdraw_fee as u64;
        if withdraw_fee > 0 {
            actions.push(
                LedgerAction::Transfer {
                    token_program: accs.pool_token_program_key,
                    source: accs.source_key,
                    mint: accs.pool_mint.key,
                    destination: accs.pool_fee_account.key,
                    authority: accs.user_transfer_authority_key,
                    amount: withdraw_fee_64,
                    decimals: pool_mint.decimals,
                },
            );
        }
        actions.push(
            LedgerAction::Burn {
                token_program: accs.pool_token_program_key,
                source: accs.source_key,
                mint: accs.pool_mint.key,
                authority: accs.user_transfer_authority_key,
                amount: pt as u64,
            },
        );
        if token_a_amount > 0 {
            let mint_a = match unpack_mint(
                &accs.token_a_mint,
                &token_swap.token_program_id,
                recognized,
            ) {
                Ok(v) => v,
                Err(e) => {
                    return Err(e);
                },
            };
            actions.push(
                LedgerAction::Transfer {
                    token_program: accs.token_a_program_key,
                    source: accs.token_a.key,
                    mint: accs.token_a_mint.key,
                    destination: accs.dest_token_a_key,
                    authority: accs.authority_key,
                    amount: token_a_amount,
                    decimals: mint_a.decimals,
                },
            );
        }
        if token_b_amount > 0 {
            let mint_b = match unpack_mint(
                &accs.token_b_mint,
                &token_swap.token_program_id,
                recognized,
            ) {
                Ok(v) => v,
                Err(e) => {
                    return Err(e);
                },
            };
            actions.push(
                LedgerAction::Transfer {
                    token_program: accs.token_b_program_key,
                    source: accs.token_b.key,
                    mint: accs.token_b_mint.key,
                    destination: accs.dest_token_b_key,
                    authority: accs.authority_key,
                    amount: token_b_amount,
                    decimals: mint_b.decimals,
                },
            );
        }
        proof {
            let t = withdraw_all_spec(
                token_swap,
                *program_id,
                pool_token_amount,
                minimum_token_a_amount,
                minimum_token_b_amount,
                *accs,
                recognized@,
            );
            assert(t matches Ok(tt) && actions@ =~= tt.0);
        }
        Ok(
            WithdrawAllOutcome {
                actions,
                token_a_amount,
                token_b_amount,
                withdraw_fee: withdraw_fee_64,
                burn_amount: pt as u64,
            },
        )
    }
}

/// The account list of a single-sided deposit, in wire order.
pub struct DepositSingleAccounts {
    pub swap_key: Key,
    pub swap_owner_program: Key,
    pub swap_data: Vec<u8>,
    pub authority_key: Key,
    pub user_transfer_authority_key: Key,
    pub source: AccountReading,
    pub swap_token_a: AccountReading,
    pub swap_token_b: AccountReading,
    pub pool_mint: MintReading,
    pub destination_key: Key,
    pub source_token_mint: MintReading,
    pub source_token_program_key: Key,
    pub pool_token_program_key: Key,
}

/// What a single-sided deposit performs.
pub struct DepositSingleOutcome {
    pub actions: Vec<LedgerAction>,
    pub pool_token_amount: u64,
}

/// The whole decision of a single-sided deposit against an unpacked pool
/// record: the deposited side is picked by the source account's mint, the
/// curve converts the exact input to shares, and the caller's minimum
/// bounds the shares.
pub open spec fn process_deposit_single_spec(
    s: SwapV1,
    program_id: Key,
    source_token_amount: u64,
    minimum_pool_token_amount: u64,
    a: DepositSingleAccounts,
    recognized: Seq<Key>,
) -> Result<(Seq<LedgerAction>, u64), SwapError> {
    match token_account_unpack_spec(a.source, s.token_program_id, recognized) {
        Err(e) => Err(e),
        Ok(source_account) => match token_account_unpack_spec(
            a.swap_token_a,
            s.token_program_id,
            recognized,
        ) {
            Err(e) => Err(e),
            Ok(swap_token_a) => match token_account_unpack_spec(
                a.swap_token_b,
                s.token_program_id,
                recognized,
            ) {
                Err(e) => Err(e),
                Ok(swap_token_b) => {
                    if source_account.mint@ != swap_token_a.mint@ && source_account.mint@
                        != swap_token_b.mint@ {
                        Err(SwapError::IncorrectSwapAccount)
                    } else {
                        let dir = if source_account.mint@ == swap_token_a.mint@ {
                            TradeDirection::AtoB
                        } else {
                            TradeDirection::BtoA
                        };
                        let user_a: Option<Key> = if dir == TradeDirection::AtoB {
                            Some(a.source.key)
                        } else {
                            None
                        };
                        let user_b: Option<Key> = if dir == TradeDirection::BtoA {
                            Some(a.source.key)
                        } else {
                            None
                        };
                        match check_accounts_spec(
                            s,
                            program_id,
                            a.swap_key,
                            a.swap_owner_program,
                            a.authority_key,
                            a.swap_token_a.key,
                            a.swap_token_b.key,
                            a.pool_mint.key,
                            a.pool_token_program_key,
                            user_a,
                            user_b,
                            None,
                        ) {
                            Some(e) => Err(e),
                            None => match mint_unpack_spec(
                                a.pool_mint,
                                s.token_program_id,
                                recognized,
                            ) {
                                Err(e) => Err(e),
                                Ok(pool_mint) => {
                                    let pta: Option<u128> = if pool_mint.supply > 0 {
                                        deposit_single_spec(
                                            s.fees,
                                            source_token_amount as int,
                                            swap_token_a.amount as int,
                                            swap_token_b.amount as int,
                                            pool_mint.supply as int,
                                            dir,
                                        )
                                    } else {
                                        Some(INITIAL_SWAP_POOL_AMOUNT)
                                    };
                                    match pta {
                                        None => Err(SwapError::ZeroTradingTokens),
                                        Some(pool_token_amount) => if pool_token_amount
                                            > u64::MAX {
                                            Err(SwapError::ConversionFailure)
                                        } else if pool_token_amount
                                            < minimum_pool_token_amount {
                                            Err(SwapError::ExceededSlippage)
                                        } else if pool_token_amount == 0 {
                                            Err(SwapError::ZeroTradingTokens)
                                        } else {
                                            match mint_unpack_spec(
                                                a.source_token_mint,
                                                s.token_program_id,
                                                recognized,
                                            ) {
                                                Err(e) => Err(e),
                                                Ok(source_mint) => {
                                                    let into_key = if dir
                                                        == TradeDirection::AtoB {
                                                        a.swap_token_a.key
                                                    } else {
                                                        a.swap_token_b.key
                                                    };
                                                    Ok(
                                                        (
                                                            seq![
                                                                LedgerAction::Transfer {
                                                                    token_program: a.source_token_program_key,
                                                                    source: a.source.key,
                                                                    mint: a.source_token_mint.key,
                                                                    destination: into_key,
                                                                    authority: a.user_transfer_authority_key,
                                                                    amount: source_token_amount,
                                                                    decimals: source_mint.decimals,
                                                                },
                                                                LedgerAction::MintTo {
                                                                    token_program: a.pool_token_program_key,
                                                                    mint: a.pool_mint.key,
                                                                    destination: a.destination_key,
                                                                    authority: a.authority_key,
                                                                    amount: pool_token_amount as u64,
                                                                },
                                                            ],
                                                            pool_token_amount as u64,
                                                        ),
                                                    )
                                                },
                                            }
                                        },
                                    }
                                },
                            },
                        }
                    }
                },
            },
        },
    }
}

/// The account list of a single-sided exact-out withdrawal, in wire order.
pub struct WithdrawSingleAccounts {
    pub swap_key: Key,
    pub swap_owner_program: Key,
    pub swap_data: Vec<u8>,
    pub authority_key: Key,
    pub user_transfer_authority_key: Key,
    pub pool_mint: MintReading,
    pub source_key: Key,
    pub swap_token_a: AccountReading,
    pub swap_token_b: AccountReading,
    pub destination: AccountReading,
    pub pool_fee_account: AccountReading,
    pub destination_token_mint: MintReading,
    pub pool_token_program_key: Key,
    pub destination_token_program_key: Key,
}

/// What a single-sided withdrawal performs.
pub struct WithdrawSingleOutcome {
    pub actions: Vec<LedgerAction>,
    pub burn_pool_token_amount: u64,
    pub withdraw_fee: u64,
}

/// The whole decision of a single-sided exact-out withdrawal against an
/// unpacked pool record: the withdrawn side is picked by the destination
/// account's mint, the curve prices the exact output in shares rounded
/// up, the withdraw fee is added, and the caller's maximum bounds the
/// total.
pub open spec fn process_withdraw_single_spec(
    s: SwapV1,
    program_id: Key,
    destination_token_amount: u64,
    maximum_pool_token_amount: u64,
    a: WithdrawSingleAccounts,
    recognized: Seq<Key>,
) -> Result<(Seq<LedgerAction>, u64, u64), SwapError> {
    match token_account_unpack_spec(a.destination, s.token_program_id, recognized) {
        Err(e) => Err(e),
        Ok(destination_account) => match token_account_unpack_spec(
            a.swap_token_a,
            s.token_program_id,
            recognized,
        ) {
            Err(e) => Err(e),
            Ok(swap_token_a) => match token_account_unpack_spec(
                a.swap_token_b,
                s.token_program_id,
                recognized,
            ) {
                Err(e) => Err(e),
                Ok(swap_token_b) => {
                    if destination_account.mint@ != swap_token_a.mint@
                        && destination_account.mint@ != swap_token_b.mint@ {
                        Err(SwapError::IncorrectSwapAccount)
                    } else {
                        let dir = if destination_account.mint@ == swap_token_a.mint@ {
                            TradeDirection::AtoB
                        } else {
                            TradeDirection::BtoA
                        };
                        let user_a: Option<Key> = if dir == TradeDirection::AtoB {
                            Some(a.destination.key)
                        } else {
                            None
                        };
                        let user_b: Option<Key> = if dir == TradeDirection::BtoA {
                            Some(a.destination.key)
                        } else {
                            None
                        };
                        match check_accounts_spec(
                            s,
                            program_id,
                            a.swap_key,
                            a.swap_owner_program,
                            a.authority_key,
                            a.swap_token_a.key,
                            a.swap_token_b.key,
                            a.pool_mint.key,
                            a.pool_token_program_key,
                            user_a,
                            user_b,
                            Some(a.pool_fee_account.key),
                        ) {
                            Some(e) => Err(e),
                            None => match mint_unpack_spec(
                                a.pool_mint,
                                s.token_program_id,
                                recognized,
                            ) {
                                Err(e) => Err(e),
                                Ok(pool_mint) => match withdraw_single_spec(
                                    s.fees,
                                    destination_token_amount as int,
                                    swap_token_a.amount as int,
                                    swap_token_b.amount as int,
                                    pool_mint.supply as int,
                                    dir,
                                ) {
                                    None => Err(SwapError::ZeroTradingTokens),
                                    Some(burn_amount) => match withdraw_fee_single_spec(
                                        s,
                                        a.pool_fee_account,
                                        a.source_key,
                                        burn_amount as int,
                                    ) {
                                        None => Err(SwapError::FeeCalculationFailure),
                                        Some(withdraw_fee) => if burn_amount + withdraw_fee
                                            > u128::MAX {
                                            Err(SwapError::CalculationFailure)
                                        } else {
                                            let total = burn_amount + withdraw_fee;
                                            if total > u64::MAX {
                                                Err(SwapError::ConversionFailure)
                                            } else if total > maximum_pool_token_amount {
                                                Err(SwapError::ExceededSlippage)
                                            } else if total == 0 {
                                                Err(SwapError::ZeroTradingTokens)
                                            } else {
                                                withdraw_single_actions_spec(
                                                    s,
                                                    a,
                                                    recognized,
                                                    pool_mint,
                                                    dir,
                                                    destination_token_amount,
                                                    withdraw_fee,
                                                    burn_amount as int,
                                                )
                                            }
                                        },
                                    },
                                },
                            },
                        }
                    }
                },
            },
        },
    }
}

/// The owner withdraw fee of the single-sided withdrawal; the same waiver
/// rules as the proportional one.
pub open spec fn withdraw_fee_single_spec(
    s: SwapV1,
    fee_acc: AccountReading,
    source_key: Key,
    pool_tokens: int,
) -> Option<int> {
    withdraw_fee_spec(s, fee_acc, source_key, pool_tokens)
}

/// The ledger calls of an accepted single-sided withdrawal: fee transfer
/// where owed, the burn of the curve-priced shares, then the exact payout.
pub open spec fn withdraw_single_actions_spec(
    s: SwapV1,
    a: WithdrawSingleAccounts,
    recognized: Seq<Key>,
    pool_mint: MintView,
    dir: TradeDirection,
    destination_token_amount: u64,
    withdraw_fee: int,
    burn_amount: int,
) -> Result<(Seq<LedgerAction>, u64, u64), SwapError> {
    let fee_part: Seq<LedgerAction> = if withdraw_fee > 0 {
        seq![
            LedgerAction::Transfer {
                token_program: a.pool_token_program_key,
                source: a.source_key,
                mint: a.pool_mint.key,
                destination: a.pool_fee_account.key,
                authority: a.user_transfer_authority_key,
                amount: withdraw_fee as u64,
                decimals: pool_mint.decimals,
            },
        ]
    } else {
        Seq::empty()
    };
    match mint_unpack_spec(a.destination_token_mint, s.token_program_id, recognized) {
        Err(e) => Err(e),
        Ok(dest_mint) => {
            let from_key = if dir == TradeDirection::AtoB {
                a.swap_token_a.key
            } else {
                a.swap_token_b.key
            };
            Ok(
                (
                    fee_part + seq![
                        LedgerAction::Burn {
                            token_program: a.pool_token_program_key,
                            source: a.source_key,
                            mint: a.pool_mint.key,
                            authority: a.user_transfer_authority_key,
                            amount: burn_amount as u64,
                        },
                        LedgerAction::Transfer {
                            token_program: a.destination_token_program_key,
                            source: from_key,
                            mint: a.destination_token_mint.key,
                            destination: a.destination.key,
                            authority: a.authority_key,
                            amount: destination_token_amount,
                            decimals: dest_mint.decimals,
                        },
                    ],
                    burn_amount as u64,
                    withdraw_fee as u64,
                ),
            )
        },
    }
}

impl Processor {
    /// Deposits an exact amount of one token for at least the declared
    /// pool-share amount. The deposited side follows the source account's
    /// mint; a mint matching neither reserve is rejected.
    #[verifier::rlimit(100)]
    pub fn process_deposit_single_token_type_exact_amount_in(
        program_id: &Key,
        source_token_amount: u64,
        minimum_pool_token_amount: u64,
        accs: &DepositSingleAccounts,
        recognized: &Vec<Key>,
    ) -> (r: Result<DepositSingleOutcome, SwapError>)
        ensures
            !state_wf(accs.swap_data@) ==> (r == Err::<DepositSingleOutcome, SwapError>(
                SwapError::InvalidState,
            ) || r == Err::<DepositSingleOutcome, SwapError>(SwapError::UnsupportedCurveType)),
            forall|s: SwapV1| #[trigger]
                state_matches(s, accs.swap_data@) ==> (match process_deposit_single_spec(
                    s,
                    *program_id,
                    source_token_amount,
                    minimum_pool_token_amount,
                    *accs,
                    recognized@,
                ) {
                    Err(e) => r == Err::<DepositSingleOutcome, SwapError>(e),
                    Ok(t) => (r matches Ok(o) && {
                        &&& o.actions@ == t.0
                        &&& o.pool_token_amount == t.1
                    }),
                }),
    {
        let token_swap = match SwapV1::unpack(accs.swap_data.as_slice()) {
            Ok(s) => s,
            Err(e) => {
                return Err(e);
            },
        };
        proof {
            assert(state_matches(token_swap, accs.swap_data@));
            assert forall|s: SwapV1| #[trigger]
                state_matches(s, accs.swap_data@) implies s == token_swap by {
                lemma_state_matches_unique(s, token_swap, accs.swap_data@);
            }
        }
        if !token_swap.swap_curve.allows_deposits() {
            return Err(SwapError::UnsupportedCurveOperation);
        }
        let source_account = match unpack_token_account(
            &accs.source,
            &token_swap.token_program_id,
            recognized,
        ) {
            Ok(v) => v,
            Err(e) => {
                return Err(e);
            },
        };
        let swap_token_a = match unpack_token_account(
            &accs.swap_token_a,
            &token_swap.token_program_id,
            recognized,
        ) {
            Ok(v) => v,
            Err(e) => {
                return Err(e);
            },
        };
        let swap_token_b = match unpack_token_account(
            &accs.swap_token_b,
            &token_swap.token_program_id,
            recognized,
        ) {
            Ok(v) => v,
            Err(e) => {
                return Err(e);
            },
        };
        let trade_direction = if source_account.mint == swap_token_a.mint {
            TradeDirection::AtoB
        } else if source_account.mint == swap_token_b.mint {
            TradeDirection::BtoA
        } else {
            return Err(SwapError::IncorrectSwapAccount);
        };
        let (user_a, user_b): (Option<Key>, Option<Key>) = match trade_direction {
            TradeDirection::AtoB => (Some(accs.source.key), None),
            TradeDirection::BtoA => (None, Some(accs.source.key)),
        };
        match Self::check_accounts(
            &token_swap,
            program_id,
            &accs.swap_key,
            &accs.swap_owner_program,
            &accs.authority_key,
            &accs.swap_token_a.key,
            &accs.swap_token_b.key,
            &accs.pool_mint.key,
            &accs.pool_token_program_key,
            user_a,
            user_b,
            None,
        ) {
            Ok(_) => {},
            Err(e) => {
                return Err(e);
            },
        }
        let pool_mint = match unpack_mint(
            &accs.pool_mint,
            &token_swap.token_program_id,
            recognized,
        ) {
            Ok(v) => v,
            Err(e) => {
                return Err(e);
            },
        };
        let pool_token_amount_128: u128 = if pool_mint.supply > 0 {
            match token_swap.swap_curve.deposit_single_token_type(
                source_token_amount as u128,
                swap_token_a.amount as u128,
                swap_token_b.amount as u128,
                pool_mint.supply as u128,
                trade_direction,
                &token_swap.fees,
            ) {
                Some(v) => v,
                None => {
                    return Err(SwapError::ZeroTradingTokens);
                },
            }
        } else {
            token_swap.swap_curve.new_pool_supply()
        };
        let pool_token_amount = match to_u64(pool_token_amount_128) {
            Ok(v) => v,
            Err(e) => {
                return Err(e);
            },
        };
        if pool_token_amount < minimum_pool_token_amount {
            return Err(SwapError::ExceededSlippage);
        }
        if pool_token_amount == 0 {
            return Err(SwapError::ZeroTradingTokens);
        }
        let source_mint = match unpack_mint(
            &accs.source_token_mint,
            &token_swap.token_program_id,
            recognized,
        ) {
            Ok(v) => v,
            Err(e) => {
                return Err(e);
            },
        };
        let into_key = match trade_direction {
            TradeDirection::AtoB => accs.swap_token_a.key,
            TradeDirection::BtoA => accs.swap_token_b.key,
        };
        let mut actions: Vec<LedgerAction> = Vec::new();
        actions.push(
            LedgerAction::Transfer {
                token_program: accs.source_token_program_key,
                source: accs.source.key,
                mint: accs.source_token_mint.key,
                destination: into_key,
                authority: accs.user_transfer_authority_key,
                amount: source_token_amount,
                decimals: source_mint.decimals,
            },
        );
        actions.push(
            LedgerAction::MintTo {
                token_program: accs.pool_token_program_key,
                mint: accs.pool_mint.key,
                destination: accs.destination_key,
                authority: accs.authority_key,
                amount: pool_token_amount,
            },
        );
        proof {
            let t = process_deposit_single_spec(
                token_swap,
                *program_id,
                source_token_amount,
                minimum_pool_token_amount,
                *accs,
                recognized@,
            );
            assert(t matches Ok(tt) && actions@ =~= tt.0);
        }
        Ok(DepositSingleOutcome { actions, pool_token_amount })
    }

    /// Withdraws an exact amount of one token for at most the declared
    /// pool-share amount. The withdrawn side follows the destination
    /// account's mint; the curve prices the exact output in shares rounded
    /// up, and the withdraw fee is added before the caller's bound is
    /// checked.
    #[verifier::rlimit(100)]
    pub fn process_withdraw_single_token_type_exact_amount_out(
        program_id: &Key,
        destination_token_amount: u64,
        maximum_pool_token_amount: u64,
        accs: &WithdrawSingleAccounts,
        recognized: &Vec<Key>,
    ) -> (r: Result<WithdrawSingleOutcome, SwapError>)
        ensures
            !state_wf(accs.swap_data@) ==> (r == Err::<WithdrawSingleOutcome, SwapError>(
                SwapError::InvalidState,
            ) || r == Err::<WithdrawSingleOutcome, SwapError>(SwapError::UnsupportedCurveType)),
            forall|s: SwapV1| #[trigger]
                state_matches(s, accs.swap_data@) ==> (match process_withdraw_single_spec(
                    s,
                    *program_id,
                    destination_token_amount,
                    maximum_pool_token_amount,
                    *accs,
                    recognized@,
                ) {
                    Err(e) => r == Err::<WithdrawSingleOutcome, SwapError>(e),
                    Ok(t) => (r matches Ok(o) && {
                        &&& o.actions@ == t.0
                        &&& o.burn_pool_token_amount == t.1
                        &&& o.withdraw_fee == t.2
                    }),
                }),
    {
        let token_swap = match SwapV1::unpack(accs.swap_data.as_slice()) {
            Ok(s) => s,
            Err(e) => {
                return Err(e);
            },
        };
        proof {
            assert(state_matches(token_swap, accs.swap_data@));
            assert forall|s: SwapV1| #[trigger]
                state_matches(s, accs.swap_data@) implies s == token_swap by {
                lemma_state_matches_unique(s, token_swap, accs.swap_data@);
            }
        }
        let destination_account = match unpack_token_account(
            &accs.destination,
            &token_swap.token_program_id,
            recognized,
        ) {
            Ok(v) => v,
            Err(e) => {
                return Err(e);
            },
        };
        let swap_token_a = match unpack_token_account(
            &accs.swap_token_a,
            &token_swap.token_program_id,
            recognized,
        ) {
            Ok(v) => v,
            Err(e) => {
                return Err(e);
            },
        };
        let swap_token_b = match unpack_token_account(
            &accs.swap_token_b,
            &token_swap.token_program_id,
            recognized,
        ) {
            Ok(v) => v,
            Err(e) => {
                return Err(e);
            },
        };
        let trade_direction = if destination_account.mint == swap_token_a.mint {
            TradeDirection::AtoB
        } else if destination_account.mint == swap_token_b.mint {
            TradeDirection::BtoA
        } else {
            return Err(SwapError::IncorrectSwapAccount);
        };
        let (user_a, user_b): (Option<Key>, Option<Key>) = match trade_direction {
            TradeDirection::AtoB => (Some(accs.destination.key), None),
            TradeDirection::BtoA => (None, Some(accs.destination.key)),
        };
        match Self::check_accounts(
            &token_swap,
            program_id,
            &accs.swap_key,
            &accs.swap_owner_program,
            &accs.authority_key,
            &accs.swap_token_a.key,
            &accs.swap_token_b.key,
            &accs.pool_mint.key,
            &accs.pool_token_program_key,
            user_a,
            user_b,
            Some(accs.pool_fee_account.key),
        ) {
            Ok(_) => {},
            Err(e) => {
                return Err(e);
            },
        }
        let pool_mint = match unpack_mint(
            &accs.pool_mint,
            &token_swap.token_program_id,
            recognized,
        ) {
            Ok(v) => v,
            Err(e) => {
                return Err(e);
            },
        };
        let burn_pool_token_amount = match token_swap.swap_curve.withdraw_single_token_type_exact_out(
            destination_token_amount as u128,
            swap_token_a.amount as u128,
            swap_token_b.amount as u128,
            pool_mint.supply as u128,
            trade_direction,
            &token_swap.fees,
        ) {
            Some(v) => v,
            None => {
                return Err(SwapError::ZeroTradingTokens);
            },
        };
        let withdraw_fee: u128 = if check_pool_fee_info(&token_swap, &accs.pool_fee_account) {
            if accs.pool_fee_account.key == accs.source_key {
                // Withdrawing from the fee account itself: no withdraw fee.
                0
            } else {
                match token_swap.fees.owner_withdraw_fee(burn_pool_token_amount) {
                    Some(v) => v,
                    None => {
                        return Err(SwapError::FeeCalculationFailure);
                    },
                }
            }
        } else {
            0
        };
        let total_pool_token_amount = match burn_pool_token_amount.checked_add(withdraw_fee) {
            Some(v) => v,
            None => {
                return Err(SwapError::CalculationFailure);
            },
        };
        let total_64 = match to_u64(total_pool_token_amount) {
            Ok(v) => v,
            Err(e) => {
                return Err(e);
            },
        };
        if total_64 > maximum_pool_token_amount {
            return Err(SwapError::ExceededSlippage);
        }
        if total_pool_token_amount == 0 {
            return Err(SwapError::ZeroTradingTokens);
        }
        let dest_mint = match unpack_mint(
            &accs.destination_token_mint,
            &token_swap.token_program_id,
            recognized,
        ) {
            Ok(v) => v,
            Err(e) => {
                return Err(e);
            },
        };
        let from_key = match trade_direction {
            TradeDirection::AtoB => accs.swap_token_a.key,
            TradeDirection::BtoA => accs.swap_token_b.key,
        };
        let mut actions: Vec<LedgerAction> = Vec::new();
        if withdraw_fee > 0 {
            actions.push(
                LedgerAction::Transfer {
                    token_program: accs.pool_token_program_key,
                    source: accs.source_key,
                    mint: accs.pool_mint.key,
                    destination: accs.pool_fee_account.key,
                    authority: accs.user_transfer_authority_key,
                    amount: withdraw_fee as u64,
                    decimals: pool_mint.decimals,
                },
            );
        }
        actions.push(
            LedgerAction::Burn {
                token_program: accs.pool_token_program_key,
                source: accs.source_key,
                mint: accs.pool_mint.key,
                authority: accs.user_transfer_authority_key,
                amount: burn_pool_token_amount as u64,
            },
        );
        actions.push(
            LedgerAction::Transfer {
                token_program: accs.destination_token_program_key,
                source: from_key,
                mint: accs.destination_token_mint.key,
                destination: accs.destination.key,
                authority: accs.authority_key,
                amount: destination_token_amount,
                decimals: dest_mint.decimals,
            },
        );
        proof {
            let t = process_withdraw_single_spec(
                token_swap,
                *program_id,
                destination_token_amount,
                maximum_pool_token_amount,
                *accs,
                recognized@,
            );
            assert(t matches Ok(tt) && actions@ =~= tt.0);
        }
        Ok(
            WithdrawSingleOutcome {
                actions,
                burn_pool_token_amount: burn_pool_token_amount as u64,
                withdraw_fee: withdraw_fee as u64,
            },
        )
    }
}

/// The caller's account list, read by the host in the shape the decoded
/// opcode demands.
pub enum OpAccounts {
    Initialize(InitializeAccounts),
    Swap(SwapAccounts),
    DepositAllTokenTypes(DepositAllAccounts),
    WithdrawAllTokenTypes(WithdrawAllAccounts),
    DepositSingleTokenTypeExactAmountIn(DepositSingleAccounts),
    WithdrawSingleTokenTypeExactAmountOut(WithdrawSingleAccounts),
}

/// What one dispatched opcode performs.
pub enum OpOutcome {
    Initialize(InitializeOutcome),
    Swap(SwapOutcome),
    DepositAllTokenTypes(DepositAllOutcome),
    WithdrawAllTokenTypes(WithdrawAllOutcome),
    DepositSingleTokenTypeExactAmountIn(DepositSingleOutcome),
    WithdrawSingleTokenTypeExactAmountOut(WithdrawSingleOutcome),
}

/// The account list has the shape the opcode demands.
pub open spec fn accounts_match(i: SwapInstruction, a: OpAccounts) -> bool {
    match (i, a) {
        (SwapInstruction::Initialize(_), OpAccounts::Initialize(_)) => true,
        (SwapInstruction::Swap(_), OpAccounts::Swap(_)) => true,
        (SwapInstruction::DepositAllTokenTypes(_), OpAccounts::DepositAllTokenTypes(_)) => true,
        (SwapInstruction::WithdrawAllTokenTypes(_), OpAccounts::WithdrawAllTokenTypes(_)) => true,
        (
            SwapInstruction::DepositSingleTokenTypeExactAmountIn(_),
            OpAccounts::DepositSingleTokenTypeExactAmountIn(_),
        ) => true,
        (
            SwapInstruction::WithdrawSingleTokenTypeExactAmountOut(_),
            OpAccounts::WithdrawSingleTokenTypeExactAmountOut(_),
        ) => true,
        _ => false,
    }
}

/// The whole dispatcher contract: the opcode decodes or its error is
/// surfaced; a mismatched account shape is an instruction error; and each
/// opcode's own contract holds of the routed outcome.
pub open spec fn dispatch_contract(
    program_id: Key,
    accounts: OpAccounts,
    input: Seq<u8>,
    constraints: Option<SwapConstraints>,
    recognized: Seq<Key>,
    r: Result<OpOutcome, SwapError>,
) -> bool {
    &&& (parse_instruction(input) matches Err(e) ==> r == Err::<OpOutcome, SwapError>(e))
    &&& (parse_instruction(input) matches Ok(i) && !accounts_match(i, accounts) ==> r == Err::<
        OpOutcome,
        SwapError,
    >(SwapError::InvalidInstruction))
    &&& (parse_instruction(input) matches Ok(i) ==> match (i, accounts) {
        (SwapInstruction::Initialize(x), OpAccounts::Initialize(a)) => {
            &&& (state_wf(a.swap_data@) ==> r == Err::<OpOutcome, SwapError>(
                SwapError::AlreadyInUse,
            ))
            &&& ((!state_wf(a.swap_data@) && (forall|b: u8|
                derived_authority(a.swap_key@, b, program_id@) is None)) ==> r == Err::<
                OpOutcome,
                SwapError,
            >(SwapError::InvalidProgramAddress))
            &&& (forall|b: u8|
                (!state_wf(a.swap_data@) && #[trigger] canonical_bump(
                    a.swap_key@,
                    program_id@,
                    b,
                ) && derived_authority(a.swap_key@, b, program_id@) == Some(a.authority_key@))
                    ==> (match initialize_validate(a, x.fees, x.swap_curve, constraints, recognized) {
                    Some(e) => r == Err::<OpOutcome, SwapError>(e),
                    None => (r matches Ok(oo) && oo matches OpOutcome::Initialize(out) && {
                        &&& out.state == initialized_state(a, x.fees, x.swap_curve, b)
                        &&& out.state_data@ == state_bytes(out.state)
                    }),
                }))
        },
        (SwapInstruction::Swap(x), OpAccounts::Swap(a)) => {
            forall|s: SwapV1|
                (a.swap_owner_program@ == program_id@ && #[trigger] state_matches(s, a.swap_data@))
                    ==> (match process_swap_spec(
                    s,
                    program_id,
                    x.amount_in,
                    x.minimum_amount_out,
                    a,
                    recognized,
                ) {
                    Err(e) => r == Err::<OpOutcome, SwapError>(e),
                    Ok(t) => (r matches Ok(oo) && oo matches OpOutcome::Swap(o) && {
                        &&& o.actions@ == t.0
                        &&& o.result == t.1
                        &&& o.source_transfer_amount == t.2
                        &&& o.destination_transfer_amount == t.3
                    }),
                })
        },
        (SwapInstruction::DepositAllTokenTypes(x), OpAccounts::DepositAllTokenTypes(a)) => {
            forall|s: SwapV1| #[trigger]
                state_matches(s, a.swap_data@) ==> (match deposit_all_spec(
                    s,
                    program_id,
                    x.pool_token_amount,
                    x.maximum_token_a_amount,
                    x.maximum_token_b_amount,
                    a,
                    recognized,
                ) {
                    Err(e) => r == Err::<OpOutcome, SwapError>(e),
                    Ok(t) => (r matches Ok(oo) && oo matches OpOutcome::DepositAllTokenTypes(o)
                        && {
                        &&& o.actions@ == t.0
                        &&& o.token_a_amount == t.1
                        &&& o.token_b_amount == t.2
                        &&& o.pool_token_amount == t.3
                    }),
                })
        },
        (SwapInstruction::WithdrawAllTokenTypes(x), OpAccounts::WithdrawAllTokenTypes(a)) => {
            forall|s: SwapV1| #[trigger]
                state_matches(s, a.swap_data@) ==> (match withdraw_all_spec(
                    s,
                    program_id,
                    x.pool_token_amount,
                    x.minimum_token_a_amount,
                    x.minimum_token_b_amount,
                    a,
                    recognized,
                ) {
                    Err(e) => r == Err::<OpOutcome, SwapError>(e),
                    Ok(t) => (r matches Ok(oo) && oo matches OpOutcome::WithdrawAllTokenTypes(o)
                        && {
                        &&& o.actions@ == t.0
                        &&& o.token_a_amount == t.1
                        &&& o.token_b_amount == t.2
                        &&& o.withdraw_fee == t.3
                        &&& o.burn_amount == t.4
                    }),
                })
        },
        (
            SwapInstruction::DepositSingleTokenTypeExactAmountIn(x),
            OpAccounts::DepositSingleTokenTypeExactAmountIn(a),
        ) => {
            forall|s: SwapV1| #[trigger]
                state_matches(s, a.swap_data@) ==> (match process_deposit_single_spec(
                    s,
                    program_id,
                    x.source_token_amount,
                    x.minimum_pool_token_amount,
                    a,
                    recognized,
                ) {
                    Err(e) => r == Err::<OpOutcome, SwapError>(e),
                    Ok(t) => (r matches Ok(oo) && oo
                        matches OpOutcome::DepositSingleTokenTypeExactAmountIn(o) && {
                        &&& o.actions@ == t.0
                        &&& o.pool_token_amount == t.1
                    }),
                })
        },
        (
            SwapInstruction::WithdrawSingleTokenTypeExactAmountOut(x),
            OpAccounts::WithdrawSingleTokenTypeExactAmountOut(a),
        ) => {
            forall|s: SwapV1| #[trigger]
                state_matches(s, a.swap_data@) ==> (match process_withdraw_single_spec(
                    s,
                    program_id,
                    x.destination_token_amount,
                    x.maximum_pool_token_amount,
                    a,
                    recognized,
                ) {
                    Err(e) => r == Err::<OpOutcome, SwapError>(e),
                    Ok(t) => (r matches Ok(oo) && oo
                        matches OpOutcome::WithdrawSingleTokenTypeExactAmountOut(o) && {
                        &&& o.actions@ == t.0
                        &&& o.burn_pool_token_amount == t.1
                        &&& o.withdraw_fee == t.2
                    }),
                })
        },
        _ => true,
    })
}

impl Processor {
    /// Decodes the opcode and routes it with the given constraint set.
    pub fn process_with_constraints(
        program_id: &Key,
        accounts: &OpAccounts,
        input: &[u8],
        swap_constraints: &Option<SwapConstraints>,
        recognized: &Vec<Key>,
    ) -> (r: Result<OpOutcome, SwapError>)
        ensures
            dispatch_contract(
                *program_id,
                *accounts,
                input@,
                *swap_constraints,
                recognized@,
                r,
            ),
    {
        let instruction = match SwapInstruction::unpack(input) {
            Ok(i) => i,
            Err(e) => {
                return Err(e);
            },
        };
        match (&instruction, accounts) {
            (SwapInstruction::Initialize(x), OpAccounts::Initialize(a)) => {
                match Self::process_initialize(
                    program_id,
                    x.fees,
                    x.swap_curve,
                    a,
                    swap_constraints,
                    recognized,
                ) {
                    Ok(o) => Ok(OpOutcome::Initialize(o)),
                    Err(e) => Err(e),
                }
            },
            (SwapInstruction::Swap(x), OpAccounts::Swap(a)) => {
                match Self::process_swap(
                    program_id,
                    x.amount_in,
                    x.minimum_amount_out,
                    a,
                    recognized,
                ) {
                    Ok(o) => Ok(OpOutcome::Swap(o)),
                    Err(e) => Err(e),
                }
            },
            (SwapInstruction::DepositAllTokenTypes(x), OpAccounts::DepositAllTokenTypes(a)) => {
                match Self::process_deposit_all_token_types(
                    program_id,
                    x.pool_token_amount,
                    x.maximum_token_a_amount,
                    x.maximum_token_b_amount,
                    a,
                    recognized,
                ) {
                    Ok(o) => Ok(OpOutcome::DepositAllTokenTypes(o)),
                    Err(e) => Err(e),
                }
            },
            (SwapInstruction::WithdrawAllTokenTypes(x), OpAccounts::WithdrawAllTokenTypes(a)) => {
                match Self::process_withdraw_all_token_types(
                    program_id,
                    x.pool_token_amount,
                    x.minimum_token_a_amount,
                    x.minimum_token_b_amount,
                    a,
                    recognized,
                ) {
                    Ok(o) => Ok(OpOutcome::WithdrawAllTokenTypes(o)),
                    Err(e) => Err(e),
                }
            },
            (
                SwapInstruction::DepositSingleTokenTypeExactAmountIn(x),
                OpAccounts::DepositSingleTokenTypeExactAmountIn(a),
            ) => {
                match Self::process_deposit_single_token_type_exact_amount_in(
                    program_id,
                    x.source_token_amount,
                    x.minimum_pool_token_amount,
                    a,
                    recognized,
                ) {
                    Ok(o) => Ok(OpOutcome::DepositSingleTokenTypeExactAmountIn(o)),
                    Err(e) => Err(e),
                }
            },
            (
                SwapInstruction::WithdrawSingleTokenTypeExactAmountOut(x),
                OpAccounts::WithdrawSingleTokenTypeExactAmountOut(a),
            ) => {
                match Self::process_withdraw_single_token_type_exact_amount_out(
                    program_id,
                    x.destination_token_amount,
                    x.maximum_pool_token_amount,
                    a,
                    recognized,
                ) {
                    Ok(o) => Ok(OpOutcome::WithdrawSingleTokenTypeExactAmountOut(o)),
                    Err(e) => Err(e),
                }
            },
            _ => Err(SwapError::InvalidInstruction),
        }
    }

    /// Decodes the opcode and routes it with no constraint set, as a
    /// deployment without operator constraints runs.
    pub fn process(
        program_id: &Key,
        accounts: &OpAccounts,
        input: &[u8],
        recognized: &Vec<Key>,
    ) -> (r: Result<OpOutcome, SwapError>)
        ensures
            dispatch_contract(
                *program_id,
                *accounts,
                input@,
                None::<SwapConstraints>,
                recognized@,
                r,
            ),
    {
        let constraints: Option<SwapConstraints> = None;
        Self::process_with_constraints(program_id, accounts, input, &constraints, recognized)
    }
}


} // verus!
