//! The auction record and its opcodes: seven identities and a price in a
//! fixed 232-byte record, and a tag byte with little-endian fields on the
//! wire.

use crate::account::{AccountReading, LedgerAction};
use crate::authority::{canonical_bump, derived_authority, find_authority};
use crate::bytes::{le_bytes, le_value, lemma_le_bytes_len, lemma_le_roundtrip,
    lemma_le_value_agree, lemma_le_value_bound, lemma_pow256_values, read_u64_le, write_u64_le};
use crate::keys::{read_key, write_key, Key};
use vstd::prelude::*;

verus! {

/// The errors of the auction program.
#[derive(Clone, Copy, Debug, PartialEq, Eq, Structural)]
pub enum AuctionError {
    /// The payload decodes to no opcode, or a record has the wrong size.
    InvalidInstructionData,
    /// An account does not hold what the handler demands of it.
    InvalidAccountData,
    /// The auction record has no seller yet.
    UninitializedAccount,
}

/// One auction: who sells what, where the item and the bids are held in
/// custody, who leads, where an outbid refund goes, and the current price.
#[derive(Clone, Copy, Debug, PartialEq)]
pub struct Auction {
    pub seller: Key,
    pub item: Key,
    pub item_holder: Key,
    pub currency: Key,
    pub money_holder: Key,
    pub bidder: Key,
    pub refund_address: Key,
    pub price: u64,
}

/// The 232-byte packed form: the seven identities, then the price.
pub open spec fn auction_bytes(a: Auction) -> Seq<u8> {
    a.seller@ + a.item@ + a.item_holder@ + a.currency@ + a.money_holder@ + a.bidder@
        + a.refund_address@ + le_bytes(a.price as int, 8)
}

impl Auction {
    /// Reads the record; exactly 232 bytes hold one.
    pub fn unpack_from_slice(src: &[u8]) -> (r: Result<Auction, AuctionError>)
        ensures
            src@.len() == 232 ==> (r matches Ok(a) && {
                &&& a.seller@ == src@.subrange(0, 32)
                &&& a.item@ == src@.subrange(32, 64)
                &&& a.item_holder@ == src@.subrange(64, 96)
                &&& a.currency@ == src@.subrange(96, 128)
                &&& a.money_holder@ == src@.subrange(128, 160)
                &&& a.bidder@ == src@.subrange(160, 192)
                &&& a.refund_address@ == src@.subrange(192, 224)
                &&& a.price as int == le_value(src@, 224, 8)
            }),
            src@.len() != 232 ==> r == Err::<Auction, AuctionError>(
                AuctionError::InvalidInstructionData,
            ),
    {
        if src.len() != 232 {
            return Err(AuctionError::InvalidInstructionData);
        }
        proof {
            lemma_pow256_values();
            lemma_le_value_bound(src@, 224, 8);
        }
        Ok(
            Auction {
                seller: read_key(src, 0),
                item: read_key(src, 32),
                item_holder: read_key(src, 64),
                currency: read_key(src, 96),
                money_holder: read_key(src, 128),
                bidder: read_key(src, 160),
                refund_address: read_key(src, 192),
                price: read_u64_le(src, 224),
            },
        )
    }

    /// Writes the record, replacing the buffer's contents.
    pub fn pack_into_slice(&self, dst: &mut Vec<u8>)
        ensures
            final(dst)@ == auction_bytes(*self),
    {
        dst.clear();
        write_key(dst, &self.seller);
        write_key(dst, &self.item);
        write_key(dst, &self.item_holder);
        write_key(dst, &self.currency);
        write_key(dst, &self.money_holder);
        write_key(dst, &self.bidder);
        write_key(dst, &self.refund_address);
        write_u64_le(dst, self.price);
        proof {
            assert(dst@ =~= auction_bytes(*self));
        }
    }
}

/// Unpacking a packed auction restores it field for field.
pub proof fn lemma_auction_roundtrip(a: Auction)
    ensures
        auction_bytes(a).len() == 232,
        auction_bytes(a).subrange(0, 32) == a.seller@,
        auction_bytes(a).subrange(32, 64) == a.item@,
        auction_bytes(a).subrange(64, 96) == a.item_holder@,
        auction_bytes(a).subrange(96, 128) == a.currency@,
        auction_bytes(a).subrange(128, 160) == a.money_holder@,
        auction_bytes(a).subrange(160, 192) == a.bidder@,
        auction_bytes(a).subrange(192, 224) == a.refund_address@,
        le_value(auction_bytes(a), 224, 8) == a.price,
{
    let b = auction_bytes(a);
    lemma_pow256_values();
    lemma_le_bytes_len(a.price as int, 8);
    assert(b.len() == 232);
    assert(b.subrange(0, 32) =~= a.seller@);
    assert(b.subrange(32, 64) =~= a.item@);
    assert(b.subrange(64, 96) =~= a.item_holder@);
    assert(b.subrange(96, 128) =~= a.currency@);
    assert(b.subrange(128, 160) =~= a.money_holder@);
    assert(b.subrange(160, 192) =~= a.bidder@);
    assert(b.subrange(192, 224) =~= a.refund_address@);
    let enc = le_bytes(a.price as int, 8);
    assert forall|j: int| 0 <= j < 8 implies #[trigger] b[224 + j] == enc[j] by {}
    lemma_le_value_agree(b, enc, 224, 0, 8);
    lemma_le_roundtrip(a.price as int, 8);
}

/// One decoded auction opcode.
#[derive(Clone, Copy, Debug, PartialEq, Eq, Structural)]
pub enum AuctionInstruction {
    CreateAuction { start_price: u64 },
    Bidding { price: u64, decimals: u8 },
    CloseAuction,
}

/// The canonical encoding of an auction opcode.
pub open spec fn auction_instruction_bytes(i: AuctionInstruction) -> Seq<u8> {
    match i {
        AuctionInstruction::CreateAuction { start_price } => seq![0u8] + le_bytes(
            start_price as int,
            8,
        ),
        AuctionInstruction::Bidding { price, decimals } => seq![1u8] + le_bytes(price as int, 8)
            + seq![decimals],
        AuctionInstruction::CloseAuction => seq![2u8],
    }
}

/// What decoding an auction payload yields.
pub open spec fn parse_auction_instruction(b: Seq<u8>) -> Result<AuctionInstruction, AuctionError> {
    if b.len() < 1 {
        Err(AuctionError::InvalidInstructionData)
    } else if b[0] == 0 {
        if b.len() < 9 {
            Err(AuctionError::InvalidInstructionData)
        } else {
            Ok(AuctionInstruction::CreateAuction { start_price: le_value(b, 1, 8) as u64 })
        }
    } else if b[0] == 1 {
        if b.len() < 10 {
            Err(AuctionError::InvalidInstructionData)
        } else {
            Ok(
                AuctionInstruction::Bidding {
                    price: le_value(b, 1, 8) as u64,
                    decimals: b[9],
                },
            )
        }
    } else if b[0] == 2 {
        Ok(AuctionInstruction::CloseAuction)
    } else {
        Err(AuctionError::InvalidInstructionData)
    }
}

impl AuctionInstruction {
    /// Decodes an opcode payload. A payload too short for its tag is
    /// refused rather than read out of bounds.
    pub fn unpack(input: &[u8]) -> (r: Result<AuctionInstruction, AuctionError>)
        ensures
            r == parse_auction_instruction(input@),
    {
        let len = input.len();
        if len < 1 {
            return Err(AuctionError::InvalidInstructionData);
        }
        proof {
            lemma_pow256_values();
            lemma_le_value_bound(input@, 1, 8);
        }
        let tag = input[0];
        if tag == 0 {
            if len < 9 {
                return Err(AuctionError::InvalidInstructionData);
            }
            Ok(AuctionInstruction::CreateAuction { start_price: read_u64_le(input, 1) })
        } else if tag == 1 {
            if len < 10 {
                return Err(AuctionError::InvalidInstructionData);
            }
            Ok(AuctionInstruction::Bidding { price: read_u64_le(input, 1), decimals: input[9] })
        } else if tag == 2 {
            Ok(AuctionInstruction::CloseAuction)
        } else {
            Err(AuctionError::InvalidInstructionData)
        }
    }

    /// Encodes the opcode canonically.
    pub fn pack(&self) -> (r: Vec<u8>)
        ensures
            r@ == auction_instruction_bytes(*self),
    {
        let mut buf: Vec<u8> = Vec::new();
        match self {
            AuctionInstruction::CreateAuction { start_price } => {
                buf.push(0);
                write_u64_le(&mut buf, *start_price);
            },
            AuctionInstruction::Bidding { price, decimals } => {
                buf.push(1);
                write_u64_le(&mut buf, *price);
                buf.push(*decimals);
            },
            AuctionInstruction::CloseAuction => {
                buf.push(2);
            },
        }
        proof {
            assert(buf@ =~= auction_instruction_bytes(*self));
        }
        buf
    }
}

/// Decoding a canonical auction opcode yields it back.
pub proof fn lemma_auction_instruction_roundtrip(i: AuctionInstruction)
    ensures
        parse_auction_instruction(auction_instruction_bytes(i)) == Ok::<
            AuctionInstruction,
            AuctionError,
        >(i),
{
    let b = auction_instruction_bytes(i);
    lemma_pow256_values();
    match i {
        AuctionInstruction::CreateAuction { start_price } => {
            lemma_le_bytes_len(start_price as int, 8);
            let enc = le_bytes(start_price as int, 8);
            assert forall|j: int| 0 <= j < 8 implies #[trigger] b[1 + j] == enc[j] by {}
            lemma_le_value_agree(b, enc, 1, 0, 8);
            lemma_le_roundtrip(start_price as int, 8);
        },
        AuctionInstruction::Bidding { price, decimals } => {
            lemma_le_bytes_len(price as int, 8);
            let enc = le_bytes(price as int, 8);
            assert forall|j: int| 0 <= j < 8 implies #[trigger] b[1 + j] == enc[j] by {}
            lemma_le_value_agree(b, enc, 1, 0, 8);
            lemma_le_roundtrip(price as int, 8);
            assert(b[9] == decimals);
        },
        AuctionInstruction::CloseAuction => {},
    }
}

/// All fields of `x` read back from the packed record `b`.
pub open spec fn auction_matches(x: Auction, b: Seq<u8>) -> bool {
    &&& b.len() == 232
    &&& x.seller@ == b.subrange(0, 32)
    &&& x.item@ == b.subrange(32, 64)
    &&& x.item_holder@ == b.subrange(64, 96)
    &&& x.currency@ == b.subrange(96, 128)
    &&& x.money_holder@ == b.subrange(128, 160)
    &&& x.bidder@ == b.subrange(160, 192)
    &&& x.refund_address@ == b.subrange(192, 224)
    &&& x.price as int == le_value(b, 224, 8)
}

/// Two auctions that match the same bytes are the same auction.
pub proof fn lemma_auction_matches_unique(x1: Auction, x2: Auction, b: Seq<u8>)
    requires
        auction_matches(x1, b),
        auction_matches(x2, b),
    ensures
        x1 == x2,
{
    crate::keys::lemma_key_view_eq(x1.seller, x2.seller);
    crate::keys::lemma_key_view_eq(x1.item, x2.item);
    crate::keys::lemma_key_view_eq(x1.item_holder, x2.item_holder);
    crate::keys::lemma_key_view_eq(x1.currency, x2.currency);
    crate::keys::lemma_key_view_eq(x1.money_holder, x2.money_holder);
    crate::keys::lemma_key_view_eq(x1.bidder, x2.bidder);
    crate::keys::lemma_key_view_eq(x1.refund_address, x2.refund_address);
}

/// The all-zero identity: an auction record whose seller is this has not
/// been created yet.
pub open spec fn zero_key_bytes() -> Seq<u8> {
    Seq::new(32, |i: int| 0u8)
}

/// What one auction handler performs: the ledger calls in order, the
/// record to persist, and the custodial authority with its bump seed for
/// the host to sign with.
pub struct MarketOutcome {
    pub actions: Vec<LedgerAction>,
    pub auction: Auction,
    pub authority: Key,
    pub bump_seed: u8,
}

/// The account list of an auction creation, in wire order.
pub struct CreateAuctionAccounts {
    pub auction_data: Vec<u8>,
    pub seller_key: Key,
    pub item_key: Key,
    pub item_holder: AccountReading,
    pub currency_key: Key,
    pub money_holder: AccountReading,
    pub bidder_key: Key,
    pub refund_address_key: Key,
}

/// The custody checks of a creation against the derived authority, in
/// checking order; `None` when they pass.
pub open spec fn create_auction_checks(a: CreateAuctionAccounts, pda: Seq<u8>) -> Option<
    AuctionError,
> {
    match a.item_holder.token {
        None => Some(AuctionError::InvalidAccountData),
        Some(ih) => if ih.mint@ != a.item_key@ {
            Some(AuctionError::InvalidAccountData)
        } else if ih.owner@ != pda {
            Some(AuctionError::InvalidAccountData)
        } else {
            match a.money_holder.token {
                None => Some(AuctionError::InvalidAccountData),
                Some(mh) => if mh.mint@ != a.currency_key@ {
                    Some(AuctionError::InvalidAccountData)
                } else if mh.owner@ != pda {
                    Some(AuctionError::InvalidAccountData)
                } else {
                    None
                },
            }
        },
    }
}

/// The ledger calls of an accepted creation: the starting bid moves into
/// custody, and the item follows.
pub open spec fn create_auction_actions(
    token_program: Key,
    a: CreateAuctionAccounts,
    start_price: u64,
) -> Seq<LedgerAction> {
    seq![
        LedgerAction::Transfer {
            token_program,
            source: a.refund_address_key,
            mint: a.currency_key,
            destination: a.money_holder.key,
            authority: a.seller_key,
            amount: start_price,
            decimals: 0,
        },
        LedgerAction::Transfer {
            token_program,
            source: a.bidder_key,
            mint: a.item_key,
            destination: a.item_holder.key,
            authority: a.seller_key,
            amount: 1,
            decimals: 0,
        },
    ]
}

/// The record an accepted creation persists.
pub open spec fn created_auction(a: CreateAuctionAccounts, start_price: u64) -> Auction {
    Auction {
        seller: a.seller_key,
        item: a.item_key,
        item_holder: a.item_holder.key,
        currency: a.currency_key,
        money_holder: a.money_holder.key,
        bidder: a.bidder_key,
        refund_address: a.refund_address_key,
        price: start_price,
    }
}

/// Opens an auction: both custodial holders must be denominated in the
/// declared assets and owned by the seller's derived authority.
pub fn process_create_auction(
    program_id: &Key,
    token_program: &Key,
    start_price: u64,
    accs: &CreateAuctionAccounts,
) -> (r: Result<MarketOutcome, AuctionError>)
    ensures
        accs.auction_data@.len() != 232 ==> (r matches Err(e) && e
            == AuctionError::InvalidInstructionData),
        (accs.auction_data@.len() == 232 && (forall|b: u8|
            derived_authority(accs.seller_key@, b, program_id@) is None)) ==> (r matches Err(e)
            && e == AuctionError::InvalidAccountData),
        forall|b: u8|
            (accs.auction_data@.len() == 232 && #[trigger] canonical_bump(
                accs.seller_key@,
                program_id@,
                b,
            )) ==> (match create_auction_checks(
                *accs,
                derived_authority(accs.seller_key@, b, program_id@).unwrap(),
            ) {
                Some(e) => r == Err::<MarketOutcome, AuctionError>(e),
                None => (r matches Ok(o) && {
                    &&& o.bump_seed == b
                    &&& derived_authority(accs.seller_key@, b, program_id@) == Some(o.authority@)
                    &&& o.actions@ == create_auction_actions(*token_program, *accs, start_price)
                    &&& o.auction == created_auction(*accs, start_price)
                }),
            }),
{
    if accs.auction_data.len() != 232 {
        return Err(AuctionError::InvalidInstructionData);
    }
    let (pda, bump_seed) = match find_authority(&accs.seller_key, program_id) {
        Some(p) => p,
        None => {
            return Err(AuctionError::InvalidAccountData);
        },
    };
    proof {
        crate::processor::lemma_canonical_bump_unique(accs.seller_key@, program_id@, bump_seed);
    }
    let item_holder = match &accs.item_holder.token {
        Some(t) => *t,
        None => {
            return Err(AuctionError::InvalidAccountData);
        },
    };
    if !(item_holder.mint == accs.item_key) {
        return Err(AuctionError::InvalidAccountData);
    }
    if !(item_holder.owner == pda) {
        return Err(AuctionError::InvalidAccountData);
    }
    let money_holder = match &accs.money_holder.token {
        Some(t) => *t,
        None => {
            return Err(AuctionError::InvalidAccountData);
        },
    };
    if !(money_holder.mint == accs.currency_key) {
        return Err(AuctionError::InvalidAccountData);
    }
    if !(money_holder.owner == pda) {
        return Err(AuctionError::InvalidAccountData);
    }
    let mut actions: Vec<LedgerAction> = Vec::new();
    actions.push(
        LedgerAction::Transfer {
            token_program: *token_program,
            source: accs.refund_address_key,
            mint: accs.currency_key,
            destination: accs.money_holder.key,
            authority: accs.seller_key,
            amount: start_price,
            decimals: 0,
        },
    );
    actions.push(
        LedgerAction::Transfer {
            token_program: *token_program,
            source: accs.bidder_key,
            mint: accs.item_key,
            destination: accs.item_holder.key,
            authority: accs.seller_key,
            amount: 1,
            decimals: 0,
        },
    );
    let auction = Auction {
        seller: accs.seller_key,
        item: accs.item_key,
        item_holder: accs.item_holder.key,
        currency: accs.currency_key,
        money_holder: accs.money_holder.key,
        bidder: accs.bidder_key,
        refund_address: accs.refund_address_key,
        price: start_price,
    };
    proof {
        assert(actions@ =~= create_auction_actions(*token_program, *accs, start_price));
    }
    Ok(MarketOutcome { actions, auction, authority: pda, bump_seed })
}

/// The account list of a bid, in wire order.
pub struct BidAccounts {
    pub auction_data: Vec<u8>,
    pub bidder_key: Key,
    pub item_receiver: AccountReading,
    pub refund_address: AccountReading,
    pub payer_key: Key,
}

/// The checks of a bid that precede the derivation, in checking order;
/// `None` when they pass.
pub open spec fn bid_checks(x: Auction, a: BidAccounts, price: u64) -> Option<AuctionError> {
    match a.item_receiver.token {
        None => Some(AuctionError::InvalidAccountData),
        Some(ir) => if ir.mint@ != x.item@ {
            Some(AuctionError::InvalidAccountData)
        } else {
            match a.refund_address.token {
                None => Some(AuctionError::InvalidAccountData),
                Some(ra) => if ra.mint@ != x.currency@ {
                    Some(AuctionError::InvalidAccountData)
                } else if price <= x.price {
                    Some(AuctionError::InvalidAccountData)
                } else {
                    None
                },
            }
        },
    }
}

/// The ledger calls of an accepted bid: refund the previous leader from
/// custody, then move the new bid into custody.
pub open spec fn bid_actions(
    token_program: Key,
    x: Auction,
    a: BidAccounts,
    price: u64,
    decimals: u8,
    pda: Key,
) -> Seq<LedgerAction> {
    seq![
        LedgerAction::Transfer {
            token_program,
            source: x.money_holder,
            mint: x.currency,
            destination: x.refund_address,
            authority: pda,
            amount: x.price,
            decimals,
        },
        LedgerAction::Transfer {
            token_program,
            source: a.payer_key,
            mint: x.currency,
            destination: x.money_holder,
            authority: a.bidder_key,
            amount: price,
            decimals,
        },
    ]
}

/// Takes the lead in an auction: the receiving accounts must match the
/// auctioned item and its currency, and the price must strictly rise.
pub fn process_bidding(
    program_id: &Key,
    token_program: &Key,
    price: u64,
    decimals: u8,
    accs: &BidAccounts,
) -> (r: Result<MarketOutcome, AuctionError>)
    ensures
        accs.auction_data@.len() != 232 ==> (r matches Err(e) && e
            == AuctionError::InvalidInstructionData),
        forall|x: Auction| #[trigger]
            auction_matches(x, accs.auction_data@) ==> (if x.seller@ == zero_key_bytes() {
                r == Err::<MarketOutcome, AuctionError>(AuctionError::UninitializedAccount)
            } else {
                match bid_checks(x, *accs, price) {
                    Some(e) => r == Err::<MarketOutcome, AuctionError>(e),
                    None => {
                        &&& (r is Err ==> (forall|b: u8|
                            derived_authority(x.seller@, b, program_id@) is None) && r == Err::<
                            MarketOutcome,
                            AuctionError,
                        >(AuctionError::InvalidAccountData))
                        &&& (r matches Ok(o) ==> {
                            &&& canonical_bump(x.seller@, program_id@, o.bump_seed)
                            &&& derived_authority(x.seller@, o.bump_seed, program_id@) == Some(
                                o.authority@,
                            )
                            &&& o.actions@ == bid_actions(
                                *token_program,
                                x,
                                *accs,
                                price,
                                decimals,
                                o.authority,
                            )
                            &&& o.auction == (Auction {
                                bidder: accs.item_receiver.key,
                                refund_address: accs.refund_address.key,
                                price,
                                ..x
                            })
                        })
                    },
                }
            }),
{
    let auction = match Auction::unpack_from_slice(accs.auction_data.as_slice()) {
        Ok(x) => x,
        Err(e) => {
            return Err(e);
        },
    };
    proof {
        assert(auction_matches(auction, accs.auction_data@));
        assert forall|x: Auction| #[trigger]
            auction_matches(x, accs.auction_data@) implies x == auction by {
            lemma_auction_matches_unique(x, auction, accs.auction_data@);
        }
    }
    let zero = Key::new([0u8; 32]);
    proof {
        broadcast use vstd::array::group_array_axioms;

        assert(zero@ =~= zero_key_bytes());
    }
    if auction.seller == zero {
        return Err(AuctionError::UninitializedAccount);
    }
    let item_receiver = match &accs.item_receiver.token {
        Some(t) => *t,
        None => {
            return Err(AuctionError::InvalidAccountData);
        },
    };
    if !(item_receiver.mint == auction.item) {
        return Err(AuctionError::InvalidAccountData);
    }
    let refund_address = match &accs.refund_address.token {
        Some(t) => *t,
        None => {
            return Err(AuctionError::InvalidAccountData);
        },
    };
    if !(refund_address.mint == auction.currency) {
        return Err(AuctionError::InvalidAccountData);
    }
    if price <= auction.price {
        return Err(AuctionError::InvalidAccountData);
    }
    let (pda, bump_seed) = match find_authority(&auction.seller, program_id) {
        Some(p) => p,
        None => {
            return Err(AuctionError::InvalidAccountData);
        },
    };
    let mut actions: Vec<LedgerAction> = Vec::new();
    actions.push(
        LedgerAction::Transfer {
            token_program: *token_program,
            source: auction.money_holder,
            mint: auction.currency,
            destination: auction.refund_address,
            authority: pda,
            amount: auction.price,
            decimals,
        },
    );
    actions.push(
        LedgerAction::Transfer {
            token_program: *token_program,
            source: accs.payer_key,
            mint: auction.currency,
            destination: auction.money_holder,
            authority: accs.bidder_key,
            amount: price,
            decimals,
        },
    );
    let updated = Auction {
        bidder: accs.item_receiver.key,
        refund_address: accs.refund_address.key,
        price,
        ..auction
    };
    proof {
        assert(actions@ =~= bid_actions(*token_program, auction, *accs, price, decimals, pda));
    }
    Ok(MarketOutcome { actions, auction: updated, authority: pda, bump_seed })
}

/// The account list of an auction close, in wire order.
pub struct CloseAuctionAccounts {
    pub auction_data: Vec<u8>,
    pub seller_key: Key,
    pub seller_is_signer: bool,
    pub money_receiver_key: Key,
}

/// The ledger calls of an accepted close: the winning bid goes to the
/// seller's receiver, and the item goes to the winning bidder.
pub open spec fn close_actions(token_program: Key, x: Auction, a: CloseAuctionAccounts, pda: Key) -> Seq<
    LedgerAction,
> {
    seq![
        LedgerAction::Transfer {
            token_program,
            source: x.money_holder,
            mint: x.currency,
            destination: a.money_receiver_key,
            authority: pda,
            amount: x.price,
            decimals: 0,
        },
        LedgerAction::Transfer {
            token_program,
            source: x.item_holder,
            mint: x.item,
            destination: x.bidder,
            authority: pda,
            amount: 1,
            decimals: 0,
        },
    ]
}

/// Settles an auction: only the signing seller may close, and custody
/// pays out the final price and hands the item to the winner.
pub fn process_close_auction(
    program_id: &Key,
    token_program: &Key,
    accs: &CloseAuctionAccounts,
) -> (r: Result<MarketOutcome, AuctionError>)
    ensures
        accs.auction_data@.len() != 232 ==> (r matches Err(e) && e
            == AuctionError::InvalidInstructionData),
        forall|x: Auction| #[trigger]
            auction_matches(x, accs.auction_data@) ==> (if x.seller@ == zero_key_bytes() {
                r == Err::<MarketOutcome, AuctionError>(AuctionError::UninitializedAccount)
            } else if accs.seller_key@ != x.seller@ || !accs.seller_is_signer {
                r == Err::<MarketOutcome, AuctionError>(AuctionError::InvalidAccountData)
            } else {
                &&& (r is Err ==> (forall|b: u8|
                    derived_authority(x.seller@, b, program_id@) is None) && r == Err::<
                    MarketOutcome,
                    AuctionError,
                >(AuctionError::InvalidAccountData))
                &&& (r matches Ok(o) ==> {
                    &&& canonical_bump(x.seller@, program_id@, o.bump_seed)
                    &&& derived_authority(x.seller@, o.bump_seed, program_id@) == Some(o.authority@)
                    &&& o.actions@ == close_actions(*token_program, x, *accs, o.authority)
                    &&& o.auction == x
                })
            }),
{
    let auction = match Auction::unpack_from_slice(accs.auction_data.as_slice()) {
        Ok(x) => x,
        Err(e) => {
            return Err(e);
        },
    };
    proof {
        assert(auction_matches(auction, accs.auction_data@));
        assert forall|x: Auction| #[trigger]
            auction_matches(x, accs.auction_data@) implies x == auction by {
            lemma_auction_matches_unique(x, auction, accs.auction_data@);
        }
    }
    let zero = Key::new([0u8; 32]);
    proof {
        broadcast use vstd::array::group_array_axioms;

        assert(zero@ =~= zero_key_bytes());
    }
    if auction.seller == zero {
        return Err(AuctionError::UninitializedAccount);
    }
    if !(accs.seller_key == auction.seller) {
        return Err(AuctionError::InvalidAccountData);
    }
    if !accs.seller_is_signer {
        return Err(AuctionError::InvalidAccountData);
    }
    let (pda, bump_seed) = match find_authority(&auction.seller, program_id) {
        Some(p) => p,
        None => {
            return Err(AuctionError::InvalidAccountData);
        },
    };
    let mut actions: Vec<LedgerAction> = Vec::new();
    actions.push(
        LedgerAction::Transfer {
            token_program: *token_program,
            source: auction.money_holder,
            mint: auction.currency,
            destination: accs.money_receiver_key,
            authority: pda,
            amount: auction.price,
            decimals: 0,
        },
    );
    actions.push(
        LedgerAction::Transfer {
            token_program: *token_program,
            source: auction.item_holder,
            mint: auction.item,
            destination: auction.bidder,
            authority: pda,
            amount: 1,
            decimals: 0,
        },
    );
    proof {
        assert(actions@ =~= close_actions(*token_program, auction, *accs, pda));
    }
    Ok(MarketOutcome { actions, auction, authority: pda, bump_seed })
}


} // verus!
