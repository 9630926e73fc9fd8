//! An automated market-making exchange engine over two custodial token
//! reserves and a pool-share ledger: constant-product swaps, proportional
//! and single-sided deposits and withdrawals, fee accounting, derived
//! signing authority, and the packed on-chain record formats. Beside the
//! engine stand the smaller companion programs sharing its wire
//! conventions: a visit counter, a message board, and an auction.

pub mod account;
pub mod auction;
pub mod authority;
pub mod bytes;
pub mod curve;
pub mod error;
pub mod fees;
pub mod greeting;
pub mod hello;
pub mod instruction;
pub mod keys;
pub mod math;
pub mod processor;
pub mod state;
pub mod token_instruction;
