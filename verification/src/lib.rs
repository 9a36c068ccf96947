//! An English auction: a bounded, ordered ledger of bids, the lifecycle of an
//! auction, and the protocol by which a bid is validated and committed.
//!
//! Bids are placed while the auction runs; every bid that is taken moves the
//! deadline on, and the first attempt after the deadline ends the auction.
//! The ledger keeps only the highest bids, so that no flood of small bids can
//! grow it or push a higher bid out.

/// The auction's records, its rules and its lifecycle.
pub mod auction;
/// The bid ledger.
pub mod bid_state;
/// Why a placement is refused.
pub mod errors;
/// The placement of a bid.
pub mod place_bid;
/// Addresses and their derivation.
pub mod pubkey;
/// Token accounts.
pub mod token;

pub use crate::pubkey::PREFIX;
