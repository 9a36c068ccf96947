//! The records of an auction and the lifecycle that governs it.

use crate::bid_state::{Bid, BidState};
use crate::errors::AuctionError;
use crate::pubkey::Pubkey;
use vstd::prelude::*;

verus! {

/// How long after the last bid an auction stays open, in slots: ten minutes
/// of chain time at 400 ms a slot.
pub const GRACE_PERIOD: u64 = 1500;

/// Where an auction stands in its lifecycle.
#[derive(Clone, Copy, Debug, PartialEq, Eq, Structural)]
pub enum AuctionState {
    /// Configured, not yet accepting bids.
    Created,
    /// Accepting bids.
    Started,
    /// Over. Nothing changes an ended auction.
    Ended,
}

impl AuctionState {
    pub fn create() -> (r: AuctionState)
        ensures
            r == AuctionState::Created,
    {
        AuctionState::Created
    }

    /// `Created` becomes `Started`; no other state can start.
    pub fn start(self) -> (r: Result<AuctionState, AuctionError>)
        ensures
            self == AuctionState::Created ==> r == Ok::<AuctionState, AuctionError>(
                AuctionState::Started,
            ),
            self != AuctionState::Created ==> r == Err::<AuctionState, AuctionError>(
                AuctionError::AuctionTransitionInvalid,
            ),
    {
        match self {
            AuctionState::Created => Ok(AuctionState::Started),
            _ => Err(AuctionError::AuctionTransitionInvalid),
        }
    }

    /// `Started` becomes `Ended`; no other state can end.
    pub fn end(self) -> (r: Result<AuctionState, AuctionError>)
        ensures
            self == AuctionState::Started ==> r == Ok::<AuctionState, AuctionError>(
                AuctionState::Ended,
            ),
            self != AuctionState::Started ==> r == Err::<AuctionState, AuctionError>(
                AuctionError::AuctionTransitionInvalid,
            ),
    {
        match self {
            AuctionState::Started => Ok(AuctionState::Ended),
            _ => Err(AuctionError::AuctionTransitionInvalid),
        }
    }
}

/// The least that a bid must exceed.
#[derive(Clone, Copy, Debug, PartialEq, Eq, Structural)]
pub enum PriceFloor {
    /// Any amount may be bid.
    NoFloor,
    /// Only amounts above this one may be bid.
    MinimumPrice(u64),
}

impl PriceFloor {
    /// Whether a bid of `amount` clears the floor.
    pub open spec fn spec_admits(self, amount: u64) -> bool {
        match self {
            PriceFloor::NoFloor => true,
            PriceFloor::MinimumPrice(min) => amount > min,
        }
    }

    #[verifier::when_used_as_spec(spec_admits)]
    pub fn admits(self, amount: u64) -> (r: bool)
        ensures
            r == self.spec_admits(amount),
    {
        match self {
            PriceFloor::NoFloor => true,
            PriceFloor::MinimumPrice(min) => amount > min,
        }
    }
}

/// The time at which a bid arrives.
#[derive(Clone, Copy, Debug, PartialEq, Eq, Structural)]
pub struct Clock {
    /// Chain time, in slots. Deadlines are counted in it.
    pub slot: u64,
    /// Wall-clock time, in seconds since the epoch.
    pub unix_timestamp: i64,
}

/// An auction: what is sold, for which token, under which rules, and how
/// far the bidding has come.
#[derive(Clone, Debug, PartialEq, Eq)]
pub struct AuctionData {
    /// What is bid on.
    pub resource: Pubkey,
    /// The mint of the token in which bids are made.
    pub token_mint: Pubkey,
    pub state: AuctionState,
    /// The active bids.
    pub bid_state: BidState,
    /// The slot of the last bid that was placed.
    pub last_bid: Option<u64>,
    /// The slot at which the auction ends whatever the bidding, if any.
    pub end_auction_at: Option<u64>,
    pub price_floor: PriceFloor,
}

impl AuctionData {
    /// Whether the bidding is over at slot `now`: the last bid is at least
    /// `GRACE_PERIOD` old, or the configured end has been reached.
    pub open spec fn spec_ended(&self, now: u64) -> bool {
        ||| self.last_bid matches Some(last) && now - last >= GRACE_PERIOD
        ||| self.end_auction_at matches Some(end) && now >= end
    }

    #[verifier::when_used_as_spec(spec_ended)]
    pub fn ended(&self, now: u64) -> (r: bool)
        ensures
            r == self.spec_ended(now),
    {
        let quiet = match self.last_bid {
            Some(last) => now >= last && now - last >= GRACE_PERIOD,
            None => false,
        };
        let over = match self.end_auction_at {
            Some(end) => now >= end,
            None => false,
        };
        quiet || over
    }

    /// Ends a running auction. An auction that is not running stays as it
    /// is.
    pub fn end(&mut self) -> (r: Result<(), AuctionError>)
        ensures
            old(self).state == AuctionState::Started ==> r is Ok && *final(self) == (AuctionData {
                state: AuctionState::Ended,
                ..*old(self)
            }),
            old(self).state != AuctionState::Started ==> r == Err::<(), AuctionError>(
                AuctionError::AuctionTransitionInvalid,
            ) && *final(self) == *old(self),
    {
        self.state = self.state.end()?;
        Ok(())
    }

    /// The bid that wins if the auction ends now.
    pub fn winner(&self) -> (r: Option<Bid>)
        ensures
            self.bid_state@.len() == 0 ==> r is None,
            self.bid_state@.len() > 0 ==> r == Some(self.bid_state@.last()),
    {
        self.bid_state.winner()
    }
}

/// What an auction remembers of one bidder.
#[derive(Clone, Copy, Debug, PartialEq, Eq)]
pub struct BidderMetadata {
    pub bidder_pubkey: Pubkey,
    pub auction_pubkey: Pubkey,
    /// The slot of the bidder's last bid.
    pub last_bid: u64,
    /// The wall-clock time of the bidder's last bid.
    pub last_bid_timestamp: i64,
    /// Whether the bidder withdrew that bid. Only then may they bid again.
    pub cancelled: bool,
}

/// Binds a bidder to the token account that holds their locked funds.
#[derive(Clone, Copy, Debug, PartialEq, Eq)]
pub struct BidderPot {
    /// The token account in escrow.
    pub bidder_pot: Pubkey,
    /// The bidder whose funds it holds.
    pub bidder_act: Pubkey,
    /// The auction in which they are locked.
    pub auction_act: Pubkey,
}

} // verus!
