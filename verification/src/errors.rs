use vstd::prelude::*;

verus! {

/// Why a bid placement was refused.
#[derive(Clone, Copy, Debug, PartialEq, Eq, Structural)]
pub enum AuctionError {
    /// Fewer accounts were supplied than a placement needs.
    NotEnoughAccountKeys,
    /// An account is not owned by the program that has to own it.
    IncorrectOwner,
    /// An account that has to authorise the placement did not sign.
    MissingRequiredSignature,
    /// A supplied address is not the one derived for its record.
    DerivedKeyInvalid,
    /// The bytes of a token account do not unpack.
    InvalidAccountData,
    /// A token account has not been initialised.
    Uninitialized,
    /// The lifecycle has no such transition.
    AuctionTransitionInvalid,
    /// The bidder still holds an uncancelled bid in this auction.
    BidAlreadyActive,
    /// The escrow token account does not belong to the auction, or is not
    /// the one the bidder's pot was bound to.
    BidderPotTokenAccountOwnerMismatch,
    /// The auction is not accepting bids.
    InvalidState,
    /// The bid does not exceed the configured price floor.
    BidTooSmall,
    /// The funding account holds less than the bid.
    BalanceTooLow,
    /// The ledger is full and the bid does not exceed its lowest entry.
    BidRejected,
}

} // verus!
