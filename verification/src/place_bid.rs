//! Placing a bid on a running auction.
//!
//! Once an auction has started, bids can be placed until `GRACE_PERIOD` has
//! passed with no new bid; the first attempt after that ends the auction
//! instead. To keep one bidder from padding the ledger, a bidder holds at
//! most one active bid, and the ledger keeps only the highest bids.
//!
//! A placement runs in two parts, with the escrow transfer between them:
//! `place_bid` validates the bid and says what is to be done, and
//! `settle_bid` records the bid once its funds are in escrow.

use crate::auction::{
    AuctionData, AuctionState, BidderMetadata, BidderPot, Clock, PriceFloor, GRACE_PERIOD,
};
use crate::bid_state::{placed, Bid};
use crate::errors::AuctionError;
use crate::pubkey::{
    address_of, assert_derivation, derivation_matches, find_address, Pubkey, RecordKey,
};
use crate::token::{token_program_id, token_program_id_bytes, unpack, unpacked, TokenAccount};
use vstd::prelude::*;

verus! {

/// What a bidder submits.
#[derive(Clone, Copy, Debug, PartialEq, Eq)]
pub struct PlaceBidArgs {
    /// Size of the bid being placed. The bidder must hold at least this much.
    pub amount: u64,
    /// Resource being bid on.
    pub resource: Pubkey,
}

/// What a placement reads of an account.
#[derive(Clone, Debug, PartialEq, Eq)]
pub struct AccountInfo {
    /// The address of the account.
    pub key: Pubkey,
    /// The program that owns it.
    pub owner: Pubkey,
    /// Whether its holder signed the request.
    pub is_signer: bool,
    /// The bytes it holds.
    pub data: Vec<u8>,
}

/// The accounts of a placement, by the part each plays.
#[derive(Clone, Copy, Debug)]
pub struct Accounts<'a> {
    /// The bidder's token account, from which the bid is paid.
    pub bidder: &'a AccountInfo,
    /// The record that binds the bidder to their escrow.
    pub bidder_pot: &'a AccountInfo,
    /// The token account in escrow.
    pub bidder_pot_token: &'a AccountInfo,
    /// The record of the bidder's last bid.
    pub bidder_meta: &'a AccountInfo,
    pub auction: &'a AccountInfo,
    /// The mint of the token that is bid.
    pub mint: &'a AccountInfo,
    /// Who may move the bidder's tokens.
    pub transfer_authority: &'a AccountInfo,
    /// Who pays for records that have to be created.
    pub payer: &'a AccountInfo,
    pub clock_sysvar: &'a AccountInfo,
    pub rent: &'a AccountInfo,
    pub system: &'a AccountInfo,
    pub token_program: &'a AccountInfo,
}

/// How many accounts a placement takes.
pub const ACCOUNTS: usize = 12;

/// Where each account stands in a request.
pub const BIDDER: usize = 0;

pub const BIDDER_POT: usize = 1;

pub const BIDDER_POT_TOKEN: usize = 2;

pub const BIDDER_META: usize = 3;

pub const AUCTION: usize = 4;

pub const MINT: usize = 5;

pub const TRANSFER_AUTHORITY: usize = 6;

pub const PAYER: usize = 7;

pub const CLOCK_SYSVAR: usize = 8;

pub const RENT: usize = 9;

pub const SYSTEM: usize = 10;

pub const TOKEN_PROGRAM: usize = 11;

/// The accounts in the order in which a request lists them.
pub open spec fn in_order(accounts: Seq<AccountInfo>) -> Accounts<'static> {
    Accounts {
        bidder: &accounts[BIDDER as int],
        bidder_pot: &accounts[BIDDER_POT as int],
        bidder_pot_token: &accounts[BIDDER_POT_TOKEN as int],
        bidder_meta: &accounts[BIDDER_META as int],
        auction: &accounts[AUCTION as int],
        mint: &accounts[MINT as int],
        transfer_authority: &accounts[TRANSFER_AUTHORITY as int],
        payer: &accounts[PAYER as int],
        clock_sysvar: &accounts[CLOCK_SYSVAR as int],
        rent: &accounts[RENT as int],
        system: &accounts[SYSTEM as int],
        token_program: &accounts[TOKEN_PROGRAM as int],
    }
}

impl<'a> Accounts<'a> {
    /// Whether the bidder's metadata has been recorded: its account then
    /// belongs to `program_id`.
    pub open spec fn spec_has_metadata(&self, program_id: &Pubkey) -> bool {
        self.bidder_meta.owner == *program_id
    }

    #[verifier::when_used_as_spec(spec_has_metadata)]
    pub fn has_metadata(&self, program_id: &Pubkey) -> (r: bool)
        ensures
            r == self.spec_has_metadata(program_id),
    {
        self.bidder_meta.owner == *program_id
    }

    /// Whether the bidder's pot has been bound: its account then holds data.
    pub open spec fn spec_has_pot(&self) -> bool {
        self.bidder_pot.data@.len() > 0
    }

    #[verifier::when_used_as_spec(spec_has_pot)]
    pub fn has_pot(&self) -> (r: bool)
        ensures
            r == self.spec_has_pot(),
    {
        self.bidder_pot.data.len() > 0
    }
}

/// The accounts of a request, or why they cannot be taken: too few of them,
/// an auction that `program_id` does not own, a mint or an escrow account
/// that the token program does not own, a bidder or a transfer authority
/// that did not sign.
pub open spec fn parsed(program_id: Pubkey, accounts: Seq<AccountInfo>) -> Result<
    Accounts<'static>,
    AuctionError,
> {
    let named = in_order(accounts);
    if accounts.len() < ACCOUNTS {
        Err(AuctionError::NotEnoughAccountKeys)
    } else if named.auction.owner != program_id {
        Err(AuctionError::IncorrectOwner)
    } else if named.mint.owner@ != token_program_id_bytes() {
        Err(AuctionError::IncorrectOwner)
    } else if named.bidder_pot_token.owner@ != token_program_id_bytes() {
        Err(AuctionError::IncorrectOwner)
    } else if !named.bidder.is_signer {
        Err(AuctionError::MissingRequiredSignature)
    } else if !named.transfer_authority.is_signer {
        Err(AuctionError::MissingRequiredSignature)
    } else {
        Ok(named)
    }
}

/// Names the accounts of a request and checks who owns and who signed them.
pub fn parse_accounts<'a>(program_id: &Pubkey, accounts: &'a [AccountInfo]) -> (r: Result<
    Accounts<'a>,
    AuctionError,
>)
    ensures
        r == parsed(*program_id, accounts@),
{
    if accounts.len() < ACCOUNTS {
        return Err(AuctionError::NotEnoughAccountKeys);
    }
    let named = Accounts {
        bidder: &accounts[BIDDER],
        bidder_pot: &accounts[BIDDER_POT],
        bidder_pot_token: &accounts[BIDDER_POT_TOKEN],
        bidder_meta: &accounts[BIDDER_META],
        auction: &accounts[AUCTION],
        mint: &accounts[MINT],
        transfer_authority: &accounts[TRANSFER_AUTHORITY],
        payer: &accounts[PAYER],
        clock_sysvar: &accounts[CLOCK_SYSVAR],
        rent: &accounts[RENT],
        system: &accounts[SYSTEM],
        token_program: &accounts[TOKEN_PROGRAM],
    };
    let token_program = token_program_id();
    proof {
        if named.mint.owner@ == token_program@ {
            named.mint.owner.lemma_view_injective(token_program);
        }
        if named.bidder_pot_token.owner@ == token_program@ {
            named.bidder_pot_token.owner.lemma_view_injective(token_program);
        }
    }
    if named.auction.owner != *program_id {
        return Err(AuctionError::IncorrectOwner);
    }
    if named.mint.owner != token_program {
        return Err(AuctionError::IncorrectOwner);
    }
    if named.bidder_pot_token.owner != token_program {
        return Err(AuctionError::IncorrectOwner);
    }
    if !named.bidder.is_signer {
        return Err(AuctionError::MissingRequiredSignature);
    }
    if !named.transfer_authority.is_signer {
        return Err(AuctionError::MissingRequiredSignature);
    }
    Ok(named)
}

/// The records that a placement reads and writes.
#[derive(Clone, Debug, PartialEq, Eq)]
pub struct Records {
    pub auction: AuctionData,
    /// The bidder's metadata; `None` until their first bid is recorded.
    pub metadata: Option<BidderMetadata>,
    /// The bidder's pot binding; `None` until their first bid is validated.
    pub pot: Option<BidderPot>,
}

/// What the address derivation and the token layout give for the accounts
/// of a placement.
#[derive(Clone, Copy, Debug, PartialEq, Eq)]
pub struct Resolved {
    /// The derived address of the bidder's metadata, with its bump seed.
    pub metadata: Option<(Pubkey, u8)>,
    /// The derived address of the bidder's pot, with its bump seed.
    pub pot: Option<(Pubkey, u8)>,
    /// The derived address of the auction, with its bump seed.
    pub auction: Option<(Pubkey, u8)>,
    /// The escrow token account, unpacked.
    pub pot_token: Option<TokenAccount>,
    /// The bidder's token account, unpacked.
    pub funding: Option<TokenAccount>,
}

/// The record keys of a placement: the bidder's metadata, the bidder's pot,
/// the auction.
pub open spec fn record_keys(accounts: Accounts<'_>, args: PlaceBidArgs) -> (
    RecordKey,
    RecordKey,
    RecordKey,
) {
    (
        RecordKey::BidderMetadata { auction: accounts.auction.key, bidder: accounts.bidder.key },
        RecordKey::BidderPot { auction: accounts.auction.key, bidder: accounts.bidder.key },
        RecordKey::Auction { resource: args.resource },
    )
}

/// What the derivation and the token layout give for `accounts` and `args`.
pub open spec fn resolved(program_id: Pubkey, accounts: Accounts<'_>, args: PlaceBidArgs) -> Resolved {
    Resolved {
        metadata: address_of(program_id, record_keys(accounts, args).0),
        pot: address_of(program_id, record_keys(accounts, args).1),
        auction: address_of(program_id, record_keys(accounts, args).2),
        pot_token: unpacked(accounts.bidder_pot_token.data@),
        funding: unpacked(accounts.bidder.data@),
    }
}

/// Derives the addresses of the three records and unpacks the two token
/// accounts.
pub fn resolve(program_id: &Pubkey, accounts: &Accounts<'_>, args: &PlaceBidArgs) -> (r: Resolved)
    ensures
        r == resolved(*program_id, *accounts, *args),
{
    let auction = accounts.auction.key;
    let bidder = accounts.bidder.key;
    Resolved {
        metadata: find_address(program_id, &RecordKey::BidderMetadata { auction, bidder }),
        pot: find_address(program_id, &RecordKey::BidderPot { auction, bidder }),
        auction: find_address(program_id, &RecordKey::Auction { resource: args.resource }),
        pot_token: unpack(accounts.bidder_pot_token.data.as_slice()),
        funding: unpack(accounts.bidder.data.as_slice()),
    }
}

/// What becomes of a bid that is not refused.
#[derive(Clone, Copy, Debug, PartialEq, Eq, Structural)]
pub enum Decision {
    /// The bid names another token than the auction's: it is passed over.
    Ignore,
    /// The bidding is over: the auction ends, and the bid is not registered.
    End,
    /// The bid is valid: its funds go into escrow.
    Escrow,
}

/// The rules of a placement, in the order in which they are applied. The
/// first that fails decides.
///
/// - The metadata address is the derived one, and the bidder holds no
///   active bid.
/// - The pot address is the derived one, and the escrow token account is an
///   initialised token account that the auction owns.
/// - The auction address is the derived one. A bid in another token than the
///   auction's is ignored.
/// - The auction has started and has not ended.
/// - The amount exceeds the price floor.
/// - If the bidding is over, the auction ends and nothing else is looked at.
/// - A pot that exists is bound to the escrow token account supplied.
/// - The bidder's token account holds at least the amount.
pub open spec fn verdict(
    accounts: Accounts<'_>,
    args: PlaceBidArgs,
    resolved: Resolved,
    records: Records,
    clock: Clock,
) -> Result<Decision, AuctionError> {
    if !derivation_matches(accounts.bidder_meta.key, resolved.metadata) {
        Err(AuctionError::DerivedKeyInvalid)
    } else if records.metadata matches Some(metadata) && !metadata.cancelled {
        Err(AuctionError::BidAlreadyActive)
    } else if !derivation_matches(accounts.bidder_pot.key, resolved.pot) {
        Err(AuctionError::DerivedKeyInvalid)
    } else if resolved.pot_token is None {
        Err(AuctionError::InvalidAccountData)
    } else if !resolved.pot_token->0.is_initialized() {
        Err(AuctionError::Uninitialized)
    } else if resolved.pot_token->0.owner != accounts.auction.key {
        Err(AuctionError::BidderPotTokenAccountOwnerMismatch)
    } else if !derivation_matches(accounts.auction.key, resolved.auction) {
        Err(AuctionError::DerivedKeyInvalid)
    } else if records.auction.token_mint != accounts.mint.key {
        Ok(Decision::Ignore)
    } else if records.auction.state != AuctionState::Started {
        Err(AuctionError::InvalidState)
    } else if !records.auction.price_floor.admits(args.amount) {
        Err(AuctionError::BidTooSmall)
    } else if records.auction.ended(clock.slot) {
        Ok(Decision::End)
    } else if records.pot matches Some(pot) && pot.bidder_pot != accounts.bidder_pot_token.key {
        Err(AuctionError::BidderPotTokenAccountOwnerMismatch)
    } else if resolved.funding is None {
        Err(AuctionError::InvalidAccountData)
    } else if resolved.funding->0.amount < args.amount {
        Err(AuctionError::BalanceTooLow)
    } else {
        Ok(Decision::Escrow)
    }
}

/// Judges a bid by the rules of `verdict`, given what the derivation and the
/// token layout returned. Nothing is changed.
pub fn validate_bid(
    accounts: &Accounts<'_>,
    args: &PlaceBidArgs,
    resolved: &Resolved,
    records: &Records,
    clock: &Clock,
) -> (r: Result<Decision, AuctionError>)
    ensures
        r == verdict(*accounts, *args, *resolved, *records, *clock),
{
    assert_derivation(&accounts.bidder_meta.key, resolved.metadata)?;
    if let Some(metadata) = &records.metadata {
        if !metadata.cancelled {
            return Err(AuctionError::BidAlreadyActive);
        }
    }
    assert_derivation(&accounts.bidder_pot.key, resolved.pot)?;
    let pot_token = match resolved.pot_token {
        Some(account) => account,
        None => return Err(AuctionError::InvalidAccountData),
    };
    if !pot_token.is_initialized() {
        return Err(AuctionError::Uninitialized);
    }
    if pot_token.owner != accounts.auction.key {
        return Err(AuctionError::BidderPotTokenAccountOwnerMismatch);
    }
    assert_derivation(&accounts.auction.key, resolved.auction)?;
    if records.auction.token_mint != accounts.mint.key {
        return Ok(Decision::Ignore);
    }
    if records.auction.state != AuctionState::Started {
        return Err(AuctionError::InvalidState);
    }
    if !records.auction.price_floor.admits(args.amount) {
        return Err(AuctionError::BidTooSmall);
    }
    if records.auction.ended(clock.slot) {
        return Ok(Decision::End);
    }
    if let Some(pot) = &records.pot {
        if pot.bidder_pot != accounts.bidder_pot_token.key {
            return Err(AuctionError::BidderPotTokenAccountOwnerMismatch);
        }
    }
    let funding = match resolved.funding {
        Some(account) => account,
        None => return Err(AuctionError::InvalidAccountData),
    };
    if funding.amount < args.amount {
        return Err(AuctionError::BalanceTooLow);
    }
    Ok(Decision::Escrow)
}

/// A validated bid that waits for its funds to reach escrow.
#[derive(Clone, Debug, PartialEq, Eq)]
pub struct PendingBid {
    /// The bidder's token account: the source of the transfer.
    pub bidder: Pubkey,
    pub auction: Pubkey,
    /// The bidder's pot, which the ledger will name.
    pub bidder_pot: Pubkey,
    /// The escrow token account: the destination of the transfer.
    pub bidder_pot_token: Pubkey,
    /// How much is to be transferred.
    pub amount: u64,
    /// When the bid arrived.
    pub clock: Clock,
    /// The bump seed of the metadata address.
    pub metadata_bump: u8,
    /// The bump seed of the pot address, under which the pot signs.
    pub pot_bump: u8,
}

/// How a placement that was not refused went on.
#[derive(Clone, Debug, PartialEq, Eq)]
pub enum Placement {
    /// The bid named another token than the auction's. Nothing was changed.
    CurrencyMismatch,
    /// The bidding was over. The auction has ended; no bid was registered.
    AuctionEnded,
    /// The bid is valid. Its funds are to be transferred into escrow, and
    /// the bid then settled.
    Escrow(PendingBid),
}

/// The bump seed of a derived address.
pub open spec fn bump_of(derived: Option<(Pubkey, u8)>) -> u8 {
    match derived {
        Some((_, bump)) => bump,
        None => 0,
    }
}

/// The pot binding that a bidder's first valid bid creates.
pub open spec fn pot_binding(accounts: Accounts<'_>) -> BidderPot {
    BidderPot {
        bidder_pot: accounts.bidder_pot_token.key,
        bidder_act: accounts.bidder.key,
        auction_act: accounts.auction.key,
    }
}

/// The pending bid that a valid bid leaves.
pub open spec fn pending_bid(
    accounts: Accounts<'_>,
    args: PlaceBidArgs,
    resolved: Resolved,
    clock: Clock,
) -> PendingBid {
    PendingBid {
        bidder: accounts.bidder.key,
        auction: accounts.auction.key,
        bidder_pot: accounts.bidder_pot.key,
        bidder_pot_token: accounts.bidder_pot_token.key,
        amount: args.amount,
        clock,
        metadata_bump: bump_of(resolved.metadata),
        pot_bump: bump_of(resolved.pot),
    }
}

/// The records after a decision is carried out. An ignored bid changes
/// nothing; an auction that ends only changes its state; a valid bid only
/// creates the bidder's pot binding, where there was none.
pub open spec fn applied(decision: Decision, accounts: Accounts<'_>, records: Records) -> Records {
    match decision {
        Decision::Ignore => records,
        Decision::End => Records {
            auction: AuctionData { state: AuctionState::Ended, ..records.auction },
            ..records
        },
        Decision::Escrow => Records {
            pot: Some(
                match records.pot {
                    Some(pot) => pot,
                    None => pot_binding(accounts),
                },
            ),
            ..records
        },
    }
}

/// How a decision is reported.
pub open spec fn placement(
    decision: Decision,
    accounts: Accounts<'_>,
    args: PlaceBidArgs,
    resolved: Resolved,
    clock: Clock,
) -> Placement {
    match decision {
        Decision::Ignore => Placement::CurrencyMismatch,
        Decision::End => Placement::AuctionEnded,
        Decision::Escrow => Placement::Escrow(pending_bid(accounts, args, resolved, clock)),
    }
}

/// Judges a bid, given what the derivation and the token layout returned,
/// and carries the decision out. A refused bid changes nothing.
pub fn process_bid(
    accounts: &Accounts<'_>,
    args: &PlaceBidArgs,
    resolved: &Resolved,
    records: &mut Records,
    clock: &Clock,
) -> (r: Result<Placement, AuctionError>)
    ensures
        match verdict(*accounts, *args, *resolved, *old(records), *clock) {
            Ok(decision) => r == Ok::<Placement, AuctionError>(
                placement(decision, *accounts, *args, *resolved, *clock),
            ) && *final(records) == applied(decision, *accounts, *old(records)),
            Err(e) => r == Err::<Placement, AuctionError>(e) && *final(records) == *old(records),
        },
{
    match validate_bid(accounts, args, resolved, records, clock)? {
        Decision::Ignore => Ok(Placement::CurrencyMismatch),
        Decision::End => {
            records.auction.end()?;
            Ok(Placement::AuctionEnded)
        },
        Decision::Escrow => {
            if records.pot.is_none() {
                records.pot = Some(
                    BidderPot {
                        bidder_pot: accounts.bidder_pot_token.key,
                        bidder_act: accounts.bidder.key,
                        auction_act: accounts.auction.key,
                    },
                );
            }
            let metadata_bump = match resolved.metadata {
                Some((_, bump)) => bump,
                None => 0,
            };
            let pot_bump = match resolved.pot {
                Some((_, bump)) => bump,
                None => 0,
            };
            Ok(
                Placement::Escrow(
                    PendingBid {
                        bidder: accounts.bidder.key,
                        auction: accounts.auction.key,
                        bidder_pot: accounts.bidder_pot.key,
                        bidder_pot_token: accounts.bidder_pot_token.key,
                        amount: args.amount,
                        clock: *clock,
                        metadata_bump,
                        pot_bump,
                    },
                ),
            )
        },
    }
}

/// Validates a bid and says what is to be done about it.
///
/// The accounts are named and checked, the addresses of the three records
/// derived, the two token accounts unpacked, and the bid judged by the rules
/// of `verdict`. A bid that is refused, or ignored, changes nothing. Where
/// the bidding is over, the auction ends. A valid bid creates the bidder's
/// pot binding if there is none, and is handed back as a `PendingBid`:
/// auction and metadata stay as they are until it is settled.
pub fn place_bid(
    program_id: &Pubkey,
    accounts: &[AccountInfo],
    args: PlaceBidArgs,
    records: &mut Records,
    clock: &Clock,
) -> (r: Result<Placement, AuctionError>)
    ensures
        match parsed(*program_id, accounts@) {
            Ok(named) => {
                let found = resolved(*program_id, named, args);
                match verdict(named, args, found, *old(records), *clock) {
                    Ok(decision) => r == Ok::<Placement, AuctionError>(
                        placement(decision, named, args, found, *clock),
                    ) && *final(records) == applied(decision, named, *old(records)),
                    Err(e) => r == Err::<Placement, AuctionError>(e) && *final(records) == *old(
                        records,
                    ),
                }
            },
            Err(e) => r == Err::<Placement, AuctionError>(e) && *final(records) == *old(records),
        },
        r is Err ==> *final(records) == *old(records),
        !(r matches Ok(Placement::AuctionEnded)) ==> final(records).auction == old(records).auction,
        final(records).auction.bid_state == old(records).auction.bid_state,
        final(records).metadata == old(records).metadata,
        old(records).pot is Some ==> final(records).pot == old(records).pot,
        old(records).auction.state == AuctionState::Ended ==> *final(records) == *old(records),
{
    let named = parse_accounts(program_id, accounts)?;
    let found = resolve(program_id, &named, &args);
    process_bid(&named, &args, &found, records, clock)
}

/// What a settled bid leaves behind: the auction with the bid in its ledger
/// and the slot of the bid as its last, and the bidder's metadata overwritten
/// as an active bid of that time.
pub open spec fn settles(pending: PendingBid, before: Records, after: Records) -> bool {
    &&& placed(
        before.auction.bid_state@,
        before.auction.bid_state.capacity(),
        Bid(pending.bidder_pot, pending.amount),
    ) == Some(after.auction.bid_state@)
    &&& after.auction.bid_state.capacity() == before.auction.bid_state.capacity()
    &&& after.auction.last_bid == Some(pending.clock.slot)
    &&& after.auction.resource == before.auction.resource
    &&& after.auction.token_mint == before.auction.token_mint
    &&& after.auction.state == before.auction.state
    &&& after.auction.end_auction_at == before.auction.end_auction_at
    &&& after.auction.price_floor == before.auction.price_floor
    &&& after.metadata == Some(
        BidderMetadata {
            bidder_pubkey: pending.bidder,
            auction_pubkey: pending.auction,
            last_bid: pending.clock.slot,
            last_bid_timestamp: pending.clock.unix_timestamp,
            cancelled: false,
        },
    )
    &&& after.pot == before.pot
}

/// Why a pending bid cannot be settled, if it cannot: the auction is not
/// running, or the ledger is full and the bid does not exceed its lowest.
pub open spec fn settle_error(pending: PendingBid, records: Records) -> Option<AuctionError> {
    if records.auction.state != AuctionState::Started {
        Some(AuctionError::InvalidState)
    } else if placed(
        records.auction.bid_state@,
        records.auction.bid_state.capacity(),
        Bid(pending.bidder_pot, pending.amount),
    ) is None {
        Some(AuctionError::BidRejected)
    } else {
        None
    }
}

/// Records a pending bid whose funds have reached escrow: the bid enters the
/// ledger, the auction's deadline moves on, and the bidder's metadata is
/// overwritten. Where the ledger refuses the bid, nothing is changed.
pub fn settle_bid(pending: PendingBid, records: &mut Records) -> (r: Result<(), AuctionError>)
    ensures
        match settle_error(pending, *old(records)) {
            Some(e) => r == Err::<(), AuctionError>(e) && *final(records) == *old(records),
            None => r is Ok && settles(pending, *old(records), *final(records)),
        },
        old(records).auction.state == AuctionState::Ended ==> *final(records) == *old(records),
{
    if records.auction.state != AuctionState::Started {
        return Err(AuctionError::InvalidState);
    }
    records.auction.bid_state.place_bid(Bid(pending.bidder_pot, pending.amount))?;
    records.auction.last_bid = Some(pending.clock.slot);
    records.metadata = Some(
        BidderMetadata {
            bidder_pubkey: pending.bidder,
            auction_pubkey: pending.auction,
            last_bid: pending.clock.slot,
            last_bid_timestamp: pending.clock.unix_timestamp,
            cancelled: false,
        },
    );
    Ok(())
}

/// The bid passes the rules that come before the auction itself is looked
/// at: the three addresses are the derived ones, the bidder holds no active
/// bid, and the escrow token account is an initialised one that the auction
/// owns.
pub open spec fn admitted(accounts: Accounts<'_>, resolved: Resolved, records: Records) -> bool {
    &&& derivation_matches(accounts.bidder_meta.key, resolved.metadata)
    &&& derivation_matches(accounts.bidder_pot.key, resolved.pot)
    &&& derivation_matches(accounts.auction.key, resolved.auction)
    &&& records.metadata matches Some(metadata) ==> metadata.cancelled
    &&& resolved.pot_token matches Some(escrow) && escrow.is_initialized() && escrow.owner
        == accounts.auction.key
}

/// No partial commit. Whatever is decided of a bid, carrying the decision
/// out leaves the ledger, the deadline and the bidder's metadata as they
/// were, and the whole auction too unless it ends; a pot binding that exists
/// stays as it is. Only settling a bid commits it.
pub proof fn lemma_decision_commits_nothing(
    decision: Decision,
    accounts: Accounts<'_>,
    records: Records,
)
    ensures
        applied(decision, accounts, records).metadata == records.metadata,
        applied(decision, accounts, records).auction.bid_state == records.auction.bid_state,
        applied(decision, accounts, records).auction.last_bid == records.auction.last_bid,
        decision != Decision::End ==> applied(decision, accounts, records).auction
            == records.auction,
        records.pot is Some ==> applied(decision, accounts, records).pot == records.pot,
{
}

/// The lifecycle only advances. A placement leaves the state of the auction
/// as it is, or ends a running auction; an auction that has ended is left
/// wholly as it is, by a placement and by a settlement alike.
pub proof fn lemma_lifecycle_only_advances(
    accounts: Accounts<'_>,
    args: PlaceBidArgs,
    resolved: Resolved,
    records: Records,
    clock: Clock,
    pending: PendingBid,
)
    ensures
        verdict(accounts, args, resolved, records, clock) matches Ok(decision) ==> {
            let after = applied(decision, accounts, records);
            ||| after.auction.state == records.auction.state
            ||| records.auction.state == AuctionState::Started && after.auction.state
                == AuctionState::Ended
        },
        records.auction.state == AuctionState::Ended ==> (verdict(
            accounts,
            args,
            resolved,
            records,
            clock,
        ) matches Ok(decision) ==> decision == Decision::Ignore) && settle_error(pending, records)
            is Some,
{
}

/// Currency mismatch. An admitted bid in another token than the auction's
/// is passed over: the placement succeeds and the records stay as they are,
/// whatever the state of the auction, the amount, the time and the balance.
pub proof fn lemma_currency_mismatch_changes_nothing(
    accounts: Accounts<'_>,
    args: PlaceBidArgs,
    resolved: Resolved,
    records: Records,
    clock: Clock,
)
    requires
        admitted(accounts, resolved, records),
        records.auction.token_mint != accounts.mint.key,
    ensures
        verdict(accounts, args, resolved, records, clock) == Ok::<Decision, AuctionError>(
            Decision::Ignore,
        ),
        applied(Decision::Ignore, accounts, records) == records,
{
}

/// Floor. With a minimum price configured, a bid of that amount or less
/// never reaches escrow and never ends the auction; admitted to a running
/// auction in the auction's token, it is refused as too small.
pub proof fn lemma_floor_is_enforced(
    accounts: Accounts<'_>,
    args: PlaceBidArgs,
    resolved: Resolved,
    records: Records,
    clock: Clock,
    min: u64,
)
    requires
        records.auction.price_floor == PriceFloor::MinimumPrice(min),
        args.amount <= min,
    ensures
        verdict(accounts, args, resolved, records, clock) != Ok::<Decision, AuctionError>(
            Decision::Escrow,
        ),
        verdict(accounts, args, resolved, records, clock) != Ok::<Decision, AuctionError>(
            Decision::End,
        ),
        admitted(accounts, resolved, records) && records.auction.token_mint == accounts.mint.key
            && records.auction.state == AuctionState::Started ==> verdict(
            accounts,
            args,
            resolved,
            records,
            clock,
        ) == Err::<Decision, AuctionError>(AuctionError::BidTooSmall),
{
}

/// Deadline extension. Once a bid has been settled at slot `T`, a bid on
/// that auction that is valid when it comes in time is in time only before
/// `T + GRACE_PERIOD`: from then on the same bid ends the auction, and
/// leaves the ledger as it was.
pub proof fn lemma_settled_bid_sets_deadline(
    pending: PendingBid,
    before: Records,
    after: Records,
    accounts: Accounts<'_>,
    args: PlaceBidArgs,
    resolved: Resolved,
    attempt: Records,
    early: Clock,
    late: Clock,
)
    requires
        settles(pending, before, after),
        attempt.auction == after.auction,
        verdict(accounts, args, resolved, attempt, early) == Ok::<Decision, AuctionError>(
            Decision::Escrow,
        ),
        late.slot >= pending.clock.slot + GRACE_PERIOD,
    ensures
        early.slot < pending.clock.slot + GRACE_PERIOD,
        verdict(accounts, args, resolved, attempt, late) == Ok::<Decision, AuctionError>(
            Decision::End,
        ),
        applied(Decision::End, accounts, attempt).auction.state == AuctionState::Ended,
        applied(Decision::End, accounts, attempt).auction.bid_state == attempt.auction.bid_state,
{
}

/// One active bid. A bidder whose metadata stands uncancelled is refused
/// with `BidAlreadyActive`, and a settled bid leaves the metadata so. Once
/// the metadata is marked cancelled, the bidder is judged as one who never
/// bid.
pub proof fn lemma_one_active_bid(
    accounts: Accounts<'_>,
    args: PlaceBidArgs,
    resolved: Resolved,
    records: Records,
    clock: Clock,
    metadata: BidderMetadata,
)
    requires
        derivation_matches(accounts.bidder_meta.key, resolved.metadata),
        records.metadata == Some(metadata),
    ensures
        !metadata.cancelled ==> verdict(accounts, args, resolved, records, clock) == Err::<
            Decision,
            AuctionError,
        >(AuctionError::BidAlreadyActive),
        metadata.cancelled ==> verdict(accounts, args, resolved, records, clock) == verdict(
            accounts,
            args,
            resolved,
            Records { metadata: None, ..records },
            clock,
        ),
        forall|pending: PendingBid, before: Records|
            settles(pending, before, records) ==> !metadata.cancelled,
{
}

} // verus!
