use auction::auction::{
    AuctionData, AuctionState, BidderMetadata, BidderPot, Clock, PriceFloor, GRACE_PERIOD,
};
use auction::bid_state::{Bid, BidState};
use auction::errors::AuctionError;
use auction::place_bid::{
    parse_accounts, place_bid, process_bid, resolve, settle_bid, validate_bid, AccountInfo,
    Decision, PendingBid, PlaceBidArgs, Placement, Records, Resolved,
};
use auction::pubkey::{find_address, Pubkey, RecordKey};
use auction::token::{AccountState, TokenAccount};
use solana_program::program_option::COption;
use solana_program::program_pack::Pack;

const BIDDER: usize = 0;
const POT: usize = 1;
const POT_TOKEN: usize = 2;
const META: usize = 3;
const AUCTION: usize = 4;
const MINT: usize = 5;
const AUTHORITY: usize = 6;

fn program() -> Pubkey {
    Pubkey([77; 32])
}

fn token_program() -> Pubkey {
    Pubkey(spl_token::id().to_bytes())
}

fn outside(key: &Pubkey) -> solana_program::pubkey::Pubkey {
    solana_program::pubkey::Pubkey::new_from_array(key.to_bytes())
}

fn token_data(mint: &Pubkey, owner: &Pubkey, amount: u64) -> Vec<u8> {
    let account = spl_token::state::Account {
        mint: outside(mint),
        owner: outside(owner),
        amount,
        delegate: COption::None,
        state: spl_token::state::AccountState::Initialized,
        is_native: COption::None,
        delegated_amount: 0,
        close_authority: COption::None,
    };
    let mut data = vec![0u8; 165];
    spl_token::state::Account::pack(account, &mut data).unwrap();
    data
}

fn plain(key: Pubkey, owner: Pubkey, is_signer: bool) -> AccountInfo {
    AccountInfo { key, owner, is_signer, data: Vec::new() }
}

struct World {
    accounts: Vec<AccountInfo>,
    records: Records,
    args: PlaceBidArgs,
}

/// A started auction of `resource` with room for three bids, and a bidder
/// who holds `balance` tokens and bids `amount`.
fn world(bidder: Pubkey, balance: u64, amount: u64) -> World {
    let resource = Pubkey([1; 32]);
    let mint = Pubkey([2; 32]);
    let pot_token = Pubkey([4; 32]);
    let auction = find_address(&program(), &RecordKey::Auction { resource }).unwrap().0;
    let pot = find_address(&program(), &RecordKey::BidderPot { auction, bidder }).unwrap().0;
    let meta = find_address(&program(), &RecordKey::BidderMetadata { auction, bidder }).unwrap().0;
    let other = Pubkey([9; 32]);
    let accounts = vec![
        AccountInfo {
            key: bidder,
            owner: token_program(),
            is_signer: true,
            data: token_data(&mint, &other, balance),
        },
        plain(pot, program(), false),
        AccountInfo {
            key: pot_token,
            owner: token_program(),
            is_signer: false,
            data: token_data(&mint, &auction, 0),
        },
        plain(meta, program(), false),
        plain(auction, program(), false),
        plain(mint, token_program(), false),
        plain(Pubkey([6; 32]), other, true),
        plain(Pubkey([7; 32]), other, true),
        plain(Pubkey([8; 32]), other, false),
        plain(Pubkey([10; 32]), other, false),
        plain(Pubkey([11; 32]), other, false),
        plain(token_program(), other, false),
    ];
    let records = Records {
        auction: AuctionData {
            resource,
            token_mint: mint,
            state: AuctionState::Started,
            bid_state: BidState::new(3),
            last_bid: None,
            end_auction_at: None,
            price_floor: PriceFloor::NoFloor,
        },
        metadata: None,
        pot: None,
    };
    World { accounts, records, args: PlaceBidArgs { amount, resource } }
}

fn bidder() -> Pubkey {
    Pubkey([3; 32])
}

fn at(slot: u64) -> Clock {
    Clock { slot, unix_timestamp: 1_600_000_000 + slot as i64 }
}

impl World {
    fn place(&mut self, clock: &Clock) -> Result<Placement, AuctionError> {
        place_bid(&program(), &self.accounts, self.args, &mut self.records, clock)
    }

    /// Places the bid and, where it is valid, settles it as after a transfer.
    fn bid(&mut self, clock: &Clock) -> Result<Placement, AuctionError> {
        let placement = self.place(clock)?;
        if let Placement::Escrow(pending) = &placement {
            settle_bid(pending.clone(), &mut self.records)?;
        }
        Ok(placement)
    }

    fn refused(&mut self, clock: &Clock, error: AuctionError) {
        let before = self.records.clone();
        assert_eq!(self.place(clock), Err(error));
        assert_eq!(self.records, before);
    }
}

#[test]
fn valid_bid_waits_for_its_transfer() {
    let mut world = world(bidder(), 500, 200);
    let before = world.records.clone();
    let placement = world.place(&at(10)).unwrap();
    let auction = world.accounts[AUCTION].key;
    let meta_bump =
        find_address(&program(), &RecordKey::BidderMetadata { auction, bidder: bidder() })
            .unwrap()
            .1;
    let pot_bump =
        find_address(&program(), &RecordKey::BidderPot { auction, bidder: bidder() }).unwrap().1;
    assert_eq!(
        placement,
        Placement::Escrow(PendingBid {
            bidder: bidder(),
            auction,
            bidder_pot: world.accounts[POT].key,
            bidder_pot_token: world.accounts[POT_TOKEN].key,
            amount: 200,
            clock: at(10),
            metadata_bump: meta_bump,
            pot_bump,
        })
    );
    assert_eq!(world.records.auction, before.auction);
    assert_eq!(world.records.metadata, None);
    assert_eq!(
        world.records.pot,
        Some(BidderPot {
            bidder_pot: world.accounts[POT_TOKEN].key,
            bidder_act: bidder(),
            auction_act: auction,
        })
    );
}

#[test]
fn settled_bid_enters_ledger_and_overwrites_metadata() {
    let mut world = world(bidder(), 500, 200);
    assert!(matches!(world.bid(&at(10)), Ok(Placement::Escrow(_))));
    let auction = world.accounts[AUCTION].key;
    assert_eq!(world.records.auction.last_bid, Some(10));
    assert_eq!(world.records.auction.state, AuctionState::Started);
    assert_eq!(
        world.records.auction.bid_state.bids().clone(),
        vec![Bid(world.accounts[POT].key, 200)]
    );
    assert_eq!(
        world.records.metadata,
        Some(BidderMetadata {
            bidder_pubkey: bidder(),
            auction_pubkey: auction,
            last_bid: 10,
            last_bid_timestamp: 1_600_000_010,
            cancelled: false,
        })
    );
    assert_eq!(world.records.auction.winner(), Some(Bid(world.accounts[POT].key, 200)));
}

#[test]
fn bid_at_the_floor_is_too_small_and_one_above_is_taken() {
    let mut world = world(bidder(), 500, 100);
    world.records.auction.price_floor = PriceFloor::MinimumPrice(100);
    world.refused(&at(1), AuctionError::BidTooSmall);
    world.args.amount = 99;
    world.refused(&at(1), AuctionError::BidTooSmall);
    world.args.amount = 101;
    assert!(matches!(world.bid(&at(1)), Ok(Placement::Escrow(_))));
    assert_eq!(world.records.auction.bid_state.len(), 1);
    assert_eq!(world.records.auction.winner().unwrap().1, 101);
}

#[test]
fn bid_after_the_grace_period_ends_the_auction() {
    let mut first = world(bidder(), 500, 200);
    first.bid(&at(1000)).unwrap();
    let auction = first.records.auction.clone();

    let mut in_time = world(Pubkey([30; 32]), 500, 300);
    in_time.records.auction = auction.clone();
    assert!(matches!(in_time.bid(&at(1000 + GRACE_PERIOD - 1)), Ok(Placement::Escrow(_))));
    assert_eq!(in_time.records.auction.last_bid, Some(2499));
    assert_eq!(in_time.records.auction.bid_state.len(), 2);

    let mut late = world(Pubkey([30; 32]), 500, 300);
    late.records.auction = auction.clone();
    assert_eq!(late.bid(&at(1000 + GRACE_PERIOD)), Ok(Placement::AuctionEnded));
    assert_eq!(late.records.auction.state, AuctionState::Ended);
    assert_eq!(late.records.auction.bid_state, auction.bid_state);
    assert_eq!(late.records.auction.last_bid, Some(1000));
    assert_eq!(late.records.metadata, None);
    assert_eq!(late.records.pot, None);

    late.refused(&at(1000 + GRACE_PERIOD + 1), AuctionError::InvalidState);
}

#[test]
fn each_bid_moves_the_deadline() {
    let mut first = world(bidder(), 500, 200);
    first.bid(&at(0)).unwrap();
    let mut second = world(Pubkey([30; 32]), 500, 300);
    second.records.auction = first.records.auction.clone();
    second.bid(&at(1499)).unwrap();
    let mut third = world(Pubkey([31; 32]), 500, 400);
    third.records.auction = second.records.auction.clone();
    assert!(matches!(third.bid(&at(2998)), Ok(Placement::Escrow(_))));
    let mut fourth = world(Pubkey([32; 32]), 500, 450);
    fourth.records.auction = third.records.auction.clone();
    assert_eq!(fourth.bid(&at(2998 + 1500)), Ok(Placement::AuctionEnded));
}

#[test]
fn bid_at_the_configured_end_ends_the_auction() {
    let mut world = world(bidder(), 500, 200);
    world.records.auction.end_auction_at = Some(40);
    assert_eq!(world.bid(&at(40)), Ok(Placement::AuctionEnded));
    assert_eq!(world.records.auction.state, AuctionState::Ended);
    assert!(world.records.auction.bid_state.is_empty());
}

#[test]
fn bid_in_another_token_is_passed_over() {
    let mut world = world(bidder(), 500, 200);
    world.accounts[MINT].key = Pubkey([50; 32]);
    let before = world.records.clone();
    assert_eq!(world.bid(&at(10)), Ok(Placement::CurrencyMismatch));
    assert_eq!(world.records, before);

    world.records.auction.state = AuctionState::Ended;
    world.records.auction.price_floor = PriceFloor::MinimumPrice(1000);
    let before = world.records.clone();
    assert_eq!(world.bid(&at(10)), Ok(Placement::CurrencyMismatch));
    assert_eq!(world.records, before);
}

#[test]
fn second_active_bid_is_refused_until_the_first_is_cancelled() {
    let mut world = world(bidder(), 500, 200);
    world.bid(&at(10)).unwrap();
    world.args.amount = 300;
    world.refused(&at(20), AuctionError::BidAlreadyActive);

    let mut metadata = world.records.metadata.unwrap();
    metadata.cancelled = true;
    world.records.metadata = Some(metadata);
    assert!(matches!(world.bid(&at(30)), Ok(Placement::Escrow(_))));
    assert_eq!(world.records.metadata.unwrap().cancelled, false);
    assert_eq!(world.records.metadata.unwrap().last_bid, 30);
    assert_eq!(world.records.auction.last_bid, Some(30));
    world.refused(&at(40), AuctionError::BidAlreadyActive);
}

#[test]
fn refused_bid_changes_no_record() {
    let clock = at(10);

    let mut world = self::world(bidder(), 500, 200);
    world.accounts.truncate(11);
    world.refused(&clock, AuctionError::NotEnoughAccountKeys);

    let mut world = self::world(bidder(), 500, 200);
    world.accounts[AUCTION].owner = Pubkey([90; 32]);
    world.refused(&clock, AuctionError::IncorrectOwner);

    let mut world = self::world(bidder(), 500, 200);
    world.accounts[AUTHORITY].is_signer = false;
    world.refused(&clock, AuctionError::MissingRequiredSignature);

    let mut world = self::world(bidder(), 500, 200);
    world.accounts[META].key = Pubkey([91; 32]);
    world.refused(&clock, AuctionError::DerivedKeyInvalid);

    let mut world = self::world(bidder(), 500, 200);
    world.accounts[POT].key = Pubkey([92; 32]);
    world.refused(&clock, AuctionError::DerivedKeyInvalid);

    let mut world = self::world(bidder(), 500, 200);
    world.args.resource = Pubkey([93; 32]);
    world.refused(&clock, AuctionError::DerivedKeyInvalid);

    let mut world = self::world(bidder(), 500, 200);
    world.accounts[POT_TOKEN].data.pop();
    world.refused(&clock, AuctionError::InvalidAccountData);

    let mut world = self::world(bidder(), 500, 200);
    world.accounts[POT_TOKEN].data = vec![0u8; 165];
    world.refused(&clock, AuctionError::Uninitialized);

    let mut world = self::world(bidder(), 500, 200);
    let mint = world.accounts[MINT].key;
    world.accounts[POT_TOKEN].data = token_data(&mint, &bidder(), 0);
    world.refused(&clock, AuctionError::BidderPotTokenAccountOwnerMismatch);

    let mut world = self::world(bidder(), 500, 200);
    world.records.auction.state = AuctionState::Created;
    world.refused(&clock, AuctionError::InvalidState);

    let mut world = self::world(bidder(), 500, 200);
    world.records.auction.state = AuctionState::Ended;
    world.refused(&clock, AuctionError::InvalidState);

    let mut world = self::world(bidder(), 500, 200);
    world.records.auction.price_floor = PriceFloor::MinimumPrice(200);
    world.refused(&clock, AuctionError::BidTooSmall);

    let mut world = self::world(bidder(), 500, 200);
    world.records.pot = Some(BidderPot {
        bidder_pot: Pubkey([94; 32]),
        bidder_act: bidder(),
        auction_act: world.accounts[AUCTION].key,
    });
    world.refused(&clock, AuctionError::BidderPotTokenAccountOwnerMismatch);

    let mut world = self::world(bidder(), 500, 200);
    world.accounts[BIDDER].data = vec![1, 2, 3];
    world.refused(&clock, AuctionError::InvalidAccountData);

    let mut world = self::world(bidder(), 199, 200);
    world.refused(&clock, AuctionError::BalanceTooLow);
}

#[test]
fn balance_must_cover_the_bid() {
    let mut world = self::world(bidder(), 200, 201);
    world.refused(&at(1), AuctionError::BalanceTooLow);
    let mut world = self::world(bidder(), 200, 200);
    assert!(matches!(world.bid(&at(1)), Ok(Placement::Escrow(_))));
    let mut world = self::world(bidder(), 0, 0);
    assert!(matches!(world.bid(&at(1)), Ok(Placement::Escrow(_))));
    let mut world = self::world(bidder(), u64::MAX, u64::MAX);
    assert!(matches!(world.bid(&at(1)), Ok(Placement::Escrow(_))));
}

#[test]
fn failed_transfer_leaves_auction_and_metadata_untouched() {
    let mut world = world(bidder(), 500, 200);
    let before = world.records.clone();
    assert!(matches!(world.place(&at(10)), Ok(Placement::Escrow(_))));
    assert_eq!(world.records.auction, before.auction);
    assert_eq!(world.records.metadata, before.metadata);
    assert!(world.records.pot.is_some());

    let again = world.records.clone();
    assert!(matches!(world.place(&at(11)), Ok(Placement::Escrow(_))));
    assert_eq!(world.records, again);
}

#[test]
fn existing_pot_is_kept_as_it_is() {
    let mut world = world(bidder(), 500, 200);
    let pot = BidderPot {
        bidder_pot: world.accounts[POT_TOKEN].key,
        bidder_act: Pubkey([60; 32]),
        auction_act: Pubkey([61; 32]),
    };
    world.records.pot = Some(pot);
    assert!(matches!(world.bid(&at(10)), Ok(Placement::Escrow(_))));
    assert_eq!(world.records.pot, Some(pot));
}

#[test]
fn bid_that_the_full_ledger_refuses_is_not_settled() {
    let mut world = world(bidder(), 500, 10);
    for (n, amount) in [20u64, 30, 40].iter().enumerate() {
        world
            .records
            .auction
            .bid_state
            .place_bid(Bid(Pubkey([100 + n as u8; 32]), *amount))
            .unwrap();
    }
    world.args.amount = 20;
    let pending = match world.place(&at(10)).unwrap() {
        Placement::Escrow(pending) => pending,
        _ => unreachable!(),
    };
    let before = world.records.clone();
    assert_eq!(settle_bid(pending, &mut world.records), Err(AuctionError::BidRejected));
    assert_eq!(world.records, before);

    world.args.amount = 21;
    assert!(matches!(world.bid(&at(11)), Ok(Placement::Escrow(_))));
    assert_eq!(
        world.records.auction.bid_state.bids().iter().map(|bid| bid.1).collect::<Vec<u64>>(),
        vec![21, 30, 40]
    );
}

#[test]
fn pending_bid_is_not_settled_on_an_auction_that_is_not_running() {
    let mut world = world(bidder(), 500, 200);
    let pending = match world.place(&at(10)).unwrap() {
        Placement::Escrow(pending) => pending,
        _ => unreachable!(),
    };
    world.records.auction.state = AuctionState::Ended;
    let before = world.records.clone();
    assert_eq!(settle_bid(pending, &mut world.records), Err(AuctionError::InvalidState));
    assert_eq!(world.records, before);
}

#[test]
fn token_accounts_are_unpacked_as_the_token_program_packs_them() {
    let world = world(bidder(), 123_456_789_012, 200);
    let named = parse_accounts(&program(), &world.accounts).unwrap();
    let found = resolve(&program(), &named, &world.args);
    let mint = world.accounts[MINT].key;
    assert_eq!(
        found.funding,
        Some(TokenAccount {
            mint,
            owner: Pubkey([9; 32]),
            amount: 123_456_789_012,
            state: AccountState::Initialized,
        })
    );
    assert_eq!(
        found.pot_token,
        Some(TokenAccount {
            mint,
            owner: world.accounts[AUCTION].key,
            amount: 0,
            state: AccountState::Initialized,
        })
    );
    let auction = world.accounts[AUCTION].key;
    assert_eq!(found.auction.unwrap().0, auction);
    assert_eq!(found.pot.unwrap().0, world.accounts[POT].key);
    assert_eq!(found.metadata.unwrap().0, world.accounts[META].key);
}

#[test]
fn frozen_and_uninitialised_token_accounts_are_told_apart() {
    let mut world = world(bidder(), 500, 200);
    world.accounts[POT_TOKEN].data[108] = 2;
    world.accounts[BIDDER].data[108] = 0;
    let named = parse_accounts(&program(), &world.accounts).unwrap();
    let found = resolve(&program(), &named, &world.args);
    assert_eq!(found.pot_token.unwrap().state, AccountState::Frozen);
    assert!(found.pot_token.unwrap().is_initialized());
    assert_eq!(found.funding.unwrap().state, AccountState::Uninitialized);
    assert!(!found.funding.unwrap().is_initialized());
    world.accounts[BIDDER].data[108] = 3;
    let named = parse_accounts(&program(), &world.accounts).unwrap();
    assert_eq!(resolve(&program(), &named, &world.args).funding, None);
}

#[test]
fn verdict_follows_the_order_of_the_rules() {
    let world = world(bidder(), 500, 200);
    let named = parse_accounts(&program(), &world.accounts).unwrap();
    let good = resolve(&program(), &named, &world.args);
    let clock = at(10);
    let judge = |found: &Resolved, records: &Records| {
        validate_bid(&named, &world.args, found, records, &clock)
    };
    assert_eq!(judge(&good, &world.records), Ok(Decision::Escrow));

    let active = BidderMetadata {
        bidder_pubkey: bidder(),
        auction_pubkey: named.auction.key,
        last_bid: 1,
        last_bid_timestamp: 1,
        cancelled: false,
    };
    let mut records = world.records.clone();
    records.metadata = Some(active);
    let mut found = good;
    found.metadata = None;
    found.pot = None;
    assert_eq!(judge(&found, &records), Err(AuctionError::DerivedKeyInvalid));
    found.metadata = good.metadata;
    assert_eq!(judge(&found, &records), Err(AuctionError::BidAlreadyActive));
    records.metadata = Some(BidderMetadata { cancelled: true, ..active });
    assert_eq!(judge(&found, &records), Err(AuctionError::DerivedKeyInvalid));

    let mut found = good;
    found.pot_token = None;
    found.auction = None;
    assert_eq!(judge(&found, &world.records), Err(AuctionError::InvalidAccountData));
    found.pot_token = Some(TokenAccount {
        state: AccountState::Uninitialized,
        owner: bidder(),
        ..good.pot_token.unwrap()
    });
    assert_eq!(judge(&found, &world.records), Err(AuctionError::Uninitialized));
    found.pot_token = Some(TokenAccount { owner: bidder(), ..good.pot_token.unwrap() });
    assert_eq!(
        judge(&found, &world.records),
        Err(AuctionError::BidderPotTokenAccountOwnerMismatch)
    );
    found.pot_token = good.pot_token;
    assert_eq!(judge(&found, &world.records), Err(AuctionError::DerivedKeyInvalid));

    let mut records = world.records.clone();
    records.auction.token_mint = Pubkey([70; 32]);
    records.auction.state = AuctionState::Created;
    assert_eq!(judge(&good, &records), Ok(Decision::Ignore));
    records.auction.token_mint = world.records.auction.token_mint;
    records.auction.price_floor = PriceFloor::MinimumPrice(200);
    assert_eq!(judge(&good, &records), Err(AuctionError::InvalidState));
    records.auction.state = AuctionState::Started;
    records.auction.last_bid = Some(0);
    records.auction.end_auction_at = Some(0);
    assert_eq!(judge(&good, &records), Err(AuctionError::BidTooSmall));
    records.auction.price_floor = PriceFloor::MinimumPrice(199);
    records.pot = Some(BidderPot {
        bidder_pot: Pubkey([71; 32]),
        bidder_act: bidder(),
        auction_act: named.auction.key,
    });
    assert_eq!(judge(&good, &records), Ok(Decision::End));
    records.auction.end_auction_at = None;
    let mut found = good;
    found.funding = None;
    assert_eq!(
        judge(&found, &records),
        Err(AuctionError::BidderPotTokenAccountOwnerMismatch)
    );
    records.pot = None;
    assert_eq!(judge(&found, &records), Err(AuctionError::InvalidAccountData));
    found.funding = Some(TokenAccount { amount: 199, ..good.funding.unwrap() });
    assert_eq!(judge(&found, &records), Err(AuctionError::BalanceTooLow));
    found.funding = Some(TokenAccount { amount: 200, ..good.funding.unwrap() });
    assert_eq!(judge(&found, &records), Ok(Decision::Escrow));
}

#[test]
fn processed_bid_reports_the_bump_seeds_it_was_given() {
    let mut world = world(bidder(), 500, 200);
    let named = parse_accounts(&program(), &world.accounts).unwrap();
    let mut found = resolve(&program(), &named, &world.args);
    found.metadata = Some((named.bidder_meta.key, 17));
    found.pot = Some((named.bidder_pot.key, 23));
    let placement = process_bid(&named, &world.args, &found, &mut world.records, &at(5));
    match placement {
        Ok(Placement::Escrow(pending)) => {
            assert_eq!(pending.metadata_bump, 17);
            assert_eq!(pending.pot_bump, 23);
            assert_eq!(pending.amount, 200);
            assert_eq!(pending.clock, at(5));
        }
        _ => panic!("the bid is valid"),
    }
}
