use auction::errors::AuctionError;
use auction::place_bid::{
    parse_accounts, AccountInfo, ACCOUNTS, AUCTION, BIDDER, BIDDER_META, BIDDER_POT,
    BIDDER_POT_TOKEN, CLOCK_SYSVAR, MINT, PAYER, RENT, SYSTEM, TOKEN_PROGRAM, TRANSFER_AUTHORITY,
};
use auction::pubkey::Pubkey;

fn token_program() -> Pubkey {
    Pubkey(spl_token::id().to_bytes())
}

fn account(n: u8, owner: Pubkey, is_signer: bool) -> AccountInfo {
    AccountInfo { key: Pubkey([n; 32]), owner, is_signer, data: vec![n] }
}

fn program() -> Pubkey {
    Pubkey([200; 32])
}

fn valid_accounts() -> Vec<AccountInfo> {
    let other = Pubkey([100; 32]);
    vec![
        account(0, token_program(), true),
        account(1, program(), false),
        account(2, token_program(), false),
        account(3, program(), false),
        account(4, program(), false),
        account(5, token_program(), false),
        account(6, other, true),
        account(7, other, true),
        account(8, other, false),
        account(9, other, false),
        account(10, other, false),
        account(11, other, false),
    ]
}

#[test]
fn twelve_accounts_are_named_in_order() {
    assert_eq!(ACCOUNTS, 12);
    let accounts = valid_accounts();
    let named = parse_accounts(&program(), &accounts).unwrap();
    assert_eq!(named.bidder, &accounts[0]);
    assert_eq!(named.bidder_pot, &accounts[1]);
    assert_eq!(named.bidder_pot_token, &accounts[2]);
    assert_eq!(named.bidder_meta, &accounts[3]);
    assert_eq!(named.auction, &accounts[4]);
    assert_eq!(named.mint, &accounts[5]);
    assert_eq!(named.transfer_authority, &accounts[6]);
    assert_eq!(named.payer, &accounts[7]);
    assert_eq!(named.clock_sysvar, &accounts[8]);
    assert_eq!(named.rent, &accounts[9]);
    assert_eq!(named.system, &accounts[10]);
    assert_eq!(named.token_program, &accounts[11]);
    assert_eq!(
        [
            BIDDER,
            BIDDER_POT,
            BIDDER_POT_TOKEN,
            BIDDER_META,
            AUCTION,
            MINT,
            TRANSFER_AUTHORITY,
            PAYER,
            CLOCK_SYSVAR,
            RENT,
            SYSTEM,
            TOKEN_PROGRAM,
        ],
        [0, 1, 2, 3, 4, 5, 6, 7, 8, 9, 10, 11]
    );
}

#[test]
fn records_exist_once_their_accounts_are_taken() {
    let mut accounts = valid_accounts();
    let named = parse_accounts(&program(), &accounts).unwrap();
    assert!(named.has_metadata(&program()));
    assert!(named.has_pot());

    accounts[3].owner = Pubkey([0; 32]);
    accounts[1].data = Vec::new();
    let named = parse_accounts(&program(), &accounts).unwrap();
    assert!(!named.has_metadata(&program()));
    assert!(!named.has_pot());
}

#[test]
fn accounts_beyond_the_twelfth_are_passed_over() {
    let mut accounts = valid_accounts();
    accounts.push(account(12, Pubkey([0; 32]), false));
    let named = parse_accounts(&program(), &accounts).unwrap();
    assert_eq!(named.token_program.key, Pubkey([11; 32]));
}

#[test]
fn fewer_than_twelve_accounts_are_not_enough() {
    let mut accounts = valid_accounts();
    accounts.pop();
    assert_eq!(
        parse_accounts(&program(), &accounts).err(),
        Some(AuctionError::NotEnoughAccountKeys)
    );
    assert_eq!(
        parse_accounts(&program(), &[]).err(),
        Some(AuctionError::NotEnoughAccountKeys)
    );
}

#[test]
fn auction_must_be_owned_by_the_program() {
    let mut accounts = valid_accounts();
    accounts[4].owner = token_program();
    assert_eq!(
        parse_accounts(&program(), &accounts).err(),
        Some(AuctionError::IncorrectOwner)
    );
    assert_eq!(
        parse_accounts(&Pubkey([201; 32]), &valid_accounts()).err(),
        Some(AuctionError::IncorrectOwner)
    );
}

#[test]
fn mint_and_escrow_must_be_owned_by_the_token_program() {
    let mut accounts = valid_accounts();
    accounts[5].owner = program();
    assert_eq!(
        parse_accounts(&program(), &accounts).err(),
        Some(AuctionError::IncorrectOwner)
    );
    let mut accounts = valid_accounts();
    accounts[2].owner = Pubkey([5; 32]);
    assert_eq!(
        parse_accounts(&program(), &accounts).err(),
        Some(AuctionError::IncorrectOwner)
    );
}

#[test]
fn token_program_is_the_one_of_the_token_crate() {
    assert_eq!(
        token_program(),
        Pubkey([
            6, 221, 246, 225, 215, 101, 161, 147, 217, 203, 225, 70, 206, 235, 121, 172, 28, 180,
            133, 237, 95, 91, 55, 145, 58, 140, 245, 133, 126, 255, 0, 169,
        ])
    );
    let mut accounts = valid_accounts();
    let mut near = token_program().to_bytes();
    near[31] = 168;
    accounts[5].owner = Pubkey(near);
    assert_eq!(
        parse_accounts(&program(), &accounts).err(),
        Some(AuctionError::IncorrectOwner)
    );
}

#[test]
fn bidder_and_transfer_authority_must_sign() {
    let mut accounts = valid_accounts();
    accounts[0].is_signer = false;
    assert_eq!(
        parse_accounts(&program(), &accounts).err(),
        Some(AuctionError::MissingRequiredSignature)
    );
    let mut accounts = valid_accounts();
    accounts[6].is_signer = false;
    assert_eq!(
        parse_accounts(&program(), &accounts).err(),
        Some(AuctionError::MissingRequiredSignature)
    );
}

#[test]
fn ownership_is_checked_before_signatures() {
    let mut accounts = valid_accounts();
    accounts[0].is_signer = false;
    accounts[2].owner = program();
    assert_eq!(
        parse_accounts(&program(), &accounts).err(),
        Some(AuctionError::IncorrectOwner)
    );
}
