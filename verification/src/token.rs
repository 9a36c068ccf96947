//! Token accounts, as the token program lays them out.

use crate::pubkey::Pubkey;
use solana_program::program_pack::Pack;
use vstd::prelude::*;

verus! {

/// Whether the owner of a token account may use it.
#[derive(Clone, Copy, Debug, PartialEq, Eq, Structural)]
pub enum AccountState {
    Uninitialized,
    Initialized,
    Frozen,
}

/// What a placement reads of a token account.
#[derive(Clone, Copy, Debug, PartialEq, Eq)]
pub struct TokenAccount {
    /// The mint whose tokens the account holds.
    pub mint: Pubkey,
    /// Who may move the tokens.
    pub owner: Pubkey,
    /// How many tokens it holds.
    pub amount: u64,
    pub state: AccountState,
}

impl TokenAccount {
    pub open spec fn spec_is_initialized(&self) -> bool {
        self.state != AccountState::Uninitialized
    }

    #[verifier::when_used_as_spec(spec_is_initialized)]
    pub fn is_initialized(&self) -> (r: bool)
        ensures
            r == self.spec_is_initialized(),
    {
        match self.state {
            AccountState::Uninitialized => false,
            _ => true,
        }
    }
}

/// The bytes of the token program's address.
pub open spec fn token_program_id_bytes() -> Seq<u8> {
    seq![
        6u8, 221, 246, 225, 215, 101, 161, 147, 217, 203, 225, 70, 206, 235, 121, 172, 28, 180, 133,
        237, 95, 91, 55, 145, 58, 140, 245, 133, 126, 255, 0, 169,
    ]
}

/// Calls `spl_token::id`. Trusted: it returns the address that the token
/// program declares for itself, whose bytes are those above.
#[verifier::external_body]
pub(crate) fn token_program_id() -> (r: Pubkey)
    ensures
        r@ == token_program_id_bytes(),
{
    Pubkey(spl_token::id().to_bytes())
}

/// The token account that the token program's layout reads from `data`;
/// `None` where `data` is not a token account.
pub uninterp spec fn unpacked(data: Seq<u8>) -> Option<TokenAccount>;

/// Calls `spl_token::state::Account::unpack_unchecked`, which refuses bytes
/// of another length than a token account's and bytes whose tags or state
/// are out of range, and otherwise reads the fields from their fixed places.
/// Trusted: the result is a function of the bytes alone.
#[verifier::external_body]
pub(crate) fn unpack(data: &[u8]) -> (r: Option<TokenAccount>)
    ensures
        r == unpacked(data@),
{
    let account = match spl_token::state::Account::unpack_unchecked(data) {
        Ok(account) => account,
        Err(_) => return None,
    };
    let state = match account.state {
        spl_token::state::AccountState::Uninitialized => AccountState::Uninitialized,
        spl_token::state::AccountState::Initialized => AccountState::Initialized,
        spl_token::state::AccountState::Frozen => AccountState::Frozen,
    };
    let (mint, owner) = (Pubkey(account.mint.to_bytes()), Pubkey(account.owner.to_bytes()));
    Some(TokenAccount { mint, owner, amount: account.amount, state })
}

} // verus!
