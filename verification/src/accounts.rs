//! Accounts as an instruction sees them.
use crate::pubkey::Pubkey;
use vstd::prelude::*;

verus! {

/// An account of a transaction.
#[derive(Clone, Copy, Debug, PartialEq, Eq)]
pub struct AccountInfo {
    pub key: Pubkey,
    /// The program that owns the account.
    pub owner: Pubkey,
    pub is_signer: bool,
    pub is_writable: bool,
}

/// An account together with what it holds.
#[derive(Clone, Copy, Debug, PartialEq, Eq)]
pub struct Account<T> {
    pub info: AccountInfo,
    pub data: T,
}

/// What a token account holds.
#[derive(Clone, Copy, Debug, PartialEq, Eq)]
pub struct TokenAccount {
    pub mint: Pubkey,
    /// The wallet or derived address that may spend from it.
    pub owner: Pubkey,
    pub amount: u64,
}

impl Account<TokenAccount> {
    /// It is of `mint`, and `authority` may spend from it.
    pub open spec fn held_by(self, authority: Pubkey, mint: Pubkey) -> bool {
        self.data.owner == authority && self.data.mint == mint
    }
}

/// What a mint holds, as far as it is read here.
#[derive(Clone, Copy, Debug, PartialEq, Eq)]
pub struct Mint {
    pub decimals: u8,
}

/// What an instruction is run with besides its arguments: the program, its
/// accounts, and the bumps that were found while the accounts were checked.
#[derive(Clone, Copy, Debug, PartialEq, Eq)]
pub struct Context<A, B> {
    pub program_id: Pubkey,
    pub accounts: A,
    pub bumps: B,
}

} // verus!
