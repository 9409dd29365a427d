use crate::identifier::Identifier;
use vstd::prelude::*;

verus! {

/// Lifecycle flag of a sale. No instruction reads it after creation: a
/// closed sale can still be bought from.
#[derive(Clone, Copy, Debug, PartialEq, Eq, Structural)]
pub enum CrowdsaleStatus {
    Open,
    Closed,
}

/// The persisted record of one sale.
#[derive(Clone, Copy, Debug, PartialEq, Eq)]
pub struct Crowdsale {
    /// Sale identity; the seed of the record's address and of its authority.
    pub id: Identifier,
    /// Native-currency price of one token unit.
    pub cost: u32,
    /// The token's mint.
    pub mint_account: Identifier,
    /// The reserve account holding the tokens for sale.
    pub token_account: Identifier,
    pub status: CrowdsaleStatus,
    /// The principal allowed to withdraw the proceeds.
    pub owner: Identifier,
}

impl Crowdsale {
    /// Serialized size of the record's fields, in order.
    pub const MAXIMUM_SIZE: usize = 32 + 4 + 32 + 32 + 1 + 32;
}

/// Size of the record account: the fields and an 8-byte type discriminator.
pub const RECORD_SPACE: usize = 8 + Crowdsale::MAXIMUM_SIZE;

/// Size of a token account's data.
pub const TOKEN_ACCOUNT_SPACE: usize = 165;

/// An account that only holds native currency (a buyer, an owner, a payer).
#[derive(Clone, Copy, Debug, PartialEq, Eq)]
pub struct SystemAccount {
    pub key: Identifier,
    pub lamports: u64,
}

/// A token account: its mint, the principal that may move its tokens, its
/// token balance, and the currency that keeps it rent-exempt.
#[derive(Clone, Copy, Debug, PartialEq, Eq)]
pub struct TokenAccount {
    pub mint: Identifier,
    pub authority: Identifier,
    pub amount: u64,
    pub lamports: u64,
}

/// The account that stores a sale record, with its own currency balance.
#[derive(Clone, Copy, Debug, PartialEq, Eq)]
pub struct CrowdsaleAccount {
    pub key: Identifier,
    pub lamports: u64,
    pub data: Crowdsale,
}

} // verus!
