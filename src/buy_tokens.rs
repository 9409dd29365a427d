use crate::authority::{address_error, authority_address, authority_seeds, check_address, record_address, record_seeds};
use crate::error::SaleError;
use crate::identifier::Identifier;
use crate::ledger::{derived_view, minimum_balance, program_address_of, rent_floor};
use crate::state::{CrowdsaleAccount, SystemAccount, TokenAccount, TOKEN_ACCOUNT_SPACE};
use vstd::prelude::*;

verus! {

/// The accounts a purchase touches.
#[derive(Clone, Copy, Debug, PartialEq, Eq)]
pub struct BuyTokens {
    /// Who buys, and pays.
    pub buyer: SystemAccount,
    /// The buyer's token account for the sale's mint; `None` while it does
    /// not exist, in which case the purchase opens it at the buyer's expense.
    pub buyer_token_account: Option<TokenAccount>,
    /// The sale record, which receives the price.
    pub crowdsale: CrowdsaleAccount,
    /// The reserve the tokens come from.
    pub crowdsale_token_account: TokenAccount,
    /// The sale's signing authority, which owns the reserve.
    pub crowdsale_authority: Identifier,
    pub mint_account: Identifier,
}

/// Price in currency of `amount` token units at `cost` each, or `None` where
/// it exceeds the 32-bit range.
pub open spec fn price_spec(amount: u32, cost: u32) -> Option<nat> {
    if amount * cost <= u32::MAX {
        Some((amount * cost) as nat)
    } else {
        None
    }
}

/// Currency a purchase charges for opening the buyer's token account, where
/// a token account is kept at `floor`.
pub open spec fn opening_cost(b: BuyTokens, floor: u64) -> nat {
    if b.buyer_token_account is None {
        floor as nat
    } else {
        0
    }
}

/// The floor every token account keeps: the rent-exempt minimum of its size.
pub open spec fn token_account_floor() -> u64 {
    rent_floor(TOKEN_ACCOUNT_SPACE as nat) as u64
}

/// Tokens the buyer holds before the purchase.
pub open spec fn tokens_held(b: BuyTokens) -> nat {
    match b.buyer_token_account {
        Some(t) => t.amount as nat,
        None => 0,
    }
}

/// Whether a token account the buyer already has fits the purchase.
pub open spec fn buyer_account_fits(b: BuyTokens) -> bool {
    match b.buyer_token_account {
        Some(t) => t.mint@ == b.mint_account@ && t.authority@ == b.buyer.key@,
        None => true,
    }
}

/// The accounts after a purchase of `amount` units, given what the ledger
/// derives for the record and for the authority and the floor a new token
/// account is opened with; or why it is refused.
pub open spec fn buy_outcome(
    b: BuyTokens,
    amount: u32,
    record: Option<(Seq<u8>, u8)>,
    authority: Option<(Seq<u8>, u8)>,
    floor: u64,
) -> Result<BuyTokens, SaleError> {
    if address_error(record, b.crowdsale.key@) is Some {
        Err(address_error(record, b.crowdsale.key@)->0)
    } else if address_error(authority, b.crowdsale_authority@) is Some {
        Err(address_error(authority, b.crowdsale_authority@)->0)
    } else if b.crowdsale_token_account.mint@ != b.mint_account@
        || b.crowdsale_token_account.authority@ != b.crowdsale_authority@
        || !buyer_account_fits(b) {
        Err(SaleError::AccountMismatch)
    } else if price_spec(amount, b.crowdsale.data.cost) is None {
        Err(SaleError::ArithmeticOverflow)
    } else {
        let price = price_spec(amount, b.crowdsale.data.cost)->0;
        let opening = opening_cost(b, floor);
        if b.buyer.lamports < price + opening || b.crowdsale_token_account.amount < amount {
            Err(SaleError::InsufficientFunds)
        } else if b.crowdsale.lamports + price > u64::MAX || tokens_held(b) + amount > u64::MAX {
            Err(SaleError::ArithmeticOverflow)
        } else {
            let bought = match b.buyer_token_account {
                Some(t) => TokenAccount { amount: (t.amount + amount) as u64, ..t },
                None => TokenAccount {
                    mint: b.mint_account,
                    authority: b.buyer.key,
                    amount: amount as u64,
                    lamports: opening as u64,
                },
            };
            Ok(
                BuyTokens {
                    buyer: SystemAccount {
                        lamports: (b.buyer.lamports - price - opening) as u64,
                        ..b.buyer
                    },
                    buyer_token_account: Some(bought),
                    crowdsale: CrowdsaleAccount {
                        lamports: (b.crowdsale.lamports + price) as u64,
                        ..b.crowdsale
                    },
                    crowdsale_token_account: TokenAccount {
                        amount: (b.crowdsale_token_account.amount - amount) as u64,
                        ..b.crowdsale_token_account
                    },
                    ..b
                },
            )
        }
    }
}

/// Price in currency of `amount` token units at `cost` each, refused where
/// it exceeds the 32-bit range.
pub fn price_of(amount: u32, cost: u32) -> (r: Result<u64, SaleError>)
    ensures
        match price_spec(amount, cost) {
            Some(p) => r == Ok::<u64, SaleError>(p as u64),
            None => r == Err::<u64, SaleError>(SaleError::ArithmeticOverflow),
        },
{
    match amount.checked_mul(cost) {
        Some(p) => Ok(p as u64),
        None => Err(SaleError::ArithmeticOverflow),
    }
}

/// Settles a purchase of `amount` units, given what the ledger derived for
/// the record (`record`) and for the authority (`authority`), opening a
/// missing buyer token account with `opening`: both legs of the exchange
/// happen, or nothing changes.
pub fn settle_purchase(
    accounts: &mut BuyTokens,
    amount: u32,
    record: Option<(Identifier, u8)>,
    authority: Option<(Identifier, u8)>,
    opening: u64,
) -> (r: Result<(), SaleError>)
    ensures
        match buy_outcome(*old(accounts), amount, derived_view(record), derived_view(authority), opening) {
            Ok(n) => r is Ok && *final(accounts) == n,
            Err(e) => r == Err::<(), SaleError>(e) && *final(accounts) == *old(accounts),
        },
{
    if let Some(e) = check_address(&record, &accounts.crowdsale.key) {
        return Err(e);
    }
    if let Some(e) = check_address(&authority, &accounts.crowdsale_authority) {
        return Err(e);
    }
    if !accounts.crowdsale_token_account.mint.same(&accounts.mint_account)
        || !accounts.crowdsale_token_account.authority.same(&accounts.crowdsale_authority) {
        return Err(SaleError::AccountMismatch);
    }
    let (held, charge) = match accounts.buyer_token_account {
        Some(t) => {
            if !t.mint.same(&accounts.mint_account) || !t.authority.same(&accounts.buyer.key) {
                return Err(SaleError::AccountMismatch);
            }
            (t.amount, 0u64)
        },
        None => (0u64, opening),
    };
    let price = match price_of(amount, accounts.crowdsale.data.cost) {
        Ok(p) => p,
        Err(e) => return Err(e),
    };
    if accounts.buyer.lamports < price || accounts.buyer.lamports - price < charge
        || accounts.crowdsale_token_account.amount < amount as u64 {
        return Err(SaleError::InsufficientFunds);
    }
    if u64::MAX - accounts.crowdsale.lamports < price || u64::MAX - held < amount as u64 {
        return Err(SaleError::ArithmeticOverflow);
    }
    let bought = match accounts.buyer_token_account {
        Some(t) => TokenAccount { amount: held + amount as u64, ..t },
        None => TokenAccount {
            mint: accounts.mint_account,
            authority: accounts.buyer.key,
            amount: amount as u64,
            lamports: charge,
        },
    };
    accounts.buyer.lamports = accounts.buyer.lamports - price - charge;
    accounts.buyer_token_account = Some(bought);
    accounts.crowdsale.lamports = accounts.crowdsale.lamports + price;
    accounts.crowdsale_token_account.amount = accounts.crowdsale_token_account.amount - amount as u64;
    Ok(())
}

/// Buys `amount` token units from the sale whose record is among `accounts`,
/// for the program at `program_id`: the price goes from the buyer to the
/// record, the tokens from the reserve to the buyer under the sale's
/// authority, or nothing changes.
pub fn buy_tokens(accounts: &mut BuyTokens, program_id: &Identifier, amount: u32) -> (r: Result<(), SaleError>)
    ensures
        match buy_outcome(
            *old(accounts),
            amount,
            program_address_of(record_seeds(old(accounts).crowdsale.data.id@), program_id@),
            program_address_of(authority_seeds(old(accounts).crowdsale.data.id@), program_id@),
            token_account_floor(),
        ) {
            Ok(n) => r is Ok && *final(accounts) == n,
            Err(e) => r == Err::<(), SaleError>(e) && *final(accounts) == *old(accounts),
        },
{
    let id = accounts.crowdsale.data.id;
    let record = record_address(&id, program_id);
    let authority = authority_address(&id, program_id);
    let opening = minimum_balance(TOKEN_ACCOUNT_SPACE);
    settle_purchase(accounts, amount, record, authority, opening)
}

} // verus!
