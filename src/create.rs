use crate::authority::{address_error, check_address, record_address, record_seeds};
use crate::error::SaleError;
use crate::identifier::Identifier;
use crate::ledger::{derived_view, minimum_balance, program_address_of};
use crate::state::{Crowdsale, CrowdsaleAccount, CrowdsaleStatus, SystemAccount, RECORD_SPACE};
use crate::withdraw::record_floor;
use vstd::prelude::*;

verus! {

/// The accounts the opening of a sale touches.
#[derive(Clone, Copy, Debug, PartialEq, Eq)]
pub struct CreateCrowdsale {
    /// Who opens the sale: it pays the record's rent and becomes its owner.
    pub payer: SystemAccount,
    /// The address given for the record.
    pub crowdsale_key: Identifier,
    /// What stands at that address: `None` while it is free.
    pub crowdsale: Option<CrowdsaleAccount>,
    pub mint_account: Identifier,
    /// The reserve holding the tokens for sale.
    pub token_account: Identifier,
}

/// The record a new sale starts with.
pub open spec fn new_record(c: CreateCrowdsale, id: Identifier, cost: u32) -> Crowdsale {
    Crowdsale {
        id,
        cost,
        mint_account: c.mint_account,
        token_account: c.token_account,
        status: CrowdsaleStatus::Open,
        owner: c.payer.key,
    }
}

/// The accounts after opening sale `id` at `cost`, with a record funded to
/// `floor`, given what the ledger derives for the record; or why it is
/// refused.
pub open spec fn create_outcome(
    c: CreateCrowdsale,
    id: Identifier,
    cost: u32,
    record: Option<(Seq<u8>, u8)>,
    floor: u64,
) -> Result<CreateCrowdsale, SaleError> {
    if c.crowdsale is Some {
        Err(SaleError::AlreadyExists)
    } else if address_error(record, c.crowdsale_key@) is Some {
        Err(address_error(record, c.crowdsale_key@)->0)
    } else if c.payer.lamports < floor {
        Err(SaleError::InsufficientFunds)
    } else {
        Ok(
            CreateCrowdsale {
                payer: SystemAccount { lamports: (c.payer.lamports - floor) as u64, ..c.payer },
                crowdsale: Some(
                    CrowdsaleAccount { key: c.crowdsale_key, lamports: floor, data: new_record(c, id, cost) },
                ),
                ..c
            },
        )
    }
}

/// Opens sale `id` at `cost`, given what the ledger derived for its record
/// (`record`), funding the record to `floor`; or changes nothing.
pub fn settle_create(
    accounts: &mut CreateCrowdsale,
    id: Identifier,
    cost: u32,
    record: Option<(Identifier, u8)>,
    floor: u64,
) -> (r: Result<(), SaleError>)
    ensures
        match create_outcome(*old(accounts), id, cost, derived_view(record), floor) {
            Ok(n) => r is Ok && *final(accounts) == n,
            Err(e) => r == Err::<(), SaleError>(e) && *final(accounts) == *old(accounts),
        },
{
    if accounts.crowdsale.is_some() {
        return Err(SaleError::AlreadyExists);
    }
    if let Some(e) = check_address(&record, &accounts.crowdsale_key) {
        return Err(e);
    }
    if accounts.payer.lamports < floor {
        return Err(SaleError::InsufficientFunds);
    }
    let data = Crowdsale {
        id,
        cost,
        mint_account: accounts.mint_account,
        token_account: accounts.token_account,
        status: CrowdsaleStatus::Open,
        owner: accounts.payer.key,
    };
    accounts.payer.lamports = accounts.payer.lamports - floor;
    accounts.crowdsale = Some(CrowdsaleAccount { key: accounts.crowdsale_key, lamports: floor, data });
    Ok(())
}

/// Opens sale `id` at `cost` for the program at `program_id`: the record is
/// stored at the address its id derives, owned by the payer, open, and
/// funded by the payer to its rent-exempt floor; or nothing changes.
pub fn initialize(accounts: &mut CreateCrowdsale, program_id: &Identifier, id: Identifier, cost: u32) -> (r: Result<(), SaleError>)
    ensures
        match create_outcome(
            *old(accounts),
            id,
            cost,
            program_address_of(record_seeds(id@), program_id@),
            record_floor(),
        ) {
            Ok(n) => r is Ok && *final(accounts) == n,
            Err(e) => r == Err::<(), SaleError>(e) && *final(accounts) == *old(accounts),
        },
{
    let record = record_address(&id, program_id);
    let floor = minimum_balance(RECORD_SPACE);
    settle_create(accounts, id, cost, record, floor)
}

} // verus!
