use crate::authority::{address_error, check_address, record_address, record_seeds};
use crate::error::SaleError;
use crate::identifier::Identifier;
use crate::ledger::{derived_view, minimum_balance, program_address_of, rent_floor};
use crate::state::{CrowdsaleAccount, SystemAccount, RECORD_SPACE};
use vstd::prelude::*;

verus! {

/// The accounts a withdrawal touches.
#[derive(Clone, Copy, Debug, PartialEq, Eq)]
pub struct Withdraw {
    /// Who asks; must be the sale's owner.
    pub owner: SystemAccount,
    /// The sale record whose proceeds are swept.
    pub crowdsale: CrowdsaleAccount,
}

/// The currency a record holding `balance` can give up while keeping
/// `floor`: refused where it holds less.
pub open spec fn withdrawable_spec(balance: u64, floor: u64) -> Result<u64, SaleError> {
    if balance < floor {
        Err(SaleError::InsufficientBalance)
    } else {
        Ok((balance - floor) as u64)
    }
}

/// The accounts after a withdrawal that keeps `floor` in the record, given
/// what the ledger derives for the record; or why it is refused.
pub open spec fn withdraw_outcome(
    w: Withdraw,
    record: Option<(Seq<u8>, u8)>,
    floor: u64,
) -> Result<Withdraw, SaleError> {
    if w.owner.key@ != w.crowdsale.data.owner@ {
        Err(SaleError::Unauthorized)
    } else if address_error(record, w.crowdsale.key@) is Some {
        Err(address_error(record, w.crowdsale.key@)->0)
    } else if withdrawable_spec(w.crowdsale.lamports, floor) is Err {
        Err(withdrawable_spec(w.crowdsale.lamports, floor)->Err_0)
    } else {
        let amount = withdrawable_spec(w.crowdsale.lamports, floor)->Ok_0;
        if w.owner.lamports + amount > u64::MAX {
            Err(SaleError::ArithmeticOverflow)
        } else {
            Ok(
                Withdraw {
                    owner: SystemAccount { lamports: (w.owner.lamports + amount) as u64, ..w.owner },
                    crowdsale: CrowdsaleAccount { lamports: floor, ..w.crowdsale },
                },
            )
        }
    }
}

/// The floor every sale record keeps: the rent-exempt minimum of its size.
pub open spec fn record_floor() -> u64 {
    rent_floor(RECORD_SPACE as nat) as u64
}

/// The currency a record holding `balance` can give up while keeping `floor`.
pub fn withdrawable(balance: u64, floor: u64) -> (r: Result<u64, SaleError>)
    ensures
        r == withdrawable_spec(balance, floor),
{
    match balance.checked_sub(floor) {
        Some(a) => Ok(a),
        None => Err(SaleError::InsufficientBalance),
    }
}

/// Settles a withdrawal that keeps `floor` in the record, given what the
/// ledger derived for the record (`record`); or changes nothing.
pub fn settle_withdraw(accounts: &mut Withdraw, record: Option<(Identifier, u8)>, floor: u64) -> (r: Result<(), SaleError>)
    ensures
        match withdraw_outcome(*old(accounts), derived_view(record), floor) {
            Ok(n) => r is Ok && *final(accounts) == n,
            Err(e) => r == Err::<(), SaleError>(e) && *final(accounts) == *old(accounts),
        },
{
    if !accounts.owner.key.same(&accounts.crowdsale.data.owner) {
        return Err(SaleError::Unauthorized);
    }
    if let Some(e) = check_address(&record, &accounts.crowdsale.key) {
        return Err(e);
    }
    let amount = match withdrawable(accounts.crowdsale.lamports, floor) {
        Ok(a) => a,
        Err(e) => return Err(e),
    };
    if u64::MAX - accounts.owner.lamports < amount {
        return Err(SaleError::ArithmeticOverflow);
    }
    accounts.crowdsale.lamports = accounts.crowdsale.lamports - amount;
    accounts.owner.lamports = accounts.owner.lamports + amount;
    Ok(())
}

/// Sweeps the record's currency above its rent-exempt floor to its owner,
/// for the program at `program_id`; or changes nothing.
pub fn withdraw(accounts: &mut Withdraw, program_id: &Identifier) -> (r: Result<(), SaleError>)
    ensures
        match withdraw_outcome(
            *old(accounts),
            program_address_of(record_seeds(old(accounts).crowdsale.data.id@), program_id@),
            record_floor(),
        ) {
            Ok(n) => r is Ok && *final(accounts) == n,
            Err(e) => r == Err::<(), SaleError>(e) && *final(accounts) == *old(accounts),
        },
{
    let id = accounts.crowdsale.data.id;
    let record = record_address(&id, program_id);
    let floor = minimum_balance(RECORD_SPACE);
    settle_withdraw(accounts, record, floor)
}

} // verus!
