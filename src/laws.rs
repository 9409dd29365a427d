use crate::authority::address_error;
use crate::buy_tokens::{buy_outcome, opening_cost, tokens_held, BuyTokens};
use crate::create::{create_outcome, CreateCrowdsale};
use crate::error::SaleError;
use crate::identifier::Identifier;
use crate::state::CrowdsaleStatus;
use crate::withdraw::{withdraw_outcome, Withdraw};
use vstd::prelude::*;

verus! {

/// Opening a sale at a free address derived from its id, by a payer who can
/// fund the record, succeeds, and the record it stores is owned by the payer,
/// carries the given id and cost, and is open.
pub proof fn lemma_create_then_read(
    c: CreateCrowdsale,
    id: Identifier,
    cost: u32,
    record: Option<(Seq<u8>, u8)>,
    floor: u64,
)
    requires
        cost > 0,
        c.crowdsale is None,
        address_error(record, c.crowdsale_key@) is None,
        c.payer.lamports >= floor,
    ensures
        create_outcome(c, id, cost, record, floor) is Ok,
        ({
            let n = create_outcome(c, id, cost, record, floor)->Ok_0;
            &&& n.crowdsale is Some
            &&& n.crowdsale->0.data.owner == c.payer.key
            &&& n.crowdsale->0.data.id == id
            &&& n.crowdsale->0.data.cost == cost
            &&& n.crowdsale->0.data.status == CrowdsaleStatus::Open
        }),
{
}

/// A purchase that goes through moves exactly `amount * cost` currency from
/// the buyer to the record (the buyer pays on top the opening of a token
/// account it did not have) and exactly `amount` tokens from the reserve to
/// the buyer: the sums of currency and of tokens over the accounts are kept.
pub proof fn lemma_purchase_conserves(
    b: BuyTokens,
    amount: u32,
    record: Option<(Seq<u8>, u8)>,
    authority: Option<(Seq<u8>, u8)>,
    floor: u64,
)
    requires
        buy_outcome(b, amount, record, authority, floor) is Ok,
    ensures
        ({
            let n = buy_outcome(b, amount, record, authority, floor)->Ok_0;
            let price = amount * b.crowdsale.data.cost;
            &&& price <= u32::MAX
            &&& n.buyer.lamports == b.buyer.lamports - price - opening_cost(b, floor)
            &&& n.crowdsale.lamports == b.crowdsale.lamports + price
            &&& tokens_held(n) == tokens_held(b) + amount
            &&& n.crowdsale_token_account.amount == b.crowdsale_token_account.amount - amount
            &&& n.buyer.lamports + n.crowdsale.lamports + n.buyer_token_account->0.lamports
                == b.buyer.lamports + b.crowdsale.lamports + match b.buyer_token_account {
                    Some(t) => t.lamports as int,
                    None => 0,
                }
            &&& tokens_held(n) + n.crowdsale_token_account.amount
                == tokens_held(b) + b.crowdsale_token_account.amount
            &&& (b.buyer_token_account is Some ==> opening_cost(b, floor) == 0)
        }),
{
}

/// A buyer holding less currency than the price is refused, whatever else
/// holds; a refused purchase leaves every account as it was, so repeating it
/// is refused again and still changes nothing.
pub proof fn lemma_short_buyer_refused(
    b: BuyTokens,
    amount: u32,
    record: Option<(Seq<u8>, u8)>,
    authority: Option<(Seq<u8>, u8)>,
    floor: u64,
)
    requires
        amount * b.crowdsale.data.cost <= u32::MAX,
        b.buyer.lamports < amount * b.crowdsale.data.cost,
    ensures
        buy_outcome(b, amount, record, authority, floor) is Err,
{
}

/// A withdrawal asked by anyone but the record's owner is refused as
/// unauthorized, and so changes nothing.
pub proof fn lemma_stranger_cannot_withdraw(w: Withdraw, record: Option<(Seq<u8>, u8)>, floor: u64)
    requires
        w.owner.key@ != w.crowdsale.data.owner@,
    ensures
        withdraw_outcome(w, record, floor) == Err::<Withdraw, SaleError>(SaleError::Unauthorized),
{
}

/// A withdrawal that goes through leaves the record at exactly its floor and
/// adds the difference to the owner; a second withdrawal right after it
/// succeeds and changes nothing.
pub proof fn lemma_withdraw_down_to_floor(w: Withdraw, record: Option<(Seq<u8>, u8)>, floor: u64)
    requires
        withdraw_outcome(w, record, floor) is Ok,
    ensures
        ({
            let n = withdraw_outcome(w, record, floor)->Ok_0;
            &&& n.crowdsale.lamports == floor
            &&& n.owner.lamports == w.owner.lamports + (w.crowdsale.lamports - floor)
            &&& withdraw_outcome(n, record, floor) == Ok::<Withdraw, SaleError>(n)
        }),
{
}

/// Purchases and withdrawals move currency and tokens only: the stored
/// record (its id, cost, reserve, status and owner) and the record's address
/// stay as they were.
pub proof fn lemma_record_kept(
    b: BuyTokens,
    amount: u32,
    w: Withdraw,
    record: Option<(Seq<u8>, u8)>,
    authority: Option<(Seq<u8>, u8)>,
    floor: u64,
)
    ensures
        buy_outcome(b, amount, record, authority, floor) is Ok ==> {
            let n = buy_outcome(b, amount, record, authority, floor)->Ok_0;
            n.crowdsale.data == b.crowdsale.data && n.crowdsale.key == b.crowdsale.key
        },
        withdraw_outcome(w, record, floor) is Ok ==> {
            let n = withdraw_outcome(w, record, floor)->Ok_0;
            n.crowdsale.data == w.crowdsale.data && n.crowdsale.key == w.crowdsale.key
        },
{
}

} // verus!
