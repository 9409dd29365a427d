use crowdsale::{
    authority_address, buy_tokens, initialize, price_of, record_address, settle_purchase, withdraw,
    withdrawable, BuyTokens, CreateCrowdsale, Crowdsale, CrowdsaleAccount, CrowdsaleStatus,
    Identifier, SaleError, SystemAccount, TokenAccount, Withdraw,
};

const RECORD_FLOOR: u64 = 1_872_240;
const TOKEN_ACCOUNT_FLOOR: u64 = 2_039_280;

fn key(b: u8) -> Identifier {
    Identifier::new([b; 32])
}

fn program() -> Identifier {
    key(200)
}

fn sale_id() -> Identifier {
    key(7)
}

fn owner() -> Identifier {
    key(1)
}

fn mint() -> Identifier {
    key(3)
}

fn open_record(cost: u32, lamports: u64) -> CrowdsaleAccount {
    let (addr, _) = record_address(&sale_id(), &program()).unwrap();
    CrowdsaleAccount {
        key: addr,
        lamports,
        data: Crowdsale {
            id: sale_id(),
            cost,
            mint_account: mint(),
            token_account: key(4),
            status: CrowdsaleStatus::Open,
            owner: owner(),
        },
    }
}

fn purchase(cost: u32, buyer_lamports: u64, reserve: u64, existing: bool) -> BuyTokens {
    let (authority, _) = authority_address(&sale_id(), &program()).unwrap();
    let buyer = key(2);
    BuyTokens {
        buyer: SystemAccount { key: buyer, lamports: buyer_lamports },
        buyer_token_account: if existing {
            Some(TokenAccount { mint: mint(), authority: buyer, amount: 5, lamports: TOKEN_ACCOUNT_FLOOR })
        } else {
            None
        },
        crowdsale: open_record(cost, RECORD_FLOOR),
        crowdsale_token_account: TokenAccount { mint: mint(), authority, amount: reserve, lamports: TOKEN_ACCOUNT_FLOOR },
        crowdsale_authority: authority,
        mint_account: mint(),
    }
}

fn creation() -> CreateCrowdsale {
    let (addr, _) = record_address(&sale_id(), &program()).unwrap();
    CreateCrowdsale {
        payer: SystemAccount { key: owner(), lamports: 10_000_000 },
        crowdsale_key: addr,
        crowdsale: None,
        mint_account: mint(),
        token_account: key(4),
    }
}

#[test]
fn create_then_read_record() {
    let mut c = creation();
    assert_eq!(initialize(&mut c, &program(), sale_id(), 500), Ok(()));
    let rec = c.crowdsale.unwrap();
    assert_eq!(rec.data.owner, owner());
    assert_eq!(rec.data.cost, 500);
    assert_eq!(rec.data.status, CrowdsaleStatus::Open);
    assert_eq!(rec.data.id, sale_id());
    assert_eq!(rec.key, c.crowdsale_key);
    assert_eq!(rec.lamports, RECORD_FLOOR);
    assert_eq!(c.payer.lamports, 10_000_000 - RECORD_FLOOR);
}

#[test]
fn create_twice_already_exists() {
    let mut c = creation();
    assert_eq!(initialize(&mut c, &program(), sale_id(), 500), Ok(()));
    let before = c;
    assert_eq!(initialize(&mut c, &program(), sale_id(), 900), Err(SaleError::AlreadyExists));
    assert_eq!(c, before);
}

#[test]
fn create_at_wrong_address_refused() {
    let mut c = creation();
    c.crowdsale_key = key(9);
    let before = c;
    assert_eq!(initialize(&mut c, &program(), sale_id(), 500), Err(SaleError::AccountMismatch));
    assert_eq!(c, before);
}

#[test]
fn create_with_short_payer_refused() {
    let mut c = creation();
    c.payer.lamports = RECORD_FLOOR - 1;
    let before = c;
    assert_eq!(initialize(&mut c, &program(), sale_id(), 500), Err(SaleError::InsufficientFunds));
    assert_eq!(c, before);
}

#[test]
fn create_with_zero_cost_accepted() {
    let mut c = creation();
    assert_eq!(initialize(&mut c, &program(), sale_id(), 0), Ok(()));
    assert_eq!(c.crowdsale.unwrap().data.cost, 0);
}

#[test]
fn purchase_moves_both_legs() {
    let mut b = purchase(1_000, 50_000, 100, true);
    assert_eq!(buy_tokens(&mut b, &program(), 10), Ok(()));
    assert_eq!(b.buyer.lamports, 40_000);
    assert_eq!(b.buyer_token_account.unwrap().amount, 15);
    assert_eq!(b.crowdsale.lamports, RECORD_FLOOR + 10_000);
    assert_eq!(b.crowdsale_token_account.amount, 90);
}

#[test]
fn purchase_opens_missing_token_account() {
    let mut b = purchase(1_000, 50_000 + TOKEN_ACCOUNT_FLOOR, 100, false);
    assert_eq!(buy_tokens(&mut b, &program(), 10), Ok(()));
    assert_eq!(b.buyer.lamports, 40_000);
    let t = b.buyer_token_account.unwrap();
    assert_eq!(t.amount, 10);
    assert_eq!(t.mint, mint());
    assert_eq!(t.authority, key(2));
    assert_eq!(t.lamports, TOKEN_ACCOUNT_FLOOR);
    assert_eq!(b.crowdsale.lamports, RECORD_FLOOR + 10_000);
}

#[test]
fn short_buyer_refused_twice_without_change() {
    let mut b = purchase(1_000, 9_999, 100, true);
    let before = b;
    assert_eq!(buy_tokens(&mut b, &program(), 10), Err(SaleError::InsufficientFunds));
    assert_eq!(b, before);
    assert_eq!(buy_tokens(&mut b, &program(), 10), Err(SaleError::InsufficientFunds));
    assert_eq!(b, before);
}

#[test]
fn short_reserve_refused() {
    let mut b = purchase(1, 50_000, 3, true);
    let before = b;
    assert_eq!(buy_tokens(&mut b, &program(), 4), Err(SaleError::InsufficientFunds));
    assert_eq!(b, before);
}

#[test]
fn overflowing_price_refused() {
    let mut b = purchase(1 << 20, u64::MAX / 2, u64::MAX / 2, true);
    let before = b;
    assert_eq!(buy_tokens(&mut b, &program(), 1 << 20), Err(SaleError::ArithmeticOverflow));
    assert_eq!(b, before);
}

#[test]
fn price_exact_and_bounded() {
    assert_eq!(price_of(10, 1_000), Ok(10_000));
    assert_eq!(price_of(65_536, 65_535), Ok(4_294_901_760));
    assert_eq!(price_of(65_536, 65_536), Err(SaleError::ArithmeticOverflow));
    assert_eq!(price_of(1 << 20, 1 << 20), Err(SaleError::ArithmeticOverflow));
    assert_eq!(price_of(0, u32::MAX), Ok(0));
}

#[test]
fn closed_sale_still_sells() {
    let mut b = purchase(2, 100, 10, true);
    b.crowdsale.data.status = CrowdsaleStatus::Closed;
    assert_eq!(buy_tokens(&mut b, &program(), 3), Ok(()));
    assert_eq!(b.buyer.lamports, 94);
}

#[test]
fn reserve_of_another_authority_refused() {
    let mut b = purchase(2, 100, 10, true);
    b.crowdsale_authority = key(8);
    b.crowdsale_token_account.authority = key(8);
    let before = b;
    assert_eq!(buy_tokens(&mut b, &program(), 3), Err(SaleError::AccountMismatch));
    assert_eq!(b, before);
}

#[test]
fn buyer_account_of_another_mint_refused() {
    let mut b = purchase(2, 100, 10, true);
    b.buyer_token_account = Some(TokenAccount { mint: key(9), authority: key(2), amount: 0, lamports: 0 });
    let before = b;
    assert_eq!(buy_tokens(&mut b, &program(), 3), Err(SaleError::AccountMismatch));
    assert_eq!(b, before);
}

#[test]
fn underived_record_not_found() {
    let mut b = purchase(2, 100, 10, true);
    let authority = authority_address(&sale_id(), &program());
    let before = b;
    assert_eq!(settle_purchase(&mut b, 3, None, authority, TOKEN_ACCOUNT_FLOOR), Err(SaleError::NotFound));
    assert_eq!(b, before);
}

#[test]
fn token_balance_overflow_refused() {
    let mut b = purchase(0, 100, 10, true);
    b.buyer_token_account = Some(TokenAccount { mint: mint(), authority: key(2), amount: u64::MAX, lamports: 0 });
    let before = b;
    assert_eq!(buy_tokens(&mut b, &program(), 1), Err(SaleError::ArithmeticOverflow));
    assert_eq!(b, before);
}

#[test]
fn derived_addresses_are_new_and_stable() {
    let r1 = record_address(&sale_id(), &program()).unwrap();
    let r2 = record_address(&sale_id(), &program()).unwrap();
    let a = authority_address(&sale_id(), &program()).unwrap();
    assert_eq!(r1, r2);
    assert_ne!(r1.0, sale_id());
    assert_ne!(a.0, sale_id());
    assert_ne!(a.0, r1.0);
    let other = record_address(&key(8), &program()).unwrap();
    assert_ne!(other.0, r1.0);
}

#[test]
fn stranger_cannot_withdraw() {
    let mut w = Withdraw {
        owner: SystemAccount { key: key(5), lamports: 10 },
        crowdsale: open_record(1, RECORD_FLOOR + 500),
    };
    let before = w;
    assert_eq!(withdraw(&mut w, &program()), Err(SaleError::Unauthorized));
    assert_eq!(w, before);
}

#[test]
fn owner_withdraws_to_floor_once() {
    let mut w = Withdraw {
        owner: SystemAccount { key: owner(), lamports: 10 },
        crowdsale: open_record(1, RECORD_FLOOR + 500),
    };
    assert_eq!(withdraw(&mut w, &program()), Ok(()));
    assert_eq!(w.crowdsale.lamports, RECORD_FLOOR);
    assert_eq!(w.owner.lamports, 510);
    let after = w;
    assert_eq!(withdraw(&mut w, &program()), Ok(()));
    assert_eq!(w, after);
}

#[test]
fn withdraw_below_floor_refused() {
    let mut w = Withdraw {
        owner: SystemAccount { key: owner(), lamports: 10 },
        crowdsale: open_record(1, RECORD_FLOOR - 1),
    };
    let before = w;
    assert_eq!(withdraw(&mut w, &program()), Err(SaleError::InsufficientBalance));
    assert_eq!(w, before);
}

#[test]
fn withdraw_overflowing_owner_refused() {
    let mut w = Withdraw {
        owner: SystemAccount { key: owner(), lamports: u64::MAX },
        crowdsale: open_record(1, RECORD_FLOOR + 1),
    };
    let before = w;
    assert_eq!(withdraw(&mut w, &program()), Err(SaleError::ArithmeticOverflow));
    assert_eq!(w, before);
}

#[test]
fn withdrawable_exact() {
    assert_eq!(withdrawable(1_000, 400), Ok(600));
    assert_eq!(withdrawable(400, 400), Ok(0));
    assert_eq!(withdrawable(399, 400), Err(SaleError::InsufficientBalance));
}

#[test]
fn identifiers_compare_by_bytes() {
    let mut b = [7u8; 32];
    assert!(key(7).same(&Identifier::new(b)));
    b[31] = 8;
    assert!(!key(7).same(&Identifier::new(b)));
    assert_eq!(key(7).to_vec(), vec![7u8; 32]);
}
