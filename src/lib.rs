//! A token-sale program: an owner opens a sale record, buyers exchange native
//! currency for reserved tokens at the posted price, and the owner sweeps the
//! proceeds down to the record's rent-exempt floor.
//!
//! Each instruction takes the accounts it touches by `&mut` and either applies
//! its whole effect or leaves them as they were. Its contract equals a spec
//! function over those accounts (`create_outcome`, `buy_outcome`,
//! `withdraw_outcome`), and the laws of the program are proved over those spec
//! functions in `laws`.

pub mod authority;
pub mod buy_tokens;
pub mod create;
pub mod error;
pub mod identifier;
pub mod laws;
pub mod ledger;
pub mod state;
pub mod withdraw;

pub use authority::{authority_address, check_address, record_address};
pub use buy_tokens::{buy_tokens, price_of, settle_purchase, BuyTokens};
pub use create::{initialize, settle_create, CreateCrowdsale};
pub use error::SaleError;
pub use identifier::Identifier;
pub use state::{Crowdsale, CrowdsaleAccount, CrowdsaleStatus, SystemAccount, TokenAccount, RECORD_SPACE, TOKEN_ACCOUNT_SPACE};
pub use withdraw::{settle_withdraw, withdraw, withdrawable, Withdraw};
