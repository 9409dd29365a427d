use vstd::prelude::*;

verus! {

/// Why an instruction was rejected. A rejected instruction changes nothing.
#[derive(Clone, Copy, Debug, PartialEq, Eq, Structural)]
pub enum SaleError {
    /// The caller is not the principal the instruction requires.
    Unauthorized,
    /// The buyer lacks currency, the payer lacks the rent, or the reserve
    /// lacks tokens.
    InsufficientFunds,
    /// The record holds less than its rent-exempt floor.
    InsufficientBalance,
    /// A price or a balance exceeds its range.
    ArithmeticOverflow,
    /// A record already stands at the derived address.
    AlreadyExists,
    /// An address cannot be derived from its seeds.
    NotFound,
    /// An account is not the one its seeds, mint or authority call for.
    AccountMismatch,
}

} // verus!
