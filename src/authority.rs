use crate::error::SaleError;
use crate::identifier::Identifier;
use crate::ledger::{derived_view, find_program_address, program_address_of, seeds_view};
use vstd::prelude::*;

verus! {

/// The tag that, after a sale's id, seeds the sale's signing authority:
/// the bytes of "authority".
pub open spec fn authority_tag() -> Seq<u8> {
    seq![97u8, 117u8, 116u8, 104u8, 111u8, 114u8, 105u8, 116u8, 121u8]
}

/// Seeds of a sale record's address: the sale id alone.
pub open spec fn record_seeds(id: Seq<u8>) -> Seq<Seq<u8>> {
    seq![id]
}

/// Seeds of a sale's signing authority: the sale id, then the tag.
pub open spec fn authority_seeds(id: Seq<u8>) -> Seq<Seq<u8>> {
    seq![id, authority_tag()]
}

/// What a derivation says of an account that claims to stand at the derived
/// address: nothing where it does, else why it is refused.
pub open spec fn address_error(derived: Option<(Seq<u8>, u8)>, key: Seq<u8>) -> Option<SaleError> {
    match derived {
        None => Some(SaleError::NotFound),
        Some((k, _)) => if k == key {
            None
        } else {
            Some(SaleError::AccountMismatch)
        },
    }
}

pub fn authority_tag_bytes() -> (r: Vec<u8>)
    ensures
        r@ == authority_tag(),
{
    let r: Vec<u8> = vec![97u8, 117u8, 116u8, 104u8, 111u8, 114u8, 105u8, 116u8, 121u8];
    assert(r@ =~= authority_tag());
    r
}

/// The address at which the record of sale `id` is stored, with its bump.
pub fn record_address(id: &Identifier, program_id: &Identifier) -> (r: Option<(Identifier, u8)>)
    ensures
        derived_view(r) == program_address_of(record_seeds(id@), program_id@),
{
    let mut seeds: Vec<Vec<u8>> = Vec::new();
    seeds.push(id.to_vec());
    assert(seeds_view(seeds@) =~= record_seeds(id@));
    find_program_address(&seeds, program_id)
}

/// The keyless address through which the program signs for the reserve of
/// sale `id`, with its bump.
pub fn authority_address(id: &Identifier, program_id: &Identifier) -> (r: Option<(Identifier, u8)>)
    ensures
        derived_view(r) == program_address_of(authority_seeds(id@), program_id@),
{
    let mut seeds: Vec<Vec<u8>> = Vec::new();
    seeds.push(id.to_vec());
    seeds.push(authority_tag_bytes());
    assert(seeds_view(seeds@) =~= authority_seeds(id@));
    find_program_address(&seeds, program_id)
}

/// Checks an account's key against the address derived for it.
pub fn check_address(derived: &Option<(Identifier, u8)>, key: &Identifier) -> (r: Option<SaleError>)
    ensures
        r == address_error(derived_view(*derived), key@),
{
    match derived {
        None => Some(SaleError::NotFound),
        Some((k, _)) => if k.same(key) {
            None
        } else {
            Some(SaleError::AccountMismatch)
        },
    }
}

} // verus!
