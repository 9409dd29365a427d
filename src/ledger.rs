use crate::identifier::Identifier;
use vstd::prelude::*;

verus! {

/// What the ledger derives from a list of seeds and a program address: the
/// program-derived address with its bump seed, or nothing where no bump
/// yields an address off the curve (or the seeds are too many or too long).
pub uninterp spec fn program_address_of(seeds: Seq<Seq<u8>>, program: Seq<u8>) -> Option<(Seq<u8>, u8)>;

pub open spec fn seeds_view(seeds: Seq<Vec<u8>>) -> Seq<Seq<u8>> {
    seeds.map_values(|s: Vec<u8>| s@)
}

pub open spec fn derived_view(d: Option<(Identifier, u8)>) -> Option<(Seq<u8>, u8)> {
    match d {
        Some((k, bump)) => Some((k@, bump)),
        None => None,
    }
}

/// The largest account data length the ledger permits.
pub const MAX_DATA_LENGTH: usize = 10485760;

/// The rent-exempt floor of an account holding `data_len` bytes, under the
/// ledger's default rent: 128 bytes of overhead, 3480 lamports per byte-year,
/// two years of exemption.
pub open spec fn rent_floor(data_len: nat) -> nat {
    (128 + data_len) * 6960
}

/// Relies on `Pubkey::try_find_program_address`: it hashes the seeds, a bump
/// and the program address, and returns the first address off the curve,
/// trying bumps from 255 down; the result depends on its arguments alone.
#[verifier::external_body]
pub(crate) fn find_program_address(seeds: &Vec<Vec<u8>>, program_id: &Identifier) -> (r: Option<(Identifier, u8)>)
    ensures
        derived_view(r) == program_address_of(seeds_view(seeds@), program_id@),
{
    let slices: Vec<&[u8]> = seeds.iter().map(|s| s.as_slice()).collect();
    let program = anchor_lang::solana_program::pubkey::Pubkey::new_from_array(program_id.bytes);
    anchor_lang::solana_program::pubkey::Pubkey::try_find_program_address(&slices, &program)
        .map(|(k, bump)| (Identifier::new(k.to_bytes()), bump))
}

/// Relies on `Rent::minimum_balance` of `Rent::default()`:
/// `((128 + data_len) * 3480) as f64 * 2.0`, exact below 2^53.
#[verifier::external_body]
pub(crate) fn minimum_balance(data_len: usize) -> (r: u64)
    requires
        data_len <= MAX_DATA_LENGTH,
    ensures
        r == rent_floor(data_len as nat),
{
    anchor_lang::solana_program::rent::Rent::default().minimum_balance(data_len)
}

} // verus!
