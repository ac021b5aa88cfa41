//! Derived addresses.
//!
//! A listing lives at an address computed from its seller and its listing id,
//! together with a salt (the bump) that makes the computation come out at an
//! address nobody holds a key for. The address is never trusted as handed in:
//! it is computed again from the record whenever the listing has to sign.
//!
//! The computation itself is the ledger's; this module builds its inputs and
//! states what is relied on of its results.

use crate::address::Address;
use anchor_lang::prelude::Pubkey;
use vstd::bytes::{spec_u64_to_le_bytes, u64_to_le_bytes};
use vstd::prelude::*;

verus! {

/// The identity under which the marketplace is deployed. Addresses are derived
/// under it, so no other program can sign for them.
pub const PROGRAM_ID: [u8; 32] = [
    33, 58, 33, 82, 166, 65, 135, 214, 19, 139, 15, 27, 116, 202, 231, 166,
    230, 248, 25, 190, 230, 35, 169, 0, 254, 59, 161, 174, 109, 199, 31, 107,
];

/// The fixed first seed of every listing address: the ASCII bytes of
/// `listing`.
pub const LISTING_SEED: [u8; 7] = [108, 105, 115, 116, 105, 110, 103];

/// The address and bump that the ledger finds for `seeds` under `program`, if
/// it finds any.
pub uninterp spec fn found_address(seeds: Seq<Seq<u8>>, program: Seq<u8>) -> Option<(Seq<u8>, u8)>;

/// The address that the ledger computes from `seeds`, the bump among them,
/// under `program`; `None` where the seeds give no valid address.
pub uninterp spec fn created_address(seeds: Seq<Seq<u8>>, program: Seq<u8>) -> Option<Seq<u8>>;

/// The seeds as plain byte sequences.
pub open spec fn seed_bytes(seeds: Seq<Vec<u8>>) -> Seq<Seq<u8>> {
    seeds.map_values(|seed: Vec<u8>| seed@)
}

/// The bytes of an optional address.
pub open spec fn address_view(address: Option<Address>) -> Option<Seq<u8>> {
    match address {
        Some(address) => Some(address@),
        None => None,
    }
}

/// The bytes of an optional address with its bump.
pub open spec fn derivation_view(derivation: Option<(Address, u8)>) -> Option<(Seq<u8>, u8)> {
    match derivation {
        Some((address, bump)) => Some((address@, bump)),
        None => None,
    }
}

/// Calls `Pubkey::try_find_program_address`, which searches bumps from 255
/// downwards for the first one at which `Pubkey::create_program_address`
/// accepts the seeds followed by that bump.
///
/// Trusted: the result is a function of the seeds and the program alone, and
/// an address that is found is the one that `create_program_address` gives for
/// the same seeds followed by the bump found.
#[verifier::external_body]
fn try_find_program_address(seeds: &Vec<Vec<u8>>, program: &Address) -> (r: Option<(Address, u8)>)
    ensures
        derivation_view(r) == found_address(seed_bytes(seeds@), program@),
        r matches Some((address, bump)) ==> created_address(
            seed_bytes(seeds@).push(seq![bump]),
            program@,
        ) == Some(address@),
{
    let parts: Vec<&[u8]> = seeds.iter().map(|seed| seed.as_slice()).collect();
    match Pubkey::try_find_program_address(&parts, &Pubkey::new_from_array(program.bytes)) {
        Some((address, bump)) => Some((Address { bytes: address.to_bytes() }, bump)),
        None => None,
    }
}

/// Calls `Pubkey::create_program_address`, which hashes the seeds with the
/// program identity and refuses seeds that are too many or too long, and
/// hashes that are a point on the curve.
///
/// Trusted: the result is a function of the seeds and the program alone.
#[verifier::external_body]
fn create_program_address(seeds: &Vec<Vec<u8>>, program: &Address) -> (r: Option<Address>)
    ensures
        address_view(r) == created_address(seed_bytes(seeds@), program@),
{
    let parts: Vec<&[u8]> = seeds.iter().map(|seed| seed.as_slice()).collect();
    match Pubkey::create_program_address(&parts, &Pubkey::new_from_array(program.bytes)) {
        Ok(address) => Some(Address { bytes: address.to_bytes() }),
        Err(_) => None,
    }
}

/// The seeds of the listing that `seller` opened under `listing_id`: the fixed
/// seed, the seller, and the id in little-endian order.
pub open spec fn listing_seeds(seller: Seq<u8>, listing_id: u64) -> Seq<Seq<u8>> {
    seq![LISTING_SEED@, seller, spec_u64_to_le_bytes(listing_id)]
}

/// The seeds with which the listing signs: its seeds followed by its bump.
pub open spec fn signer_seeds(seller: Seq<u8>, listing_id: u64, bump: u8) -> Seq<Seq<u8>> {
    listing_seeds(seller, listing_id).push(seq![bump])
}

/// The address and bump of the listing that `seller` opens under `listing_id`.
pub open spec fn derived(seller: Address, listing_id: u64) -> Option<(Seq<u8>, u8)> {
    found_address(listing_seeds(seller@, listing_id), PROGRAM_ID@)
}

/// The address that seller, listing id and bump together sign for.
pub open spec fn rederived(seller: Address, listing_id: u64, bump: u8) -> Option<Seq<u8>> {
    created_address(signer_seeds(seller@, listing_id, bump), PROGRAM_ID@)
}

/// The deployment identity as an address.
pub fn program_id() -> (r: Address)
    ensures
        r@ == PROGRAM_ID@,
{
    Address { bytes: PROGRAM_ID }
}

fn listing_seed_vec(seller: &Address, listing_id: u64) -> (seeds: Vec<Vec<u8>>)
    ensures
        seed_bytes(seeds@) == listing_seeds(seller@, listing_id),
{
    let mut seeds: Vec<Vec<u8>> = Vec::new();
    seeds.push(vstd::slice::slice_to_vec(LISTING_SEED.as_slice()));
    seeds.push(seller.to_vec());
    seeds.push(u64_to_le_bytes(listing_id));
    assert(seed_bytes(seeds@) =~= listing_seeds(seller@, listing_id));
    seeds
}

/// Derives the address of the listing that `seller` opens under `listing_id`,
/// and the bump that goes with it. The same seller and id always give the same
/// answer, and an address that is found is the one that `listing_signer_address` gives back
/// for the bump found.
pub fn find_listing_address(seller: &Address, listing_id: u64) -> (r: Option<(Address, u8)>)
    ensures
        derivation_view(r) == derived(*seller, listing_id),
        r matches Some((address, bump)) ==> rederived(*seller, listing_id, bump) == Some(
            address@,
        ),
{
    let seeds = listing_seed_vec(seller, listing_id);
    let program = program_id();
    try_find_program_address(&seeds, &program)
}

/// Computes again the address that `seller`, `listing_id` and `bump` sign for.
pub fn listing_signer_address(seller: &Address, listing_id: u64, bump: u8) -> (r: Option<Address>)
    ensures
        address_view(r) == rederived(*seller, listing_id, bump),
{
    let mut seeds = listing_seed_vec(seller, listing_id);
    let mut salt: Vec<u8> = Vec::new();
    salt.push(bump);
    seeds.push(salt);
    assert(seed_bytes(seeds@) =~= signer_seeds(seller@, listing_id, bump));
    let program = program_id();
    create_program_address(&seeds, &program)
}

} // verus!
