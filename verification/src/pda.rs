//! Program-derived addresses: addresses computed from public seeds and a program's
//! identity, for which no private key exists. Only the program that knows the seeds
//! can act as such an address.

use vstd::prelude::*;
use vstd::bytes::{spec_u64_to_le_bytes, u64_to_le_bytes};
use crate::address::Address;

verus! {

/// What `Pubkey::try_find_program_address` returns for the given seeds and program:
/// the derived address with its bump seed, or `None` when no bump seed yields one.
pub uninterp spec fn found_program_address(seeds: Seq<Seq<u8>>, program_id: Seq<u8>) -> Option<(Seq<u8>, u8)>;

/// What `Pubkey::create_program_address` returns for the given seeds and program:
/// the derived address, or `None` when the seeds derive none.
pub uninterp spec fn created_program_address(seeds: Seq<Seq<u8>>, program_id: Seq<u8>) -> Option<Seq<u8>>;

/// The seeds as plain byte sequences.
pub open spec fn seeds_view(seeds: Seq<Vec<u8>>) -> Seq<Seq<u8>> {
    Seq::new(seeds.len(), |i: int| seeds[i]@)
}

/// The plain value of a derived address with its bump seed.
pub open spec fn found_view(found: Option<(Address, u8)>) -> Option<(Seq<u8>, u8)> {
    match found {
        Some((address, bump)) => Some((address@, bump)),
        None => None,
    }
}

/// The address of a derived address with its bump seed.
pub open spec fn found_address(found: Option<(Seq<u8>, u8)>) -> Option<Seq<u8>> {
    match found {
        Some((address, _)) => Some(address),
        None => None,
    }
}

/// The bump seed of a derived address; zero where none was found.
pub open spec fn found_bump(found: Option<(Seq<u8>, u8)>) -> u8 {
    match found {
        Some((_, bump)) => bump,
        None => 0,
    }
}

/// The plain value of a derived address.
pub open spec fn created_view(created: Option<Address>) -> Option<Seq<u8>> {
    match created {
        Some(address) => Some(address@),
        None => None,
    }
}

/// Calls `anchor_lang::prelude::Pubkey::try_find_program_address`.
///
/// Trusted: the result is a function of the seeds and the program alone, and the
/// address found is the one that `create_program_address` derives from the same
/// seeds followed by the bump seed as a one-byte seed.
#[verifier::external_body]
pub(crate) fn find_program_address(seeds: &Vec<Vec<u8>>, program_id: &Address) -> (found: Option<(Address, u8)>)
    ensures
        found_view(found) == found_program_address(seeds_view(seeds@), program_id@),
        found matches Some((address, bump)) ==> created_program_address(
            seeds_view(seeds@).push(seq![bump]),
            program_id@,
        ) == Some(address@),
{
    let parts: Vec<&[u8]> = seeds.iter().map(|seed| seed.as_slice()).collect();
    let program = anchor_lang::prelude::Pubkey::new_from_array(program_id.bytes);
    anchor_lang::prelude::Pubkey::try_find_program_address(&parts, &program)
        .map(|(key, bump)| (Address { bytes: key.to_bytes() }, bump))
}

/// Calls `anchor_lang::prelude::Pubkey::create_program_address`.
///
/// Trusted: the result is a function of the seeds and the program alone. Every
/// failure of the outside function is reported as `None`.
#[verifier::external_body]
pub(crate) fn create_program_address(seeds: &Vec<Vec<u8>>, program_id: &Address) -> (created: Option<Address>)
    ensures
        created_view(created) == created_program_address(seeds_view(seeds@), program_id@),
{
    let parts: Vec<&[u8]> = seeds.iter().map(|seed| seed.as_slice()).collect();
    let program = anchor_lang::prelude::Pubkey::new_from_array(program_id.bytes);
    anchor_lang::prelude::Pubkey::create_program_address(&parts, &program)
        .ok()
        .map(|key| Address { bytes: key.to_bytes() })
}

/// The bytes of the word "offer", the first seed of every offer record.
pub open spec fn offer_seed_prefix() -> Seq<u8> {
    seq![111u8, 102u8, 102u8, 101u8, 114u8]
}

/// The seeds from which the address of an offer record is derived: the word
/// "offer", the maker's address, and the offer's identifier in little-endian bytes.
pub open spec fn offer_seeds(maker: Seq<u8>, id: u64) -> Seq<Seq<u8>> {
    seq![offer_seed_prefix(), maker, spec_u64_to_le_bytes(id)]
}

/// The seeds with which the program acts as an offer record: the seeds of the
/// record's address, followed by the record's bump seed.
pub open spec fn offer_signer_seeds(maker: Seq<u8>, id: u64, bump: u8) -> Seq<Seq<u8>> {
    offer_seeds(maker, id).push(seq![bump])
}

/// The address of the associated token program, under which the addresses of
/// token accounts are derived.
pub open spec fn associated_token_program() -> Seq<u8> {
    seq![
        140u8, 151u8, 37u8, 143u8, 78u8, 36u8, 137u8, 241u8, 187u8, 61u8, 16u8, 41u8, 20u8, 142u8, 13u8, 131u8,
        11u8, 90u8, 19u8, 153u8, 218u8, 255u8, 16u8, 132u8, 4u8, 142u8, 123u8, 216u8, 219u8, 233u8, 248u8, 89u8,
    ]
}

/// The address of the token program.
pub open spec fn token_program() -> Seq<u8> {
    seq![
        6u8, 221u8, 246u8, 225u8, 215u8, 101u8, 161u8, 147u8, 217u8, 203u8, 225u8, 70u8, 206u8, 235u8, 121u8, 172u8,
        28u8, 180u8, 133u8, 237u8, 95u8, 91u8, 55u8, 145u8, 58u8, 140u8, 245u8, 133u8, 126u8, 255u8, 0u8, 169u8,
    ]
}

/// The address of the token program in its extended edition.
pub open spec fn token_2022_program() -> Seq<u8> {
    seq![
        6u8, 221u8, 246u8, 225u8, 238u8, 117u8, 143u8, 222u8, 24u8, 66u8, 93u8, 188u8, 228u8, 108u8, 205u8, 218u8,
        182u8, 26u8, 252u8, 77u8, 131u8, 185u8, 13u8, 39u8, 254u8, 189u8, 249u8, 40u8, 216u8, 161u8, 139u8, 252u8,
    ]
}

/// The seeds from which the address of a wallet's token account for one asset
/// type is derived.
pub open spec fn associated_token_seeds(wallet: Seq<u8>, token_program: Seq<u8>, mint: Seq<u8>) -> Seq<Seq<u8>> {
    seq![wallet, token_program, mint]
}

/// The address of the token account that `wallet` holds for the asset `mint` under
/// `token_program`, or `None` when the derivation finds none.
pub open spec fn associated_token_address(wallet: Seq<u8>, mint: Seq<u8>, token_program: Seq<u8>) -> Option<
    Seq<u8>,
> {
    found_address(
        found_program_address(associated_token_seeds(wallet, token_program, mint), associated_token_program()),
    )
}

/// The address of the associated token program.
pub fn associated_token_program_id() -> (id: Address)
    ensures
        id@ == associated_token_program(),
{
    let id = Address {
        bytes: [
            140, 151, 37, 143, 78, 36, 137, 241, 187, 61, 16, 41, 20, 142, 13, 131,
            11, 90, 19, 153, 218, 255, 16, 132, 4, 142, 123, 216, 219, 233, 248, 89,
        ],
    };
    id
}

/// The address of the token program.
pub fn token_program_id() -> (id: Address)
    ensures
        id@ == token_program(),
{
    let id = Address {
        bytes: [
            6, 221, 246, 225, 215, 101, 161, 147, 217, 203, 225, 70, 206, 235, 121, 172,
            28, 180, 133, 237, 95, 91, 55, 145, 58, 140, 245, 133, 126, 255, 0, 169,
        ],
    };
    id
}

/// The address of the token program in its extended edition.
pub fn token_2022_program_id() -> (id: Address)
    ensures
        id@ == token_2022_program(),
{
    let id = Address {
        bytes: [
            6, 221, 246, 225, 238, 117, 143, 222, 24, 66, 93, 188, 228, 108, 205, 218,
            182, 26, 252, 77, 131, 185, 13, 39, 254, 189, 249, 40, 216, 161, 139, 252,
        ],
    };
    id
}

/// The address of the system program, which keeps every account that stores
/// nothing: its bytes are all zero.
pub open spec fn system_program() -> Address {
    Address {
        bytes: [
            0u8, 0u8, 0u8, 0u8, 0u8, 0u8, 0u8, 0u8, 0u8, 0u8, 0u8, 0u8, 0u8, 0u8, 0u8, 0u8,
            0u8, 0u8, 0u8, 0u8, 0u8, 0u8, 0u8, 0u8, 0u8, 0u8, 0u8, 0u8, 0u8, 0u8, 0u8, 0u8,
        ],
    }
}

/// The address of the system program.
#[verifier::when_used_as_spec(system_program)]
pub fn system_program_id() -> (id: Address)
    ensures
        id == system_program(),
{
    Address {
        bytes: [
            0u8, 0u8, 0u8, 0u8, 0u8, 0u8, 0u8, 0u8, 0u8, 0u8, 0u8, 0u8, 0u8, 0u8, 0u8, 0u8,
            0u8, 0u8, 0u8, 0u8, 0u8, 0u8, 0u8, 0u8, 0u8, 0u8, 0u8, 0u8, 0u8, 0u8, 0u8, 0u8,
        ],
    }
}

/// Whether `program` is one of the two token programs.
pub open spec fn is_token_program(program: Address) -> bool {
    program@ == token_program() || program@ == token_2022_program()
}

/// Tells whether `program` is one of the two token programs.
pub fn check_token_program(program: &Address) -> (known: bool)
    ensures
        known == is_token_program(*program),
{
    program.same(&token_program_id()) || program.same(&token_2022_program_id())
}

/// Builds the seeds of an offer record's address.
fn build_offer_seeds(maker: &Address, id: u64) -> (seeds: Vec<Vec<u8>>)
    ensures
        seeds_view(seeds@) == offer_seeds(maker@, id),
{
    let mut prefix: Vec<u8> = Vec::new();
    prefix.push(111u8);
    prefix.push(102u8);
    prefix.push(102u8);
    prefix.push(101u8);
    prefix.push(114u8);
    let mut seeds: Vec<Vec<u8>> = Vec::new();
    seeds.push(prefix);
    seeds.push(maker.to_vec());
    seeds.push(u64_to_le_bytes(id));
    assert(seeds_view(seeds@) =~~= offer_seeds(maker@, id));
    seeds
}

/// Derives the address of the offer record that `maker` opens under `id`, with the
/// bump seed that makes the address one without a private key.
pub fn find_offer_address(program_id: &Address, maker: &Address, id: u64) -> (found: Option<(Address, u8)>)
    ensures
        found_view(found) == found_program_address(offer_seeds(maker@, id), program_id@),
        found matches Some((address, bump)) ==> created_program_address(
            offer_signer_seeds(maker@, id, bump),
            program_id@,
        ) == Some(address@),
{
    let seeds = build_offer_seeds(maker, id);
    find_program_address(&seeds, program_id)
}

/// Derives the address as which the program acts when it presents the seeds of the
/// offer record of `maker` and `id` together with `bump`.
pub fn derive_offer_authority(program_id: &Address, maker: &Address, id: u64, bump: u8) -> (authority: Option<
    Address,
>)
    ensures
        created_view(authority) == created_program_address(offer_signer_seeds(maker@, id, bump), program_id@),
{
    let mut seeds = build_offer_seeds(maker, id);
    let ghost before = seeds_view(seeds@);
    let mut last: Vec<u8> = Vec::new();
    last.push(bump);
    seeds.push(last);
    assert(seeds_view(seeds@) =~~= before.push(seq![bump]));
    create_program_address(&seeds, program_id)
}

/// Derives the address of the token account that `wallet` holds for the asset
/// `mint` under `token_program`.
pub fn find_associated_token_address(wallet: &Address, mint: &Address, token_program: &Address) -> (found: Option<
    Address,
>)
    ensures
        created_view(found) == associated_token_address(wallet@, mint@, token_program@),
{
    let mut seeds: Vec<Vec<u8>> = Vec::new();
    seeds.push(wallet.to_vec());
    seeds.push(token_program.to_vec());
    seeds.push(mint.to_vec());
    assert(seeds_view(seeds@) =~~= associated_token_seeds(wallet@, token_program@, mint@));
    match find_program_address(&seeds, &associated_token_program_id()) {
        Some((address, _)) => Some(address),
        None => None,
    }
}

} // verus!
