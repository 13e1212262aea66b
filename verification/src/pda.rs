//! Derived addresses. Every record lives at an address that is a function of a
//! fixed tag and of the identities or the nonce it belongs to, so that anyone
//! who knows those inputs can find the record again.

use vstd::prelude::*;
use vstd::bytes::{spec_u64_to_le_bytes, u64_to_le_bytes};
use crate::pubkey::{Pubkey, lemma_pubkey_by_bytes};

verus! {

/// The address that `program_id` derives from `seeds`, with the bump seed that
/// the search settled on, or `None` when the seeds admit no address.
pub uninterp spec fn program_address(seeds: Seq<Seq<u8>>, program_id: Seq<u8>) -> Option<(Seq<u8>, u8)>;

/// A derivation result by its bytes.
pub open spec fn derived_view(derived: Option<(Pubkey, u8)>) -> Option<(Seq<u8>, u8)> {
    match derived {
        Some((key, bump)) => Some((key@, bump)),
        None => None,
    }
}

/// Calls `Pubkey::try_find_program_address` of `anchor_lang`'s prelude. Off
/// chain that function hashes the seeds, a bump seed and the program id, and
/// walks the bump seed down from 255 until the hash is no curve point; it reads
/// nothing but its arguments and does not panic. The contract only gives its
/// result the name `program_address`.
#[verifier::external_body]
fn try_find_program_address(seeds: &Vec<Vec<u8>>, program_id: &Pubkey) -> (found: Option<(Pubkey, u8)>)
    ensures
        derived_view(found) == program_address(seeds.deep_view(), program_id@),
{
    let mut parts: Vec<&[u8]> = Vec::new();
    for seed in seeds {
        parts.push(seed.as_slice());
    }
    let id = anchor_lang::prelude::Pubkey::new_from_array(program_id.bytes);
    match anchor_lang::prelude::Pubkey::try_find_program_address(&parts, &id) {
        Some((key, bump)) => Some((Pubkey { bytes: key.to_bytes() }, bump)),
        None => None,
    }
}

/// The tag of the registry, `global_config` in ASCII.
pub open spec fn global_config_tag() -> Seq<u8> {
    seq![103u8, 108u8, 111u8, 98u8, 97u8, 108u8, 95u8, 99u8, 111u8, 110u8, 102u8, 105u8, 103u8]
}

/// The tag of fund delegation records, `rbf_auth` in ASCII.
pub open spec fn rbf_auth_tag() -> Seq<u8> {
    seq![114u8, 98u8, 102u8, 95u8, 97u8, 117u8, 116u8, 104u8]
}

/// The tag of funds, `rbf` in ASCII.
pub open spec fn rbf_tag() -> Seq<u8> {
    seq![114u8, 98u8, 102u8]
}

/// The tag of vault delegation records, `vault_auth` in ASCII.
pub open spec fn vault_auth_tag() -> Seq<u8> {
    seq![118u8, 97u8, 117u8, 108u8, 116u8, 95u8, 97u8, 117u8, 116u8, 104u8]
}

/// The tag of vaults, `vault` in ASCII.
pub open spec fn vault_tag() -> Seq<u8> {
    seq![118u8, 97u8, 117u8, 108u8, 116u8]
}

/// The seeds of the registry: its tag alone.
pub open spec fn global_config_seeds() -> Seq<Seq<u8>> {
    seq![global_config_tag()]
}

/// The seeds of a creator's fund delegation record.
pub open spec fn rbf_auth_seeds(creator: Pubkey) -> Seq<Seq<u8>> {
    seq![rbf_auth_tag(), creator@]
}

/// The seeds of the fund that `creator` makes with `nonce`: the nonce enters as
/// its eight little-endian bytes.
pub open spec fn rbf_seeds(creator: Pubkey, nonce: u64) -> Seq<Seq<u8>> {
    seq![rbf_tag(), creator@, spec_u64_to_le_bytes(nonce)]
}

/// The seeds of a creator's vault delegation record.
pub open spec fn vault_auth_seeds(creator: Pubkey) -> Seq<Seq<u8>> {
    seq![vault_auth_tag(), creator@]
}

/// The seeds of the vault of the fund at `rbf`.
pub open spec fn vault_seeds(rbf: Pubkey) -> Seq<Seq<u8>> {
    seq![vault_tag(), rbf@]
}

/// The bump seed under which `key` is the derived address, if it is the derived
/// address at all.
pub open spec fn matching_bump(key: Pubkey, derived: Option<(Seq<u8>, u8)>) -> Option<u8> {
    match derived {
        Some((address, bump)) => if address == key@ {
            Some(bump)
        } else {
            None
        },
        None => None,
    }
}

/// Holds a supplied address against a derivation result.
pub fn check_derived(key: &Pubkey, derived: &Option<(Pubkey, u8)>) -> (bump: Option<u8>)
    ensures
        bump == matching_bump(*key, derived_view(*derived)),
{
    match derived {
        Some((address, bump)) => {
            proof {
                lemma_pubkey_by_bytes(*address, *key);
            }
            if *address == *key {
                Some(*bump)
            } else {
                None
            }
        },
        None => None,
    }
}

fn seeds_of_one(tag: Vec<u8>) -> (seeds: Vec<Vec<u8>>)
    ensures
        seeds.deep_view() == seq![tag@],
{
    let mut seeds: Vec<Vec<u8>> = Vec::new();
    seeds.push(tag);
    assert(seeds.deep_view() =~~= seq![tag@]);
    seeds
}

fn seeds_of_two(tag: Vec<u8>, second: Vec<u8>) -> (seeds: Vec<Vec<u8>>)
    ensures
        seeds.deep_view() == seq![tag@, second@],
{
    let mut seeds: Vec<Vec<u8>> = Vec::new();
    seeds.push(tag);
    seeds.push(second);
    assert(seeds.deep_view() =~~= seq![tag@, second@]);
    seeds
}

fn seeds_of_three(tag: Vec<u8>, second: Vec<u8>, third: Vec<u8>) -> (seeds: Vec<Vec<u8>>)
    ensures
        seeds.deep_view() == seq![tag@, second@, third@],
{
    let mut seeds: Vec<Vec<u8>> = Vec::new();
    seeds.push(tag);
    seeds.push(second);
    seeds.push(third);
    assert(seeds.deep_view() =~~= seq![tag@, second@, third@]);
    seeds
}

/// The address of the registry under `program_id`.
pub fn find_global_config_address(program_id: &Pubkey) -> (found: Option<(Pubkey, u8)>)
    ensures
        derived_view(found) == program_address(global_config_seeds(), program_id@),
{
    let tag: Vec<u8> = vec![103u8, 108u8, 111u8, 98u8, 97u8, 108u8, 95u8, 99u8, 111u8, 110u8, 102u8, 105u8, 103u8];
    assert(tag@ =~= global_config_tag());
    let seeds = seeds_of_one(tag);
    try_find_program_address(&seeds, program_id)
}

/// The address of `creator`'s fund delegation record under `program_id`.
pub fn find_rbf_auth_address(creator: &Pubkey, program_id: &Pubkey) -> (found: Option<(Pubkey, u8)>)
    ensures
        derived_view(found) == program_address(rbf_auth_seeds(*creator), program_id@),
{
    let tag: Vec<u8> = vec![114u8, 98u8, 102u8, 95u8, 97u8, 117u8, 116u8, 104u8];
    assert(tag@ =~= rbf_auth_tag());
    let seeds = seeds_of_two(tag, creator.to_vec());
    try_find_program_address(&seeds, program_id)
}

/// The address of the fund that `creator` makes with `nonce` under `program_id`.
pub fn find_rbf_address(creator: &Pubkey, nonce: u64, program_id: &Pubkey) -> (found: Option<(Pubkey, u8)>)
    ensures
        derived_view(found) == program_address(rbf_seeds(*creator, nonce), program_id@),
{
    let tag: Vec<u8> = vec![114u8, 98u8, 102u8];
    assert(tag@ =~= rbf_tag());
    let seeds = seeds_of_three(tag, creator.to_vec(), u64_to_le_bytes(nonce));
    try_find_program_address(&seeds, program_id)
}

/// The address of `creator`'s vault delegation record under `program_id`.
pub fn find_vault_auth_address(creator: &Pubkey, program_id: &Pubkey) -> (found: Option<(Pubkey, u8)>)
    ensures
        derived_view(found) == program_address(vault_auth_seeds(*creator), program_id@),
{
    let tag: Vec<u8> = vec![118u8, 97u8, 117u8, 108u8, 116u8, 95u8, 97u8, 117u8, 116u8, 104u8];
    assert(tag@ =~= vault_auth_tag());
    let seeds = seeds_of_two(tag, creator.to_vec());
    try_find_program_address(&seeds, program_id)
}

/// The address of the vault of the fund at `rbf` under `program_id`.
pub fn find_vault_address(rbf: &Pubkey, program_id: &Pubkey) -> (found: Option<(Pubkey, u8)>)
    ensures
        derived_view(found) == program_address(vault_seeds(*rbf), program_id@),
{
    let tag: Vec<u8> = vec![118u8, 97u8, 117u8, 108u8, 116u8];
    assert(tag@ =~= vault_tag());
    let seeds = seeds_of_two(tag, rbf.to_vec());
    try_find_program_address(&seeds, program_id)
}

} // verus!
