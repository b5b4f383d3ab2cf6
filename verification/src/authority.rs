//! Derived program authorities.
//!
//! The lending market and the governance record each act through a derived
//! address: a key computed from seed bytes and a program id by the host's
//! deterministic-seed mechanism.  The derivation itself is the host
//! library's; its results are named by the uninterpreted functions below
//! and everything that depends on them is verified against those names.

use vstd::prelude::*;
use solana_program::pubkey::Pubkey;
use crate::error::LendingError;
use crate::keys::Key;

verus! {

/// The derived address and bump seed that the search over bump seeds
/// finds for these seeds under this program, if any: a function of the
/// seeds and program bytes alone.
pub uninterp spec fn pda_search_of(seeds: Seq<Seq<u8>>, program: Seq<u8>) -> Option<(Key, u8)>;

/// The derived address that these exact seeds produce under this
/// program, if they produce one: a function of the seeds and program
/// bytes alone.
pub uninterp spec fn pda_of(seeds: Seq<Seq<u8>>, program: Seq<u8>) -> Option<Key>;

/// Relies on the host library's `Pubkey::try_find_program_address`: it
/// searches bump seeds for a derived address off the curve, and its
/// documentation warrants that appending the returned bump seed to the
/// seeds makes `create_program_address` return the same address.
#[verifier::external_body]
fn try_find_program_address(seeds: &Vec<Vec<u8>>, program_id: &Key) -> (r: Option<(Key, u8)>)
    ensures
        r == pda_search_of(seeds.deep_view(), program_id.bytes()),
        r matches Some((k, bump)) ==> pda_of(
            seeds.deep_view().push(seq![bump]),
            program_id.bytes(),
        ) == Some(k),
{
    let seed_refs: Vec<&[u8]> = seeds.iter().map(|s| s.as_slice()).collect();
    let program_bytes: [u8; 32] = program_id.to_bytes().try_into().unwrap();
    let program = Pubkey::from(program_bytes);
    match Pubkey::try_find_program_address(&seed_refs, &program) {
        Some((pk, bump)) => Some((Key::from_bytes(&pk.to_bytes()), bump)),
        None => None,
    }
}

/// Relies on the host library's `Pubkey::create_program_address`: it
/// derives the address for these exact seeds, or fails when the seeds are
/// oversized or the result lies on the curve.
#[verifier::external_body]
fn create_program_address(seeds: &Vec<Vec<u8>>, program_id: &Key) -> (r: Option<Key>)
    ensures
        r == pda_of(seeds.deep_view(), program_id.bytes()),
{
    let seed_refs: Vec<&[u8]> = seeds.iter().map(|s| s.as_slice()).collect();
    let program_bytes: [u8; 32] = program_id.to_bytes().try_into().unwrap();
    let program = Pubkey::from(program_bytes);
    match Pubkey::create_program_address(&seed_refs, &program) {
        Ok(pk) => Some(Key::from_bytes(&pk.to_bytes())),
        Err(_) => None,
    }
}

/// Finds the authority derived from a lending market key: the derived
/// address and the bump seed that reaches it.
pub fn find_authority_bump_seed(program_id: &Key, my_key: &Key) -> (r: Option<(Key, u8)>)
    ensures
        r == pda_search_of(seq![my_key.bytes()], program_id.bytes()),
        r matches Some((k, bump)) ==> pda_of(
            seq![my_key.bytes(), seq![bump]],
            program_id.bytes(),
        ) == Some(k),
{
    let mut seeds: Vec<Vec<u8>> = Vec::new();
    seeds.push(my_key.to_bytes());
    proof {
        assert(seeds.deep_view() =~~= seq![my_key.bytes()]);
        assert(seeds.deep_view().push(seq![pda_search_of(
            seq![my_key.bytes()],
            program_id.bytes(),
        )->Some_0.1]) =~~= seq![my_key.bytes(), seq![pda_search_of(
            seq![my_key.bytes()],
            program_id.bytes(),
        )->Some_0.1]]);
    }
    try_find_program_address(&seeds, program_id)
}

/// Recomputes the authority for a lending market key from its bump seed.
pub fn authority_id(program_id: &Key, my_key: &Key, bump_seed: u8) -> (r: Result<
    Key,
    LendingError,
>)
    ensures
        pda_of(seq![my_key.bytes(), seq![bump_seed]], program_id.bytes()) matches Some(k) ==> r
            == Ok::<Key, LendingError>(k),
        pda_of(seq![my_key.bytes(), seq![bump_seed]], program_id.bytes()) is None ==> r == Err::<
            Key,
            LendingError,
        >(LendingError::InvalidProgramAddress),
{
    let mut seeds: Vec<Vec<u8>> = Vec::new();
    seeds.push(my_key.to_bytes());
    let mut bump: Vec<u8> = Vec::new();
    bump.push(bump_seed);
    seeds.push(bump);
    proof {
        assert(seeds.deep_view() =~~= seq![my_key.bytes(), seq![bump_seed]]);
    }
    match create_program_address(&seeds, program_id) {
        Some(k) => Ok(k),
        None => Err(LendingError::InvalidProgramAddress),
    }
}

/// The fixed seed prefix under which a governance record's address is
/// derived from its governed program.
pub open spec fn spec_governance_seed() -> Seq<u8> {
    seq![103u8, 111u8, 118u8, 101u8, 114u8, 110u8, 97u8, 110u8, 99u8, 101u8]
}

/// The bytes of the governance seed prefix (the ASCII word the host's
/// governance convention uses).
pub fn governance_authority_seed() -> (r: Vec<u8>)
    ensures
        r@ == spec_governance_seed(),
{
    let mut out: Vec<u8> = Vec::new();
    out.push(103);
    out.push(111);
    out.push(118);
    out.push(101);
    out.push(114);
    out.push(110);
    out.push(97);
    out.push(110);
    out.push(99);
    out.push(101);
    proof {
        assert(out@ =~= spec_governance_seed());
    }
    out
}

/// Finds the governance address derived from the fixed prefix and the
/// governed program's key.
pub fn find_governance_address(program_id: &Key, governed_program: &Key) -> (r: Option<(Key, u8)>)
    ensures
        r == pda_search_of(
            seq![spec_governance_seed(), governed_program.bytes()],
            program_id.bytes(),
        ),
{
    let mut seeds: Vec<Vec<u8>> = Vec::new();
    seeds.push(governance_authority_seed());
    seeds.push(governed_program.to_bytes());
    proof {
        assert(seeds.deep_view() =~~= seq![spec_governance_seed(), governed_program.bytes()]);
    }
    try_find_program_address(&seeds, program_id)
}

} // verus!
