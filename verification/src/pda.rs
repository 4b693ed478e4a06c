use anchor_lang::prelude::Pubkey;
use vstd::prelude::*;

use crate::address::Address;
use crate::programs::{associated_token_program_id, spec_associated_token_program_id};

verus! {

/// Name for what `Pubkey::create_program_address` gives for the seeds and
/// program id (each taken as bytes): `Some` of the derived address where it
/// returns `Ok`, `None` where it returns an error.
pub uninterp spec fn spec_create_program_address(seeds: Seq<Seq<u8>>, program_id: Seq<u8>) -> Option<
    Seq<u8>,
>;

/// The bump seed that the search over bumps `b, b - 1, ..., 1` finds first:
/// the largest bump in that range whose one-byte seed, appended to `seeds`,
/// gives a program address.
pub open spec fn first_viable_bump(seeds: Seq<Seq<u8>>, program_id: Seq<u8>, b: nat) -> Option<u8>
    decreases b,
{
    if b == 0 {
        None
    } else if spec_create_program_address(seeds.push(seq![b as u8]), program_id) is Some {
        Some(b as u8)
    } else {
        first_viable_bump(seeds, program_id, (b - 1) as nat)
    }
}

/// The canonical bump of `seeds` under `program_id`: the largest bump in
/// `1..=255` that gives a program address, if there is one.
pub open spec fn canonical_bump(seeds: Seq<Seq<u8>>, program_id: Seq<u8>) -> Option<u8> {
    first_viable_bump(seeds, program_id, 255)
}

/// The address that the canonical bump derives, with that bump.
pub open spec fn spec_find_program_address(seeds: Seq<Seq<u8>>, program_id: Seq<u8>) -> Option<
    (Seq<u8>, u8),
> {
    match canonical_bump(seeds, program_id) {
        Some(b) => Some(
            (spec_create_program_address(seeds.push(seq![b]), program_id).unwrap(), b),
        ),
        None => None,
    }
}

/// Calls `Pubkey::create_program_address`. Claimed: its result is the named
/// [`spec_create_program_address`] of the seeds and program id.
#[verifier::external_body]
pub(crate) fn create_program_address(seeds: &Vec<Vec<u8>>, program_id: &Address) -> (r: Option<
    Address,
>)
    ensures
        r matches Some(a) ==> spec_create_program_address(seeds.deep_view(), program_id@) == Some(
            a@,
        ),
        r is None ==> spec_create_program_address(seeds.deep_view(), program_id@) is None,
{
    let slices: Vec<&[u8]> = seeds.iter().map(|s| s.as_slice()).collect();
    match Pubkey::create_program_address(&slices, &Pubkey::new_from_array(program_id.bytes)) {
        Ok(key) => Some(Address { bytes: key.to_bytes() }),
        Err(_) => None,
    }
}

/// Calls `Pubkey::try_find_program_address`. Claimed, as its source shows:
/// it tries the bumps 255 down to 1 with `create_program_address` and returns
/// the first address found with its bump, or `None` when no bump works.
#[verifier::external_body]
pub(crate) fn try_find_program_address(seeds: &Vec<Vec<u8>>, program_id: &Address) -> (r: Option<
    (Address, u8),
>)
    ensures
        r matches Some((a, b)) ==> spec_find_program_address(seeds.deep_view(), program_id@)
            == Some((a@, b)),
        r is None ==> spec_find_program_address(seeds.deep_view(), program_id@) is None,
{
    let slices: Vec<&[u8]> = seeds.iter().map(|s| s.as_slice()).collect();
    match Pubkey::try_find_program_address(&slices, &Pubkey::new_from_array(program_id.bytes)) {
        Some((key, bump)) => Some((Address { bytes: key.to_bytes() }, bump)),
        None => None,
    }
}

/// A byte vector's deep view is its view.
pub proof fn lemma_bytes_deep_view(v: Vec<u8>)
    ensures
        v.deep_view() == v@,
{
    assert(v.deep_view() =~= v@);
}

/// The associated token account address of `wallet` for `mint` under
/// `token_program`: the program address that the Associated Token Account
/// program derives from the seeds `[wallet, token_program, mint]`.
pub open spec fn spec_associated_token_address(wallet: Seq<u8>, mint: Seq<u8>, token_program: Seq<u8>) -> Option<
    Seq<u8>,
> {
    match spec_find_program_address(
        seq![wallet, token_program, mint],
        spec_associated_token_program_id(),
    ) {
        Some((address, _)) => Some(address),
        None => None,
    }
}

/// Derives the associated token account address of `wallet` for `mint` under
/// `token_program`; `None` where no bump seed gives a program address.
pub fn associated_token_address(wallet: &Address, mint: &Address, token_program: &Address) -> (r:
    Option<Address>)
    ensures
        r matches Some(a) ==> spec_associated_token_address(wallet@, mint@, token_program@) == Some(
            a@,
        ),
        r is None ==> spec_associated_token_address(wallet@, mint@, token_program@) is None,
{
    let mut seeds: Vec<Vec<u8>> = Vec::new();
    seeds.push(wallet.to_vec());
    seeds.push(token_program.to_vec());
    seeds.push(mint.to_vec());
    proof {
        lemma_bytes_deep_view(seeds@[0]);
        lemma_bytes_deep_view(seeds@[1]);
        lemma_bytes_deep_view(seeds@[2]);
    }
    assert(seeds.deep_view() =~= seq![wallet@, token_program@, mint@]);
    match try_find_program_address(&seeds, &associated_token_program_id()) {
        Some((address, _)) => Some(address),
        None => None,
    }
}

} // verus!
