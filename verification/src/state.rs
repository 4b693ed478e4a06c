use vstd::prelude::*;

use crate::address::Address;
use crate::pda::lemma_bytes_deep_view;

verus! {

/// The record an escrow account holds: who made the offer, the two mints,
/// how many tokens of `mint_b` the maker wants (`recieve`), and the seed and
/// bump that derive the escrow's address.
#[derive(Clone, Copy, Debug, PartialEq, Eq)]
pub struct EscrowAccount {
    pub seed: u64,
    pub maker: Address,
    pub mint_a: Address,
    pub mint_b: Address,
    pub recieve: u64,
    pub bump: u8,
}

/// The first seed of every escrow address: the bytes of `"escrow"`.
pub open spec fn spec_escrow_tag() -> Seq<u8> {
    seq![101u8, 115, 99, 114, 111, 119]
}

/// The seeds `["escrow", maker, seed as 8 little-endian bytes]` from which an
/// escrow's address is derived.
pub open spec fn spec_escrow_seeds(maker: Seq<u8>, seed: u64) -> Seq<Seq<u8>> {
    seq![spec_escrow_tag(), maker, vstd::bytes::spec_u64_to_le_bytes(seed)]
}

/// The escrow seeds followed by the one-byte bump seed: the seeds with which
/// the program signs for the escrow and checks its address.
pub open spec fn spec_escrow_signer_seeds(maker: Seq<u8>, seed: u64, bump: u8) -> Seq<Seq<u8>> {
    spec_escrow_seeds(maker, seed).push(seq![bump])
}

/// Builds the escrow seeds `["escrow", maker, seed.to_le_bytes()]`.
pub fn escrow_seeds(maker: &Address, seed: u64) -> (r: Vec<Vec<u8>>)
    ensures
        r.deep_view() == spec_escrow_seeds(maker@, seed),
{
    let tag: Vec<u8> = vec![101, 115, 99, 114, 111, 119];
    assert(tag@ =~= spec_escrow_tag());
    let mut r: Vec<Vec<u8>> = Vec::new();
    r.push(tag);
    r.push(maker.to_vec());
    r.push(vstd::bytes::u64_to_le_bytes(seed));
    proof {
        lemma_bytes_deep_view(r@[0]);
        lemma_bytes_deep_view(r@[1]);
        lemma_bytes_deep_view(r@[2]);
    }
    assert(r.deep_view() =~= spec_escrow_seeds(maker@, seed));
    r
}

/// Builds the escrow's signer seeds `["escrow", maker, seed.to_le_bytes(), [bump]]`.
pub fn escrow_signer_seeds(maker: &Address, seed: u64, bump: u8) -> (r: Vec<Vec<u8>>)
    ensures
        r.deep_view() == spec_escrow_signer_seeds(maker@, seed, bump),
{
    let mut r = escrow_seeds(maker, seed);
    let b: Vec<u8> = vec![bump];
    assert(b@ =~= seq![bump]);
    proof {
        lemma_bytes_deep_view(b);
    }
    let ghost before = r.deep_view();
    r.push(b);
    proof {
        lemma_bytes_deep_view(r@[3]);
    }
    assert(r.deep_view() =~= before.push(seq![bump]));
    r
}

} // verus!
