//! The hashes and derived addresses the program takes from outside crates.
use vstd::prelude::*;
use crate::codec::Key;

verus! {

/// The Keccak-256 digest that `solana_program::keccak::hashv` gives for a list
/// of byte strings (the digest of their concatenation).
pub uninterp spec fn keccak256_hashv(parts: Seq<Seq<u8>>) -> Seq<u8>;

/// The address that `mpl_bubblegum::utils::get_asset_id` gives for a tree and
/// a leaf nonce.
pub uninterp spec fn bubblegum_asset_id(tree: Seq<u8>, nonce: u64) -> Seq<u8>;

/// Calls `solana_program::keccak::hashv` on `parts` and returns the digest's
/// 32 bytes. The contract claims only that the digest is a function of the
/// parts; what that function is (Keccak-256) is left to the outside crate.
#[verifier::external_body]
#[allow(deprecated)]
pub(crate) fn keccak_hashv(parts: &Vec<Vec<u8>>) -> (digest: Key)
    ensures
        digest@ == keccak256_hashv(parts.deep_view()),
{
    let slices: Vec<&[u8]> = parts.iter().map(|p| p.as_slice()).collect();
    solana_program::keccak::hashv(&slices).to_bytes()
}

/// Calls `mpl_bubblegum::utils::get_asset_id` on the tree's address and the
/// nonce and returns the asset id's 32 bytes. The contract claims only that
/// the id is a function of the tree and the nonce; the derivation (a program
/// address found by searching bump seeds, which panics in the improbable case
/// that no bump works) is left unsaid.
#[verifier::external_body]
pub(crate) fn get_asset_id(tree: &Key, nonce: u64) -> (id: Key)
    ensures
        id@ == bubblegum_asset_id(tree@, nonce),
{
    let tree = solana_program::pubkey::Pubkey::new_from_array(*tree);
    mpl_bubblegum::utils::get_asset_id(&tree, nonce).to_bytes()
}

} // verus!
