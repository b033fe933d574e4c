//! The seeds of the program-derived addresses the program signs for: the
//! membership and its group when they are created, the unique document when a
//! membership NFT is burned, and the membership slot and the tree manager when
//! one is minted.
use vstd::prelude::*;
use vstd::bytes::spec_u32_to_le_bytes;
use crate::codec::{append_bytes, Key};
use crate::config::{MembershipDataType, MembershipType};
use crate::sizing::{membership_seed_tail, membership_seed_tail_bytes, range_seed};

verus! {

/// `b"membership"`.
pub const MEMBERSHIP_SEED: [u8; 10] = [109, 101, 109, 98, 101, 114, 115, 104, 105, 112];

/// `b"membership_group"`.
pub const MEMBERSHIP_GROUP_SEED: [u8; 16] = [
    109, 101, 109, 98, 101, 114, 115, 104, 105, 112, 95, 103, 114, 111, 117, 112,
];

/// `b"membership_slot"`.
pub const MEMBERSHIP_SLOT_SEED: [u8; 15] = [
    109, 101, 109, 98, 101, 114, 115, 104, 105, 112, 95, 115, 108, 111, 116,
];

/// `b"unique_document"`.
pub const UNIQUE_DOCUMENT_SEED: [u8; 15] = [
    117, 110, 105, 113, 117, 101, 95, 100, 111, 99, 117, 109, 101, 110, 116,
];

/// `b"tree"`.
pub const TREE_SEED: [u8; 4] = [116, 114, 101, 101];

/// A copy of `bytes` as one seed.
fn seed_part(bytes: &[u8]) -> (v: Vec<u8>)
    ensures
        v.deep_view() == bytes@,
{
    let mut v: Vec<u8> = Vec::new();
    append_bytes(&mut v, bytes);
    assert(v.deep_view() =~= bytes@);
    v
}

/// The seeds a registration's mint is signed with: those of the membership
/// slot (`membership_slot`, the membership, the registry slot, the bump) and
/// those of the tree manager (`tree`, the bump).
pub fn registration_signer_seeds(
    membership: &Key,
    registry_slot: u32,
    membership_slot_bump: u8,
    merkle_manager_bump: u8,
) -> (seeds: Vec<Vec<Vec<u8>>>)
    ensures
        seeds.deep_view() == seq![
            seq![
                MEMBERSHIP_SLOT_SEED@,
                membership@,
                spec_u32_to_le_bytes(registry_slot),
                seq![membership_slot_bump],
            ],
            seq![TREE_SEED@, seq![merkle_manager_bump]],
        ],
{
    let slot_bytes = vstd::bytes::u32_to_le_bytes(registry_slot);
    let slot_bump = [membership_slot_bump];
    let tree_bump = [merkle_manager_bump];
    let mut slot_seeds: Vec<Vec<u8>> = Vec::new();
    slot_seeds.push(seed_part(MEMBERSHIP_SLOT_SEED.as_slice()));
    slot_seeds.push(seed_part(membership.as_slice()));
    slot_seeds.push(seed_part(slot_bytes.as_slice()));
    slot_seeds.push(seed_part(slot_bump.as_slice()));
    let mut tree_seeds: Vec<Vec<u8>> = Vec::new();
    tree_seeds.push(seed_part(TREE_SEED.as_slice()));
    tree_seeds.push(seed_part(tree_bump.as_slice()));
    assert(slot_bump@ =~= seq![membership_slot_bump]);
    assert(tree_bump@ =~= seq![merkle_manager_bump]);
    assert(slot_seeds.deep_view() =~= seq![
        MEMBERSHIP_SLOT_SEED@,
        membership@,
        spec_u32_to_le_bytes(registry_slot),
        seq![membership_slot_bump],
    ]);
    assert(tree_seeds.deep_view() =~= seq![TREE_SEED@, seq![merkle_manager_bump]]);
    let mut seeds: Vec<Vec<Vec<u8>>> = Vec::new();
    seeds.push(slot_seeds);
    seeds.push(tree_seeds);
    assert(seeds.deep_view() =~= seq![
        seq![
            MEMBERSHIP_SLOT_SEED@,
            membership@,
            spec_u32_to_le_bytes(registry_slot),
            seq![membership_slot_bump],
        ],
        seq![TREE_SEED@, seq![merkle_manager_bump]],
    ]);
    seeds
}

/// The seeds a deletion's burn is signed with: those of the unique document
/// (`unique_document`, the id hash, the link hash, the bump).
pub fn deletion_signer_seeds(id_hash: &Key, link_hash: &Key, unique_hash_bump: u8) -> (seeds: Vec<
    Vec<u8>,
>)
    ensures
        seeds.deep_view() == seq![
            UNIQUE_DOCUMENT_SEED@,
            id_hash@,
            link_hash@,
            seq![unique_hash_bump],
        ],
{
    let bump = [unique_hash_bump];
    let mut seeds: Vec<Vec<u8>> = Vec::new();
    seeds.push(seed_part(UNIQUE_DOCUMENT_SEED.as_slice()));
    seeds.push(seed_part(id_hash.as_slice()));
    seeds.push(seed_part(link_hash.as_slice()));
    seeds.push(seed_part(bump.as_slice()));
    assert(bump@ =~= seq![unique_hash_bump]);
    assert(seeds.deep_view() =~= seq![
        UNIQUE_DOCUMENT_SEED@,
        id_hash@,
        link_hash@,
        seq![unique_hash_bump],
    ]);
    seeds
}

/// The seeds a new membership account is created with: `membership`, the
/// store, the range, the slot and type bytes, the bump.
pub fn membership_signer_seeds(
    store: &Key,
    range: [u32; 2],
    slot: u32,
    membership_type: MembershipType,
    membership_data_type: MembershipDataType,
    bump: u8,
) -> (seeds: Vec<Vec<u8>>)
    ensures
        seeds.deep_view() == seq![
            MEMBERSHIP_SEED@,
            store@,
            spec_u32_to_le_bytes(range[0]) + spec_u32_to_le_bytes(range[1]),
            membership_seed_tail_bytes(slot, membership_type, membership_data_type),
            seq![bump],
        ],
{
    let range_bytes = range_seed(range);
    let tail = membership_seed_tail(slot, membership_type, membership_data_type);
    let bump_bytes = [bump];
    let mut seeds: Vec<Vec<u8>> = Vec::new();
    seeds.push(seed_part(MEMBERSHIP_SEED.as_slice()));
    seeds.push(seed_part(store.as_slice()));
    seeds.push(seed_part(range_bytes.as_slice()));
    seeds.push(seed_part(tail.as_slice()));
    seeds.push(seed_part(bump_bytes.as_slice()));
    assert(bump_bytes@ =~= seq![bump]);
    assert(seeds.deep_view() =~= seq![
        MEMBERSHIP_SEED@,
        store@,
        spec_u32_to_le_bytes(range[0]) + spec_u32_to_le_bytes(range[1]),
        membership_seed_tail_bytes(slot, membership_type, membership_data_type),
        seq![bump],
    ]);
    seeds
}

/// The seeds a new membership group account is created with:
/// `membership_group`, the store, the slot and type bytes, the bump.
pub fn membership_group_signer_seeds(
    store: &Key,
    slot: u32,
    membership_type: MembershipType,
    membership_data_type: MembershipDataType,
    bump: u8,
) -> (seeds: Vec<Vec<u8>>)
    ensures
        seeds.deep_view() == seq![
            MEMBERSHIP_GROUP_SEED@,
            store@,
            membership_seed_tail_bytes(slot, membership_type, membership_data_type),
            seq![bump],
        ],
{
    let tail = membership_seed_tail(slot, membership_type, membership_data_type);
    let bump_bytes = [bump];
    let mut seeds: Vec<Vec<u8>> = Vec::new();
    seeds.push(seed_part(MEMBERSHIP_GROUP_SEED.as_slice()));
    seeds.push(seed_part(store.as_slice()));
    seeds.push(seed_part(tail.as_slice()));
    seeds.push(seed_part(bump_bytes.as_slice()));
    assert(bump_bytes@ =~= seq![bump]);
    assert(seeds.deep_view() =~= seq![
        MEMBERSHIP_GROUP_SEED@,
        store@,
        membership_seed_tail_bytes(slot, membership_type, membership_data_type),
        seq![bump],
    ]);
    seeds
}

/// The bytes of an ASCII word.
pub open spec fn ascii_bytes(word: Seq<char>) -> Seq<u8> {
    word.map_values(|ch: char| ch as u8)
}

/// Each seed word is the ASCII spelling of its name.
pub proof fn law_seed_words()
    ensures
        MEMBERSHIP_SEED@ == ascii_bytes("membership"@),
        MEMBERSHIP_GROUP_SEED@ == ascii_bytes("membership_group"@),
        MEMBERSHIP_SLOT_SEED@ == ascii_bytes("membership_slot"@),
        UNIQUE_DOCUMENT_SEED@ == ascii_bytes("unique_document"@),
        TREE_SEED@ == ascii_bytes("tree"@),
{
    reveal_strlit("membership");
    reveal_strlit("membership_group");
    reveal_strlit("membership_slot");
    reveal_strlit("unique_document");
    reveal_strlit("tree");
    assert(MEMBERSHIP_SEED@ =~= ascii_bytes("membership"@));
    assert(MEMBERSHIP_GROUP_SEED@ =~= ascii_bytes("membership_group"@));
    assert(MEMBERSHIP_SLOT_SEED@ =~= ascii_bytes("membership_slot"@));
    assert(UNIQUE_DOCUMENT_SEED@ =~= ascii_bytes("unique_document"@));
    assert(TREE_SEED@ =~= ascii_bytes("tree"@));
}

} // verus!
