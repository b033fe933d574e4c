//! The instructions the program sends to the Bubblegum program: which
//! accounts go with them, in which order and with which rights, and the bytes
//! of their data.
use vstd::prelude::*;
use vstd::bytes::{spec_u32_to_le_bytes, spec_u64_to_le_bytes};
use crate::cnft::{encode_metadata_args, metadata_args_bytes, metadata_encodable, MetadataArgs};
use crate::codec::{append_bytes, append_key, append_u32_le, append_u64_le, Key};

verus! {

broadcast use vstd::array::group_array_axioms;

/// The first eight bytes of Bubblegum's `mint_to_collection_v1` instruction.
pub const MINT_TO_COLLECTION_DISCRIMINATOR: [u8; 8] = [153, 18, 178, 47, 197, 158, 86, 15];

/// The first eight bytes of Bubblegum's `burn` instruction.
pub const BURN_DISCRIMINATOR: [u8; 8] = [116, 110, 29, 56, 107, 219, 42, 93];

/// The address of the no-op program Bubblegum logs through.
pub const NOOP_ID: [u8; 32] = [
    11, 188, 15, 192, 187, 71, 202, 47, 116, 196, 17, 46, 148, 171, 19, 207, 163, 198, 52, 229,
    220, 23, 234, 203, 3, 205, 26, 35, 205, 126, 120, 124,
];

/// An account passed to an instruction, with the rights it is passed with.
#[derive(Clone, Copy, Debug, PartialEq, Eq)]
pub struct AccountMeta {
    pub pubkey: Key,
    pub is_signer: bool,
    pub is_writable: bool,
}

/// An instruction for another program.
#[derive(Clone, Debug, PartialEq, Eq)]
pub struct CpiInstruction {
    pub program_id: Key,
    pub accounts: Vec<AccountMeta>,
    pub data: Vec<u8>,
}

/// The accounts of a `mint_to_collection_v1` instruction.
#[derive(Clone, Copy, Debug, PartialEq, Eq)]
pub struct MintToCollectionAccounts {
    pub bubblegum_program: Key,
    pub tree_authority: Key,
    pub owner: Key,
    pub delegate: Key,
    pub merkle_tree: Key,
    pub payer: Key,
    pub tree_delegate: Key,
    pub collection_authority: Key,
    pub collection_authority_record_pda: Key,
    pub collection_mint: Key,
    pub collection_metadata: Key,
    pub edition_account: Key,
    pub bubblegum_signer: Key,
    pub log_wrapper: Key,
    pub compression_program: Key,
    pub token_metadata_program: Key,
    pub system_program: Key,
}

/// The accounts of a `burn` instruction.
#[derive(Clone, Copy, Debug, PartialEq, Eq)]
pub struct BurnAccounts {
    pub tree_authority: Key,
    pub owner: Key,
    pub delegate: Key,
    pub merkle_tree: Key,
    pub log_wrapper: Key,
    pub compression_program: Key,
    pub system_program: Key,
    pub bubblegum_program: Key,
}

pub open spec fn writable_meta(k: Key, signer: bool) -> AccountMeta {
    AccountMeta { pubkey: k, is_signer: signer, is_writable: true }
}

pub open spec fn readonly_meta(k: Key, signer: bool) -> AccountMeta {
    AccountMeta { pubkey: k, is_signer: signer, is_writable: false }
}

/// Extra accounts, each passed read-only, as signers or not.
pub open spec fn remaining_metas(keys: Seq<Key>, signer: bool) -> Seq<AccountMeta> {
    Seq::new(keys.len(), |i: int| readonly_meta(keys[i], signer))
}

/// The accounts of a `mint_to_collection_v1` instruction, in order, followed by
/// the extra accounts as read-only signers.
pub open spec fn mint_to_collection_metas(a: MintToCollectionAccounts, remaining: Seq<Key>) -> Seq<
    AccountMeta,
> {
    seq![
        writable_meta(a.tree_authority, false),
        readonly_meta(a.owner, false),
        readonly_meta(a.delegate, false),
        writable_meta(a.merkle_tree, false),
        readonly_meta(a.payer, true),
        readonly_meta(a.tree_delegate, true),
        readonly_meta(a.collection_authority, true),
        readonly_meta(a.collection_authority_record_pda, false),
        readonly_meta(a.collection_mint, false),
        writable_meta(a.collection_metadata, false),
        readonly_meta(a.edition_account, false),
        readonly_meta(a.bubblegum_signer, false),
        readonly_meta(a.log_wrapper, false),
        readonly_meta(a.compression_program, false),
        readonly_meta(a.token_metadata_program, false),
        readonly_meta(a.system_program, false),
    ] + remaining_metas(remaining, true)
}

/// The accounts of a `burn` instruction, in order, followed by the extra
/// accounts as read-only non-signers.
pub open spec fn burn_metas(a: BurnAccounts, remaining: Seq<Key>) -> Seq<AccountMeta> {
    seq![
        readonly_meta(a.tree_authority, false),
        readonly_meta(a.owner, false),
        readonly_meta(a.delegate, true),
        writable_meta(a.merkle_tree, false),
        readonly_meta(a.log_wrapper, false),
        readonly_meta(a.compression_program, false),
        readonly_meta(a.system_program, false),
    ] + remaining_metas(remaining, false)
}

/// The data of a `mint_to_collection_v1` instruction.
pub open spec fn mint_to_collection_data(m: MetadataArgs) -> Seq<u8> {
    MINT_TO_COLLECTION_DISCRIMINATOR@ + metadata_args_bytes(m)
}

/// The data of a `burn` instruction.
pub open spec fn burn_data(
    root: Seq<u8>,
    data_hash: Seq<u8>,
    creator_hash: Seq<u8>,
    nonce: u64,
    index: u32,
) -> Seq<u8> {
    BURN_DISCRIMINATOR@ + root + data_hash + creator_hash + spec_u64_to_le_bytes(nonce)
        + spec_u32_to_le_bytes(index)
}

fn push_meta(out: &mut Vec<AccountMeta>, k: &Key, signer: bool, writable: bool)
    ensures
        final(out)@ == old(out)@.push(
            AccountMeta { pubkey: *k, is_signer: signer, is_writable: writable },
        ),
{
    out.push(AccountMeta { pubkey: *k, is_signer: signer, is_writable: writable });
}

/// Appends the extra accounts, each read-only.
fn push_remaining(out: &mut Vec<AccountMeta>, remaining: &Vec<Key>, signer: bool)
    ensures
        final(out)@ == old(out)@ + remaining_metas(remaining@, signer),
{
    let mut i: usize = 0;
    while i < remaining.len()
        invariant
            i <= remaining@.len(),
            out@ == old(out)@ + remaining_metas(remaining@.subrange(0, i as int), signer),
        decreases remaining@.len() - i,
    {
        push_meta(out, &remaining[i], signer, false);
        i += 1;
        assert(out@ =~= old(out)@ + remaining_metas(remaining@.subrange(0, i as int), signer));
    }
    assert(remaining@.subrange(0, remaining@.len() as int) =~= remaining@);
}

/// The `mint_to_collection_v1` instruction that mints a compressed NFT with
/// `metadata` into a collection, for the Bubblegum program at
/// `accounts.bubblegum_program`.
pub fn mint_to_collection_cnft(
    accounts: &MintToCollectionAccounts,
    metadata: &MetadataArgs,
    remaining_accounts: &Vec<Key>,
) -> (ix: CpiInstruction)
    requires
        metadata_encodable(*metadata),
    ensures
        ix.program_id == accounts.bubblegum_program,
        ix.accounts@ == mint_to_collection_metas(*accounts, remaining_accounts@),
        ix.data@ == mint_to_collection_data(*metadata),
{
    let a = accounts;
    let mut metas: Vec<AccountMeta> = Vec::new();
    push_meta(&mut metas, &a.tree_authority, false, true);
    push_meta(&mut metas, &a.owner, false, false);
    push_meta(&mut metas, &a.delegate, false, false);
    push_meta(&mut metas, &a.merkle_tree, false, true);
    push_meta(&mut metas, &a.payer, true, false);
    push_meta(&mut metas, &a.tree_delegate, true, false);
    push_meta(&mut metas, &a.collection_authority, true, false);
    push_meta(&mut metas, &a.collection_authority_record_pda, false, false);
    push_meta(&mut metas, &a.collection_mint, false, false);
    push_meta(&mut metas, &a.collection_metadata, false, true);
    push_meta(&mut metas, &a.edition_account, false, false);
    push_meta(&mut metas, &a.bubblegum_signer, false, false);
    push_meta(&mut metas, &a.log_wrapper, false, false);
    push_meta(&mut metas, &a.compression_program, false, false);
    push_meta(&mut metas, &a.token_metadata_program, false, false);
    push_meta(&mut metas, &a.system_program, false, false);
    let ghost fixed = metas@;
    push_remaining(&mut metas, remaining_accounts, true);
    assert(fixed =~= mint_to_collection_metas(*accounts, Seq::empty()));
    assert(metas@ =~= mint_to_collection_metas(*accounts, remaining_accounts@));
    let encoded = encode_metadata_args(metadata);
    let mut data: Vec<u8> = Vec::new();
    append_bytes(&mut data, MINT_TO_COLLECTION_DISCRIMINATOR.as_slice());
    append_bytes(&mut data, encoded.as_slice());
    assert(data@ =~= mint_to_collection_data(*metadata));
    CpiInstruction { program_id: a.bubblegum_program, accounts: metas, data }
}

/// The `burn` instruction that burns the compressed NFT at leaf `index` of the
/// tree, for the Bubblegum program at `accounts.bubblegum_program`.
pub fn burn_cnft(
    accounts: &BurnAccounts,
    root: &[u8; 32],
    data_hash: &[u8; 32],
    creator_hash: &[u8; 32],
    nonce: u64,
    index: u32,
    remaining_accounts: &Vec<Key>,
) -> (ix: CpiInstruction)
    ensures
        ix.program_id == accounts.bubblegum_program,
        ix.accounts@ == burn_metas(*accounts, remaining_accounts@),
        ix.data@ == burn_data(root@, data_hash@, creator_hash@, nonce, index),
        ix.data@.len() == 116,
{
    let a = accounts;
    let mut metas: Vec<AccountMeta> = Vec::new();
    push_meta(&mut metas, &a.tree_authority, false, false);
    push_meta(&mut metas, &a.owner, false, false);
    push_meta(&mut metas, &a.delegate, true, false);
    push_meta(&mut metas, &a.merkle_tree, false, true);
    push_meta(&mut metas, &a.log_wrapper, false, false);
    push_meta(&mut metas, &a.compression_program, false, false);
    push_meta(&mut metas, &a.system_program, false, false);
    push_remaining(&mut metas, remaining_accounts, false);
    assert(metas@ =~= burn_metas(*accounts, remaining_accounts@));
    let mut data: Vec<u8> = Vec::new();
    append_bytes(&mut data, BURN_DISCRIMINATOR.as_slice());
    append_key(&mut data, root);
    append_key(&mut data, data_hash);
    append_key(&mut data, creator_hash);
    append_u64_le(&mut data, nonce);
    append_u32_le(&mut data, index);
    proof {
        vstd::bytes::lemma_auto_spec_u64_to_from_le_bytes();
        vstd::bytes::lemma_auto_spec_u32_to_from_le_bytes();
    }
    assert(data@ =~= burn_data(root@, data_hash@, creator_hash@, nonce, index));
    assert(root@.len() == 32 && data_hash@.len() == 32 && creator_hash@.len() == 32);
    assert(spec_u64_to_le_bytes(nonce).len() == 8);
    assert(spec_u32_to_le_bytes(index).len() == 4);
    assert(BURN_DISCRIMINATOR@.len() == 8);
    CpiInstruction { program_id: a.bubblegum_program, accounts: metas, data }
}

/// A burn's data is 116 bytes: the discriminator, the root, the data hash
/// and the creator hash in order, then the nonce and the leaf index, which
/// read back little-endian.
pub proof fn law_burn_data_layout(
    root: Seq<u8>,
    data_hash: Seq<u8>,
    creator_hash: Seq<u8>,
    nonce: u64,
    index: u32,
)
    requires
        root.len() == 32,
        data_hash.len() == 32,
        creator_hash.len() == 32,
    ensures
        ({
            let d = burn_data(root, data_hash, creator_hash, nonce, index);
            &&& d.len() == 116
            &&& d.subrange(0, 8) == BURN_DISCRIMINATOR@
            &&& d.subrange(8, 40) == root
            &&& d.subrange(40, 72) == data_hash
            &&& d.subrange(72, 104) == creator_hash
            &&& vstd::bytes::spec_u64_from_le_bytes(d.subrange(104, 112)) == nonce
            &&& vstd::bytes::spec_u32_from_le_bytes(d.subrange(112, 116)) == index
        }),
{
    vstd::bytes::lemma_auto_spec_u64_to_from_le_bytes();
    vstd::bytes::lemma_auto_spec_u32_to_from_le_bytes();
    let d = burn_data(root, data_hash, creator_hash, nonce, index);
    assert(BURN_DISCRIMINATOR@.len() == 8);
    assert(spec_u64_to_le_bytes(nonce).len() == 8);
    assert(spec_u32_to_le_bytes(index).len() == 4);
    assert(d.subrange(0, 8) =~= BURN_DISCRIMINATOR@);
    assert(d.subrange(8, 40) =~= root);
    assert(d.subrange(40, 72) =~= data_hash);
    assert(d.subrange(72, 104) =~= creator_hash);
    assert(d.subrange(104, 112) =~= spec_u64_to_le_bytes(nonce));
    assert(d.subrange(112, 116) =~= spec_u32_to_le_bytes(index));
}

/// A mint's data is the discriminator followed by the metadata's encoding.
pub proof fn law_mint_data_layout(m: MetadataArgs)
    ensures
        mint_to_collection_data(m).subrange(0, 8) == MINT_TO_COLLECTION_DISCRIMINATOR@,
        mint_to_collection_data(m).subrange(8, mint_to_collection_data(m).len() as int)
            == metadata_args_bytes(m),
{
    let d = mint_to_collection_data(m);
    assert(MINT_TO_COLLECTION_DISCRIMINATOR@.len() == 8);
    assert(d.subrange(0, 8) =~= MINT_TO_COLLECTION_DISCRIMINATOR@);
    assert(d.subrange(8, d.len() as int) =~= metadata_args_bytes(m));
}

/// In a mint the tree authority, the tree and the collection metadata (the
/// 1st, 4th and 10th accounts) are the only writable ones, the payer, the
/// tree delegate and the collection authority (the 5th to 7th) the only
/// signers among the sixteen; every extra account is a read-only signer.
pub proof fn law_mint_account_rights(a: MintToCollectionAccounts, remaining: Seq<Key>)
    ensures
        ({
            let m = mint_to_collection_metas(a, remaining);
            &&& m.len() == 16 + remaining.len()
            &&& forall|i: int|
                0 <= i < 16 ==> ((#[trigger] m[i]).is_writable <==> (i == 0 || i == 3 || i == 9))
            &&& forall|i: int| 0 <= i < 16 ==> ((#[trigger] m[i]).is_signer <==> (4 <= i <= 6))
            &&& forall|i: int|
                0 <= i < remaining.len() ==> (#[trigger] m[16 + i]) == AccountMeta {
                    pubkey: remaining[i],
                    is_signer: true,
                    is_writable: false,
                }
            &&& m[1].pubkey == a.owner
            &&& m[2].pubkey == a.delegate
            &&& m[4].pubkey == a.payer
        }),
{
}

/// In a burn the tree is the only writable account and the leaf delegate
/// (the 3rd) the only signer among the seven; every extra account is
/// read-only and not a signer.
pub proof fn law_burn_account_rights(a: BurnAccounts, remaining: Seq<Key>)
    ensures
        ({
            let m = burn_metas(a, remaining);
            &&& m.len() == 7 + remaining.len()
            &&& forall|i: int| 0 <= i < 7 ==> ((#[trigger] m[i]).is_writable <==> i == 3)
            &&& forall|i: int| 0 <= i < 7 ==> ((#[trigger] m[i]).is_signer <==> i == 2)
            &&& forall|i: int|
                0 <= i < remaining.len() ==> (#[trigger] m[7 + i]) == AccountMeta {
                    pubkey: remaining[i],
                    is_signer: false,
                    is_writable: false,
                }
            &&& m[1].pubkey == a.owner
            &&& m[2].pubkey == a.delegate
            &&& m[3].pubkey == a.merkle_tree
        }),
{
}

} // verus!
