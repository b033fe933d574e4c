//! The membership instructions as state transitions over account data: who
//! the creators of a membership NFT are, how a membership is deleted, and the
//! steps of a registration.
use vstd::prelude::*;
use vstd::bytes::{spec_u16_to_le_bytes, spec_u32_to_le_bytes, spec_u64_from_le_bytes, spec_u64_to_le_bytes};
use vstd::utf8::encode_utf8;
use crate::account::{
    in_sync, leave_slot, slot_after_leave, slot_count, slot_in_bounds, MembershipSyncCheck,
};
use crate::cnft::{
    option_collection_bytes, option_token_standard_bytes, option_u8_bytes, option_uses_bytes,
    token_program_version_tag, creator_bytes, encode_creator, utf8_of, CnftMembership, Collection, Creator, MetadataArgs,
    TokenProgramVersion, TokenStandard,
};
use crate::codec::{append_key, append_u16_le, append_u32_le, append_u64_le, read_u64_le, Key};
use crate::config::AssetBundler;
use crate::cpi::{
    burn_cnft, burn_data, burn_metas, mint_to_collection_cnft, mint_to_collection_data,
    mint_to_collection_metas, BurnAccounts, CpiInstruction, MintToCollectionAccounts,
};
use crate::errors::{HumanshipError, MembershipError};
use crate::group::{
    enroll_in_group, group_after_enroll, group_after_release, group_alive, group_count,
    group_creator, may_manage_group, release_from_group, Authority, MEMBERSHIP_GROUP_ACCOUNT_SIZE,
};
use crate::hashing::{bubblegum_asset_id, get_asset_id, keccak256_hashv, keccak_hashv};

verus! {

broadcast use vstd::array::group_array_axioms;

/// The share, in percent, of a membership's manager in its NFT.
pub const MANAGER_SHARE: u8 = 100;

/// How far apart, in seconds, the chain's clock and a registration's
/// timestamp may be.
pub const REGISTRATION_WINDOW: u32 = 90;

/// Where a Bubblegum tree configuration keeps the number of leaves minted.
pub const TREE_CONFIG_TO_NUM_MINTED: usize = 80;

/// The accounts a membership NFT names as its creators.
#[derive(Clone, Copy, Debug, PartialEq, Eq)]
pub struct MembershipCreatorKeys {
    pub membership_manager: Key,
    pub id_hash: Key,
    pub link_hash: Key,
    pub unique_hash: Key,
    pub membership_slot: Key,
}

/// The accounts a deletion works with, besides the membership and its group.
#[derive(Clone, Copy, Debug, PartialEq, Eq)]
pub struct DeleteMembershipAccounts {
    pub creators: MembershipCreatorKeys,
    pub tree_authority: Key,
    pub merkle_tree: Key,
    pub log_wrapper: Key,
    pub compression_program: Key,
    pub system_program: Key,
    pub bubblegum_program: Key,
}

/// The accounts a registration mints with.
#[derive(Clone, Copy, Debug, PartialEq, Eq)]
pub struct RegisterMembershipAccounts {
    pub creators: MembershipCreatorKeys,
    pub creator: Key,
    pub bubblegum_program: Key,
    pub tree_authority: Key,
    pub merkle_tree: Key,
    pub merkle_manager: Key,
    pub collection_mint: Key,
    pub collection_metadata: Key,
    pub edition_account: Key,
    pub bubblegum_signer: Key,
    pub log_wrapper: Key,
    pub compression_program: Key,
    pub token_metadata_program: Key,
    pub system_program: Key,
}

/// The creators of a membership NFT: the manager with the whole share, then
/// the id hash, the link hash and the unique document with none, and last the
/// membership slot, the only verified one.
pub open spec fn membership_creators_spec(k: MembershipCreatorKeys) -> Seq<Creator> {
    seq![
        Creator { address: k.membership_manager, verified: false, share: MANAGER_SHARE },
        Creator { address: k.id_hash, verified: false, share: 0 },
        Creator { address: k.link_hash, verified: false, share: 0 },
        Creator { address: k.unique_hash, verified: false, share: 0 },
        Creator { address: k.membership_slot, verified: true, share: 0 },
    ]
}

/// The byte strings hashed into a creator hash, one per creator.
pub open spec fn creator_hash_parts(cs: Seq<Creator>) -> Seq<Seq<u8>> {
    Seq::new(cs.len(), |i: int| creator_bytes(cs[i]))
}

/// The burn accounts of a deletion: the NFT is owned by the id hash and
/// delegated to the unique document.
pub open spec fn deletion_burn_accounts(a: DeleteMembershipAccounts) -> BurnAccounts {
    BurnAccounts {
        tree_authority: a.tree_authority,
        owner: a.creators.id_hash,
        delegate: a.creators.unique_hash,
        merkle_tree: a.merkle_tree,
        log_wrapper: a.log_wrapper,
        compression_program: a.compression_program,
        system_program: a.system_program,
        bubblegum_program: a.bubblegum_program,
    }
}

/// The mint accounts of a registration: the NFT goes to the id hash, delegated
/// to the unique document, paid by the signer; the tree manager delegates the
/// tree and has authority over the collection.
pub open spec fn registration_mint_accounts(a: RegisterMembershipAccounts) -> MintToCollectionAccounts {
    MintToCollectionAccounts {
        bubblegum_program: a.bubblegum_program,
        tree_authority: a.tree_authority,
        owner: a.creators.id_hash,
        delegate: a.creators.unique_hash,
        merkle_tree: a.merkle_tree,
        payer: a.creator,
        tree_delegate: a.merkle_manager,
        collection_authority: a.merkle_manager,
        collection_authority_record_pda: a.bubblegum_program,
        collection_mint: a.collection_mint,
        collection_metadata: a.collection_metadata,
        edition_account: a.edition_account,
        bubblegum_signer: a.bubblegum_signer,
        log_wrapper: a.log_wrapper,
        compression_program: a.compression_program,
        token_metadata_program: a.token_metadata_program,
        system_program: a.system_program,
    }
}

/// The chain's clock clamped into the range of a `u32`.
pub open spec fn clock_u32(now: i64) -> int {
    if now < 0 {
        0
    } else if now > u32::MAX {
        u32::MAX as int
    } else {
        now as int
    }
}

/// Whether a registration stamped `timestamp` is fresh at `now`.
pub open spec fn registration_fresh(now: i64, timestamp: u32) -> bool {
    let c = clock_u32(now);
    if c > timestamp {
        c - timestamp <= REGISTRATION_WINDOW
    } else {
        timestamp - c <= REGISTRATION_WINDOW
    }
}

/// The message the membership manager signs for a registration.
pub open spec fn registration_message_bytes(
    timestamp: u32,
    id_hash: Seq<u8>,
    link_hash: Seq<u8>,
    registry_slot: u32,
) -> Seq<u8> {
    spec_u32_to_le_bytes(timestamp) + id_hash + link_hash + spec_u32_to_le_bytes(registry_slot)
}

/// The payload carried in a membership's uri: the version, the number of
/// members the group had registered before, and the timestamp.
pub open spec fn registration_payload_bytes(version: u16, previous_count: u64, timestamp: u32) -> Seq<
    u8,
> {
    spec_u16_to_le_bytes(version) + spec_u64_to_le_bytes(previous_count) + spec_u32_to_le_bytes(
        timestamp,
    )
}

/// The gateway a bundler serves stored metadata from.
pub open spec fn bundler_gateway(b: AssetBundler) -> Seq<char> {
    match b {
        AssetBundler::Arweave => "https://arweave.net/"@,
        AssetBundler::IrysGateway => "https://gateway.irys.xyz/"@,
        AssetBundler::RawTurboDev => "https://turbo.ardrive.dev/raw/"@,
    }
}

/// The uri of a membership NFT: the gateway, the stored metadata's id, and,
/// where there is a payload, `?p=` and the payload's encoding.
pub open spec fn registration_uri_chars(
    b: AssetBundler,
    arweave: Seq<char>,
    has_payload: bool,
    encoded_payload: Seq<char>,
) -> Seq<char> {
    bundler_gateway(b) + arweave + if has_payload {
        "?p="@ + encoded_payload
    } else {
        Seq::empty()
    }
}

/// The membership NFT's metadata, with `uri` and `creators`, in the collection
/// of `collection_mint`.
pub open spec fn registration_metadata_spec(
    m: MetadataArgs,
    uri: Seq<char>,
    creators: Seq<Creator>,
    collection_mint: Key,
) -> bool {
    &&& m.name@ == "Humanship V0"@
    &&& m.symbol@ == "ID"@
    &&& m.uri@ == uri
    &&& m.seller_fee_basis_points == 0
    &&& m.creators@ == creators
    &&& m.primary_sale_happened == false
    &&& m.is_mutable == true
    &&& m.edition_nonce == None::<u8>
    &&& m.collection == Some(Collection { verified: true, key: collection_mint })
    &&& m.uses == None::<crate::cnft::Uses>
    &&& m.token_standard == Some(TokenStandard::NonFungible)
    &&& m.token_program_version == TokenProgramVersion::Original
}

/// The creators of a membership NFT.
pub fn membership_creators(k: &MembershipCreatorKeys) -> (cs: Vec<Creator>)
    ensures
        cs@ == membership_creators_spec(*k),
{
    let mut cs: Vec<Creator> = Vec::new();
    cs.push(Creator { address: k.membership_manager, verified: false, share: MANAGER_SHARE });
    cs.push(Creator { address: k.id_hash, verified: false, share: 0 });
    cs.push(Creator { address: k.link_hash, verified: false, share: 0 });
    cs.push(Creator { address: k.unique_hash, verified: false, share: 0 });
    cs.push(Creator { address: k.membership_slot, verified: true, share: 0 });
    assert(cs@ =~= membership_creators_spec(*k));
    cs
}

/// The creator hash Bubblegum keeps for an NFT: the Keccak digest of each
/// creator's address, verified flag and share.
pub fn creator_hash(creators: &Vec<Creator>) -> (h: Key)
    ensures
        h@ == keccak256_hashv(creator_hash_parts(creators@)),
{
    let mut parts: Vec<Vec<u8>> = Vec::new();
    let mut i: usize = 0;
    while i < creators.len()
        invariant
            i <= creators@.len(),
            parts@.len() == i,
            forall|j: int| 0 <= j < i ==> (#[trigger] parts@[j])@ == creator_bytes(creators@[j]),
        decreases creators@.len() - i,
    {
        parts.push(encode_creator(&creators[i]));
        i += 1;
    }
    assert forall|j: int| 0 <= j < parts@.len() implies #[trigger] parts@[j].deep_view()
        == parts@[j]@ by {
        assert(parts@[j].deep_view() =~= parts@[j]@);
    }
    assert(parts.deep_view() =~= creator_hash_parts(creators@));
    keccak_hashv(&parts)
}

/// Deletes a member from a membership. Where the relayer's view of the slot
/// is stale, nothing changes. Otherwise the slot loses the member and takes
/// `new_hash_bytes`; then, where the signer may manage the group, the group's
/// alive count goes down and the burn of the member's NFT is returned,
/// with the creator hash of the membership's creators; where it may not, the
/// request is refused.
pub fn delete_membership(
    membership_data: &mut Vec<u8>,
    group_data: &mut Vec<u8>,
    accounts: &DeleteMembershipAccounts,
    authority: &Authority,
    registry_slot: u32,
    membership_sync_check: &MembershipSyncCheck,
    new_hash_bytes: &[u8; 7],
    cnft: &CnftMembership,
    remaining_accounts: &Vec<Key>,
) -> (r: Result<CpiInstruction, HumanshipError>)
    requires
        slot_in_bounds(old(membership_data)@, registry_slot),
        in_sync(old(membership_data)@, registry_slot, *membership_sync_check) ==> slot_count(
            old(membership_data)@,
            registry_slot,
        ) > 0,
        old(group_data)@.len() >= MEMBERSHIP_GROUP_ACCOUNT_SIZE,
    ensures
        !in_sync(old(membership_data)@, registry_slot, *membership_sync_check) ==> {
            &&& r == Err::<CpiInstruction, HumanshipError>(
                HumanshipError::Membership(MembershipError::RelayerOutOfSync),
            )
            &&& final(membership_data)@ == old(membership_data)@
            &&& final(group_data)@ == old(group_data)@
        },
        in_sync(old(membership_data)@, registry_slot, *membership_sync_check) ==> {
            &&& final(membership_data)@ == slot_after_leave(
                old(membership_data)@,
                registry_slot,
                new_hash_bytes@,
            )
            &&& !may_manage_group(group_creator(old(group_data)@), *authority) ==> {
                &&& r == Err::<CpiInstruction, HumanshipError>(HumanshipError::General)
                &&& final(group_data)@ == old(group_data)@
            }
            &&& may_manage_group(group_creator(old(group_data)@), *authority) ==> {
                &&& final(group_data)@ == group_after_release(old(group_data)@)
                &&& r matches Ok(ix) && {
                    &&& ix.program_id == accounts.bubblegum_program
                    &&& ix.accounts@ == burn_metas(
                        deletion_burn_accounts(*accounts),
                        remaining_accounts@,
                    )
                    &&& ix.data@ == burn_data(
                        cnft.root@,
                        cnft.data_hash@,
                        keccak256_hashv(
                            creator_hash_parts(membership_creators_spec(accounts.creators)),
                        ),
                        cnft.index as u64,
                        cnft.index,
                    )
                }
            }
        },
{
    let creators = membership_creators(&accounts.creators);
    let hash = creator_hash(&creators);
    match leave_slot(membership_data, registry_slot, membership_sync_check, new_hash_bytes) {
        Ok(()) => {},
        Err(e) => return Err(HumanshipError::Membership(e)),
    }
    match release_from_group(group_data, authority) {
        Ok(()) => {},
        Err(e) => return Err(e),
    }
    let burn_accounts = BurnAccounts {
        tree_authority: accounts.tree_authority,
        owner: accounts.creators.id_hash,
        delegate: accounts.creators.unique_hash,
        merkle_tree: accounts.merkle_tree,
        log_wrapper: accounts.log_wrapper,
        compression_program: accounts.compression_program,
        system_program: accounts.system_program,
        bubblegum_program: accounts.bubblegum_program,
    };
    let ix = burn_cnft(
        &burn_accounts,
        &cnft.root,
        &cnft.data_hash,
        &hash,
        cnft.index as u64,
        cnft.index,
        remaining_accounts,
    );
    Ok(ix)
}

/// Whether a registration stamped `timestamp` is fresh at `now`: the clock,
/// clamped into a `u32`, is at most 90 seconds away from it.
pub fn is_registration_fresh(now: i64, timestamp: u32) -> (r: bool)
    ensures
        r == registration_fresh(now, timestamp),
{
    let clock: u32 = if now < 0 {
        0
    } else if now > u32::MAX as i64 {
        u32::MAX
    } else {
        now as u32
    };
    let dif = if clock > timestamp {
        clock - timestamp
    } else {
        timestamp - clock
    };
    dif <= REGISTRATION_WINDOW
}

/// The message the membership manager signs for a registration: the
/// timestamp, the id hash, the link hash and the registry slot.
pub fn registration_message(timestamp: u32, id_hash: &Key, link_hash: &Key, registry_slot: u32) -> (m:
    Vec<u8>)
    ensures
        m@ == registration_message_bytes(timestamp, id_hash@, link_hash@, registry_slot),
        m@.len() == 72,
{
    proof {
        vstd::bytes::lemma_auto_spec_u32_to_from_le_bytes();
    }
    let mut m: Vec<u8> = Vec::new();
    append_u32_le(&mut m, timestamp);
    assert(m@ =~= spec_u32_to_le_bytes(timestamp));
    append_key(&mut m, id_hash);
    append_key(&mut m, link_hash);
    append_u32_le(&mut m, registry_slot);
    assert(spec_u32_to_le_bytes(timestamp).len() == 4);
    assert(spec_u32_to_le_bytes(registry_slot).len() == 4);
    m
}

/// The payload carried in a membership's uri.
pub fn registration_payload(version: u16, previous_count: u64, timestamp: u32) -> (p: Vec<u8>)
    ensures
        p@ == registration_payload_bytes(version, previous_count, timestamp),
        p@.len() == 14,
{
    proof {
        vstd::bytes::lemma_auto_spec_u16_to_from_le_bytes();
        vstd::bytes::lemma_auto_spec_u32_to_from_le_bytes();
        vstd::bytes::lemma_auto_spec_u64_to_from_le_bytes();
    }
    let mut p: Vec<u8> = Vec::new();
    append_u16_le(&mut p, version);
    assert(p@ =~= spec_u16_to_le_bytes(version));
    append_u64_le(&mut p, previous_count);
    append_u32_le(&mut p, timestamp);
    assert(spec_u16_to_le_bytes(version).len() == 2);
    assert(spec_u64_to_le_bytes(previous_count).len() == 8);
    assert(spec_u32_to_le_bytes(timestamp).len() == 4);
    p
}

/// The first step of a registration. It is refused, with nothing changed,
/// where the request is not fresh, the manager's signature did not check, or
/// the signer may not manage the group. Otherwise the group counts one more
/// member, registered and alive, and the uri payload is returned, carrying the
/// number of members registered before.
pub fn begin_registration(
    group_data: &mut Vec<u8>,
    authority: &Authority,
    now: i64,
    timestamp: u32,
    signature_valid: bool,
    version: u16,
) -> (r: Result<Vec<u8>, HumanshipError>)
    requires
        old(group_data)@.len() >= MEMBERSHIP_GROUP_ACCOUNT_SIZE,
        registration_fresh(now, timestamp) && signature_valid && may_manage_group(
            group_creator(old(group_data)@),
            *authority,
        ) ==> group_count(old(group_data)@) < u64::MAX && group_alive(old(group_data)@) < u64::MAX,
    ensures
        r is Ok <==> registration_fresh(now, timestamp) && signature_valid && may_manage_group(
            group_creator(old(group_data)@),
            *authority,
        ),
        r is Err ==> r == Err::<Vec<u8>, HumanshipError>(HumanshipError::General)
            && final(group_data)@ == old(group_data)@,
        r matches Ok(payload) ==> payload@ == registration_payload_bytes(
            version,
            group_count(old(group_data)@),
            timestamp,
        ) && final(group_data)@ == group_after_enroll(old(group_data)@),
{
    if !is_registration_fresh(now, timestamp) {
        return Err(HumanshipError::General);
    }
    if !signature_valid {
        return Err(HumanshipError::General);
    }
    let previous_count = match enroll_in_group(group_data, authority) {
        Ok(c) => c,
        Err(e) => return Err(e),
    };
    Ok(registration_payload(version, previous_count, timestamp))
}

/// The gateway a bundler serves stored metadata from.
pub fn bundler_gateway_str(b: AssetBundler) -> (s: &'static str)
    ensures
        s@ == bundler_gateway(b),
{
    match b {
        AssetBundler::Arweave => "https://arweave.net/",
        AssetBundler::IrysGateway => "https://gateway.irys.xyz/",
        AssetBundler::RawTurboDev => "https://turbo.ardrive.dev/raw/",
    }
}

/// The uri of a membership NFT.
pub fn registration_uri(
    bundler: AssetBundler,
    arweave: &str,
    payload: &Vec<u8>,
    encoded_payload: &str,
) -> (uri: String)
    ensures
        uri@ == registration_uri_chars(bundler, arweave@, payload@.len() > 0, encoded_payload@),
{
    let mut uri = bundler_gateway_str(bundler).to_owned();
    uri.append(arweave);
    if payload.len() > 0 {
        uri.append("?p=");
        uri.append(encoded_payload);
        assert(uri@ =~= registration_uri_chars(bundler, arweave@, true, encoded_payload@));
    } else {
        assert(uri@ =~= registration_uri_chars(bundler, arweave@, false, encoded_payload@));
    }
    uri
}

/// The metadata of a membership NFT.
pub fn registration_metadata(uri: String, creators: Vec<Creator>, collection_mint: &Key) -> (m:
    MetadataArgs)
    ensures
        registration_metadata_spec(m, uri@, creators@, *collection_mint),
{
    MetadataArgs {
        name: "Humanship V0".to_owned(),
        symbol: "ID".to_owned(),
        uri,
        seller_fee_basis_points: 0,
        creators,
        primary_sale_happened: false,
        is_mutable: true,
        edition_nonce: None,
        collection: Some(Collection { verified: true, key: *collection_mint }),
        uses: None,
        token_standard: Some(TokenStandard::NonFungible),
        token_program_version: TokenProgramVersion::Original,
    }
}

/// The second step of a registration: the `mint_to_collection_v1` instruction
/// that mints the membership NFT, its uri made from the bundler, the stored
/// metadata's id and the encoded payload, the membership slot passed as an
/// extra signer.
pub fn registration_mint(
    accounts: &RegisterMembershipAccounts,
    bundler: AssetBundler,
    arweave: &str,
    payload: &Vec<u8>,
    encoded_payload: &str,
) -> (r: (CpiInstruction, MetadataArgs))
    requires
        encode_utf8(
            registration_uri_chars(bundler, arweave@, payload@.len() > 0, encoded_payload@),
        ).len() <= u32::MAX,
    ensures
        registration_metadata_spec(
            r.1,
            registration_uri_chars(bundler, arweave@, payload@.len() > 0, encoded_payload@),
            membership_creators_spec(accounts.creators),
            accounts.collection_mint,
        ),
        r.0.program_id == accounts.bubblegum_program,
        r.0.accounts@ == mint_to_collection_metas(
            registration_mint_accounts(*accounts),
            seq![accounts.creators.membership_slot],
        ),
        r.0.data@ == mint_to_collection_data(r.1),
{
    let creators = membership_creators(&accounts.creators);
    let uri = registration_uri(bundler, arweave, payload, encoded_payload);
    let metadata = registration_metadata(uri, creators, &accounts.collection_mint);
    proof {
        reveal_strlit("Humanship V0");
        reveal_strlit("ID");
        vstd::utf8::is_ascii_chars_encode_utf8(metadata.name@);
        vstd::utf8::is_ascii_chars_encode_utf8(metadata.symbol@);
        assert(utf8_of(metadata.name).len() == 12);
        assert(utf8_of(metadata.symbol).len() == 2);
    }
    let mint_accounts = MintToCollectionAccounts {
        bubblegum_program: accounts.bubblegum_program,
        tree_authority: accounts.tree_authority,
        owner: accounts.creators.id_hash,
        delegate: accounts.creators.unique_hash,
        merkle_tree: accounts.merkle_tree,
        payer: accounts.creator,
        tree_delegate: accounts.merkle_manager,
        collection_authority: accounts.merkle_manager,
        collection_authority_record_pda: accounts.bubblegum_program,
        collection_mint: accounts.collection_mint,
        collection_metadata: accounts.collection_metadata,
        edition_account: accounts.edition_account,
        bubblegum_signer: accounts.bubblegum_signer,
        log_wrapper: accounts.log_wrapper,
        compression_program: accounts.compression_program,
        token_metadata_program: accounts.token_metadata_program,
        system_program: accounts.system_program,
    };
    let mut remaining: Vec<Key> = Vec::new();
    remaining.push(accounts.creators.membership_slot);
    assert(remaining@ =~= seq![accounts.creators.membership_slot]);
    let ix = mint_to_collection_cnft(&mint_accounts, &metadata, &remaining);
    (ix, metadata)
}

/// The number of leaves a Bubblegum tree configuration records as minted.
pub open spec fn tree_num_minted(tree_data: Seq<u8>) -> u64 {
    spec_u64_from_le_bytes(
        tree_data.subrange(TREE_CONFIG_TO_NUM_MINTED as int, TREE_CONFIG_TO_NUM_MINTED + 8),
    )
}

/// The asset id of the last leaf minted into a tree: the one a registration
/// has just minted.
pub fn registered_asset_id(merkle_tree: &Key, tree_authority_data: &Vec<u8>) -> (id: Key)
    requires
        tree_authority_data@.len() >= TREE_CONFIG_TO_NUM_MINTED + 8,
        tree_num_minted(tree_authority_data@) > 0,
    ensures
        id@ == bubblegum_asset_id(merkle_tree@, (tree_num_minted(tree_authority_data@) - 1) as u64),
{
    let num_minted = read_u64_le(tree_authority_data.as_slice(), TREE_CONFIG_TO_NUM_MINTED);
    get_asset_id(merkle_tree, num_minted - 1)
}

/// The creator hash a deletion burns with is the digest of the creators the
/// registration minted the NFT with, for the same creator accounts.
pub proof fn law_burn_matches_minted_creators(
    keys: MembershipCreatorKeys,
    minted: MetadataArgs,
    uri: Seq<char>,
    collection_mint: Key,
)
    requires
        registration_metadata_spec(minted, uri, membership_creators_spec(keys), collection_mint),
    ensures
        keccak256_hashv(creator_hash_parts(minted.creators@)) == keccak256_hashv(
            creator_hash_parts(membership_creators_spec(keys)),
        ),
        minted.creators@.len() == 5,
        minted.creators@[0].share == MANAGER_SHARE,
        minted.creators@[4].verified,
{
}

/// A registration payload is 14 bytes and reads back, little-endian, as the
/// version at 0..2, the group's previous registration count at 2..10 and the
/// timestamp at 10..14.
pub proof fn law_registration_payload_fields(version: u16, previous_count: u64, timestamp: u32)
    ensures
        ({
            let p = registration_payload_bytes(version, previous_count, timestamp);
            &&& p.len() == 14
            &&& vstd::bytes::spec_u16_from_le_bytes(p.subrange(0, 2)) == version
            &&& spec_u64_from_le_bytes(p.subrange(2, 10)) == previous_count
            &&& vstd::bytes::spec_u32_from_le_bytes(p.subrange(10, 14)) == timestamp
        }),
{
    vstd::bytes::lemma_auto_spec_u16_to_from_le_bytes();
    vstd::bytes::lemma_auto_spec_u32_to_from_le_bytes();
    vstd::bytes::lemma_auto_spec_u64_to_from_le_bytes();
    let p = registration_payload_bytes(version, previous_count, timestamp);
    assert(p.subrange(0, 2) =~= spec_u16_to_le_bytes(version));
    assert(p.subrange(2, 10) =~= spec_u64_to_le_bytes(previous_count));
    assert(p.subrange(10, 14) =~= spec_u32_to_le_bytes(timestamp));
}

/// A registration message is 72 bytes and reads back as the timestamp at
/// 0..4, the id hash at 4..36, the link hash at 36..68 and the registry slot
/// at 68..72.
pub proof fn law_registration_message_fields(
    timestamp: u32,
    id_hash: Key,
    link_hash: Key,
    registry_slot: u32,
)
    ensures
        ({
            let m = registration_message_bytes(timestamp, id_hash@, link_hash@, registry_slot);
            &&& m.len() == 72
            &&& vstd::bytes::spec_u32_from_le_bytes(m.subrange(0, 4)) == timestamp
            &&& m.subrange(4, 36) == id_hash@
            &&& m.subrange(36, 68) == link_hash@
            &&& vstd::bytes::spec_u32_from_le_bytes(m.subrange(68, 72)) == registry_slot
        }),
{
    vstd::bytes::lemma_auto_spec_u32_to_from_le_bytes();
    let m = registration_message_bytes(timestamp, id_hash@, link_hash@, registry_slot);
    assert(m.subrange(0, 4) =~= spec_u32_to_le_bytes(timestamp));
    assert(m.subrange(4, 36) =~= id_hash@);
    assert(m.subrange(36, 68) =~= link_hash@);
    assert(m.subrange(68, 72) =~= spec_u32_to_le_bytes(registry_slot));
}

/// For every bundler, a membership's uri is the bundler's gateway, then the
/// stored metadata's id, then, exactly where there is a payload, the
/// characters `?`, `p`, `=` and the encoded payload.
pub proof fn law_registration_uri_shape(
    b: AssetBundler,
    arweave: Seq<char>,
    has_payload: bool,
    encoded_payload: Seq<char>,
)
    ensures
        ({
            let uri = registration_uri_chars(b, arweave, has_payload, encoded_payload);
            let g = bundler_gateway(b);
            &&& uri.subrange(0, g.len() as int) == g
            &&& uri.subrange(g.len() as int, (g.len() + arweave.len()) as int) == arweave
            &&& has_payload ==> uri.subrange((g.len() + arweave.len()) as int, uri.len() as int) == seq![
                '?',
                'p',
                '=',
            ] + encoded_payload
            &&& !has_payload ==> uri.len() == (g.len() + arweave.len()) as int
        }),
{
    reveal_strlit("?p=");
    let uri = registration_uri_chars(b, arweave, has_payload, encoded_payload);
    let g = bundler_gateway(b);
    assert(uri.subrange(0, g.len() as int) =~= g);
    assert(uri.subrange(g.len() as int, (g.len() + arweave.len()) as int) =~= arweave);
    if has_payload {
        assert(uri.subrange((g.len() + arweave.len()) as int, uri.len() as int) =~= seq!['?', 'p', '=']
            + encoded_payload);
    }
}

/// Every gateway is an `https://` address ending in `/`, and the three
/// bundlers have three different gateways.
pub proof fn law_bundler_gateways(b: AssetBundler, c: AssetBundler)
    ensures
        bundler_gateway(b).subrange(0, 8) == seq!['h', 't', 't', 'p', 's', ':', '/', '/'],
        bundler_gateway(b).last() == '/',
        bundler_gateway(b) == bundler_gateway(c) ==> b == c,
{
    reveal_strlit("https://arweave.net/");
    reveal_strlit("https://gateway.irys.xyz/");
    reveal_strlit("https://turbo.ardrive.dev/raw/");
    let h = seq!['h', 't', 't', 'p', 's', ':', '/', '/'];
    assert("https://arweave.net/"@.subrange(0, 8) =~= h);
    assert("https://gateway.irys.xyz/"@.subrange(0, 8) =~= h);
    assert("https://turbo.ardrive.dev/raw/"@.subrange(0, 8) =~= h);
    assert("https://arweave.net/"@.len() == 20);
    assert("https://gateway.irys.xyz/"@.len() == 25);
    assert("https://turbo.ardrive.dev/raw/"@.len() == 30);
}

/// A membership NFT is a non-fungible of the `Original` token program version,
/// in a verified collection, with no edition nonce and no uses: its encoding
/// carries the bytes `[1, 0]` for its token standard, `[0]` for the edition
/// nonce and the uses, `[1, 1]` and the collection's address for the
/// collection, and `0` for the token program version.
pub proof fn law_registration_metadata_bytes(
    m: MetadataArgs,
    uri: Seq<char>,
    creators: Seq<Creator>,
    collection_mint: Key,
)
    requires
        registration_metadata_spec(m, uri, creators, collection_mint),
    ensures
        option_token_standard_bytes(m.token_standard) == seq![1u8, 0u8],
        option_u8_bytes(m.edition_nonce) == seq![0u8],
        option_uses_bytes(m.uses) == seq![0u8],
        option_collection_bytes(m.collection) == seq![1u8, 1u8] + collection_mint@,
        token_program_version_tag(m.token_program_version) == 0,
        m.seller_fee_basis_points == 0,
{
}

/// For a clock within the range of a `u32`, a registration is fresh exactly
/// when its timestamp is at most 90 seconds from the clock, either way; a
/// clock before the epoch counts as 0 and one past the range as `u32::MAX`.
pub proof fn law_registration_window(now: i64, timestamp: u32)
    ensures
        0 <= now <= u32::MAX ==> (registration_fresh(now, timestamp) <==> -90 <= now - timestamp
            <= 90),
        now < 0 ==> (registration_fresh(now, timestamp) <==> timestamp <= 90),
        now > u32::MAX ==> (registration_fresh(now, timestamp) <==> u32::MAX - timestamp <= 90),
{
}

/// The creators of a membership NFT are five, their shares add up to 100,
/// only the last (the membership slot) is verified, and they name the
/// manager, the id hash, the link hash, the unique document and the slot, in
/// that order.
pub proof fn law_membership_creators(k: MembershipCreatorKeys)
    ensures
        ({
            let cs = membership_creators_spec(k);
            &&& cs.len() == 5
            &&& cs[0].share + cs[1].share + cs[2].share + cs[3].share + cs[4].share == 100
            &&& forall|i: int| 0 <= i < 4 ==> !(#[trigger] cs[i]).verified
            &&& cs[4].verified
            &&& cs[0].address == k.membership_manager
            &&& cs[1].address == k.id_hash
            &&& cs[2].address == k.link_hash
            &&& cs[3].address == k.unique_hash
            &&& cs[4].address == k.membership_slot
        }),
{
}

} // verus!
