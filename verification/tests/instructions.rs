use humanship::account::{slot_entry, MembershipSyncCheck, START_FROM_MEMBERSHIP};
use humanship::cnft::{
    create_nft_to_metadata, encode_creator, encode_metadata_args, CnftMembership, Collection,
    CreateCnft, Creator, MetadataArgs, TokenProgramVersion, TokenStandard, UseMethod, Uses,
};
use humanship::config::AssetBundler;
use humanship::cpi::{
    burn_cnft, mint_to_collection_cnft, AccountMeta, BurnAccounts, MintToCollectionAccounts,
    BURN_DISCRIMINATOR, MINT_TO_COLLECTION_DISCRIMINATOR,
};
use humanship::errors::{HumanshipError, MembershipError};
use humanship::group::{init_group, Authority, MEMBERSHIP_GROUP_ACCOUNT_SIZE};
use humanship::config::{MembershipDataType, MembershipType};
use humanship::membership::{
    begin_registration, creator_hash, delete_membership, is_registration_fresh,
    membership_creators, registered_asset_id, registration_message, registration_mint,
    registration_payload, registration_uri, DeleteMembershipAccounts, MembershipCreatorKeys,
    RegisterMembershipAccounts,
};

fn k(b: u8) -> [u8; 32] {
    [b; 32]
}

fn creator_keys() -> MembershipCreatorKeys {
    MembershipCreatorKeys {
        membership_manager: k(1),
        id_hash: k(2),
        link_hash: k(3),
        unique_hash: k(4),
        membership_slot: k(5),
    }
}

#[test]
fn nft_metadata_from_request() {
    let creators = vec![Creator { address: k(9), verified: true, share: 100 }];
    let collection = Some(Collection { verified: false, key: k(8) });
    let m = create_nft_to_metadata(CreateCnft {
        name: "Name".to_string(),
        symbol: "SYM".to_string(),
        uri: "https://x".to_string(),
        fee: 500,
        creators: creators.clone(),
        collection,
    });
    assert_eq!(m.name, "Name");
    assert_eq!(m.symbol, "SYM");
    assert_eq!(m.uri, "https://x");
    assert_eq!(m.seller_fee_basis_points, 500);
    assert_eq!(m.creators, creators);
    assert_eq!(m.collection, collection);
    assert!(!m.primary_sale_happened);
    assert!(m.is_mutable);
    assert_eq!(m.edition_nonce, None);
    assert_eq!(m.uses, None);
    assert_eq!(m.token_standard, Some(TokenStandard::NonFungible));
    assert_eq!(m.token_program_version, TokenProgramVersion::Original);
}

#[test]
fn metadata_encoding_bytes() {
    let m = MetadataArgs {
        name: "ab".to_string(),
        symbol: "".to_string(),
        uri: "é".to_string(),
        seller_fee_basis_points: 0x0102,
        primary_sale_happened: true,
        is_mutable: false,
        edition_nonce: Some(7),
        token_standard: Some(TokenStandard::Fungible),
        collection: Some(Collection { verified: true, key: k(0x11) }),
        uses: Some(Uses { use_method: UseMethod::Single, remaining: 3, total: 4 }),
        token_program_version: TokenProgramVersion::Token2022,
        creators: vec![Creator { address: k(0x22), verified: false, share: 50 }],
    };
    let mut expected: Vec<u8> = vec![2, 0, 0, 0, b'a', b'b', 0, 0, 0, 0, 2, 0, 0, 0, 0xc3, 0xa9];
    expected.extend_from_slice(&[0x02, 0x01, 1, 0, 1, 7, 1, 2, 1, 1]);
    expected.extend_from_slice(&k(0x11));
    expected.extend_from_slice(&[1, 2]);
    expected.extend_from_slice(&3u64.to_le_bytes());
    expected.extend_from_slice(&4u64.to_le_bytes());
    expected.extend_from_slice(&[1, 1, 0, 0, 0]);
    expected.extend_from_slice(&k(0x22));
    expected.extend_from_slice(&[0, 50]);
    assert_eq!(encode_metadata_args(&m), expected);
}

#[test]
fn metadata_encoding_of_nones() {
    let m = MetadataArgs {
        name: String::new(),
        symbol: String::new(),
        uri: String::new(),
        seller_fee_basis_points: 0,
        primary_sale_happened: false,
        is_mutable: true,
        edition_nonce: None,
        token_standard: None,
        collection: None,
        uses: None,
        token_program_version: TokenProgramVersion::Original,
        creators: vec![],
    };
    let expected: Vec<u8> = vec![0, 0, 0, 0, 0, 0, 0, 0, 0, 0, 0, 0, 0, 0, 0, 1, 0, 0, 0, 0, 0, 0, 0, 0, 0];
    assert_eq!(encode_metadata_args(&m), expected);
}

#[test]
fn creator_encoding() {
    let c = Creator { address: k(3), verified: true, share: 9 };
    let mut expected = k(3).to_vec();
    expected.extend_from_slice(&[1, 9]);
    assert_eq!(encode_creator(&c), expected);
}

#[test]
fn burn_instruction_layout() {
    let accounts = BurnAccounts {
        tree_authority: k(1),
        owner: k(2),
        delegate: k(3),
        merkle_tree: k(4),
        log_wrapper: k(5),
        compression_program: k(6),
        system_program: k(7),
        bubblegum_program: k(8),
    };
    let ix = burn_cnft(&accounts, &k(0xa), &k(0xb), &k(0xc), 0x0102, 0x0304, &vec![k(9)]);
    assert_eq!(ix.program_id, k(8));
    assert_eq!(ix.data.len(), 116);
    assert_eq!(&ix.data[0..8], &BURN_DISCRIMINATOR);
    assert_eq!(&ix.data[8..40], &k(0xa));
    assert_eq!(&ix.data[40..72], &k(0xb));
    assert_eq!(&ix.data[72..104], &k(0xc));
    assert_eq!(&ix.data[104..112], &0x0102u64.to_le_bytes());
    assert_eq!(&ix.data[112..116], &0x0304u32.to_le_bytes());
    let expected = vec![
        AccountMeta { pubkey: k(1), is_signer: false, is_writable: false },
        AccountMeta { pubkey: k(2), is_signer: false, is_writable: false },
        AccountMeta { pubkey: k(3), is_signer: true, is_writable: false },
        AccountMeta { pubkey: k(4), is_signer: false, is_writable: true },
        AccountMeta { pubkey: k(5), is_signer: false, is_writable: false },
        AccountMeta { pubkey: k(6), is_signer: false, is_writable: false },
        AccountMeta { pubkey: k(7), is_signer: false, is_writable: false },
        AccountMeta { pubkey: k(9), is_signer: false, is_writable: false },
    ];
    assert_eq!(ix.accounts, expected);
}

fn mint_accounts() -> MintToCollectionAccounts {
    MintToCollectionAccounts {
        bubblegum_program: k(100),
        tree_authority: k(1),
        owner: k(2),
        delegate: k(3),
        merkle_tree: k(4),
        payer: k(5),
        tree_delegate: k(6),
        collection_authority: k(7),
        collection_authority_record_pda: k(8),
        collection_mint: k(9),
        collection_metadata: k(10),
        edition_account: k(11),
        bubblegum_signer: k(12),
        log_wrapper: k(13),
        compression_program: k(14),
        token_metadata_program: k(15),
        system_program: k(16),
    }
}

#[test]
fn mint_instruction_layout() {
    let m = create_nft_to_metadata(CreateCnft {
        name: "n".to_string(),
        symbol: "s".to_string(),
        uri: "u".to_string(),
        fee: 0,
        creators: vec![],
        collection: None,
    });
    let ix = mint_to_collection_cnft(&mint_accounts(), &m, &vec![k(17), k(18)]);
    assert_eq!(ix.program_id, k(100));
    assert_eq!(&ix.data[0..8], &MINT_TO_COLLECTION_DISCRIMINATOR);
    assert_eq!(&ix.data[8..], encode_metadata_args(&m).as_slice());
    assert_eq!(ix.accounts.len(), 18);
    for (i, meta) in ix.accounts.iter().enumerate() {
        assert_eq!(meta.pubkey, k(i as u8 + 1));
    }
    let writable: Vec<usize> = (0..18).filter(|i| ix.accounts[*i].is_writable).collect();
    assert_eq!(writable, vec![0, 3, 9]);
    let signers: Vec<usize> = (0..18).filter(|i| ix.accounts[*i].is_signer).collect();
    assert_eq!(signers, vec![4, 5, 6, 16, 17]);
}

#[test]
fn membership_creator_list() {
    let cs = membership_creators(&creator_keys());
    assert_eq!(cs.len(), 5);
    assert_eq!(cs[0], Creator { address: k(1), verified: false, share: 100 });
    assert_eq!(cs[1], Creator { address: k(2), verified: false, share: 0 });
    assert_eq!(cs[2], Creator { address: k(3), verified: false, share: 0 });
    assert_eq!(cs[3], Creator { address: k(4), verified: false, share: 0 });
    assert_eq!(cs[4], Creator { address: k(5), verified: true, share: 0 });
}

#[test]
fn creator_hash_is_keccak_of_creators() {
    let cs = membership_creators(&creator_keys());
    let mut all: Vec<u8> = Vec::new();
    for c in cs.iter() {
        all.extend_from_slice(&c.address);
        all.push(c.verified as u8);
        all.push(c.share);
    }
    let expected = solana_program::keccak::hash(&all).to_bytes();
    assert_eq!(creator_hash(&cs), expected);
    assert_ne!(creator_hash(&cs).to_vec(), all[0..32].to_vec());
}

#[test]
fn creator_hash_of_no_creators() {
    let empty = creator_hash(&vec![]);
    assert_eq!(
        empty.to_vec(),
        vec![
            0xc5, 0xd2, 0x46, 0x01, 0x86, 0xf7, 0x23, 0x3c, 0x92, 0x7e, 0x7d, 0xb2, 0xdc, 0xc7,
            0x03, 0xc0, 0xe5, 0x00, 0xb6, 0x53, 0xca, 0x82, 0x27, 0x3b, 0x7b, 0xfa, 0xd8, 0x04,
            0x5d, 0x85, 0xa4, 0x70
        ]
    );
}

fn delete_accounts() -> DeleteMembershipAccounts {
    DeleteMembershipAccounts {
        creators: creator_keys(),
        tree_authority: k(20),
        merkle_tree: k(21),
        log_wrapper: k(22),
        compression_program: k(23),
        system_program: k(24),
        bubblegum_program: k(25),
    }
}

fn membership_data(count: u32, hash: [u8; 7]) -> Vec<u8> {
    let mut data = vec![0u8; START_FROM_MEMBERSHIP + 20];
    data[START_FROM_MEMBERSHIP + 10..START_FROM_MEMBERSHIP + 17].copy_from_slice(&hash);
    data[START_FROM_MEMBERSHIP + 17..START_FROM_MEMBERSHIP + 20]
        .copy_from_slice(&count.to_le_bytes()[0..3]);
    data
}

fn group_data(alive: u64) -> Vec<u8> {
    let mut data = vec![0u8; MEMBERSHIP_GROUP_ACCOUNT_SIZE];
    init_group(&mut data, &k(30), 0, MembershipType::Birthday, MembershipDataType::Identification, &k(31));
    data[88..96].copy_from_slice(&alive.to_le_bytes());
    data
}

fn manager_authority(signer: [u8; 32]) -> Authority {
    Authority { signer, store_creator: k(32), store_master: k(33), master_key: k(33), master_manager: k(34) }
}

#[test]
fn delete_membership_burns() {
    let mut membership = membership_data(3, [6; 7]);
    let mut group = group_data(3);
    let sync = MembershipSyncCheck { last_slot_members_count: 3, last_slot_hash: [6; 7] };
    let cnft = CnftMembership { root: k(40), data_hash: k(41), index: 12 };
    let ix = delete_membership(
        &mut membership, &mut group, &delete_accounts(), &manager_authority(k(31)), 1, &sync,
        &[7; 7], &cnft, &vec![k(50)],
    )
    .unwrap();
    let entry = slot_entry(&membership, 1);
    assert_eq!(entry.last_slot_members_count, 2);
    assert_eq!(entry.last_slot_hash, [7; 7]);
    assert_eq!(u64::from_le_bytes(group[88..96].try_into().unwrap()), 2);
    assert_eq!(ix.program_id, k(25));
    let expected_hash = creator_hash(&membership_creators(&creator_keys()));
    assert_eq!(&ix.data[72..104], &expected_hash);
    assert_eq!(&ix.data[8..40], &k(40));
    assert_eq!(&ix.data[40..72], &k(41));
    assert_eq!(&ix.data[104..112], &12u64.to_le_bytes());
    assert_eq!(&ix.data[112..116], &12u32.to_le_bytes());
    let keys: Vec<[u8; 32]> = ix.accounts.iter().map(|a| a.pubkey).collect();
    assert_eq!(keys, vec![k(20), k(2), k(4), k(21), k(22), k(23), k(24), k(50)]);
}

#[test]
fn delete_membership_out_of_sync() {
    let mut membership = membership_data(3, [6; 7]);
    let mut group = group_data(3);
    let (m0, g0) = (membership.clone(), group.clone());
    let sync = MembershipSyncCheck { last_slot_members_count: 2, last_slot_hash: [6; 7] };
    let cnft = CnftMembership { root: k(40), data_hash: k(41), index: 12 };
    let r = delete_membership(
        &mut membership, &mut group, &delete_accounts(), &manager_authority(k(34)), 1, &sync,
        &[7; 7], &cnft, &vec![],
    );
    assert_eq!(r, Err(HumanshipError::Membership(MembershipError::RelayerOutOfSync)));
    assert_eq!(membership, m0);
    assert_eq!(group, g0);
}

#[test]
fn delete_membership_unauthorized() {
    let mut membership = membership_data(3, [6; 7]);
    let mut group = group_data(3);
    let g0 = group.clone();
    let sync = MembershipSyncCheck { last_slot_members_count: 3, last_slot_hash: [6; 7] };
    let cnft = CnftMembership { root: k(40), data_hash: k(41), index: 12 };
    let r = delete_membership(
        &mut membership, &mut group, &delete_accounts(), &manager_authority(k(99)), 1, &sync,
        &[7; 7], &cnft, &vec![],
    );
    assert_eq!(r, Err(HumanshipError::General));
    assert_eq!(group, g0);
}

#[test]
fn registration_freshness() {
    assert!(is_registration_fresh(1000, 1090));
    assert!(is_registration_fresh(1090, 1000));
    assert!(!is_registration_fresh(1000, 1091));
    assert!(!is_registration_fresh(1091, 1000));
    assert!(is_registration_fresh(-5, 90));
    assert!(!is_registration_fresh(-5, 91));
    assert!(is_registration_fresh(i64::MAX, u32::MAX - 90));
}

#[test]
fn registration_message_layout() {
    let m = registration_message(0x01020304, &k(2), &k(3), 0x0a0b0c0d);
    assert_eq!(m.len(), 72);
    assert_eq!(&m[0..4], &[4, 3, 2, 1]);
    assert_eq!(&m[4..36], &k(2));
    assert_eq!(&m[36..68], &k(3));
    assert_eq!(&m[68..72], &[0x0d, 0x0c, 0x0b, 0x0a]);
}

#[test]
fn registration_payload_layout() {
    let p = registration_payload(0x0102, 5, 0x0a0b0c0d);
    let mut expected = vec![2, 1];
    expected.extend_from_slice(&5u64.to_le_bytes());
    expected.extend_from_slice(&[0x0d, 0x0c, 0x0b, 0x0a]);
    assert_eq!(p, expected);
}

#[test]
fn registration_uris() {
    let p = vec![1u8];
    assert_eq!(registration_uri(AssetBundler::Arweave, "abc", &p, "XYZ"), "https://arweave.net/abc?p=XYZ");
    assert_eq!(registration_uri(AssetBundler::IrysGateway, "abc", &p, "Q"), "https://gateway.irys.xyz/abc?p=Q");
    assert_eq!(registration_uri(AssetBundler::RawTurboDev, "d", &vec![], "Q"), "https://turbo.ardrive.dev/raw/d");
}

#[test]
fn begin_registration_steps() {
    let mut group = group_data(0);
    let auth = manager_authority(k(34));
    let p = begin_registration(&mut group, &auth, 1000, 1010, true, 3).unwrap();
    assert_eq!(p, registration_payload(3, 0, 1010));
    assert_eq!(u64::from_le_bytes(group[80..88].try_into().unwrap()), 1);
    assert_eq!(u64::from_le_bytes(group[88..96].try_into().unwrap()), 1);
    let before = group.clone();
    assert_eq!(begin_registration(&mut group, &auth, 1000, 2000, true, 3), Err(HumanshipError::General));
    assert_eq!(begin_registration(&mut group, &auth, 1000, 1010, false, 3), Err(HumanshipError::General));
    assert_eq!(
        begin_registration(&mut group, &manager_authority(k(99)), 1000, 1010, true, 3),
        Err(HumanshipError::General)
    );
    assert_eq!(group, before);
}

#[test]
fn registration_mint_instruction() {
    let accounts = RegisterMembershipAccounts {
        creators: creator_keys(),
        creator: k(60),
        bubblegum_program: k(61),
        tree_authority: k(62),
        merkle_tree: k(63),
        merkle_manager: k(64),
        collection_mint: k(65),
        collection_metadata: k(66),
        edition_account: k(67),
        bubblegum_signer: k(68),
        log_wrapper: k(69),
        compression_program: k(70),
        token_metadata_program: k(71),
        system_program: k(72),
    };
    let payload = registration_payload(0, 0, 0);
    let (ix, metadata) = registration_mint(&accounts, AssetBundler::Arweave, "tx", &payload, "ENC");
    assert_eq!(metadata.name, "Humanship V0");
    assert_eq!(metadata.symbol, "ID");
    assert_eq!(metadata.uri, "https://arweave.net/tx?p=ENC");
    assert_eq!(metadata.collection, Some(Collection { verified: true, key: k(65) }));
    assert_eq!(metadata.creators, membership_creators(&creator_keys()));
    assert_eq!(ix.program_id, k(61));
    assert_eq!(&ix.data[8..], encode_metadata_args(&metadata).as_slice());
    let keys: Vec<[u8; 32]> = ix.accounts.iter().map(|a| a.pubkey).collect();
    assert_eq!(
        keys,
        vec![
            k(62), k(2), k(4), k(63), k(60), k(64), k(64), k(61), k(65), k(66), k(67), k(68),
            k(69), k(70), k(71), k(72), k(5)
        ]
    );
}

#[test]
fn asset_id_of_last_minted_leaf() {
    let mut tree = vec![0u8; 96];
    tree[80..88].copy_from_slice(&3u64.to_le_bytes());
    let merkle = k(77);
    let expected = mpl_bubblegum::utils::get_asset_id(
        &solana_program::pubkey::Pubkey::new_from_array(merkle),
        2,
    )
    .to_bytes();
    assert_eq!(registered_asset_id(&merkle, &tree), expected);
    assert_ne!(registered_asset_id(&merkle, &tree), merkle);
}

#[test]
fn burn_hash_matches_minted_creators() {
    let accounts = RegisterMembershipAccounts {
        creators: creator_keys(),
        creator: k(60),
        bubblegum_program: k(61),
        tree_authority: k(62),
        merkle_tree: k(63),
        merkle_manager: k(64),
        collection_mint: k(65),
        collection_metadata: k(66),
        edition_account: k(67),
        bubblegum_signer: k(68),
        log_wrapper: k(69),
        compression_program: k(70),
        token_metadata_program: k(71),
        system_program: k(72),
    };
    let (_, minted) = registration_mint(&accounts, AssetBundler::Arweave, "tx", &vec![], "");
    let mut membership = membership_data(1, [6; 7]);
    let mut group = group_data(1);
    let sync = MembershipSyncCheck { last_slot_members_count: 1, last_slot_hash: [6; 7] };
    let cnft = CnftMembership { root: k(40), data_hash: k(41), index: 0 };
    let ix = delete_membership(
        &mut membership, &mut group, &delete_accounts(), &manager_authority(k(34)), 1, &sync,
        &[0; 7], &cnft, &vec![],
    )
    .unwrap();
    assert_eq!(&ix.data[72..104], &creator_hash(&minted.creators));
    assert_eq!(minted.uri, "https://arweave.net/tx");
}
