use humanship::account::{
    init_membership_account, join_slot, leave_slot, membership_range_seed,
    membership_seed_tail_from_data, record_registration, slot_chain_input, slot_entry,
    MembershipSyncCheck, MEMBERSHIP_DISCRIMINATOR, START_FROM_MEMBERSHIP,
};
use humanship::codec::{read_u24_le, u24_le_bytes, write_bytes};
use humanship::config::{
    decode_config, encode_config, AccountClass, AssetBundler, DocumentType, MembershipConfig,
    MembershipDataType, MembershipType,
};
use humanship::errors::{HumanshipError, MembershipError};
use humanship::sizing::{membership_seed_tail, range_seed};

fn sample_config() -> MembershipConfig {
    MembershipConfig {
        state: 2,
        slot: 0x0403_0201,
        store: [7u8; 32],
        membership_type: MembershipType::Birthday,
        membership_data_type: MembershipDataType::Identification,
        range: [10, 13],
        creator: [8u8; 32],
        version: 0,
        slots: 3,
        master: [9u8; 32],
        total_members: 41,
        ready: 10,
        extra: [0u8; 32],
    }
}

/// A membership account with three slots, holding `config`.
fn account_with(config: &MembershipConfig) -> Vec<u8> {
    let mut data = vec![0u8; START_FROM_MEMBERSHIP + 30];
    init_membership_account(&mut data, config);
    data
}

fn set_slot(data: &mut Vec<u8>, slot: usize, hash: [u8; 7], count: u32) {
    let off = START_FROM_MEMBERSHIP + slot * 10;
    data[off..off + 7].copy_from_slice(&hash);
    data[off + 7..off + 10].copy_from_slice(&count.to_le_bytes()[0..3]);
}

#[test]
fn config_encoding_layout() {
    let c = sample_config();
    let bytes = encode_config(&c);
    assert_eq!(bytes.len(), 157);
    assert_eq!(bytes[0], 2);
    assert_eq!(&bytes[1..5], &[1, 2, 3, 4]);
    assert_eq!(&bytes[5..37], &[7u8; 32]);
    assert_eq!(bytes[37], 0);
    assert_eq!(bytes[38], 0);
    assert_eq!(&bytes[39..47], &[10, 0, 0, 0, 13, 0, 0, 0]);
    assert_eq!(&bytes[47..79], &[8u8; 32]);
    assert_eq!(bytes[79], 0);
    assert_eq!(&bytes[80..84], &[3, 0, 0, 0]);
    assert_eq!(&bytes[84..116], &[9u8; 32]);
    assert_eq!(&bytes[116..124], &41u64.to_le_bytes());
    assert_eq!(bytes[124], 10);
    assert_eq!(&bytes[125..157], &[0u8; 32]);
}

#[test]
fn config_round_trip() {
    let c = sample_config();
    let bytes = encode_config(&c);
    assert_eq!(decode_config(&bytes, 0), Some(c));
    let mut shifted = vec![0xAAu8; 5];
    shifted.extend_from_slice(&bytes);
    assert_eq!(decode_config(&shifted, 5), Some(c));
}

#[test]
fn config_decode_rejects_unknown_types() {
    let mut bytes = encode_config(&sample_config());
    bytes[37] = 1;
    assert_eq!(decode_config(&bytes, 0), None);
    let mut bytes = encode_config(&sample_config());
    bytes[38] = 3;
    assert_eq!(decode_config(&bytes, 0), None);
}

#[test]
fn enum_tags() {
    assert_eq!(AccountClass::MasterV1.tag(), 2);
    assert_eq!(AccountClass::from_tag(1), Some(AccountClass::StoreV1));
    assert_eq!(AccountClass::from_tag(3), None);
    assert_eq!(AssetBundler::RawTurboDev.tag(), 2);
    assert_eq!(AssetBundler::from_tag(1), Some(AssetBundler::IrysGateway));
    assert_eq!(DocumentType::from_tag(2), Some(DocumentType::AgeEstimation));
    assert_eq!(DocumentType::from_tag(9), None);
    assert_eq!(MembershipType::from_tag(0), Some(MembershipType::Birthday));
    assert_eq!(MembershipDataType::from_tag(1), None);
}

#[test]
fn u24_counts() {
    assert_eq!(u24_le_bytes(0x0102_0304), [4, 3, 2]);
    assert_eq!(read_u24_le(&[0xff, 0xff, 0xff], 0), 16_777_215);
    assert_eq!(read_u24_le(&[9, 1, 2, 3], 1), 0x0003_0201);
}

#[test]
fn write_bytes_overwrites_in_place() {
    let mut data = vec![1u8, 2, 3, 4, 5];
    write_bytes(&mut data, 1, &[9, 8]);
    assert_eq!(data, vec![1, 9, 8, 4, 5]);
}

#[test]
fn init_account_writes_head() {
    let c = sample_config();
    let data = account_with(&c);
    assert_eq!(&data[0..8], &MEMBERSHIP_DISCRIMINATOR);
    assert_eq!(&data[8..165], encode_config(&c).as_slice());
    assert!(data[165..].iter().all(|b| *b == 0));
}

#[test]
fn join_slot_in_sync() {
    let mut data = account_with(&sample_config());
    set_slot(&mut data, 1, [1, 2, 3, 4, 5, 6, 7], 5);
    let sync = MembershipSyncCheck { last_slot_members_count: 5, last_slot_hash: [1, 2, 3, 4, 5, 6, 7] };
    let before = data.clone();
    assert_eq!(join_slot(&mut data, 1, &sync, 0x1122_3344_5566_7788), Ok(()));
    let entry = slot_entry(&data, 1);
    assert_eq!(entry.last_slot_members_count, 6);
    assert_eq!(entry.last_slot_hash, [0x88, 0x77, 0x66, 0x55, 0x44, 0x33, 0x22]);
    assert_eq!(&data[..175], &before[..175]);
    assert_eq!(&data[185..], &before[185..]);
}

#[test]
fn join_slot_out_of_sync() {
    let mut data = account_with(&sample_config());
    set_slot(&mut data, 0, [1; 7], 5);
    let before = data.clone();
    let stale_count = MembershipSyncCheck { last_slot_members_count: 4, last_slot_hash: [1; 7] };
    assert_eq!(
        join_slot(&mut data, 0, &stale_count, 1),
        Err(HumanshipError::Membership(MembershipError::RelayerOutOfSync))
    );
    let stale_hash = MembershipSyncCheck { last_slot_members_count: 5, last_slot_hash: [2; 7] };
    assert_eq!(
        join_slot(&mut data, 0, &stale_hash, 1),
        Err(HumanshipError::Membership(MembershipError::RelayerOutOfSync))
    );
    assert_eq!(data, before);
}

#[test]
fn join_slot_full() {
    let mut data = account_with(&sample_config());
    set_slot(&mut data, 2, [3; 7], 16_777_215);
    let before = data.clone();
    let sync = MembershipSyncCheck { last_slot_members_count: 16_777_215, last_slot_hash: [3; 7] };
    assert_eq!(join_slot(&mut data, 2, &sync, 1), Err(HumanshipError::General));
    assert_eq!(data, before);
}

#[test]
fn leave_slot_in_sync_and_stale() {
    let mut data = account_with(&sample_config());
    set_slot(&mut data, 1, [4; 7], 300);
    let stale = MembershipSyncCheck { last_slot_members_count: 299, last_slot_hash: [4; 7] };
    let before = data.clone();
    assert_eq!(leave_slot(&mut data, 1, &stale, &[5; 7]), Err(MembershipError::RelayerOutOfSync));
    assert_eq!(data, before);
    let sync = MembershipSyncCheck { last_slot_members_count: 300, last_slot_hash: [4; 7] };
    assert_eq!(leave_slot(&mut data, 1, &sync, &[5; 7]), Ok(()));
    let entry = slot_entry(&data, 1);
    assert_eq!(entry.last_slot_members_count, 299);
    assert_eq!(entry.last_slot_hash, [5; 7]);
}

#[test]
fn join_then_leave_restores_count() {
    let mut data = account_with(&sample_config());
    set_slot(&mut data, 0, [1; 7], 255);
    let sync = MembershipSyncCheck { last_slot_members_count: 255, last_slot_hash: [1; 7] };
    join_slot(&mut data, 0, &sync, 0xabcdef).unwrap();
    let now = slot_entry(&data, 0);
    assert_eq!(now.last_slot_members_count, 256);
    leave_slot(&mut data, 0, &now, &[1; 7]).unwrap();
    assert_eq!(slot_entry(&data, 0).last_slot_members_count, 255);
    assert_eq!(slot_entry(&data, 0).last_slot_hash, [1; 7]);
}

#[test]
fn slot_chain_input_is_hash_then_asset() {
    let mut data = account_with(&sample_config());
    set_slot(&mut data, 2, [1, 2, 3, 4, 5, 6, 7], 0);
    let input = slot_chain_input(&data, 2, &[0xee; 32]);
    assert_eq!(input.len(), 39);
    assert_eq!(&input[0..7], &[1, 2, 3, 4, 5, 6, 7]);
    assert_eq!(&input[7..], &[0xee; 32]);
}

#[test]
fn record_registration_counts_member() {
    let mut data = account_with(&sample_config());
    set_slot(&mut data, 1, [0; 7], 2);
    let sync = MembershipSyncCheck { last_slot_members_count: 2, last_slot_hash: [0; 7] };
    assert_eq!(record_registration(&mut data, 1, &sync, 77), Ok(()));
    let c = decode_config(&data, 8).unwrap();
    assert_eq!(c.total_members, 42);
    assert_eq!(slot_entry(&data, 1).last_slot_members_count, 3);
    assert_eq!(slot_entry(&data, 1).last_slot_hash, [77, 0, 0, 0, 0, 0, 0]);
}

#[test]
fn record_registration_needs_ready_state() {
    let mut c = sample_config();
    c.state = 1;
    let mut data = account_with(&c);
    let before = data.clone();
    let sync = MembershipSyncCheck { last_slot_members_count: 0, last_slot_hash: [0; 7] };
    assert_eq!(record_registration(&mut data, 0, &sync, 1), Err(HumanshipError::General));
    assert_eq!(data, before);
}

#[test]
fn record_registration_stale_keeps_slot() {
    let mut data = account_with(&sample_config());
    let sync = MembershipSyncCheck { last_slot_members_count: 1, last_slot_hash: [0; 7] };
    assert_eq!(
        record_registration(&mut data, 0, &sync, 1),
        Err(HumanshipError::Membership(MembershipError::RelayerOutOfSync))
    );
    assert_eq!(slot_entry(&data, 0).last_slot_members_count, 0);
}

#[test]
fn stored_seeds_match_creation_seeds() {
    let c = sample_config();
    let data = account_with(&c);
    assert_eq!(
        membership_seed_tail_from_data(&data),
        membership_seed_tail(c.slot, c.membership_type, c.membership_data_type)
    );
    assert_eq!(membership_seed_tail_from_data(&data), vec![1, 2, 3, 4, 0, 0]);
    assert_eq!(membership_range_seed(&data), range_seed(c.range));
    assert_eq!(range_seed([10, 13]), vec![10, 0, 0, 0, 13, 0, 0, 0]);
}
