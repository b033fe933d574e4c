use humanship::account::{init_membership_account, START_FROM_MEMBERSHIP};
use humanship::config::{decode_config, MembershipConfig, MembershipDataType, MembershipType};
use humanship::errors::HumanshipError;
use humanship::group::{
    check_group_authority, enroll_in_group, init_group, release_from_group, Authority,
    MEMBERSHIP_GROUP_ACCOUNT_SIZE, MEMBERSHIP_GROUP_DISCRIMINATOR,
};
use humanship::sizing::{
    adjust_membership_size, membership_size_for, plan_membership, SizeChange,
};

const STORE: [u8; 32] = [1; 32];
const GROUP_CREATOR: [u8; 32] = [2; 32];
const STORE_CREATOR: [u8; 32] = [3; 32];
const MANAGER: [u8; 32] = [4; 32];
const MASTER: [u8; 32] = [5; 32];
const STRANGER: [u8; 32] = [6; 32];

fn authority(signer: [u8; 32]) -> Authority {
    Authority {
        signer,
        store_creator: STORE_CREATOR,
        store_master: MASTER,
        master_key: MASTER,
        master_manager: MANAGER,
    }
}

fn group() -> Vec<u8> {
    let mut data = vec![0u8; MEMBERSHIP_GROUP_ACCOUNT_SIZE];
    init_group(&mut data, &STORE, 0x0a0b0c0d, MembershipType::Birthday, MembershipDataType::Identification, &GROUP_CREATOR);
    data
}

fn counters(data: &[u8]) -> (u64, u64) {
    (
        u64::from_le_bytes(data[80..88].try_into().unwrap()),
        u64::from_le_bytes(data[88..96].try_into().unwrap()),
    )
}

#[test]
fn group_head_layout() {
    let data = group();
    assert_eq!(MEMBERSHIP_GROUP_ACCOUNT_SIZE, 96);
    assert_eq!(&data[0..8], &MEMBERSHIP_GROUP_DISCRIMINATOR);
    assert_eq!(data[8], 0);
    assert_eq!(data[9], 1);
    assert_eq!(&data[10..42], &STORE);
    assert_eq!(&data[42..46], &[0x0d, 0x0c, 0x0b, 0x0a]);
    assert_eq!(data[46], 0);
    assert_eq!(data[47], 0);
    assert_eq!(&data[48..80], &GROUP_CREATOR);
    assert_eq!(counters(&data), (0, 0));
}

#[test]
fn group_authority_roles() {
    let data = group();
    assert!(check_group_authority(&data, &authority(GROUP_CREATOR)));
    assert!(check_group_authority(&data, &authority(STORE_CREATOR)));
    assert!(check_group_authority(&data, &authority(MANAGER)));
    assert!(!check_group_authority(&data, &authority(STRANGER)));
    let mut wrong_master = authority(MANAGER);
    wrong_master.master_key = STRANGER;
    assert!(!check_group_authority(&data, &wrong_master));
}

#[test]
fn enroll_counts_and_returns_previous() {
    let mut data = group();
    assert_eq!(enroll_in_group(&mut data, &authority(MANAGER)), Ok(0));
    assert_eq!(enroll_in_group(&mut data, &authority(GROUP_CREATOR)), Ok(1));
    assert_eq!(counters(&data), (2, 2));
}

#[test]
fn enroll_refused_for_stranger() {
    let mut data = group();
    let before = data.clone();
    assert_eq!(enroll_in_group(&mut data, &authority(STRANGER)), Err(HumanshipError::General));
    assert_eq!(data, before);
}

#[test]
fn release_never_below_zero() {
    let mut data = group();
    assert_eq!(release_from_group(&mut data, &authority(MANAGER)), Ok(()));
    assert_eq!(counters(&data), (0, 0));
    enroll_in_group(&mut data, &authority(MANAGER)).unwrap();
    release_from_group(&mut data, &authority(MANAGER)).unwrap();
    assert_eq!(counters(&data), (1, 0));
    assert_eq!(release_from_group(&mut data, &authority(STRANGER)), Err(HumanshipError::General));
}

#[test]
fn plan_small_membership() {
    let plan = plan_membership(
        [100, 110], 7, MembershipType::Birthday, MembershipDataType::Identification,
        &STORE, &MANAGER, &MASTER, &MANAGER, &STORE_CREATOR, 55, 55,
    )
    .unwrap();
    assert_eq!(plan.slots, 10);
    assert_eq!(plan.full_size, 265);
    assert_eq!(plan.initial_size, 265);
    assert_eq!(plan.config.state, 1);
    assert_eq!(plan.config.ready, 10);
    assert_eq!(plan.config.slots, 10);
    assert_eq!(plan.config.range, [100, 110]);
    assert_eq!(plan.config.store, STORE);
    assert_eq!(plan.config.creator, MANAGER);
    assert_eq!(plan.config.master, MASTER);
    assert_eq!(plan.config.total_members, 0);
}

#[test]
fn plan_large_membership() {
    let plan = plan_membership(
        [0, 36500], 1, MembershipType::Birthday, MembershipDataType::Identification,
        &STORE, &STORE_CREATOR, &MASTER, &MANAGER, &STORE_CREATOR, 1, 1,
    )
    .unwrap();
    assert_eq!(plan.full_size, 165 + 365_000);
    assert_eq!(plan.initial_size, 10240);
    assert_eq!(plan.config.ready, 1);
}

#[test]
fn plan_refusals() {
    let wrong_universe = plan_membership(
        [0, 1], 1, MembershipType::Birthday, MembershipDataType::Identification,
        &STORE, &MANAGER, &MASTER, &MANAGER, &STORE_CREATOR, 1, 2,
    );
    assert_eq!(wrong_universe, Err(HumanshipError::General));
    let stranger = plan_membership(
        [0, 1], 1, MembershipType::Birthday, MembershipDataType::Identification,
        &STORE, &STRANGER, &MASTER, &MANAGER, &STORE_CREATOR, 1, 1,
    );
    assert_eq!(stranger, Err(HumanshipError::General));
}

fn growing_account(len: usize, slots: u32) -> Vec<u8> {
    let config = MembershipConfig {
        state: 1,
        slot: 0,
        store: STORE,
        membership_type: MembershipType::Birthday,
        membership_data_type: MembershipDataType::Identification,
        range: [0, slots],
        creator: MANAGER,
        version: 0,
        slots,
        master: MASTER,
        total_members: 0,
        ready: 1,
        extra: [0; 32],
    };
    let mut data = vec![0u8; len];
    init_membership_account(&mut data, &config);
    data
}

#[test]
fn adjust_grows_by_limit() {
    let mut data = growing_account(10240, 3000);
    assert_eq!(membership_size_for(3000), 30165);
    let r = adjust_membership_size(&mut data, &STORE, &MANAGER, &MANAGER, &STORE_CREATOR);
    assert_eq!(r, Ok(SizeChange::Resize(20480)));
    assert_eq!(data[8], 1);
}

#[test]
fn adjust_completes_account() {
    let mut data = growing_account(20480, 3000);
    let r = adjust_membership_size(&mut data, &STORE, &STORE_CREATOR, &MANAGER, &STORE_CREATOR);
    assert_eq!(r, Ok(SizeChange::Resize(30165)));
    let c = decode_config(&data, 8).unwrap();
    assert_eq!(c.state, 2);
    assert_eq!(c.ready, 10);
}

#[test]
fn adjust_complete_account_reallocates_to_zero() {
    let mut data = growing_account(START_FROM_MEMBERSHIP + 20, 2);
    let r = adjust_membership_size(&mut data, &STORE, &MANAGER, &MANAGER, &STORE_CREATOR);
    assert_eq!(r, Ok(SizeChange::Resize(0)));
}

#[test]
fn adjust_keeps_other_states() {
    let mut data = growing_account(10240, 3000);
    data[8] = 2;
    let before = data.clone();
    let r = adjust_membership_size(&mut data, &STORE, &STRANGER, &MANAGER, &STORE_CREATOR);
    assert_eq!(r, Ok(SizeChange::Keep));
    assert_eq!(data, before);
}

#[test]
fn adjust_refusals() {
    let mut data = growing_account(10240, 3000);
    let before = data.clone();
    assert_eq!(
        adjust_membership_size(&mut data, &[0xdd; 32], &MANAGER, &MANAGER, &STORE_CREATOR),
        Err(HumanshipError::General)
    );
    assert_eq!(data, before);
    let mut data = growing_account(20480, 3000);
    assert_eq!(
        adjust_membership_size(&mut data, &STORE, &STRANGER, &MANAGER, &STORE_CREATOR),
        Err(HumanshipError::General)
    );
    assert_eq!(decode_config(&data, 8).unwrap().state, 2);
}

#[test]
fn adjustment_sequence_reaches_full_table() {
    // 3000 slots: the table needs 30165 bytes, three steps from 10240.
    let mut data = growing_account(10240, 3000);
    let mut sizes = vec![];
    for _ in 0..4 {
        match adjust_membership_size(&mut data, &STORE, &MANAGER, &MANAGER, &STORE_CREATOR) {
            Ok(SizeChange::Resize(n)) => data.resize(n as usize, 0),
            Ok(SizeChange::Keep) => {}
            Err(e) => panic!("{:?}", e),
        }
        sizes.push((data.len(), data[8], data[132]));
    }
    assert_eq!(sizes, vec![(20480, 1, 1), (30165, 2, 10), (30165, 2, 10), (30165, 2, 10)]);
}
