//! The layout of a membership group account and the rules on who may act on
//! it: an 8-byte discriminator, version, state, store, slot, membership type
//! and data type, the creator, then two little-endian counters (members ever
//! registered, members alive).
use vstd::prelude::*;
use vstd::bytes::{
    lemma_auto_spec_u64_to_from_le_bytes, spec_u32_to_le_bytes, spec_u64_from_le_bytes,
    spec_u64_to_le_bytes,
};
use crate::codec::{keys_equal, overwrite, read_key, read_u64_le, write_bytes, Key};
use crate::config::{
    membership_data_type_tag, membership_type_tag, MembershipDataType, MembershipType,
};
use crate::errors::HumanshipError;

verus! {

/// The first eight bytes of every membership group account.
pub const MEMBERSHIP_GROUP_DISCRIMINATOR: [u8; 8] = [106, 195, 37, 126, 222, 139, 217, 237];

/// Bytes of a membership group after its discriminator.
pub const MEMBERSHIP_GROUP_SIZE: usize = 1 + 1 + 32 + 4 + 1 + 1 + 32 + 8 + 8;

/// Bytes of a membership group account.
pub const MEMBERSHIP_GROUP_ACCOUNT_SIZE: usize = 8 + MEMBERSHIP_GROUP_SIZE;

/// Offsets of the fields read after creation.
pub const TO_MEMBERSHIP_GROUP_CREATOR: usize = 8 + 40;
pub const TO_MEMBERSHIP_GROUP_COUNT: usize = 8 + 72;
pub const TO_MEMBERSHIP_GROUP_ALIVE: usize = 8 + 80;

/// The signer of a request and the accounts that decide its authority.
#[derive(Clone, Copy, Debug, PartialEq, Eq)]
pub struct Authority {
    /// The account that signed the request.
    pub signer: Key,
    /// The creator recorded in the store.
    pub store_creator: Key,
    /// The master recorded in the store.
    pub store_master: Key,
    /// The address of the master account passed with the request.
    pub master_key: Key,
    /// The manager recorded in the master account.
    pub master_manager: Key,
}

/// The head written into a new group account.
pub open spec fn group_head(
    store: Seq<u8>,
    slot: u32,
    membership_type: MembershipType,
    membership_data_type: MembershipDataType,
    creator: Seq<u8>,
) -> Seq<u8> {
    MEMBERSHIP_GROUP_DISCRIMINATOR@ + seq![0u8, 1u8] + store + spec_u32_to_le_bytes(slot) + seq![
        membership_type_tag(membership_type),
        membership_data_type_tag(membership_data_type),
    ] + creator
}

/// The creator recorded in a group account.
pub open spec fn group_creator(data: Seq<u8>) -> Seq<u8> {
    data.subrange(TO_MEMBERSHIP_GROUP_CREATOR as int, TO_MEMBERSHIP_GROUP_CREATOR + 32)
}

/// The number of members ever registered in a group.
pub open spec fn group_count(data: Seq<u8>) -> u64 {
    spec_u64_from_le_bytes(
        data.subrange(TO_MEMBERSHIP_GROUP_COUNT as int, TO_MEMBERSHIP_GROUP_COUNT + 8),
    )
}

/// The number of members of a group alive.
pub open spec fn group_alive(data: Seq<u8>) -> u64 {
    spec_u64_from_le_bytes(
        data.subrange(TO_MEMBERSHIP_GROUP_ALIVE as int, TO_MEMBERSHIP_GROUP_ALIVE + 8),
    )
}

/// Whether `a` may register or delete members of a group created by
/// `group_creator`: its signer is the group's creator, the store's creator or
/// the master's manager, and the master passed is the store's.
pub open spec fn may_manage_group(group_creator: Seq<u8>, a: Authority) -> bool {
    &&& (group_creator == a.signer@ || a.store_creator@ == a.signer@ || a.master_manager@
        == a.signer@)
    &&& a.store_master@ == a.master_key@
}

/// A group account after one registration.
pub open spec fn group_after_enroll(data: Seq<u8>) -> Seq<u8> {
    overwrite(
        overwrite(
            data,
            TO_MEMBERSHIP_GROUP_COUNT as int,
            spec_u64_to_le_bytes((group_count(data) + 1) as u64),
        ),
        TO_MEMBERSHIP_GROUP_ALIVE as int,
        spec_u64_to_le_bytes((group_alive(data) + 1) as u64),
    )
}

/// A group account after one deletion: the alive count goes down, never below zero.
pub open spec fn group_after_release(data: Seq<u8>) -> Seq<u8> {
    if group_alive(data) > 0 {
        overwrite(
            data,
            TO_MEMBERSHIP_GROUP_ALIVE as int,
            spec_u64_to_le_bytes((group_alive(data) - 1) as u64),
        )
    } else {
        data
    }
}

/// Writes the head of a new group account.
pub fn init_group(
    data: &mut Vec<u8>,
    store: &Key,
    slot: u32,
    membership_type: MembershipType,
    membership_data_type: MembershipDataType,
    creator: &Key,
)
    requires
        old(data)@.len() >= MEMBERSHIP_GROUP_ACCOUNT_SIZE,
    ensures
        final(data)@ == overwrite(
            old(data)@,
            0,
            group_head(store@, slot, membership_type, membership_data_type, creator@),
        ),
{
    proof {
        vstd::bytes::lemma_auto_spec_u32_to_from_le_bytes();
    }
    let mut head: Vec<u8> = Vec::new();
    crate::codec::append_bytes(&mut head, MEMBERSHIP_GROUP_DISCRIMINATOR.as_slice());
    head.push(0);
    head.push(1);
    crate::codec::append_key(&mut head, store);
    crate::codec::append_u32_le(&mut head, slot);
    head.push(membership_type.tag());
    head.push(membership_data_type.tag());
    crate::codec::append_key(&mut head, creator);
    assert(head@ =~= group_head(store@, slot, membership_type, membership_data_type, creator@));
    write_bytes(data, 0, head.as_slice());
}

/// Whether `a` may manage the group stored in `data`.
pub fn check_group_authority(data: &Vec<u8>, a: &Authority) -> (r: bool)
    requires
        data@.len() >= MEMBERSHIP_GROUP_ACCOUNT_SIZE,
    ensures
        r == may_manage_group(group_creator(data@), *a),
{
    let creator = read_key(data.as_slice(), TO_MEMBERSHIP_GROUP_CREATOR);
    let allowed = keys_equal(&creator, &a.signer) || keys_equal(&a.store_creator, &a.signer)
        || keys_equal(&a.master_manager, &a.signer);
    allowed && keys_equal(&a.store_master, &a.master_key)
}

/// Counts a registration in the group: where `a` may manage it, both counters
/// go up by one and the count before the registration is returned; otherwise
/// nothing changes and the request is refused.
pub fn enroll_in_group(data: &mut Vec<u8>, a: &Authority) -> (r: Result<u64, HumanshipError>)
    requires
        old(data)@.len() >= MEMBERSHIP_GROUP_ACCOUNT_SIZE,
        may_manage_group(group_creator(old(data)@), *a) ==> group_count(old(data)@) < u64::MAX
            && group_alive(old(data)@) < u64::MAX,
    ensures
        r is Ok <==> may_manage_group(group_creator(old(data)@), *a),
        r is Ok ==> r == Ok::<u64, HumanshipError>(group_count(old(data)@)) && final(data)@
            == group_after_enroll(old(data)@),
        r is Err ==> r == Err::<u64, HumanshipError>(HumanshipError::General) && final(data)@
            == old(data)@,
{
    if !check_group_authority(data, a) {
        return Err(HumanshipError::General);
    }
    let ghost before = data@;
    let count = read_u64_le(data.as_slice(), TO_MEMBERSHIP_GROUP_COUNT);
    let next_count = vstd::bytes::u64_to_le_bytes(count + 1);
    write_bytes(data, TO_MEMBERSHIP_GROUP_COUNT, next_count.as_slice());
    let ghost middle = data@;
    assert(middle.subrange(TO_MEMBERSHIP_GROUP_ALIVE as int, TO_MEMBERSHIP_GROUP_ALIVE + 8)
        =~= before.subrange(TO_MEMBERSHIP_GROUP_ALIVE as int, TO_MEMBERSHIP_GROUP_ALIVE + 8));
    let alive = read_u64_le(data.as_slice(), TO_MEMBERSHIP_GROUP_ALIVE);
    let next_alive = vstd::bytes::u64_to_le_bytes(alive + 1);
    write_bytes(data, TO_MEMBERSHIP_GROUP_ALIVE, next_alive.as_slice());
    Ok(count)
}

/// Counts a deletion in the group: where `a` may manage it, the alive counter
/// goes down by one unless it is already zero; otherwise nothing changes and
/// the request is refused.
pub fn release_from_group(data: &mut Vec<u8>, a: &Authority) -> (r: Result<(), HumanshipError>)
    requires
        old(data)@.len() >= MEMBERSHIP_GROUP_ACCOUNT_SIZE,
    ensures
        r is Ok <==> may_manage_group(group_creator(old(data)@), *a),
        r is Ok ==> final(data)@ == group_after_release(old(data)@),
        r is Err ==> r == Err::<(), HumanshipError>(HumanshipError::General) && final(data)@
            == old(data)@,
{
    if !check_group_authority(data, a) {
        return Err(HumanshipError::General);
    }
    let alive = read_u64_le(data.as_slice(), TO_MEMBERSHIP_GROUP_ALIVE);
    if alive > 0 {
        let next_alive = vstd::bytes::u64_to_le_bytes(alive - 1);
        write_bytes(data, TO_MEMBERSHIP_GROUP_ALIVE, next_alive.as_slice());
    }
    Ok(())
}

/// A registration followed by a deletion leaves the group's alive count as it
/// was, and the registration is still counted among all members ever registered.
pub proof fn law_enroll_then_release(data: Seq<u8>)
    requires
        data.len() >= MEMBERSHIP_GROUP_ACCOUNT_SIZE,
        group_count(data) < u64::MAX,
        group_alive(data) < u64::MAX,
    ensures
        group_alive(group_after_release(group_after_enroll(data))) == group_alive(data),
        group_count(group_after_release(group_after_enroll(data))) == group_count(data) + 1,
        group_creator(group_after_release(group_after_enroll(data))) == group_creator(data),
{
    lemma_auto_spec_u64_to_from_le_bytes();
    let a = overwrite(
        data,
        TO_MEMBERSHIP_GROUP_COUNT as int,
        spec_u64_to_le_bytes((group_count(data) + 1) as u64),
    );
    let e = group_after_enroll(data);
    assert(a.subrange(TO_MEMBERSHIP_GROUP_ALIVE as int, TO_MEMBERSHIP_GROUP_ALIVE + 8)
        =~= data.subrange(TO_MEMBERSHIP_GROUP_ALIVE as int, TO_MEMBERSHIP_GROUP_ALIVE + 8));
    assert(e.subrange(TO_MEMBERSHIP_GROUP_ALIVE as int, TO_MEMBERSHIP_GROUP_ALIVE + 8)
        =~= spec_u64_to_le_bytes((group_alive(data) + 1) as u64));
    assert(e.subrange(TO_MEMBERSHIP_GROUP_COUNT as int, TO_MEMBERSHIP_GROUP_COUNT + 8)
        =~= spec_u64_to_le_bytes((group_count(data) + 1) as u64));
    assert(group_alive(e) == group_alive(data) + 1);
    assert(group_count(e) == group_count(data) + 1);
    let r = group_after_release(e);
    assert(r.subrange(TO_MEMBERSHIP_GROUP_ALIVE as int, TO_MEMBERSHIP_GROUP_ALIVE + 8)
        =~= spec_u64_to_le_bytes(group_alive(data)));
    assert(r.subrange(TO_MEMBERSHIP_GROUP_COUNT as int, TO_MEMBERSHIP_GROUP_COUNT + 8)
        =~= e.subrange(TO_MEMBERSHIP_GROUP_COUNT as int, TO_MEMBERSHIP_GROUP_COUNT + 8));
    assert(group_creator(e) =~= group_creator(data));
    assert(group_creator(r) =~= group_creator(e));
}

/// Where each field of a new group's head lies: the discriminator at 0..8,
/// version 0 at 8, state 1 at 9, the store's address bytes in order at 10..42,
/// the slot little-endian at 42..46, the two type bytes (both 0) at 46 and 47,
/// and the creator's address bytes in order at 48..80.
pub proof fn law_group_head_layout(
    store: Seq<u8>,
    slot: u32,
    membership_type: MembershipType,
    membership_data_type: MembershipDataType,
    creator: Seq<u8>,
)
    requires
        store.len() == 32,
        creator.len() == 32,
    ensures
        ({
            let h = group_head(store, slot, membership_type, membership_data_type, creator);
            &&& h.len() == 80
            &&& h.subrange(0, 8) == MEMBERSHIP_GROUP_DISCRIMINATOR@
            &&& h[8] == 0
            &&& h[9] == 1
            &&& h.subrange(10, 42) == store
            &&& vstd::bytes::spec_u32_from_le_bytes(h.subrange(42, 46)) == slot
            &&& h[46] == 0
            &&& h[47] == 0
            &&& h.subrange(48, 80) == creator
        }),
{
    vstd::bytes::lemma_auto_spec_u32_to_from_le_bytes();
    let h = group_head(store, slot, membership_type, membership_data_type, creator);
    assert(MEMBERSHIP_GROUP_DISCRIMINATOR@.len() == 8);
    assert(h.subrange(0, 8) =~= MEMBERSHIP_GROUP_DISCRIMINATOR@);
    assert(h.subrange(10, 42) =~= store);
    assert(h.subrange(42, 46) =~= spec_u32_to_le_bytes(slot));
    assert(h.subrange(48, 80) =~= creator);
    match membership_type {
        MembershipType::Birthday => {},
    }
    match membership_data_type {
        MembershipDataType::Identification => {},
    }
}

/// A group initialized with `creator` records that creator, and whoever
/// signs as it may manage the group, given the store's own master; its
/// counters are those the account held before.
pub proof fn law_initialized_group_creator(
    data: Seq<u8>,
    store: Key,
    slot: u32,
    membership_type: MembershipType,
    membership_data_type: MembershipDataType,
    creator: Key,
    a: Authority,
)
    requires
        data.len() >= MEMBERSHIP_GROUP_ACCOUNT_SIZE,
        a.signer == creator,
        a.store_master@ == a.master_key@,
    ensures
        ({
            let after = overwrite(
                data,
                0,
                group_head(store@, slot, membership_type, membership_data_type, creator@),
            );
            &&& group_creator(after) == creator@
            &&& may_manage_group(group_creator(after), a)
            &&& group_count(after) == group_count(data)
            &&& group_alive(after) == group_alive(data)
        }),
{
    law_group_head_layout(store@, slot, membership_type, membership_data_type, creator@);
    let h = group_head(store@, slot, membership_type, membership_data_type, creator@);
    let after = overwrite(data, 0, h);
    assert(group_creator(after) =~= h.subrange(48, 80));
    assert(after.subrange(TO_MEMBERSHIP_GROUP_COUNT as int, TO_MEMBERSHIP_GROUP_COUNT + 8) =~= data.subrange(
        TO_MEMBERSHIP_GROUP_COUNT as int,
        TO_MEMBERSHIP_GROUP_COUNT + 8,
    ));
    assert(after.subrange(TO_MEMBERSHIP_GROUP_ALIVE as int, TO_MEMBERSHIP_GROUP_ALIVE + 8) =~= data.subrange(
        TO_MEMBERSHIP_GROUP_ALIVE as int,
        TO_MEMBERSHIP_GROUP_ALIVE + 8,
    ));
}

/// After a registration the group's counters read back one more each, and
/// the creator is unchanged.
pub proof fn law_enroll_counts(data: Seq<u8>)
    requires
        data.len() >= MEMBERSHIP_GROUP_ACCOUNT_SIZE,
        group_count(data) < u64::MAX,
        group_alive(data) < u64::MAX,
    ensures
        group_count(group_after_enroll(data)) == group_count(data) + 1,
        group_alive(group_after_enroll(data)) == group_alive(data) + 1,
        group_creator(group_after_enroll(data)) == group_creator(data),
        group_after_enroll(data).len() == data.len(),
{
    lemma_auto_spec_u64_to_from_le_bytes();
    let a = overwrite(
        data,
        TO_MEMBERSHIP_GROUP_COUNT as int,
        spec_u64_to_le_bytes((group_count(data) + 1) as u64),
    );
    let e = group_after_enroll(data);
    assert(a.subrange(TO_MEMBERSHIP_GROUP_ALIVE as int, TO_MEMBERSHIP_GROUP_ALIVE + 8)
        =~= data.subrange(TO_MEMBERSHIP_GROUP_ALIVE as int, TO_MEMBERSHIP_GROUP_ALIVE + 8));
    assert(e.subrange(TO_MEMBERSHIP_GROUP_ALIVE as int, TO_MEMBERSHIP_GROUP_ALIVE + 8)
        =~= spec_u64_to_le_bytes((group_alive(data) + 1) as u64));
    assert(e.subrange(TO_MEMBERSHIP_GROUP_COUNT as int, TO_MEMBERSHIP_GROUP_COUNT + 8)
        =~= spec_u64_to_le_bytes((group_count(data) + 1) as u64));
    assert(group_creator(e) =~= group_creator(data));
}

/// The group's counters are read little-endian from bytes 80..88 (members
/// ever registered) and 88..96 (members alive), and its creator from 48..80.
pub proof fn law_group_field_offsets(data: Seq<u8>)
    ensures
        group_count(data) == spec_u64_from_le_bytes(data.subrange(80, 88)),
        group_alive(data) == spec_u64_from_le_bytes(data.subrange(88, 96)),
        group_creator(data) == data.subrange(48, 80),
        MEMBERSHIP_GROUP_ACCOUNT_SIZE == 96,
{
}

} // verus!
