//! The layout of a membership account: an 8-byte discriminator, the encoded
//! configuration, then one 10-byte entry per slot (a 7-byte rolling hash of
//! the slot's members and a 3-byte little-endian member count).
use vstd::prelude::*;
use vstd::bytes::{
    lemma_auto_spec_u64_to_from_le_bytes, spec_u32_to_le_bytes, spec_u64_from_le_bytes,
    spec_u64_to_le_bytes,
};
use crate::codec::{
    bytes_equal, lemma_u24_round_trip, overwrite, read_u24_le, read_u32_le, u24_bytes, u24_le_bytes,
    u24_value, write_bytes, Key,
};
use crate::config::{
    config_bytes, decode_config, encode_config, lemma_config_encoding_injective,
    membership_data_type_tag, membership_type_tag, with_member_added, MembershipConfig,
    MEMBERSHIP_CONFIG_SIZE,
};
use crate::errors::{HumanshipError, MembershipError};

verus! {

/// The first eight bytes of every membership account.
pub const MEMBERSHIP_DISCRIMINATOR: [u8; 8] = [231, 141, 180, 98, 109, 168, 175, 166];

/// Where the configuration starts in a membership account.
pub const CONFIG_OFFSET: usize = 8;

/// Where the slot table starts in a membership account.
pub const START_FROM_MEMBERSHIP: usize = 8 + MEMBERSHIP_CONFIG_SIZE;

/// Bytes of the rolling hash kept per slot.
pub const HASH_SIZE_IN_SLOT: usize = 7;

/// Bytes of the member count kept per slot.
pub const COUNT_SIZE_IN_SLOT: usize = 3;

/// Bytes of one slot entry.
pub const MEMBERSHIP_SIZE_PER_SLOT: usize = HASH_SIZE_IN_SLOT + COUNT_SIZE_IN_SLOT;

/// Offsets, in a membership account, of configuration fields read directly.
pub const MEMBERSHIP_TO_SLOT: usize = 9;
pub const MEMBERSHIP_TO_TYPE: usize = 45;
pub const MEMBERSHIP_TO_DATA_TYPE: usize = 46;
pub const MEMBERSHIP_TO_RANGE: usize = 47;

/// The largest member count a slot entry holds.
pub const MAX_SLOT_MEMBERS: u32 = 16_777_215;

/// The state byte of a membership whose account holds its whole slot table.
pub const STATE_READY: u8 = 2;

/// What a relayer saw in a slot entry when it prepared a request.
#[derive(Clone, Copy, Debug, PartialEq, Eq)]
pub struct MembershipSyncCheck {
    pub last_slot_members_count: u32,
    pub last_slot_hash: [u8; 7],
}

/// Where the entry of `registry_slot` starts.
pub open spec fn slot_start(registry_slot: u32) -> int {
    START_FROM_MEMBERSHIP + registry_slot * MEMBERSHIP_SIZE_PER_SLOT
}

/// Whether the account holds the whole entry of `registry_slot`.
pub open spec fn slot_in_bounds(data: Seq<u8>, registry_slot: u32) -> bool {
    slot_start(registry_slot) + MEMBERSHIP_SIZE_PER_SLOT <= data.len()
}

/// The rolling hash stored for `registry_slot`.
pub open spec fn slot_hash(data: Seq<u8>, registry_slot: u32) -> Seq<u8> {
    data.subrange(slot_start(registry_slot), slot_start(registry_slot) + 7)
}

/// The member count stored for `registry_slot`.
pub open spec fn slot_count(data: Seq<u8>, registry_slot: u32) -> nat {
    u24_value(data.subrange(slot_start(registry_slot) + 7, slot_start(registry_slot) + 10))
}

/// Whether the relayer's view agrees with the slot entry.
pub open spec fn in_sync(data: Seq<u8>, registry_slot: u32, sync: MembershipSyncCheck) -> bool {
    &&& slot_hash(data, registry_slot) == sync.last_slot_hash@
    &&& slot_count(data, registry_slot) == sync.last_slot_members_count
}

/// The account with the entry of `registry_slot` set to `hash` and `count`.
pub open spec fn with_slot_entry(data: Seq<u8>, registry_slot: u32, hash: Seq<u8>, count: nat) -> Seq<
    u8,
> {
    overwrite(
        overwrite(data, slot_start(registry_slot) + 7, u24_bytes(count)),
        slot_start(registry_slot),
        hash,
    )
}

/// The seven low bytes of a 64-bit hash, as a slot keeps it.
pub open spec fn slot_hash_of(next_hash: u64) -> Seq<u8> {
    spec_u64_to_le_bytes(next_hash).subrange(0, 7)
}

/// The account after a member joined `registry_slot`, `next_hash` being the
/// slot's new rolling hash.
pub open spec fn slot_after_join(data: Seq<u8>, registry_slot: u32, next_hash: u64) -> Seq<u8> {
    with_slot_entry(
        data,
        registry_slot,
        slot_hash_of(next_hash),
        slot_count(data, registry_slot) + 1,
    )
}

/// The account after a member left `registry_slot`, `new_hash` being the
/// slot's new rolling hash.
pub open spec fn slot_after_leave(data: Seq<u8>, registry_slot: u32, new_hash: Seq<u8>) -> Seq<u8> {
    with_slot_entry(data, registry_slot, new_hash, (slot_count(data, registry_slot) - 1) as nat)
}

/// Whether the account holds a decodable configuration.
pub open spec fn holds_config(data: Seq<u8>) -> bool {
    &&& data.len() >= START_FROM_MEMBERSHIP
    &&& exists|c: MembershipConfig|
        config_bytes(c) == data.subrange(CONFIG_OFFSET as int, START_FROM_MEMBERSHIP as int)
}

/// The configuration the account holds.
pub open spec fn stored_config(data: Seq<u8>) -> MembershipConfig {
    choose|c: MembershipConfig|
        config_bytes(c) == data.subrange(CONFIG_OFFSET as int, START_FROM_MEMBERSHIP as int)
}

/// The account with `c` stored as its configuration.
pub open spec fn with_config(data: Seq<u8>, c: MembershipConfig) -> Seq<u8> {
    overwrite(data, CONFIG_OFFSET as int, config_bytes(c))
}

/// The bytes of a freshly initialized membership account's head.
pub open spec fn membership_head(c: MembershipConfig) -> Seq<u8> {
    MEMBERSHIP_DISCRIMINATOR@ + config_bytes(c)
}

/// Where the entry of `registry_slot` starts.
pub fn slot_offset(data: &Vec<u8>, registry_slot: u32) -> (off: usize)
    requires
        slot_in_bounds(data@, registry_slot),
    ensures
        off == slot_start(registry_slot),
        off + MEMBERSHIP_SIZE_PER_SLOT <= data.len(),
{
    let len = data.len();
    assert(slot_start(registry_slot) + 10 <= len);
    START_FROM_MEMBERSHIP + (registry_slot as usize) * MEMBERSHIP_SIZE_PER_SLOT
}

/// The hash and member count stored for `registry_slot`.
pub fn slot_entry(data: &Vec<u8>, registry_slot: u32) -> (entry: MembershipSyncCheck)
    requires
        slot_in_bounds(data@, registry_slot),
    ensures
        entry.last_slot_hash@ == slot_hash(data@, registry_slot),
        entry.last_slot_members_count == slot_count(data@, registry_slot),
{
    let off = slot_offset(data, registry_slot);
    let mut hash = [0u8; 7];
    let mut i: usize = 0;
    while i < 7
        invariant
            off == slot_start(registry_slot),
            off + MEMBERSHIP_SIZE_PER_SLOT <= data.len(),
            slot_in_bounds(data@, registry_slot),
            i <= 7,
            hash@.len() == 7,
            forall|j: int| 0 <= j < i ==> hash@[j] == data@[off + j],
        decreases 7 - i,
    {
        hash[i] = data[off + i];
        i += 1;
    }
    assert(hash@ =~= slot_hash(data@, registry_slot));
    let count = read_u24_le(data.as_slice(), off + 7);
    MembershipSyncCheck { last_slot_members_count: count, last_slot_hash: hash }
}

/// Whether the relayer's view agrees with the slot entry.
pub fn check_slot_sync(data: &Vec<u8>, registry_slot: u32, sync: &MembershipSyncCheck) -> (r: bool)
    requires
        slot_in_bounds(data@, registry_slot),
    ensures
        r == in_sync(data@, registry_slot, *sync),
{
    let entry = slot_entry(data, registry_slot);
    if !bytes_equal(entry.last_slot_hash.as_slice(), sync.last_slot_hash.as_slice()) {
        return false;
    }
    entry.last_slot_members_count == sync.last_slot_members_count
}

/// Writes `hash` and `count` into the entry of `registry_slot`.
fn write_slot_entry(data: &mut Vec<u8>, registry_slot: u32, hash: &[u8], count: u32)
    requires
        slot_in_bounds(old(data)@, registry_slot),
        hash@.len() == 7,
    ensures
        final(data)@ == with_slot_entry(old(data)@, registry_slot, hash@, count as nat),
{
    let off = slot_offset(data, registry_slot);
    let count_bytes = u24_le_bytes(count);
    write_bytes(data, off + 7, count_bytes.as_slice());
    write_bytes(data, off, hash);
}

/// Takes a member out of `registry_slot`: where the relayer's view agrees with
/// the entry, the count goes down by one and the hash becomes `new_hash_bytes`;
/// otherwise nothing changes and the request is refused.
pub fn leave_slot(
    data: &mut Vec<u8>,
    registry_slot: u32,
    sync: &MembershipSyncCheck,
    new_hash_bytes: &[u8; 7],
) -> (r: Result<(), MembershipError>)
    requires
        slot_in_bounds(old(data)@, registry_slot),
        in_sync(old(data)@, registry_slot, *sync) ==> slot_count(old(data)@, registry_slot) > 0,
    ensures
        r is Ok <==> in_sync(old(data)@, registry_slot, *sync),
        r is Ok ==> final(data)@ == slot_after_leave(
            old(data)@,
            registry_slot,
            new_hash_bytes@,
        ),
        r is Err ==> r == Err::<(), MembershipError>(MembershipError::RelayerOutOfSync)
            && final(data)@ == old(data)@,
{
    if !check_slot_sync(data, registry_slot, sync) {
        return Err(MembershipError::RelayerOutOfSync);
    }
    let count = slot_entry(data, registry_slot).last_slot_members_count;
    write_slot_entry(data, registry_slot, new_hash_bytes.as_slice(), count - 1);
    Ok(())
}

/// Adds a member to `registry_slot`: where the relayer's view agrees with the
/// entry and the slot is not full, the count goes up by one and the hash becomes
/// the seven low bytes of `next_hash`.
pub fn join_slot(data: &mut Vec<u8>, registry_slot: u32, sync: &MembershipSyncCheck, next_hash: u64) -> (r:
    Result<(), HumanshipError>)
    requires
        slot_in_bounds(old(data)@, registry_slot),
    ensures
        !in_sync(old(data)@, registry_slot, *sync) ==> r == Err::<(), HumanshipError>(
            HumanshipError::Membership(MembershipError::RelayerOutOfSync),
        ),
        in_sync(old(data)@, registry_slot, *sync) && slot_count(old(data)@, registry_slot)
            >= MAX_SLOT_MEMBERS ==> r == Err::<(), HumanshipError>(HumanshipError::General),
        r is Ok <==> in_sync(old(data)@, registry_slot, *sync) && slot_count(
            old(data)@,
            registry_slot,
        ) < MAX_SLOT_MEMBERS,
        r is Ok ==> final(data)@ == slot_after_join(old(data)@, registry_slot, next_hash),
        r is Err ==> final(data)@ == old(data)@,
{
    if !check_slot_sync(data, registry_slot, sync) {
        return Err(HumanshipError::Membership(MembershipError::RelayerOutOfSync));
    }
    let count = slot_entry(data, registry_slot).last_slot_members_count;
    if count + 1 > MAX_SLOT_MEMBERS {
        return Err(HumanshipError::General);
    }
    let full = vstd::bytes::u64_to_le_bytes(next_hash);
    let hash = vstd::slice::slice_subrange(full.as_slice(), 0, 7);
    write_slot_entry(data, registry_slot, hash, count + 1);
    Ok(())
}

/// The bytes whose hash becomes the slot's next rolling hash: the slot's
/// current hash followed by the new member's asset id.
pub fn slot_chain_input(data: &Vec<u8>, registry_slot: u32, asset_id: &Key) -> (out: Vec<u8>)
    requires
        slot_in_bounds(data@, registry_slot),
    ensures
        out@ == slot_hash(data@, registry_slot) + asset_id@,
{
    let entry = slot_entry(data, registry_slot);
    let mut out: Vec<u8> = Vec::new();
    crate::codec::append_bytes(&mut out, entry.last_slot_hash.as_slice());
    crate::codec::append_key(&mut out, asset_id);
    out
}

/// Records a registration in a membership account: the account must be in the
/// ready state; its configuration counts one more member, and the member joins
/// `registry_slot` as [`join_slot`] says.
pub fn record_registration(
    data: &mut Vec<u8>,
    registry_slot: u32,
    sync: &MembershipSyncCheck,
    next_hash: u64,
) -> (r: Result<(), HumanshipError>)
    requires
        old(data)@.len() > CONFIG_OFFSET,
        old(data)@[CONFIG_OFFSET as int] == STATE_READY ==> {
            &&& holds_config(old(data)@)
            &&& stored_config(old(data)@).total_members < u64::MAX
            &&& slot_in_bounds(old(data)@, registry_slot)
        },
    ensures
        old(data)@[CONFIG_OFFSET as int] != STATE_READY ==> r == Err::<(), HumanshipError>(
            HumanshipError::General,
        ) && final(data)@ == old(data)@,
        old(data)@[CONFIG_OFFSET as int] == STATE_READY ==> ({
            let counted = with_config(old(data)@, with_member_added(stored_config(old(data)@)));
            &&& !in_sync(old(data)@, registry_slot, *sync) ==> r == Err::<(), HumanshipError>(
                HumanshipError::Membership(MembershipError::RelayerOutOfSync),
            ) && final(data)@ == counted
            &&& in_sync(old(data)@, registry_slot, *sync) && slot_count(old(data)@, registry_slot)
                >= MAX_SLOT_MEMBERS ==> r == Err::<(), HumanshipError>(HumanshipError::General)
                && final(data)@ == counted
            &&& in_sync(old(data)@, registry_slot, *sync) && slot_count(old(data)@, registry_slot)
                < MAX_SLOT_MEMBERS ==> r is Ok && final(data)@ == slot_after_join(
                counted,
                registry_slot,
                next_hash,
            )
        }),
{
    if data[CONFIG_OFFSET] != STATE_READY {
        return Err(HumanshipError::General);
    }
    let ghost before = data@;
    let config = match decode_config(data.as_slice(), CONFIG_OFFSET) {
        Some(c) => c,
        None => {
            proof {
                lemma_config_encoding_injective(stored_config(before), stored_config(before));
            }
            return Err(HumanshipError::General);
        },
    };
    proof {
        assert(before.len() >= START_FROM_MEMBERSHIP);
        lemma_stored_config_is(before, config);
    }
    let counted = MembershipConfig { total_members: config.total_members + 1, ..config };
    let encoded = encode_config(&counted);
    write_bytes(data, CONFIG_OFFSET, encoded.as_slice());
    proof {
        lemma_config_write_keeps_slots(before, counted, registry_slot);
    }
    join_slot(data, registry_slot, sync, next_hash)
}

/// Writes the head of a new membership account: the discriminator followed by
/// the configuration.
pub fn init_membership_account(data: &mut Vec<u8>, config: &MembershipConfig)
    requires
        old(data)@.len() >= START_FROM_MEMBERSHIP,
    ensures
        final(data)@ == overwrite(old(data)@, 0, membership_head(*config)),
{
    let ghost before = data@;
    write_bytes(data, 0, MEMBERSHIP_DISCRIMINATOR.as_slice());
    let encoded = encode_config(config);
    write_bytes(data, CONFIG_OFFSET, encoded.as_slice());
    assert(data@ =~= overwrite(before, 0, membership_head(*config)));
}

/// Writing a slot entry stores exactly the hash and count written, and leaves
/// every byte outside that entry (other slots, the configuration) as it was.
pub proof fn law_slot_entry_write(data: Seq<u8>, registry_slot: u32, hash: Seq<u8>, count: nat)
    requires
        slot_in_bounds(data, registry_slot),
        hash.len() == HASH_SIZE_IN_SLOT,
        count <= MAX_SLOT_MEMBERS,
    ensures
        ({
            let after = with_slot_entry(data, registry_slot, hash, count);
            &&& after.len() == data.len()
            &&& slot_hash(after, registry_slot) == hash
            &&& slot_count(after, registry_slot) == count
            &&& forall|k: int|
                0 <= k < data.len() && !(slot_start(registry_slot) <= k < slot_start(registry_slot)
                    + MEMBERSHIP_SIZE_PER_SLOT) ==> #[trigger] after[k] == data[k]
        }),
{
    lemma_u24_round_trip(count);
    let st = slot_start(registry_slot);
    let after = with_slot_entry(data, registry_slot, hash, count);
    assert(slot_hash(after, registry_slot) =~= hash);
    assert(after.subrange(st + 7, st + 10) =~= u24_bytes(count));
}

/// A member joining a slot and then leaving it again brings the slot's member
/// count back to what it was; the slot's hash is the one the departure names.
pub proof fn law_join_then_leave(data: Seq<u8>, registry_slot: u32, next_hash: u64, new_hash: Seq<u8>)
    requires
        slot_in_bounds(data, registry_slot),
        slot_count(data, registry_slot) < MAX_SLOT_MEMBERS,
        new_hash.len() == HASH_SIZE_IN_SLOT,
    ensures
        ({
            let joined = slot_after_join(data, registry_slot, next_hash);
            let left = slot_after_leave(joined, registry_slot, new_hash);
            &&& slot_count(joined, registry_slot) == slot_count(data, registry_slot) + 1
            &&& slot_hash(joined, registry_slot) == slot_hash_of(next_hash)
            &&& slot_count(left, registry_slot) == slot_count(data, registry_slot)
            &&& slot_hash(left, registry_slot) == new_hash
            &&& left.len() == data.len()
        }),
{
    lemma_auto_spec_u64_to_from_le_bytes();
    let c = slot_count(data, registry_slot);
    law_slot_entry_write(data, registry_slot, slot_hash_of(next_hash), c + 1);
    let joined = slot_after_join(data, registry_slot, next_hash);
    law_slot_entry_write(joined, registry_slot, new_hash, c);
}

/// The bytes of the stored range as they seed the membership's address.
pub open spec fn stored_range_seed(data: Seq<u8>) -> Seq<u8> {
    data.subrange(MEMBERSHIP_TO_RANGE as int, MEMBERSHIP_TO_RANGE + 8)
}

/// The stored slot and type bytes as they seed the addresses of the
/// membership and its group.
pub open spec fn stored_seed_tail(data: Seq<u8>) -> Seq<u8> {
    data.subrange(MEMBERSHIP_TO_SLOT as int, MEMBERSHIP_TO_SLOT + 4) + seq![
        data[MEMBERSHIP_TO_TYPE as int],
        data[MEMBERSHIP_TO_DATA_TYPE as int],
    ]
}

/// The range bytes that seed a stored membership's address.
pub fn membership_range_seed(data: &Vec<u8>) -> (out: Vec<u8>)
    requires
        data@.len() >= START_FROM_MEMBERSHIP,
    ensures
        out@ == stored_range_seed(data@),
{
    let r0 = read_u32_le(data.as_slice(), MEMBERSHIP_TO_RANGE);
    let r1 = read_u32_le(data.as_slice(), MEMBERSHIP_TO_RANGE + 4);
    let mut out: Vec<u8> = Vec::new();
    crate::codec::append_u32_le(&mut out, r0);
    crate::codec::append_u32_le(&mut out, r1);
    proof {
        vstd::bytes::lemma_auto_spec_u32_to_from_le_bytes();
        let d = data@;
        assert(spec_u32_to_le_bytes(r0) == d.subrange(47, 51));
        assert(spec_u32_to_le_bytes(r1) == d.subrange(51, 55));
    }
    assert(out@ =~= stored_range_seed(data@));
    out
}

/// The slot and type bytes that seed the addresses of a stored membership and
/// its group.
pub fn membership_seed_tail_from_data(data: &Vec<u8>) -> (out: Vec<u8>)
    requires
        data@.len() >= START_FROM_MEMBERSHIP,
    ensures
        out@ == stored_seed_tail(data@),
{
    let slot = read_u32_le(data.as_slice(), MEMBERSHIP_TO_SLOT);
    let mut out: Vec<u8> = Vec::new();
    crate::codec::append_u32_le(&mut out, slot);
    out.push(data[MEMBERSHIP_TO_TYPE]);
    out.push(data[MEMBERSHIP_TO_DATA_TYPE]);
    proof {
        vstd::bytes::lemma_auto_spec_u32_to_from_le_bytes();
        assert(spec_u32_to_le_bytes(slot) == data@.subrange(9, 13));
    }
    assert(out@ =~= stored_seed_tail(data@));
    out
}

/// The seeds read back from a membership account are those its configuration
/// was created with: the range's bytes, and the slot followed by the two type
/// bytes.
pub proof fn law_stored_seeds_match_config(data: Seq<u8>)
    requires
        holds_config(data),
    ensures
        ({
            let c = stored_config(data);
            &&& stored_range_seed(data) == spec_u32_to_le_bytes(c.range[0]) + spec_u32_to_le_bytes(
                c.range[1],
            )
            &&& stored_seed_tail(data) == spec_u32_to_le_bytes(c.slot) + seq![
                membership_type_tag(c.membership_type),
                membership_data_type_tag(c.membership_data_type),
            ]
        }),
{
    let sub = data.subrange(CONFIG_OFFSET as int, START_FROM_MEMBERSHIP as int);
    let c = stored_config(data);
    vstd::bytes::lemma_auto_spec_u32_to_from_le_bytes();
    assert(config_bytes(c) == sub);
    assert(config_bytes(c).subrange(39, 47) =~= spec_u32_to_le_bytes(c.range[0]) + spec_u32_to_le_bytes(
        c.range[1],
    ));
    assert(stored_range_seed(data) =~= sub.subrange(39, 47));
    assert(config_bytes(c).subrange(1, 5) =~= spec_u32_to_le_bytes(c.slot));
    assert(stored_seed_tail(data) =~= sub.subrange(1, 5) + seq![sub[37], sub[38]]);
    assert(config_bytes(c)[37] == membership_type_tag(c.membership_type));
    assert(config_bytes(c)[38] == membership_data_type_tag(c.membership_data_type));
}

/// Counting a registration in the configuration raises its member total by
/// one and leaves every other field of the configuration as it was.
pub proof fn law_registration_counts_member(data: Seq<u8>)
    requires
        holds_config(data),
        stored_config(data).total_members < u64::MAX,
    ensures
        ({
            let before = stored_config(data);
            let after = stored_config(with_config(data, with_member_added(before)));
            &&& holds_config(with_config(data, with_member_added(before)))
            &&& after.total_members == before.total_members + 1
            &&& after == MembershipConfig { total_members: after.total_members, ..before }
        }),
{
    let before = stored_config(data);
    let counted = with_member_added(before);
    let after_data = with_config(data, counted);
    lemma_config_encoding_injective(counted, counted);
    assert(after_data.subrange(CONFIG_OFFSET as int, START_FROM_MEMBERSHIP as int) =~= config_bytes(
        counted,
    ));
    lemma_stored_config_is(after_data, counted);
}

/// The slot table starts right after the configuration, at byte 165, and its
/// entries follow one another every 10 bytes, each a 7-byte hash then a 3-byte
/// count.
pub proof fn law_slot_table_layout(registry_slot: u32)
    ensures
        slot_start(0) == 165,
        slot_start(registry_slot) == 165 + 10 * registry_slot,
        slot_start(registry_slot) >= START_FROM_MEMBERSHIP,
        forall|data: Seq<u8>|
            #![trigger slot_hash(data, registry_slot)]
            slot_hash(data, registry_slot) == data.subrange(
                165 + 10 * registry_slot,
                172 + 10 * registry_slot,
            ),
{
}

/// The hash a slot keeps of a 64-bit hash is its seven low little-endian
/// bytes: followed by the top byte they read back as the whole hash.
pub proof fn law_slot_hash_low_bytes(next_hash: u64)
    ensures
        slot_hash_of(next_hash).len() == 7,
        spec_u64_from_le_bytes(
            slot_hash_of(next_hash) + seq![spec_u64_to_le_bytes(next_hash)[7]],
        ) == next_hash,
{
    lemma_auto_spec_u64_to_from_le_bytes();
    let b = spec_u64_to_le_bytes(next_hash);
    assert(slot_hash_of(next_hash) + seq![b[7]] =~= b);
}

/// `stored_config` is the configuration whose encoding the account holds.
pub proof fn lemma_stored_config_is(data: Seq<u8>, c: MembershipConfig)
    requires
        data.len() >= START_FROM_MEMBERSHIP,
        config_bytes(c) == data.subrange(CONFIG_OFFSET as int, START_FROM_MEMBERSHIP as int),
    ensures
        stored_config(data) == c,
        holds_config(data),
{
    let s = stored_config(data);
    assert(config_bytes(s) == data.subrange(CONFIG_OFFSET as int, START_FROM_MEMBERSHIP as int));
    lemma_config_encoding_injective(s, c);
    lemma_config_encoding_injective(c, s);
}

/// Rewriting the configuration leaves every slot entry as it was.
pub proof fn lemma_config_write_keeps_slots(data: Seq<u8>, c: MembershipConfig, registry_slot: u32)
    requires
        data.len() >= START_FROM_MEMBERSHIP,
    ensures
        ({
            let after = with_config(data, c);
            &&& after.len() == data.len()
            &&& slot_in_bounds(data, registry_slot) ==> slot_hash(after, registry_slot) == slot_hash(
                data,
                registry_slot,
            ) && slot_count(after, registry_slot) == slot_count(data, registry_slot)
        }),
{
    let after = with_config(data, c);
    lemma_config_encoding_injective(c, c);
    assert(after.len() == data.len());
    if slot_in_bounds(data, registry_slot) {
        let st = slot_start(registry_slot);
        assert(slot_hash(after, registry_slot) =~= slot_hash(data, registry_slot));
        assert(after.subrange(st + 7, st + 10) =~= data.subrange(st + 7, st + 10));
    }
}

} // verus!
