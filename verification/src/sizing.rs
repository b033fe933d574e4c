//! How big a membership account is, how it is set up when created, and how
//! it grows, by at most the runtime's per-instruction limit at a time, until it
//! holds its whole slot table.
use vstd::prelude::*;
use vstd::bytes::spec_u32_to_le_bytes;
use crate::account::{
    holds_config, stored_config, with_config, CONFIG_OFFSET, MEMBERSHIP_SIZE_PER_SLOT,
    START_FROM_MEMBERSHIP,
};
use crate::codec::{append_u32_le, keys_equal, write_bytes, Key};
use crate::config::{
    config_bytes, decode_config, encode_config, membership_data_type_tag, membership_type_tag,
    MembershipConfig, MembershipDataType, MembershipType,
};
use crate::errors::HumanshipError;

verus! {

broadcast use vstd::array::group_array_axioms;

/// The most an account may grow, or be created with, in one instruction.
pub const MAX_PERMITTED_DATA_INCREASE: u64 = 10240;

/// The state byte of a membership still growing its account.
pub const STATE_GROWING: u8 = 1;

/// The state byte of a membership whose account holds its whole slot table.
pub const STATE_COMPLETE: u8 = 2;

/// The `ready` byte of a membership whose account holds its whole slot table.
pub const READY_COMPLETE: u8 = 10;

/// The `ready` byte of a membership whose account must still grow.
pub const READY_PENDING: u8 = 1;

/// What a membership account is to become after a size adjustment.
#[derive(Clone, Copy, Debug, PartialEq, Eq, Structural)]
pub enum SizeChange {
    /// The account is left at its size.
    Keep,
    /// The account is reallocated to this many bytes.
    Resize(u64),
}

/// What creating a membership sets up.
#[derive(Clone, Copy, Debug, PartialEq, Eq)]
pub struct MembershipPlan {
    /// The number of slots of the membership.
    pub slots: u32,
    /// The size of the account once it holds every slot.
    pub full_size: u64,
    /// The size the account is created with.
    pub initial_size: u64,
    /// The configuration written into the new account.
    pub config: MembershipConfig,
}

/// The number of slots a membership over `range` has.
pub open spec fn membership_slots(membership_type: MembershipType, range: [u32; 2]) -> int {
    match membership_type {
        MembershipType::Birthday => range[1] - range[0],
    }
}

/// The size of a membership account holding `slots` slots.
pub open spec fn membership_account_size(slots: int) -> int {
    START_FROM_MEMBERSHIP + slots * MEMBERSHIP_SIZE_PER_SLOT
}

/// The smaller of `a` and `b`.
pub open spec fn min(a: int, b: int) -> int {
    if a <= b {
        a
    } else {
        b
    }
}

/// Whether `c` is the configuration a new membership starts with: growing,
/// ready at once where the initial account holds the whole table, no members,
/// version zero and zeroed spare bytes.
pub open spec fn is_initial_config(
    c: MembershipConfig,
    range: [u32; 2],
    slot: u32,
    membership_type: MembershipType,
    membership_data_type: MembershipDataType,
    store: Key,
    creator: Key,
    master: Key,
    slots: u32,
    full_size: int,
) -> bool {
    &&& c.state == STATE_GROWING
    &&& c.ready == if full_size <= MAX_PERMITTED_DATA_INCREASE {
        READY_COMPLETE
    } else {
        READY_PENDING
    }
    &&& c.slot == slot
    &&& c.store == store
    &&& c.membership_type == membership_type
    &&& c.membership_data_type == membership_data_type
    &&& c.range == range
    &&& c.creator == creator
    &&& c.version == 0
    &&& c.slots == slots
    &&& c.master == master
    &&& c.total_members == 0
    &&& c.extra@ == Seq::new(32, |_i: int| 0u8)
}

/// The configuration of a membership whose account has become complete.
pub open spec fn completed_config(c: MembershipConfig) -> MembershipConfig {
    MembershipConfig { state: STATE_COMPLETE, ready: READY_COMPLETE, ..c }
}

/// The size an account of `len` bytes is reallocated to on its way to `full`
/// bytes; an account that is already large enough is reallocated to zero.
pub open spec fn adjusted_size(len: int, full: int) -> int {
    if len < full {
        len + min(full - len, MAX_PERMITTED_DATA_INCREASE as int)
    } else {
        0
    }
}

/// Whether the signer may create or grow memberships of the store: it is the
/// master's manager or the store's creator.
pub open spec fn may_create(signer: Key, master_manager: Key, store_creator: Key) -> bool {
    master_manager@ == signer@ || store_creator@ == signer@
}

/// The bytes that, with the store's address, seed the addresses of a
/// membership and its group: the slot and the two type bytes.
pub open spec fn membership_seed_tail_bytes(
    slot: u32,
    membership_type: MembershipType,
    membership_data_type: MembershipDataType,
) -> Seq<u8> {
    spec_u32_to_le_bytes(slot) + seq![
        membership_type_tag(membership_type),
        membership_data_type_tag(membership_data_type),
    ]
}

/// The size of a membership account holding `slots` slots.
pub fn membership_size_for(slots: u32) -> (size: u64)
    ensures
        size == membership_account_size(slots as int),
{
    165 + (slots as u64) * 10
}

/// Plans a new membership over `range`. It is refused where the master does
/// not belong to the store's universe or the signer may neither manage the
/// master nor created the store.
pub fn plan_membership(
    range: [u32; 2],
    slot: u32,
    membership_type: MembershipType,
    membership_data_type: MembershipDataType,
    store: &Key,
    creator: &Key,
    master: &Key,
    master_manager: &Key,
    store_creator: &Key,
    universe_hash: u64,
    master_universe_hash: u64,
) -> (r: Result<MembershipPlan, HumanshipError>)
    requires
        range[0] <= range[1],
    ensures
        r is Ok <==> master_universe_hash == universe_hash && may_create(
            *creator,
            *master_manager,
            *store_creator,
        ),
        r is Err ==> r == Err::<MembershipPlan, HumanshipError>(HumanshipError::General),
        r matches Ok(p) ==> {
            &&& p.slots == membership_slots(membership_type, range)
            &&& p.full_size == membership_account_size(p.slots as int)
            &&& p.initial_size == min(p.full_size as int, MAX_PERMITTED_DATA_INCREASE as int)
            &&& is_initial_config(
                p.config,
                range,
                slot,
                membership_type,
                membership_data_type,
                *store,
                *creator,
                *master,
                p.slots,
                p.full_size as int,
            )
        },
{
    let slots = match membership_type {
        MembershipType::Birthday => range[1] - range[0],
    };
    let full_size = membership_size_for(slots);
    if master_universe_hash != universe_hash {
        return Err(HumanshipError::General);
    }
    if !keys_equal(master_manager, creator) && !keys_equal(store_creator, creator) {
        return Err(HumanshipError::General);
    }
    let initial_size = if full_size > MAX_PERMITTED_DATA_INCREASE {
        MAX_PERMITTED_DATA_INCREASE
    } else {
        full_size
    };
    let config = MembershipConfig {
        state: STATE_GROWING,
        ready: if full_size <= MAX_PERMITTED_DATA_INCREASE {
            READY_COMPLETE
        } else {
            READY_PENDING
        },
        slot,
        store: *store,
        membership_type,
        membership_data_type,
        range,
        creator: *creator,
        version: 0,
        slots,
        master: *master,
        total_members: 0,
        extra: [0u8; 32],
    };
    assert(config.extra@ =~= Seq::new(32, |_i: int| 0u8));
    Ok(MembershipPlan { slots, full_size, initial_size, config })
}

/// Which accounts creating a membership sets up.
#[derive(Clone, Copy, Debug, PartialEq, Eq)]
pub struct CreationSteps {
    /// The group account is still empty and is created and initialized.
    pub create_group: bool,
    /// The membership account is still empty and is created and initialized;
    /// otherwise creation stops after the group.
    pub create_membership: bool,
}

/// Which accounts creating a membership sets up, from the current lengths of
/// the group and membership accounts.
pub fn creation_steps(group_data_len: usize, membership_data_len: usize) -> (s: CreationSteps)
    ensures
        s.create_group == (group_data_len == 0),
        s.create_membership == (membership_data_len == 0),
{
    CreationSteps { create_group: group_data_len == 0, create_membership: membership_data_len == 0 }
}

/// The bytes that, with the store's address, seed the addresses of a
/// membership and its group.
pub fn membership_seed_tail(
    slot: u32,
    membership_type: MembershipType,
    membership_data_type: MembershipDataType,
) -> (out: Vec<u8>)
    ensures
        out@ == membership_seed_tail_bytes(slot, membership_type, membership_data_type),
{
    let mut out: Vec<u8> = Vec::new();
    append_u32_le(&mut out, slot);
    assert(out@ =~= spec_u32_to_le_bytes(slot));
    out.push(membership_type.tag());
    out.push(membership_data_type.tag());
    assert(out@ =~= membership_seed_tail_bytes(slot, membership_type, membership_data_type));
    out
}

/// The bytes of a range as it seeds a membership's address: both bounds,
/// little-endian.
pub fn range_seed(range: [u32; 2]) -> (out: Vec<u8>)
    ensures
        out@ == spec_u32_to_le_bytes(range[0]) + spec_u32_to_le_bytes(range[1]),
{
    let mut out: Vec<u8> = Vec::new();
    append_u32_le(&mut out, range[0]);
    assert(out@ =~= spec_u32_to_le_bytes(range[0]));
    append_u32_le(&mut out, range[1]);
    out
}

/// The size of the account of a membership with configuration `c` once it
/// holds every slot.
pub open spec fn full_size_of(c: MembershipConfig) -> int {
    membership_account_size(membership_slots(c.membership_type, c.range))
}

/// The bytes of a growing membership account after an adjustment, before it
/// is reallocated: where the growth completes the account, its configuration
/// is marked complete; otherwise nothing changes.
pub open spec fn adjusted_data(data: Seq<u8>) -> Seq<u8> {
    let c = stored_config(data);
    let len = data.len() as int;
    let full = full_size_of(c);
    if len < full && full - len <= MAX_PERMITTED_DATA_INCREASE {
        with_config(data, completed_config(c))
    } else {
        data
    }
}

/// Adjusts the size of a membership account towards the size of its whole
/// slot table.
///
/// A membership not in the growing state is left as it is. One of another
/// store is refused. Otherwise, where the account is smaller than its table,
/// it grows by at most the per-instruction limit, and where that completes it,
/// its configuration is marked complete; the signer must then be the master's
/// manager or the store's creator, else the request is refused. An account
/// already as large as its table is reallocated to zero bytes.
pub fn adjust_membership_size(
    data: &mut Vec<u8>,
    store: &Key,
    signer: &Key,
    master_manager: &Key,
    store_creator: &Key,
) -> (r: Result<SizeChange, HumanshipError>)
    requires
        old(data)@.len() > CONFIG_OFFSET,
        old(data)@[CONFIG_OFFSET as int] == STATE_GROWING ==> holds_config(old(data)@),
        old(data)@[CONFIG_OFFSET as int] == STATE_GROWING && stored_config(old(data)@).store@
            == store@ ==> stored_config(old(data)@).range[0] <= stored_config(old(data)@).range[1],
    ensures
        old(data)@[CONFIG_OFFSET as int] != STATE_GROWING ==> r == Ok::<SizeChange, HumanshipError>(
            SizeChange::Keep,
        ) && final(data)@ == old(data)@,
        old(data)@[CONFIG_OFFSET as int] == STATE_GROWING ==> ({
            let c = stored_config(old(data)@);
            let len = old(data)@.len() as int;
            &&& c.store@ != store@ ==> r == Err::<SizeChange, HumanshipError>(HumanshipError::General)
                && final(data)@ == old(data)@
            &&& c.store@ == store@ ==> {
                &&& final(data)@ == adjusted_data(old(data)@)
                &&& may_create(*signer, *master_manager, *store_creator) ==> r == Ok::<
                    SizeChange,
                    HumanshipError,
                >(SizeChange::Resize(adjusted_size(len, full_size_of(c)) as u64))
                &&& !may_create(*signer, *master_manager, *store_creator) ==> r == Err::<
                    SizeChange,
                    HumanshipError,
                >(HumanshipError::General)
            }
        }),
{
    let data_len = data.len();
    if data[CONFIG_OFFSET] != STATE_GROWING {
        return Ok(SizeChange::Keep);
    }
    let config = match decode_config(data.as_slice(), CONFIG_OFFSET) {
        Some(c) => c,
        None => {
            proof {
                crate::config::lemma_config_encoding_injective(
                    stored_config(data@),
                    stored_config(data@),
                );
            }
            return Err(HumanshipError::General);
        },
    };
    proof {
        crate::account::lemma_stored_config_is(data@, config);
    }
    if !keys_equal(&config.store, store) {
        return Err(HumanshipError::General);
    }
    let slots = match config.membership_type {
        MembershipType::Birthday => config.range[1] - config.range[0],
    };
    let full = membership_size_for(slots);
    let len = data_len as u64;
    let mut new_size: u64 = 0;
    if len < full {
        let dif = full - len;
        new_size = len + if dif > MAX_PERMITTED_DATA_INCREASE {
            MAX_PERMITTED_DATA_INCREASE
        } else {
            dif
        };
        if dif <= MAX_PERMITTED_DATA_INCREASE {
            let completed = MembershipConfig {
                state: STATE_COMPLETE,
                ready: READY_COMPLETE,
                ..config
            };
            let encoded = encode_config(&completed);
            write_bytes(data, CONFIG_OFFSET, encoded.as_slice());
        }
    }
    if !keys_equal(master_manager, signer) && !keys_equal(store_creator, signer) {
        return Err(HumanshipError::General);
    }
    Ok(SizeChange::Resize(new_size))
}

/// Each adjustment of an account smaller than its slot table makes it grow,
/// by at most the per-instruction limit and never past the table's size; it
/// reaches the table's size exactly when what was missing fits in one step.
pub proof fn law_adjustment_progress(len: int, full: int)
    requires
        0 <= len < full,
    ensures
        len < adjusted_size(len, full) <= full,
        adjusted_size(len, full) - len <= MAX_PERMITTED_DATA_INCREASE,
        adjusted_size(len, full) == full <==> full - len <= MAX_PERMITTED_DATA_INCREASE,
{
}

/// A membership account created at its initial size and then adjusted at
/// most `steps` times reaches the size of its whole slot table, where `steps`
/// is enough steps of the per-instruction limit to cover the rest.
pub proof fn law_adjustments_reach_full_size(len: int, full: int, steps: nat)
    requires
        0 <= len <= full,
        full - len <= steps * MAX_PERMITTED_DATA_INCREASE,
    ensures
        reach_after(len, full, steps) == full,
    decreases steps,
{
    if len < full && steps > 0 {
        law_adjustment_progress(len, full);
        law_adjustments_reach_full_size(adjusted_size(len, full), full, (steps - 1) as nat);
    }
}

/// The size reached from `len` by up to `steps` adjustments, stopping once the
/// account holds its whole table.
pub open spec fn reach_after(len: int, full: int, steps: nat) -> int
    decreases steps,
{
    if steps == 0 || len >= full {
        len
    } else {
        reach_after(adjusted_size(len, full), full, (steps - 1) as nat)
    }
}

/// An account's bytes after the runtime reallocates it to `n` bytes, new bytes
/// zeroed.
pub open spec fn reallocated(data: Seq<u8>, n: int) -> Seq<u8> {
    if n <= data.len() {
        data.subrange(0, n)
    } else {
        data + Seq::new((n - data.len()) as nat, |_i: int| 0u8)
    }
}

/// A membership account after one adjustment that is authorized and names
/// the account's own store, and after the reallocation it asks for.
pub open spec fn account_after_adjustment(data: Seq<u8>) -> Seq<u8> {
    if data.len() <= CONFIG_OFFSET || data[CONFIG_OFFSET as int] != STATE_GROWING {
        data
    } else {
        reallocated(
            adjusted_data(data),
            adjusted_size(data.len() as int, full_size_of(stored_config(data))),
        )
    }
}

/// A membership account after `n` such adjustments.
pub open spec fn account_after_adjustments(data: Seq<u8>, n: nat) -> Seq<u8>
    decreases n,
{
    if n == 0 {
        data
    } else {
        account_after_adjustments(account_after_adjustment(data), (n - 1) as nat)
    }
}

/// How many adjustments an account created at the per-instruction limit needs
/// to hold `full` bytes.
pub open spec fn adjustments_needed(full: int) -> int {
    (full - MAX_PERMITTED_DATA_INCREASE + MAX_PERMITTED_DATA_INCREASE - 1) / MAX_PERMITTED_DATA_INCREASE as int
}

/// Reallocating to a size that keeps the head leaves the configuration and its
/// state byte as they were.
proof fn lemma_reallocated_keeps_head(data: Seq<u8>, n: int)
    requires
        holds_config(data),
        START_FROM_MEMBERSHIP <= n,
    ensures
        reallocated(data, n).len() == n,
        holds_config(reallocated(data, n)),
        stored_config(reallocated(data, n)) == stored_config(data),
        reallocated(data, n)[CONFIG_OFFSET as int] == data[CONFIG_OFFSET as int],
{
    let r = reallocated(data, n);
    assert(r.subrange(CONFIG_OFFSET as int, START_FROM_MEMBERSHIP as int) =~= data.subrange(
        CONFIG_OFFSET as int,
        START_FROM_MEMBERSHIP as int,
    ));
    crate::account::lemma_stored_config_is(data, stored_config(data));
    crate::account::lemma_stored_config_is(r, stored_config(data));
}

/// Storing a configuration makes it the stored one, with its state and ready
/// bytes at their places.
proof fn lemma_with_config(data: Seq<u8>, c: MembershipConfig)
    requires
        data.len() >= START_FROM_MEMBERSHIP,
    ensures
        with_config(data, c).len() == data.len(),
        holds_config(with_config(data, c)),
        stored_config(with_config(data, c)) == c,
        with_config(data, c)[CONFIG_OFFSET as int] == c.state,
        with_config(data, c)[CONFIG_OFFSET + 124] == c.ready,
{
    crate::config::lemma_config_encoding_injective(c, c);
    let d = with_config(data, c);
    assert(d.subrange(CONFIG_OFFSET as int, START_FROM_MEMBERSHIP as int) =~= config_bytes(c));
    crate::account::lemma_stored_config_is(d, c);
    assert(d[CONFIG_OFFSET as int] == config_bytes(c)[0]);
    assert(d[CONFIG_OFFSET + 124] == config_bytes(c)[124]);
}

/// Adjustments leave an account that is not growing as it is.
proof fn lemma_adjustments_of_settled(data: Seq<u8>, n: nat)
    requires
        data.len() > CONFIG_OFFSET,
        data[CONFIG_OFFSET as int] != STATE_GROWING,
    ensures
        account_after_adjustments(data, n) == data,
    decreases n,
{
    if n > 0 {
        lemma_adjustments_of_settled(account_after_adjustment(data), (n - 1) as nat);
    }
}

/// The sequence from an account of `(i + 1)` limits of bytes.
proof fn lemma_adjustments_from(data: Seq<u8>, i: nat, j: nat)
    requires
        holds_config(data),
        data[CONFIG_OFFSET as int] == STATE_GROWING,
        stored_config(data).range[0] <= stored_config(data).range[1],
        data.len() == MAX_PERMITTED_DATA_INCREASE * (i + 1),
        MAX_PERMITTED_DATA_INCREASE * (i + 1) < full_size_of(stored_config(data)),
    ensures
        ({
            let c = stored_config(data);
            let full = full_size_of(c);
            let after = account_after_adjustments(data, j);
            let m = i + j;
            &&& MAX_PERMITTED_DATA_INCREASE * (m + 1) < full ==> {
                &&& after.len() == MAX_PERMITTED_DATA_INCREASE * (m + 1)
                &&& after[CONFIG_OFFSET as int] == STATE_GROWING
                &&& holds_config(after)
                &&& stored_config(after) == c
            }
            &&& MAX_PERMITTED_DATA_INCREASE * (m + 1) >= full ==> {
                &&& after.len() == full
                &&& after[CONFIG_OFFSET as int] == STATE_COMPLETE
                &&& after[CONFIG_OFFSET + 124] == READY_COMPLETE
                &&& holds_config(after)
                &&& stored_config(after) == completed_config(c)
            }
        }),
    decreases j,
{
    let c = stored_config(data);
    let full = full_size_of(c);
    let len = data.len() as int;
    if j > 0 {
        let next = account_after_adjustment(data);
        assert(account_after_adjustments(data, j) == account_after_adjustments(next, (j - 1) as nat));
        if full - len > MAX_PERMITTED_DATA_INCREASE {
            assert(adjusted_data(data) == data);
            assert(adjusted_size(len, full) == len + MAX_PERMITTED_DATA_INCREASE);
            lemma_reallocated_keeps_head(data, len + MAX_PERMITTED_DATA_INCREASE);
            lemma_adjustments_from(next, i + 1, (j - 1) as nat);
        } else {
            let done = with_config(data, completed_config(c));
            assert(adjusted_data(data) == done);
            assert(adjusted_size(len, full) == full);
            lemma_with_config(data, completed_config(c));
            lemma_reallocated_keeps_head(done, full);
            lemma_adjustments_of_settled(next, (j - 1) as nat);
        }
    }
}

/// A membership account created at the per-instruction limit, whose whole
/// table needs more, grows by one limit per adjustment while it is still
/// growing; after `adjustments_needed` adjustments it holds its whole table and
/// its configuration is marked complete (state 2, ready 10), and every later
/// adjustment leaves it as it is. Each adjustment is taken to be authorized
/// and to name the account's store.
pub proof fn law_adjustment_sequence(data: Seq<u8>, j: nat)
    requires
        holds_config(data),
        data[CONFIG_OFFSET as int] == STATE_GROWING,
        stored_config(data).range[0] <= stored_config(data).range[1],
        data.len() == MAX_PERMITTED_DATA_INCREASE,
        full_size_of(stored_config(data)) > MAX_PERMITTED_DATA_INCREASE,
    ensures
        ({
            let c = stored_config(data);
            let full = full_size_of(c);
            let after = account_after_adjustments(data, j);
            &&& j < adjustments_needed(full) ==> {
                &&& after.len() == MAX_PERMITTED_DATA_INCREASE * (j + 1)
                &&& after[CONFIG_OFFSET as int] == STATE_GROWING
                &&& stored_config(after) == c
            }
            &&& j >= adjustments_needed(full) ==> {
                &&& after.len() == full
                &&& after[CONFIG_OFFSET as int] == STATE_COMPLETE
                &&& after[CONFIG_OFFSET + 124] == READY_COMPLETE
                &&& stored_config(after) == completed_config(c)
                &&& account_after_adjustment(after) == after
            }
        }),
{
    let full = full_size_of(stored_config(data));
    let l = MAX_PERMITTED_DATA_INCREASE as int;
    assert(adjustments_needed(full) == (full - 1) / l);
    assert((j < (full - 1) / l) <==> l * (j + 1) < full) by (nonlinear_arith)
        requires
            l == 10240,
            full > 0,
    ;
    lemma_adjustments_from(data, 0, j);
    let after = account_after_adjustments(data, j);
    if j >= adjustments_needed(full) {
        assert(after.len() > CONFIG_OFFSET);
    }
}

} // verus!
