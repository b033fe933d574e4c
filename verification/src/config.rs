//! The enumerations of the program and the membership configuration record
//! that heads every membership account, with its fixed 157-byte encoding.
use vstd::prelude::*;
use vstd::bytes::{
    lemma_auto_spec_u32_to_from_le_bytes, lemma_auto_spec_u64_to_from_le_bytes,
    spec_u32_from_le_bytes, spec_u32_to_le_bytes, spec_u64_from_le_bytes, spec_u64_to_le_bytes,
};
use crate::codec::{append_bytes, append_key, append_u32_le, append_u64_le, read_key, read_u32_le, read_u64_le, Key};

verus! {

broadcast use vstd::array::group_array_axioms;

/// The kinds of account the program owns.
#[derive(Clone, Copy, Debug, PartialEq, Eq, Structural)]
pub enum AccountClass {
    UniverseV1,
    StoreV1,
    MasterV1,
}

/// The kinds of membership; each fixes how a membership splits into slots.
#[derive(Clone, Copy, Debug, PartialEq, Eq, Structural)]
pub enum MembershipType {
    Birthday,
}

/// The kind of data a membership is checked against.
#[derive(Clone, Copy, Debug, PartialEq, Eq, Structural)]
pub enum MembershipDataType {
    Identification,
}

/// Where the metadata of a minted membership is stored.
#[derive(Clone, Copy, Debug, PartialEq, Eq, Structural)]
pub enum AssetBundler {
    Arweave,
    IrysGateway,
    RawTurboDev,
}

/// The kinds of identity document.
#[derive(Clone, Copy, Debug, PartialEq, Eq, Structural)]
pub enum DocumentType {
    Passport,
    GovernmentId,
    AgeEstimation,
}

pub open spec fn account_class_tag(c: AccountClass) -> u8 {
    match c {
        AccountClass::UniverseV1 => 0,
        AccountClass::StoreV1 => 1,
        AccountClass::MasterV1 => 2,
    }
}

pub open spec fn membership_type_tag(t: MembershipType) -> u8 {
    match t {
        MembershipType::Birthday => 0,
    }
}

pub open spec fn membership_data_type_tag(t: MembershipDataType) -> u8 {
    match t {
        MembershipDataType::Identification => 0,
    }
}

pub open spec fn asset_bundler_tag(b: AssetBundler) -> u8 {
    match b {
        AssetBundler::Arweave => 0,
        AssetBundler::IrysGateway => 1,
        AssetBundler::RawTurboDev => 2,
    }
}

pub open spec fn document_type_tag(d: DocumentType) -> u8 {
    match d {
        DocumentType::Passport => 0,
        DocumentType::GovernmentId => 1,
        DocumentType::AgeEstimation => 2,
    }
}

impl AccountClass {
    /// The byte that stands for this class.
    pub fn tag(&self) -> (t: u8)
        ensures
            t == account_class_tag(*self),
    {
        match self {
            AccountClass::UniverseV1 => 0,
            AccountClass::StoreV1 => 1,
            AccountClass::MasterV1 => 2,
        }
    }

    /// The class a byte stands for, if any.
    pub fn from_tag(t: u8) -> (r: Option<AccountClass>)
        ensures
            match r {
                Some(c) => account_class_tag(c) == t,
                None => t > 2,
            },
    {
        match t {
            0 => Some(AccountClass::UniverseV1),
            1 => Some(AccountClass::StoreV1),
            2 => Some(AccountClass::MasterV1),
            _ => None,
        }
    }
}

impl MembershipType {
    /// The byte that stands for this membership type.
    pub fn tag(&self) -> (t: u8)
        ensures
            t == membership_type_tag(*self),
    {
        match self {
            MembershipType::Birthday => 0,
        }
    }

    /// The membership type a byte stands for, if any.
    pub fn from_tag(t: u8) -> (r: Option<MembershipType>)
        ensures
            match r {
                Some(m) => membership_type_tag(m) == t,
                None => t != 0,
            },
    {
        if t == 0 {
            Some(MembershipType::Birthday)
        } else {
            None
        }
    }
}

impl MembershipDataType {
    /// The byte that stands for this data type.
    pub fn tag(&self) -> (t: u8)
        ensures
            t == membership_data_type_tag(*self),
    {
        match self {
            MembershipDataType::Identification => 0,
        }
    }

    /// The data type a byte stands for, if any.
    pub fn from_tag(t: u8) -> (r: Option<MembershipDataType>)
        ensures
            match r {
                Some(m) => membership_data_type_tag(m) == t,
                None => t != 0,
            },
    {
        if t == 0 {
            Some(MembershipDataType::Identification)
        } else {
            None
        }
    }
}

impl AssetBundler {
    /// The byte that stands for this bundler.
    pub fn tag(&self) -> (t: u8)
        ensures
            t == asset_bundler_tag(*self),
    {
        match self {
            AssetBundler::Arweave => 0,
            AssetBundler::IrysGateway => 1,
            AssetBundler::RawTurboDev => 2,
        }
    }

    /// The bundler a byte stands for, if any.
    pub fn from_tag(t: u8) -> (r: Option<AssetBundler>)
        ensures
            match r {
                Some(b) => asset_bundler_tag(b) == t,
                None => t > 2,
            },
    {
        match t {
            0 => Some(AssetBundler::Arweave),
            1 => Some(AssetBundler::IrysGateway),
            2 => Some(AssetBundler::RawTurboDev),
            _ => None,
        }
    }
}

impl DocumentType {
    /// The byte that stands for this document type.
    pub fn tag(&self) -> (t: u8)
        ensures
            t == document_type_tag(*self),
    {
        match self {
            DocumentType::Passport => 0,
            DocumentType::GovernmentId => 1,
            DocumentType::AgeEstimation => 2,
        }
    }

    /// The document type a byte stands for, if any.
    pub fn from_tag(t: u8) -> (r: Option<DocumentType>)
        ensures
            match r {
                Some(d) => document_type_tag(d) == t,
                None => t > 2,
            },
    {
        match t {
            0 => Some(DocumentType::Passport),
            1 => Some(DocumentType::GovernmentId),
            2 => Some(DocumentType::AgeEstimation),
            _ => None,
        }
    }
}

/// Number of bytes of an encoded [`MembershipConfig`].
pub const MEMBERSHIP_CONFIG_SIZE: usize = 157;

/// The configuration record of a membership account.
#[derive(Clone, Copy, Debug, PartialEq, Eq)]
pub struct MembershipConfig {
    pub state: u8,
    pub slot: u32,
    pub store: Key,
    pub membership_type: MembershipType,
    pub membership_data_type: MembershipDataType,
    pub range: [u32; 2],
    pub creator: Key,
    pub version: u8,
    pub slots: u32,
    pub master: Key,
    pub total_members: u64,
    pub ready: u8,
    pub extra: [u8; 32],
}

/// The encoding of a configuration: its fields in declaration order, integers
/// little-endian, enumerations as one byte, addresses and arrays as their bytes.
pub open spec fn config_bytes(c: MembershipConfig) -> Seq<u8> {
    seq![c.state] + spec_u32_to_le_bytes(c.slot) + c.store@ + seq![
        membership_type_tag(c.membership_type),
    ] + seq![membership_data_type_tag(c.membership_data_type)] + spec_u32_to_le_bytes(c.range[0])
        + spec_u32_to_le_bytes(c.range[1]) + c.creator@ + seq![c.version] + spec_u32_to_le_bytes(
        c.slots,
    ) + c.master@ + spec_u64_to_le_bytes(c.total_members) + seq![c.ready] + c.extra@
}

/// Whether `s` is the encoding of some configuration: it has the right length
/// and both enumeration bytes name a variant.
pub open spec fn config_bytes_valid(s: Seq<u8>) -> bool {
    &&& s.len() == MEMBERSHIP_CONFIG_SIZE
    &&& s[37] == 0
    &&& s[38] == 0
}

/// The configuration with one more member counted.
pub open spec fn with_member_added(c: MembershipConfig) -> MembershipConfig {
    MembershipConfig { total_members: (c.total_members + 1) as u64, ..c }
}

/// Encodes a configuration.
pub fn encode_config(c: &MembershipConfig) -> (out: Vec<u8>)
    ensures
        out@ == config_bytes(*c),
        out@.len() == MEMBERSHIP_CONFIG_SIZE,
{
    proof {
        lemma_auto_spec_u32_to_from_le_bytes();
        lemma_auto_spec_u64_to_from_le_bytes();
    }
    let mut out: Vec<u8> = Vec::new();
    out.push(c.state);
    append_u32_le(&mut out, c.slot);
    append_key(&mut out, &c.store);
    out.push(c.membership_type.tag());
    out.push(c.membership_data_type.tag());
    append_u32_le(&mut out, c.range[0]);
    append_u32_le(&mut out, c.range[1]);
    append_key(&mut out, &c.creator);
    out.push(c.version);
    append_u32_le(&mut out, c.slots);
    append_key(&mut out, &c.master);
    append_u64_le(&mut out, c.total_members);
    out.push(c.ready);
    append_bytes(&mut out, c.extra.as_slice());
    assert(out@ =~= config_bytes(*c));
    out
}

/// Decodes the configuration stored in `data` from `start` on; `None` where
/// the bytes there are not the encoding of a configuration.
pub fn decode_config(data: &[u8], start: usize) -> (r: Option<MembershipConfig>)
    requires
        start + MEMBERSHIP_CONFIG_SIZE <= data@.len(),
    ensures
        match r {
            Some(c) => config_bytes(c) == data@.subrange(start as int, start + 157),
            None => !config_bytes_valid(data@.subrange(start as int, start + 157)),
        },
{
    let ghost s = data@.subrange(start as int, start + 157);
    let len = data.len();
    assert(start + 157 <= len);
    let membership_type = match MembershipType::from_tag(data[start + 37]) {
        Some(t) => t,
        None => return None,
    };
    let membership_data_type = match MembershipDataType::from_tag(data[start + 38]) {
        Some(t) => t,
        None => return None,
    };
    let c = MembershipConfig {
        state: data[start],
        slot: read_u32_le(data, start + 1),
        store: read_key(data, start + 5),
        membership_type,
        membership_data_type,
        range: [read_u32_le(data, start + 39), read_u32_le(data, start + 43)],
        creator: read_key(data, start + 47),
        version: data[start + 79],
        slots: read_u32_le(data, start + 80),
        master: read_key(data, start + 84),
        total_members: read_u64_le(data, start + 116),
        ready: data[start + 124],
        extra: read_key(data, start + 125),
    };
    proof {
        lemma_auto_spec_u32_to_from_le_bytes();
        lemma_auto_spec_u64_to_from_le_bytes();
        let d = data@;
        let st = start as int;
        assert(spec_u32_to_le_bytes(c.slot) == d.subrange(st + 1, st + 5));
        assert(spec_u32_to_le_bytes(c.range[0]) == d.subrange(st + 39, st + 43));
        assert(spec_u32_to_le_bytes(c.range[1]) == d.subrange(st + 43, st + 47));
        assert(spec_u32_to_le_bytes(c.slots) == d.subrange(st + 80, st + 84));
        assert(spec_u64_to_le_bytes(c.total_members) == d.subrange(st + 116, st + 124));
        assert(config_bytes(c) =~= s);
    }
    Some(c)
}

/// Every configuration's encoding is valid, and the encoding tells
/// configurations apart: decoding an encoded configuration gives it back.
pub proof fn lemma_config_encoding_injective(a: MembershipConfig, b: MembershipConfig)
    ensures
        config_bytes_valid(config_bytes(a)),
        config_bytes(a) == config_bytes(b) ==> a == b,
{
    lemma_auto_spec_u32_to_from_le_bytes();
    lemma_auto_spec_u64_to_from_le_bytes();
    let sa = config_bytes(a);
    let sb = config_bytes(b);
    assert(sa.len() == 157);
    assert(sa[37] == membership_type_tag(a.membership_type));
    assert(sa[38] == membership_data_type_tag(a.membership_data_type));
    if sa == sb {
        assert(sa.subrange(1, 5) =~= spec_u32_to_le_bytes(a.slot));
        assert(sb.subrange(1, 5) =~= spec_u32_to_le_bytes(b.slot));
        assert(sa.subrange(5, 37) =~= a.store@);
        assert(sb.subrange(5, 37) =~= b.store@);
        assert(sa.subrange(39, 43) =~= spec_u32_to_le_bytes(a.range[0]));
        assert(sb.subrange(39, 43) =~= spec_u32_to_le_bytes(b.range[0]));
        assert(sa.subrange(43, 47) =~= spec_u32_to_le_bytes(a.range[1]));
        assert(sb.subrange(43, 47) =~= spec_u32_to_le_bytes(b.range[1]));
        assert(sa.subrange(47, 79) =~= a.creator@);
        assert(sb.subrange(47, 79) =~= b.creator@);
        assert(sa.subrange(80, 84) =~= spec_u32_to_le_bytes(a.slots));
        assert(sb.subrange(80, 84) =~= spec_u32_to_le_bytes(b.slots));
        assert(sa.subrange(84, 116) =~= a.master@);
        assert(sb.subrange(84, 116) =~= b.master@);
        assert(sa.subrange(116, 124) =~= spec_u64_to_le_bytes(a.total_members));
        assert(sb.subrange(116, 124) =~= spec_u64_to_le_bytes(b.total_members));
        assert(sa.subrange(125, 157) =~= a.extra@);
        assert(sb.subrange(125, 157) =~= b.extra@);
        assert(a.slot == spec_u32_from_le_bytes(spec_u32_to_le_bytes(a.slot)));
        assert(b.slot == spec_u32_from_le_bytes(spec_u32_to_le_bytes(b.slot)));
        assert(a.slots == spec_u32_from_le_bytes(spec_u32_to_le_bytes(a.slots)));
        assert(b.slots == spec_u32_from_le_bytes(spec_u32_to_le_bytes(b.slots)));
        assert(a.range[0] == spec_u32_from_le_bytes(spec_u32_to_le_bytes(a.range[0])));
        assert(b.range[0] == spec_u32_from_le_bytes(spec_u32_to_le_bytes(b.range[0])));
        assert(a.range[1] == spec_u32_from_le_bytes(spec_u32_to_le_bytes(a.range[1])));
        assert(b.range[1] == spec_u32_from_le_bytes(spec_u32_to_le_bytes(b.range[1])));
        assert(a.total_members == spec_u64_from_le_bytes(spec_u64_to_le_bytes(a.total_members)));
        assert(b.total_members == spec_u64_from_le_bytes(spec_u64_to_le_bytes(b.total_members)));
        assert(a.store =~= b.store);
        assert(a.creator =~= b.creator);
        assert(a.master =~= b.master);
        assert(a.extra =~= b.extra);
        assert(a.range =~= b.range);
        assert(sa[0] == a.state && sb[0] == b.state);
        assert(sa[79] == a.version && sb[79] == b.version);
        assert(sa[124] == a.ready && sb[124] == b.ready);
        assert(a.membership_type == b.membership_type);
        assert(a.membership_data_type == b.membership_data_type);
    }
}

/// Every enumeration of the program is encoded as the index of its variant
/// in declaration order.
pub proof fn law_config_variant_indices()
    ensures
        membership_type_tag(MembershipType::Birthday) == 0,
        membership_data_type_tag(MembershipDataType::Identification) == 0,
        asset_bundler_tag(AssetBundler::Arweave) == 0,
        asset_bundler_tag(AssetBundler::IrysGateway) == 1,
        asset_bundler_tag(AssetBundler::RawTurboDev) == 2,
        document_type_tag(DocumentType::Passport) == 0,
        document_type_tag(DocumentType::GovernmentId) == 1,
        document_type_tag(DocumentType::AgeEstimation) == 2,
        account_class_tag(AccountClass::UniverseV1) == 0,
        account_class_tag(AccountClass::StoreV1) == 1,
        account_class_tag(AccountClass::MasterV1) == 2,
{
}

/// Where each field of a configuration lies in its encoding: the state at 0,
/// the slot little-endian at 1..5, the store's address bytes in order at
/// 5..37, the two type bytes (both 0) at 37 and 38, the range's bounds
/// little-endian at 39..43 and 43..47, the creator's address at 47..79, the
/// version at 79, the slot count little-endian at 80..84, the master's address
/// at 84..116, the member total little-endian at 116..124, the ready byte at
/// 124, and the spare bytes at 125..157.
pub proof fn law_config_layout(c: MembershipConfig)
    ensures
        ({
            let b = config_bytes(c);
            &&& b.len() == 157
            &&& b[0] == c.state
            &&& spec_u32_from_le_bytes(b.subrange(1, 5)) == c.slot
            &&& b.subrange(5, 37) == c.store@
            &&& b[37] == 0
            &&& b[38] == 0
            &&& spec_u32_from_le_bytes(b.subrange(39, 43)) == c.range[0]
            &&& spec_u32_from_le_bytes(b.subrange(43, 47)) == c.range[1]
            &&& b.subrange(47, 79) == c.creator@
            &&& b[79] == c.version
            &&& spec_u32_from_le_bytes(b.subrange(80, 84)) == c.slots
            &&& b.subrange(84, 116) == c.master@
            &&& spec_u64_from_le_bytes(b.subrange(116, 124)) == c.total_members
            &&& b[124] == c.ready
            &&& b.subrange(125, 157) == c.extra@
        }),
{
    lemma_auto_spec_u32_to_from_le_bytes();
    lemma_auto_spec_u64_to_from_le_bytes();
    let b = config_bytes(c);
    assert(b.subrange(1, 5) =~= spec_u32_to_le_bytes(c.slot));
    assert(b.subrange(5, 37) =~= c.store@);
    assert(b.subrange(39, 43) =~= spec_u32_to_le_bytes(c.range[0]));
    assert(b.subrange(43, 47) =~= spec_u32_to_le_bytes(c.range[1]));
    assert(b.subrange(47, 79) =~= c.creator@);
    assert(b.subrange(80, 84) =~= spec_u32_to_le_bytes(c.slots));
    assert(b.subrange(84, 116) =~= c.master@);
    assert(b.subrange(116, 124) =~= spec_u64_to_le_bytes(c.total_members));
    assert(b.subrange(125, 157) =~= c.extra@);
    match c.membership_type {
        MembershipType::Birthday => {},
    }
    match c.membership_data_type {
        MembershipDataType::Identification => {},
    }
}

/// A configuration decoded from bytes has each field as those bytes hold it
/// at its place.
pub proof fn law_decoded_config_fields(s: Seq<u8>, c: MembershipConfig)
    requires
        config_bytes(c) == s,
    ensures
        c.state == s[0],
        c.slot == spec_u32_from_le_bytes(s.subrange(1, 5)),
        c.store@ == s.subrange(5, 37),
        c.range[0] == spec_u32_from_le_bytes(s.subrange(39, 43)),
        c.range[1] == spec_u32_from_le_bytes(s.subrange(43, 47)),
        c.creator@ == s.subrange(47, 79),
        c.version == s[79],
        c.slots == spec_u32_from_le_bytes(s.subrange(80, 84)),
        c.master@ == s.subrange(84, 116),
        c.total_members == spec_u64_from_le_bytes(s.subrange(116, 124)),
        c.ready == s[124],
        c.extra@ == s.subrange(125, 157),
{
    law_config_layout(c);
}

} // verus!
