//! The metadata of a compressed NFT as the Bubblegum program takes it, and its
//! Borsh encoding: strings and vectors prefixed by their little-endian `u32`
//! length, options by a 0/1 byte, enumerations by their variant's index,
//! booleans as one byte, integers little-endian.
use vstd::prelude::*;
use vstd::bytes::{spec_u16_to_le_bytes, spec_u32_to_le_bytes, spec_u64_to_le_bytes};
use vstd::utf8::encode_utf8;
use crate::codec::{append_bytes, append_key, append_u16_le, append_u32_le, append_u64_le, Key};

verus! {

/// The request to mint one compressed NFT.
#[derive(Clone, Debug, PartialEq, Eq)]
pub struct CreateCnft {
    pub name: String,
    pub symbol: String,
    pub uri: String,
    pub fee: u16,
    pub creators: Vec<Creator>,
    pub collection: Option<Collection>,
}

/// The name, symbol and stored metadata of a collection.
#[derive(Clone, Debug, PartialEq, Eq)]
pub struct TokenMetadata {
    pub name: String,
    pub symbol: String,
    pub arweave: String,
}

/// The metadata the Bubblegum program mints a compressed NFT with.
#[derive(Clone, Debug, PartialEq, Eq)]
pub struct MetadataArgs {
    pub name: String,
    pub symbol: String,
    pub uri: String,
    pub seller_fee_basis_points: u16,
    pub primary_sale_happened: bool,
    pub is_mutable: bool,
    pub edition_nonce: Option<u8>,
    pub token_standard: Option<TokenStandard>,
    pub collection: Option<Collection>,
    pub uses: Option<Uses>,
    pub token_program_version: TokenProgramVersion,
    pub creators: Vec<Creator>,
}

/// The token program a compressed NFT belongs to.
#[derive(Clone, Copy, Debug, PartialEq, Eq, Structural)]
pub enum TokenProgramVersion {
    Original,
    Token2022,
}

/// The token standard of a compressed NFT.
#[derive(Clone, Copy, Debug, PartialEq, Eq, Structural)]
pub enum TokenStandard {
    NonFungible,
    FungibleAsset,
    Fungible,
    NonFungibleEdition,
}

/// A creator of a compressed NFT; its share is a percentage.
#[derive(Clone, Copy, Debug, PartialEq, Eq)]
pub struct Creator {
    pub address: Key,
    pub verified: bool,
    pub share: u8,
}

/// How the uses of an NFT are spent.
#[derive(Clone, Copy, Debug, PartialEq, Eq, Structural)]
pub enum UseMethod {
    Burn,
    Multiple,
    Single,
}

/// The uses of an NFT.
#[derive(Clone, Copy, Debug, PartialEq, Eq)]
pub struct Uses {
    pub use_method: UseMethod,
    pub remaining: u64,
    pub total: u64,
}

/// The collection an NFT belongs to.
#[derive(Clone, Copy, Debug, PartialEq, Eq)]
pub struct Collection {
    pub verified: bool,
    pub key: Key,
}

/// The leaf of a membership's compressed NFT in its Merkle tree.
#[derive(Clone, Copy, Debug, PartialEq, Eq)]
pub struct CnftMembership {
    pub root: [u8; 32],
    pub data_hash: [u8; 32],
    pub index: u32,
}

pub open spec fn bool_byte(b: bool) -> u8 {
    if b {
        1
    } else {
        0
    }
}

pub open spec fn token_program_version_tag(v: TokenProgramVersion) -> u8 {
    match v {
        TokenProgramVersion::Original => 0,
        TokenProgramVersion::Token2022 => 1,
    }
}

pub open spec fn token_standard_tag(t: TokenStandard) -> u8 {
    match t {
        TokenStandard::NonFungible => 0,
        TokenStandard::FungibleAsset => 1,
        TokenStandard::Fungible => 2,
        TokenStandard::NonFungibleEdition => 3,
    }
}

pub open spec fn use_method_tag(m: UseMethod) -> u8 {
    match m {
        UseMethod::Burn => 0,
        UseMethod::Multiple => 1,
        UseMethod::Single => 2,
    }
}

/// The UTF-8 bytes of a string.
pub open spec fn utf8_of(s: String) -> Seq<u8> {
    encode_utf8(s@)
}

/// A string as Borsh encodes it.
pub open spec fn string_bytes(s: String) -> Seq<u8> {
    spec_u32_to_le_bytes(utf8_of(s).len() as u32) + utf8_of(s)
}

/// A creator as Borsh encodes it: address, verified flag, share.
pub open spec fn creator_bytes(c: Creator) -> Seq<u8> {
    c.address@ + seq![bool_byte(c.verified), c.share]
}

/// A list of creators as Borsh encodes its items, one after the other.
pub open spec fn creators_bytes(cs: Seq<Creator>) -> Seq<u8>
    decreases cs.len(),
{
    if cs.len() == 0 {
        Seq::empty()
    } else {
        creators_bytes(cs.drop_last()) + creator_bytes(cs.last())
    }
}

pub open spec fn option_u8_bytes(o: Option<u8>) -> Seq<u8> {
    match o {
        None => seq![0u8],
        Some(v) => seq![1u8, v],
    }
}

pub open spec fn option_token_standard_bytes(o: Option<TokenStandard>) -> Seq<u8> {
    match o {
        None => seq![0u8],
        Some(t) => seq![1u8, token_standard_tag(t)],
    }
}

pub open spec fn option_collection_bytes(o: Option<Collection>) -> Seq<u8> {
    match o {
        None => seq![0u8],
        Some(c) => seq![1u8, bool_byte(c.verified)] + c.key@,
    }
}

pub open spec fn option_uses_bytes(o: Option<Uses>) -> Seq<u8> {
    match o {
        None => seq![0u8],
        Some(u) => seq![1u8, use_method_tag(u.use_method)] + spec_u64_to_le_bytes(u.remaining)
            + spec_u64_to_le_bytes(u.total),
    }
}

/// The Borsh encoding of metadata, fields in declaration order.
pub open spec fn metadata_args_bytes(m: MetadataArgs) -> Seq<u8> {
    string_bytes(m.name) + string_bytes(m.symbol) + string_bytes(m.uri) + spec_u16_to_le_bytes(
        m.seller_fee_basis_points,
    ) + seq![bool_byte(m.primary_sale_happened), bool_byte(m.is_mutable)] + option_u8_bytes(
        m.edition_nonce,
    ) + option_token_standard_bytes(m.token_standard) + option_collection_bytes(m.collection)
        + option_uses_bytes(m.uses) + seq![token_program_version_tag(m.token_program_version)]
        + spec_u32_to_le_bytes(m.creators@.len() as u32) + creators_bytes(m.creators@)
}

/// Whether Borsh can encode the metadata: every length fits in a `u32`.
pub open spec fn metadata_encodable(m: MetadataArgs) -> bool {
    &&& utf8_of(m.name).len() <= u32::MAX
    &&& utf8_of(m.symbol).len() <= u32::MAX
    &&& utf8_of(m.uri).len() <= u32::MAX
    &&& m.creators@.len() <= u32::MAX
}

impl TokenProgramVersion {
    pub fn tag(&self) -> (t: u8)
        ensures
            t == token_program_version_tag(*self),
    {
        match self {
            TokenProgramVersion::Original => 0,
            TokenProgramVersion::Token2022 => 1,
        }
    }
}

impl TokenStandard {
    pub fn tag(&self) -> (t: u8)
        ensures
            t == token_standard_tag(*self),
    {
        match self {
            TokenStandard::NonFungible => 0,
            TokenStandard::FungibleAsset => 1,
            TokenStandard::Fungible => 2,
            TokenStandard::NonFungibleEdition => 3,
        }
    }
}

impl UseMethod {
    pub fn tag(&self) -> (t: u8)
        ensures
            t == use_method_tag(*self),
    {
        match self {
            UseMethod::Burn => 0,
            UseMethod::Multiple => 1,
            UseMethod::Single => 2,
        }
    }
}

fn bool_to_byte(b: bool) -> (r: u8)
    ensures
        r == bool_byte(b),
{
    if b {
        1
    } else {
        0
    }
}

/// The metadata a compressed NFT is minted with: the request's name, symbol,
/// uri, fee, creators and collection; a mutable non-fungible of the `Original`
/// token program version, not yet sold, with no edition nonce and no uses.
pub fn create_nft_to_metadata(create_nft: CreateCnft) -> (m: MetadataArgs)
    ensures
        m.name == create_nft.name,
        m.symbol == create_nft.symbol,
        m.uri == create_nft.uri,
        m.seller_fee_basis_points == create_nft.fee,
        m.creators == create_nft.creators,
        m.collection == create_nft.collection,
        m.primary_sale_happened == false,
        m.is_mutable == true,
        m.edition_nonce == None::<u8>,
        m.uses == None::<Uses>,
        m.token_standard == Some(TokenStandard::NonFungible),
        m.token_program_version == TokenProgramVersion::Original,
{
    MetadataArgs {
        name: create_nft.name,
        symbol: create_nft.symbol,
        uri: create_nft.uri,
        seller_fee_basis_points: create_nft.fee,
        creators: create_nft.creators,
        primary_sale_happened: false,
        is_mutable: true,
        edition_nonce: None,
        collection: create_nft.collection,
        uses: None,
        token_standard: Some(TokenStandard::NonFungible),
        token_program_version: TokenProgramVersion::Original,
    }
}

/// Appends the Borsh encoding of a string.
fn append_string(out: &mut Vec<u8>, s: &String)
    requires
        utf8_of(*s).len() <= u32::MAX,
    ensures
        final(out)@ == old(out)@ + string_bytes(*s),
{
    let bytes = s.as_str().as_bytes();
    append_u32_le(out, bytes.len() as u32);
    append_bytes(out, bytes);
    assert(final(out)@ =~= old(out)@ + string_bytes(*s));
}

/// The Borsh encoding of one creator.
pub fn encode_creator(c: &Creator) -> (out: Vec<u8>)
    ensures
        out@ == creator_bytes(*c),
{
    let mut out: Vec<u8> = Vec::new();
    append_key(&mut out, &c.address);
    out.push(bool_to_byte(c.verified));
    out.push(c.share);
    assert(out@ =~= creator_bytes(*c));
    out
}

/// Appends the items of a creator list, one after the other.
fn append_creators(out: &mut Vec<u8>, creators: &Vec<Creator>)
    ensures
        final(out)@ == old(out)@ + creators_bytes(creators@),
{
    let mut i: usize = 0;
    while i < creators.len()
        invariant
            i <= creators@.len(),
            out@ == old(out)@ + creators_bytes(creators@.subrange(0, i as int)),
        decreases creators@.len() - i,
    {
        let ghost before = out@;
        let bytes = encode_creator(&creators[i]);
        append_bytes(out, bytes.as_slice());
        proof {
            let next = creators@.subrange(0, i + 1);
            assert(next.drop_last() =~= creators@.subrange(0, i as int));
            assert(next.last() == creators@[i as int]);
            assert(out@ =~= old(out)@ + creators_bytes(next));
        }
        i += 1;
    }
    assert(creators@.subrange(0, creators@.len() as int) =~= creators@);
}

fn append_option_u8(out: &mut Vec<u8>, o: Option<u8>)
    ensures
        final(out)@ == old(out)@ + option_u8_bytes(o),
{
    match o {
        None => out.push(0),
        Some(v) => {
            out.push(1);
            out.push(v);
        },
    }
    assert(final(out)@ =~= old(out)@ + option_u8_bytes(o));
}

fn append_option_token_standard(out: &mut Vec<u8>, o: Option<TokenStandard>)
    ensures
        final(out)@ == old(out)@ + option_token_standard_bytes(o),
{
    match o {
        None => out.push(0),
        Some(t) => {
            out.push(1);
            out.push(t.tag());
        },
    }
    assert(final(out)@ =~= old(out)@ + option_token_standard_bytes(o));
}

fn append_option_collection(out: &mut Vec<u8>, o: Option<Collection>)
    ensures
        final(out)@ == old(out)@ + option_collection_bytes(o),
{
    match o {
        None => out.push(0),
        Some(c) => {
            out.push(1);
            out.push(bool_to_byte(c.verified));
            append_key(out, &c.key);
        },
    }
    assert(final(out)@ =~= old(out)@ + option_collection_bytes(o));
}

fn append_option_uses(out: &mut Vec<u8>, o: Option<Uses>)
    ensures
        final(out)@ == old(out)@ + option_uses_bytes(o),
{
    match o {
        None => out.push(0),
        Some(u) => {
            out.push(1);
            out.push(u.use_method.tag());
            append_u64_le(out, u.remaining);
            append_u64_le(out, u.total);
        },
    }
    assert(final(out)@ =~= old(out)@ + option_uses_bytes(o));
}

/// Appends one byte.
fn append_byte(out: &mut Vec<u8>, b: u8)
    ensures
        final(out)@ == old(out)@ + seq![b],
{
    out.push(b);
    assert(final(out)@ =~= old(out)@ + seq![b]);
}

/// The Borsh encoding of metadata.
pub fn encode_metadata_args(m: &MetadataArgs) -> (out: Vec<u8>)
    requires
        metadata_encodable(*m),
    ensures
        out@ == metadata_args_bytes(*m),
{
    let mut out: Vec<u8> = Vec::new();
    append_string(&mut out, &m.name);
    assert(out@ =~= string_bytes(m.name));
    append_string(&mut out, &m.symbol);
    append_string(&mut out, &m.uri);
    append_u16_le(&mut out, m.seller_fee_basis_points);
    let ghost before_flags = out@;
    out.push(bool_to_byte(m.primary_sale_happened));
    out.push(bool_to_byte(m.is_mutable));
    assert(out@ =~= before_flags + seq![
        bool_byte(m.primary_sale_happened),
        bool_byte(m.is_mutable),
    ]);
    append_option_u8(&mut out, m.edition_nonce);
    append_option_token_standard(&mut out, m.token_standard);
    append_option_collection(&mut out, m.collection);
    append_option_uses(&mut out, m.uses);
    append_byte(&mut out, m.token_program_version.tag());
    append_u32_le(&mut out, m.creators.len() as u32);
    append_creators(&mut out, &m.creators);
    out
}

/// Every enumeration is encoded as the index of its variant in declaration
/// order, and a flag as 1 for true and 0 for false, as Borsh writes them.
pub proof fn law_variant_indices()
    ensures
        token_standard_tag(TokenStandard::NonFungible) == 0,
        token_standard_tag(TokenStandard::FungibleAsset) == 1,
        token_standard_tag(TokenStandard::Fungible) == 2,
        token_standard_tag(TokenStandard::NonFungibleEdition) == 3,
        token_program_version_tag(TokenProgramVersion::Original) == 0,
        token_program_version_tag(TokenProgramVersion::Token2022) == 1,
        use_method_tag(UseMethod::Burn) == 0,
        use_method_tag(UseMethod::Multiple) == 1,
        use_method_tag(UseMethod::Single) == 2,
        bool_byte(true) == 1,
        bool_byte(false) == 0,
        option_token_standard_bytes(Some(TokenStandard::NonFungible)) == seq![1u8, 0u8],
        option_token_standard_bytes(None) == seq![0u8],
{
}

/// Distinct token standards are encoded differently.
pub proof fn law_token_standard_tags_distinct(a: TokenStandard, b: TokenStandard)
    ensures
        token_standard_tag(a) == token_standard_tag(b) ==> a == b,
        token_standard_tag(a) <= 3,
{
}

/// A creator is encoded as its 32 address bytes in order, then 1 or 0 for
/// whether it is verified, then its share.
pub proof fn law_creator_layout(c: Creator)
    ensures
        creator_bytes(c).len() == 34,
        creator_bytes(c).subrange(0, 32) == c.address@,
        creator_bytes(c)[32] == (if c.verified { 1u8 } else { 0u8 }),
        creator_bytes(c)[33] == c.share,
{
    assert(creator_bytes(c).subrange(0, 32) =~= c.address@);
}

/// A string is encoded as the little-endian `u32` count of its UTF-8 bytes,
/// followed by those bytes.
pub proof fn law_string_layout(s: String)
    requires
        utf8_of(s).len() <= u32::MAX,
    ensures
        string_bytes(s).len() == 4 + utf8_of(s).len(),
        vstd::bytes::spec_u32_from_le_bytes(string_bytes(s).subrange(0, 4)) == utf8_of(s).len(),
        string_bytes(s).subrange(4, string_bytes(s).len() as int) == utf8_of(s),
{
    vstd::bytes::lemma_auto_spec_u32_to_from_le_bytes();
    let n = utf8_of(s).len() as u32;
    assert(string_bytes(s).subrange(0, 4) =~= spec_u32_to_le_bytes(n));
    assert(string_bytes(s).subrange(4, string_bytes(s).len() as int) =~= utf8_of(s));
}

/// A list of creators is encoded as each creator's 34 bytes, in list order.
pub proof fn law_creators_layout(cs: Seq<Creator>)
    ensures
        creators_bytes(cs).len() == 34 * cs.len(),
        forall|i: int|
            0 <= i < cs.len() ==> creators_bytes(cs).subrange(34 * i, 34 * i + 34)
                == creator_bytes(#[trigger] cs[i]),
    decreases cs.len(),
{
    if cs.len() > 0 {
        let init = cs.drop_last();
        law_creators_layout(init);
        law_creator_layout(cs.last());
        let b = creators_bytes(cs);
        assert(b == creators_bytes(init) + creator_bytes(cs.last()));
        assert forall|i: int| 0 <= i < cs.len() implies b.subrange(34 * i, 34 * i + 34)
            == creator_bytes(#[trigger] cs[i]) by {
            if i < cs.len() - 1 {
                assert(init[i] == cs[i]);
                assert(b.subrange(34 * i, 34 * i + 34) =~= creators_bytes(init).subrange(
                    34 * i,
                    34 * i + 34,
                ));
            } else {
                assert(b.subrange(34 * i, 34 * i + 34) =~= creator_bytes(cs.last()));
            }
        }
    }
}

/// Metadata is encoded with its name, symbol and uri first, in that order,
/// and its creators last: the little-endian `u32` count of them, then each
/// creator in order.
#[verifier::rlimit(50)]
pub proof fn law_metadata_layout(m: MetadataArgs)
    requires
        metadata_encodable(m),
    ensures
        ({
            let b = metadata_args_bytes(m);
            let n = string_bytes(m.name).len() as int;
            let y = string_bytes(m.symbol).len() as int;
            let u = string_bytes(m.uri).len() as int;
            let c = creators_bytes(m.creators@).len() as int;
            &&& b.subrange(0, n) == string_bytes(m.name)
            &&& b.subrange(n, n + y) == string_bytes(m.symbol)
            &&& b.subrange(n + y, n + y + u) == string_bytes(m.uri)
            &&& vstd::bytes::spec_u16_from_le_bytes(b.subrange(n + y + u, n + y + u + 2))
                == m.seller_fee_basis_points
            &&& b[n + y + u + 2] == bool_byte(m.primary_sale_happened)
            &&& b[n + y + u + 3] == bool_byte(m.is_mutable)
            &&& vstd::bytes::spec_u32_from_le_bytes(b.subrange(b.len() - c - 4, b.len() - c))
                == m.creators@.len()
            &&& b.subrange(b.len() - c, b.len() as int) == creators_bytes(m.creators@)
        }),
{
    law_string_layout(m.name);
    law_string_layout(m.symbol);
    law_string_layout(m.uri);
    let b = metadata_args_bytes(m);
    let sn = string_bytes(m.name);
    let sy = string_bytes(m.symbol);
    let su = string_bytes(m.uri);
    let fee = spec_u16_to_le_bytes(m.seller_fee_basis_points);
    let cnt = spec_u32_to_le_bytes(m.creators@.len() as u32);
    let cb = creators_bytes(m.creators@);
    let mid = seq![bool_byte(m.primary_sale_happened), bool_byte(m.is_mutable)] + option_u8_bytes(
        m.edition_nonce,
    ) + option_token_standard_bytes(m.token_standard) + option_collection_bytes(m.collection)
        + option_uses_bytes(m.uses) + seq![token_program_version_tag(m.token_program_version)];
    let head = sn + sy + su + fee;
    assert(fee.len() == 2 && vstd::bytes::spec_u16_from_le_bytes(fee) == m.seller_fee_basis_points)
        by {
        vstd::bytes::lemma_auto_spec_u16_to_from_le_bytes();
    }
    assert(cnt.len() == 4 && vstd::bytes::spec_u32_from_le_bytes(cnt) == m.creators@.len()) by {
        vstd::bytes::lemma_auto_spec_u32_to_from_le_bytes();
    }
    assert(b =~= head + mid + (cnt + cb));
    let n = sn.len() as int;
    let y = sy.len() as int;
    let u = su.len() as int;
    let c = cb.len() as int;
    assert(b.subrange(0, n) =~= sn);
    assert(b.subrange(n, n + y) =~= sy);
    assert(b.subrange(n + y, n + y + u) =~= su);
    assert(b.subrange(n + y + u, n + y + u + 2) =~= fee);
    assert(b[n + y + u + 2] == mid[0]);
    assert(b[n + y + u + 3] == mid[1]);
    assert(b.subrange(b.len() - c - 4, b.len() - c) =~= cnt);
    assert(b.subrange(b.len() - c, b.len() as int) =~= cb);
}

} // verus!
