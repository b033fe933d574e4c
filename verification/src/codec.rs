//! Byte-level helpers shared by the account layouts: little-endian integers,
//! 32-byte addresses and in-place overwrites of account data.
use vstd::prelude::*;
use vstd::bytes::{
    spec_u16_to_le_bytes, spec_u32_from_le_bytes, spec_u32_to_le_bytes, spec_u64_from_le_bytes,
    spec_u64_to_le_bytes,
};

verus! {

/// A Solana account address, held as its 32 raw bytes.
pub type Key = [u8; 32];

/// `data` with `bytes` written over it from position `offset` on; the length does not change.
pub open spec fn overwrite(data: Seq<u8>, offset: int, bytes: Seq<u8>) -> Seq<u8> {
    data.subrange(0, offset) + bytes + data.subrange(offset + bytes.len(), data.len() as int)
}

/// The 24-bit little-endian value of three bytes.
pub open spec fn u24_value(s: Seq<u8>) -> nat {
    s[0] as nat + 256 * (s[1] as nat) + 65536 * (s[2] as nat)
}

/// The three least significant little-endian bytes of `v`.
pub open spec fn u24_bytes(v: nat) -> Seq<u8> {
    seq![(v % 256) as u8, ((v / 256) % 256) as u8, ((v / 65536) % 256) as u8]
}

/// Writes `bytes` into `data` at `offset`.
pub fn write_bytes(data: &mut Vec<u8>, offset: usize, bytes: &[u8])
    requires
        offset + bytes@.len() <= old(data)@.len(),
    ensures
        final(data)@ == overwrite(old(data)@, offset as int, bytes@),
{
    let len = data.len();
    let mut i: usize = 0;
    while i < bytes.len()
        invariant
            len == data@.len(),
            offset + bytes@.len() <= data@.len(),
            data@.len() == old(data)@.len(),
            i <= bytes@.len(),
            forall|k: int| 0 <= k < offset ==> data@[k] == old(data)@[k],
            forall|k: int| 0 <= k < i ==> data@[offset + k] == bytes@[k],
            forall|k: int| offset + i <= k < data@.len() ==> data@[k] == old(data)@[k],
        decreases bytes@.len() - i,
    {
        data[offset + i] = bytes[i];
        i += 1;
    }
    assert(data@ =~= overwrite(old(data)@, offset as int, bytes@));
}

/// Appends all of `bytes` to `out`.
pub fn append_bytes(out: &mut Vec<u8>, bytes: &[u8])
    ensures
        final(out)@ == old(out)@ + bytes@,
{
    let mut i: usize = 0;
    while i < bytes.len()
        invariant
            i <= bytes@.len(),
            out@ == old(out)@ + bytes@.subrange(0, i as int),
        decreases bytes@.len() - i,
    {
        out.push(bytes[i]);
        i += 1;
        assert(out@ =~= old(out)@ + bytes@.subrange(0, i as int));
    }
    assert(bytes@.subrange(0, bytes@.len() as int) =~= bytes@);
}

/// Appends the 32 bytes of an address to `out`.
pub fn append_key(out: &mut Vec<u8>, key: &Key)
    ensures
        final(out)@ == old(out)@ + key@,
{
    append_bytes(out, key.as_slice());
}

/// Appends the little-endian bytes of a `u16`.
pub fn append_u16_le(out: &mut Vec<u8>, v: u16)
    ensures
        final(out)@ == old(out)@ + spec_u16_to_le_bytes(v),
{
    let b = vstd::bytes::u16_to_le_bytes(v);
    append_bytes(out, b.as_slice());
}

/// Appends the little-endian bytes of a `u32`.
pub fn append_u32_le(out: &mut Vec<u8>, v: u32)
    ensures
        final(out)@ == old(out)@ + spec_u32_to_le_bytes(v),
{
    let b = vstd::bytes::u32_to_le_bytes(v);
    append_bytes(out, b.as_slice());
}

/// Appends the little-endian bytes of a `u64`.
pub fn append_u64_le(out: &mut Vec<u8>, v: u64)
    ensures
        final(out)@ == old(out)@ + spec_u64_to_le_bytes(v),
{
    let b = vstd::bytes::u64_to_le_bytes(v);
    append_bytes(out, b.as_slice());
}

/// Reads the little-endian `u32` stored at `offset`.
pub fn read_u32_le(data: &[u8], offset: usize) -> (v: u32)
    requires
        offset + 4 <= data@.len(),
    ensures
        v == spec_u32_from_le_bytes(data@.subrange(offset as int, offset + 4)),
{
    let len = data.len();
    assert(offset + 4 <= len);
    vstd::bytes::u32_from_le_bytes(vstd::slice::slice_subrange(data, offset, offset + 4))
}

/// Reads the little-endian `u64` stored at `offset`.
pub fn read_u64_le(data: &[u8], offset: usize) -> (v: u64)
    requires
        offset + 8 <= data@.len(),
    ensures
        v == spec_u64_from_le_bytes(data@.subrange(offset as int, offset + 8)),
{
    let len = data.len();
    assert(offset + 8 <= len);
    vstd::bytes::u64_from_le_bytes(vstd::slice::slice_subrange(data, offset, offset + 8))
}

/// Reads the 24-bit little-endian value stored at `offset`.
pub fn read_u24_le(data: &[u8], offset: usize) -> (v: u32)
    requires
        offset + 3 <= data@.len(),
    ensures
        v == u24_value(data@.subrange(offset as int, offset + 3)),
        v < 16_777_216,
{
    let b0 = data[offset] as u32;
    let b1 = data[offset + 1] as u32;
    let b2 = data[offset + 2] as u32;
    b0 + 256 * b1 + 65536 * b2
}

/// The three low little-endian bytes of `v`.
pub fn u24_le_bytes(v: u32) -> (out: [u8; 3])
    ensures
        out@ == u24_bytes(v as nat),
{
    let out = [(v % 256) as u8, ((v / 256) % 256) as u8, ((v / 65536) % 256) as u8];
    assert(out@ =~= u24_bytes(v as nat));
    out
}

/// Reads the address stored at `offset`.
pub fn read_key(data: &[u8], offset: usize) -> (k: Key)
    requires
        offset + 32 <= data@.len(),
    ensures
        k@ == data@.subrange(offset as int, offset + 32),
{
    let len = data.len();
    let mut k: Key = [0u8; 32];
    let mut i: usize = 0;
    while i < 32
        invariant
            len == data@.len(),
            offset + 32 <= data@.len(),
            i <= 32,
            k@.len() == 32,
            forall|j: int| 0 <= j < i ==> k@[j] == data@[offset + j],
        decreases 32 - i,
    {
        k[i] = data[offset + i];
        i += 1;
    }
    assert(k@ =~= data@.subrange(offset as int, offset + 32));
    k
}

/// Whether two byte strings are equal.
pub fn bytes_equal(a: &[u8], b: &[u8]) -> (r: bool)
    ensures
        r == (a@ == b@),
{
    if a.len() != b.len() {
        return false;
    }
    let mut i: usize = 0;
    while i < a.len()
        invariant
            a@.len() == b@.len(),
            i <= a@.len(),
            forall|j: int| 0 <= j < i ==> a@[j] == b@[j],
        decreases a@.len() - i,
    {
        if a[i] != b[i] {
            return false;
        }
        i += 1;
    }
    assert(a@ =~= b@);
    true
}

/// Whether two addresses are equal.
pub fn keys_equal(a: &Key, b: &Key) -> (r: bool)
    ensures
        r == (a@ == b@),
{
    bytes_equal(a.as_slice(), b.as_slice())
}

/// The 24-bit encoding reads back the value it was made from.
pub proof fn lemma_u24_round_trip(v: nat)
    requires
        v < 16_777_216,
    ensures
        u24_bytes(v).len() == 3,
        u24_value(u24_bytes(v)) == v,
{
    let b = u24_bytes(v);
    assert(b[0] as nat == v % 256);
    assert(b[1] as nat == (v / 256) % 256);
    assert(b[2] as nat == (v / 65536) % 256);
    assert(v / 65536 < 256) by (nonlinear_arith)
        requires
            v < 16_777_216,
    ;
    assert((v / 65536) % 256 == v / 65536) by (nonlinear_arith)
        requires
            v / 65536 < 256,
    ;
    assert(v == v % 256 + 256 * ((v / 256) % 256) + 65536 * (v / 65536)) by (nonlinear_arith);
}

} // verus!
