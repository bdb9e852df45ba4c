//! The 32-bit checksum that guards the persisted configuration record,
//! and its little-endian four-byte encoding.
use vstd::prelude::*;
use vstd::slice::slice_index_get;

verus! {

/// The CRC32 checksum of a byte sequence. It depends on the bytes
/// alone; its value is fixed by the IEEE polynomial that `crc32fast`
/// implements and is not spelled out here.
pub uninterp spec fn crc32_of(bytes: Seq<u8>) -> u32;

/// Relies on `crc32fast::hash`: the CRC32 of a buffer is a function of
/// the buffer's bytes alone.
#[verifier::external_body]
pub fn crc32(buf: &[u8]) -> (r: u32)
    ensures
        r == crc32_of(buf@),
{
    crc32fast::hash(buf)
}

/// The little-endian four-byte encoding of a 32-bit value.
pub open spec fn u32_le_bytes(u: u32) -> Seq<u8> {
    seq![
        (u & 0xff) as u8,
        ((u >> 8) & 0xff) as u8,
        ((u >> 16) & 0xff) as u8,
        ((u >> 24) & 0xff) as u8,
    ]
}

/// Encodes a 32-bit value as its four little-endian bytes.
pub fn u32_to_arr(u: u32) -> (r: Vec<u8>)
    ensures
        r@ == u32_le_bytes(u),
{
    let mut out: Vec<u8> = Vec::new();
    out.push((u & 0xff) as u8);
    out.push(((u >> 8) & 0xff) as u8);
    out.push(((u >> 16) & 0xff) as u8);
    out.push(((u >> 24) & 0xff) as u8);
    proof {
        assert(out@ =~= u32_le_bytes(u));
    }
    out
}

/// The four-byte encoding determines the value: equal encodings mean
/// equal values.
pub proof fn lemma_u32_le_bytes_injective(a: u32, b: u32)
    ensures
        (u32_le_bytes(a) == u32_le_bytes(b)) == (a == b),
{
    if u32_le_bytes(a) == u32_le_bytes(b) {
        assert(u32_le_bytes(a)[0] == u32_le_bytes(b)[0]);
        assert(u32_le_bytes(a)[1] == u32_le_bytes(b)[1]);
        assert(u32_le_bytes(a)[2] == u32_le_bytes(b)[2]);
        assert(u32_le_bytes(a)[3] == u32_le_bytes(b)[3]);
        assert((a & 0xff) as u8 == (b & 0xff) as u8 && ((a >> 8) & 0xff) as u8 == ((b >> 8)
            & 0xff) as u8 && ((a >> 16) & 0xff) as u8 == ((b >> 16) & 0xff) as u8 && ((a >> 24)
            & 0xff) as u8 == ((b >> 24) & 0xff) as u8 ==> a == b) by (bit_vector);
    }
}

/// Reads a 32-bit value back from its four little-endian bytes.
pub fn arr_to_u32(arr: &[u8]) -> (r: u32)
    requires
        arr@.len() == 4,
    ensures
        arr@ == u32_le_bytes(r),
{
    let b0 = *slice_index_get(arr, 0) as u32;
    let b1 = *slice_index_get(arr, 1) as u32;
    let b2 = *slice_index_get(arr, 2) as u32;
    let b3 = *slice_index_get(arr, 3) as u32;
    let r = b0 | (b1 << 8) | (b2 << 16) | (b3 << 24);
    proof {
        assert(r & 0xff == b0 && (r >> 8) & 0xff == b1 && (r >> 16) & 0xff == b2 && (r >> 24)
            & 0xff == b3) by (bit_vector)
            requires
                r == b0 | (b1 << 8) | (b2 << 16) | (b3 << 24) && b0 < 256 && b1 < 256 && b2 < 256
                    && b3 < 256,
        ;
        assert(arr@ =~= u32_le_bytes(r));
    }
    r
}

} // verus!
