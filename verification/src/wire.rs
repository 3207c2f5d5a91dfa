//! Fixed-width integer encodings used by the USB MSC and SCSI wire formats.
//!
//! USB Bulk-Only Transport packets are little-endian, while most SCSI command
//! and response fields are big-endian.

use vstd::prelude::*;

verus! {

/// Big-endian bytes of a 32-bit value.
pub open spec fn be32(x: u32) -> Seq<u8> {
    seq![
        (x / 0x100_0000) as u8,
        ((x / 0x1_0000) % 0x100) as u8,
        ((x / 0x100) % 0x100) as u8,
        (x % 0x100) as u8,
    ]
}

/// Little-endian bytes of a 32-bit value.
pub open spec fn le32(x: u32) -> Seq<u8> {
    seq![
        (x % 0x100) as u8,
        ((x / 0x100) % 0x100) as u8,
        ((x / 0x1_0000) % 0x100) as u8,
        (x / 0x100_0000) as u8,
    ]
}

/// Big-endian bytes of a 16-bit value.
pub open spec fn be16(x: u16) -> Seq<u8> {
    seq![(x / 0x100) as u8, (x % 0x100) as u8]
}

/// Value of four bytes read in big-endian order.
pub open spec fn from_be32(b0: u8, b1: u8, b2: u8, b3: u8) -> int {
    b0 * 0x100_0000 + b1 * 0x1_0000 + b2 * 0x100 + b3
}

/// Value of four bytes read in little-endian order.
pub open spec fn from_le32(b0: u8, b1: u8, b2: u8, b3: u8) -> int {
    from_be32(b3, b2, b1, b0)
}

/// Value of two bytes read in big-endian order.
pub open spec fn from_be16(b0: u8, b1: u8) -> int {
    b0 * 0x100 + b1
}

/// Encodes `x` as four big-endian bytes.
pub fn u32_to_be_bytes(x: u32) -> (r: [u8; 4])
    ensures
        r@ == be32(x),
{
    let r = [(x / 0x100_0000) as u8, ((x / 0x1_0000) % 0x100) as u8, ((x / 0x100) % 0x100) as u8, (x % 0x100) as u8];
    assert(r@ =~= be32(x));
    r
}

/// Encodes `x` as four little-endian bytes.
pub fn u32_to_le_bytes(x: u32) -> (r: [u8; 4])
    ensures
        r@ == le32(x),
{
    let r = [(x % 0x100) as u8, ((x / 0x100) % 0x100) as u8, ((x / 0x1_0000) % 0x100) as u8, (x / 0x100_0000) as u8];
    assert(r@ =~= le32(x));
    r
}

/// Encodes `x` as two big-endian bytes.
pub fn u16_to_be_bytes(x: u16) -> (r: [u8; 2])
    ensures
        r@ == be16(x),
{
    let r = [(x / 0x100) as u8, (x % 0x100) as u8];
    assert(r@ =~= be16(x));
    r
}

/// Reads a big-endian 32-bit value.
pub fn u32_from_be_bytes(b0: u8, b1: u8, b2: u8, b3: u8) -> (r: u32)
    ensures
        r == from_be32(b0, b1, b2, b3),
{
    (b0 as u32) * 0x100_0000 + (b1 as u32) * 0x1_0000 + (b2 as u32) * 0x100 + (b3 as u32)
}

/// Reads a little-endian 32-bit value.
pub fn u32_from_le_bytes(b0: u8, b1: u8, b2: u8, b3: u8) -> (r: u32)
    ensures
        r == from_le32(b0, b1, b2, b3),
{
    u32_from_be_bytes(b3, b2, b1, b0)
}

/// Reads a big-endian 16-bit value.
pub fn u16_from_be_bytes(b0: u8, b1: u8) -> (r: u16)
    ensures
        r == from_be16(b0, b1),
{
    (b0 as u16) * 0x100 + (b1 as u16)
}

/// Decoding the little-endian encoding of `x` gives `x` back.
pub proof fn lemma_le32_roundtrip(x: u32)
    ensures
        from_le32(le32(x)[0], le32(x)[1], le32(x)[2], le32(x)[3]) == x,
{
}

/// Decoding the big-endian encoding of `x` gives `x` back.
pub proof fn lemma_be32_roundtrip(x: u32)
    ensures
        from_be32(be32(x)[0], be32(x)[1], be32(x)[2], be32(x)[3]) == x,
{
}

/// Decoding the big-endian encoding of `x` gives `x` back.
pub proof fn lemma_be16_roundtrip(x: u16)
    ensures
        from_be16(be16(x)[0], be16(x)[1]) == x,
{
}

/// Copies the longest common prefix of `src` into `dst` and returns its length.
pub fn copy_prefix(src: &[u8], dst: &mut [u8]) -> (len: usize)
    ensures
        len == if src@.len() < old(dst)@.len() { src@.len() } else { old(dst)@.len() },
        final(dst)@ == src@.subrange(0, len as int) + old(dst)@.subrange(len as int, old(dst)@.len() as int),
{
    let len = if src.len() < dst.len() { src.len() } else { dst.len() };
    let mut i: usize = 0;
    while i < len
        invariant
            len <= src@.len(),
            len <= dst@.len(),
            dst@.len() == old(dst)@.len(),
            i <= len,
            forall|k: int| 0 <= k < i ==> dst@[k] == src@[k],
            forall|k: int| i <= k < dst@.len() ==> dst@[k] == old(dst)@[k],
        decreases len - i,
    {
        dst[i] = src[i];
        i = i + 1;
    }
    assert(dst@ =~= src@.subrange(0, len as int) + old(dst)@.subrange(len as int, old(dst)@.len() as int));
    len
}

/// Four big-endian bytes hold a 32-bit value.
pub proof fn lemma_from_be32_bound(b0: u8, b1: u8, b2: u8, b3: u8)
    ensures
        0 <= from_be32(b0, b1, b2, b3) <= u32::MAX,
{
    assert(0 <= b0 * 0x100_0000 + b1 * 0x1_0000 + b2 * 0x100 + b3 <= 0xFFFF_FFFF) by (nonlinear_arith)
        requires b0 <= 255, b1 <= 255, b2 <= 255, b3 <= 255;
}

/// Two big-endian bytes hold a 16-bit value.
pub proof fn lemma_from_be16_bound(b0: u8, b1: u8)
    ensures
        0 <= from_be16(b0, b1) <= u16::MAX,
{
    assert(0 <= b0 * 0x100 + b1 <= 0xFFFF) by (nonlinear_arith)
        requires b0 <= 255, b1 <= 255;
}

} // verus!
