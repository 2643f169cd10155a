//! Big-endian integers in byte buffers.

use vstd::prelude::*;

verus! {

/// The two bytes of `v`, most significant first.
pub open spec fn be16(v: u16) -> Seq<u8> {
    seq![(v / 256) as u8, (v % 256) as u8]
}

/// The four bytes of `v`, most significant first.
pub open spec fn be32(v: u32) -> Seq<u8> {
    seq![
        (v / 0x100_0000) as u8,
        (v / 0x1_0000 % 256) as u8,
        (v / 0x100 % 256) as u8,
        (v % 256) as u8,
    ]
}

/// The eight bytes of `v`, most significant first.
pub open spec fn be64(v: u64) -> Seq<u8> {
    be32((v / 0x1_0000_0000) as u32) + be32((v % 0x1_0000_0000) as u32)
}

/// The number that four bytes spell, most significant first.
pub open spec fn be32_value(b: Seq<u8>) -> int
    recommends
        b.len() == 4,
{
    b[0] as int * 0x100_0000 + b[1] as int * 0x1_0000 + b[2] as int * 0x100 + b[3] as int
}

/// The number that eight bytes spell, most significant first.
pub open spec fn be64_value(b: Seq<u8>) -> int
    recommends
        b.len() == 8,
{
    be32_value(b.subrange(0, 4)) * 0x1_0000_0000 + be32_value(b.subrange(4, 8))
}

/// The number that two bytes spell, most significant first.
pub open spec fn be16_value(b: Seq<u8>) -> int
    recommends
        b.len() == 2,
{
    b[0] as int * 256 + b[1] as int
}

/// Reading back what `be16` wrote gives the number written.
pub proof fn lemma_be16_roundtrip(v: u16)
    ensures
        be16(v).len() == 2,
        be16_value(be16(v)) == v,
{
}

/// Reading back what `be32` wrote gives the number written.
pub proof fn lemma_be32_roundtrip(v: u32)
    ensures
        be32(v).len() == 4,
        be32_value(be32(v)) == v,
{
    assert(v == (v / 0x100_0000) * 0x100_0000 + (v / 0x1_0000 % 256) * 0x1_0000 + (v / 0x100 % 256)
        * 0x100 + v % 256) by (bit_vector);
    assert(v / 0x100_0000 < 256) by (bit_vector);
}

/// Reading back what `be64` wrote gives the number written.
pub proof fn lemma_be64_roundtrip(v: u64)
    ensures
        be64(v).len() == 8,
        be64_value(be64(v)) == v,
{
    let hi = (v / 0x1_0000_0000) as u32;
    let lo = (v % 0x1_0000_0000) as u32;
    assert(be64(v).subrange(0, 4) =~= be32(hi));
    assert(be64(v).subrange(4, 8) =~= be32(lo));
    lemma_be32_roundtrip(hi);
    lemma_be32_roundtrip(lo);
}

/// `buf` with the bytes from `offset` on replaced by `piece`.
pub open spec fn overwrite(buf: Seq<u8>, offset: int, piece: Seq<u8>) -> Seq<u8>
    recommends
        0 <= offset,
        offset + piece.len() <= buf.len(),
{
    Seq::new(
        buf.len(),
        |i: int|
            if offset <= i < offset + piece.len() {
                piece[i - offset]
            } else {
                buf[i]
            },
    )
}

/// Writes `val` big-endian at `offset`.
pub fn write_be16(buf: &mut Vec<u8>, offset: usize, val: u16)
    requires
        offset + 2 <= old(buf).len(),
    ensures
        final(buf)@ == overwrite(old(buf)@, offset as int, be16(val)),
{
    buf.set(offset, (val / 256) as u8);
    buf.set(offset + 1, (val % 256) as u8);
    assert(buf@ =~= overwrite(old(buf)@, offset as int, be16(val)));
}

/// Writes `val` big-endian at `offset`.
pub fn write_be32(buf: &mut Vec<u8>, offset: usize, val: u32)
    requires
        offset + 4 <= old(buf).len(),
    ensures
        final(buf)@ == overwrite(old(buf)@, offset as int, be32(val)),
{
    buf.set(offset, (val / 0x100_0000) as u8);
    buf.set(offset + 1, (val / 0x1_0000 % 256) as u8);
    buf.set(offset + 2, (val / 0x100 % 256) as u8);
    buf.set(offset + 3, (val % 256) as u8);
    assert(buf@ =~= overwrite(old(buf)@, offset as int, be32(val)));
}

/// Writes `val` big-endian at `offset`.
pub fn write_be64(buf: &mut Vec<u8>, offset: usize, val: u64)
    requires
        offset + 8 <= old(buf).len(),
    ensures
        final(buf)@ == overwrite(old(buf)@, offset as int, be64(val)),
{
    let hi: u32 = (val / 0x1_0000_0000) as u32;
    let lo: u32 = (val % 0x1_0000_0000) as u32;
    write_be32(buf, offset, hi);
    write_be32(buf, offset + 4, lo);
    assert(buf@ =~= overwrite(old(buf)@, offset as int, be64(val)));
}

/// Reads the big-endian `u32` at `offset`.
pub fn read_be32(buf: &[u8], offset: usize) -> (val: u32)
    requires
        offset + 4 <= buf.len(),
    ensures
        val == be32_value(buf@.subrange(offset as int, offset + 4)),
        buf@.subrange(offset as int, offset + 4) == be32(val),
{
    let b0: u32 = buf[offset] as u32;
    let b1: u32 = buf[offset + 1] as u32;
    let b2: u32 = buf[offset + 2] as u32;
    let b3: u32 = buf[offset + 3] as u32;
    let val: u32 = b0 * 0x100_0000 + b1 * 0x1_0000 + b2 * 0x100 + b3;
    proof {
        assert(val / 0x100_0000 == b0 && val / 0x1_0000 % 256 == b1 && val / 0x100 % 256 == b2 && val
            % 256 == b3) by (bit_vector)
            requires
                b0 < 256 && b1 < 256 && b2 < 256 && b3 < 256,
                val == b0 * 0x100_0000 + b1 * 0x1_0000 + b2 * 0x100 + b3,
        ;
        assert(buf@.subrange(offset as int, offset + 4) =~= be32(val));
    }
    val
}

} // verus!
