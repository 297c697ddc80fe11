//! Little-endian reads and writes on a sequence of bytes, the model of both
//! memory stores.

use vstd::prelude::*;

verus! {

/// Byte `k` (0 the lowest) of the word `v`.
pub open spec fn byte_of(v: u32, k: u32) -> u8
    recommends
        k < 4,
{
    ((v >> (8 * k)) & 0xff) as u8
}

/// The little-endian halfword at `off`.
pub open spec fn read16(m: Seq<u8>, off: int) -> u16
    recommends
        0 <= off,
        off + 2 <= m.len(),
{
    (m[off] as u16) | ((m[off + 1] as u16) << 8)
}

/// The little-endian word at `off`.
pub open spec fn read32(m: Seq<u8>, off: int) -> u32
    recommends
        0 <= off,
        off + 4 <= m.len(),
{
    (m[off] as u32) | ((m[off + 1] as u32) << 8) | ((m[off + 2] as u32) << 16) | ((m[off
        + 3] as u32) << 24)
}

/// `m` with the halfword `v` written at `off`, low byte first.
pub open spec fn write16(m: Seq<u8>, off: int, v: u16) -> Seq<u8>
    recommends
        0 <= off,
        off + 2 <= m.len(),
{
    m.update(off, (v & 0xff) as u8).update(off + 1, ((v >> 8) & 0xff) as u8)
}

/// `m` with the word `v` written at `off`, low byte first.
pub open spec fn write32(m: Seq<u8>, off: int, v: u32) -> Seq<u8>
    recommends
        0 <= off,
        off + 4 <= m.len(),
{
    m.update(off, byte_of(v, 0)).update(off + 1, byte_of(v, 1)).update(
        off + 2,
        byte_of(v, 2),
    ).update(off + 3, byte_of(v, 3))
}

/// Four bytes put together low byte first give back the word they were cut
/// from, and two bytes the halfword.
pub proof fn lemma_bytes_join(v: u32, h: u16)
    ensures
        (byte_of(v, 0) as u32) | ((byte_of(v, 1) as u32) << 8) | ((byte_of(v, 2) as u32) << 16) | ((
        byte_of(v, 3) as u32) << 24) == v,
        (((h & 0xff) as u8) as u16) | (((((h >> 8) & 0xff) as u8) as u16) << 8) == h,
{
    assert((byte_of(v, 0) as u32) | ((byte_of(v, 1) as u32) << 8) | ((byte_of(v, 2) as u32) << 16)
        | ((byte_of(v, 3) as u32) << 24) == v && (((h & 0xff) as u8) as u16) | (((((h >> 8)
        & 0xff) as u8) as u16) << 8) == h) by (bit_vector);
}

/// A word that was written is the word that is read at the same place; the
/// length stays, and so does every byte outside the four written.
pub proof fn lemma_read32_after_write32(m: Seq<u8>, off: int, v: u32)
    requires
        0 <= off,
        off + 4 <= m.len(),
    ensures
        read32(write32(m, off, v), off) == v,
        write32(m, off, v).len() == m.len(),
        forall|i: int|
            0 <= i < m.len() && !(off <= i < off + 4) ==> write32(m, off, v)[i] == m[i],
{
    lemma_bytes_join(v, 0);
}

/// A halfword that was written is the halfword that is read at the same
/// place; the length stays, and so does every byte outside the two written.
pub proof fn lemma_read16_after_write16(m: Seq<u8>, off: int, h: u16)
    requires
        0 <= off,
        off + 2 <= m.len(),
    ensures
        read16(write16(m, off, h), off) == h,
        write16(m, off, h).len() == m.len(),
        forall|i: int|
            0 <= i < m.len() && !(off <= i < off + 2) ==> write16(m, off, h)[i] == m[i],
{
    lemma_bytes_join(0, h);
}

/// Writing a word away from `at` leaves the word at `at` as it was.
pub proof fn lemma_read32_other_write32(m: Seq<u8>, off: int, v: u32, at: int)
    requires
        0 <= off,
        off + 4 <= m.len(),
        0 <= at,
        at + 4 <= m.len(),
        at + 4 <= off || off + 4 <= at,
    ensures
        read32(write32(m, off, v), at) == read32(m, at),
{
}

} // verus!
