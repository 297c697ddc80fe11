//! Bit ranges of a 32-bit word, and the two's-complement reading of a word.

use vstd::prelude::*;

verus! {

/// The word whose `n` lowest bits are set (all 32 when `n >= 32`).
pub open spec fn low_mask(n: u32) -> u32 {
    if n >= 32 {
        0xffff_ffffu32
    } else {
        ((1u32 << n) - 1) as u32
    }
}

/// Bits `hi..=lo` of `w`, moved down so that bit `lo` becomes bit 0.
pub open spec fn bits(w: u32, hi: u32, lo: u32) -> u32
    recommends
        lo <= hi <= 31,
{
    (w >> lo) & low_mask((hi - lo + 1) as u32)
}

/// Bit `k` of `w`, as 0 or 1.
pub open spec fn bit(w: u32, k: u32) -> u32
    recommends
        k <= 31,
{
    (w >> k) & 1
}

/// The value of `x` read as a two's-complement signed number.
pub open spec fn signed(x: u32) -> int {
    if x < 0x8000_0000 {
        x as int
    } else {
        x as int - 0x1_0000_0000
    }
}

/// The word that stands for `v` in two's complement.
pub open spec fn unsigned(v: int) -> u32
    recommends
        -0x8000_0000 <= v <= 0x7fff_ffff,
{
    if v >= 0 {
        v as u32
    } else {
        (v + 0x1_0000_0000) as u32
    }
}

/// A bit range holds exactly the bits it names: bit `k` of the field is bit
/// `lo + k` of the word while `lo + k <= hi`, and zero above that.
pub proof fn lemma_bits_exact(w: u32, hi: u32, lo: u32, k: u32)
    requires
        lo <= hi <= 31,
        k <= 31,
    ensures
        bit(bits(w, hi, lo), k) == (if k <= hi - lo {
            bit(w, (lo + k) as u32)
        } else {
            0
        }),
{
    assert(bit(bits(w, hi, lo), k) == (if k <= hi - lo {
        bit(w, (lo + k) as u32)
    } else {
        0
    })) by (bit_vector)
        requires
            lo <= hi <= 31,
            k <= 31,
    ;
}

/// A field of `n` bits is below `2^n`.
pub proof fn lemma_bits_bound(w: u32, hi: u32, lo: u32)
    requires
        lo <= hi <= 31,
    ensures
        bits(w, hi, lo) <= low_mask((hi - lo + 1) as u32),
{
    assert(bits(w, hi, lo) <= low_mask((hi - lo + 1) as u32)) by (bit_vector)
        requires
            lo <= hi <= 31,
    ;
}

/// Casting between `u32` and `i32` is the two's-complement reading.
pub proof fn lemma_signed_cast(x: u32)
    ensures
        (x as i32) as int == signed(x),
        unsigned(signed(x)) == x,
        ((x as i32) as u32) == x,
{
    assert(x < 0x8000_0000u32 ==> (x as i32) == x) by (bit_vector);
    assert(x >= 0x8000_0000u32 ==> (x as i32) == x - 0x1_0000_0000) by (bit_vector);
    assert(((x as i32) as u32) == x) by (bit_vector);
}

/// Casting a signed value back to a word gives its two's-complement word.
pub proof fn lemma_unsigned_cast(v: i32)
    ensures
        (v as u32) == unsigned(v as int),
        signed(v as u32) == v,
{
    assert(v >= 0 ==> (v as u32) == v) by (bit_vector);
    assert(v < 0 ==> (v as u32) == v + 0x1_0000_0000) by (bit_vector);
}

} // verus!
