//! The arithmetic of the instruction set on 32-bit words: wrapping and
//! trapping addition, signed comparison, shifts, multiplication into a
//! 64-bit pair and division with its edge cases.

use vstd::prelude::*;
use crate::bits::{lemma_signed_cast, lemma_unsigned_cast, signed, unsigned};

verus! {

/// The sum of two words, wrapping at 32 bits.
pub open spec fn add32(a: u32, b: u32) -> u32 {
    ((a + b) % 0x1_0000_0000) as u32
}

/// The difference of two words, wrapping at 32 bits.
pub open spec fn sub32(a: u32, b: u32) -> u32 {
    ((a - b) % 0x1_0000_0000) as u32
}

/// Whether a signed value fits in 32 bits.
pub open spec fn fits_i32(v: int) -> bool {
    -0x8000_0000 <= v <= 0x7fff_ffff
}

/// The signed sum of two words, or `None` where it does not fit.
pub open spec fn add_trap(a: u32, b: u32) -> Option<u32> {
    if fits_i32(signed(a) + signed(b)) {
        Some(unsigned(signed(a) + signed(b)))
    } else {
        None
    }
}

/// The signed difference of two words, or `None` where it does not fit.
pub open spec fn sub_trap(a: u32, b: u32) -> Option<u32> {
    if fits_i32(signed(a) - signed(b)) {
        Some(unsigned(signed(a) - signed(b)))
    } else {
        None
    }
}

/// `a < b`, both read as signed.
pub open spec fn less_signed(a: u32, b: u32) -> bool {
    signed(a) < signed(b)
}

/// `a` shifted right by `n` bits, the sign bit filling in from the left.
pub open spec fn shift_right_arith(a: u32, n: u32) -> u32
    recommends
        n < 32,
{
    ((a as i32) >> n) as u32
}

/// A byte, sign-extended to 32 bits.
pub open spec fn sign_extend8(b: u8) -> u32 {
    if b >= 0x80 {
        (b as u32) | 0xffff_ff00u32
    } else {
        b as u32
    }
}

/// A halfword, sign-extended to 32 bits.
pub open spec fn sign_extend_half(h: u16) -> u32 {
    if h >= 0x8000 {
        (h as u32) | 0xffff_0000u32
    } else {
        h as u32
    }
}

/// The 64-bit two's-complement word of `p`, as its high and low half.
pub open spec fn halves(p: int) -> (u32, u32)
    recommends
        -0x8000_0000_0000_0000 <= p < 0x1_0000_0000_0000_0000,
{
    let w = if p >= 0 {
        p
    } else {
        p + 0x1_0000_0000_0000_0000
    };
    ((w / 0x1_0000_0000) as u32, (w % 0x1_0000_0000) as u32)
}

/// The signed product as (high, low).
pub open spec fn mul_signed(a: u32, b: u32) -> (u32, u32) {
    halves(signed(a) * signed(b))
}

/// The unsigned product as (high, low).
pub open spec fn mul_unsigned(a: u32, b: u32) -> (u32, u32) {
    halves(a * b)
}

/// The absolute value.
pub open spec fn abs(v: int) -> int {
    if v < 0 {
        -v
    } else {
        v
    }
}

/// The quotient of `n` by `d`, rounded towards zero.
pub open spec fn trunc_div(n: int, d: int) -> int
    recommends
        d != 0,
{
    if (n < 0) != (d < 0) {
        -(abs(n) / abs(d))
    } else {
        abs(n) / abs(d)
    }
}

/// The remainder that goes with `trunc_div`: it has the sign of `n`.
pub open spec fn trunc_rem(n: int, d: int) -> int
    recommends
        d != 0,
{
    if n < 0 {
        -(abs(n) % abs(d))
    } else {
        abs(n) % abs(d)
    }
}

/// Unsigned division as (remainder, quotient). By zero: the numerator and
/// all ones.
pub open spec fn div_unsigned(num: u32, div: u32) -> (u32, u32) {
    if div == 0 {
        (num, 0xffff_ffff)
    } else {
        (num % div, num / div)
    }
}

/// Signed division as (remainder, quotient). By zero: the numerator, and 1
/// for a numerator that is not negative, -1 for one that is. The least
/// value by -1: zero and the least value. Else rounded towards zero.
pub open spec fn div_signed(num: u32, div: u32) -> (u32, u32) {
    let n = signed(num);
    let d = signed(div);
    if d == 0 {
        (
            num,
            if n >= 0 {
                1
            } else {
                0xffff_ffff
            },
        )
    } else if n == -0x8000_0000 && d == -1 {
        (0, 0x8000_0000)
    } else {
        (unsigned(trunc_rem(n, d)), unsigned(trunc_div(n, d)))
    }
}

proof fn lemma_casts(a: u32, b: u8, h: u16, w: u64, v: i64)
    by (bit_vector)
    ensures
        ((b as i8) as u32) == sign_extend8(b),
        ((h as i16) as u32) == sign_extend_half(h),
        (w >> 32) as u32 == w / 0x1_0000_0000,
        (w as u32) == w % 0x1_0000_0000,
        v >= 0 ==> (v as u64) == v,
        v < 0 ==> (v as u64) == v + 0x1_0000_0000_0000_0000,
{
}

/// `a + b`, wrapping.
pub fn add_wrapping(a: u32, b: u32) -> (r: u32)
    ensures
        r == add32(a, b),
{
    a.wrapping_add(b)
}

/// `a - b`, wrapping.
pub fn sub_wrapping(a: u32, b: u32) -> (r: u32)
    ensures
        r == sub32(a, b),
{
    a.wrapping_sub(b)
}

/// `a + b` as signed values, `None` on overflow.
pub fn add_checked(a: u32, b: u32) -> (r: Option<u32>)
    ensures
        r == add_trap(a, b),
{
    proof {
        lemma_signed_cast(a);
        lemma_signed_cast(b);
    }
    match (a as i32).checked_add(b as i32) {
        Some(v) => {
            proof {
                lemma_unsigned_cast(v);
            }
            Some(v as u32)
        },
        None => None,
    }
}

/// `a - b` as signed values, `None` on overflow.
pub fn sub_checked(a: u32, b: u32) -> (r: Option<u32>)
    ensures
        r == sub_trap(a, b),
{
    proof {
        lemma_signed_cast(a);
        lemma_signed_cast(b);
    }
    match (a as i32).checked_sub(b as i32) {
        Some(v) => {
            proof {
                lemma_unsigned_cast(v);
            }
            Some(v as u32)
        },
        None => None,
    }
}

/// Whether `a < b` as signed values.
pub fn lt_signed(a: u32, b: u32) -> (r: bool)
    ensures
        r == less_signed(a, b),
{
    proof {
        lemma_signed_cast(a);
        lemma_signed_cast(b);
    }
    (a as i32) < (b as i32)
}

/// Arithmetic shift right.
pub fn sra(a: u32, n: u32) -> (r: u32)
    requires
        n < 32,
    ensures
        r == shift_right_arith(a, n),
{
    ((a as i32) >> n) as u32
}

/// A byte, sign-extended.
pub fn extend8(b: u8) -> (r: u32)
    ensures
        r == sign_extend8(b),
{
    proof {
        lemma_casts(0, b, 0, 0, 0);
    }
    (b as i8) as u32
}

/// A halfword, sign-extended.
pub fn extend16(h: u16) -> (r: u32)
    ensures
        r == sign_extend_half(h),
{
    proof {
        lemma_casts(0, 0, h, 0, 0);
    }
    (h as i16) as u32
}

/// The signed product as (high, low).
pub fn mult(a: u32, b: u32) -> (r: (u32, u32))
    ensures
        r == mul_signed(a, b),
{
    proof {
        lemma_signed_cast(a);
        lemma_signed_cast(b);
    }
    let x: i64 = (a as i32) as i64;
    let y: i64 = (b as i32) as i64;
    assert(-0x4000_0000_0000_0000 <= x * y <= 0x4000_0000_0000_0000) by (nonlinear_arith)
        requires
            -0x8000_0000 <= x <= 0x7fff_ffff,
            -0x8000_0000 <= y <= 0x7fff_ffff,
    ;
    let p: i64 = x * y;
    let v: u64 = p as u64;
    proof {
        lemma_casts(0, 0, 0, v, p);
    }
    ((v >> 32) as u32, v as u32)
}

/// The unsigned product as (high, low).
pub fn multu(a: u32, b: u32) -> (r: (u32, u32))
    ensures
        r == mul_unsigned(a, b),
{
    let x: u64 = a as u64;
    let y: u64 = b as u64;
    assert(0 <= x * y <= 0xffff_fffe_0000_0001) by (nonlinear_arith)
        requires
            0 <= x <= 0xffff_ffff,
            0 <= y <= 0xffff_ffff,
    ;
    let v: u64 = x * y;
    proof {
        lemma_casts(0, 0, 0, v, 0);
    }
    ((v >> 32) as u32, v as u32)
}

/// Unsigned division as (remainder, quotient).
pub fn divu(num: u32, den: u32) -> (r: (u32, u32))
    ensures
        r == div_unsigned(num, den),
{
    if den == 0 {
        (num, 0xffff_ffff)
    } else {
        (num % den, num / den)
    }
}

/// Signed division as (remainder, quotient).
pub fn div(num: u32, den: u32) -> (r: (u32, u32))
    ensures
        r == div_signed(num, den),
{
    proof {
        lemma_signed_cast(num);
        lemma_signed_cast(den);
    }
    let n: i64 = (num as i32) as i64;
    let d: i64 = (den as i32) as i64;
    if d == 0 {
        (
            num,
            if n >= 0 {
                1
            } else {
                0xffff_ffff
            },
        )
    } else if n == -0x8000_0000 && d == -1 {
        (0, 0x8000_0000)
    } else {
        let an: u64 = if n < 0 {
            (-n) as u64
        } else {
            n as u64
        };
        let ad: u64 = if d < 0 {
            (-d) as u64
        } else {
            d as u64
        };
        let q: u64 = an / ad;
        let m: u64 = an % ad;
        assert(q <= an && m < ad) by (nonlinear_arith)
            requires
                q == an / ad,
                m == an % ad,
                ad > 0,
        ;
        assert(ad >= 2 ==> 2 * q <= an) by (nonlinear_arith)
            requires
                q == an / ad,
                ad > 0,
        ;
        let qs: i64 = if (n < 0) != (d < 0) {
            -(q as i64)
        } else {
            q as i64
        };
        let ms: i64 = if n < 0 {
            -(m as i64)
        } else {
            m as i64
        };
        proof {
            lemma_unsigned_cast(qs as i32);
            lemma_unsigned_cast(ms as i32);
        }
        ((ms as i32) as u32, (qs as i32) as u32)
    }
}

} // verus!
