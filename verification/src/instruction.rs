//! The bit fields of a 32-bit instruction word.

use vstd::prelude::*;
use crate::bits::bits;

verus! {

/// A 32-bit instruction word. Its fields are decoded on demand.
#[derive(Clone, Copy, Debug, PartialEq, Eq, Structural)]
pub struct Instruction(pub u32);

/// The 16-bit value `imm`, sign-extended to 32 bits.
pub open spec fn sign_extend16(imm: u32) -> u32
    recommends
        imm <= 0xffff,
{
    if imm >= 0x8000 {
        (imm | 0xffff_0000u32)
    } else {
        imm
    }
}

/// What the shifts and masks of the decoder compute, field by field.
proof fn lemma_fields(w: u32)
    by (bit_vector)
    ensures
        w >> 26 == bits(w, 31, 26),
        w & 0x3f == bits(w, 5, 0),
        (w >> 21) & 0x1f == bits(w, 25, 21),
        (w >> 16) & 0x1f == bits(w, 20, 16),
        (w >> 11) & 0x1f == bits(w, 15, 11),
        (w >> 6) & 0x1f == bits(w, 10, 6),
        w & 0xffff == bits(w, 15, 0),
        w & 0x3ff_ffff == bits(w, 25, 0),
        bits(w, 31, 26) < 64,
        bits(w, 5, 0) < 64,
        bits(w, 25, 21) < 32,
        bits(w, 20, 16) < 32,
        bits(w, 15, 11) < 32,
        bits(w, 10, 6) < 32,
        bits(w, 15, 0) < 0x1_0000,
        bits(w, 25, 0) < 0x400_0000,
        (((w & 0xffff) as u16) as i16) as u32 == sign_extend16(bits(w, 15, 0)),
{
}

impl Instruction {
    pub open spec fn spec_primary(&self) -> u32 {
        bits(self.0, 31, 26)
    }

    pub open spec fn spec_secondary(&self) -> u32 {
        bits(self.0, 5, 0)
    }

    pub open spec fn spec_rd(&self) -> usize {
        bits(self.0, 15, 11) as usize
    }

    pub open spec fn spec_rt(&self) -> usize {
        bits(self.0, 20, 16) as usize
    }

    pub open spec fn spec_rs(&self) -> usize {
        bits(self.0, 25, 21) as usize
    }

    pub open spec fn spec_imm(&self) -> u32 {
        bits(self.0, 15, 0)
    }

    pub open spec fn spec_imm_se(&self) -> u32 {
        sign_extend16(bits(self.0, 15, 0))
    }

    pub open spec fn spec_imm5(&self) -> u32 {
        bits(self.0, 10, 6)
    }

    pub open spec fn spec_imm_jmp(&self) -> u32 {
        bits(self.0, 25, 0)
    }

    /// Bits 31..=26: the primary opcode.
    #[verifier::when_used_as_spec(spec_primary)]
    pub fn primary(&self) -> (r: u32)
        ensures
            r == bits(self.0, 31, 26),
            r < 64,
    {
        proof {
            lemma_fields(self.0);
        }
        self.0 >> 26
    }

    /// Bits 5..=0: the secondary opcode.
    #[verifier::when_used_as_spec(spec_secondary)]
    pub fn secondary(&self) -> (r: u32)
        ensures
            r == bits(self.0, 5, 0),
            r < 64,
    {
        proof {
            lemma_fields(self.0);
        }
        self.0 & 0x3f
    }

    /// Bits 15..=11: the register index `rd`.
    #[verifier::when_used_as_spec(spec_rd)]
    pub fn rd(&self) -> (r: usize)
        ensures
            r == bits(self.0, 15, 11),
            r < 32,
    {
        proof {
            lemma_fields(self.0);
        }
        ((self.0 >> 11) & 0x1f) as usize
    }

    /// Bits 20..=16: the register index `rt`.
    #[verifier::when_used_as_spec(spec_rt)]
    pub fn rt(&self) -> (r: usize)
        ensures
            r == bits(self.0, 20, 16),
            r < 32,
    {
        proof {
            lemma_fields(self.0);
        }
        ((self.0 >> 16) & 0x1f) as usize
    }

    /// Bits 25..=21: the register index `rs`.
    #[verifier::when_used_as_spec(spec_rs)]
    pub fn rs(&self) -> (r: usize)
        ensures
            r == bits(self.0, 25, 21),
            r < 32,
    {
        proof {
            lemma_fields(self.0);
        }
        ((self.0 >> 21) & 0x1f) as usize
    }

    /// Bits 15..=0: the immediate, zero-extended.
    #[verifier::when_used_as_spec(spec_imm)]
    pub fn imm(&self) -> (r: u32)
        ensures
            r == bits(self.0, 15, 0),
            r <= 0xffff,
    {
        proof {
            lemma_fields(self.0);
        }
        self.0 & 0xffff
    }

    /// Bits 15..=0: the immediate, sign-extended from 16 to 32 bits.
    #[verifier::when_used_as_spec(spec_imm_se)]
    pub fn imm_se(&self) -> (r: u32)
        ensures
            r == sign_extend16(bits(self.0, 15, 0)),
    {
        proof {
            lemma_fields(self.0);
        }
        (((self.0 & 0xffff) as u16) as i16) as u32
    }

    /// Bits 10..=6: the shift amount.
    #[verifier::when_used_as_spec(spec_imm5)]
    pub fn imm5(&self) -> (r: u32)
        ensures
            r == bits(self.0, 10, 6),
            r < 32,
    {
        proof {
            lemma_fields(self.0);
        }
        (self.0 >> 6) & 0x1f
    }

    /// Bits 25..=0: the jump target field.
    #[verifier::when_used_as_spec(spec_imm_jmp)]
    pub fn imm_jmp(&self) -> (r: u32)
        ensures
            r == bits(self.0, 25, 0),
            r < 0x400_0000,
    {
        proof {
            lemma_fields(self.0);
        }
        self.0 & 0x3ff_ffff
    }
}

/// The register fields name one of the thirty-two registers.
pub proof fn lemma_field_bounds(w: u32)
    ensures
        Instruction(w).spec_rs() < 32,
        Instruction(w).spec_rt() < 32,
        Instruction(w).spec_rd() < 32,
        Instruction(w).spec_imm5() < 32,
{
    lemma_fields(w);
}

/// Sign extension keeps the low 16 bits and copies bit 15 into the 16 above.
pub proof fn lemma_sign_extend16(imm: u32)
    requires
        imm <= 0xffff,
    ensures
        sign_extend16(imm) & 0xffff == imm,
        sign_extend16(imm) >> 16 == (if imm & 0x8000 != 0 {
            0xffffu32
        } else {
            0u32
        }),
        crate::bits::signed(sign_extend16(imm)) == (if imm >= 0x8000 {
            imm - 0x1_0000
        } else {
            imm as int
        }),
{
    assert(sign_extend16(imm) & 0xffff == imm && sign_extend16(imm) >> 16 == (if imm & 0x8000
        != 0 {
        0xffffu32
    } else {
        0u32
    }) && (imm >= 0x8000 ==> (imm | 0xffff_0000u32) == imm + 0xffff_0000)) by (bit_vector)
        requires
            imm <= 0xffff,
    ;
}

} // verus!
