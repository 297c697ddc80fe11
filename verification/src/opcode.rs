//! A bit range of an opcode word, given by its highest and lowest bit.

use vstd::prelude::*;
use crate::bits::bits;

verus! {

/// The bit range `end..=start` of a 32-bit opcode, `start <= end <= 31`.
pub struct OpcodeRange {
    end: u32,
    start: u32,
}

impl OpcodeRange {
    #[verifier::type_invariant]
    pub closed spec fn inv(self) -> bool {
        self.start <= self.end <= 31
    }

    /// The highest bit of the range.
    pub closed spec fn end(self) -> u32 {
        self.end
    }

    /// The lowest bit of the range.
    pub closed spec fn start(self) -> u32 {
        self.start
    }

    /// The range `end..=start`, where that is a range of a 32-bit word.
    pub fn new(end: u32, start: u32) -> (r: Option<OpcodeRange>)
        ensures
            r is Some <==> start <= end <= 31,
            r matches Some(range) ==> range.end() == end && range.start() == start,
    {
        if start <= end && end <= 31 {
            Some(OpcodeRange { end, start })
        } else {
            None
        }
    }

    /// The bits of `opcode` that the range names, moved down to bit 0.
    pub fn get(&self, opcode: u32) -> (r: u32)
        ensures
            self.start() <= self.end() <= 31,
            r == bits(opcode, self.end(), self.start()),
    {
        proof {
            use_type_invariant(self);
        }
        let width: u32 = self.end - self.start + 1;
        let start: u32 = self.start;
        let mask: u32 = if width >= 32 {
            0xffff_ffff
        } else {
            assert((1u32 << width) >= 1) by (bit_vector)
                requires
                    width < 32,
            ;
            (1u32 << width) - 1
        };
        (opcode >> start) & mask
    }
}

/// Bits 31..=26, the primary opcode.
pub fn primary() -> (r: OpcodeRange)
    ensures
        r.end() == 31 && r.start() == 26,
{
    OpcodeRange { end: 31, start: 26 }
}

/// Bits 20..=16, the register index `rt`.
pub fn rt() -> (r: OpcodeRange)
    ensures
        r.end() == 20 && r.start() == 16,
{
    OpcodeRange { end: 20, start: 16 }
}

/// Bits 15..=0, the 16-bit immediate.
pub fn imm() -> (r: OpcodeRange)
    ensures
        r.end() == 15 && r.start() == 0,
{
    OpcodeRange { end: 15, start: 0 }
}

/// Bits 25..=21, the register index `rs`.
pub fn rs() -> (r: OpcodeRange)
    ensures
        r.end() == 21 + 4 && r.start() == 21,
{
    OpcodeRange { end: 25, start: 21 }
}

} // verus!
