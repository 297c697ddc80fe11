//! Main memory: 2 MiB of bytes that can be read and written in three widths.

use vstd::prelude::*;
use crate::consts::{RAM_FILL, RAM_SIZE};
use crate::memory::{read16, read32, write16, write32};

verus! {

/// Main memory. Its model is the sequence of its `RAM_SIZE` bytes.
pub struct Ram {
    data: Vec<u8>,
}

impl View for Ram {
    type V = Seq<u8>;

    closed spec fn view(&self) -> Seq<u8> {
        self.data@
    }
}

impl Ram {
    #[verifier::type_invariant]
    pub open spec fn inv(self) -> bool {
        self@.len() == RAM_SIZE
    }

    /// Fresh memory, every byte the fill byte.
    pub fn new() -> (ram: Ram)
        ensures
            ram@ == Seq::new(RAM_SIZE as nat, |i: int| RAM_FILL),
    {
        let data = vec![RAM_FILL; RAM_SIZE as usize];
        assert(data@ =~= Seq::new(RAM_SIZE as nat, |i: int| RAM_FILL));
        Ram { data }
    }

    /// The byte at `offset`.
    pub fn load8(&self, offset: u32) -> (v: u8)
        requires
            offset < RAM_SIZE,
        ensures
            v == self@[offset as int],
    {
        proof {
            use_type_invariant(self);
        }
        self.data[offset as usize]
    }

    /// The little-endian halfword at `offset`.
    pub fn load16(&self, offset: u32) -> (v: u16)
        requires
            offset + 2 <= RAM_SIZE,
        ensures
            v == read16(self@, offset as int),
    {
        proof {
            use_type_invariant(self);
        }
        let i: usize = offset as usize;
        (self.data[i] as u16) | ((self.data[i + 1] as u16) << 8)
    }

    /// The little-endian word at `offset`.
    pub fn load32(&self, offset: u32) -> (v: u32)
        requires
            offset + 4 <= RAM_SIZE,
        ensures
            v == read32(self@, offset as int),
    {
        proof {
            use_type_invariant(self);
        }
        let i: usize = offset as usize;
        (self.data[i] as u32) | ((self.data[i + 1] as u32) << 8) | ((self.data[i + 2] as u32)
            << 16) | ((self.data[i + 3] as u32) << 24)
    }

    /// Writes the byte `val` at `offset`.
    pub fn store8(&mut self, offset: u32, val: u8)
        requires
            offset < RAM_SIZE,
        ensures
            final(self)@ == old(self)@.update(offset as int, val),
    {
        proof {
            use_type_invariant(&*self);
        }
        self.data[offset as usize] = val;
    }

    /// Writes the halfword `val` at `offset`, low byte first.
    pub fn store16(&mut self, offset: u32, val: u16)
        requires
            offset + 2 <= RAM_SIZE,
        ensures
            final(self)@ == write16(old(self)@, offset as int, val),
    {
        proof {
            use_type_invariant(&*self);
        }
        let i: usize = offset as usize;
        self.data[i] = (val & 0xff) as u8;
        self.data[i + 1] = ((val >> 8) & 0xff) as u8;
    }

    /// Writes the word `val` at `offset`, low byte first.
    pub fn store32(&mut self, offset: u32, val: u32)
        requires
            offset + 4 <= RAM_SIZE,
        ensures
            final(self)@ == write32(old(self)@, offset as int, val),
    {
        proof {
            use_type_invariant(&*self);
        }
        let i: usize = offset as usize;
        self.data[i] = (val & 0xff) as u8;
        self.data[i + 1] = ((val >> 8) & 0xff) as u8;
        self.data[i + 2] = ((val >> 16) & 0xff) as u8;
        self.data[i + 3] = ((val >> 24) & 0xff) as u8;
        proof {
            assert(val >> 0 == val) by (bit_vector);
        }
    }
}

} // verus!
