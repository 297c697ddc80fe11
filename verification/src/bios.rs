//! The boot ROM: 512 KiB of bytes, set once and read in three widths.

use vstd::prelude::*;
use crate::consts::BIOS_SIZE;
use crate::memory::{read16, read32};

verus! {

/// The boot ROM. Its model is the sequence of its `BIOS_SIZE` bytes.
pub struct Bios {
    data: Vec<u8>,
}

impl View for Bios {
    type V = Seq<u8>;

    closed spec fn view(&self) -> Seq<u8> {
        self.data@
    }
}

impl Bios {
    #[verifier::type_invariant]
    pub open spec fn inv(self) -> bool {
        self@.len() == BIOS_SIZE
    }

    /// The ROM that holds `data`, where that is an image of the right size.
    pub fn new(data: Vec<u8>) -> (r: Option<Bios>)
        ensures
            r is Some <==> data@.len() == BIOS_SIZE,
            r matches Some(bios) ==> bios@ == data@,
    {
        if data.len() == BIOS_SIZE as usize {
            Some(Bios { data })
        } else {
            None
        }
    }

    /// The byte at `offset`.
    pub fn load8(&self, offset: u32) -> (v: u8)
        requires
            offset < BIOS_SIZE,
        ensures
            v == self@[offset as int],
    {
        proof {
            use_type_invariant(self);
        }
        self.data[offset as usize]
    }

    /// The little-endian halfword at `offset`.
    pub fn load16(&self, offset: u32) -> (v: u16)
        requires
            offset + 2 <= BIOS_SIZE,
        ensures
            v == read16(self@, offset as int),
    {
        proof {
            use_type_invariant(self);
        }
        let i: usize = offset as usize;
        (self.data[i] as u16) | ((self.data[i + 1] as u16) << 8)
    }

    /// The little-endian word at `offset`.
    pub fn load32(&self, offset: u32) -> (v: u32)
        requires
            offset + 4 <= BIOS_SIZE,
        ensures
            v == read32(self@, offset as int),
    {
        proof {
            use_type_invariant(self);
        }
        let i: usize = offset as usize;
        (self.data[i] as u32) | ((self.data[i + 1] as u32) << 8) | ((self.data[i + 2] as u32)
            << 16) | ((self.data[i + 3] as u32) << 24)
    }
}

} // verus!
