//! The address map: region masking of a virtual address, and the windows of
//! the physical address space that the bus routes to.

use vstd::prelude::*;
use crate::consts::{
    BIOS_SIZE, BIOS_START, CACHE_CONTROL_START, DMA_START, EXPANSION_1_START, EXPANSION_2_START,
    GPU_START, HARDWARE_REGISTER_START, IRQ_START, RAM_SIZE, RAM_SIZE_START, RAM_START, SPU_START,
    TIMER_REGISTER_START,
};

verus! {

/// A window of the physical address space: where it starts and how long it is.
#[derive(Clone, Copy, Debug, PartialEq, Eq, Structural)]
pub struct Range(pub u32, pub u32);

/// The mask of each 512 MiB chunk of the address space: KUSEG (chunks 0 to 3)
/// and KSEG2 (6 and 7) are kept whole, KSEG0 (4) loses bit 31, KSEG1 (5) its
/// three highest bits.
pub open spec fn region_mask(index: u32) -> u32 {
    if index == 4 {
        0x7fff_ffff
    } else if index == 5 {
        0x1fff_ffff
    } else {
        0xffff_ffff
    }
}

/// The physical address behind the virtual address `addr`.
pub open spec fn physical(addr: u32) -> u32 {
    addr & region_mask(addr >> 29)
}

impl Range {
    /// The first address of the window.
    pub open spec fn start(self) -> u32 {
        self.0
    }

    /// The number of addresses in the window.
    pub open spec fn length(self) -> u32 {
        self.1
    }

    /// Whether the physical address `p` lies in the window.
    pub open spec fn holds(self, p: u32) -> bool {
        self.0 <= p < self.0 + self.1
    }

    /// The offset of `addr` in the window, once its region bits are masked.
    pub open spec fn spec_contains(self, addr: u32) -> Option<u32> {
        if self.holds(physical(addr)) {
            Some((physical(addr) - self.0) as u32)
        } else {
            None
        }
    }

    /// Masks a virtual address to remove the region bits.
    pub fn mask_region(addr: u32) -> (p: u32)
        ensures
            p == physical(addr),
    {
        let index: u32 = addr >> 29;
        let mask: u32 = if index == 4 {
            0x7fff_ffff
        } else if index == 5 {
            0x1fff_ffff
        } else {
            0xffff_ffff
        };
        addr & mask
    }

    /// The offset of `addr` in this window, or `None` where the window does
    /// not own its physical address.
    #[verifier::when_used_as_spec(spec_contains)]
    pub fn contains(self, addr: u32) -> (r: Option<u32>)
        ensures
            r == self.spec_contains(addr),
            r matches Some(offset) ==> offset < self.length(),
    {
        let p: u32 = Self::mask_region(addr);
        if p >= self.0 && p - self.0 < self.1 {
            Some(p - self.0)
        } else {
            None
        }
    }
}

/// The windows that the bus knows, by name.
#[derive(Clone, Copy, Debug, PartialEq, Eq, Structural)]
pub enum Window {
    Ram,
    Expansion1,
    MemControl,
    RamSize,
    IrqControl,
    Dma,
    Timers,
    Gpu,
    Spu,
    Expansion2,
    Bios,
    CacheControl,
}

impl Window {
    pub open spec fn spec_range(self) -> Range {
        match self {
            Window::Ram => Range(RAM_START, RAM_SIZE),
            Window::Expansion1 => Range(EXPANSION_1_START, 176),
            Window::MemControl => Range(HARDWARE_REGISTER_START, 36),
            Window::RamSize => Range(RAM_SIZE_START, 4),
            Window::IrqControl => Range(IRQ_START, 8),
            Window::Dma => Range(DMA_START, 0x80),
            Window::Timers => Range(TIMER_REGISTER_START, 48),
            Window::Gpu => Range(GPU_START, 8),
            Window::Spu => Range(SPU_START, 640),
            Window::Expansion2 => Range(EXPANSION_2_START, 66),
            Window::Bios => Range(BIOS_START, BIOS_SIZE),
            Window::CacheControl => Range(CACHE_CONTROL_START, 4),
        }
    }

    /// The offset of `addr` in this window, if the window owns it.
    pub open spec fn offset(self, addr: u32) -> Option<u32> {
        self.spec_range().spec_contains(addr)
    }

    /// Where the window lies.
    #[verifier::when_used_as_spec(spec_range)]
    pub fn range(self) -> (r: Range)
        ensures
            r == self.spec_range(),
    {
        match self {
            Window::Ram => Range(RAM_START, RAM_SIZE),
            Window::Expansion1 => Range(EXPANSION_1_START, 176),
            Window::MemControl => Range(HARDWARE_REGISTER_START, 36),
            Window::RamSize => Range(RAM_SIZE_START, 4),
            Window::IrqControl => Range(IRQ_START, 8),
            Window::Dma => Range(DMA_START, 0x80),
            Window::Timers => Range(TIMER_REGISTER_START, 48),
            Window::Gpu => Range(GPU_START, 8),
            Window::Spu => Range(SPU_START, 640),
            Window::Expansion2 => Range(EXPANSION_2_START, 66),
            Window::Bios => Range(BIOS_START, BIOS_SIZE),
            Window::CacheControl => Range(CACHE_CONTROL_START, 4),
        }
    }

    /// The offset of `addr` in this window, or `None` where another window,
    /// or none, owns it.
    pub fn find(self, addr: u32) -> (r: Option<u32>)
        ensures
            r == self.offset(addr),
            r matches Some(off) ==> off < self.spec_range().length() && off % 4 == addr % 4,
    {
        proof {
            lemma_offset_alignment(self, addr);
        }
        self.range().contains(addr)
    }
}

/// No physical address lies in two windows.
pub proof fn lemma_windows_disjoint(v: Window, w: Window, p: u32)
    requires
        v != w,
    ensures
        !(v.spec_range().holds(p) && w.spec_range().holds(p)),
{
}

/// The first 512 MiB of physical memory are seen three times: in KUSEG at the
/// same address, in KSEG0 from `0x8000_0000` and in KSEG1 from `0xa000_0000`.
pub proof fn lemma_segments_alias(p: u32)
    requires
        p < 0x2000_0000,
    ensures
        physical(p) == p,
        physical((p + 0x8000_0000) as u32) == p,
        physical((p + 0xa000_0000) as u32) == p,
{
    assert(physical(p) == p && physical((p + 0x8000_0000) as u32) == p && physical(
        (p + 0xa000_0000) as u32,
    ) == p) by (bit_vector)
        requires
            p < 0x2000_0000,
    ;
}

/// Whether `addr` lies in the part of KUSEG that mirrors KSEG0 and KSEG1, or
/// in one of those two segments.
pub open spec fn in_mirrored_segment(addr: u32) -> bool {
    addr < 0x2000_0000 || 0x8000_0000 <= addr < 0xc000_0000
}

/// Two addresses of the mirrored segments that differ in their region bits
/// only have one physical address, so every window gives both one offset.
pub proof fn lemma_region_bits_ignored(a: u32, b: u32, w: Window)
    requires
        in_mirrored_segment(a),
        in_mirrored_segment(b),
        a & 0x1fff_ffff == b & 0x1fff_ffff,
    ensures
        physical(a) == physical(b),
        w.offset(a) == w.offset(b),
{
    assert(physical(a) == physical(b)) by (bit_vector)
        requires
            in_mirrored_segment(a),
            in_mirrored_segment(b),
            a & 0x1fff_ffff == b & 0x1fff_ffff,
    ;
}

/// Every window starts at a multiple of four, so an offset is aligned as the
/// address is.
pub proof fn lemma_offset_alignment(w: Window, addr: u32)
    ensures
        w.offset(addr) matches Some(off) ==> off % 4 == addr % 4 && off % 2 == addr % 2,
{
    assert(physical(addr) % 4 == addr % 4) by (bit_vector);
}

} // verus!
