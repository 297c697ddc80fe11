//! The memory bus: routes each access, by its width, to the window that owns
//! the address, and runs a DMA transfer when a channel register says so.

use vstd::prelude::*;
use crate::bios::Bios;
use crate::bits::bits;
use crate::channel::{Channel, Direction, Step, Sync};
use crate::consts::{BIOS_SIZE, RAM_SIZE};
use crate::dma::{Dma, DmaState, Port};
use crate::error::{Access, Fatal, Width};
use crate::map::{physical, Window};
use crate::memory::{read16, read32, write16, write32};
use crate::ram::Ram;
use crate::transfer::{
    chain, is_last_packet, lemma_chain_fuel, lemma_long_chain_never_ends, lemma_otc_fill_len,
    lemma_ram_address, otc_fill, packet_words, ram_address, word_address, words_from_ram,
    MAX_PACKETS,
};

verus! {

/// What the GPU's status register reads as.
pub const GPU_STATUS: u32 = 0x1c00_0000;

/// The address that the first expansion must be mapped at.
pub const EXPANSION_1_BASE: u32 = 0x1f00_0000;

/// The address that the second expansion must be mapped at.
pub const EXPANSION_2_BASE: u32 = 0x1f80_2000;

/// The model of everything behind the bus.
pub struct BusState {
    /// The bytes of the boot ROM.
    pub rom: Seq<u8>,
    /// The bytes of main memory.
    pub ram: Seq<u8>,
    /// The DMA controller.
    pub dma: DmaState,
    /// The words that DMA has delivered to the GPU and nobody has taken yet.
    pub gpu: Seq<u32>,
}

impl BusState {
    /// Both stores have their size, and the controller its seven channels.
    pub open spec fn wf(self) -> bool {
        &&& self.rom.len() == BIOS_SIZE
        &&& self.ram.len() == RAM_SIZE
        &&& self.dma.channels.len() == 7
    }

    /// The error of an access that no window takes.
    pub open spec fn unhandled(addr: u32, width: Width, op: Access) -> Fatal {
        Fatal::UnhandledAccess { addr, width, op }
    }

    /// A byte read: main memory, the boot ROM, or `0xff` from the first
    /// expansion.
    pub open spec fn load8(self, addr: u32) -> Result<u8, Fatal> {
        if let Some(off) = Window::Ram.offset(addr) {
            Ok(self.ram[off as int])
        } else if let Some(off) = Window::Bios.offset(addr) {
            Ok(self.rom[off as int])
        } else if Window::Expansion1.offset(addr) is Some {
            Ok(0xff)
        } else {
            Err(Self::unhandled(addr, Width::Byte, Access::Load))
        }
    }

    /// A halfword read: zero from the SPU, main memory, or zero from the
    /// interrupt control registers.
    pub open spec fn load16(self, addr: u32) -> Result<u16, Fatal> {
        if Window::Spu.offset(addr) is Some {
            Ok(0)
        } else if let Some(off) = Window::Ram.offset(addr) {
            Ok(read16(self.ram, off as int))
        } else if Window::IrqControl.offset(addr) is Some {
            Ok(0)
        } else {
            Err(Self::unhandled(addr, Width::Half, Access::Load))
        }
    }

    /// A word read: main memory, the boot ROM, zero from interrupt control,
    /// a DMA register, the GPU (its status at offset 4, zero elsewhere), or
    /// zero from the timers.
    pub open spec fn load32(self, addr: u32) -> Result<u32, Fatal> {
        if let Some(off) = Window::Ram.offset(addr) {
            Ok(read32(self.ram, off as int))
        } else if let Some(off) = Window::Bios.offset(addr) {
            Ok(read32(self.rom, off as int))
        } else if Window::IrqControl.offset(addr) is Some {
            Ok(0)
        } else if let Some(off) = Window::Dma.offset(addr) {
            self.dma_reg(off)
        } else if let Some(off) = Window::Gpu.offset(addr) {
            Ok(
                if off == 4 {
                    GPU_STATUS
                } else {
                    0
                },
            )
        } else if Window::Timers.offset(addr) is Some {
            Ok(0)
        } else {
            Err(Self::unhandled(addr, Width::Word, Access::Load))
        }
    }

    /// A byte write: into main memory, or dropped by the second expansion.
    pub open spec fn store8(self, addr: u32, val: u8) -> (BusState, Result<(), Fatal>) {
        if let Some(off) = Window::Ram.offset(addr) {
            (BusState { ram: self.ram.update(off as int, val), ..self }, Ok(()))
        } else if Window::Expansion2.offset(addr) is Some {
            (self, Ok(()))
        } else {
            (self, Err(Self::unhandled(addr, Width::Byte, Access::Store)))
        }
    }

    /// A halfword write: dropped by the SPU and the timers, into main
    /// memory, or dropped by interrupt control.
    pub open spec fn store16(self, addr: u32, val: u16) -> (BusState, Result<(), Fatal>) {
        if Window::Spu.offset(addr) is Some || Window::Timers.offset(addr) is Some {
            (self, Ok(()))
        } else if let Some(off) = Window::Ram.offset(addr) {
            (BusState { ram: write16(self.ram, off as int, val), ..self }, Ok(()))
        } else if Window::IrqControl.offset(addr) is Some {
            (self, Ok(()))
        } else {
            (self, Err(Self::unhandled(addr, Width::Half, Access::Store)))
        }
    }

    /// What memory control says to a write of `val` at offset `off`: the
    /// two expansion base registers take their one address and no other.
    pub open spec fn mem_control(off: u32, val: u32) -> Result<(), Fatal> {
        if off == 0 && val != EXPANSION_1_BASE {
            Err(Fatal::BadExpansion1Base { val })
        } else if off == 4 && val != EXPANSION_2_BASE {
            Err(Fatal::BadExpansion2Base { val })
        } else {
            Ok(())
        }
    }

    /// A word write: into main memory; checked by memory control; dropped
    /// by the memory size, cache control and interrupt control registers;
    /// into a DMA register, with the transfer that it may start; dropped by
    /// the GPU and the timers.
    pub open spec fn store32(self, addr: u32, val: u32) -> (BusState, Result<(), Fatal>) {
        if let Some(off) = Window::Ram.offset(addr) {
            (BusState { ram: write32(self.ram, off as int, val), ..self }, Ok(()))
        } else if let Some(off) = Window::MemControl.offset(addr) {
            (self, Self::mem_control(off, val))
        } else if Window::RamSize.offset(addr) is Some || Window::CacheControl.offset(addr) is Some
            || Window::IrqControl.offset(addr) is Some {
            (self, Ok(()))
        } else if let Some(off) = Window::Dma.offset(addr) {
            self.set_dma_reg(off, val)
        } else if Window::Gpu.offset(addr) is Some || Window::Timers.offset(addr) is Some {
            (self, Ok(()))
        } else {
            (self, Err(Self::unhandled(addr, Width::Word, Access::Store)))
        }
    }

    /// The register at `offset` of the DMA window. Bits 6..=4 choose a
    /// channel (0 to 6) or the controller (7), bits 3..=0 the register: a
    /// channel's control at 8, the controller's control at 0 and its
    /// interrupt register at 4.
    pub open spec fn dma_reg(self, offset: u32) -> Result<u32, Fatal> {
        let major = bits(offset, 6, 4);
        let minor = bits(offset, 3, 0);
        let unknown = Err::<u32, Fatal>(Fatal::UnhandledDmaReg { offset, op: Access::Load });
        if major <= 6 {
            if minor == 8 {
                Ok(self.dma.channel(Port::spec_from_index(major)).spec_control())
            } else {
                unknown
            }
        } else if minor == 0 {
            Ok(self.dma.control)
        } else if minor == 4 {
            Ok(self.dma.interrupt())
        } else {
            unknown
        }
    }

    /// The bus after the channel of `port` was set to `c`: the transfer
    /// runs at once if the channel is now due.
    pub open spec fn after_channel_write(self, port: Port, c: Channel) -> (
        BusState,
        Result<(), Fatal>,
    ) {
        let s = BusState { dma: self.dma.with_channel(port, c), ..self };
        if c.spec_active() {
            s.run(port)
        } else {
            (s, Ok(()))
        }
    }

    /// A write of `val` to the register at `offset` of the DMA window: a
    /// channel's base at 0, block register at 4 and control at 8, the
    /// controller's control at 0 and interrupt register at 4.
    pub open spec fn set_dma_reg(self, offset: u32, val: u32) -> (BusState, Result<(), Fatal>) {
        let major = bits(offset, 6, 4);
        let minor = bits(offset, 3, 0);
        let unknown = Err::<(), Fatal>(Fatal::UnhandledDmaReg { offset, op: Access::Store });
        if major <= 6 {
            let port = Port::spec_from_index(major);
            let c = self.dma.channel(port);
            if minor == 0 {
                self.after_channel_write(port, c.with_base(val))
            } else if minor == 4 {
                self.after_channel_write(port, c.with_block_control(val))
            } else if minor == 8 {
                if Channel::control_accepted(val) {
                    self.after_channel_write(port, c.with_control(val))
                } else {
                    (self, Err(Fatal::ReservedSync))
                }
            } else {
                (self, unknown)
            }
        } else if minor == 0 {
            (BusState { dma: DmaState { control: val, ..self.dma }, ..self }, Ok(()))
        } else if minor == 4 {
            (BusState { dma: self.dma.with_interrupt(val), ..self }, Ok(()))
        } else {
            (self, unknown)
        }
    }

    /// The bus with the channel of `port` marked as done.
    pub open spec fn finish(self, port: Port) -> BusState {
        BusState { dma: self.dma.with_channel(port, self.dma.channel(port).spec_done()), ..self }
    }

    /// The transfer of the channel of `port`, in the mode that the channel
    /// is set to.
    pub open spec fn run(self, port: Port) -> (BusState, Result<(), Fatal>) {
        if self.dma.channel(port).sync == Sync::LinkedList {
            self.linked_list(port)
        } else {
            self.block(port)
        }
    }

    /// A block transfer of `n` words, `n` the channel's transfer size. From
    /// memory the words go to the GPU, in the order of their addresses; no
    /// other port takes any. Towards memory only the ordering-table port
    /// gives words. A transfer of no words touches no port. Then the channel
    /// is done.
    pub open spec fn block(self, port: Port) -> (BusState, Result<(), Fatal>) {
        let c = self.dma.channel(port);
        match c.spec_transfer_size() {
            None => (self, Err(Fatal::UnknownTransferSize)),
            Some(n) => {
                if n == 0 {
                    (self.finish(port), Ok(()))
                } else if c.direction == Direction::FromRam {
                    if port == Port::Gpu {
                        (
                            BusState {
                                gpu: self.gpu + words_from_ram(self.ram, c, n as int),
                                ..self
                            }.finish(port),
                            Ok(()),
                        )
                    } else {
                        (self, Err(Fatal::UnhandledDest { port }))
                    }
                } else {
                    if port == Port::Otc {
                        (
                            BusState {
                                ram: otc_fill(self.ram, c, n as int, n as int),
                                ..self
                            }.finish(port),
                            Ok(()),
                        )
                    } else {
                        (self, Err(Fatal::UnhandledSource { port }))
                    }
                }
            },
        }
    }

    /// A linked-list transfer: only on the GPU's port and only from memory.
    /// The words of the chain of packets that starts at the channel's base
    /// go to the GPU; then the channel is done. A chain that has not ended
    /// after `MAX_PACKETS` packets never ends: its words so far are
    /// delivered, and the transfer fails.
    pub open spec fn linked_list(self, port: Port) -> (BusState, Result<(), Fatal>) {
        let c = self.dma.channel(port);
        if port != Port::Gpu {
            (self, Err(Fatal::LinkedListPort { port }))
        } else if c.direction != Direction::FromRam {
            (self, Err(Fatal::LinkedListDirection))
        } else {
            let (words, ended) = chain(self.ram, ram_address(c.base), MAX_PACKETS as nat);
            let s = BusState { gpu: self.gpu + words, ..self };
            if ended {
                (s.finish(port), Ok(()))
            } else {
                (s, Err(Fatal::EndlessList))
            }
        }
    }
}

/// Two outcomes of one access made at `a` and at `b` are the same, but for
/// the address that an unhandled access reports.
pub open spec fn same_outcome<T>(ra: Result<T, Fatal>, rb: Result<T, Fatal>, a: u32, b: u32) -> bool {
    ||| ra == rb
    ||| exists|width: Width, op: Access|
        ra == Err::<T, Fatal>(BusState::unhandled(a, width, op)) && rb == Err::<T, Fatal>(
            BusState::unhandled(b, width, op),
        )
}

/// The bus sees the physical address only: two addresses that differ in
/// their region bits alone read the same and write the same, in every
/// width and every window.
pub proof fn lemma_bus_ignores_region_bits(s: BusState, a: u32, b: u32, v8: u8, v16: u16, v32: u32)
    requires
        physical(a) == physical(b),
    ensures
        same_outcome(s.load8(a), s.load8(b), a, b),
        same_outcome(s.load16(a), s.load16(b), a, b),
        same_outcome(s.load32(a), s.load32(b), a, b),
        s.store8(a, v8).0 == s.store8(b, v8).0,
        same_outcome(s.store8(a, v8).1, s.store8(b, v8).1, a, b),
        s.store16(a, v16).0 == s.store16(b, v16).0,
        same_outcome(s.store16(a, v16).1, s.store16(b, v16).1, a, b),
        s.store32(a, v32).0 == s.store32(b, v32).0,
        same_outcome(s.store32(a, v32).1, s.store32(b, v32).1, a, b),
{
}

/// An address that a window owns is never unhandled for want of one: what
/// the bus does there is the same at every address of the three mirrored
/// segments that has the same low 29 bits.
pub proof fn lemma_mirrors_read_alike(s: BusState, a: u32, b: u32)
    requires
        crate::map::in_mirrored_segment(a),
        crate::map::in_mirrored_segment(b),
        a & 0x1fff_ffff == b & 0x1fff_ffff,
    ensures
        s.load8(a) is Ok ==> s.load8(b) == s.load8(a),
        s.load16(a) is Ok ==> s.load16(b) == s.load16(a),
        s.load32(a) is Ok ==> s.load32(b) == s.load32(a),
        forall|v: u8| (#[trigger] s.store8(a, v)).1 is Ok ==> s.store8(b, v) == s.store8(a, v),
        forall|v: u16| (#[trigger] s.store16(a, v)).1 is Ok ==> s.store16(b, v) == s.store16(a, v),
        forall|v: u32| (#[trigger] s.store32(a, v)).1 is Ok ==> s.store32(b, v) == s.store32(a, v),
{
    crate::map::lemma_region_bits_ignored(a, b, Window::Ram);
}

/// A transfer keeps the stores at their sizes and the controller at its
/// seven channels.
pub proof fn lemma_transfer_keeps_wf(s: BusState, port: Port)
    requires
        s.wf(),
    ensures
        s.run(port).0.wf(),
{
    let c = s.dma.channel(port);
    if let Some(n) = c.spec_transfer_size() {
        lemma_otc_fill_len(s.ram, c, n as int, n as int);
    }
}

/// A store at an address that its width allows keeps the stores at their
/// sizes and the controller at its seven channels, whatever it writes and
/// whether or not it ends well.
pub proof fn lemma_store_keeps_wf(s: BusState, addr: u32, v8: u8, v16: u16, v32: u32)
    requires
        s.wf(),
    ensures
        s.store8(addr, v8).0.wf(),
        addr % 2 == 0 ==> s.store16(addr, v16).0.wf(),
        addr % 4 == 0 ==> s.store32(addr, v32).0.wf(),
{
    crate::map::lemma_offset_alignment(Window::Ram, addr);
    if let Some(off) = Window::Dma.offset(addr) {
        let major = bits(off, 6, 4);
        if major <= 6 {
            let port = Port::spec_from_index(major);
            let c = s.dma.channel(port);
            lemma_transfer_keeps_wf(
                BusState { dma: s.dma.with_channel(port, c.with_base(v32)), ..s },
                port,
            );
            lemma_transfer_keeps_wf(
                BusState { dma: s.dma.with_channel(port, c.with_block_control(v32)), ..s },
                port,
            );
            lemma_transfer_keeps_wf(
                BusState { dma: s.dma.with_channel(port, c.with_control(v32)), ..s },
                port,
            );
        }
    }
}

/// A word stored in main memory is the word loaded from the same address,
/// and from every address that shows the same place.
pub proof fn lemma_ram_round_trip(s: BusState, a: u32, b: u32, v: u32)
    requires
        s.wf(),
        a % 4 == 0,
        Window::Ram.offset(a) is Some,
        physical(a) == physical(b),
    ensures
        s.store32(a, v).1 is Ok,
        s.store32(a, v).0.load32(b) == Ok::<u32, Fatal>(v),
        s.store32(a, v).0.wf(),
{
    crate::map::lemma_offset_alignment(Window::Ram, a);
    crate::memory::lemma_read32_after_write32(s.ram, Window::Ram.offset(a)->0 as int, v);
}

/// A transfer that ends well leaves its channel done, hence not due, and
/// every other channel and the controller's own registers as they were.
pub proof fn lemma_transfer_ends(s: BusState, port: Port)
    requires
        s.wf(),
        s.run(port).1 is Ok,
    ensures
        s.run(port).0.dma == s.dma.with_channel(port, s.dma.channel(port).spec_done()),
        !s.run(port).0.dma.channel(port).spec_active(),
        s.run(port).0.rom == s.rom,
{
}

/// The bound on the packets of a linked-list transfer cuts no chain short.
/// On the GPU's port and from memory, a chain that ends, after however
/// many packets, is delivered whole and the transfer ends well; and the
/// transfer fails as endless only on a chain that never ends.
pub proof fn lemma_linked_list_is_whole(s: BusState, port: Port, fuel: nat)
    requires
        port == Port::Gpu,
        s.dma.channel(port).direction == Direction::FromRam,
    ensures
        ({
            let start = ram_address(s.dma.channel(port).base);
            let (words, ended) = chain(s.ram, start, fuel);
            &&& ended ==> s.linked_list(port) == (
                (BusState { gpu: s.gpu + words, ..s }).finish(port),
                Ok::<(), Fatal>(()),
            )
            &&& s.linked_list(port).1 is Err ==> !ended && s.linked_list(port).1 == Err::<
                (),
                Fatal,
            >(Fatal::EndlessList)
        }),
{
    let start = ram_address(s.dma.channel(port).base);
    lemma_ram_address(s.dma.channel(port).base);
    lemma_ram_address(start);
    if chain(s.ram, start, MAX_PACKETS as nat).1 {
        if chain(s.ram, start, fuel).1 {
            if fuel <= MAX_PACKETS {
                lemma_chain_fuel(s.ram, start, fuel, MAX_PACKETS as nat);
            } else {
                lemma_chain_fuel(s.ram, start, MAX_PACKETS as nat, fuel);
            }
        }
    } else {
        lemma_long_chain_never_ends(s.ram, start, fuel);
    }
}

/// The memory bus, with what lies behind it: the boot ROM, main memory, the
/// DMA controller, and the words that DMA has handed to the GPU.
pub struct Bus {
    bios: Bios,
    ram: Ram,
    dma: Dma,
    gpu: Vec<u32>,
}

impl View for Bus {
    type V = BusState;

    closed spec fn view(&self) -> BusState {
        BusState { rom: self.bios@, ram: self.ram@, dma: self.dma@, gpu: self.gpu@ }
    }
}

proof fn lemma_dma_split(offset: u32)
    by (bit_vector)
    ensures
        (offset >> 4) & 7 == bits(offset, 6, 4),
        offset & 0xf == bits(offset, 3, 0),
        bits(offset, 6, 4) <= 7,
{
}

/// The address register after one more word: four up or four down.
proof fn lemma_next_word_address(c: Channel, k: int)
    requires
        0 <= k,
    ensures
        c.step == Step::Increment ==> word_address(c, k + 1) == word_address(c, k).wrapping_add(4),
        c.step == Step::Decrement ==> word_address(c, k + 1) == word_address(c, k).wrapping_sub(4),
        word_address(c, 0) == c.base,
        ((word_address(c, k) - 4) % 0x1_0000_0000) as u32 == word_address(c, k).wrapping_sub(4),
{
}

impl Bus {
    /// A bus over the given ROM and memory, with the DMA controller as
    /// after reset and nothing delivered to the GPU.
    pub fn new(bios: Bios, ram: Ram) -> (bus: Bus)
        ensures
            bus@ == (BusState {
                rom: bios@,
                ram: ram@,
                dma: DmaState::initial(),
                gpu: Seq::<u32>::empty(),
            }),
            bus@.wf(),
    {
        proof {
            use_type_invariant(&bios);
            use_type_invariant(&ram);
        }
        Bus { bios, ram, dma: Dma::new(), gpu: Vec::new() }
    }

    /// Main memory.
    pub fn ram(&self) -> (r: &Ram)
        ensures
            r@ == self@.ram,
    {
        &self.ram
    }

    /// The DMA controller.
    pub fn dma(&self) -> (r: &Dma)
        ensures
            r@ == self@.dma,
    {
        &self.dma
    }

    /// The words that DMA has delivered to the GPU since they were last
    /// taken, oldest first.
    pub fn gpu_words(&self) -> (r: &Vec<u32>)
        ensures
            r@ == self@.gpu,
    {
        &self.gpu
    }

    /// Takes the words that DMA has delivered to the GPU, and leaves none.
    pub fn take_gpu_words(&mut self) -> (r: Vec<u32>)
        ensures
            r@ == old(self)@.gpu,
            final(self)@ == (BusState { gpu: Seq::<u32>::empty(), ..old(self)@ }),
    {
        let mut out: Vec<u32> = Vec::new();
        core::mem::swap(&mut self.gpu, &mut out);
        out
    }

    /// Reads a byte.
    pub fn load8(&self, addr: u32) -> (r: Result<u8, Fatal>)
        ensures
            r == self@.load8(addr),
    {
        if let Some(offset) = Window::Ram.find(addr) {
            Ok(self.ram.load8(offset))
        } else if let Some(offset) = Window::Bios.find(addr) {
            Ok(self.bios.load8(offset))
        } else if let Some(_offset) = Window::Expansion1.find(addr) {
            Ok(0xff)
        } else {
            Err(Fatal::UnhandledAccess { addr, width: Width::Byte, op: Access::Load })
        }
    }

    /// Reads a halfword from an address that is a multiple of two.
    pub fn load16(&self, addr: u32) -> (r: Result<u16, Fatal>)
        requires
            addr % 2 == 0,
        ensures
            r == self@.load16(addr),
    {
        if let Some(_offset) = Window::Spu.find(addr) {
            Ok(0)
        } else if let Some(offset) = Window::Ram.find(addr) {
            Ok(self.ram.load16(offset))
        } else if let Some(_offset) = Window::IrqControl.find(addr) {
            Ok(0)
        } else {
            Err(Fatal::UnhandledAccess { addr, width: Width::Half, op: Access::Load })
        }
    }

    /// Reads a word from an address that is a multiple of four.
    pub fn load32(&self, addr: u32) -> (r: Result<u32, Fatal>)
        requires
            addr % 4 == 0,
        ensures
            r == self@.load32(addr),
    {
        if let Some(offset) = Window::Ram.find(addr) {
            Ok(self.ram.load32(offset))
        } else if let Some(offset) = Window::Bios.find(addr) {
            Ok(self.bios.load32(offset))
        } else if let Some(_offset) = Window::IrqControl.find(addr) {
            Ok(0)
        } else if let Some(offset) = Window::Dma.find(addr) {
            self.dma_reg(offset)
        } else if let Some(offset) = Window::Gpu.find(addr) {
            Ok(
                if offset == 4 {
                    GPU_STATUS
                } else {
                    0
                },
            )
        } else if let Some(_offset) = Window::Timers.find(addr) {
            Ok(0)
        } else {
            Err(Fatal::UnhandledAccess { addr, width: Width::Word, op: Access::Load })
        }
    }

    /// Writes a byte.
    pub fn store8(&mut self, addr: u32, val: u8) -> (r: Result<(), Fatal>)
        ensures
            (final(self)@, r) == old(self)@.store8(addr, val),
            old(self)@.wf() ==> final(self)@.wf(),
    {
        proof {
            if self@.wf() {
                lemma_store_keeps_wf(self@, addr, val, 0, 0);
            }
        }
        if let Some(offset) = Window::Ram.find(addr) {
            self.ram.store8(offset, val);
            Ok(())
        } else if let Some(_offset) = Window::Expansion2.find(addr) {
            Ok(())
        } else {
            Err(Fatal::UnhandledAccess { addr, width: Width::Byte, op: Access::Store })
        }
    }

    /// Writes a halfword to an address that is a multiple of two.
    pub fn store16(&mut self, addr: u32, val: u16) -> (r: Result<(), Fatal>)
        requires
            addr % 2 == 0,
        ensures
            (final(self)@, r) == old(self)@.store16(addr, val),
            old(self)@.wf() ==> final(self)@.wf(),
    {
        proof {
            if self@.wf() {
                lemma_store_keeps_wf(self@, addr, 0, val, 0);
            }
        }
        if let Some(_offset) = Window::Spu.find(addr) {
            Ok(())
        } else if let Some(_offset) = Window::Timers.find(addr) {
            Ok(())
        } else if let Some(offset) = Window::Ram.find(addr) {
            self.ram.store16(offset, val);
            Ok(())
        } else if let Some(_offset) = Window::IrqControl.find(addr) {
            Ok(())
        } else {
            Err(Fatal::UnhandledAccess { addr, width: Width::Half, op: Access::Store })
        }
    }

    /// Writes a word to an address that is a multiple of four. A write to a
    /// DMA channel register runs the channel's transfer before it returns,
    /// if the channel is then due.
    pub fn store32(&mut self, addr: u32, val: u32) -> (r: Result<(), Fatal>)
        requires
            addr % 4 == 0,
        ensures
            (final(self)@, r) == old(self)@.store32(addr, val),
            old(self)@.wf() ==> final(self)@.wf(),
    {
        proof {
            if self@.wf() {
                lemma_store_keeps_wf(self@, addr, 0, 0, val);
            }
        }
        if let Some(offset) = Window::Ram.find(addr) {
            self.ram.store32(offset, val);
            Ok(())
        } else if let Some(offset) = Window::MemControl.find(addr) {
            if offset == 0 && val != EXPANSION_1_BASE {
                Err(Fatal::BadExpansion1Base { val })
            } else if offset == 4 && val != EXPANSION_2_BASE {
                Err(Fatal::BadExpansion2Base { val })
            } else {
                Ok(())
            }
        } else if let Some(_offset) = Window::RamSize.find(addr) {
            Ok(())
        } else if let Some(_offset) = Window::CacheControl.find(addr) {
            Ok(())
        } else if let Some(_offset) = Window::IrqControl.find(addr) {
            Ok(())
        } else if let Some(offset) = Window::Dma.find(addr) {
            self.set_dma_reg(offset, val)
        } else if let Some(_offset) = Window::Gpu.find(addr) {
            Ok(())
        } else if let Some(_offset) = Window::Timers.find(addr) {
            Ok(())
        } else {
            Err(Fatal::UnhandledAccess { addr, width: Width::Word, op: Access::Store })
        }
    }

    /// Reads the DMA register at `offset` of the DMA window.
    fn dma_reg(&self, offset: u32) -> (r: Result<u32, Fatal>)
        ensures
            r == self@.dma_reg(offset),
    {
        proof {
            lemma_dma_split(offset);
        }
        let major: u32 = (offset >> 4) & 7;
        let minor: u32 = offset & 0xf;
        if major <= 6 {
            match minor {
                8 => Ok(self.dma.channel(Port::from_index(major)).control()),
                _ => Err(Fatal::UnhandledDmaReg { offset, op: Access::Load }),
            }
        } else {
            match minor {
                0 => Ok(self.dma.control()),
                4 => Ok(self.dma.interrupt()),
                _ => Err(Fatal::UnhandledDmaReg { offset, op: Access::Load }),
            }
        }
    }

    /// Writes the DMA register at `offset` of the DMA window, and runs the
    /// transfer of a channel that is due after the write.
    fn set_dma_reg(&mut self, offset: u32, val: u32) -> (r: Result<(), Fatal>)
        ensures
            (final(self)@, r) == old(self)@.set_dma_reg(offset, val),
    {
        proof {
            lemma_dma_split(offset);
        }
        let major: u32 = (offset >> 4) & 7;
        let minor: u32 = offset & 0xf;
        if major <= 6 {
            let port = Port::from_index(major);
            let mut channel: Channel = *self.dma.channel(port);
            match minor {
                0 => channel.set_base(val),
                4 => channel.set_block_control(val),
                8 => {
                    match channel.set_control(val) {
                        Ok(()) => {},
                        Err(e) => {
                            return Err(e);
                        },
                    }
                },
                _ => {
                    return Err(Fatal::UnhandledDmaReg { offset, op: Access::Store });
                },
            }
            *self.dma.channel_mut(port) = channel;
            if channel.active() {
                self.do_dma(port)
            } else {
                Ok(())
            }
        } else {
            match minor {
                0 => {
                    self.dma.set_control(val);
                    Ok(())
                },
                4 => {
                    self.dma.set_interrupt(val);
                    Ok(())
                },
                _ => Err(Fatal::UnhandledDmaReg { offset, op: Access::Store }),
            }
        }
    }

    /// Runs the transfer of the channel of `port`.
    fn do_dma(&mut self, port: Port) -> (r: Result<(), Fatal>)
        ensures
            (final(self)@, r) == old(self)@.run(port),
    {
        match self.dma.channel(port).sync {
            Sync::LinkedList => self.do_dma_linked_list(port),
            _ => self.do_dma_block(port),
        }
    }

    fn do_dma_block(&mut self, port: Port) -> (r: Result<(), Fatal>)
        ensures
            (final(self)@, r) == old(self)@.block(port),
    {
        let c: Channel = *self.dma.channel(port);
        let n: u32 = match c.transfer_size() {
            Some(n) => n,
            None => {
                return Err(Fatal::UnknownTransferSize);
            },
        };
        if n > 0 {
            let ghost before = self@;
            let mut addr: u32 = c.base();
            let mut k: u32 = 0;
            proof {
                lemma_next_word_address(c, 0);
            }
            match c.direction {
                Direction::FromRam => {
                    if port != Port::Gpu {
                        return Err(Fatal::UnhandledDest { port });
                    }
                    while k < n
                        invariant
                            k <= n,
                            addr == word_address(c, k as int),
                            self@ == (BusState {
                                gpu: before.gpu + words_from_ram(before.ram, c, k as int),
                                ..before
                            }),
                        decreases n - k,
                    {
                        proof {
                            lemma_ram_address(addr);
                            lemma_next_word_address(c, k as int);
                        }
                        let cur: u32 = addr & 0x1f_fffc;
                        let word: u32 = self.ram.load32(cur);
                        self.gpu.push(word);
                        addr = match c.step {
                            Step::Increment => addr.wrapping_add(4),
                            Step::Decrement => addr.wrapping_sub(4),
                        };
                        k += 1;
                        assert(before.gpu + words_from_ram(before.ram, c, k as int) =~= (before.gpu
                            + words_from_ram(before.ram, c, k - 1)).push(word));
                    }
                },
                Direction::ToRam => {
                    if port != Port::Otc {
                        return Err(Fatal::UnhandledSource { port });
                    }
                    while k < n
                        invariant
                            k <= n,
                            addr == word_address(c, k as int),
                            self@ == (BusState {
                                ram: otc_fill(before.ram, c, n as int, k as int),
                                ..before
                            }),
                        decreases n - k,
                    {
                        proof {
                            lemma_ram_address(addr);
                            lemma_next_word_address(c, k as int);
                        }
                        let cur: u32 = addr & 0x1f_fffc;
                        let word: u32 = if k == n - 1 {
                            0xff_ffff
                        } else {
                            addr.wrapping_sub(4) & 0x1f_ffff
                        };
                        self.ram.store32(cur, word);
                        addr = match c.step {
                            Step::Increment => addr.wrapping_add(4),
                            Step::Decrement => addr.wrapping_sub(4),
                        };
                        k += 1;
                    }
                },
            }
        }
        self.dma.channel_mut(port).done();
        Ok(())
    }

    fn do_dma_linked_list(&mut self, port: Port) -> (r: Result<(), Fatal>)
        ensures
            (final(self)@, r) == old(self)@.linked_list(port),
    {
        let c: Channel = *self.dma.channel(port);
        if port != Port::Gpu {
            return Err(Fatal::LinkedListPort { port });
        }
        if c.direction != Direction::FromRam {
            return Err(Fatal::LinkedListDirection);
        }
        let ghost before = self@;
        let ghost total = chain(before.ram, ram_address(c.base), MAX_PACKETS as nat);
        let mut addr: u32 = c.base() & 0x1f_fffc;
        let mut packets: u32 = 0;
        let mut ended = false;
        proof {
            lemma_ram_address(c.base);
            lemma_ram_address(ram_address(c.base));
        }
        while packets < MAX_PACKETS && !ended
            invariant
                packets <= MAX_PACKETS,
                addr + 4 <= 0x20_0000,
                addr == ram_address(addr),
                self@.rom == before.rom,
                self@.ram == before.ram,
                self@.dma == before.dma,
                ended ==> total.1 && self@.gpu == before.gpu + total.0,
                !ended ==> total.1 == chain(before.ram, addr, (MAX_PACKETS - packets) as nat).1
                    && before.gpu + total.0 == self@.gpu + chain(
                    before.ram,
                    addr,
                    (MAX_PACKETS - packets) as nat,
                ).0,
            decreases MAX_PACKETS - packets,
        {
            let header: u32 = self.ram.load32(addr);
            let count: u32 = header >> 24;
            let ghost start = self@.gpu;
            let mut i: u32 = 0;
            let mut cur: u32 = addr;
            assert(count <= 0xff) by (bit_vector)
                requires
                    count == header >> 24,
            ;
            while i < count
                invariant
                    i <= count <= 0xff,
                    addr + 4 <= 0x20_0000,
                    cur == ram_address((addr + 4 * i) as u32),
                    self@.rom == before.rom,
                    self@.ram == before.ram,
                    self@.dma == before.dma,
                    self@.gpu == start + packet_words(before.ram, addr, i as int),
                decreases count - i,
            {
                proof {
                    lemma_ram_address((addr + 4 * i) as u32);
                    lemma_ram_address((addr + 4 * i + 4) as u32);
                }
                cur = (cur + 4) & 0x1f_fffc;
                let word: u32 = self.ram.load32(cur);
                self.gpu.push(word);
                i += 1;
                assert(start + packet_words(before.ram, addr, i as int) =~= (start + packet_words(
                    before.ram,
                    addr,
                    i - 1,
                )).push(word));
            }
            proof {
                let rest = (MAX_PACKETS - packets) as nat;
                let words = packet_words(before.ram, addr, count as int);
                lemma_ram_address(header);
                lemma_ram_address(ram_address(header));
                if is_last_packet(header) {
                    assert(chain(before.ram, addr, rest) == (words, true));
                } else {
                    let tail = chain(before.ram, ram_address(header), (rest - 1) as nat);
                    assert(chain(before.ram, addr, rest) == (words + tail.0, tail.1));
                    assert((start + words) + tail.0 =~= start + (words + tail.0));
                }
            }
            if header & 0x80_0000 != 0 {
                ended = true;
            } else {
                addr = header & 0x1f_fffc;
            }
            packets += 1;
        }
        if ended {
            self.dma.channel_mut(port).done();
            Ok(())
        } else {
            assert(self@.gpu =~= before.gpu + total.0);
            Err(Fatal::EndlessList)
        }
    }
}

} // verus!
