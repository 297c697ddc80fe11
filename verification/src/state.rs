//! The model of the processor: its registers, the bus behind it, and the
//! steps that every instruction shares.

use vstd::prelude::*;
use crate::alu::{add32, sub32};
use crate::bus::BusState;
use crate::consts::RESET_PC;
use crate::error::Snapshot;

verus! {

/// Where an exception is handled while the boot vectors are in use.
pub const BOOT_HANDLER: u32 = 0xbfc0_0180;

/// Where an exception is handled otherwise.
pub const HANDLER: u32 = 0x8000_0000;

/// The bit of the status register that chooses the boot vectors.
pub const SR_BOOT_VECTORS: u32 = 0x40_0000;

/// The bit of the status register that isolates the cache.
pub const SR_ISOLATE_CACHE: u32 = 0x1_0000;

/// The bit of the cause register that marks an exception in a delay slot.
pub const CAUSE_DELAY_SLOT: u32 = 0x8000_0000;

/// The exceptions that the processor takes itself.
#[derive(Clone, Copy, Debug, PartialEq, Eq, Structural)]
pub enum Exception {
    LoadAddressError,
    StoreAddressError,
    SysCall,
    Break,
    Overflow,
}

impl Exception {
    pub open spec fn spec_code(self) -> u32 {
        match self {
            Exception::LoadAddressError => 0x4,
            Exception::StoreAddressError => 0x5,
            Exception::SysCall => 0x8,
            Exception::Break => 0x9,
            Exception::Overflow => 0xc,
        }
    }

    /// The code that the cause register reports.
    #[verifier::when_used_as_spec(spec_code)]
    pub fn code(self) -> (r: u32)
        ensures
            r == self.spec_code(),
    {
        match self {
            Exception::LoadAddressError => 0x4,
            Exception::StoreAddressError => 0x5,
            Exception::SysCall => 0x8,
            Exception::Break => 0x9,
            Exception::Overflow => 0xc,
        }
    }
}

/// The model of the processor with all that it can reach.
pub struct CpuState {
    /// The address of the next instruction to fetch.
    pub pc: u32,
    /// The address of the instruction after that one.
    pub next_pc: u32,
    /// The address of the instruction that is being executed.
    pub current_pc: u32,
    /// The general registers as instructions read them.
    pub regs: Seq<u32>,
    /// The general registers as the current instruction leaves them.
    pub shadow: Seq<u32>,
    /// The load in flight: a register and the value it is about to get.
    pub load: (usize, u32),
    /// The instruction word that was fetched last.
    pub opcode: u32,
    pub sr: u32,
    pub hi: u32,
    pub lo: u32,
    pub cause: u32,
    pub epc: u32,
    /// Whether the current instruction has set `next_pc` out of sequence.
    pub branch: bool,
    /// Whether the current instruction follows one that did.
    pub delay_slot: bool,
    /// What lies behind the bus.
    pub bus: BusState,
}

impl CpuState {
    /// Thirty-two registers in each file, register 0 zero in both, and the
    /// load in flight aimed at one of the thirty-two.
    pub open spec fn wf(self) -> bool {
        &&& self.regs.len() == 32
        &&& self.shadow.len() == 32
        &&& self.regs[0] == 0
        &&& self.shadow[0] == 0
        &&& self.load.0 < 32
    }

    /// The processor after reset, in front of `bus`.
    pub open spec fn reset(bus: BusState) -> CpuState {
        CpuState {
            pc: RESET_PC,
            next_pc: add32(RESET_PC, 4),
            current_pc: 0,
            regs: Seq::new(32, |i: int| 0u32),
            shadow: Seq::new(32, |i: int| 0u32),
            load: (0, 0),
            opcode: 0,
            sr: 0,
            hi: 0,
            lo: 0,
            cause: 0,
            epc: 0,
            branch: false,
            delay_slot: false,
            bus,
        }
    }

    /// Register `i` as an instruction reads it.
    pub open spec fn r(self, i: usize) -> u32 {
        self.regs[i as int]
    }

    /// The registers that a diagnostic reports.
    pub open spec fn snapshot(self) -> Snapshot {
        Snapshot {
            pc: self.pc,
            next_pc: self.next_pc,
            opcode: self.opcode,
            sr: self.sr,
            hi: self.hi,
            lo: self.lo,
            current_pc: self.current_pc,
            cause: self.cause,
            epc: self.epc,
            branch: self.branch,
            delay_slot: self.delay_slot,
        }
    }

    /// A write of `v` to register `i`: the write is applied to the shadow
    /// file, and register 0 is set back to zero.
    pub open spec fn set_reg(self, i: usize, v: u32) -> CpuState {
        CpuState { shadow: self.shadow.update(i as int, v).update(0, 0), ..self }
    }

    /// A load of `v` into register `i` that lands with the next instruction.
    pub open spec fn delay_load(self, i: usize, v: u32) -> CpuState {
        CpuState { load: (i, v), ..self }
    }

    /// A branch relative to the delay slot: `offset` words further.
    pub open spec fn branch_by(self, offset: u32) -> CpuState {
        CpuState { branch: true, next_pc: sub32(add32(self.next_pc, offset << 2), 4), ..self }
    }

    /// A jump to `target`.
    pub open spec fn jump_to(self, target: u32) -> CpuState {
        CpuState { branch: true, next_pc: target, ..self }
    }

    /// The status register with the three-entry mode stack pushed: the low
    /// six bits move up by two, and the lowest pair becomes zero.
    pub open spec fn pushed_mode(sr: u32) -> u32 {
        (sr & !0x3fu32) | (((sr & 0x3f) << 2) & 0x3f)
    }

    /// The status register with the mode stack popped: the low six bits
    /// move down by two.
    pub open spec fn popped_mode(sr: u32) -> u32 {
        (sr & !0x3fu32) | ((sr & 0x3f) >> 2)
    }

    /// Entry into the handler of exception `e`.
    pub open spec fn raise(self, e: Exception) -> CpuState {
        let handler = if self.sr & SR_BOOT_VECTORS != 0 {
            BOOT_HANDLER
        } else {
            HANDLER
        };
        CpuState {
            sr: Self::pushed_mode(self.sr),
            cause: if self.delay_slot {
                (e.spec_code() << 2) | CAUSE_DELAY_SLOT
            } else {
                e.spec_code() << 2
            },
            epc: if self.delay_slot {
                sub32(self.current_pc, 4)
            } else {
                self.current_pc
            },
            pc: handler,
            next_pc: add32(handler, 4),
            ..self
        }
    }

    /// The start of a step: the load in flight lands in the shadow file,
    /// and the instruction's address is noted.
    pub open spec fn begin(self) -> CpuState {
        CpuState {
            shadow: self.shadow.update(self.load.0 as int, self.load.1).update(0, 0),
            load: (0, 0),
            current_pc: self.pc,
            ..self
        }
    }

    /// After the fetch of `word`: the program counters move on, and the
    /// branch flag of the instruction before becomes the delay-slot flag.
    pub open spec fn fetched(self, word: u32) -> CpuState {
        CpuState {
            opcode: word,
            pc: self.next_pc,
            next_pc: add32(self.next_pc, 4),
            delay_slot: self.branch,
            branch: false,
            ..self
        }
    }

    /// The end of a step: the shadow file becomes the visible one.
    pub open spec fn commit(self) -> CpuState {
        CpuState { regs: self.shadow, ..self }
    }
}

/// An exception entry and the return from it leave the two older pairs of
/// the mode stack as they were; in between, the current pair is zero:
/// kernel mode, interrupts off. The bits above the stack never change.
pub proof fn lemma_mode_stack(sr: u32)
    ensures
        CpuState::pushed_mode(sr) & 0x3 == 0,
        CpuState::pushed_mode(sr) & 0x3c == (sr & 0xf) << 2,
        CpuState::pushed_mode(sr) & !0x3fu32 == sr & !0x3fu32,
        CpuState::popped_mode(sr) & 0x3f == (sr & 0x3f) >> 2,
        CpuState::popped_mode(sr) & !0x3fu32 == sr & !0x3fu32,
        CpuState::popped_mode(CpuState::pushed_mode(sr)) & 0xf == sr & 0xf,
{
    assert(CpuState::pushed_mode(sr) & 0x3 == 0 && CpuState::pushed_mode(sr) & 0x3c == (sr & 0xf)
        << 2 && CpuState::pushed_mode(sr) & !0x3fu32 == sr & !0x3fu32 && CpuState::popped_mode(sr)
        & 0x3f == (sr & 0x3f) >> 2 && CpuState::popped_mode(sr) & !0x3fu32 == sr & !0x3fu32
        && CpuState::popped_mode(CpuState::pushed_mode(sr)) & 0xf == sr & 0xf) by (bit_vector);
}

} // verus!
