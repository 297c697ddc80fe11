//! The interpreter: fetches the instruction at the program counter,
//! decodes it, executes it against the bus and publishes the registers.

use vstd::prelude::*;
use crate::alu::{
    add_checked, add_wrapping, div, divu, extend16, extend8, lt_signed, mult, multu, sra,
    sub_checked, sub_wrapping,
};
use crate::bus::Bus;
use crate::consts::RESET_PC;
use crate::error::{Fatal, Snapshot};
use crate::instruction::Instruction;
use crate::state::{
    CpuState, Exception, BOOT_HANDLER, CAUSE_DELAY_SLOT, HANDLER, SR_BOOT_VECTORS,
    SR_ISOLATE_CACHE,
};

verus! {

/// The registers of the processor.
struct Core {
    pc: u32,
    next_pc: u32,
    load: (usize, u32),
    r: [u32; 32],
    out_r: [u32; 32],
    opcode: Instruction,
    sr: u32,
    hi: u32,
    lo: u32,
    current_pc: u32,
    cause: u32,
    epc: u32,
    branch: bool,
    delay_slot: bool,
}

impl Core {
    #[verifier::type_invariant]
    spec fn inv(self) -> bool {
        &&& self.r[0] == 0
        &&& self.out_r[0] == 0
        &&& self.load.0 < 32
    }
}

/// The processor, with the bus that it owns.
pub struct CPU {
    core: Core,
    bus: Bus,
}

impl View for CPU {
    type V = CpuState;

    closed spec fn view(&self) -> CpuState {
        CpuState {
            pc: self.core.pc,
            next_pc: self.core.next_pc,
            current_pc: self.core.current_pc,
            regs: self.core.r@,
            shadow: self.core.out_r@,
            load: self.core.load,
            opcode: self.core.opcode.0,
            sr: self.core.sr,
            hi: self.core.hi,
            lo: self.core.lo,
            cause: self.core.cause,
            epc: self.core.epc,
            branch: self.core.branch,
            delay_slot: self.core.delay_slot,
            bus: self.bus@,
        }
    }
}

proof fn lemma_shift_amount(x: u32)
    by (bit_vector)
    ensures
        x & 0x1f < 32,
        (x & 0xff) < 0x100,
        (x & 0xffff) < 0x1_0000,
{
}

impl CPU {
    /// The processor after reset, in front of `bus`: the program counter at
    /// the start of the boot ROM, every register zero, no load in flight.
    pub fn new(bus: Bus) -> (cpu: CPU)
        ensures
            cpu@ == CpuState::reset(bus@),
            cpu@.wf(),
    {
        let registers: [u32; 32] = [0;32];
        let start: u32 = RESET_PC;
        let cpu = CPU {
            core: Core {
                pc: start,
                next_pc: start.wrapping_add(4),
                load: (0, 0),
                r: registers,
                out_r: registers,
                opcode: Instruction(0),
                sr: 0,
                hi: 0,
                lo: 0,
                current_pc: 0,
                cause: 0,
                epc: 0,
                branch: false,
                delay_slot: false,
            },
            bus,
        };
        assert(cpu@.regs =~= CpuState::reset(bus@).regs);
        assert(cpu@.shadow =~= CpuState::reset(bus@).shadow);
        cpu
    }

    /// Executes the instruction at the program counter. `Ok` also where
    /// the processor took an exception of its own; `Err` where the machine
    /// cannot go on.
    pub fn run_next_opcode(&mut self) -> (r: Result<(), Fatal>)
        ensures
            (final(self)@, r) == old(self)@.step(),
            final(self)@.wf(),
            final(self)@.regs[0] == 0,
            old(self)@.bus.wf() ==> final(self)@.bus.wf(),
    {
        proof {
            use_type_invariant(&self.core);
        }
        let (reg, val) = self.core.load;
        self.set_r(reg, val);
        proof {
            use_type_invariant(&self.core);
        }
        self.core.load = (0, 0);
        self.core.current_pc = self.core.pc;
        assert(self@ == old(self)@.begin());
        if !Self::check_alignment(self.core.current_pc, 4) {
            self.exception(Exception::LoadAddressError);
            proof {
                use_type_invariant(&self.core);
            }
            return Ok(());
        }
        let word: u32 = match self.load32(self.core.pc) {
            Ok(word) => word,
            Err(e) => {
                return Err(e);
            },
        };
        self.core.opcode = Instruction(word);
        self.core.pc = self.core.next_pc;
        self.core.next_pc = self.core.pc.wrapping_add(4);
        self.core.delay_slot = self.core.branch;
        self.core.branch = false;
        assert(self@ == old(self)@.begin().fetched(word));
        match self.decode_and_execute(Instruction(word)) {
            Ok(()) => {},
            Err(e) => {
                proof {
                    use_type_invariant(&self.core);
                }
                return Err(e);
            },
        }
        proof {
            use_type_invariant(&self.core);
        }
        self.core.r = self.core.out_r;
        Ok(())
    }

    /// Executes `i` as the current instruction: on the registers as they
    /// are, with the program counters already moved on.
    pub fn decode_and_execute(&mut self, i: Instruction) -> (r: Result<(), Fatal>)
        ensures
            (final(self)@, r) == old(self)@.execute(i),
            final(self)@.wf(),
            old(self)@.bus.wf() ==> final(self)@.bus.wf(),
    {
        proof {
            use_type_invariant(&self.core);
        }
        let r = match i.primary() {
            0x00 => self.execute_special(i),
            0x01 => {
                self.op_bxx(i.imm_se(), i.rt(), i.rs());
                Ok(())
            },
            0x02 => {
                self.op_j(i.imm_jmp());
                Ok(())
            },
            0x03 => {
                self.op_jal(i.imm_jmp());
                Ok(())
            },
            0x04 => {
                self.op_beq(i.imm_se(), i.rt(), i.rs());
                Ok(())
            },
            0x05 => {
                self.op_bne(i.imm_se(), i.rt(), i.rs());
                Ok(())
            },
            0x06 => {
                self.op_blez(i.imm_se(), i.rs());
                Ok(())
            },
            0x07 => {
                self.op_bgtz(i.imm_se(), i.rs());
                Ok(())
            },
            0x08 => {
                self.op_addi(i.imm_se(), i.rt(), i.rs());
                Ok(())
            },
            0x09 => {
                self.op_addiu(i.imm_se(), i.rt(), i.rs());
                Ok(())
            },
            0x0a => {
                self.op_slti(i.imm_se(), i.rt(), i.rs());
                Ok(())
            },
            0x0b => {
                self.op_sltiu(i.imm_se(), i.rt(), i.rs());
                Ok(())
            },
            0x0c => {
                self.op_andi(i.imm(), i.rt(), i.rs());
                Ok(())
            },
            0x0d => {
                self.op_ori(i.imm(), i.rt(), i.rs());
                Ok(())
            },
            0x0f => {
                self.op_lui(i.imm(), i.rt());
                Ok(())
            },
            0x10 => self.op_cop0(i),
            0x20 => self.op_lb(i.imm_se(), i.rt(), i.rs()),
            0x21 => self.op_lh(i.imm_se(), i.rt(), i.rs()),
            0x23 => self.op_lw(i.imm_se(), i.rt(), i.rs()),
            0x24 => self.op_lbu(i.imm_se(), i.rt(), i.rs()),
            0x25 => self.op_lhu(i.imm_se(), i.rt(), i.rs()),
            0x28 => self.op_sb(i.imm_se(), i.rt(), i.rs()),
            0x29 => self.op_sh(i.imm_se(), i.rt(), i.rs()),
            0x2b => self.op_sw(i.imm_se(), i.rt(), i.rs()),
            _ => Err(Fatal::UnhandledOpcode { word: i.0, cpu: self.snapshot() }),
        };
        proof {
            use_type_invariant(&self.core);
            assert(old(self)@.bus.wf() ==> self@.bus.wf()) by {
                crate::laws::lemma_execute_keeps_wf(old(self)@, i);
            }
        }
        r
    }

    fn execute_special(&mut self, i: Instruction) -> (r: Result<(), Fatal>)
        ensures
            (final(self)@, r) == old(self)@.execute_special(i),
    {
        match i.secondary() {
            0x00 => self.op_sll(i.imm5(), i.rt(), i.rd()),
            0x02 => self.op_srl(i.imm5(), i.rt(), i.rd()),
            0x03 => self.op_sra(i.imm5(), i.rt(), i.rd()),
            0x04 => self.op_sllv(i.rt(), i.rs(), i.rd()),
            0x06 => self.op_srlv(i.rt(), i.rs(), i.rd()),
            0x07 => self.op_srav(i.rt(), i.rs(), i.rd()),
            0x08 => self.op_jr(i.rs()),
            0x09 => self.op_jalr(i.rs(), i.rd()),
            0x0c => self.exception(Exception::SysCall),
            0x0d => self.exception(Exception::Break),
            0x10 => self.op_mfhi(i.rd()),
            0x11 => self.op_mthi(i.rs()),
            0x12 => self.op_mflo(i.rd()),
            0x13 => self.op_mtlo(i.rs()),
            0x18 => self.op_mult(i.rt(), i.rs()),
            0x19 => self.op_multu(i.rt(), i.rs()),
            0x1a => self.op_div(i.rt(), i.rs()),
            0x1b => self.op_divu(i.rt(), i.rs()),
            0x20 => self.op_add(i.rt(), i.rs(), i.rd()),
            0x21 => self.op_addu(i.rt(), i.rs(), i.rd()),
            0x22 => self.op_sub(i.rt(), i.rs(), i.rd()),
            0x23 => self.op_subu(i.rt(), i.rs(), i.rd()),
            0x24 => self.op_and(i.rt(), i.rs(), i.rd()),
            0x25 => self.op_or(i.rt(), i.rs(), i.rd()),
            0x26 => self.op_xor(i.rt(), i.rs(), i.rd()),
            0x27 => self.op_nor(i.rt(), i.rs(), i.rd()),
            0x2a => self.op_slt(i.rt(), i.rs(), i.rd()),
            0x2b => self.op_sltu(i.rt(), i.rs(), i.rd()),
            _ => {
                return Err(Fatal::UnhandledOpcode { word: i.0, cpu: self.snapshot() });
            },
        }
        Ok(())
    }

    /// The registers that a diagnostic reports.
    pub fn snapshot(&self) -> (s: Snapshot)
        ensures
            s == self@.snapshot(),
    {
        Snapshot {
            pc: self.core.pc,
            next_pc: self.core.next_pc,
            opcode: self.core.opcode.0,
            sr: self.core.sr,
            hi: self.core.hi,
            lo: self.core.lo,
            current_pc: self.core.current_pc,
            cause: self.core.cause,
            epc: self.core.epc,
            branch: self.core.branch,
            delay_slot: self.core.delay_slot,
        }
    }

    /// General register `index` as the next instruction will read it.
    pub fn reg(&self, index: usize) -> (v: u32)
        requires
            index < 32,
        ensures
            v == self@.regs[index as int],
    {
        self.core.r[index]
    }

    /// The load in flight: the register and the value that it will get.
    pub fn pending_load(&self) -> (l: (usize, u32))
        ensures
            l == self@.load,
            l.0 < 32,
    {
        proof {
            use_type_invariant(&self.core);
        }
        self.core.load
    }

    /// The bus.
    pub fn bus(&self) -> (bus: &Bus)
        ensures
            bus@ == self@.bus,
    {
        &self.bus
    }

    /// The bus, to be changed in place.
    pub fn bus_mut(&mut self) -> (bus: &mut Bus)
        ensures
            bus@ == old(self)@.bus,
            final(self)@ == (CpuState { bus: final(bus)@, ..old(self)@ }),
    {
        &mut self.bus
    }

    fn check_alignment(addr: u32, alignment: u32) -> (r: bool)
        requires
            alignment > 0,
        ensures
            r == (addr % alignment == 0),
    {
        addr % alignment == 0
    }

    fn load32(&self, addr: u32) -> (r: Result<u32, Fatal>)
        requires
            addr % 4 == 0,
        ensures
            r == self@.bus.load32(addr),
    {
        self.bus.load32(addr)
    }

    fn load16(&self, addr: u32) -> (r: Result<u16, Fatal>)
        requires
            addr % 2 == 0,
        ensures
            r == self@.bus.load16(addr),
    {
        self.bus.load16(addr)
    }

    fn load8(&self, addr: u32) -> (r: Result<u8, Fatal>)
        ensures
            r == self@.bus.load8(addr),
    {
        self.bus.load8(addr)
    }

    fn store8(&mut self, addr: u32, val: u8) -> (r: Result<(), Fatal>)
        ensures
            (final(self)@, r) == old(self)@.stored(old(self)@.bus.store8(addr, val)),
    {
        self.bus.store8(addr, val)
    }

    fn store16(&mut self, addr: u32, val: u16) -> (r: Result<(), Fatal>)
        requires
            addr % 2 == 0,
        ensures
            (final(self)@, r) == old(self)@.stored(old(self)@.bus.store16(addr, val)),
    {
        self.bus.store16(addr, val)
    }

    fn store32(&mut self, addr: u32, val: u32) -> (r: Result<(), Fatal>)
        requires
            addr % 4 == 0,
        ensures
            (final(self)@, r) == old(self)@.stored(old(self)@.bus.store32(addr, val)),
    {
        self.bus.store32(addr, val)
    }

    fn set_r(&mut self, index: usize, val: u32)
        requires
            index < 32,
        ensures
            final(self)@ == old(self)@.set_reg(index, val),
    {
        proof {
            use_type_invariant(&self.core);
        }
        if index != 0 {
            self.core.out_r[index] = val;
        }
        assert(self@.shadow =~= old(self)@.set_reg(index, val).shadow);
    }

    fn set_load(&mut self, index: usize, val: u32)
        requires
            index < 32,
        ensures
            final(self)@ == old(self)@.delay_load(index, val),
    {
        proof {
            use_type_invariant(&self.core);
        }
        self.core.load = (index, val);
    }

    fn set_hi_lo(&mut self, pair: (u32, u32))
        ensures
            final(self)@ == (CpuState { hi: pair.0, lo: pair.1, ..old(self)@ }),
    {
        proof {
            use_type_invariant(&self.core);
        }
        self.core.hi = pair.0;
        self.core.lo = pair.1;
    }

    fn set_sr(&mut self, sr: u32)
        ensures
            final(self)@ == (CpuState { sr, ..old(self)@ }),
    {
        proof {
            use_type_invariant(&self.core);
        }
        self.core.sr = sr;
    }

    fn jump(&mut self, target: u32)
        ensures
            final(self)@ == old(self)@.jump_to(target),
    {
        proof {
            use_type_invariant(&self.core);
        }
        self.core.branch = true;
        self.core.next_pc = target;
    }

    fn exception(&mut self, cause: Exception)
        ensures
            final(self)@ == old(self)@.raise(cause),
    {
        proof {
            use_type_invariant(&self.core);
        }
        let handler: u32 = if self.core.sr & SR_BOOT_VECTORS != 0 {
            BOOT_HANDLER
        } else {
            HANDLER
        };
        let mode: u32 = self.core.sr & 0x3f;
        let sr: u32 = (self.core.sr & !0x3fu32) | ((mode << 2) & 0x3f);
        let code: u32 = cause.code() << 2;
        let delay_slot = self.core.delay_slot;
        let current_pc: u32 = self.core.current_pc;
        self.core.sr = sr;
        self.core.cause = if delay_slot {
            code | CAUSE_DELAY_SLOT
        } else {
            code
        };
        self.core.epc = if delay_slot {
            current_pc.wrapping_sub(4)
        } else {
            current_pc
        };
        self.core.pc = handler;
        self.core.next_pc = handler.wrapping_add(4);
    }

    fn branch(&mut self, offset: u32)
        ensures
            final(self)@ == old(self)@.branch_by(offset),
    {
        proof {
            use_type_invariant(&self.core);
        }
        let offset: u32 = offset << 2;
        self.core.branch = true;
        self.core.next_pc = self.core.next_pc.wrapping_add(offset).wrapping_sub(4);
    }

    fn write_or_trap(&mut self, reg: usize, v: Option<u32>)
        requires
            reg < 32,
        ensures
            final(self)@ == old(self)@.write_or_trap(reg, v),
    {
        match v {
            Some(v) => self.set_r(reg, v),
            None => self.exception(Exception::Overflow),
        }
    }

    fn op_sll(&mut self, imm5: u32, rt: usize, rd: usize)
        requires
            rt < 32,
            rd < 32,
            imm5 < 32,
        ensures
            final(self)@ == old(self)@.op_sll(imm5, rt, rd),
    {
        let v: u32 = self.core.r[rt] << imm5;
        self.set_r(rd, v);
    }

    fn op_srl(&mut self, imm5: u32, rt: usize, rd: usize)
        requires
            rt < 32,
            rd < 32,
            imm5 < 32,
        ensures
            final(self)@ == old(self)@.op_srl(imm5, rt, rd),
    {
        let v: u32 = self.core.r[rt] >> imm5;
        self.set_r(rd, v);
    }

    fn op_sra(&mut self, imm5: u32, rt: usize, rd: usize)
        requires
            rt < 32,
            rd < 32,
            imm5 < 32,
        ensures
            final(self)@ == old(self)@.op_sra(imm5, rt, rd),
    {
        let v: u32 = sra(self.core.r[rt], imm5);
        self.set_r(rd, v);
    }

    fn op_sllv(&mut self, rt: usize, rs: usize, rd: usize)
        requires
            rt < 32,
            rs < 32,
            rd < 32,
        ensures
            final(self)@ == old(self)@.op_sllv(rt, rs, rd),
    {
        proof {
            lemma_shift_amount(self.core.r[rs as int]);
        }
        let v: u32 = self.core.r[rt] << (self.core.r[rs] & 0x1f);
        self.set_r(rd, v);
    }

    fn op_srlv(&mut self, rt: usize, rs: usize, rd: usize)
        requires
            rt < 32,
            rs < 32,
            rd < 32,
        ensures
            final(self)@ == old(self)@.op_srlv(rt, rs, rd),
    {
        proof {
            lemma_shift_amount(self.core.r[rs as int]);
        }
        let v: u32 = self.core.r[rt] >> (self.core.r[rs] & 0x1f);
        self.set_r(rd, v);
    }

    fn op_srav(&mut self, rt: usize, rs: usize, rd: usize)
        requires
            rt < 32,
            rs < 32,
            rd < 32,
        ensures
            final(self)@ == old(self)@.op_srav(rt, rs, rd),
    {
        proof {
            lemma_shift_amount(self.core.r[rs as int]);
        }
        let v: u32 = sra(self.core.r[rt], self.core.r[rs] & 0x1f);
        self.set_r(rd, v);
    }

    fn op_jr(&mut self, rs: usize)
        requires
            rs < 32,
        ensures
            final(self)@ == old(self)@.op_jr(rs),
    {
        let target: u32 = self.core.r[rs];
        self.jump(target);
    }

    fn op_jalr(&mut self, rs: usize, rd: usize)
        requires
            rs < 32,
            rd < 32,
        ensures
            final(self)@ == old(self)@.op_jalr(rs, rd),
    {
        let ra: u32 = self.core.next_pc;
        let target: u32 = self.core.r[rs];
        self.set_r(rd, ra);
        self.jump(target);
    }

    fn op_j(&mut self, imm_jmp: u32)
        ensures
            final(self)@ == old(self)@.op_j(imm_jmp),
    {
        let target: u32 = (self.core.next_pc & 0xf000_0000) | (imm_jmp << 2);
        self.jump(target);
    }

    fn op_jal(&mut self, imm_jmp: u32)
        ensures
            final(self)@ == old(self)@.op_jal(imm_jmp),
    {
        let ra: u32 = self.core.next_pc;
        self.set_r(31, ra);
        self.op_j(imm_jmp);
    }

    fn op_bxx(&mut self, imm_se: u32, rt: usize, rs: usize)
        requires
            rt < 32,
            rs < 32,
        ensures
            final(self)@ == old(self)@.op_bxx(imm_se, rt, rs),
    {
        let at_least_zero = rt & 1 != 0;
        let link = rt >> 1 == 8;
        let below_zero = lt_signed(self.core.r[rs], 0);
        let taken = below_zero != at_least_zero;
        if link {
            let ra: u32 = self.core.next_pc;
            self.set_r(31, ra);
        }
        if taken {
            self.branch(imm_se);
        }
    }

    fn op_beq(&mut self, imm_se: u32, rt: usize, rs: usize)
        requires
            rt < 32,
            rs < 32,
        ensures
            final(self)@ == old(self)@.op_beq(imm_se, rt, rs),
    {
        if self.core.r[rs] == self.core.r[rt] {
            self.branch(imm_se);
        }
    }

    fn op_bne(&mut self, imm_se: u32, rt: usize, rs: usize)
        requires
            rt < 32,
            rs < 32,
        ensures
            final(self)@ == old(self)@.op_bne(imm_se, rt, rs),
    {
        if self.core.r[rs] != self.core.r[rt] {
            self.branch(imm_se);
        }
    }

    fn op_blez(&mut self, imm_se: u32, rs: usize)
        requires
            rs < 32,
        ensures
            final(self)@ == old(self)@.op_blez(imm_se, rs),
    {
        if !lt_signed(0, self.core.r[rs]) {
            self.branch(imm_se);
        }
    }

    fn op_bgtz(&mut self, imm_se: u32, rs: usize)
        requires
            rs < 32,
        ensures
            final(self)@ == old(self)@.op_bgtz(imm_se, rs),
    {
        if lt_signed(0, self.core.r[rs]) {
            self.branch(imm_se);
        }
    }

    fn op_mfhi(&mut self, rd: usize)
        requires
            rd < 32,
        ensures
            final(self)@ == old(self)@.op_mfhi(rd),
    {
        let v: u32 = self.core.hi;
        self.set_r(rd, v);
    }

    fn op_mthi(&mut self, rs: usize)
        requires
            rs < 32,
        ensures
            final(self)@ == old(self)@.op_mthi(rs),
    {
        let lo: u32 = self.core.lo;
        let hi: u32 = self.core.r[rs];
        self.set_hi_lo((hi, lo));
    }

    fn op_mflo(&mut self, rd: usize)
        requires
            rd < 32,
        ensures
            final(self)@ == old(self)@.op_mflo(rd),
    {
        let v: u32 = self.core.lo;
        self.set_r(rd, v);
    }

    fn op_mtlo(&mut self, rs: usize)
        requires
            rs < 32,
        ensures
            final(self)@ == old(self)@.op_mtlo(rs),
    {
        let hi: u32 = self.core.hi;
        let lo: u32 = self.core.r[rs];
        self.set_hi_lo((hi, lo));
    }

    fn op_mult(&mut self, rt: usize, rs: usize)
        requires
            rt < 32,
            rs < 32,
        ensures
            final(self)@ == old(self)@.op_mult(rt, rs),
    {
        let pair = mult(self.core.r[rs], self.core.r[rt]);
        self.set_hi_lo(pair);
    }

    fn op_multu(&mut self, rt: usize, rs: usize)
        requires
            rt < 32,
            rs < 32,
        ensures
            final(self)@ == old(self)@.op_multu(rt, rs),
    {
        let pair = multu(self.core.r[rs], self.core.r[rt]);
        self.set_hi_lo(pair);
    }

    fn op_div(&mut self, rt: usize, rs: usize)
        requires
            rt < 32,
            rs < 32,
        ensures
            final(self)@ == old(self)@.op_div(rt, rs),
    {
        let pair = div(self.core.r[rs], self.core.r[rt]);
        self.set_hi_lo(pair);
    }

    fn op_divu(&mut self, rt: usize, rs: usize)
        requires
            rt < 32,
            rs < 32,
        ensures
            final(self)@ == old(self)@.op_divu(rt, rs),
    {
        let pair = divu(self.core.r[rs], self.core.r[rt]);
        self.set_hi_lo(pair);
    }

    fn op_add(&mut self, rt: usize, rs: usize, rd: usize)
        requires
            rt < 32,
            rs < 32,
            rd < 32,
        ensures
            final(self)@ == old(self)@.op_add(rt, rs, rd),
    {
        let v = add_checked(self.core.r[rs], self.core.r[rt]);
        self.write_or_trap(rd, v);
    }

    fn op_addu(&mut self, rt: usize, rs: usize, rd: usize)
        requires
            rt < 32,
            rs < 32,
            rd < 32,
        ensures
            final(self)@ == old(self)@.op_addu(rt, rs, rd),
    {
        let v: u32 = add_wrapping(self.core.r[rs], self.core.r[rt]);
        self.set_r(rd, v);
    }

    fn op_sub(&mut self, rt: usize, rs: usize, rd: usize)
        requires
            rt < 32,
            rs < 32,
            rd < 32,
        ensures
            final(self)@ == old(self)@.op_sub(rt, rs, rd),
    {
        let v = sub_checked(self.core.r[rs], self.core.r[rt]);
        self.write_or_trap(rd, v);
    }

    fn op_subu(&mut self, rt: usize, rs: usize, rd: usize)
        requires
            rt < 32,
            rs < 32,
            rd < 32,
        ensures
            final(self)@ == old(self)@.op_subu(rt, rs, rd),
    {
        let v: u32 = sub_wrapping(self.core.r[rs], self.core.r[rt]);
        self.set_r(rd, v);
    }

    fn op_and(&mut self, rt: usize, rs: usize, rd: usize)
        requires
            rt < 32,
            rs < 32,
            rd < 32,
        ensures
            final(self)@ == old(self)@.op_and(rt, rs, rd),
    {
        let v: u32 = self.core.r[rs] & self.core.r[rt];
        self.set_r(rd, v);
    }

    fn op_or(&mut self, rt: usize, rs: usize, rd: usize)
        requires
            rt < 32,
            rs < 32,
            rd < 32,
        ensures
            final(self)@ == old(self)@.op_or(rt, rs, rd),
    {
        let v: u32 = self.core.r[rs] | self.core.r[rt];
        self.set_r(rd, v);
    }

    fn op_xor(&mut self, rt: usize, rs: usize, rd: usize)
        requires
            rt < 32,
            rs < 32,
            rd < 32,
        ensures
            final(self)@ == old(self)@.op_xor(rt, rs, rd),
    {
        let v: u32 = self.core.r[rs] ^ self.core.r[rt];
        self.set_r(rd, v);
    }

    fn op_nor(&mut self, rt: usize, rs: usize, rd: usize)
        requires
            rt < 32,
            rs < 32,
            rd < 32,
        ensures
            final(self)@ == old(self)@.op_nor(rt, rs, rd),
    {
        let v: u32 = !(self.core.r[rs] | self.core.r[rt]);
        self.set_r(rd, v);
    }

    fn op_slt(&mut self, rt: usize, rs: usize, rd: usize)
        requires
            rt < 32,
            rs < 32,
            rd < 32,
        ensures
            final(self)@ == old(self)@.op_slt(rt, rs, rd),
    {
        let v: u32 = if lt_signed(self.core.r[rs], self.core.r[rt]) {
            1
        } else {
            0
        };
        self.set_r(rd, v);
    }

    fn op_sltu(&mut self, rt: usize, rs: usize, rd: usize)
        requires
            rt < 32,
            rs < 32,
            rd < 32,
        ensures
            final(self)@ == old(self)@.op_sltu(rt, rs, rd),
    {
        let v: u32 = if self.core.r[rs] < self.core.r[rt] {
            1
        } else {
            0
        };
        self.set_r(rd, v);
    }

    fn op_addi(&mut self, imm_se: u32, rt: usize, rs: usize)
        requires
            rt < 32,
            rs < 32,
        ensures
            final(self)@ == old(self)@.op_addi(imm_se, rt, rs),
    {
        let v = add_checked(self.core.r[rs], imm_se);
        self.write_or_trap(rt, v);
    }

    fn op_addiu(&mut self, imm_se: u32, rt: usize, rs: usize)
        requires
            rt < 32,
            rs < 32,
        ensures
            final(self)@ == old(self)@.op_addiu(imm_se, rt, rs),
    {
        let v: u32 = add_wrapping(self.core.r[rs], imm_se);
        self.set_r(rt, v);
    }

    fn op_slti(&mut self, imm_se: u32, rt: usize, rs: usize)
        requires
            rt < 32,
            rs < 32,
        ensures
            final(self)@ == old(self)@.op_slti(imm_se, rt, rs),
    {
        let v: u32 = if lt_signed(self.core.r[rs], imm_se) {
            1
        } else {
            0
        };
        self.set_r(rt, v);
    }

    fn op_sltiu(&mut self, imm_se: u32, rt: usize, rs: usize)
        requires
            rt < 32,
            rs < 32,
        ensures
            final(self)@ == old(self)@.op_sltiu(imm_se, rt, rs),
    {
        let v: u32 = if self.core.r[rs] < imm_se {
            1
        } else {
            0
        };
        self.set_r(rt, v);
    }

    fn op_andi(&mut self, imm: u32, rt: usize, rs: usize)
        requires
            rt < 32,
            rs < 32,
        ensures
            final(self)@ == old(self)@.op_andi(imm, rt, rs),
    {
        let v: u32 = self.core.r[rs] & imm;
        self.set_r(rt, v);
    }

    fn op_ori(&mut self, imm: u32, rt: usize, rs: usize)
        requires
            rt < 32,
            rs < 32,
        ensures
            final(self)@ == old(self)@.op_ori(imm, rt, rs),
    {
        let v: u32 = self.core.r[rs] | imm;
        self.set_r(rt, v);
    }

    fn op_lui(&mut self, imm: u32, rt: usize)
        requires
            rt < 32,
        ensures
            final(self)@ == old(self)@.op_lui(imm, rt),
    {
        let v: u32 = imm << 16;
        self.set_r(rt, v);
    }

    fn op_cop0(&mut self, i: Instruction) -> (r: Result<(), Fatal>)
        ensures
            (final(self)@, r) == old(self)@.op_cop0(i),
    {
        match i.rs() {
            0 => self.op_mfc0(i.rt(), i.rd()),
            4 => self.op_mtc0(i.rt(), i.rd()),
            0x10 => self.op_rfe(i),
            _ => Err(Fatal::UnhandledCop0 { word: i.0, cpu: self.snapshot() }),
        }
    }

    fn op_rfe(&mut self, i: Instruction) -> (r: Result<(), Fatal>)
        ensures
            (final(self)@, r) == old(self)@.op_rfe(i),
    {
        if i.secondary() != 0x10 {
            return Err(Fatal::InvalidRfe { secondary: i.secondary() });
        }
        let mode: u32 = self.core.sr & 0x3f;
        let sr: u32 = (self.core.sr & !0x3fu32) | (mode >> 2);
        self.set_sr(sr);
        Ok(())
    }

    fn op_mfc0(&mut self, rt: usize, rd: usize) -> (r: Result<(), Fatal>)
        requires
            rt < 32,
            rd < 32,
        ensures
            (final(self)@, r) == old(self)@.op_mfc0(rt, rd),
    {
        let v: u32 = match rd {
            12 => self.core.sr,
            13 => self.core.cause,
            14 => self.core.epc,
            _ => {
                return Err(Fatal::UnhandledCop0Read { reg: rd });
            },
        };
        self.set_load(rt, v);
        Ok(())
    }

    fn op_mtc0(&mut self, rt: usize, rd: usize) -> (r: Result<(), Fatal>)
        requires
            rt < 32,
            rd < 32,
        ensures
            (final(self)@, r) == old(self)@.op_mtc0(rt, rd),
    {
        let v: u32 = self.core.r[rt];
        match rd {
            3 | 5 | 6 | 7 | 9 | 11 | 13 => {
                if v != 0 {
                    return Err(Fatal::Cop0WriteRefused { reg: rd });
                }
            },
            12 => self.set_sr(v),
            _ => {
                return Err(Fatal::UnhandledCop0Write { reg: rd });
            },
        }
        Ok(())
    }

    fn effective(&self, imm_se: u32, rs: usize) -> (addr: u32)
        requires
            rs < 32,
        ensures
            addr == self@.effective(imm_se, rs),
    {
        add_wrapping(self.core.r[rs], imm_se)
    }

    fn cache_isolated(&self) -> (r: bool)
        ensures
            r == self@.cache_isolated(),
    {
        self.core.sr & SR_ISOLATE_CACHE != 0
    }

    fn op_sb(&mut self, imm_se: u32, rt: usize, rs: usize) -> (r: Result<(), Fatal>)
        requires
            rt < 32,
            rs < 32,
        ensures
            (final(self)@, r) == old(self)@.op_sb(imm_se, rt, rs),
    {
        if self.cache_isolated() {
            return Ok(());
        }
        proof {
            lemma_shift_amount(self.core.r[rt as int]);
        }
        let v: u8 = (self.core.r[rt] & 0xff) as u8;
        let addr: u32 = self.effective(imm_se, rs);
        self.store8(addr, v)
    }

    fn op_lb(&mut self, imm_se: u32, rt: usize, rs: usize) -> (r: Result<(), Fatal>)
        requires
            rt < 32,
            rs < 32,
        ensures
            (final(self)@, r) == old(self)@.op_lb(imm_se, rt, rs),
    {
        let addr: u32 = self.effective(imm_se, rs);
        match self.load8(addr) {
            Ok(v) => {
                self.set_load(rt, extend8(v));
                Ok(())
            },
            Err(e) => Err(e),
        }
    }

    fn op_lbu(&mut self, imm_se: u32, rt: usize, rs: usize) -> (r: Result<(), Fatal>)
        requires
            rt < 32,
            rs < 32,
        ensures
            (final(self)@, r) == old(self)@.op_lbu(imm_se, rt, rs),
    {
        let addr: u32 = self.effective(imm_se, rs);
        match self.load8(addr) {
            Ok(v) => {
                self.set_load(rt, v as u32);
                Ok(())
            },
            Err(e) => Err(e),
        }
    }

    fn op_lh(&mut self, imm_se: u32, rt: usize, rs: usize) -> (r: Result<(), Fatal>)
        requires
            rt < 32,
            rs < 32,
        ensures
            (final(self)@, r) == old(self)@.op_lh(imm_se, rt, rs),
    {
        let addr: u32 = self.effective(imm_se, rs);
        if Self::check_alignment(addr, 2) {
            match self.load16(addr) {
                Ok(v) => {
                    self.set_load(rt, extend16(v));
                    Ok(())
                },
                Err(e) => Err(e),
            }
        } else {
            self.exception(Exception::LoadAddressError);
            Ok(())
        }
    }

    fn op_lhu(&mut self, imm_se: u32, rt: usize, rs: usize) -> (r: Result<(), Fatal>)
        requires
            rt < 32,
            rs < 32,
        ensures
            (final(self)@, r) == old(self)@.op_lhu(imm_se, rt, rs),
    {
        let addr: u32 = self.effective(imm_se, rs);
        if Self::check_alignment(addr, 2) {
            match self.load16(addr) {
                Ok(v) => {
                    self.set_load(rt, v as u32);
                    Ok(())
                },
                Err(e) => Err(e),
            }
        } else {
            self.exception(Exception::LoadAddressError);
            Ok(())
        }
    }

    fn op_sh(&mut self, imm_se: u32, rt: usize, rs: usize) -> (r: Result<(), Fatal>)
        requires
            rt < 32,
            rs < 32,
        ensures
            (final(self)@, r) == old(self)@.op_sh(imm_se, rt, rs),
    {
        if self.cache_isolated() {
            return Ok(());
        }
        proof {
            lemma_shift_amount(self.core.r[rt as int]);
        }
        let v: u16 = (self.core.r[rt] & 0xffff) as u16;
        let addr: u32 = self.effective(imm_se, rs);
        if Self::check_alignment(addr, 2) {
            self.store16(addr, v)
        } else {
            self.exception(Exception::StoreAddressError);
            Ok(())
        }
    }

    fn op_lw(&mut self, imm_se: u32, rt: usize, rs: usize) -> (r: Result<(), Fatal>)
        requires
            rt < 32,
            rs < 32,
        ensures
            (final(self)@, r) == old(self)@.op_lw(imm_se, rt, rs),
    {
        if self.cache_isolated() {
            return Ok(());
        }
        let addr: u32 = self.effective(imm_se, rs);
        if Self::check_alignment(addr, 4) {
            match self.load32(addr) {
                Ok(v) => {
                    self.set_load(rt, v);
                    Ok(())
                },
                Err(e) => Err(e),
            }
        } else {
            self.exception(Exception::StoreAddressError);
            Ok(())
        }
    }

    fn op_sw(&mut self, imm_se: u32, rt: usize, rs: usize) -> (r: Result<(), Fatal>)
        requires
            rt < 32,
            rs < 32,
        ensures
            (final(self)@, r) == old(self)@.op_sw(imm_se, rt, rs),
    {
        if self.cache_isolated() {
            return Ok(());
        }
        let addr: u32 = self.effective(imm_se, rs);
        let v: u32 = self.core.r[rt];
        if Self::check_alignment(addr, 4) {
            self.store32(addr, v)
        } else {
            self.exception(Exception::StoreAddressError);
            Ok(())
        }
    }
}

} // verus!
