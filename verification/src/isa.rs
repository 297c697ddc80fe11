//! What each instruction does to the model of the processor, and one whole
//! step: fetch, decode, execute, commit.

use vstd::prelude::*;
use crate::alu::{
    add32, add_trap, div_signed, div_unsigned, less_signed, mul_signed, mul_unsigned,
    shift_right_arith, sign_extend8, sign_extend_half, sub32, sub_trap,
};
use crate::error::Fatal;
use crate::instruction::Instruction;
use crate::state::{CpuState, Exception, SR_ISOLATE_CACHE};

verus! {

/// The outcome of an instruction that cannot fail.
pub open spec fn done(s: CpuState) -> (CpuState, Result<(), Fatal>) {
    (s, Ok(()))
}

impl CpuState {
    // Shifts

    pub open spec fn op_sll(self, imm5: u32, rt: usize, rd: usize) -> CpuState {
        self.set_reg(rd, self.r(rt) << imm5)
    }

    pub open spec fn op_srl(self, imm5: u32, rt: usize, rd: usize) -> CpuState {
        self.set_reg(rd, self.r(rt) >> imm5)
    }

    pub open spec fn op_sra(self, imm5: u32, rt: usize, rd: usize) -> CpuState {
        self.set_reg(rd, shift_right_arith(self.r(rt), imm5))
    }

    pub open spec fn op_sllv(self, rt: usize, rs: usize, rd: usize) -> CpuState {
        self.set_reg(rd, self.r(rt) << (self.r(rs) & 0x1f))
    }

    pub open spec fn op_srlv(self, rt: usize, rs: usize, rd: usize) -> CpuState {
        self.set_reg(rd, self.r(rt) >> (self.r(rs) & 0x1f))
    }

    pub open spec fn op_srav(self, rt: usize, rs: usize, rd: usize) -> CpuState {
        self.set_reg(rd, shift_right_arith(self.r(rt), self.r(rs) & 0x1f))
    }

    // Jumps and branches

    pub open spec fn op_jr(self, rs: usize) -> CpuState {
        self.jump_to(self.r(rs))
    }

    pub open spec fn op_jalr(self, rs: usize, rd: usize) -> CpuState {
        self.set_reg(rd, self.next_pc).jump_to(self.r(rs))
    }

    pub open spec fn op_j(self, imm_jmp: u32) -> CpuState {
        self.jump_to((self.next_pc & 0xf000_0000) | (imm_jmp << 2))
    }

    pub open spec fn op_jal(self, imm_jmp: u32) -> CpuState {
        self.set_reg(31, self.next_pc).op_j(imm_jmp)
    }

    /// BLTZ, BGEZ, BLTZAL and BGEZAL: bit 0 of `rt` asks for "not below
    /// zero", and `rt >> 1 == 8` for the return address in register 31,
    /// taken or not.
    pub open spec fn op_bxx(self, imm_se: u32, rt: usize, rs: usize) -> CpuState {
        let at_least_zero = rt & 1 != 0;
        let link = rt >> 1 == 8;
        let taken = less_signed(self.r(rs), 0) != at_least_zero;
        let linked = if link {
            self.set_reg(31, self.next_pc)
        } else {
            self
        };
        if taken {
            linked.branch_by(imm_se)
        } else {
            linked
        }
    }

    pub open spec fn op_beq(self, imm_se: u32, rt: usize, rs: usize) -> CpuState {
        if self.r(rs) == self.r(rt) {
            self.branch_by(imm_se)
        } else {
            self
        }
    }

    pub open spec fn op_bne(self, imm_se: u32, rt: usize, rs: usize) -> CpuState {
        if self.r(rs) != self.r(rt) {
            self.branch_by(imm_se)
        } else {
            self
        }
    }

    pub open spec fn op_blez(self, imm_se: u32, rs: usize) -> CpuState {
        if !less_signed(0, self.r(rs)) {
            self.branch_by(imm_se)
        } else {
            self
        }
    }

    pub open spec fn op_bgtz(self, imm_se: u32, rs: usize) -> CpuState {
        if less_signed(0, self.r(rs)) {
            self.branch_by(imm_se)
        } else {
            self
        }
    }

    // Multiplication and division

    pub open spec fn op_mfhi(self, rd: usize) -> CpuState {
        self.set_reg(rd, self.hi)
    }

    pub open spec fn op_mthi(self, rs: usize) -> CpuState {
        CpuState { hi: self.r(rs), ..self }
    }

    pub open spec fn op_mflo(self, rd: usize) -> CpuState {
        self.set_reg(rd, self.lo)
    }

    pub open spec fn op_mtlo(self, rs: usize) -> CpuState {
        CpuState { lo: self.r(rs), ..self }
    }

    pub open spec fn op_mult(self, rt: usize, rs: usize) -> CpuState {
        let (hi, lo) = mul_signed(self.r(rs), self.r(rt));
        CpuState { hi, lo, ..self }
    }

    pub open spec fn op_multu(self, rt: usize, rs: usize) -> CpuState {
        let (hi, lo) = mul_unsigned(self.r(rs), self.r(rt));
        CpuState { hi, lo, ..self }
    }

    pub open spec fn op_div(self, rt: usize, rs: usize) -> CpuState {
        let (hi, lo) = div_signed(self.r(rs), self.r(rt));
        CpuState { hi, lo, ..self }
    }

    pub open spec fn op_divu(self, rt: usize, rs: usize) -> CpuState {
        let (hi, lo) = div_unsigned(self.r(rs), self.r(rt));
        CpuState { hi, lo, ..self }
    }

    // Arithmetic and logic on registers

    /// A result that traps on overflow: written where there is one, else
    /// the overflow exception.
    pub open spec fn write_or_trap(self, reg: usize, v: Option<u32>) -> CpuState {
        match v {
            Some(v) => self.set_reg(reg, v),
            None => self.raise(Exception::Overflow),
        }
    }

    pub open spec fn op_add(self, rt: usize, rs: usize, rd: usize) -> CpuState {
        self.write_or_trap(rd, add_trap(self.r(rs), self.r(rt)))
    }

    pub open spec fn op_addu(self, rt: usize, rs: usize, rd: usize) -> CpuState {
        self.set_reg(rd, add32(self.r(rs), self.r(rt)))
    }

    pub open spec fn op_sub(self, rt: usize, rs: usize, rd: usize) -> CpuState {
        self.write_or_trap(rd, sub_trap(self.r(rs), self.r(rt)))
    }

    pub open spec fn op_subu(self, rt: usize, rs: usize, rd: usize) -> CpuState {
        self.set_reg(rd, sub32(self.r(rs), self.r(rt)))
    }

    pub open spec fn op_and(self, rt: usize, rs: usize, rd: usize) -> CpuState {
        self.set_reg(rd, self.r(rs) & self.r(rt))
    }

    pub open spec fn op_or(self, rt: usize, rs: usize, rd: usize) -> CpuState {
        self.set_reg(rd, self.r(rs) | self.r(rt))
    }

    pub open spec fn op_xor(self, rt: usize, rs: usize, rd: usize) -> CpuState {
        self.set_reg(rd, self.r(rs) ^ self.r(rt))
    }

    pub open spec fn op_nor(self, rt: usize, rs: usize, rd: usize) -> CpuState {
        self.set_reg(rd, !(self.r(rs) | self.r(rt)))
    }

    pub open spec fn op_slt(self, rt: usize, rs: usize, rd: usize) -> CpuState {
        self.set_reg(
            rd,
            if less_signed(self.r(rs), self.r(rt)) {
                1
            } else {
                0
            },
        )
    }

    pub open spec fn op_sltu(self, rt: usize, rs: usize, rd: usize) -> CpuState {
        self.set_reg(
            rd,
            if self.r(rs) < self.r(rt) {
                1
            } else {
                0
            },
        )
    }

    // Arithmetic and logic with an immediate

    pub open spec fn op_addi(self, imm_se: u32, rt: usize, rs: usize) -> CpuState {
        self.write_or_trap(rt, add_trap(self.r(rs), imm_se))
    }

    pub open spec fn op_addiu(self, imm_se: u32, rt: usize, rs: usize) -> CpuState {
        self.set_reg(rt, add32(self.r(rs), imm_se))
    }

    pub open spec fn op_slti(self, imm_se: u32, rt: usize, rs: usize) -> CpuState {
        self.set_reg(
            rt,
            if less_signed(self.r(rs), imm_se) {
                1
            } else {
                0
            },
        )
    }

    pub open spec fn op_sltiu(self, imm_se: u32, rt: usize, rs: usize) -> CpuState {
        self.set_reg(
            rt,
            if self.r(rs) < imm_se {
                1
            } else {
                0
            },
        )
    }

    pub open spec fn op_andi(self, imm: u32, rt: usize, rs: usize) -> CpuState {
        self.set_reg(rt, self.r(rs) & imm)
    }

    pub open spec fn op_ori(self, imm: u32, rt: usize, rs: usize) -> CpuState {
        self.set_reg(rt, self.r(rs) | imm)
    }

    pub open spec fn op_lui(self, imm: u32, rt: usize) -> CpuState {
        self.set_reg(rt, imm << 16)
    }

    // Coprocessor 0

    /// A read of coprocessor register `rd` into `rt`, through the load
    /// delay: 12 is the status, 13 the cause, 14 the exception address.
    pub open spec fn op_mfc0(self, rt: usize, rd: usize) -> (CpuState, Result<(), Fatal>) {
        if rd == 12 {
            done(self.delay_load(rt, self.sr))
        } else if rd == 13 {
            done(self.delay_load(rt, self.cause))
        } else if rd == 14 {
            done(self.delay_load(rt, self.epc))
        } else {
            (self, Err(Fatal::UnhandledCop0Read { reg: rd }))
        }
    }

    /// Whether coprocessor register `rd` takes a write of zero and no
    /// other: the breakpoint registers and the cause.
    pub open spec fn holds_zero(rd: usize) -> bool {
        rd == 3 || rd == 5 || rd == 6 || rd == 7 || rd == 9 || rd == 11 || rd == 13
    }

    /// A write of register `rt` to coprocessor register `rd`.
    pub open spec fn op_mtc0(self, rt: usize, rd: usize) -> (CpuState, Result<(), Fatal>) {
        if Self::holds_zero(rd) {
            if self.r(rt) == 0 {
                done(self)
            } else {
                (self, Err(Fatal::Cop0WriteRefused { reg: rd }))
            }
        } else if rd == 12 {
            done(CpuState { sr: self.r(rt), ..self })
        } else {
            (self, Err(Fatal::UnhandledCop0Write { reg: rd }))
        }
    }

    /// The return from an exception.
    pub open spec fn op_rfe(self, i: Instruction) -> (CpuState, Result<(), Fatal>) {
        if i.spec_secondary() != 0x10 {
            (self, Err(Fatal::InvalidRfe { secondary: i.spec_secondary() }))
        } else {
            done(CpuState { sr: Self::popped_mode(self.sr), ..self })
        }
    }

    pub open spec fn op_cop0(self, i: Instruction) -> (CpuState, Result<(), Fatal>) {
        if i.spec_rs() == 0 {
            self.op_mfc0(i.spec_rt(), i.spec_rd())
        } else if i.spec_rs() == 4 {
            self.op_mtc0(i.spec_rt(), i.spec_rd())
        } else if i.spec_rs() == 0x10 {
            self.op_rfe(i)
        } else {
            (self, Err(Fatal::UnhandledCop0 { word: i.0, cpu: self.snapshot() }))
        }
    }

    // Loads and stores

    /// The address that a load or store works on.
    pub open spec fn effective(self, imm_se: u32, rs: usize) -> u32 {
        add32(self.r(rs), imm_se)
    }

    /// Whether stores, and word loads, are swallowed.
    pub open spec fn cache_isolated(self) -> bool {
        self.sr & SR_ISOLATE_CACHE != 0
    }

    pub open spec fn op_lb(self, imm_se: u32, rt: usize, rs: usize) -> (
        CpuState,
        Result<(), Fatal>,
    ) {
        match self.bus.load8(self.effective(imm_se, rs)) {
            Ok(v) => done(self.delay_load(rt, sign_extend8(v))),
            Err(e) => (self, Err(e)),
        }
    }

    pub open spec fn op_lbu(self, imm_se: u32, rt: usize, rs: usize) -> (
        CpuState,
        Result<(), Fatal>,
    ) {
        match self.bus.load8(self.effective(imm_se, rs)) {
            Ok(v) => done(self.delay_load(rt, v as u32)),
            Err(e) => (self, Err(e)),
        }
    }

    pub open spec fn op_lh(self, imm_se: u32, rt: usize, rs: usize) -> (
        CpuState,
        Result<(), Fatal>,
    ) {
        let addr = self.effective(imm_se, rs);
        if addr % 2 != 0 {
            done(self.raise(Exception::LoadAddressError))
        } else {
            match self.bus.load16(addr) {
                Ok(v) => done(self.delay_load(rt, sign_extend_half(v))),
                Err(e) => (self, Err(e)),
            }
        }
    }

    pub open spec fn op_lhu(self, imm_se: u32, rt: usize, rs: usize) -> (
        CpuState,
        Result<(), Fatal>,
    ) {
        let addr = self.effective(imm_se, rs);
        if addr % 2 != 0 {
            done(self.raise(Exception::LoadAddressError))
        } else {
            match self.bus.load16(addr) {
                Ok(v) => done(self.delay_load(rt, v as u32)),
                Err(e) => (self, Err(e)),
            }
        }
    }

    /// A word load. With the cache isolated nothing happens; an address
    /// off a word boundary raises the store address error.
    pub open spec fn op_lw(self, imm_se: u32, rt: usize, rs: usize) -> (
        CpuState,
        Result<(), Fatal>,
    ) {
        let addr = self.effective(imm_se, rs);
        if self.cache_isolated() {
            done(self)
        } else if addr % 4 != 0 {
            done(self.raise(Exception::StoreAddressError))
        } else {
            match self.bus.load32(addr) {
                Ok(v) => done(self.delay_load(rt, v)),
                Err(e) => (self, Err(e)),
            }
        }
    }

    /// The processor with the bus as a store left it.
    pub open spec fn stored(self, out: (crate::bus::BusState, Result<(), Fatal>)) -> (
        CpuState,
        Result<(), Fatal>,
    ) {
        (CpuState { bus: out.0, ..self }, out.1)
    }

    pub open spec fn op_sb(self, imm_se: u32, rt: usize, rs: usize) -> (
        CpuState,
        Result<(), Fatal>,
    ) {
        if self.cache_isolated() {
            done(self)
        } else {
            self.stored(
                self.bus.store8(self.effective(imm_se, rs), (self.r(rt) & 0xff) as u8),
            )
        }
    }

    pub open spec fn op_sh(self, imm_se: u32, rt: usize, rs: usize) -> (
        CpuState,
        Result<(), Fatal>,
    ) {
        let addr = self.effective(imm_se, rs);
        if self.cache_isolated() {
            done(self)
        } else if addr % 2 != 0 {
            done(self.raise(Exception::StoreAddressError))
        } else {
            self.stored(self.bus.store16(addr, (self.r(rt) & 0xffff) as u16))
        }
    }

    pub open spec fn op_sw(self, imm_se: u32, rt: usize, rs: usize) -> (
        CpuState,
        Result<(), Fatal>,
    ) {
        let addr = self.effective(imm_se, rs);
        if self.cache_isolated() {
            done(self)
        } else if addr % 4 != 0 {
            done(self.raise(Exception::StoreAddressError))
        } else {
            self.stored(self.bus.store32(addr, self.r(rt)))
        }
    }

    // Decoding

    /// The instructions of primary opcode 0, chosen by the secondary.
    pub open spec fn execute_special(self, i: Instruction) -> (CpuState, Result<(), Fatal>) {
        let rs = i.spec_rs();
        let rt = i.spec_rt();
        let rd = i.spec_rd();
        let imm5 = i.spec_imm5();
        match i.spec_secondary() {
            0x00 => done(self.op_sll(imm5, rt, rd)),
            0x02 => done(self.op_srl(imm5, rt, rd)),
            0x03 => done(self.op_sra(imm5, rt, rd)),
            0x04 => done(self.op_sllv(rt, rs, rd)),
            0x06 => done(self.op_srlv(rt, rs, rd)),
            0x07 => done(self.op_srav(rt, rs, rd)),
            0x08 => done(self.op_jr(rs)),
            0x09 => done(self.op_jalr(rs, rd)),
            0x0c => done(self.raise(Exception::SysCall)),
            0x0d => done(self.raise(Exception::Break)),
            0x10 => done(self.op_mfhi(rd)),
            0x11 => done(self.op_mthi(rs)),
            0x12 => done(self.op_mflo(rd)),
            0x13 => done(self.op_mtlo(rs)),
            0x18 => done(self.op_mult(rt, rs)),
            0x19 => done(self.op_multu(rt, rs)),
            0x1a => done(self.op_div(rt, rs)),
            0x1b => done(self.op_divu(rt, rs)),
            0x20 => done(self.op_add(rt, rs, rd)),
            0x21 => done(self.op_addu(rt, rs, rd)),
            0x22 => done(self.op_sub(rt, rs, rd)),
            0x23 => done(self.op_subu(rt, rs, rd)),
            0x24 => done(self.op_and(rt, rs, rd)),
            0x25 => done(self.op_or(rt, rs, rd)),
            0x26 => done(self.op_xor(rt, rs, rd)),
            0x27 => done(self.op_nor(rt, rs, rd)),
            0x2a => done(self.op_slt(rt, rs, rd)),
            0x2b => done(self.op_sltu(rt, rs, rd)),
            _ => (self, Err(Fatal::UnhandledOpcode { word: i.0, cpu: self.snapshot() })),
        }
    }

    /// The effect of instruction `i`, chosen by its primary opcode.
    pub open spec fn execute(self, i: Instruction) -> (CpuState, Result<(), Fatal>) {
        let rs = i.spec_rs();
        let rt = i.spec_rt();
        let imm = i.spec_imm();
        let imm_se = i.spec_imm_se();
        match i.spec_primary() {
            0x00 => self.execute_special(i),
            0x01 => done(self.op_bxx(imm_se, rt, rs)),
            0x02 => done(self.op_j(i.spec_imm_jmp())),
            0x03 => done(self.op_jal(i.spec_imm_jmp())),
            0x04 => done(self.op_beq(imm_se, rt, rs)),
            0x05 => done(self.op_bne(imm_se, rt, rs)),
            0x06 => done(self.op_blez(imm_se, rs)),
            0x07 => done(self.op_bgtz(imm_se, rs)),
            0x08 => done(self.op_addi(imm_se, rt, rs)),
            0x09 => done(self.op_addiu(imm_se, rt, rs)),
            0x0a => done(self.op_slti(imm_se, rt, rs)),
            0x0b => done(self.op_sltiu(imm_se, rt, rs)),
            0x0c => done(self.op_andi(imm, rt, rs)),
            0x0d => done(self.op_ori(imm, rt, rs)),
            0x0f => done(self.op_lui(imm, rt)),
            0x10 => self.op_cop0(i),
            0x20 => self.op_lb(imm_se, rt, rs),
            0x21 => self.op_lh(imm_se, rt, rs),
            0x23 => self.op_lw(imm_se, rt, rs),
            0x24 => self.op_lbu(imm_se, rt, rs),
            0x25 => self.op_lhu(imm_se, rt, rs),
            0x28 => self.op_sb(imm_se, rt, rs),
            0x29 => self.op_sh(imm_se, rt, rs),
            0x2b => self.op_sw(imm_se, rt, rs),
            _ => (self, Err(Fatal::UnhandledOpcode { word: i.0, cpu: self.snapshot() })),
        }
    }

    /// One step of the processor. The load in flight lands; a program
    /// counter off a word boundary raises the load address error, and the
    /// step ends there. Else the instruction is fetched, the program
    /// counters move on, the instruction is executed and the shadow file is
    /// published. A failure of the fetch or of the instruction ends the
    /// step where it happened.
    pub open spec fn step(self) -> (CpuState, Result<(), Fatal>) {
        let s = self.begin();
        if self.pc % 4 != 0 {
            done(s.raise(Exception::LoadAddressError))
        } else {
            match self.bus.load32(self.pc) {
                Err(e) => (s, Err(e)),
                Ok(word) => {
                    let (t, r) = s.fetched(word).execute(Instruction(word));
                    match r {
                        Ok(()) => done(t.commit()),
                        Err(e) => (t, Err(e)),
                    }
                },
            }
        }
    }
}

} // verus!
