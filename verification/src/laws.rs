//! What holds of every step of the processor: register 0, the load delay,
//! the branch delay.

use vstd::prelude::*;
use crate::alu::add32;
use crate::instruction::Instruction;
use crate::state::CpuState;

verus! {

/// What register `k` holds once the load in flight has landed: the loaded
/// value in the register that the load aims at, the shadow file's elsewhere.
pub open spec fn landed(s: CpuState, k: int) -> u32 {
    if k == 0 {
        0
    } else if k == s.load.0 {
        s.load.1
    } else {
        s.shadow[k]
    }
}

/// The same processor with another load in flight and another shadow file.
pub open spec fn same_but_in_flight(a: CpuState, b: CpuState) -> bool {
    b == (CpuState { load: b.load, shadow: b.shadow, ..a })
}

/// `t` is well formed and shows the registers that `s` shows, and where
/// what lies behind the bus was in shape in `s`, it is in `t`.
pub open spec fn kept(s: CpuState, t: CpuState) -> bool {
    &&& t.wf()
    &&& t.regs == s.regs
    &&& s.bus.wf() ==> t.bus.wf()
}

proof fn lemma_special_keeps_wf(s: CpuState, i: Instruction)
    requires
        s.wf(),
    ensures
        kept(s, s.execute_special(i).0),
{
    crate::instruction::lemma_field_bounds(i.0);
}

proof fn lemma_cop0_keeps_wf(s: CpuState, i: Instruction)
    requires
        s.wf(),
    ensures
        kept(s, s.op_cop0(i).0),
{
    crate::instruction::lemma_field_bounds(i.0);
}

proof fn lemma_memory_keeps_wf(s: CpuState, imm_se: u32, rt: usize, rs: usize)
    requires
        s.wf(),
        rt < 32,
        rs < 32,
    ensures
        kept(s, s.op_lb(imm_se, rt, rs).0),
        kept(s, s.op_lbu(imm_se, rt, rs).0),
        kept(s, s.op_lh(imm_se, rt, rs).0),
        kept(s, s.op_lhu(imm_se, rt, rs).0),
        kept(s, s.op_lw(imm_se, rt, rs).0),
        kept(s, s.op_sb(imm_se, rt, rs).0),
        kept(s, s.op_sh(imm_se, rt, rs).0),
        kept(s, s.op_sw(imm_se, rt, rs).0),
{
    if s.bus.wf() {
        let v = s.r(rt);
        crate::bus::lemma_store_keeps_wf(
            s.bus,
            s.effective(imm_se, rs),
            (v & 0xff) as u8,
            (v & 0xffff) as u16,
            v,
        );
    }
}

proof fn lemma_immediate_keeps_wf(s: CpuState, imm: u32, rt: usize, rs: usize)
    requires
        s.wf(),
        rt < 32,
        rs < 32,
    ensures
        kept(s, s.op_bxx(imm, rt, rs)),
        kept(s, s.op_j(imm)),
        kept(s, s.op_jal(imm)),
        kept(s, s.op_beq(imm, rt, rs)),
        kept(s, s.op_bne(imm, rt, rs)),
        kept(s, s.op_blez(imm, rs)),
        kept(s, s.op_bgtz(imm, rs)),
        kept(s, s.op_addi(imm, rt, rs)),
        kept(s, s.op_addiu(imm, rt, rs)),
        kept(s, s.op_slti(imm, rt, rs)),
        kept(s, s.op_sltiu(imm, rt, rs)),
        kept(s, s.op_andi(imm, rt, rs)),
        kept(s, s.op_ori(imm, rt, rs)),
        kept(s, s.op_lui(imm, rt)),
{
}

/// An instruction keeps the state well formed: register 0 stays zero in the
/// shadow file, and a load that it starts aims at a register. It leaves the
/// visible registers as they are, and what lies behind the bus in shape.
pub proof fn lemma_execute_keeps_wf(s: CpuState, i: Instruction)
    requires
        s.wf(),
    ensures
        s.execute(i).0.wf(),
        s.execute(i).0.regs == s.regs,
        s.bus.wf() ==> s.execute(i).0.bus.wf(),
{
    crate::instruction::lemma_field_bounds(i.0);
    lemma_special_keeps_wf(s, i);
    lemma_cop0_keeps_wf(s, i);
    lemma_memory_keeps_wf(s, i.spec_imm_se(), i.spec_rt(), i.spec_rs());
    lemma_immediate_keeps_wf(s, i.spec_imm_se(), i.spec_rt(), i.spec_rs());
    lemma_immediate_keeps_wf(s, i.spec_imm(), i.spec_rt(), i.spec_rs());
    lemma_immediate_keeps_wf(s, i.spec_imm_jmp(), i.spec_rt(), i.spec_rs());
}

/// A step keeps the state well formed. So after every step, whether it
/// committed or not, register 0 reads as zero. And it keeps what lies
/// behind the bus in shape.
pub proof fn lemma_step_keeps_wf(s: CpuState)
    requires
        s.wf(),
    ensures
        s.step().0.wf(),
        s.step().0.regs[0] == 0,
        s.bus.wf() ==> s.step().0.bus.wf(),
{
    let b = s.begin();
    assert(b.wf());
    if s.pc % 4 == 0 {
        if let Ok(word) = s.bus.load32(s.pc) {
            lemma_execute_keeps_wf(b.fetched(word), Instruction(word));
        }
    }
}

/// The load in flight lands at the start of the step: after a step of an
/// instruction that writes no register, every register holds what landed.
pub proof fn lemma_load_lands(s: CpuState, k: int)
    requires
        s.wf(),
        0 <= k < 32,
    ensures
        s.begin().commit().regs[k] == landed(s, k),
        s.begin().load == (0usize, 0u32),
{
}

/// A write of the instruction wins over the load that lands in the same
/// step: the register holds the written value, whatever was in flight.
pub proof fn lemma_write_wins(s: CpuState, d: usize, v: u32, k: int)
    requires
        s.wf(),
        0 < d < 32,
        0 <= k < 32,
    ensures
        s.begin().set_reg(d, v).commit().regs[d as int] == v,
        k != d ==> s.begin().set_reg(d, v).commit().regs[k] == landed(s, k),
{
}

/// `ta` and `tb` come from `a` and `b` by one effect that read neither the
/// shadow file nor the load in flight: they still differ in those alone,
/// the load in flight was left alone in both or set alike in both, and so
/// was register `k` of the shadow file.
pub open spec fn alike(a: CpuState, b: CpuState, ta: CpuState, tb: CpuState, k: int) -> bool {
    &&& same_but_in_flight(ta, tb)
    &&& ta.load == a.load && tb.load == b.load || ta.load == tb.load
    &&& ta.shadow[k] == a.shadow[k] && tb.shadow[k] == b.shadow[k] || ta.shadow[k] == tb.shadow[k]
}

proof fn lemma_special_ignores_in_flight(a: CpuState, b: CpuState, i: Instruction, k: int)
    requires
        a.wf(),
        b.wf(),
        same_but_in_flight(a, b),
        0 <= k < 32,
    ensures
        a.execute_special(i).1 == b.execute_special(i).1,
        alike(a, b, a.execute_special(i).0, b.execute_special(i).0, k),
{
    crate::instruction::lemma_field_bounds(i.0);
}

proof fn lemma_cop0_ignores_in_flight(a: CpuState, b: CpuState, i: Instruction, k: int)
    requires
        a.wf(),
        b.wf(),
        same_but_in_flight(a, b),
        0 <= k < 32,
    ensures
        a.op_cop0(i).1 == b.op_cop0(i).1,
        alike(a, b, a.op_cop0(i).0, b.op_cop0(i).0, k),
{
    crate::instruction::lemma_field_bounds(i.0);
}

proof fn lemma_loads_ignore_in_flight(
    a: CpuState,
    b: CpuState,
    imm_se: u32,
    rt: usize,
    rs: usize,
    k: int,
)
    requires
        a.wf(),
        b.wf(),
        same_but_in_flight(a, b),
        rt < 32,
        rs < 32,
        0 <= k < 32,
    ensures
        a.op_lb(imm_se, rt, rs).1 == b.op_lb(imm_se, rt, rs).1,
        alike(a, b, a.op_lb(imm_se, rt, rs).0, b.op_lb(imm_se, rt, rs).0, k),
        a.op_lbu(imm_se, rt, rs).1 == b.op_lbu(imm_se, rt, rs).1,
        alike(a, b, a.op_lbu(imm_se, rt, rs).0, b.op_lbu(imm_se, rt, rs).0, k),
        a.op_lh(imm_se, rt, rs).1 == b.op_lh(imm_se, rt, rs).1,
        alike(a, b, a.op_lh(imm_se, rt, rs).0, b.op_lh(imm_se, rt, rs).0, k),
        a.op_lhu(imm_se, rt, rs).1 == b.op_lhu(imm_se, rt, rs).1,
        alike(a, b, a.op_lhu(imm_se, rt, rs).0, b.op_lhu(imm_se, rt, rs).0, k),
        a.op_lw(imm_se, rt, rs).1 == b.op_lw(imm_se, rt, rs).1,
        alike(a, b, a.op_lw(imm_se, rt, rs).0, b.op_lw(imm_se, rt, rs).0, k),
{
}

proof fn lemma_stores_ignore_in_flight(
    a: CpuState,
    b: CpuState,
    imm_se: u32,
    rt: usize,
    rs: usize,
    k: int,
)
    requires
        a.wf(),
        b.wf(),
        same_but_in_flight(a, b),
        rt < 32,
        rs < 32,
        0 <= k < 32,
    ensures
        a.op_sb(imm_se, rt, rs).1 == b.op_sb(imm_se, rt, rs).1,
        alike(a, b, a.op_sb(imm_se, rt, rs).0, b.op_sb(imm_se, rt, rs).0, k),
        a.op_sh(imm_se, rt, rs).1 == b.op_sh(imm_se, rt, rs).1,
        alike(a, b, a.op_sh(imm_se, rt, rs).0, b.op_sh(imm_se, rt, rs).0, k),
        a.op_sw(imm_se, rt, rs).1 == b.op_sw(imm_se, rt, rs).1,
        alike(a, b, a.op_sw(imm_se, rt, rs).0, b.op_sw(imm_se, rt, rs).0, k),
{
}

proof fn lemma_branches_ignore_in_flight(
    a: CpuState,
    b: CpuState,
    imm: u32,
    rt: usize,
    rs: usize,
    k: int,
)
    requires
        a.wf(),
        b.wf(),
        same_but_in_flight(a, b),
        rt < 32,
        rs < 32,
        0 <= k < 32,
    ensures
        alike(a, b, a.op_bxx(imm, rt, rs), b.op_bxx(imm, rt, rs), k),
        alike(a, b, a.op_j(imm), b.op_j(imm), k),
        alike(a, b, a.op_jal(imm), b.op_jal(imm), k),
        alike(a, b, a.op_beq(imm, rt, rs), b.op_beq(imm, rt, rs), k),
        alike(a, b, a.op_bne(imm, rt, rs), b.op_bne(imm, rt, rs), k),
        alike(a, b, a.op_blez(imm, rs), b.op_blez(imm, rs), k),
        alike(a, b, a.op_bgtz(imm, rs), b.op_bgtz(imm, rs), k),
{
}

proof fn lemma_immediates_ignore_in_flight(
    a: CpuState,
    b: CpuState,
    imm: u32,
    rt: usize,
    rs: usize,
    k: int,
)
    requires
        a.wf(),
        b.wf(),
        same_but_in_flight(a, b),
        rt < 32,
        rs < 32,
        0 <= k < 32,
    ensures
        alike(a, b, a.op_addi(imm, rt, rs), b.op_addi(imm, rt, rs), k),
        alike(a, b, a.op_addiu(imm, rt, rs), b.op_addiu(imm, rt, rs), k),
        alike(a, b, a.op_slti(imm, rt, rs), b.op_slti(imm, rt, rs), k),
        alike(a, b, a.op_sltiu(imm, rt, rs), b.op_sltiu(imm, rt, rs), k),
        alike(a, b, a.op_andi(imm, rt, rs), b.op_andi(imm, rt, rs), k),
        alike(a, b, a.op_ori(imm, rt, rs), b.op_ori(imm, rt, rs), k),
        alike(a, b, a.op_lui(imm, rt), b.op_lui(imm, rt), k),
{
}

/// No instruction reads the shadow file or the load in flight. Run on two
/// states that differ in those alone, an instruction ends alike, and
/// leaves each register of the shadow file, and the load in flight, either
/// alone in both or with one value in both.
pub proof fn lemma_execute_ignores_in_flight(a: CpuState, b: CpuState, i: Instruction, k: int)
    requires
        a.wf(),
        b.wf(),
        same_but_in_flight(a, b),
        0 <= k < 32,
    ensures
        a.execute(i).1 == b.execute(i).1,
        alike(a, b, a.execute(i).0, b.execute(i).0, k),
{
    crate::instruction::lemma_field_bounds(i.0);
    let rt = i.spec_rt();
    let rs = i.spec_rs();
    lemma_special_ignores_in_flight(a, b, i, k);
    lemma_cop0_ignores_in_flight(a, b, i, k);
    lemma_loads_ignore_in_flight(a, b, i.spec_imm_se(), rt, rs, k);
    lemma_stores_ignore_in_flight(a, b, i.spec_imm_se(), rt, rs, k);
    lemma_branches_ignore_in_flight(a, b, i.spec_imm_se(), rt, rs, k);
    lemma_branches_ignore_in_flight(a, b, i.spec_imm_jmp(), rt, rs, k);
    lemma_immediates_ignore_in_flight(a, b, i.spec_imm_se(), rt, rs, k);
    lemma_immediates_ignore_in_flight(a, b, i.spec_imm(), rt, rs, k);
}

/// What the next instruction reads does not depend on the load that was in
/// flight, except in the register that the load lands in; and there the
/// value of an instruction that writes the same register wins. Of two
/// steps from states that differ in the load in flight alone: both end
/// alike, and each register reads either the same after both, or as what
/// landed in each.
pub proof fn lemma_load_delay(s: CpuState, other: (usize, u32), k: int)
    requires
        s.wf(),
        other.0 < 32,
        0 <= k < 32,
    ensures
        ({
            let s2 = CpuState { load: other, ..s };
            let (t, r) = s.step();
            let (t2, r2) = s2.step();
            &&& r == r2
            &&& t.regs[k] == t2.regs[k] || (r is Ok && s.pc % 4 == 0 && t.regs[k] == landed(s, k)
                && t2.regs[k] == landed(s2, k))
        }),
{
    let s2 = CpuState { load: other, ..s };
    if s.pc % 4 == 0 {
        if let Ok(word) = s.bus.load32(s.pc) {
            let a = s.begin().fetched(word);
            let b = s2.begin().fetched(word);
            lemma_execute_ignores_in_flight(a, b, Instruction(word), k);
            lemma_execute_keeps_wf(a, Instruction(word));
            lemma_execute_keeps_wf(b, Instruction(word));
        }
    }
}

/// A taken branch goes to the address of its delay slot plus the offset in
/// words: where the program ran in sequence up to the branch at `s.pc`,
/// the instruction after the delay slot is fetched from
/// `s.pc + 4 + (offset << 2)`.
pub proof fn lemma_branch_target(s: CpuState, word: u32, offset: u32)
    requires
        s.next_pc == add32(s.pc, 4),
    ensures
        s.fetched(word).branch_by(offset).next_pc == add32(add32(s.pc, 4), offset << 2),
        s.fetched(word).branch_by(offset).pc == add32(s.pc, 4),
        s.fetched(word).branch_by(offset).branch,
{
}

} // verus!
