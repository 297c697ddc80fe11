//! The text of a diagnostic: why the machine stopped, and the processor's
//! registers as they stood.

use vstd::prelude::*;
use vstd::string::*;
use crate::dma::Port;
use crate::error::{Access, Fatal, Snapshot, Width};

verus! {

/// The sixteen hexadecimal digits, in order.
pub open spec fn hex_digits() -> Seq<char> {
    "0123456789abcdef"@
}

/// The four bits of `v` that digit `i` of its eight hexadecimal digits
/// stands for, digit 0 the highest.
pub open spec fn nibble(v: u32, i: int) -> u32
    recommends
        0 <= i < 8,
{
    (v >> ((28 - 4 * i) as u32)) & 0xf
}

/// `v` in eight hexadecimal digits, the highest first.
pub open spec fn hex8(v: u32) -> Seq<char> {
    Seq::new(8, |i: int| hex_digits()[nibble(v, i) as int])
}

/// `true` or `false`.
pub open spec fn flag_text(b: bool) -> Seq<char> {
    if b {
        "true"@
    } else {
        "false"@
    }
}

/// Appends `v` in eight hexadecimal digits.
pub fn push_hex8(s: &mut String, v: u32)
    ensures
        final(s)@ == old(s)@ + hex8(v),
{
    let digits = "0123456789abcdef";
    proof {
        reveal_strlit("0123456789abcdef");
    }
    let mut i: u32 = 0;
    while i < 8
        invariant
            i <= 8,
            digits@ == hex_digits(),
            digits@.len() == 16,
            digits.is_ascii(),
            s@ == old(s)@ + hex8(v).subrange(0, i as int),
        decreases 8 - i,
    {
        let shift: u32 = 28 - 4 * i;
        let n: u32 = (v >> shift) & 0xf;
        assert(n < 16) by (bit_vector)
            requires
                n == (v >> shift) & 0xf,
        ;
        let digit = digits.substring_ascii(n as usize, n as usize + 1);
        s.append(digit);
        i += 1;
        assert(old(s)@ + hex8(v).subrange(0, i as int) =~= (old(s)@ + hex8(v).subrange(
            0,
            i - 1,
        )) + digit@);
    }
    assert(hex8(v).subrange(0, 8) =~= hex8(v));
}

impl Snapshot {
    /// The text of the registers: one line each, in hexadecimal, between
    /// braces.
    pub open spec fn dump_text(self) -> Seq<char> {
        "{\n    program_counter: "@ + hex8(self.pc) + ",\n    next_program_counter: "@ + hex8(
            self.next_pc,
        ) + ",\n    opcode: "@ + hex8(self.opcode) + ",\n    status_register: "@ + hex8(self.sr)
            + ",\n    hi: "@ + hex8(self.hi) + ",\n    lo: "@ + hex8(self.lo)
            + ",\n    current_pc "@ + hex8(self.current_pc) + ",\n    cause: "@ + hex8(self.cause)
            + ",\n    epc: "@ + hex8(self.epc) + ",\n    branch: "@ + flag_text(self.branch)
            + ",\n    delay_slot: "@ + flag_text(self.delay_slot) + "\n}"@
    }

    /// The registers as text.
    pub fn dump(&self) -> (s: String)
        ensures
            s@ == self.dump_text(),
    {
        let mut s = String::from_str("{\n    program_counter: ");
        push_hex8(&mut s, self.pc);
        s.append(",\n    next_program_counter: ");
        push_hex8(&mut s, self.next_pc);
        s.append(",\n    opcode: ");
        push_hex8(&mut s, self.opcode);
        s.append(",\n    status_register: ");
        push_hex8(&mut s, self.sr);
        s.append(",\n    hi: ");
        push_hex8(&mut s, self.hi);
        s.append(",\n    lo: ");
        push_hex8(&mut s, self.lo);
        s.append(",\n    current_pc ");
        push_hex8(&mut s, self.current_pc);
        s.append(",\n    cause: ");
        push_hex8(&mut s, self.cause);
        s.append(",\n    epc: ");
        push_hex8(&mut s, self.epc);
        s.append(",\n    branch: ");
        s.append(
            if self.branch {
                "true"
            } else {
                "false"
            },
        );
        s.append(",\n    delay_slot: ");
        s.append(
            if self.delay_slot {
                "true"
            } else {
                "false"
            },
        );
        s.append("\n}");
        s
    }
}

/// `load` or `store`.
pub open spec fn access_text(op: Access) -> Seq<char> {
    match op {
        Access::Load => "load"@,
        Access::Store => "store"@,
    }
}

/// The number of bits of an access.
pub open spec fn width_text(w: Width) -> Seq<char> {
    match w {
        Width::Byte => "8"@,
        Width::Half => "16"@,
        Width::Word => "32"@,
    }
}

/// The number of a port's channel, one digit.
pub open spec fn port_text(port: Port) -> Seq<char> {
    hex_digits().subrange(port.spec_index() as int, port.spec_index() + 1)
}

fn access_name(op: Access) -> (r: &'static str)
    ensures
        r@ == access_text(op),
{
    match op {
        Access::Load => "load",
        Access::Store => "store",
    }
}

fn width_name(w: Width) -> (r: &'static str)
    ensures
        r@ == width_text(w),
{
    match w {
        Width::Byte => "8",
        Width::Half => "16",
        Width::Word => "32",
    }
}

fn push_port(s: &mut String, port: Port)
    ensures
        final(s)@ == old(s)@ + port_text(port),
{
    let digits = "0123456789abcdef";
    proof {
        reveal_strlit("0123456789abcdef");
    }
    let n: usize = port.index();
    s.append(digits.substring_ascii(n, n + 1));
}

impl Fatal {
    /// What the diagnostic says: what could not be done, and the address,
    /// value, register or instruction that it could not be done with, in
    /// hexadecimal; for an instruction also the processor's registers.
    pub open spec fn message_text(self) -> Seq<char> {
        match self {
            Fatal::UnhandledAccess { addr, width, op } => "unhandled "@ + access_text(op)
                + width_text(width) + " at address "@ + hex8(addr),
            Fatal::UnhandledDmaReg { offset, op } => "unhandled DMA register "@ + access_text(op)
                + " at offset "@ + hex8(offset),
            Fatal::ReservedSync => "Unknown DMA sync mode 3"@,
            Fatal::UnhandledDest { port } => "Unhandled DMA destination port "@ + port_text(port),
            Fatal::UnhandledSource { port } => "Unhandled DMA source port "@ + port_text(port),
            Fatal::UnknownTransferSize => "Couldn't figure out DMA block transfer size"@,
            Fatal::LinkedListPort { port } => "Attempted linked list DMA on port "@ + port_text(
                port,
            ),
            Fatal::LinkedListDirection => "Invalid DMA direction for linked list mode"@,
            Fatal::EndlessList => "Linked list DMA runs in a circle"@,
            Fatal::BadExpansion1Base { val } => "bad_expansion_1_base_address:_0x"@ + hex8(val),
            Fatal::BadExpansion2Base { val } => "bad_expansion_2_base_address:_0x"@ + hex8(val),
            Fatal::UnhandledOpcode { word, cpu } => "Unhandled_opcode::"@ + hex8(word)
                + ", CPU state: "@ + cpu.dump_text(),
            Fatal::UnhandledCop0 { word, cpu } => "Unhandled cop0 instruction: "@ + hex8(word)
                + "\n CPU state: "@ + cpu.dump_text(),
            Fatal::InvalidRfe { secondary } => "Invalid cop0 instruction at rfe "@ + hex8(
                secondary,
            ),
            Fatal::UnhandledCop0Read { reg } => "Unhandled read from cop0r"@ + hex8(reg as u32),
            Fatal::Cop0WriteRefused { reg } => "Unhandled write to cop0 "@ + hex8(reg as u32),
            Fatal::UnhandledCop0Write { reg } => "Unhandled cop0 register: "@ + hex8(reg as u32),
        }
    }

    /// The diagnostic as text.
    pub fn message(&self) -> (s: String)
        ensures
            s@ == self.message_text(),
    {
        match *self {
            Fatal::UnhandledAccess { addr, width, op } => {
                let mut s = String::from_str("unhandled ");
                s.append(access_name(op));
                s.append(width_name(width));
                s.append(" at address ");
                push_hex8(&mut s, addr);
                s
            },
            Fatal::UnhandledDmaReg { offset, op } => {
                let mut s = String::from_str("unhandled DMA register ");
                s.append(access_name(op));
                s.append(" at offset ");
                push_hex8(&mut s, offset);
                s
            },
            Fatal::ReservedSync => String::from_str("Unknown DMA sync mode 3"),
            Fatal::UnhandledDest { port } => {
                let mut s = String::from_str("Unhandled DMA destination port ");
                push_port(&mut s, port);
                s
            },
            Fatal::UnhandledSource { port } => {
                let mut s = String::from_str("Unhandled DMA source port ");
                push_port(&mut s, port);
                s
            },
            Fatal::UnknownTransferSize => String::from_str(
                "Couldn't figure out DMA block transfer size",
            ),
            Fatal::LinkedListPort { port } => {
                let mut s = String::from_str("Attempted linked list DMA on port ");
                push_port(&mut s, port);
                s
            },
            Fatal::LinkedListDirection => String::from_str(
                "Invalid DMA direction for linked list mode",
            ),
            Fatal::EndlessList => String::from_str("Linked list DMA runs in a circle"),
            Fatal::BadExpansion1Base { val } => {
                let mut s = String::from_str("bad_expansion_1_base_address:_0x");
                push_hex8(&mut s, val);
                s
            },
            Fatal::BadExpansion2Base { val } => {
                let mut s = String::from_str("bad_expansion_2_base_address:_0x");
                push_hex8(&mut s, val);
                s
            },
            Fatal::UnhandledOpcode { word, cpu } => {
                let mut s = String::from_str("Unhandled_opcode::");
                push_hex8(&mut s, word);
                s.append(", CPU state: ");
                let dump = cpu.dump();
                s.append(dump.as_str());
                s
            },
            Fatal::UnhandledCop0 { word, cpu } => {
                let mut s = String::from_str("Unhandled cop0 instruction: ");
                push_hex8(&mut s, word);
                s.append("\n CPU state: ");
                let dump = cpu.dump();
                s.append(dump.as_str());
                s
            },
            Fatal::InvalidRfe { secondary } => {
                let mut s = String::from_str("Invalid cop0 instruction at rfe ");
                push_hex8(&mut s, secondary);
                s
            },
            Fatal::UnhandledCop0Read { reg } => {
                let mut s = String::from_str("Unhandled read from cop0r");
                push_hex8(&mut s, reg as u32);
                s
            },
            Fatal::Cop0WriteRefused { reg } => {
                let mut s = String::from_str("Unhandled write to cop0 ");
                push_hex8(&mut s, reg as u32);
                s
            },
            Fatal::UnhandledCop0Write { reg } => {
                let mut s = String::from_str("Unhandled cop0 register: ");
                push_hex8(&mut s, reg as u32);
                s
            },
        }
    }
}

} // verus!
