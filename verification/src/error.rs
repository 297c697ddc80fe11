//! What stops the machine: conditions that the core does not handle. Each
//! carries what is needed to find the missing piece.

use vstd::prelude::*;
use crate::dma::Port;

verus! {

/// The width of a bus access.
#[derive(Clone, Copy, Debug, PartialEq, Eq, Structural)]
pub enum Width {
    Byte,
    Half,
    Word,
}

/// The direction of a bus access.
#[derive(Clone, Copy, Debug, PartialEq, Eq, Structural)]
pub enum Access {
    Load,
    Store,
}

/// The processor's registers other than the general ones, as they stood when
/// an instruction could not be executed.
#[derive(Clone, Copy, Debug, PartialEq, Eq, Structural)]
pub struct Snapshot {
    pub pc: u32,
    pub next_pc: u32,
    pub opcode: u32,
    pub sr: u32,
    pub hi: u32,
    pub lo: u32,
    pub current_pc: u32,
    pub cause: u32,
    pub epc: u32,
    pub branch: bool,
    pub delay_slot: bool,
}

/// A condition that ends emulation.
#[derive(Clone, Copy, Debug, PartialEq, Eq, Structural)]
pub enum Fatal {
    /// No window takes an access of this width and direction at `addr`.
    UnhandledAccess { addr: u32, width: Width, op: Access },
    /// The DMA window has no register at `offset` for this direction.
    UnhandledDmaReg { offset: u32, op: Access },
    /// A channel control word asked for the reserved synchronisation mode.
    ReservedSync,
    /// A block transfer from memory to a port that takes no data.
    UnhandledDest { port: Port },
    /// A block transfer to memory from a port that gives no data.
    UnhandledSource { port: Port },
    /// A block transfer on a channel whose mode fixes no size.
    UnknownTransferSize,
    /// A linked-list transfer on a port other than the GPU.
    LinkedListPort { port: Port },
    /// A linked-list transfer towards memory.
    LinkedListDirection,
    /// A linked list that has not ended after as many packets as memory has
    /// words: it runs in a circle.
    EndlessList,
    /// The first expansion's base register was given another address than
    /// the one the map has.
    BadExpansion1Base { val: u32 },
    /// The second expansion's base register was given another address than
    /// the one the map has.
    BadExpansion2Base { val: u32 },
    /// An instruction word that the interpreter does not decode.
    UnhandledOpcode { word: u32, cpu: Snapshot },
    /// A coprocessor 0 instruction that the interpreter does not decode.
    UnhandledCop0 { word: u32, cpu: Snapshot },
    /// A return from exception whose low bits are not those of `RFE`.
    InvalidRfe { secondary: u32 },
    /// A read of a coprocessor 0 register that is not modelled.
    UnhandledCop0Read { reg: usize },
    /// A write other than zero to a coprocessor 0 register that holds zero.
    Cop0WriteRefused { reg: usize },
    /// A write to a coprocessor 0 register that is not modelled.
    UnhandledCop0Write { reg: usize },
}

} // verus!
