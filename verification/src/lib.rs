//! Instruction-stepped core of a 32-bit MIPS-I console: the interpreter, the
//! memory bus with its address map, and the seven-channel DMA controller.
//!
//! Every executable function carries a contract over a mathematical model
//! of the machine: byte sequences for the two stores, `DmaState`,
//! `BusState` and `CpuState` for what is built on them. The transitions of
//! the model are `spec` functions (`BusState::store32`, `CpuState::step`,
//! ...), and the executable code is proved to make exactly those
//! transitions. What holds of every transition is proved beside them, as
//! `proof` functions.
//!
//! - `bits`, `opcode`, `instruction`: bit ranges of a word and the fields of
//!   an instruction.
//! - `consts`, `map`: the address map.
//! - `memory`, `ram`, `bios`: little-endian stores.
//! - `channel`, `dma`, `transfer`: the DMA controller and what a transfer
//!   moves.
//! - `bus`: routing by window and width, and the transfers that a register
//!   write starts.
//! - `alu`, `state`, `isa`, `cpu`, `laws`: the processor.
//! - `error`, `dump`: what stops the machine, and how it is reported.

pub mod alu;
pub mod bios;
pub mod bits;
pub mod bus;
pub mod channel;
pub mod consts;
pub mod cpu;
pub mod dma;
pub mod dump;
pub mod error;
pub mod instruction;
pub mod isa;
pub mod laws;
pub mod map;
pub mod memory;
pub mod opcode;
pub mod ram;
pub mod state;
pub mod transfer;
