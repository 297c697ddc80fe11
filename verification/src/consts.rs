//! Addresses and sizes of the machine's memory map (physical addresses).

use vstd::prelude::*;

verus! {

/// Where the processor starts after reset: the boot ROM, seen through KSEG1.
pub const RESET_PC: u32 = 0xbfc0_0000;

pub const RAM_START: u32 = 0x0000_0000;

/// 2 MiB of main memory.
pub const RAM_SIZE: u32 = 0x20_0000;

pub const EXPANSION_1_START: u32 = 0x1f00_0000;

pub const HARDWARE_REGISTER_START: u32 = 0x1f80_1000;

pub const RAM_SIZE_START: u32 = 0x1f80_1060;

pub const IRQ_START: u32 = 0x1f80_1070;

pub const DMA_START: u32 = 0x1f80_1080;

pub const TIMER_REGISTER_START: u32 = 0x1f80_1100;

pub const GPU_START: u32 = 0x1f80_1810;

pub const SPU_START: u32 = 0x1f80_1c00;

pub const EXPANSION_2_START: u32 = 0x1f80_2000;

pub const BIOS_START: u32 = 0x1fc0_0000;

/// 512 KiB of boot ROM.
pub const BIOS_SIZE: u32 = 0x8_0000;

pub const CACHE_CONTROL_START: u32 = 0xfffe_0130;

/// The byte that fresh main memory is filled with.
pub const RAM_FILL: u8 = 0xca;

} // verus!
