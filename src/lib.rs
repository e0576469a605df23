//! A verified model of the NES's 6502-family processor (the 2A03).
//!
//! - `status`: the flag bits of the status register.
//! - `cartridge`, `mapper`, `memory`: the iNES image, the mappers that place
//!   it in the address space, and the CPU's memory map.
//! - `cpu`: the register file and the stack.
//! - `addressing`: the ten addressing modes.
//! - `ops`: the instruction semantics, stated as spec functions.
//! - `table`: the opcode table.
//! - `dispatch`: fetch, decode, execute; interrupts and reset.
//! - `nes`: the console.
pub mod status;
pub mod cartridge;
pub mod mapper;
pub mod memory;
pub mod cpu;
pub mod addressing;
pub mod ops;
pub mod table;
pub mod dispatch;
pub mod nes;

pub use addressing::{
    AbsoluteAM, AbsoluteXAM, AbsoluteYAM, AccumulatorAM, AddressingMode, ImmediateAM,
    IndexedIndirectAM, IndirectIndexedAM, ZeroPageAM, ZeroPageXAM, ZeroPageYAM,
};
pub use cartridge::{CartError, CART};
pub use cpu::CPU;
pub use dispatch::{CpuError, Operand, CYCLE_LIMIT};
pub use mapper::{new_map, Mapper, EMPTY_MAP, MAP, MMC1, Nrom};
pub use memory::MEM;
pub use nes::{mapper_num, NES};
pub use status::Flag;
pub use table::{Instructions, Mode, Op, OpInfo};
