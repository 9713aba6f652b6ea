//! Core of an emulator for an 8-bit handheld console: the processor and the
//! address space it works on.
//!
//! - `memory_bank`: storage in banks, one of them selected.
//! - `cartridge`: a cartridge image and what its header states.
//! - `bus`: the seven regions of the address space and the banks behind them.
//! - `code`, `opcode`: operands, instructions and the opcode table.
//! - `alu`: wrapping, carries and sign extension.
//! - `state`, `semantics`: the machine as a mathematical value, and what
//!   fetching, resolving an operand, each instruction, a step and a run do
//!   to it.
//! - `cpu`: the processor itself, verified against `semantics`.

pub mod alu;
pub mod bus;
pub mod cartridge;
pub mod code;
pub mod cpu;
mod endian;
pub mod memory_bank;
pub mod opcode;
pub mod semantics;
pub mod state;
