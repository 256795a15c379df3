//! An emulator for a subset of the Intel 8086 instruction set: a register
//! file with aliased byte halves, a flat linear memory, an instruction
//! decoder and an execution engine, each with a verified contract.

pub mod error;
pub mod instruction;
mod instruction_exec;
pub mod machine;
pub mod memory;
pub mod modrm;
pub mod register;
pub mod semantics;
pub mod state;
pub mod word;

pub use machine::Machine;
