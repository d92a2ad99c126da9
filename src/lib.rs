//! Instruction decode/execute core of an 8-bit, Game-Boy-class CPU.
//!
//! The register file, the ALU, the opcode tables and decoder, the memory
//! unit with its interception policies, and the execution engine, each with
//! the specification its functions are verified against.
pub mod regs;
pub mod cpu;
pub mod alu;
pub mod tables;
pub mod instr;
pub mod decode;
pub mod mmu;
pub mod execute;

pub use regs::{Reg, RegAddr};
pub use cpu::{Cpu, CpuView};
pub use tables::InstrKind;
pub use instr::Instr;
pub use mmu::{Addr, MemHandler, MemRead, MemWrite, Mmu};
pub use execute::{Fault, StepOutcome};
