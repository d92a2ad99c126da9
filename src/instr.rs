//! Decoded instructions.
use vstd::prelude::*;
use crate::regs::{Reg, RegAddr};

verus! {

/// One decoded instruction with its resolved operands. `Imm` forms carry an
/// 8-bit immediate, `Mem` forms an addressing mode, `WReg` forms 16-bit
/// registers; condition masks are flag bits that must all be set.
#[derive(Debug, Clone, Copy, PartialEq, Eq, Structural)]
#[allow(inconsistent_fields)]
pub enum Instr {
    Nop,
    Halt,
    LdRegReg { src: Reg, dst: Reg },
    LdRegImm { src: u8, dst: Reg },
    LdRegMem { src: Reg, dst: RegAddr },
    LdMemReg { src: RegAddr, dst: Reg },
    LdMemHLImm { src: u8 },
    AddRegReg { src: Reg, dst: Reg },
    AddRegImm { src: u8, dst: Reg },
    AddMemReg { src: RegAddr, dst: Reg },
    AddWRegWReg { src: Reg, dst: Reg },
    AddWRegImm { src: u8, dst: Reg },
    AdcRegReg { src: Reg, dst: Reg },
    AdcRegImm { src: u8, dst: Reg },
    AdcMemReg { src: RegAddr, dst: Reg },
    SubReg { src: Reg },
    SubImm { src: u8 },
    SubMem { src: RegAddr },
    SbcReg { src: Reg },
    SbcImm { src: u8 },
    SbcMem { src: RegAddr },
    AndReg { src: Reg },
    AndImm { src: u8 },
    AndMem { src: RegAddr },
    XorReg { src: Reg },
    XorImm { src: u8 },
    XorMem { src: RegAddr },
    OrReg { src: Reg },
    OrImm { src: u8 },
    OrMem { src: RegAddr },
    IncReg { dst: Reg },
    IncWReg { dst: Reg },
    IncMem { dst: RegAddr },
    DecReg { dst: Reg },
    DecWReg { dst: Reg },
    DecMem { dst: RegAddr },
    CpReg { src: Reg },
    CpImm { src: u8 },
    CpMem { src: RegAddr },
    LdWRegImm { src: u16, dst: Reg },
    LdMemImmReg { src: Reg, dst: u16 },
    Push { src: Reg },
    Pop { dst: Reg },
    JPImm { addr: u16 },
    JPCond { cond: u8, addr: u16 },
    JPReg { src: Reg },
    JRelImm { offset: u8 },
    JRelCond { cond: u8, offset: u8 },
    Rst { addr: u8 },
    RlcReg { reg: Reg },
    RlcMem { reg: RegAddr },
    RrcReg { reg: Reg },
    RrcMem { reg: RegAddr },
    RlReg { reg: Reg },
    RlMem { reg: RegAddr },
    RrReg { reg: Reg },
    RrMem { reg: RegAddr },
    SlaReg { reg: Reg },
    SlaMem { reg: RegAddr },
    SraReg { reg: Reg },
    SraMem { reg: RegAddr },
    SwapReg { reg: Reg },
    SwapMem { reg: RegAddr },
    SrlReg { reg: Reg },
    SrlMem { reg: RegAddr },
    BitReg { reg: Reg, bit: u8 },
    BitMem { reg: RegAddr, bit: u8 },
    ResReg { reg: Reg, bit: u8 },
    ResMem { reg: RegAddr, bit: u8 },
    SetReg { reg: Reg, bit: u8 },
    SetMem { reg: RegAddr, bit: u8 },
}

} // verus!
