//! The execution engine: one step decodes the instruction at the program
//! counter and applies it to the registers and memory.
use vstd::prelude::*;
use crate::alu::{
    add16, add16_flags, add8, add8_flags, adc8, adc8_flags, bit_flags, carry_in, logic_flags,
    res8, rl8, rlc8, rr8, rrc8, sbc8, sbc8_flags, set8, shift_flags, sla8, sra8, srl8, sub8,
    sub8_flags, swap8,
};
use crate::cpu::{Cpu, CpuView};
use crate::decode::decode_at;
use crate::instr::Instr;
use crate::mmu::{Addr, Mmu, MmuView};
use crate::regs::{flag_bits, lemma_flag_bits, make_flags, Reg, RegAddr, FLAG_C, FLAG_H, FLAG_N, FLAG_Z};

verus! {

/// Why a step failed.
#[derive(Debug, Clone, Copy, PartialEq, Eq, Structural)]
pub enum Fault {
    /// Unassigned opcode, operand not encoded, or instruction cut off.
    Decode,
    /// Register not usable as the operand, bit index out of range, or
    /// jump target outside the address space.
    Execution,
    /// Memory address out of range.
    Memory,
}

/// How a step ended.
#[derive(Debug, Clone, Copy, PartialEq, Eq, Structural)]
pub enum StepOutcome {
    Continue,
    Halted,
    Fault(Fault),
}

/// The 8-bit operations that combine a register with an operand.
#[derive(Debug, Clone, Copy, PartialEq, Eq, Structural)]
pub enum BinOp {
    Add,
    Adc,
    Sub,
    Sbc,
    And,
    Xor,
    Or,
    Cp,
}

/// The 8-bit operations on one register or memory byte.
#[derive(Debug, Clone, Copy, PartialEq, Eq, Structural)]
pub enum UnOp {
    Rlc,
    Rrc,
    Rl,
    Rr,
    Sla,
    Sra,
    Swap,
    Srl,
    Inc,
    Dec,
    ResBit(u8),
    SetBit(u8),
}

/// Where the second operand of a binary operation comes from.
#[derive(Debug, Clone, Copy, PartialEq, Eq, Structural)]
pub enum Operand {
    Reg(Reg),
    Imm(u8),
    Mem(RegAddr),
}

/// The byte a unary operation works on.
#[derive(Debug, Clone, Copy, PartialEq, Eq, Structural)]
pub enum Target {
    Reg(Reg),
    Mem(RegAddr),
}

/// The flags `f` with the carry of `old` in place of its own.
pub open spec fn keep_carry(f: u8, old: u8) -> u8 {
    flag_bits(f & FLAG_Z != 0, f & FLAG_N != 0, f & FLAG_H != 0, old & FLAG_C != 0)
}

/// Result and new flag byte of `a op x` under flags `f`; compare keeps `a`.
pub open spec fn bin_spec(op: BinOp, a: u8, x: u8, f: u8) -> (u8, u8) {
    match op {
        BinOp::Add => (add8(a, x), add8_flags(a, x)),
        BinOp::Adc => (adc8(a, x, carry_in(f)), adc8_flags(a, x, carry_in(f))),
        BinOp::Sub => (sub8(a, x), sub8_flags(a, x)),
        BinOp::Sbc => (sbc8(a, x, carry_in(f)), sbc8_flags(a, x, carry_in(f))),
        BinOp::And => (a & x, logic_flags(a & x, true)),
        BinOp::Xor => (a ^ x, logic_flags(a ^ x, false)),
        BinOp::Or => (a | x, logic_flags(a | x, false)),
        BinOp::Cp => (a, sub8_flags(a, x)),
    }
}

/// Result and new flag byte of a unary operation on `v` under flags `f`.
/// Increment and decrement keep the carry; bit clear and set keep all flags.
pub open spec fn un_spec(op: UnOp, v: u8, f: u8) -> (u8, u8) {
    match op {
        UnOp::Rlc => (rlc8(v), shift_flags(rlc8(v), v >= 128)),
        UnOp::Rrc => (rrc8(v), shift_flags(rrc8(v), v % 2 == 1)),
        UnOp::Rl => (rl8(v, carry_in(f)), shift_flags(rl8(v, carry_in(f)), v >= 128)),
        UnOp::Rr => (rr8(v, carry_in(f)), shift_flags(rr8(v, carry_in(f)), v % 2 == 1)),
        UnOp::Sla => (sla8(v), shift_flags(sla8(v), v >= 128)),
        UnOp::Sra => (sra8(v), shift_flags(sra8(v), v % 2 == 1)),
        UnOp::Swap => (swap8(v), logic_flags(swap8(v), false)),
        UnOp::Srl => (srl8(v), shift_flags(srl8(v), v % 2 == 1)),
        UnOp::Inc => (add8(v, 1), keep_carry(add8_flags(v, 1), f)),
        UnOp::Dec => (sub8(v, 1), keep_carry(sub8_flags(v, 1), f)),
        UnOp::ResBit(b) => (res8(v, b), f),
        UnOp::SetBit(b) => (set8(v, b), f),
    }
}

/// A unary operation that can run: bit operations name bits 0 to 7.
pub open spec fn un_ok(op: UnOp) -> bool {
    match op {
        UnOp::ResBit(b) => b < 8,
        UnOp::SetBit(b) => b < 8,
        _ => true,
    }
}

/// The address an addressing mode names.
pub open spec fn addr_of(s: CpuView, ra: RegAddr) -> Option<u16> {
    match ra {
        RegAddr::HL | RegAddr::HLPlus | RegAddr::HLMinus => Some(s.wide(Reg::H)),
        RegAddr::BC => Some(s.wide(Reg::B)),
        RegAddr::DE => Some(s.wide(Reg::D)),
        RegAddr::Invalid => None,
    }
}

/// The registers after an access through `ra`: `HL` steps up or down.
pub open spec fn post_addr(s: CpuView, ra: RegAddr) -> CpuView {
    match ra {
        RegAddr::HLPlus => s.set_wide(Reg::H, ((s.wide(Reg::H) + 1) % 65536) as u16),
        RegAddr::HLMinus => s.set_wide(Reg::H, ((s.wide(Reg::H) + 65535) % 65536) as u16),
        _ => s,
    }
}

/// The byte read through `ra`.
pub open spec fn mem_read(s: CpuView, m: MmuView, ra: RegAddr) -> Result<u8, Fault> {
    match addr_of(s, ra) {
        None => Err(Fault::Execution),
        Some(a) => match m.read(a) {
            None => Err(Fault::Memory),
            Some(v) => Ok(v),
        },
    }
}

/// The memory after writing `v` through `ra`.
pub open spec fn mem_write(s: CpuView, m: MmuView, ra: RegAddr, v: u8) -> Result<
    MmuView,
    Fault,
> {
    match addr_of(s, ra) {
        None => Err(Fault::Execution),
        Some(a) => match m.write(a, v) {
            None => Err(Fault::Memory),
            Some(m2) => Ok(m2),
        },
    }
}

/// The value of a binary operation's operand.
pub open spec fn operand_value(s: CpuView, m: MmuView, x: Operand) -> Result<u8, Fault> {
    match x {
        Operand::Reg(r) => if r.is_byte_reg() {
            Ok(s.reg(r))
        } else {
            Err(Fault::Execution)
        },
        Operand::Imm(v) => Ok(v),
        Operand::Mem(ra) => mem_read(s, m, ra),
    }
}

/// `dst op x`, written to `dst`; a memory operand's `HL` steps last.
pub open spec fn bin_step(s: CpuView, m: MmuView, op: BinOp, dst: Reg, x: Operand) -> Result<
    CpuView,
    Fault,
> {
    if !dst.is_byte_reg() {
        Err(Fault::Execution)
    } else {
        match operand_value(s, m, x) {
            Err(e) => Err(e),
            Ok(v) => {
                let (r, f) = bin_spec(op, s.reg(dst), v, s.f);
                let s2 = s.set_flags(f).set_reg(dst, r);
                match x {
                    Operand::Mem(ra) => Ok(post_addr(s2, ra)),
                    _ => Ok(s2),
                }
            },
        }
    }
}

/// A unary operation on a register or on memory.
pub open spec fn un_step(s: CpuView, m: MmuView, op: UnOp, t: Target) -> Result<
    (CpuView, MmuView),
    Fault,
> {
    if !un_ok(op) {
        Err(Fault::Execution)
    } else {
        match t {
            Target::Reg(reg) => if reg.is_byte_reg() {
                let (r, f) = un_spec(op, s.reg(reg), s.f);
                Ok((s.set_flags(f).set_reg(reg, r), m))
            } else {
                Err(Fault::Execution)
            },
            Target::Mem(ra) => match mem_read(s, m, ra) {
                Err(e) => Err(e),
                Ok(v) => {
                    let (r, f) = un_spec(op, v, s.f);
                    match mem_write(s, m, ra, r) {
                        Err(e) => Err(e),
                        Ok(m2) => Ok((post_addr(s.set_flags(f), ra), m2)),
                    }
                },
            },
        }
    }
}

/// The program counter after a relative jump by the signed offset `off`.
pub open spec fn rel_target(pc: u16, off: u8) -> int {
    if off < 128 {
        pc + off
    } else {
        pc + off - 256
    }
}

/// Whether the flag byte `f` holds every bit of the condition mask.
pub open spec fn cond_holds(f: u8, cond: u8) -> bool {
    f & cond == cond
}

/// The operation, destination and operand of an 8-bit binary instruction.
pub open spec fn bin_form(i: Instr) -> Option<(BinOp, Reg, Operand)> {
    match i {
        Instr::AddRegReg { src, dst } => Some((BinOp::Add, dst, Operand::Reg(src))),
        Instr::AddRegImm { src, dst } => Some((BinOp::Add, dst, Operand::Imm(src))),
        Instr::AddMemReg { src, dst } => Some((BinOp::Add, dst, Operand::Mem(src))),
        Instr::AdcRegReg { src, dst } => Some((BinOp::Adc, dst, Operand::Reg(src))),
        Instr::AdcRegImm { src, dst } => Some((BinOp::Adc, dst, Operand::Imm(src))),
        Instr::AdcMemReg { src, dst } => Some((BinOp::Adc, dst, Operand::Mem(src))),
        Instr::SubReg { src } => Some((BinOp::Sub, Reg::A, Operand::Reg(src))),
        Instr::SubImm { src } => Some((BinOp::Sub, Reg::A, Operand::Imm(src))),
        Instr::SubMem { src } => Some((BinOp::Sub, Reg::A, Operand::Mem(src))),
        Instr::SbcReg { src } => Some((BinOp::Sbc, Reg::A, Operand::Reg(src))),
        Instr::SbcImm { src } => Some((BinOp::Sbc, Reg::A, Operand::Imm(src))),
        Instr::SbcMem { src } => Some((BinOp::Sbc, Reg::A, Operand::Mem(src))),
        Instr::AndReg { src } => Some((BinOp::And, Reg::A, Operand::Reg(src))),
        Instr::AndImm { src } => Some((BinOp::And, Reg::A, Operand::Imm(src))),
        Instr::AndMem { src } => Some((BinOp::And, Reg::A, Operand::Mem(src))),
        Instr::XorReg { src } => Some((BinOp::Xor, Reg::A, Operand::Reg(src))),
        Instr::XorImm { src } => Some((BinOp::Xor, Reg::A, Operand::Imm(src))),
        Instr::XorMem { src } => Some((BinOp::Xor, Reg::A, Operand::Mem(src))),
        Instr::OrReg { src } => Some((BinOp::Or, Reg::A, Operand::Reg(src))),
        Instr::OrImm { src } => Some((BinOp::Or, Reg::A, Operand::Imm(src))),
        Instr::OrMem { src } => Some((BinOp::Or, Reg::A, Operand::Mem(src))),
        Instr::CpReg { src } => Some((BinOp::Cp, Reg::A, Operand::Reg(src))),
        Instr::CpImm { src } => Some((BinOp::Cp, Reg::A, Operand::Imm(src))),
        Instr::CpMem { src } => Some((BinOp::Cp, Reg::A, Operand::Mem(src))),
        _ => None,
    }
}

/// The operation and target of an 8-bit unary instruction.
pub open spec fn un_form(i: Instr) -> Option<(UnOp, Target)> {
    match i {
        Instr::IncReg { dst } => Some((UnOp::Inc, Target::Reg(dst))),
        Instr::IncMem { dst } => Some((UnOp::Inc, Target::Mem(dst))),
        Instr::DecReg { dst } => Some((UnOp::Dec, Target::Reg(dst))),
        Instr::DecMem { dst } => Some((UnOp::Dec, Target::Mem(dst))),
        Instr::RlcReg { reg } => Some((UnOp::Rlc, Target::Reg(reg))),
        Instr::RlcMem { reg } => Some((UnOp::Rlc, Target::Mem(reg))),
        Instr::RrcReg { reg } => Some((UnOp::Rrc, Target::Reg(reg))),
        Instr::RrcMem { reg } => Some((UnOp::Rrc, Target::Mem(reg))),
        Instr::RlReg { reg } => Some((UnOp::Rl, Target::Reg(reg))),
        Instr::RlMem { reg } => Some((UnOp::Rl, Target::Mem(reg))),
        Instr::RrReg { reg } => Some((UnOp::Rr, Target::Reg(reg))),
        Instr::RrMem { reg } => Some((UnOp::Rr, Target::Mem(reg))),
        Instr::SlaReg { reg } => Some((UnOp::Sla, Target::Reg(reg))),
        Instr::SlaMem { reg } => Some((UnOp::Sla, Target::Mem(reg))),
        Instr::SraReg { reg } => Some((UnOp::Sra, Target::Reg(reg))),
        Instr::SraMem { reg } => Some((UnOp::Sra, Target::Mem(reg))),
        Instr::SwapReg { reg } => Some((UnOp::Swap, Target::Reg(reg))),
        Instr::SwapMem { reg } => Some((UnOp::Swap, Target::Mem(reg))),
        Instr::SrlReg { reg } => Some((UnOp::Srl, Target::Reg(reg))),
        Instr::SrlMem { reg } => Some((UnOp::Srl, Target::Mem(reg))),
        Instr::ResReg { reg, bit } => Some((UnOp::ResBit(bit), Target::Reg(reg))),
        Instr::ResMem { reg, bit } => Some((UnOp::ResBit(bit), Target::Mem(reg))),
        Instr::SetReg { reg, bit } => Some((UnOp::SetBit(bit), Target::Reg(reg))),
        Instr::SetMem { reg, bit } => Some((UnOp::SetBit(bit), Target::Mem(reg))),
        _ => None,
    }
}

/// Loads between registers, immediates and memory.
pub open spec fn load_spec(s: CpuView, m: MmuView, i: Instr) -> Result<
    (bool, CpuView, MmuView),
    Fault,
> {
    let ok = |s2: CpuView| Ok((false, s2, m));
    match i {
        Instr::LdRegReg { src, dst } => if src.is_byte_reg() && dst.is_byte_reg() {
            ok(s.set_reg(dst, s.reg(src)))
        } else {
            Err(Fault::Execution)
        },
        Instr::LdRegImm { src, dst } => if dst.is_byte_reg() {
            ok(s.set_reg(dst, src))
        } else {
            Err(Fault::Execution)
        },
        Instr::LdRegMem { src, dst } => if src.is_byte_reg() {
            match mem_write(s, m, dst, s.reg(src)) {
                Ok(m2) => Ok((false, post_addr(s, dst), m2)),
                Err(e) => Err(e),
            }
        } else {
            Err(Fault::Execution)
        },
        Instr::LdMemReg { src, dst } => if dst.is_byte_reg() {
            match mem_read(s, m, src) {
                Ok(v) => ok(post_addr(s.set_reg(dst, v), src)),
                Err(e) => Err(e),
            }
        } else {
            Err(Fault::Execution)
        },
        Instr::LdMemHLImm { src } => match mem_write(s, m, RegAddr::HL, src) {
            Ok(m2) => Ok((false, s, m2)),
            Err(e) => Err(e),
        },
        Instr::LdWRegImm { src, dst } => if dst.is_wide_reg() {
            ok(s.set_wide(dst, src))
        } else {
            Err(Fault::Execution)
        },
        Instr::LdMemImmReg { src, dst } => if src is SP {
            match m.write_word16(dst, s.sp) {
                Some(m2) => Ok((false, s, m2)),
                None => Err(Fault::Memory),
            }
        } else if src.is_byte_reg() {
            match m.write(dst, s.reg(src)) {
                Some(m2) => Ok((false, s, m2)),
                None => Err(Fault::Memory),
            }
        } else {
            Err(Fault::Execution)
        },
        _ => Err(Fault::Execution),
    }
}

/// 16-bit arithmetic and the stack.
pub open spec fn wide_spec(s: CpuView, m: MmuView, i: Instr) -> Result<
    (bool, CpuView, MmuView),
    Fault,
> {
    let ok = |s2: CpuView| Ok((false, s2, m));
    match i {
        Instr::AddWRegWReg { src, dst } => if src.is_wide_reg() && dst.is_wide_reg() {
            let (a, b) = (s.wide(src), s.wide(dst));
            ok(s.set_flags(add16_flags(a, b)).set_wide(dst, add16(a, b)))
        } else {
            Err(Fault::Execution)
        },
        Instr::AddWRegImm { src, dst } => if dst.is_wide_reg() {
            let (a, b) = (src as u16, s.wide(dst));
            ok(s.set_flags(add16_flags(a, b)).set_wide(dst, add16(a, b)))
        } else {
            Err(Fault::Execution)
        },
        Instr::IncWReg { dst } => if dst.is_wide_reg() {
            let w = s.wide(dst);
            let s2 = s.set_flags(add16_flags(w, 1)).set_wide(dst, add16(w, 1));
            ok(s2.set_flags(keep_carry(s2.f, s.f)))
        } else {
            Err(Fault::Execution)
        },
        Instr::DecWReg { dst } => if dst.is_wide_reg() {
            let w = s.wide(dst);
            ok(s.set_wide(dst, if w == 0 { 0 } else { (w - 1) as u16 }))
        } else {
            Err(Fault::Execution)
        },
        Instr::Push { src } => if src.is_wide_reg() {
            let sp = ((s.sp + 65534) % 65536) as u16;
            match m.write_word16(sp, s.wide(src)) {
                Some(m2) => Ok((false, s.set_wide(Reg::SP, sp), m2)),
                None => Err(Fault::Memory),
            }
        } else {
            Err(Fault::Execution)
        },
        Instr::Pop { dst } => if dst.is_wide_reg() {
            match m.read_word16(s.sp) {
                Some(w) => ok(s.set_wide(Reg::SP, ((s.sp + 2) % 65536) as u16).set_wide(dst, w)),
                None => Err(Fault::Memory),
            }
        } else {
            Err(Fault::Execution)
        },
        _ => Err(Fault::Execution),
    }
}

/// Jumps and restarts.
pub open spec fn jump_spec(s: CpuView, m: MmuView, i: Instr) -> Result<
    (bool, CpuView, MmuView),
    Fault,
> {
    let ok = |s2: CpuView| Ok((false, s2, m));
    match i {
        Instr::JPImm { addr } => ok(s.set_pc(addr)),
        Instr::JPCond { cond, addr } => if cond_holds(s.f, cond) {
            ok(s.set_pc(addr))
        } else {
            ok(s)
        },
        Instr::JPReg { src } => if src.is_wide_reg() {
            ok(s.set_pc(s.wide(src)))
        } else {
            Err(Fault::Execution)
        },
        Instr::JRelImm { offset } => {
            let t = rel_target(s.pc, offset);
            if 0 <= t <= 0xffff {
                ok(s.set_pc(t as u16))
            } else {
                Err(Fault::Execution)
            }
        },
        Instr::JRelCond { cond, offset } => if cond_holds(s.f, cond) {
            let t = rel_target(s.pc, offset);
            if 0 <= t <= 0xffff {
                ok(s.set_pc(t as u16))
            } else {
                Err(Fault::Execution)
            }
        } else {
            ok(s)
        },
        Instr::Rst { addr } => {
            let sp = ((s.sp + 65534) % 65536) as u16;
            match m.write_word16(sp, s.pc) {
                Some(m2) => Ok((false, s.set_wide(Reg::SP, sp).set_pc(addr as u16), m2)),
                None => Err(Fault::Memory),
            }
        },
        _ => Err(Fault::Execution),
    }
}

/// Bit tests.
pub open spec fn bit_spec(s: CpuView, m: MmuView, i: Instr) -> Result<
    (bool, CpuView, MmuView),
    Fault,
> {
    let ok = |s2: CpuView| Ok((false, s2, m));
    match i {
        Instr::BitReg { reg, bit } => if bit < 8 && reg.is_byte_reg() {
            ok(s.set_flags(bit_flags(s.reg(reg), bit, s.f)))
        } else {
            Err(Fault::Execution)
        },
        Instr::BitMem { reg, bit } => if bit < 8 {
            match mem_read(s, m, reg) {
                Ok(v) => ok(post_addr(s.set_flags(bit_flags(v, bit, s.f)), reg)),
                Err(e) => Err(e),
            }
        } else {
            Err(Fault::Execution)
        },
        _ => Err(Fault::Execution),
    }
}

/// Applies a decoded instruction to registers `s` (program counter already
/// past the instruction) and memory `m`: whether the machine halts, and the
/// new registers and memory.
pub open spec fn apply_spec(s: CpuView, m: MmuView, i: Instr) -> Result<
    (bool, CpuView, MmuView),
    Fault,
> {
    match (bin_form(i), un_form(i)) {
        (Some((op, dst, x)), _) => match bin_step(s, m, op, dst, x) {
            Ok(s2) => Ok((false, s2, m)),
            Err(e) => Err(e),
        },
        (_, Some((op, t))) => match un_step(s, m, op, t) {
            Ok((s2, m2)) => Ok((false, s2, m2)),
            Err(e) => Err(e),
        },
        _ => match i {
            Instr::Nop => Ok((false, s, m)),
            Instr::Halt => Ok((true, s, m)),
            Instr::LdRegReg { .. }
            | Instr::LdRegImm { .. }
            | Instr::LdRegMem { .. }
            | Instr::LdMemReg { .. }
            | Instr::LdMemHLImm { .. }
            | Instr::LdWRegImm { .. }
            | Instr::LdMemImmReg { .. } => load_spec(s, m, i),
            Instr::AddWRegWReg { .. }
            | Instr::AddWRegImm { .. }
            | Instr::IncWReg { .. }
            | Instr::DecWReg { .. }
            | Instr::Push { .. }
            | Instr::Pop { .. } => wide_spec(s, m, i),
            Instr::JPImm { .. }
            | Instr::JPCond { .. }
            | Instr::JPReg { .. }
            | Instr::JRelImm { .. }
            | Instr::JRelCond { .. }
            | Instr::Rst { .. } => jump_spec(s, m, i),
            Instr::BitReg { .. } | Instr::BitMem { .. } => bit_spec(s, m, i),
            _ => Err(Fault::Execution),
        },
    }
}

/// One step from registers `s` and memory `m` with the instruction stream
/// `bytes`: the outcome and the new registers and memory. A fault changes
/// nothing.
pub open spec fn step_spec(s: CpuView, m: MmuView, bytes: Seq<u8>) -> (
    StepOutcome,
    CpuView,
    MmuView,
) {
    match decode_at(bytes, s.pc as int) {
        None => (StepOutcome::Fault(Fault::Decode), s, m),
        Some((i, len)) => match apply_spec(s.set_pc((s.pc + len) as u16), m, i) {
            Ok((halted, s2, m2)) => (
                if halted {
                    StepOutcome::Halted
                } else {
                    StepOutcome::Continue
                },
                s2,
                m2,
            ),
            Err(e) => (StepOutcome::Fault(e), s, m),
        },
    }
}

/// Increments and decrements leave the carry flag as it was.
pub proof fn lemma_inc_dec_keep_carry(v: u8, f: u8)
    ensures
        un_spec(UnOp::Inc, v, f).1 & FLAG_C == f & FLAG_C,
        un_spec(UnOp::Dec, v, f).1 & FLAG_C == f & FLAG_C,
{
    let fi = add8_flags(v, 1);
    let fd = sub8_flags(v, 1);
    lemma_flag_bits(fi & FLAG_Z != 0, fi & FLAG_N != 0, fi & FLAG_H != 0, f & FLAG_C != 0);
    lemma_flag_bits(fd & FLAG_Z != 0, fd & FLAG_N != 0, fd & FLAG_H != 0, f & FLAG_C != 0);
    let ki = un_spec(UnOp::Inc, v, f).1;
    let kd = un_spec(UnOp::Dec, v, f).1;
    assert(forall|x: u8, y: u8|
        #![auto]
        ((x & 0x10 != 0) == (y & 0x10 != 0)) ==> x & 0x10 == y & 0x10) by (bit_vector);
    assert(ki & FLAG_C == f & FLAG_C);
    assert(kd & FLAG_C == f & FLAG_C);
}

/// A conditional relative jump whose mask the flags do not satisfy only
/// moves the program counter past the instruction.
pub proof fn lemma_untaken_relative_jump(
    s: CpuView,
    m: MmuView,
    bytes: Seq<u8>,
    cond: u8,
    offset: u8,
    len: int,
)
    requires
        decode_at(bytes, s.pc as int) == Some((Instr::JRelCond { cond, offset }, len)),
        !cond_holds(s.f, cond),
    ensures
        step_spec(s, m, bytes) == (StepOutcome::Continue, s.set_pc((s.pc + len) as u16), m),
{
}

/// The operation, destination and operand of an 8-bit binary instruction.
fn bin_form_of(i: Instr) -> (r: Option<(BinOp, Reg, Operand)>)
    ensures
        r == bin_form(i),
{
    match i {
            Instr::AddRegReg { src, dst } => Some((BinOp::Add, dst, Operand::Reg(src))),
            Instr::AddRegImm { src, dst } => Some((BinOp::Add, dst, Operand::Imm(src))),
            Instr::AddMemReg { src, dst } => Some((BinOp::Add, dst, Operand::Mem(src))),
            Instr::AdcRegReg { src, dst } => Some((BinOp::Adc, dst, Operand::Reg(src))),
            Instr::AdcRegImm { src, dst } => Some((BinOp::Adc, dst, Operand::Imm(src))),
            Instr::AdcMemReg { src, dst } => Some((BinOp::Adc, dst, Operand::Mem(src))),
            Instr::SubReg { src } => Some((BinOp::Sub, Reg::A, Operand::Reg(src))),
            Instr::SubImm { src } => Some((BinOp::Sub, Reg::A, Operand::Imm(src))),
            Instr::SubMem { src } => Some((BinOp::Sub, Reg::A, Operand::Mem(src))),
            Instr::SbcReg { src } => Some((BinOp::Sbc, Reg::A, Operand::Reg(src))),
            Instr::SbcImm { src } => Some((BinOp::Sbc, Reg::A, Operand::Imm(src))),
            Instr::SbcMem { src } => Some((BinOp::Sbc, Reg::A, Operand::Mem(src))),
            Instr::AndReg { src } => Some((BinOp::And, Reg::A, Operand::Reg(src))),
            Instr::AndImm { src } => Some((BinOp::And, Reg::A, Operand::Imm(src))),
            Instr::AndMem { src } => Some((BinOp::And, Reg::A, Operand::Mem(src))),
            Instr::XorReg { src } => Some((BinOp::Xor, Reg::A, Operand::Reg(src))),
            Instr::XorImm { src } => Some((BinOp::Xor, Reg::A, Operand::Imm(src))),
            Instr::XorMem { src } => Some((BinOp::Xor, Reg::A, Operand::Mem(src))),
            Instr::OrReg { src } => Some((BinOp::Or, Reg::A, Operand::Reg(src))),
            Instr::OrImm { src } => Some((BinOp::Or, Reg::A, Operand::Imm(src))),
            Instr::OrMem { src } => Some((BinOp::Or, Reg::A, Operand::Mem(src))),
            Instr::CpReg { src } => Some((BinOp::Cp, Reg::A, Operand::Reg(src))),
            Instr::CpImm { src } => Some((BinOp::Cp, Reg::A, Operand::Imm(src))),
            Instr::CpMem { src } => Some((BinOp::Cp, Reg::A, Operand::Mem(src))),
        _ => None,
    }
}

/// The operation and target of an 8-bit unary instruction.
fn un_form_of(i: Instr) -> (r: Option<(UnOp, Target)>)
    ensures
        r == un_form(i),
{
    match i {
            Instr::IncReg { dst } => Some((UnOp::Inc, Target::Reg(dst))),
            Instr::IncMem { dst } => Some((UnOp::Inc, Target::Mem(dst))),
            Instr::DecReg { dst } => Some((UnOp::Dec, Target::Reg(dst))),
            Instr::DecMem { dst } => Some((UnOp::Dec, Target::Mem(dst))),
            Instr::RlcReg { reg } => Some((UnOp::Rlc, Target::Reg(reg))),
            Instr::RlcMem { reg } => Some((UnOp::Rlc, Target::Mem(reg))),
            Instr::RrcReg { reg } => Some((UnOp::Rrc, Target::Reg(reg))),
            Instr::RrcMem { reg } => Some((UnOp::Rrc, Target::Mem(reg))),
            Instr::RlReg { reg } => Some((UnOp::Rl, Target::Reg(reg))),
            Instr::RlMem { reg } => Some((UnOp::Rl, Target::Mem(reg))),
            Instr::RrReg { reg } => Some((UnOp::Rr, Target::Reg(reg))),
            Instr::RrMem { reg } => Some((UnOp::Rr, Target::Mem(reg))),
            Instr::SlaReg { reg } => Some((UnOp::Sla, Target::Reg(reg))),
            Instr::SlaMem { reg } => Some((UnOp::Sla, Target::Mem(reg))),
            Instr::SraReg { reg } => Some((UnOp::Sra, Target::Reg(reg))),
            Instr::SraMem { reg } => Some((UnOp::Sra, Target::Mem(reg))),
            Instr::SwapReg { reg } => Some((UnOp::Swap, Target::Reg(reg))),
            Instr::SwapMem { reg } => Some((UnOp::Swap, Target::Mem(reg))),
            Instr::SrlReg { reg } => Some((UnOp::Srl, Target::Reg(reg))),
            Instr::SrlMem { reg } => Some((UnOp::Srl, Target::Mem(reg))),
            Instr::ResReg { reg, bit } => Some((UnOp::ResBit(bit), Target::Reg(reg))),
            Instr::ResMem { reg, bit } => Some((UnOp::ResBit(bit), Target::Mem(reg))),
            Instr::SetReg { reg, bit } => Some((UnOp::SetBit(bit), Target::Reg(reg))),
            Instr::SetMem { reg, bit } => Some((UnOp::SetBit(bit), Target::Mem(reg))),
        _ => None,
    }
}

/// The flags `f` with the carry of `old`.
fn keep_carry_flags(f: u8, old: u8) -> (r: u8)
    ensures
        r == keep_carry(f, old),
{
    make_flags(f & FLAG_Z != 0, f & FLAG_N != 0, f & FLAG_H != 0, old & FLAG_C != 0)
}

impl Cpu {
    /// `a op x` through the ALU.
    fn alu_bin(&mut self, op: BinOp, a: u8, x: u8) -> (r: u8)
        ensures
            r == bin_spec(op, a, x, old(self)@.f).0,
            final(self)@ == old(self)@.set_flags(bin_spec(op, a, x, old(self)@.f).1),
    {
        match op {
            BinOp::Add => self.alu_add(a, x),
            BinOp::Adc => self.alu_adc(a, x),
            BinOp::Sub => self.alu_sub(a, x),
            BinOp::Sbc => self.alu_sbc(a, x),
            BinOp::And => self.alu_and(a, x),
            BinOp::Xor => self.alu_xor(a, x),
            BinOp::Or => self.alu_or(a, x),
            BinOp::Cp => {
                self.alu_sub(a, x);
                a
            },
        }
    }

    /// A unary operation on `v` through the ALU.
    fn alu_un(&mut self, op: UnOp, v: u8) -> (r: u8)
        requires
            un_ok(op),
        ensures
            r == un_spec(op, v, old(self)@.f).0,
            final(self)@ == old(self)@.set_flags(un_spec(op, v, old(self)@.f).1),
    {
        match op {
            UnOp::Rlc => self.alu_rlc(v),
            UnOp::Rrc => self.alu_rrc(v),
            UnOp::Rl => self.alu_rl(v),
            UnOp::Rr => self.alu_rr(v),
            UnOp::Sla => self.alu_sla(v),
            UnOp::Sra => self.alu_sra(v),
            UnOp::Swap => self.alu_swap(v),
            UnOp::Srl => self.alu_srl(v),
            UnOp::Inc => {
                let old_f = self.read_reg(Reg::F);
                let r = self.alu_add(v, 1);
                let f = self.read_reg(Reg::F);
                self.write_reg(Reg::F, keep_carry_flags(f, old_f));
                r
            },
            UnOp::Dec => {
                let old_f = self.read_reg(Reg::F);
                let r = self.alu_sub(v, 1);
                let f = self.read_reg(Reg::F);
                self.write_reg(Reg::F, keep_carry_flags(f, old_f));
                r
            },
            UnOp::ResBit(b) => self.alu_res(v, b),
            UnOp::SetBit(b) => self.alu_set(v, b),
        }
    }

    /// The address an addressing mode names.
    fn mem_addr(&self, ra: RegAddr) -> (r: Option<u16>)
        ensures
            r == addr_of(self@, ra),
    {
        match ra {
            RegAddr::HL | RegAddr::HLPlus | RegAddr::HLMinus => Some(self.read_widereg(Reg::H)),
            RegAddr::BC => Some(self.read_widereg(Reg::B)),
            RegAddr::DE => Some(self.read_widereg(Reg::D)),
            RegAddr::Invalid => None,
        }
    }

    /// Steps `HL` after an access through `HLPlus` or `HLMinus`.
    fn step_hl(&mut self, ra: RegAddr)
        ensures
            final(self)@ == post_addr(old(self)@, ra),
    {
        match ra {
            RegAddr::HLPlus => {
                let hl = self.read_widereg(Reg::H);
                self.write_widereg(Reg::H, hl.wrapping_add(1));
            },
            RegAddr::HLMinus => {
                let hl = self.read_widereg(Reg::H);
                self.write_widereg(Reg::H, hl.wrapping_sub(1));
            },
            _ => {},
        }
    }

    /// Reads the byte through `ra`.
    fn load(&self, mmu: &Mmu, ra: RegAddr) -> (r: Result<u8, Fault>)
        ensures
            r == mem_read(self@, mmu@, ra),
    {
        match self.mem_addr(ra) {
            None => Err(Fault::Execution),
            Some(a) => match mmu.read_word(Addr(a)) {
                None => Err(Fault::Memory),
                Some(v) => Ok(v),
            },
        }
    }

    /// Writes `v` through `ra`.
    fn store(&self, mmu: &mut Mmu, ra: RegAddr, v: u8) -> (r: Result<(), Fault>)
        ensures
            match mem_write(self@, old(mmu)@, ra, v) {
                Ok(m2) => r is Ok && final(mmu)@ == m2,
                Err(e) => r == Err::<(), Fault>(e) && final(mmu)@ == old(mmu)@,
            },
    {
        match self.mem_addr(ra) {
            None => Err(Fault::Execution),
            Some(a) => match mmu.write_word(Addr(a), v) {
                None => Err(Fault::Memory),
                Some(_) => Ok(()),
            },
        }
    }

    /// The value of a binary operation's operand.
    fn operand(&self, mmu: &Mmu, x: Operand) -> (r: Result<u8, Fault>)
        ensures
            r == operand_value(self@, mmu@, x),
    {
        match x {
            Operand::Reg(r) => if r.is_byte() {
                Ok(self.read_reg(r))
            } else {
                Err(Fault::Execution)
            },
            Operand::Imm(v) => Ok(v),
            Operand::Mem(ra) => self.load(mmu, ra),
        }
    }

    /// `dst op x`, written to `dst`.
    fn exec_bin(&mut self, mmu: &Mmu, op: BinOp, dst: Reg, x: Operand) -> (r: Result<bool, Fault>)
        ensures
            match bin_step(old(self)@, mmu@, op, dst, x) {
                Ok(s2) => r == Ok::<bool, Fault>(false) && final(self)@ == s2,
                Err(e) => r == Err::<bool, Fault>(e),
            },
    {
        if !dst.is_byte() {
            return Err(Fault::Execution);
        }
        let v = match self.operand(mmu, x) {
            Ok(v) => v,
            Err(e) => {
                return Err(e);
            },
        };
        let a = self.read_reg(dst);
        let r = self.alu_bin(op, a, v);
        self.write_reg(dst, r);
        if let Operand::Mem(ra) = x {
            self.step_hl(ra);
        }
        Ok(false)
    }

    /// A unary operation on a register or on memory.
    fn exec_un(&mut self, mmu: &mut Mmu, op: UnOp, t: Target) -> (r: Result<bool, Fault>)
        ensures
            match un_step(old(self)@, old(mmu)@, op, t) {
                Ok((s2, m2)) => r == Ok::<bool, Fault>(false) && final(self)@ == s2 && final(mmu)@
                    == m2,
                Err(e) => r == Err::<bool, Fault>(e) && final(mmu)@ == old(mmu)@,
            },
    {
        let ok = match op {
            UnOp::ResBit(b) => b < 8,
            UnOp::SetBit(b) => b < 8,
            _ => true,
        };
        if !ok {
            return Err(Fault::Execution);
        }
        match t {
            Target::Reg(reg) => {
                if !reg.is_byte() {
                    return Err(Fault::Execution);
                }
                let v = self.read_reg(reg);
                let r = self.alu_un(op, v);
                self.write_reg(reg, r);
                Ok(false)
            },
            Target::Mem(ra) => {
                let v = match self.load(mmu, ra) {
                    Ok(v) => v,
                    Err(e) => {
                        return Err(e);
                    },
                };
                let r = self.alu_un(op, v);
                match self.store(mmu, ra, r) {
                    Ok(_) => {},
                    Err(e) => {
                        return Err(e);
                    },
                }
                self.step_hl(ra);
                Ok(false)
            },
        }
    }

    /// Loads between registers, immediates and memory.
    #[verifier::rlimit(50)]
    fn apply_load(&mut self, mmu: &mut Mmu, i: Instr) -> (r: Result<bool, Fault>)
        ensures
            match load_spec(old(self)@, old(mmu)@, i) {
                Ok((h, s2, m2)) => r == Ok::<bool, Fault>(h) && final(self)@ == s2
                    && final(mmu)@ == m2,
                Err(e) => r == Err::<bool, Fault>(e) && final(mmu)@ == old(mmu)@,
            },
    {
        match i {
            Instr::LdRegReg { src, dst } => {
                if !(src.is_byte() && dst.is_byte()) {
                    return Err(Fault::Execution);
                }
                let v = self.read_reg(src);
                self.write_reg(dst, v);
                Ok(false)
            },
            Instr::LdRegImm { src, dst } => {
                if !dst.is_byte() {
                    return Err(Fault::Execution);
                }
                self.write_reg(dst, src);
                Ok(false)
            },
            Instr::LdRegMem { src, dst } => {
                if !src.is_byte() {
                    return Err(Fault::Execution);
                }
                let v = self.read_reg(src);
                match self.store(mmu, dst, v) {
                    Ok(_) => {},
                    Err(e) => {
                        return Err(e);
                    },
                }
                self.step_hl(dst);
                Ok(false)
            },
            Instr::LdMemReg { src, dst } => {
                if !dst.is_byte() {
                    return Err(Fault::Execution);
                }
                let v = match self.load(mmu, src) {
                    Ok(v) => v,
                    Err(e) => {
                        return Err(e);
                    },
                };
                self.write_reg(dst, v);
                self.step_hl(src);
                Ok(false)
            },
            Instr::LdMemHLImm { src } => match self.store(mmu, RegAddr::HL, src) {
                Ok(_) => Ok(false),
                Err(e) => Err(e),
            },
            Instr::LdWRegImm { src, dst } => {
                if !dst.is_wide() {
                    return Err(Fault::Execution);
                }
                self.write_widereg(dst, src);
                Ok(false)
            },
            Instr::LdMemImmReg { src, dst } => {
                if let Reg::SP = src {
                    let sp = self.read_widereg(Reg::SP);
                    match mmu.write_dword(Addr(dst), sp) {
                        Some(_) => Ok(false),
                        None => Err(Fault::Memory),
                    }
                } else if src.is_byte() {
                    let v = self.read_reg(src);
                    match mmu.write_word(Addr(dst), v) {
                        Some(_) => Ok(false),
                        None => Err(Fault::Memory),
                    }
                } else {
                    Err(Fault::Execution)
                }
            },
            _ => Err(Fault::Execution),
        }
    }

    /// 16-bit arithmetic and the stack.
    #[verifier::rlimit(50)]
    fn apply_wide(&mut self, mmu: &mut Mmu, i: Instr) -> (r: Result<bool, Fault>)
        ensures
            match wide_spec(old(self)@, old(mmu)@, i) {
                Ok((h, s2, m2)) => r == Ok::<bool, Fault>(h) && final(self)@ == s2
                    && final(mmu)@ == m2,
                Err(e) => r == Err::<bool, Fault>(e) && final(mmu)@ == old(mmu)@,
            },
    {
        match i {
            Instr::AddWRegWReg { src, dst } => {
                if !(src.is_wide() && dst.is_wide()) {
                    return Err(Fault::Execution);
                }
                let a = self.read_widereg(src);
                let b = self.read_widereg(dst);
                let r = self.alu_wideadd(a, b);
                self.write_widereg(dst, r);
                Ok(false)
            },
            Instr::AddWRegImm { src, dst } => {
                if !dst.is_wide() {
                    return Err(Fault::Execution);
                }
                let b = self.read_widereg(dst);
                let r = self.alu_wideadd(src as u16, b);
                self.write_widereg(dst, r);
                Ok(false)
            },
            Instr::IncWReg { dst } => {
                if !dst.is_wide() {
                    return Err(Fault::Execution);
                }
                let old_f = self.read_reg(Reg::F);
                let w = self.read_widereg(dst);
                let r = self.alu_wideadd(w, 1);
                self.write_widereg(dst, r);
                let f = self.read_reg(Reg::F);
                self.write_reg(Reg::F, keep_carry_flags(f, old_f));
                Ok(false)
            },
            Instr::DecWReg { dst } => {
                if !dst.is_wide() {
                    return Err(Fault::Execution);
                }
                let w = self.read_widereg(dst);
                self.write_widereg(dst, w.saturating_sub(1));
                Ok(false)
            },
            Instr::Push { src } => {
                if !src.is_wide() {
                    return Err(Fault::Execution);
                }
                let w = self.read_widereg(src);
                let sp = self.read_widereg(Reg::SP).wrapping_sub(2);
                match mmu.write_dword(Addr(sp), w) {
                    Some(_) => {},
                    None => {
                        return Err(Fault::Memory);
                    },
                }
                self.write_widereg(Reg::SP, sp);
                Ok(false)
            },
            Instr::Pop { dst } => {
                if !dst.is_wide() {
                    return Err(Fault::Execution);
                }
                let sp = self.read_widereg(Reg::SP);
                let w = match mmu.read_dword(Addr(sp)) {
                    Some(w) => w,
                    None => {
                        return Err(Fault::Memory);
                    },
                };
                self.write_widereg(Reg::SP, sp.wrapping_add(2));
                self.write_widereg(dst, w);
                Ok(false)
            },
            _ => Err(Fault::Execution),
        }
    }

    /// Jumps and restarts.
    #[verifier::rlimit(50)]
    fn apply_jump(&mut self, mmu: &mut Mmu, i: Instr) -> (r: Result<bool, Fault>)
        ensures
            match jump_spec(old(self)@, old(mmu)@, i) {
                Ok((h, s2, m2)) => r == Ok::<bool, Fault>(h) && final(self)@ == s2
                    && final(mmu)@ == m2,
                Err(e) => r == Err::<bool, Fault>(e) && final(mmu)@ == old(mmu)@,
            },
    {
        match i {
            Instr::JPImm { addr } => {
                self.set_pc(addr);
                Ok(false)
            },
            Instr::JPCond { cond, addr } => {
                if self.read_reg(Reg::F) & cond == cond {
                    self.set_pc(addr);
                }
                Ok(false)
            },
            Instr::JPReg { src } => {
                if !src.is_wide() {
                    return Err(Fault::Execution);
                }
                let w = self.read_widereg(src);
                self.set_pc(w);
                Ok(false)
            },
            Instr::JRelImm { offset } => self.jump_relative(offset),
            Instr::JRelCond { cond, offset } => {
                if self.read_reg(Reg::F) & cond == cond {
                    self.jump_relative(offset)
                } else {
                    Ok(false)
                }
            },
            Instr::Rst { addr } => {
                let pc = self.pc();
                let sp = self.read_widereg(Reg::SP).wrapping_sub(2);
                match mmu.write_dword(Addr(sp), pc) {
                    Some(_) => {},
                    None => {
                        return Err(Fault::Memory);
                    },
                }
                self.write_widereg(Reg::SP, sp);
                self.set_pc(addr as u16);
                Ok(false)
            },
            _ => Err(Fault::Execution),
        }
    }

    /// Bit tests.
    #[verifier::rlimit(50)]
    fn apply_bit(&mut self, mmu: &mut Mmu, i: Instr) -> (r: Result<bool, Fault>)
        ensures
            match bit_spec(old(self)@, old(mmu)@, i) {
                Ok((h, s2, m2)) => r == Ok::<bool, Fault>(h) && final(self)@ == s2
                    && final(mmu)@ == m2,
                Err(e) => r == Err::<bool, Fault>(e) && final(mmu)@ == old(mmu)@,
            },
    {
        match i {
            Instr::BitReg { reg, bit } => {
                if !(bit < 8 && reg.is_byte()) {
                    return Err(Fault::Execution);
                }
                let v = self.read_reg(reg);
                self.alu_bit(v, bit);
                Ok(false)
            },
            Instr::BitMem { reg, bit } => {
                if bit >= 8 {
                    return Err(Fault::Execution);
                }
                let v = match self.load(mmu, reg) {
                    Ok(v) => v,
                    Err(e) => {
                        return Err(e);
                    },
                };
                self.alu_bit(v, bit);
                self.step_hl(reg);
                Ok(false)
            },
            _ => Err(Fault::Execution),
        }
    }

    /// Applies a decoded instruction; whether the machine halts. On a
    /// fault memory is unchanged.
    fn apply(&mut self, mmu: &mut Mmu, i: Instr) -> (r: Result<bool, Fault>)
        ensures
            match apply_spec(old(self)@, old(mmu)@, i) {
                Ok((h, s2, m2)) => r == Ok::<bool, Fault>(h) && final(self)@ == s2
                    && final(mmu)@ == m2,
                Err(e) => r == Err::<bool, Fault>(e) && final(mmu)@ == old(mmu)@,
            },
    {
        if let Some((op, dst, x)) = bin_form_of(i) {
            return self.exec_bin(mmu, op, dst, x);
        }
        if let Some((op, t)) = un_form_of(i) {
            return self.exec_un(mmu, op, t);
        }
        match i {
            Instr::Nop => Ok(false),
            Instr::Halt => Ok(true),
            Instr::LdRegReg { .. }
            | Instr::LdRegImm { .. }
            | Instr::LdRegMem { .. }
            | Instr::LdMemReg { .. }
            | Instr::LdMemHLImm { .. }
            | Instr::LdWRegImm { .. }
            | Instr::LdMemImmReg { .. } => self.apply_load(mmu, i),
            Instr::AddWRegWReg { .. }
            | Instr::AddWRegImm { .. }
            | Instr::IncWReg { .. }
            | Instr::DecWReg { .. }
            | Instr::Push { .. }
            | Instr::Pop { .. } => self.apply_wide(mmu, i),
            Instr::JPImm { .. }
            | Instr::JPCond { .. }
            | Instr::JPReg { .. }
            | Instr::JRelImm { .. }
            | Instr::JRelCond { .. }
            | Instr::Rst { .. } => self.apply_jump(mmu, i),
            Instr::BitReg { .. } | Instr::BitMem { .. } => self.apply_bit(mmu, i),
            _ => Err(Fault::Execution),
        }
    }

    /// Adds the signed offset `offset` to the program counter.
    fn jump_relative(&mut self, offset: u8) -> (r: Result<bool, Fault>)
        ensures
            0 <= rel_target(old(self)@.pc, offset) <= 0xffff ==> r == Ok::<bool, Fault>(false)
                && final(self)@ == old(self)@.set_pc(rel_target(old(self)@.pc, offset) as u16),
            !(0 <= rel_target(old(self)@.pc, offset) <= 0xffff) ==> r == Err::<bool, Fault>(
                Fault::Execution,
            ),
    {
        let d: i32 = if offset < 128 {
            offset as i32
        } else {
            offset as i32 - 256
        };
        let t: i32 = self.pc() as i32 + d;
        if t < 0 || t > 0xffff {
            return Err(Fault::Execution);
        }
        self.set_pc(t as u16);
        Ok(false)
    }

    /// Runs one instruction: decodes it at the program counter and applies
    /// it. A fault leaves the registers and memory as they were.
    pub fn execute(&mut self, instructions: &[u8], mmu: &mut Mmu) -> (r: StepOutcome)
        ensures
            (r, final(self)@, final(mmu)@) == step_spec(old(self)@, old(mmu)@, instructions@),
    {
        let saved = *self;
        let instr = match self.decode(instructions) {
            Some(i) => i,
            None => {
                return StepOutcome::Fault(Fault::Decode);
            },
        };
        match self.apply(mmu, instr) {
            Ok(true) => StepOutcome::Halted,
            Ok(false) => StepOutcome::Continue,
            Err(e) => {
                *self = saved;
                StepOutcome::Fault(e)
            },
        }
    }
}

} // verus!
