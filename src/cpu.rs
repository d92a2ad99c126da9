//! The register file: eight 8-bit registers in one byte buffer, the stack
//! pointer and the program counter.
use vstd::prelude::*;
use crate::regs::{reg_code, Reg};

verus! {

/// The registers of a CPU as plain values.
pub struct CpuView {
    pub a: u8,
    pub f: u8,
    pub b: u8,
    pub c: u8,
    pub d: u8,
    pub e: u8,
    pub h: u8,
    pub l: u8,
    pub sp: u16,
    pub pc: u16,
}

impl CpuView {
    /// The value of an 8-bit register.
    pub open spec fn reg(self, r: Reg) -> u8 {
        match r {
            Reg::A => self.a,
            Reg::F => self.f,
            Reg::B => self.b,
            Reg::C => self.c,
            Reg::D => self.d,
            Reg::E => self.e,
            Reg::H => self.h,
            Reg::L => self.l,
            _ => 0,
        }
    }

    /// The registers with the 8-bit register `r` set to `v`.
    pub open spec fn set_reg(self, r: Reg, v: u8) -> CpuView {
        match r {
            Reg::A => CpuView { a: v, ..self },
            Reg::F => CpuView { f: v, ..self },
            Reg::B => CpuView { b: v, ..self },
            Reg::C => CpuView { c: v, ..self },
            Reg::D => CpuView { d: v, ..self },
            Reg::E => CpuView { e: v, ..self },
            Reg::H => CpuView { h: v, ..self },
            Reg::L => CpuView { l: v, ..self },
            _ => self,
        }
    }

    /// The 16-bit value of a pair, named by its first register, which is
    /// the low byte; or of `SP`.
    pub open spec fn wide(self, r: Reg) -> u16 {
        match r {
            Reg::A => (self.a + 256 * self.f) as u16,
            Reg::B => (self.b + 256 * self.c) as u16,
            Reg::D => (self.d + 256 * self.e) as u16,
            Reg::H => (self.h + 256 * self.l) as u16,
            Reg::SP => self.sp,
            _ => 0,
        }
    }

    /// The registers with the pair `r` (or `SP`) set to `w`. Written to
    /// `AF`, the flag byte keeps only its four flag bits.
    pub open spec fn set_wide(self, r: Reg, w: u16) -> CpuView {
        let lo = (w % 256) as u8;
        let hi = (w / 256) as u8;
        match r {
            Reg::A => CpuView { a: lo, f: hi & 0xf0, ..self },
            Reg::B => CpuView { b: lo, c: hi, ..self },
            Reg::D => CpuView { d: lo, e: hi, ..self },
            Reg::H => CpuView { h: lo, l: hi, ..self },
            Reg::SP => CpuView { sp: w, ..self },
            _ => self,
        }
    }

    /// The registers with the flag byte set to `f`.
    pub open spec fn set_flags(self, f: u8) -> CpuView {
        CpuView { f: f, ..self }
    }

    /// The registers with the program counter set to `pc`.
    pub open spec fn set_pc(self, pc: u16) -> CpuView {
        CpuView { pc: pc, ..self }
    }

    /// The registers after reset: all zero.
    pub open spec fn zeroed() -> CpuView {
        CpuView { a: 0, f: 0, b: 0, c: 0, d: 0, e: 0, h: 0, l: 0, sp: 0, pc: 0 }
    }
}

/// Slot of an 8-bit register in the register buffer.
spec fn slot(r: Reg) -> int {
    reg_code(r) - 1
}

/// One CPU: its registers and program counter.
#[derive(Debug, Clone, Copy)]
pub struct Cpu {
    /// `A, F, B, C, D, E, H, L` in this order, so that each pair is two
    /// adjacent slots.
    registers: [u8; 8],
    sp: u16,
    pc: u16,
}

impl View for Cpu {
    type V = CpuView;

    closed spec fn view(&self) -> CpuView {
        CpuView {
            a: self.registers@[0],
            f: self.registers@[1],
            b: self.registers@[2],
            c: self.registers@[3],
            d: self.registers@[4],
            e: self.registers@[5],
            h: self.registers@[6],
            l: self.registers@[7],
            sp: self.sp,
            pc: self.pc,
        }
    }
}

impl Cpu {
    /// A CPU after reset.
    pub fn new() -> (r: Self)
        ensures
            r@ == CpuView::zeroed(),
    {
        Self { registers: [0u8; 8], sp: 0, pc: 0 }
    }

    /// Writes an 8-bit register.
    pub fn write_reg(&mut self, reg: Reg, value: u8)
        requires
            reg.is_byte_reg(),
        ensures
            final(self)@ == old(self)@.set_reg(reg, value),
    {
        let i: usize = match reg {
            Reg::A => 0,
            Reg::F => 1,
            Reg::B => 2,
            Reg::C => 3,
            Reg::D => 4,
            Reg::E => 5,
            Reg::H => 6,
            _ => 7,
        };
        self.registers[i] = value;
    }

    /// Reads an 8-bit register.
    pub fn read_reg(&self, reg: Reg) -> (r: u8)
        requires
            reg.is_byte_reg(),
        ensures
            r == self@.reg(reg),
    {
        let i: usize = match reg {
            Reg::A => 0,
            Reg::F => 1,
            Reg::B => 2,
            Reg::C => 3,
            Reg::D => 4,
            Reg::E => 5,
            Reg::H => 6,
            _ => 7,
        };
        self.registers[i]
    }

    /// Reads a pair as 16 bits, its first register as the low byte, or `SP`.
    pub fn read_widereg(&self, reg: Reg) -> (r: u16)
        requires
            reg.is_wide_reg(),
        ensures
            r == self@.wide(reg),
    {
        let i: usize = match reg {
            Reg::A => 0,
            Reg::B => 2,
            Reg::D => 4,
            Reg::H => 6,
            _ => {
                return self.sp;
            },
        };
        let lo = self.registers[i];
        let hi = self.registers[i + 1];
        lo as u16 + 256 * (hi as u16)
    }

    /// Writes a pair as 16 bits, the low byte to its first register, or `SP`.
    pub fn write_widereg(&mut self, reg: Reg, value: u16)
        requires
            reg.is_wide_reg(),
        ensures
            final(self)@ == old(self)@.set_wide(reg, value),
    {
        let lo = (value % 256) as u8;
        let hi = (value / 256) as u8;
        match reg {
            Reg::A => {
                self.registers[0] = lo;
                self.registers[1] = hi & 0xf0;
            },
            Reg::B => {
                self.registers[2] = lo;
                self.registers[3] = hi;
            },
            Reg::D => {
                self.registers[4] = lo;
                self.registers[5] = hi;
            },
            Reg::H => {
                self.registers[6] = lo;
                self.registers[7] = hi;
            },
            _ => {
                self.sp = value;
            },
        }
    }

    /// The program counter.
    pub fn pc(&self) -> (r: u16)
        ensures
            r == self@.pc,
    {
        self.pc
    }

    /// Sets the program counter.
    pub fn set_pc(&mut self, pc: u16)
        ensures
            final(self)@ == old(self)@.set_pc(pc),
    {
        self.pc = pc;
    }
}

} // verus!
