//! Register names, memory addressing modes and the flag byte.
use vstd::prelude::*;

verus! {

/// Zero flag: the last result was zero.
pub const FLAG_Z: u8 = 0x80;

/// Subtract flag: the last operation was a subtraction.
pub const FLAG_N: u8 = 0x40;

/// Half-carry flag: carry out of bit 3 (bit 11 for 16-bit additions).
pub const FLAG_H: u8 = 0x20;

/// Carry flag: carry out of bit 7 (bit 15 for 16-bit additions).
pub const FLAG_C: u8 = 0x10;

/// The flag byte with the four flags as given; bits 3..0 are zero.
pub open spec fn flag_bits(z: bool, n: bool, h: bool, c: bool) -> u8 {
    ((if z { FLAG_Z as int } else { 0 }) + (if n { FLAG_N as int } else { 0 }) + (if h {
        FLAG_H as int
    } else {
        0
    }) + (if c { FLAG_C as int } else { 0 })) as u8
}

/// Each flag of `flag_bits` can be read back with its mask.
pub proof fn lemma_flag_bits(z: bool, n: bool, h: bool, c: bool)
    by (bit_vector)
    ensures
        (flag_bits(z, n, h, c) & FLAG_Z != 0) == z,
        (flag_bits(z, n, h, c) & FLAG_N != 0) == n,
        (flag_bits(z, n, h, c) & FLAG_H != 0) == h,
        (flag_bits(z, n, h, c) & FLAG_C != 0) == c,
        flag_bits(z, n, h, c) & 0x0f == 0,
{
}

/// Builds the flag byte from the four flags.
pub fn make_flags(z: bool, n: bool, h: bool, c: bool) -> (r: u8)
    ensures
        r == flag_bits(z, n, h, c),
{
    let mut f: u8 = 0;
    if z {
        f = f + FLAG_Z;
    }
    if n {
        f = f + FLAG_N;
    }
    if h {
        f = f + FLAG_H;
    }
    if c {
        f = f + FLAG_C;
    }
    f
}

/// The CPU's registers. The 8-bit registers pair up as `AF`, `BC`, `DE`
/// and `HL`, named by their first register; `SP` is a 16-bit register of
/// its own. `Invalid` names no register.
#[derive(Debug, Clone, Copy, PartialEq, Eq, Structural)]
pub enum Reg {
    Invalid,
    A,
    F,
    B,
    C,
    D,
    E,
    H,
    L,
    SP,
}

/// The operand code of each register, as the opcode tables hold it.
pub open spec fn reg_code(r: Reg) -> u8 {
    match r {
        Reg::Invalid => 0,
        Reg::A => 1,
        Reg::F => 2,
        Reg::B => 3,
        Reg::C => 4,
        Reg::D => 5,
        Reg::E => 6,
        Reg::H => 7,
        Reg::L => 8,
        Reg::SP => 9,
    }
}

/// The register whose operand code is `c`, if any names one.
pub open spec fn reg_of_code(c: u8) -> Option<Reg> {
    if c == 1 {
        Some(Reg::A)
    } else if c == 2 {
        Some(Reg::F)
    } else if c == 3 {
        Some(Reg::B)
    } else if c == 4 {
        Some(Reg::C)
    } else if c == 5 {
        Some(Reg::D)
    } else if c == 6 {
        Some(Reg::E)
    } else if c == 7 {
        Some(Reg::H)
    } else if c == 8 {
        Some(Reg::L)
    } else if c == 9 {
        Some(Reg::SP)
    } else {
        None
    }
}

impl Reg {
    /// One of the eight 8-bit registers.
    pub open spec fn is_byte_reg(self) -> bool {
        !(self is Invalid) && !(self is SP)
    }

    /// A register that names a 16-bit value: a pair head (`A`, `B`, `D`,
    /// `H`) or `SP`.
    pub open spec fn is_wide_reg(self) -> bool {
        self is A || self is B || self is D || self is H || self is SP
    }

    /// The register of operand code `value`; code 0 is `Invalid`.
    pub fn from_u8(value: u8) -> (r: Self)
        requires
            value <= 9,
        ensures
            reg_code(r) == value,
    {
        match value {
            1 => Reg::A,
            2 => Reg::F,
            3 => Reg::B,
            4 => Reg::C,
            5 => Reg::D,
            6 => Reg::E,
            7 => Reg::H,
            8 => Reg::L,
            9 => Reg::SP,
            _ => Reg::Invalid,
        }
    }

    /// Tells an 8-bit register.
    pub fn is_byte(self) -> (r: bool)
        ensures
            r == self.is_byte_reg(),
    {
        !matches!(self, Reg::Invalid | Reg::SP)
    }

    /// Tells a register that can be read or written as 16 bits.
    pub fn is_wide(self) -> (r: bool)
        ensures
            r == self.is_wide_reg(),
    {
        matches!(self, Reg::A | Reg::B | Reg::D | Reg::H | Reg::SP)
    }
}

/// Decodes an operand code as a register.
pub fn reg_operand(c: u8) -> (r: Option<Reg>)
    ensures
        r == reg_of_code(c),
{
    if 1 <= c && c <= 9 {
        Some(Reg::from_u8(c))
    } else {
        None
    }
}

/// Registers that hold a memory address. `HLPlus` and `HLMinus` read `HL`
/// and then step it up or down by one.
#[derive(Debug, Clone, Copy, PartialEq, Eq, Structural)]
pub enum RegAddr {
    Invalid,
    HL,
    HLPlus,
    HLMinus,
    BC,
    DE,
}

/// The operand code of each addressing mode, as the opcode tables hold it.
pub open spec fn addr_code(r: RegAddr) -> u8 {
    match r {
        RegAddr::Invalid => 0,
        RegAddr::HL => 10,
        RegAddr::HLPlus => 11,
        RegAddr::HLMinus => 12,
        RegAddr::BC => 13,
        RegAddr::DE => 14,
    }
}

/// The addressing mode whose operand code is `c`, if any names one.
pub open spec fn addr_of_code(c: u8) -> Option<RegAddr> {
    if c == 10 {
        Some(RegAddr::HL)
    } else if c == 11 {
        Some(RegAddr::HLPlus)
    } else if c == 12 {
        Some(RegAddr::HLMinus)
    } else if c == 13 {
        Some(RegAddr::BC)
    } else if c == 14 {
        Some(RegAddr::DE)
    } else {
        None
    }
}

impl RegAddr {
    /// The addressing mode of operand code `value`; code 0 is `Invalid`.
    pub fn from_u8(value: u8) -> (r: Self)
        requires
            value == 0 || 10 <= value <= 14,
        ensures
            addr_code(r) == value,
    {
        match value {
            10 => RegAddr::HL,
            11 => RegAddr::HLPlus,
            12 => RegAddr::HLMinus,
            13 => RegAddr::BC,
            14 => RegAddr::DE,
            _ => RegAddr::Invalid,
        }
    }
}

/// Decodes an operand code as an addressing mode.
pub fn addr_operand(c: u8) -> (r: Option<RegAddr>)
    ensures
        r == addr_of_code(c),
{
    if 10 <= c && c <= 14 {
        Some(RegAddr::from_u8(c))
    } else {
        None
    }
}

} // verus!
