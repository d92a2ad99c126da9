//! The opcode tables: for each opcode byte, in the base space and in the
//! extended space behind the escape byte, an instruction kind and the codes
//! of its operands.
use vstd::prelude::*;

verus! {

/// The shape of an instruction, as the kind tables name it. The kinds that
/// have no `Instr` form (`AddSPImm`, the rotates of `A`, the returns) are
/// assigned to no opcode.
#[derive(Debug, Clone, Copy, PartialEq, Eq, Structural)]
pub enum InstrKind {
    /// Stops the machine.
    Halt,
    // Loads.
    LdRegReg,
    LdRegImm,
    LdRegMem,
    LdMemReg,
    LdMemHLImm,
    // Arithmetic and logic.
    AddRegReg,
    AddRegImm,
    AddMemReg,
    AddWRegWReg,
    AddWRegImm,
    AdcRegReg,
    AdcRegImm,
    AdcMemReg,
    SubReg,
    SubImm,
    SubMem,
    SbcReg,
    SbcImm,
    SbcMem,
    AndReg,
    AndImm,
    AndMem,
    XorReg,
    XorImm,
    XorMem,
    OrReg,
    OrImm,
    OrMem,
    IncReg,
    IncWReg,
    IncMem,
    DecReg,
    DecWReg,
    DecMem,
    CpReg,
    CpImm,
    CpMem,
    /// No operation.
    Nop,
    // 16-bit loads and the stack.
    LdWRegImm,
    LdMemImmReg,
    Push,
    Pop,
    AddSPImm,
    // Jumps.
    JPImm,
    JPCond,
    JPReg,
    JRelImm,
    JRelCond,
    Rst,
    // Rotates of `A` without the escape byte.
    RlcA,
    RlA,
    RrcA,
    RrA,
    // Extended space: rotates, shifts, nibble swap and bit operations.
    RlcReg,
    RlcMem,
    RrcReg,
    RrcMem,
    RlReg,
    RlMem,
    RrReg,
    RrMem,
    SlaReg,
    SlaMem,
    SraReg,
    SraMem,
    SwapReg,
    SwapMem,
    SrlReg,
    SrlMem,
    BitReg,
    BitMem,
    ResReg,
    ResMem,
    SetReg,
    SetMem,
    // Returns.
    Ret,
    RetCond,
    Reti,
    /// Escape to the extended opcode space.
    Prefix,
}

/// The code of each kind in the kind tables.
pub open spec fn kind_code(k: InstrKind) -> u8 {
    match k {
        InstrKind::Halt => 1,
        InstrKind::LdRegReg => 2,
        InstrKind::LdRegImm => 3,
        InstrKind::LdRegMem => 4,
        InstrKind::LdMemReg => 5,
        InstrKind::LdMemHLImm => 6,
        InstrKind::AddRegReg => 7,
        InstrKind::AddRegImm => 8,
        InstrKind::AddMemReg => 9,
        InstrKind::AddWRegWReg => 10,
        InstrKind::AddWRegImm => 11,
        InstrKind::AdcRegReg => 12,
        InstrKind::AdcRegImm => 13,
        InstrKind::AdcMemReg => 14,
        InstrKind::SubReg => 15,
        InstrKind::SubImm => 16,
        InstrKind::SubMem => 17,
        InstrKind::SbcReg => 18,
        InstrKind::SbcImm => 19,
        InstrKind::SbcMem => 20,
        InstrKind::AndReg => 21,
        InstrKind::AndImm => 22,
        InstrKind::AndMem => 23,
        InstrKind::XorReg => 24,
        InstrKind::XorImm => 25,
        InstrKind::XorMem => 26,
        InstrKind::OrReg => 27,
        InstrKind::OrImm => 28,
        InstrKind::OrMem => 29,
        InstrKind::IncReg => 30,
        InstrKind::IncWReg => 31,
        InstrKind::IncMem => 32,
        InstrKind::DecReg => 33,
        InstrKind::DecWReg => 34,
        InstrKind::DecMem => 35,
        InstrKind::CpReg => 36,
        InstrKind::CpImm => 37,
        InstrKind::CpMem => 38,
        InstrKind::Nop => 39,
        InstrKind::LdWRegImm => 40,
        InstrKind::LdMemImmReg => 41,
        InstrKind::Push => 42,
        InstrKind::Pop => 43,
        InstrKind::AddSPImm => 44,
        InstrKind::JPImm => 45,
        InstrKind::JPCond => 46,
        InstrKind::JPReg => 47,
        InstrKind::JRelImm => 48,
        InstrKind::JRelCond => 49,
        InstrKind::Rst => 50,
        InstrKind::RlcA => 51,
        InstrKind::RlA => 52,
        InstrKind::RrcA => 53,
        InstrKind::RrA => 54,
        InstrKind::RlcReg => 55,
        InstrKind::RlcMem => 56,
        InstrKind::RrcReg => 57,
        InstrKind::RrcMem => 58,
        InstrKind::RlReg => 59,
        InstrKind::RlMem => 60,
        InstrKind::RrReg => 61,
        InstrKind::RrMem => 62,
        InstrKind::SlaReg => 63,
        InstrKind::SlaMem => 64,
        InstrKind::SraReg => 65,
        InstrKind::SraMem => 66,
        InstrKind::SwapReg => 67,
        InstrKind::SwapMem => 68,
        InstrKind::SrlReg => 69,
        InstrKind::SrlMem => 70,
        InstrKind::BitReg => 71,
        InstrKind::BitMem => 72,
        InstrKind::ResReg => 73,
        InstrKind::ResMem => 74,
        InstrKind::SetReg => 75,
        InstrKind::SetMem => 76,
        InstrKind::Ret => 77,
        InstrKind::RetCond => 78,
        InstrKind::Reti => 79,
        InstrKind::Prefix => 80,
    }
}

/// A code that names a kind.
pub open spec fn is_kind_code(c: u8) -> bool {
    1 <= c <= 80
}

/// The kind that code `c` names, if any.
pub open spec fn kind_of_code(c: u8) -> Option<InstrKind> {
    if c == 1 {
        Some(InstrKind::Halt)
    } else if c == 2 {
        Some(InstrKind::LdRegReg)
    } else if c == 3 {
        Some(InstrKind::LdRegImm)
    } else if c == 4 {
        Some(InstrKind::LdRegMem)
    } else if c == 5 {
        Some(InstrKind::LdMemReg)
    } else if c == 6 {
        Some(InstrKind::LdMemHLImm)
    } else if c == 7 {
        Some(InstrKind::AddRegReg)
    } else if c == 8 {
        Some(InstrKind::AddRegImm)
    } else if c == 9 {
        Some(InstrKind::AddMemReg)
    } else if c == 10 {
        Some(InstrKind::AddWRegWReg)
    } else if c == 11 {
        Some(InstrKind::AddWRegImm)
    } else if c == 12 {
        Some(InstrKind::AdcRegReg)
    } else if c == 13 {
        Some(InstrKind::AdcRegImm)
    } else if c == 14 {
        Some(InstrKind::AdcMemReg)
    } else if c == 15 {
        Some(InstrKind::SubReg)
    } else if c == 16 {
        Some(InstrKind::SubImm)
    } else if c == 17 {
        Some(InstrKind::SubMem)
    } else if c == 18 {
        Some(InstrKind::SbcReg)
    } else if c == 19 {
        Some(InstrKind::SbcImm)
    } else if c == 20 {
        Some(InstrKind::SbcMem)
    } else if c == 21 {
        Some(InstrKind::AndReg)
    } else if c == 22 {
        Some(InstrKind::AndImm)
    } else if c == 23 {
        Some(InstrKind::AndMem)
    } else if c == 24 {
        Some(InstrKind::XorReg)
    } else if c == 25 {
        Some(InstrKind::XorImm)
    } else if c == 26 {
        Some(InstrKind::XorMem)
    } else if c == 27 {
        Some(InstrKind::OrReg)
    } else if c == 28 {
        Some(InstrKind::OrImm)
    } else if c == 29 {
        Some(InstrKind::OrMem)
    } else if c == 30 {
        Some(InstrKind::IncReg)
    } else if c == 31 {
        Some(InstrKind::IncWReg)
    } else if c == 32 {
        Some(InstrKind::IncMem)
    } else if c == 33 {
        Some(InstrKind::DecReg)
    } else if c == 34 {
        Some(InstrKind::DecWReg)
    } else if c == 35 {
        Some(InstrKind::DecMem)
    } else if c == 36 {
        Some(InstrKind::CpReg)
    } else if c == 37 {
        Some(InstrKind::CpImm)
    } else if c == 38 {
        Some(InstrKind::CpMem)
    } else if c == 39 {
        Some(InstrKind::Nop)
    } else if c == 40 {
        Some(InstrKind::LdWRegImm)
    } else if c == 41 {
        Some(InstrKind::LdMemImmReg)
    } else if c == 42 {
        Some(InstrKind::Push)
    } else if c == 43 {
        Some(InstrKind::Pop)
    } else if c == 44 {
        Some(InstrKind::AddSPImm)
    } else if c == 45 {
        Some(InstrKind::JPImm)
    } else if c == 46 {
        Some(InstrKind::JPCond)
    } else if c == 47 {
        Some(InstrKind::JPReg)
    } else if c == 48 {
        Some(InstrKind::JRelImm)
    } else if c == 49 {
        Some(InstrKind::JRelCond)
    } else if c == 50 {
        Some(InstrKind::Rst)
    } else if c == 51 {
        Some(InstrKind::RlcA)
    } else if c == 52 {
        Some(InstrKind::RlA)
    } else if c == 53 {
        Some(InstrKind::RrcA)
    } else if c == 54 {
        Some(InstrKind::RrA)
    } else if c == 55 {
        Some(InstrKind::RlcReg)
    } else if c == 56 {
        Some(InstrKind::RlcMem)
    } else if c == 57 {
        Some(InstrKind::RrcReg)
    } else if c == 58 {
        Some(InstrKind::RrcMem)
    } else if c == 59 {
        Some(InstrKind::RlReg)
    } else if c == 60 {
        Some(InstrKind::RlMem)
    } else if c == 61 {
        Some(InstrKind::RrReg)
    } else if c == 62 {
        Some(InstrKind::RrMem)
    } else if c == 63 {
        Some(InstrKind::SlaReg)
    } else if c == 64 {
        Some(InstrKind::SlaMem)
    } else if c == 65 {
        Some(InstrKind::SraReg)
    } else if c == 66 {
        Some(InstrKind::SraMem)
    } else if c == 67 {
        Some(InstrKind::SwapReg)
    } else if c == 68 {
        Some(InstrKind::SwapMem)
    } else if c == 69 {
        Some(InstrKind::SrlReg)
    } else if c == 70 {
        Some(InstrKind::SrlMem)
    } else if c == 71 {
        Some(InstrKind::BitReg)
    } else if c == 72 {
        Some(InstrKind::BitMem)
    } else if c == 73 {
        Some(InstrKind::ResReg)
    } else if c == 74 {
        Some(InstrKind::ResMem)
    } else if c == 75 {
        Some(InstrKind::SetReg)
    } else if c == 76 {
        Some(InstrKind::SetMem)
    } else if c == 77 {
        Some(InstrKind::Ret)
    } else if c == 78 {
        Some(InstrKind::RetCond)
    } else if c == 79 {
        Some(InstrKind::Reti)
    } else if c == 80 {
        Some(InstrKind::Prefix)
    } else {
        None
    }
}

impl InstrKind {
    /// The kind of a kind-table code.
    pub fn from_u8(value: u8) -> (r: Self)
        requires
            is_kind_code(value),
        ensures
            kind_code(r) == value,
            kind_of_code(value) == Some(r),
    {
        match value {
            1 => InstrKind::Halt,
            2 => InstrKind::LdRegReg,
            3 => InstrKind::LdRegImm,
            4 => InstrKind::LdRegMem,
            5 => InstrKind::LdMemReg,
            6 => InstrKind::LdMemHLImm,
            7 => InstrKind::AddRegReg,
            8 => InstrKind::AddRegImm,
            9 => InstrKind::AddMemReg,
            10 => InstrKind::AddWRegWReg,
            11 => InstrKind::AddWRegImm,
            12 => InstrKind::AdcRegReg,
            13 => InstrKind::AdcRegImm,
            14 => InstrKind::AdcMemReg,
            15 => InstrKind::SubReg,
            16 => InstrKind::SubImm,
            17 => InstrKind::SubMem,
            18 => InstrKind::SbcReg,
            19 => InstrKind::SbcImm,
            20 => InstrKind::SbcMem,
            21 => InstrKind::AndReg,
            22 => InstrKind::AndImm,
            23 => InstrKind::AndMem,
            24 => InstrKind::XorReg,
            25 => InstrKind::XorImm,
            26 => InstrKind::XorMem,
            27 => InstrKind::OrReg,
            28 => InstrKind::OrImm,
            29 => InstrKind::OrMem,
            30 => InstrKind::IncReg,
            31 => InstrKind::IncWReg,
            32 => InstrKind::IncMem,
            33 => InstrKind::DecReg,
            34 => InstrKind::DecWReg,
            35 => InstrKind::DecMem,
            36 => InstrKind::CpReg,
            37 => InstrKind::CpImm,
            38 => InstrKind::CpMem,
            39 => InstrKind::Nop,
            40 => InstrKind::LdWRegImm,
            41 => InstrKind::LdMemImmReg,
            42 => InstrKind::Push,
            43 => InstrKind::Pop,
            44 => InstrKind::AddSPImm,
            45 => InstrKind::JPImm,
            46 => InstrKind::JPCond,
            47 => InstrKind::JPReg,
            48 => InstrKind::JRelImm,
            49 => InstrKind::JRelCond,
            50 => InstrKind::Rst,
            51 => InstrKind::RlcA,
            52 => InstrKind::RlA,
            53 => InstrKind::RrcA,
            54 => InstrKind::RrA,
            55 => InstrKind::RlcReg,
            56 => InstrKind::RlcMem,
            57 => InstrKind::RrcReg,
            58 => InstrKind::RrcMem,
            59 => InstrKind::RlReg,
            60 => InstrKind::RlMem,
            61 => InstrKind::RrReg,
            62 => InstrKind::RrMem,
            63 => InstrKind::SlaReg,
            64 => InstrKind::SlaMem,
            65 => InstrKind::SraReg,
            66 => InstrKind::SraMem,
            67 => InstrKind::SwapReg,
            68 => InstrKind::SwapMem,
            69 => InstrKind::SrlReg,
            70 => InstrKind::SrlMem,
            71 => InstrKind::BitReg,
            72 => InstrKind::BitMem,
            73 => InstrKind::ResReg,
            74 => InstrKind::ResMem,
            75 => InstrKind::SetReg,
            76 => InstrKind::SetMem,
            77 => InstrKind::Ret,
            78 => InstrKind::RetCond,
            79 => InstrKind::Reti,
            _ => InstrKind::Prefix,
        }
    }
}

/// Decodes a kind-table code.
pub fn kind_operand(c: u8) -> (r: Option<InstrKind>)
    ensures
        r == kind_of_code(c),
{
    if 1 <= c && c <= 80 {
        Some(InstrKind::from_u8(c))
    } else {
        None
    }
}

/// Instruction kind of each opcode; 0 marks an unassigned opcode.
pub const BASE_KIND: [u8; 256] = [
     39,  40,   4,  31,  30,  33,   3,   0,  41,  10,   5,  34,  30,  33,   3,   0,
      0,  40,   4,  31,  30,  33,   3,   0,  48,  10,   5,  34,  30,  33,   3,   0,
     49,  40,   4,  31,  30,  33,   3,   0,  49,  10,   5,  34,  30,  33,   3,   0,
     49,  40,   4,  31,  32,  35,   6,   0,  49,  10,   5,  34,  30,  33,   3,   0,
      2,   2,   2,   2,   2,   2,   5,   2,   2,   2,   2,   2,   2,   2,   5,   2,
      2,   2,   2,   2,   2,   2,   5,   2,   2,   2,   2,   2,   2,   2,   5,   2,
      2,   2,   2,   2,   2,   2,   5,   2,   2,   2,   2,   2,   2,   2,   5,   2,
      4,   4,   4,   4,   4,   4,   1,   4,   2,   2,   2,   2,   2,   2,   5,   2,
      7,   7,   7,   7,   7,   7,   9,   7,  12,  12,  12,  12,  12,  12,  14,  12,
     15,  15,  15,  15,  15,  15,  17,  15,  18,  18,  18,  18,  18,  18,  20,  18,
     21,  21,  21,  21,  21,  21,  23,  21,  24,  24,  24,  24,  24,  24,  26,  24,
     27,  27,  27,  27,  27,  27,  29,  27,  36,  36,  36,  36,  36,  36,  38,  36,
      0,  43,  46,  45,   0,  42,   8,  50,   0,   0,  46,  80,   0,   0,  13,  50,
      0,  43,  46,   0,   0,  42,  16,  50,   0,   0,  46,   0,   0,   0,  19,  50,
      0,  43,   0,   0,   0,  42,  22,  50,  11,  47,  41,   0,   0,   0,  25,  50,
      0,  43,   0,   0,   0,  42,  28,  50,   0,   0,   0,   0,   0,   0,  37,  50,
];

/// Source operand of each opcode: a register or addressing-mode code, a
/// condition mask, or a restart vector plus one; 0 when none is encoded.
pub const BASE_SRC: [u8; 256] = [
      0,   0,   1,   0,   0,   0,   0,   0,   9,   3,  13,   0,   0,   0,   0,   0,
      0,   0,   1,   0,   0,   0,   0,   0,   0,   5,  14,   0,   0,   0,   0,   0,
    192,   0,   1,   0,   0,   0,   0,   0, 128,   7,  11,   0,   0,   0,   0,   0,
     80,   0,   1,   0,   0,   0,   0,   0,  16,   9,  12,   0,   0,   0,   0,   0,
      3,   4,   5,   6,   7,   8,  10,   1,   3,   4,   5,   6,   7,   8,  10,   1,
      3,   4,   5,   6,   7,   8,  10,   1,   3,   4,   5,   6,   7,   8,  10,   1,
      3,   4,   5,   6,   7,   8,  10,   1,   3,   4,   5,   6,   7,   8,  10,   1,
      3,   4,   5,   6,   7,   8,   0,   1,   3,   4,   5,   6,   7,   8,  10,   1,
      3,   4,   5,   6,   7,   8,  10,   1,   3,   4,   5,   6,   7,   8,  10,   1,
      3,   4,   5,   6,   7,   8,  10,   1,   3,   4,   5,   6,   7,   8,  10,   1,
      3,   4,   5,   6,   7,   8,  10,   1,   3,   4,   5,   6,   7,   8,  10,   1,
      3,   4,   5,   6,   7,   8,  10,   1,   3,   4,   5,   6,   7,   8,  10,   1,
      0,   0, 192,   0,   0,   3,   0,   1,   0,   0, 128,   0,   0,   0,   0,   9,
      0,   0,  80,   0,   0,   5,   0,  17,   0,   0,  16,   0,   0,   0,   0,  25,
      0,   0,   0,   0,   0,   7,   0,  33,   0,   7,   1,   0,   0,   0,   0,  41,
      0,   0,   0,   0,   0,   1,   0,  49,   0,   0,   0,   0,   0,   0,   0,  57,
];

/// Destination operand of each opcode: a register or addressing-mode code;
/// 0 when none is encoded.
pub const BASE_DST: [u8; 256] = [
      0,   3,  13,   3,   3,   3,   3,   0,   0,   7,   1,   3,   4,   4,   4,   0,
      0,   5,  14,   5,   5,   5,   5,   0,   0,   7,   1,   5,   6,   6,   6,   0,
      0,   7,  11,   7,   7,   7,   7,   0,   0,   7,   1,   7,   8,   8,   8,   0,
      0,   9,  12,   9,  10,  10,   0,   0,   0,   7,   1,   9,   1,   1,   1,   0,
      3,   3,   3,   3,   3,   3,   3,   3,   4,   4,   4,   4,   4,   4,   4,   4,
      5,   5,   5,   5,   5,   5,   5,   5,   6,   6,   6,   6,   6,   6,   6,   6,
      7,   7,   7,   7,   7,   7,   7,   7,   8,   8,   8,   8,   8,   8,   8,   8,
     10,  10,  10,  10,  10,  10,   0,  10,   1,   1,   1,   1,   1,   1,   1,   1,
      1,   1,   1,   1,   1,   1,   1,   1,   1,   1,   1,   1,   1,   1,   1,   1,
      0,   0,   0,   0,   0,   0,   0,   0,   0,   0,   0,   0,   0,   0,   0,   0,
      0,   0,   0,   0,   0,   0,   0,   0,   0,   0,   0,   0,   0,   0,   0,   0,
      0,   0,   0,   0,   0,   0,   0,   0,   0,   0,   0,   0,   0,   0,   0,   0,
      0,   3,   0,   0,   0,   0,   1,   0,   0,   0,   0,   0,   0,   0,   1,   0,
      0,   5,   0,   0,   0,   0,   0,   0,   0,   0,   0,   0,   0,   0,   0,   0,
      0,   7,   0,   0,   0,   0,   0,   0,   9,   0,   0,   0,   0,   0,   0,   0,
      0,   1,   0,   0,   0,   0,   0,   0,   0,   0,   0,   0,   0,   0,   0,   0,
];

/// Instruction kind of each opcode that follows the escape byte.
pub const EXT_KIND: [u8; 256] = [
     55,  55,  55,  55,  55,  55,  56,  55,  57,  57,  57,  57,  57,  57,  58,  57,
     59,  59,  59,  59,  59,  59,  60,  59,  61,  61,  61,  61,  61,  61,  62,  61,
     63,  63,  63,  63,  63,  63,  64,  63,  65,  65,  65,  65,  65,  65,  66,  65,
     67,  67,  67,  67,  67,  67,  68,  67,  69,  69,  69,  69,  69,  69,  70,  69,
     71,  71,  71,  71,  71,  71,  72,  71,  71,  71,  71,  71,  71,  71,  72,  71,
     71,  71,  71,  71,  71,  71,  72,  71,  71,  71,  71,  71,  71,  71,  72,  71,
     71,  71,  71,  71,  71,  71,  72,  71,  71,  71,  71,  71,  71,  71,  72,  71,
     71,  71,  71,  71,  71,  71,  72,  71,  71,  71,  71,  71,  71,  71,  72,  71,
     73,  73,  73,  73,  73,  73,  74,  73,  73,  73,  73,  73,  73,  73,  74,  73,
     73,  73,  73,  73,  73,  73,  74,  73,  73,  73,  73,  73,  73,  73,  74,  73,
     73,  73,  73,  73,  73,  73,  74,  73,  73,  73,  73,  73,  73,  73,  74,  73,
     73,  73,  73,  73,  73,  73,  74,  73,  73,  73,  73,  73,  73,  73,  74,  73,
     75,  75,  75,  75,  75,  75,  76,  75,  75,  75,  75,  75,  75,  75,  76,  75,
     75,  75,  75,  75,  75,  75,  76,  75,  75,  75,  75,  75,  75,  75,  76,  75,
     75,  75,  75,  75,  75,  75,  76,  75,  75,  75,  75,  75,  75,  75,  76,  75,
     75,  75,  75,  75,  75,  75,  76,  75,  75,  75,  75,  75,  75,  75,  76,  75,
];

/// Bit index plus one of each extended opcode that names a bit; 0 when none
/// is encoded.
pub const EXT_SRC: [u8; 256] = [
      0,   0,   0,   0,   0,   0,   0,   0,   0,   0,   0,   0,   0,   0,   0,   0,
      0,   0,   0,   0,   0,   0,   0,   0,   0,   0,   0,   0,   0,   0,   0,   0,
      0,   0,   0,   0,   0,   0,   0,   0,   0,   0,   0,   0,   0,   0,   0,   0,
      0,   0,   0,   0,   0,   0,   0,   0,   0,   0,   0,   0,   0,   0,   0,   0,
      1,   1,   1,   1,   1,   1,   1,   1,   2,   2,   2,   2,   2,   2,   2,   2,
      3,   3,   3,   3,   3,   3,   3,   3,   4,   4,   4,   4,   4,   4,   4,   4,
      5,   5,   5,   5,   5,   5,   5,   5,   6,   6,   6,   6,   6,   6,   6,   6,
      7,   7,   7,   7,   7,   7,   7,   7,   8,   8,   8,   8,   8,   8,   8,   8,
      1,   1,   1,   1,   1,   1,   1,   1,   2,   2,   2,   2,   2,   2,   2,   2,
      3,   3,   3,   3,   3,   3,   3,   3,   4,   4,   4,   4,   4,   4,   4,   4,
      5,   5,   5,   5,   5,   5,   5,   5,   6,   6,   6,   6,   6,   6,   6,   6,
      7,   7,   7,   7,   7,   7,   7,   7,   8,   8,   8,   8,   8,   8,   8,   8,
      1,   1,   1,   1,   1,   1,   1,   1,   2,   2,   2,   2,   2,   2,   2,   2,
      3,   3,   3,   3,   3,   3,   3,   3,   4,   4,   4,   4,   4,   4,   4,   4,
      5,   5,   5,   5,   5,   5,   5,   5,   6,   6,   6,   6,   6,   6,   6,   6,
      7,   7,   7,   7,   7,   7,   7,   7,   8,   8,   8,   8,   8,   8,   8,   8,
];

/// Register or addressing-mode code of each extended opcode.
pub const EXT_DST: [u8; 256] = [
      3,   4,   5,   6,   7,   8,  10,   1,   3,   4,   5,   6,   7,   8,  10,   1,
      3,   4,   5,   6,   7,   8,  10,   1,   3,   4,   5,   6,   7,   8,  10,   1,
      3,   4,   5,   6,   7,   8,  10,   1,   3,   4,   5,   6,   7,   8,  10,   1,
      3,   4,   5,   6,   7,   8,  10,   1,   3,   4,   5,   6,   7,   8,  10,   1,
      3,   4,   5,   6,   7,   8,  10,   1,   3,   4,   5,   6,   7,   8,  10,   1,
      3,   4,   5,   6,   7,   8,  10,   1,   3,   4,   5,   6,   7,   8,  10,   1,
      3,   4,   5,   6,   7,   8,  10,   1,   3,   4,   5,   6,   7,   8,  10,   1,
      3,   4,   5,   6,   7,   8,  10,   1,   3,   4,   5,   6,   7,   8,  10,   1,
      3,   4,   5,   6,   7,   8,  10,   1,   3,   4,   5,   6,   7,   8,  10,   1,
      3,   4,   5,   6,   7,   8,  10,   1,   3,   4,   5,   6,   7,   8,  10,   1,
      3,   4,   5,   6,   7,   8,  10,   1,   3,   4,   5,   6,   7,   8,  10,   1,
      3,   4,   5,   6,   7,   8,  10,   1,   3,   4,   5,   6,   7,   8,  10,   1,
      3,   4,   5,   6,   7,   8,  10,   1,   3,   4,   5,   6,   7,   8,  10,   1,
      3,   4,   5,   6,   7,   8,  10,   1,   3,   4,   5,   6,   7,   8,  10,   1,
      3,   4,   5,   6,   7,   8,  10,   1,   3,   4,   5,   6,   7,   8,  10,   1,
      3,   4,   5,   6,   7,   8,  10,   1,   3,   4,   5,   6,   7,   8,  10,   1,
];

} // verus!
