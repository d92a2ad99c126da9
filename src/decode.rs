//! The instruction decoder: opcode-table lookup, operand resolution and
//! immediates, in the base space and behind the escape byte.
use vstd::prelude::*;
use crate::cpu::Cpu;
use crate::instr::Instr;
use crate::regs::{addr_of_code, addr_operand, reg_of_code, reg_operand};
use crate::tables::{
    kind_of_code, kind_operand, InstrKind, BASE_DST, BASE_KIND, BASE_SRC, EXT_DST, EXT_KIND,
    EXT_SRC,
};

verus! {

/// The number of immediate bytes that follow the opcode of kind `k`.
pub open spec fn imm_len(k: InstrKind) -> int {
    match k {
        InstrKind::LdRegImm
        | InstrKind::LdMemHLImm
        | InstrKind::AddRegImm
        | InstrKind::AddWRegImm
        | InstrKind::AdcRegImm
        | InstrKind::SubImm
        | InstrKind::SbcImm
        | InstrKind::AndImm
        | InstrKind::XorImm
        | InstrKind::OrImm
        | InstrKind::CpImm
        | InstrKind::JRelImm
        | InstrKind::JRelCond => 1,
        InstrKind::LdWRegImm
        | InstrKind::LdMemImmReg
        | InstrKind::JPImm
        | InstrKind::JPCond => 2,
        _ => 0,
    }
}

/// The instruction of kind `k` with source and destination codes `s` and
/// `d` and the immediates `imm8` and `imm16`; `None` where an operand the
/// kind needs is not encoded, or the kind has no instruction of its own.
pub open spec fn instr_of(k: InstrKind, s: u8, d: u8, imm8: u8, imm16: u16) -> Option<Instr> {
    match k {
        InstrKind::Nop => Some(Instr::Nop),
        InstrKind::Halt => Some(Instr::Halt),
        InstrKind::LdRegReg => match (reg_of_code(s), reg_of_code(d)) {
            (Some(src), Some(dst)) => Some(Instr::LdRegReg { src, dst }),
            _ => None,
        },
        InstrKind::LdRegImm => match reg_of_code(d) {
            Some(dst) => Some(Instr::LdRegImm { src: imm8, dst }),
            None => None,
        },
        InstrKind::LdRegMem => match (reg_of_code(s), addr_of_code(d)) {
            (Some(src), Some(dst)) => Some(Instr::LdRegMem { src, dst }),
            _ => None,
        },
        InstrKind::LdMemReg => match (addr_of_code(s), reg_of_code(d)) {
            (Some(src), Some(dst)) => Some(Instr::LdMemReg { src, dst }),
            _ => None,
        },
        InstrKind::LdMemHLImm => Some(Instr::LdMemHLImm { src: imm8 }),
        InstrKind::AddRegReg => match (reg_of_code(s), reg_of_code(d)) {
            (Some(src), Some(dst)) => Some(Instr::AddRegReg { src, dst }),
            _ => None,
        },
        InstrKind::AddRegImm => match reg_of_code(d) {
            Some(dst) => Some(Instr::AddRegImm { src: imm8, dst }),
            None => None,
        },
        InstrKind::AddMemReg => match (addr_of_code(s), reg_of_code(d)) {
            (Some(src), Some(dst)) => Some(Instr::AddMemReg { src, dst }),
            _ => None,
        },
        InstrKind::AddWRegWReg => match (reg_of_code(s), reg_of_code(d)) {
            (Some(src), Some(dst)) => Some(Instr::AddWRegWReg { src, dst }),
            _ => None,
        },
        InstrKind::AddWRegImm => match reg_of_code(d) {
            Some(dst) => Some(Instr::AddWRegImm { src: imm8, dst }),
            None => None,
        },
        InstrKind::AdcRegReg => match (reg_of_code(s), reg_of_code(d)) {
            (Some(src), Some(dst)) => Some(Instr::AdcRegReg { src, dst }),
            _ => None,
        },
        InstrKind::AdcRegImm => match reg_of_code(d) {
            Some(dst) => Some(Instr::AdcRegImm { src: imm8, dst }),
            None => None,
        },
        InstrKind::AdcMemReg => match (addr_of_code(s), reg_of_code(d)) {
            (Some(src), Some(dst)) => Some(Instr::AdcMemReg { src, dst }),
            _ => None,
        },
        InstrKind::SubReg => match reg_of_code(s) {
            Some(src) => Some(Instr::SubReg { src }),
            None => None,
        },
        InstrKind::SubImm => Some(Instr::SubImm { src: imm8 }),
        InstrKind::SubMem => match addr_of_code(s) {
            Some(src) => Some(Instr::SubMem { src }),
            None => None,
        },
        InstrKind::SbcReg => match reg_of_code(s) {
            Some(src) => Some(Instr::SbcReg { src }),
            None => None,
        },
        InstrKind::SbcImm => Some(Instr::SbcImm { src: imm8 }),
        InstrKind::SbcMem => match addr_of_code(s) {
            Some(src) => Some(Instr::SbcMem { src }),
            None => None,
        },
        InstrKind::AndReg => match reg_of_code(s) {
            Some(src) => Some(Instr::AndReg { src }),
            None => None,
        },
        InstrKind::AndImm => Some(Instr::AndImm { src: imm8 }),
        InstrKind::AndMem => match addr_of_code(s) {
            Some(src) => Some(Instr::AndMem { src }),
            None => None,
        },
        InstrKind::XorReg => match reg_of_code(s) {
            Some(src) => Some(Instr::XorReg { src }),
            None => None,
        },
        InstrKind::XorImm => Some(Instr::XorImm { src: imm8 }),
        InstrKind::XorMem => match addr_of_code(s) {
            Some(src) => Some(Instr::XorMem { src }),
            None => None,
        },
        InstrKind::OrReg => match reg_of_code(s) {
            Some(src) => Some(Instr::OrReg { src }),
            None => None,
        },
        InstrKind::OrImm => Some(Instr::OrImm { src: imm8 }),
        InstrKind::OrMem => match addr_of_code(s) {
            Some(src) => Some(Instr::OrMem { src }),
            None => None,
        },
        InstrKind::IncReg => match reg_of_code(d) {
            Some(dst) => Some(Instr::IncReg { dst }),
            None => None,
        },
        InstrKind::IncWReg => match reg_of_code(d) {
            Some(dst) => Some(Instr::IncWReg { dst }),
            None => None,
        },
        InstrKind::IncMem => match addr_of_code(d) {
            Some(dst) => Some(Instr::IncMem { dst }),
            None => None,
        },
        InstrKind::DecReg => match reg_of_code(d) {
            Some(dst) => Some(Instr::DecReg { dst }),
            None => None,
        },
        InstrKind::DecWReg => match reg_of_code(d) {
            Some(dst) => Some(Instr::DecWReg { dst }),
            None => None,
        },
        InstrKind::DecMem => match addr_of_code(d) {
            Some(dst) => Some(Instr::DecMem { dst }),
            None => None,
        },
        InstrKind::CpReg => match reg_of_code(s) {
            Some(src) => Some(Instr::CpReg { src }),
            None => None,
        },
        InstrKind::CpImm => Some(Instr::CpImm { src: imm8 }),
        InstrKind::CpMem => match addr_of_code(s) {
            Some(src) => Some(Instr::CpMem { src }),
            None => None,
        },
        InstrKind::LdWRegImm => match reg_of_code(d) {
            Some(dst) => Some(Instr::LdWRegImm { src: imm16, dst }),
            None => None,
        },
        InstrKind::LdMemImmReg => match reg_of_code(s) {
            Some(src) => Some(Instr::LdMemImmReg { src, dst: imm16 }),
            None => None,
        },
        InstrKind::Push => match reg_of_code(s) {
            Some(src) => Some(Instr::Push { src }),
            None => None,
        },
        InstrKind::Pop => match reg_of_code(d) {
            Some(dst) => Some(Instr::Pop { dst }),
            None => None,
        },
        InstrKind::JPImm => Some(Instr::JPImm { addr: imm16 }),
        InstrKind::JPCond => if s != 0 {
            Some(Instr::JPCond { cond: s, addr: imm16 })
        } else {
            None
        },
        InstrKind::JPReg => match reg_of_code(s) {
            Some(src) => Some(Instr::JPReg { src }),
            None => None,
        },
        InstrKind::JRelImm => Some(Instr::JRelImm { offset: imm8 }),
        InstrKind::JRelCond => if s != 0 {
            Some(Instr::JRelCond { cond: s, offset: imm8 })
        } else {
            None
        },
        InstrKind::Rst => if s != 0 {
            Some(Instr::Rst { addr: (s - 1) as u8 })
        } else {
            None
        },
        InstrKind::RlcReg => match reg_of_code(d) {
            Some(reg) => Some(Instr::RlcReg { reg }),
            None => None,
        },
        InstrKind::RlcMem => match addr_of_code(d) {
            Some(reg) => Some(Instr::RlcMem { reg }),
            None => None,
        },
        InstrKind::RrcReg => match reg_of_code(d) {
            Some(reg) => Some(Instr::RrcReg { reg }),
            None => None,
        },
        InstrKind::RrcMem => match addr_of_code(d) {
            Some(reg) => Some(Instr::RrcMem { reg }),
            None => None,
        },
        InstrKind::RlReg => match reg_of_code(d) {
            Some(reg) => Some(Instr::RlReg { reg }),
            None => None,
        },
        InstrKind::RlMem => match addr_of_code(d) {
            Some(reg) => Some(Instr::RlMem { reg }),
            None => None,
        },
        InstrKind::RrReg => match reg_of_code(d) {
            Some(reg) => Some(Instr::RrReg { reg }),
            None => None,
        },
        InstrKind::RrMem => match addr_of_code(d) {
            Some(reg) => Some(Instr::RrMem { reg }),
            None => None,
        },
        InstrKind::SlaReg => match reg_of_code(d) {
            Some(reg) => Some(Instr::SlaReg { reg }),
            None => None,
        },
        InstrKind::SlaMem => match addr_of_code(d) {
            Some(reg) => Some(Instr::SlaMem { reg }),
            None => None,
        },
        InstrKind::SraReg => match reg_of_code(d) {
            Some(reg) => Some(Instr::SraReg { reg }),
            None => None,
        },
        InstrKind::SraMem => match addr_of_code(d) {
            Some(reg) => Some(Instr::SraMem { reg }),
            None => None,
        },
        InstrKind::SwapReg => match reg_of_code(d) {
            Some(reg) => Some(Instr::SwapReg { reg }),
            None => None,
        },
        InstrKind::SwapMem => match addr_of_code(d) {
            Some(reg) => Some(Instr::SwapMem { reg }),
            None => None,
        },
        InstrKind::SrlReg => match reg_of_code(d) {
            Some(reg) => Some(Instr::SrlReg { reg }),
            None => None,
        },
        InstrKind::SrlMem => match addr_of_code(d) {
            Some(reg) => Some(Instr::SrlMem { reg }),
            None => None,
        },
        InstrKind::BitReg => match reg_of_code(d) {
            Some(reg) => if 1 <= s <= 8 {
                Some(Instr::BitReg { reg, bit: (s - 1) as u8 })
            } else {
                None
            },
            None => None,
        },
        InstrKind::BitMem => match addr_of_code(d) {
            Some(reg) => if 1 <= s <= 8 {
                Some(Instr::BitMem { reg, bit: (s - 1) as u8 })
            } else {
                None
            },
            None => None,
        },
        InstrKind::ResReg => match reg_of_code(d) {
            Some(reg) => if 1 <= s <= 8 {
                Some(Instr::ResReg { reg, bit: (s - 1) as u8 })
            } else {
                None
            },
            None => None,
        },
        InstrKind::ResMem => match addr_of_code(d) {
            Some(reg) => if 1 <= s <= 8 {
                Some(Instr::ResMem { reg, bit: (s - 1) as u8 })
            } else {
                None
            },
            None => None,
        },
        InstrKind::SetReg => match reg_of_code(d) {
            Some(reg) => if 1 <= s <= 8 {
                Some(Instr::SetReg { reg, bit: (s - 1) as u8 })
            } else {
                None
            },
            None => None,
        },
        InstrKind::SetMem => match addr_of_code(d) {
            Some(reg) => if 1 <= s <= 8 {
                Some(Instr::SetMem { reg, bit: (s - 1) as u8 })
            } else {
                None
            },
            None => None,
        },
        _ => None,
    }
}

/// The byte at `i`, or 0 past the end.
pub open spec fn byte_at(bytes: Seq<u8>, i: int) -> u8 {
    if 0 <= i < bytes.len() {
        bytes[i]
    } else {
        0
    }
}

/// The little-endian word at `i`.
pub open spec fn word_at(bytes: Seq<u8>, i: int) -> u16 {
    (byte_at(bytes, i) + 256 * byte_at(bytes, i + 1)) as u16
}

/// The instruction that starts at `pc` and its length, if it decodes: the
/// opcode names an assigned kind, its operands are encoded, and all its
/// bytes stand in `bytes` below the top of the 16-bit address space.
pub open spec fn decode_at(bytes: Seq<u8>, pc: int) -> Option<(Instr, int)> {
    if !(0 <= pc < bytes.len()) {
        None
    } else {
        let op = bytes[pc];
        match kind_of_code(BASE_KIND@[op as int]) {
            None => None,
            Some(InstrKind::Prefix) => {
                if pc + 2 > bytes.len() || pc + 2 > 0xffff {
                    None
                } else {
                    let x = bytes[pc + 1];
                    match kind_of_code(EXT_KIND@[x as int]) {
                        None => None,
                        Some(k) => match instr_of(k, EXT_SRC@[x as int], EXT_DST@[x as int], 0, 0) {
                            Some(i) => Some((i, 2)),
                            None => None,
                        },
                    }
                }
            },
            Some(k) => {
                let len = 1 + imm_len(k);
                if pc + len > bytes.len() || pc + len > 0xffff {
                    None
                } else {
                    match instr_of(
                        k,
                        BASE_SRC@[op as int],
                        BASE_DST@[op as int],
                        byte_at(bytes, pc + 1),
                        word_at(bytes, pc + 1),
                    ) {
                        Some(i) => Some((i, len)),
                        None => None,
                    }
                }
            },
        }
    }
}

/// Base opcode `op`, when assigned, resolves whatever its immediates are.
pub open spec fn base_entry_resolves(op: int) -> bool {
    BASE_KIND@[op] != 0 ==> match kind_of_code(BASE_KIND@[op]) {
        Some(InstrKind::Prefix) => true,
        Some(k) => instr_of(k, BASE_SRC@[op], BASE_DST@[op], 0, 0) is Some,
        None => false,
    }
}

/// Extended opcode `x` resolves.
pub open spec fn ext_entry_resolves(x: int) -> bool {
    match kind_of_code(EXT_KIND@[x]) {
        Some(k) => instr_of(k, EXT_SRC@[x], EXT_DST@[x], 0, 0) is Some,
        None => false,
    }
}

/// All the entries of both tables from `i` up to `end` resolve.
spec fn entries_resolve(i: int, end: int) -> bool
    decreases end - i,
{
    if i >= end {
        true
    } else {
        base_entry_resolves(i) && ext_entry_resolves(i) && entries_resolve(i + 1, end)
    }
}

proof fn lemma_entries_resolve(i: int, j: int, end: int)
    requires
        0 <= i <= j < end,
        entries_resolve(i, end),
    ensures
        base_entry_resolves(j),
        ext_entry_resolves(j),
    decreases j - i,
{
    if i < j {
        lemma_entries_resolve(i + 1, j, end);
    }
}

proof fn lemma_entries_resolve_000()
    ensures
        entries_resolve(0, 16),
{
    reveal_with_fuel(entries_resolve, 17);
}

proof fn lemma_entries_resolve_016()
    ensures
        entries_resolve(16, 32),
{
    reveal_with_fuel(entries_resolve, 17);
}

proof fn lemma_entries_resolve_032()
    ensures
        entries_resolve(32, 48),
{
    reveal_with_fuel(entries_resolve, 17);
}

proof fn lemma_entries_resolve_048()
    ensures
        entries_resolve(48, 64),
{
    reveal_with_fuel(entries_resolve, 17);
}

proof fn lemma_entries_resolve_064()
    ensures
        entries_resolve(64, 80),
{
    reveal_with_fuel(entries_resolve, 17);
}

proof fn lemma_entries_resolve_080()
    ensures
        entries_resolve(80, 96),
{
    reveal_with_fuel(entries_resolve, 17);
}

proof fn lemma_entries_resolve_096()
    ensures
        entries_resolve(96, 112),
{
    reveal_with_fuel(entries_resolve, 17);
}

proof fn lemma_entries_resolve_112()
    ensures
        entries_resolve(112, 128),
{
    reveal_with_fuel(entries_resolve, 17);
}

proof fn lemma_entries_resolve_128()
    ensures
        entries_resolve(128, 144),
{
    reveal_with_fuel(entries_resolve, 17);
}

proof fn lemma_entries_resolve_144()
    ensures
        entries_resolve(144, 160),
{
    reveal_with_fuel(entries_resolve, 17);
}

proof fn lemma_entries_resolve_160()
    ensures
        entries_resolve(160, 176),
{
    reveal_with_fuel(entries_resolve, 17);
}

proof fn lemma_entries_resolve_176()
    ensures
        entries_resolve(176, 192),
{
    reveal_with_fuel(entries_resolve, 17);
}

proof fn lemma_entries_resolve_192()
    ensures
        entries_resolve(192, 208),
{
    reveal_with_fuel(entries_resolve, 17);
}

proof fn lemma_entries_resolve_208()
    ensures
        entries_resolve(208, 224),
{
    reveal_with_fuel(entries_resolve, 17);
}

proof fn lemma_entries_resolve_224()
    ensures
        entries_resolve(224, 240),
{
    reveal_with_fuel(entries_resolve, 17);
}

proof fn lemma_entries_resolve_240()
    ensures
        entries_resolve(240, 256),
{
    reveal_with_fuel(entries_resolve, 17);
}

/// Every entry of the opcode tables resolves.
proof fn lemma_tables_resolve()
    ensures
        forall|j: int| 0 <= j < 256 ==> base_entry_resolves(j) && ext_entry_resolves(j),
{
    lemma_entries_resolve_000();
    lemma_entries_resolve_016();
    lemma_entries_resolve_032();
    lemma_entries_resolve_048();
    lemma_entries_resolve_064();
    lemma_entries_resolve_080();
    lemma_entries_resolve_096();
    lemma_entries_resolve_112();
    lemma_entries_resolve_128();
    lemma_entries_resolve_144();
    lemma_entries_resolve_160();
    lemma_entries_resolve_176();
    lemma_entries_resolve_192();
    lemma_entries_resolve_208();
    lemma_entries_resolve_224();
    lemma_entries_resolve_240();
    assert forall|j: int| 0 <= j < 256 implies base_entry_resolves(j) && ext_entry_resolves(
        j,
    ) by {
        let k = j - j % 16;
        lemma_entries_resolve(k, j, k + 16);
    }
}

/// Whether an instruction resolves does not depend on its immediates.
proof fn lemma_immediates_irrelevant(k: InstrKind, s: u8, d: u8, imm8: u8, imm16: u16)
    requires
        instr_of(k, s, d, 0, 0) is Some,
    ensures
        instr_of(k, s, d, imm8, imm16) is Some,
{
}

/// The number of bytes an instruction with opcode `op` takes: the opcode,
/// then its immediates or the extended opcode.
pub open spec fn opcode_len(op: u8) -> int {
    match kind_of_code(BASE_KIND@[op as int]) {
        Some(InstrKind::Prefix) => 2,
        Some(k) => 1 + imm_len(k),
        None => 1,
    }
}

/// Every opcode that the base kind table assigns decodes without fault,
/// followed by the bytes of its immediates or of its extended opcode.
pub proof fn lemma_assigned_opcodes_decode(bytes: Seq<u8>)
    requires
        bytes.len() >= 1,
        BASE_KIND@[bytes[0] as int] != 0,
        bytes.len() >= opcode_len(bytes[0]),
    ensures
        decode_at(bytes, 0) is Some,
{
    lemma_tables_resolve();
    let op = bytes[0];
    assert(base_entry_resolves(op as int));
    match kind_of_code(BASE_KIND@[op as int]) {
        Some(InstrKind::Prefix) => {
            assert(ext_entry_resolves(bytes[1] as int));
        },
        Some(k) => {
            lemma_immediates_irrelevant(
                k,
                BASE_SRC@[op as int],
                BASE_DST@[op as int],
                byte_at(bytes, 1),
                word_at(bytes, 1),
            );
        },
        None => {},
    }
}

/// The number of immediate bytes of kind `k`.
fn imm_count(k: InstrKind) -> (r: usize)
    ensures
        r == imm_len(k),
{
    match k {
        InstrKind::LdRegImm
        | InstrKind::LdMemHLImm
        | InstrKind::AddRegImm
        | InstrKind::AddWRegImm
        | InstrKind::AdcRegImm
        | InstrKind::SubImm
        | InstrKind::SbcImm
        | InstrKind::AndImm
        | InstrKind::XorImm
        | InstrKind::OrImm
        | InstrKind::CpImm
        | InstrKind::JRelImm
        | InstrKind::JRelCond => 1,
        InstrKind::LdWRegImm
        | InstrKind::LdMemImmReg
        | InstrKind::JPImm
        | InstrKind::JPCond => 2,
        _ => 0,
    }
}

/// Builds the instruction of kind `k` from its operand codes and immediates.
fn build_instr(k: InstrKind, s: u8, d: u8, imm8: u8, imm16: u16) -> (r: Option<Instr>)
    ensures
        r == instr_of(k, s, d, imm8, imm16),
{
    match k {
        InstrKind::Nop => Some(Instr::Nop),
        InstrKind::Halt => Some(Instr::Halt),
        InstrKind::LdRegReg => match (reg_operand(s), reg_operand(d)) {
            (Some(src), Some(dst)) => Some(Instr::LdRegReg { src, dst }),
            _ => None,
        },
        InstrKind::LdRegImm => match reg_operand(d) {
            Some(dst) => Some(Instr::LdRegImm { src: imm8, dst }),
            None => None,
        },
        InstrKind::LdRegMem => match (reg_operand(s), addr_operand(d)) {
            (Some(src), Some(dst)) => Some(Instr::LdRegMem { src, dst }),
            _ => None,
        },
        InstrKind::LdMemReg => match (addr_operand(s), reg_operand(d)) {
            (Some(src), Some(dst)) => Some(Instr::LdMemReg { src, dst }),
            _ => None,
        },
        InstrKind::LdMemHLImm => Some(Instr::LdMemHLImm { src: imm8 }),
        InstrKind::AddRegReg => match (reg_operand(s), reg_operand(d)) {
            (Some(src), Some(dst)) => Some(Instr::AddRegReg { src, dst }),
            _ => None,
        },
        InstrKind::AddRegImm => match reg_operand(d) {
            Some(dst) => Some(Instr::AddRegImm { src: imm8, dst }),
            None => None,
        },
        InstrKind::AddMemReg => match (addr_operand(s), reg_operand(d)) {
            (Some(src), Some(dst)) => Some(Instr::AddMemReg { src, dst }),
            _ => None,
        },
        InstrKind::AddWRegWReg => match (reg_operand(s), reg_operand(d)) {
            (Some(src), Some(dst)) => Some(Instr::AddWRegWReg { src, dst }),
            _ => None,
        },
        InstrKind::AddWRegImm => match reg_operand(d) {
            Some(dst) => Some(Instr::AddWRegImm { src: imm8, dst }),
            None => None,
        },
        InstrKind::AdcRegReg => match (reg_operand(s), reg_operand(d)) {
            (Some(src), Some(dst)) => Some(Instr::AdcRegReg { src, dst }),
            _ => None,
        },
        InstrKind::AdcRegImm => match reg_operand(d) {
            Some(dst) => Some(Instr::AdcRegImm { src: imm8, dst }),
            None => None,
        },
        InstrKind::AdcMemReg => match (addr_operand(s), reg_operand(d)) {
            (Some(src), Some(dst)) => Some(Instr::AdcMemReg { src, dst }),
            _ => None,
        },
        InstrKind::SubReg => match reg_operand(s) {
            Some(src) => Some(Instr::SubReg { src }),
            None => None,
        },
        InstrKind::SubImm => Some(Instr::SubImm { src: imm8 }),
        InstrKind::SubMem => match addr_operand(s) {
            Some(src) => Some(Instr::SubMem { src }),
            None => None,
        },
        InstrKind::SbcReg => match reg_operand(s) {
            Some(src) => Some(Instr::SbcReg { src }),
            None => None,
        },
        InstrKind::SbcImm => Some(Instr::SbcImm { src: imm8 }),
        InstrKind::SbcMem => match addr_operand(s) {
            Some(src) => Some(Instr::SbcMem { src }),
            None => None,
        },
        InstrKind::AndReg => match reg_operand(s) {
            Some(src) => Some(Instr::AndReg { src }),
            None => None,
        },
        InstrKind::AndImm => Some(Instr::AndImm { src: imm8 }),
        InstrKind::AndMem => match addr_operand(s) {
            Some(src) => Some(Instr::AndMem { src }),
            None => None,
        },
        InstrKind::XorReg => match reg_operand(s) {
            Some(src) => Some(Instr::XorReg { src }),
            None => None,
        },
        InstrKind::XorImm => Some(Instr::XorImm { src: imm8 }),
        InstrKind::XorMem => match addr_operand(s) {
            Some(src) => Some(Instr::XorMem { src }),
            None => None,
        },
        InstrKind::OrReg => match reg_operand(s) {
            Some(src) => Some(Instr::OrReg { src }),
            None => None,
        },
        InstrKind::OrImm => Some(Instr::OrImm { src: imm8 }),
        InstrKind::OrMem => match addr_operand(s) {
            Some(src) => Some(Instr::OrMem { src }),
            None => None,
        },
        InstrKind::IncReg => match reg_operand(d) {
            Some(dst) => Some(Instr::IncReg { dst }),
            None => None,
        },
        InstrKind::IncWReg => match reg_operand(d) {
            Some(dst) => Some(Instr::IncWReg { dst }),
            None => None,
        },
        InstrKind::IncMem => match addr_operand(d) {
            Some(dst) => Some(Instr::IncMem { dst }),
            None => None,
        },
        InstrKind::DecReg => match reg_operand(d) {
            Some(dst) => Some(Instr::DecReg { dst }),
            None => None,
        },
        InstrKind::DecWReg => match reg_operand(d) {
            Some(dst) => Some(Instr::DecWReg { dst }),
            None => None,
        },
        InstrKind::DecMem => match addr_operand(d) {
            Some(dst) => Some(Instr::DecMem { dst }),
            None => None,
        },
        InstrKind::CpReg => match reg_operand(s) {
            Some(src) => Some(Instr::CpReg { src }),
            None => None,
        },
        InstrKind::CpImm => Some(Instr::CpImm { src: imm8 }),
        InstrKind::CpMem => match addr_operand(s) {
            Some(src) => Some(Instr::CpMem { src }),
            None => None,
        },
        InstrKind::LdWRegImm => match reg_operand(d) {
            Some(dst) => Some(Instr::LdWRegImm { src: imm16, dst }),
            None => None,
        },
        InstrKind::LdMemImmReg => match reg_operand(s) {
            Some(src) => Some(Instr::LdMemImmReg { src, dst: imm16 }),
            None => None,
        },
        InstrKind::Push => match reg_operand(s) {
            Some(src) => Some(Instr::Push { src }),
            None => None,
        },
        InstrKind::Pop => match reg_operand(d) {
            Some(dst) => Some(Instr::Pop { dst }),
            None => None,
        },
        InstrKind::JPImm => Some(Instr::JPImm { addr: imm16 }),
        InstrKind::JPCond => if s != 0 {
            Some(Instr::JPCond { cond: s, addr: imm16 })
        } else {
            None
        },
        InstrKind::JPReg => match reg_operand(s) {
            Some(src) => Some(Instr::JPReg { src }),
            None => None,
        },
        InstrKind::JRelImm => Some(Instr::JRelImm { offset: imm8 }),
        InstrKind::JRelCond => if s != 0 {
            Some(Instr::JRelCond { cond: s, offset: imm8 })
        } else {
            None
        },
        InstrKind::Rst => if s != 0 {
            Some(Instr::Rst { addr: s - 1 })
        } else {
            None
        },
        InstrKind::RlcReg => match reg_operand(d) {
            Some(reg) => Some(Instr::RlcReg { reg }),
            None => None,
        },
        InstrKind::RlcMem => match addr_operand(d) {
            Some(reg) => Some(Instr::RlcMem { reg }),
            None => None,
        },
        InstrKind::RrcReg => match reg_operand(d) {
            Some(reg) => Some(Instr::RrcReg { reg }),
            None => None,
        },
        InstrKind::RrcMem => match addr_operand(d) {
            Some(reg) => Some(Instr::RrcMem { reg }),
            None => None,
        },
        InstrKind::RlReg => match reg_operand(d) {
            Some(reg) => Some(Instr::RlReg { reg }),
            None => None,
        },
        InstrKind::RlMem => match addr_operand(d) {
            Some(reg) => Some(Instr::RlMem { reg }),
            None => None,
        },
        InstrKind::RrReg => match reg_operand(d) {
            Some(reg) => Some(Instr::RrReg { reg }),
            None => None,
        },
        InstrKind::RrMem => match addr_operand(d) {
            Some(reg) => Some(Instr::RrMem { reg }),
            None => None,
        },
        InstrKind::SlaReg => match reg_operand(d) {
            Some(reg) => Some(Instr::SlaReg { reg }),
            None => None,
        },
        InstrKind::SlaMem => match addr_operand(d) {
            Some(reg) => Some(Instr::SlaMem { reg }),
            None => None,
        },
        InstrKind::SraReg => match reg_operand(d) {
            Some(reg) => Some(Instr::SraReg { reg }),
            None => None,
        },
        InstrKind::SraMem => match addr_operand(d) {
            Some(reg) => Some(Instr::SraMem { reg }),
            None => None,
        },
        InstrKind::SwapReg => match reg_operand(d) {
            Some(reg) => Some(Instr::SwapReg { reg }),
            None => None,
        },
        InstrKind::SwapMem => match addr_operand(d) {
            Some(reg) => Some(Instr::SwapMem { reg }),
            None => None,
        },
        InstrKind::SrlReg => match reg_operand(d) {
            Some(reg) => Some(Instr::SrlReg { reg }),
            None => None,
        },
        InstrKind::SrlMem => match addr_operand(d) {
            Some(reg) => Some(Instr::SrlMem { reg }),
            None => None,
        },
        InstrKind::BitReg => match reg_operand(d) {
            Some(reg) => if 1 <= s && s <= 8 {
                Some(Instr::BitReg { reg, bit: s - 1 })
            } else {
                None
            },
            None => None,
        },
        InstrKind::BitMem => match addr_operand(d) {
            Some(reg) => if 1 <= s && s <= 8 {
                Some(Instr::BitMem { reg, bit: s - 1 })
            } else {
                None
            },
            None => None,
        },
        InstrKind::ResReg => match reg_operand(d) {
            Some(reg) => if 1 <= s && s <= 8 {
                Some(Instr::ResReg { reg, bit: s - 1 })
            } else {
                None
            },
            None => None,
        },
        InstrKind::ResMem => match addr_operand(d) {
            Some(reg) => if 1 <= s && s <= 8 {
                Some(Instr::ResMem { reg, bit: s - 1 })
            } else {
                None
            },
            None => None,
        },
        InstrKind::SetReg => match reg_operand(d) {
            Some(reg) => if 1 <= s && s <= 8 {
                Some(Instr::SetReg { reg, bit: s - 1 })
            } else {
                None
            },
            None => None,
        },
        InstrKind::SetMem => match addr_operand(d) {
            Some(reg) => if 1 <= s && s <= 8 {
                Some(Instr::SetMem { reg, bit: s - 1 })
            } else {
                None
            },
            None => None,
        },
        _ => None,
    }
}

impl Cpu {
    /// Decodes the instruction at the program counter and moves the program
    /// counter past it. On a decode fault (unassigned opcode, operand not
    /// encoded, instruction cut off) nothing changes.
    pub fn decode(&mut self, instructions: &[u8]) -> (r: Option<Instr>)
        ensures
            match decode_at(instructions@, old(self)@.pc as int) {
                Some((i, len)) => r == Some(i) && final(self)@ == old(self)@.set_pc(
                    (old(self)@.pc + len) as u16,
                ),
                None => r is None && final(self)@ == old(self)@,
            },
    {
        let pc = self.pc();
        let start = pc as usize;
        let n = instructions.len();
        if start >= n {
            return None;
        }
        let op = instructions[start];
        let kind = match kind_operand(BASE_KIND[op as usize]) {
            Some(k) => k,
            None => {
                return None;
            },
        };
        if let InstrKind::Prefix = kind {
            if n - start < 2 || pc > 0xfffd {
                return None;
            }
            let x = instructions[start + 1];
            let ext = match kind_operand(EXT_KIND[x as usize]) {
                Some(k) => k,
                None => {
                    return None;
                },
            };
            let r = build_instr(ext, EXT_SRC[x as usize], EXT_DST[x as usize], 0, 0);
            if r.is_some() {
                self.set_pc(pc + 2);
            }
            return r;
        }
        let len = 1 + imm_count(kind);
        if n - start < len || pc as usize + len > 0xffff {
            return None;
        }
        let b1 = if n - start > 1 {
            instructions[start + 1]
        } else {
            0
        };
        let b2 = if n - start > 2 {
            instructions[start + 2]
        } else {
            0
        };
        let imm16 = b1 as u16 + 256 * (b2 as u16);
        let r = build_instr(kind, BASE_SRC[op as usize], BASE_DST[op as usize], b1, imm16);
        if r.is_some() {
            self.set_pc(pc + len as u16);
        }
        r
    }
}

} // verus!
