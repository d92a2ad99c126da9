use gbcpu::regs::{FLAG_C, FLAG_H, FLAG_N, FLAG_Z};
use gbcpu::tables::{BASE_KIND, EXT_KIND};
use gbcpu::{Addr, Cpu, Fault, Instr, MemHandler, MemRead, MemWrite, Mmu, Reg, RegAddr, StepOutcome};

#[test]
fn it_works() {
    let example_program = &[0x40, 0x50, 0x46];

    let mut cpu = Cpu::new();
    assert_eq!(
        cpu.decode(example_program.as_slice()),
        Some(Instr::LdRegReg { src: Reg::B, dst: Reg::B })
    );
    assert_eq!(
        cpu.decode(example_program.as_slice()),
        Some(Instr::LdRegReg { src: Reg::B, dst: Reg::D })
    );
    assert_eq!(
        cpu.decode(example_program.as_slice()),
        Some(Instr::LdMemReg { src: RegAddr::HL, dst: Reg::B })
    );
}

#[test]
fn add_wraps_and_sets_carry_and_zero() {
    let mut cpu = Cpu::new();
    assert_eq!(cpu.alu_add(0x80, 0x80), 0x00);
    assert_eq!(cpu.read_reg(Reg::F), FLAG_Z | FLAG_C);
    assert_eq!(cpu.alu_add(0xf0, 0x20), 0x10);
    assert_eq!(cpu.read_reg(Reg::F), FLAG_C);
    assert_eq!(cpu.alu_add(0x0f, 0x01), 0x10);
    assert_eq!(cpu.read_reg(Reg::F), FLAG_H);
    assert_eq!(cpu.alu_add(0x12, 0x34), 0x46);
    assert_eq!(cpu.read_reg(Reg::F), 0);
}

#[test]
fn add_matches_modular_sum_on_all_pairs() {
    let mut cpu = Cpu::new();
    for a in 0..=255u16 {
        for b in 0..=255u16 {
            let r = cpu.alu_add(a as u8, b as u8);
            let f = cpu.read_reg(Reg::F);
            assert_eq!(r as u16, (a + b) % 256);
            assert_eq!(f & FLAG_C != 0, a + b >= 256);
            assert_eq!(f & FLAG_Z != 0, r == 0);
        }
    }
}

#[test]
fn wide_add_flags() {
    let mut cpu = Cpu::new();
    assert_eq!(cpu.alu_wideadd(0x0fff, 0x0001), 0x1000);
    assert_eq!(cpu.read_reg(Reg::F), FLAG_H);
    assert_eq!(cpu.alu_wideadd(0xffff, 0x0001), 0x0000);
    assert_eq!(cpu.read_reg(Reg::F), FLAG_Z | FLAG_H | FLAG_C);
}

#[test]
fn add_with_carry_adds_incoming_carry() {
    let mut cpu = Cpu::new();
    cpu.write_reg(Reg::F, FLAG_C);
    assert_eq!(cpu.alu_adc(0xff, 0x00), 0x00);
    assert_eq!(cpu.read_reg(Reg::F), FLAG_Z | FLAG_C);
    cpu.write_reg(Reg::F, 0);
    assert_eq!(cpu.alu_adc(0x01, 0x02), 0x03);
    assert_eq!(cpu.read_reg(Reg::F), 0);
}

#[test]
fn sub_sets_inverted_borrow_flags() {
    let mut cpu = Cpu::new();
    assert_eq!(cpu.alu_sub(0x10, 0x01), 0x0f);
    assert_eq!(cpu.read_reg(Reg::F), FLAG_N | FLAG_C);
    assert_eq!(cpu.alu_sub(0x05, 0x05), 0x00);
    assert_eq!(cpu.read_reg(Reg::F), FLAG_Z | FLAG_N | FLAG_H | FLAG_C);
    assert_eq!(cpu.alu_sub(0x00, 0x01), 0xff);
    assert_eq!(cpu.read_reg(Reg::F), FLAG_N);
}

#[test]
fn sub_with_carry_takes_one_more() {
    let mut cpu = Cpu::new();
    cpu.write_reg(Reg::F, FLAG_C);
    assert_eq!(cpu.alu_sbc(0x05, 0x05), 0xff);
    assert_eq!(cpu.read_reg(Reg::F), FLAG_N | FLAG_H);
    cpu.write_reg(Reg::F, 0);
    assert_eq!(cpu.alu_sbc(0x05, 0x02), 0x03);
    assert_eq!(cpu.read_reg(Reg::F), FLAG_N | FLAG_H | FLAG_C);
}

#[test]
fn logic_operations() {
    let mut cpu = Cpu::new();
    assert_eq!(cpu.alu_and(0xf0, 0x0f), 0x00);
    assert_eq!(cpu.read_reg(Reg::F), FLAG_Z | FLAG_H);
    assert_eq!(cpu.alu_or(0xf0, 0x0f), 0xff);
    assert_eq!(cpu.read_reg(Reg::F), 0);
    assert_eq!(cpu.alu_xor(0xaa, 0xaa), 0x00);
    assert_eq!(cpu.read_reg(Reg::F), FLAG_Z);
}

#[test]
fn circular_rotates_are_inverse() {
    let mut cpu = Cpu::new();
    for a in 0..=255u8 {
        let r = cpu.alu_rrc(a);
        assert_eq!(cpu.alu_rlc(r), a);
        let l = cpu.alu_rlc(a);
        assert_eq!(cpu.alu_rrc(l), a);
    }
    assert_eq!(cpu.alu_rlc(0x81), 0x03);
    assert_eq!(cpu.read_reg(Reg::F), FLAG_C);
    assert_eq!(cpu.alu_rrc(0x01), 0x80);
    assert_eq!(cpu.read_reg(Reg::F), FLAG_C);
    assert_eq!(cpu.alu_rrc(0x00), 0x00);
    assert_eq!(cpu.read_reg(Reg::F), FLAG_Z);
}

#[test]
fn rotates_through_carry() {
    let mut cpu = Cpu::new();
    cpu.write_reg(Reg::F, FLAG_C);
    assert_eq!(cpu.alu_rl(0x80), 0x01);
    assert_eq!(cpu.read_reg(Reg::F), FLAG_C);
    cpu.write_reg(Reg::F, 0);
    assert_eq!(cpu.alu_rl(0x80), 0x00);
    assert_eq!(cpu.read_reg(Reg::F), FLAG_Z | FLAG_C);
    cpu.write_reg(Reg::F, FLAG_C);
    assert_eq!(cpu.alu_rr(0x02), 0x81);
    assert_eq!(cpu.read_reg(Reg::F), 0);
}

#[test]
fn shifts() {
    let mut cpu = Cpu::new();
    assert_eq!(cpu.alu_sla(0x81), 0x02);
    assert_eq!(cpu.read_reg(Reg::F), FLAG_C);
    assert_eq!(cpu.alu_sra(0x81), 0xc0);
    assert_eq!(cpu.read_reg(Reg::F), FLAG_C);
    assert_eq!(cpu.alu_srl(0x81), 0x40);
    assert_eq!(cpu.read_reg(Reg::F), FLAG_C);
    assert_eq!(cpu.alu_srl(0x01), 0x00);
    assert_eq!(cpu.read_reg(Reg::F), FLAG_Z | FLAG_C);
}

#[test]
fn swap_nibbles_twice_is_identity() {
    let mut cpu = Cpu::new();
    assert_eq!(cpu.alu_swap(0x12), 0x21);
    assert_eq!(cpu.read_reg(Reg::F), 0);
    assert_eq!(cpu.alu_swap(0x00), 0x00);
    assert_eq!(cpu.read_reg(Reg::F), FLAG_Z);
    for a in 0..=255u8 {
        let once = cpu.alu_swap(a);
        assert_eq!(cpu.alu_swap(once), a);
    }
}

#[test]
fn bit_test_keeps_subtract_and_carry() {
    let mut cpu = Cpu::new();
    cpu.write_reg(Reg::F, FLAG_N | FLAG_C);
    cpu.alu_bit(0x00, 3);
    assert_eq!(cpu.read_reg(Reg::F), FLAG_Z | FLAG_N | FLAG_H | FLAG_C);
    cpu.alu_bit(0x08, 3);
    assert_eq!(cpu.read_reg(Reg::F), FLAG_N | FLAG_H | FLAG_C);
    assert_eq!(cpu.alu_res(0xff, 0), 0xfe);
    assert_eq!(cpu.alu_set(0x00, 7), 0x80);
}

#[test]
fn wide_registers_are_little_endian_pairs() {
    let mut cpu = Cpu::new();
    cpu.write_reg(Reg::B, 0x34);
    cpu.write_reg(Reg::C, 0x12);
    assert_eq!(cpu.read_widereg(Reg::B), 0x1234);
    cpu.write_widereg(Reg::H, 0xbeef);
    assert_eq!(cpu.read_reg(Reg::H), 0xef);
    assert_eq!(cpu.read_reg(Reg::L), 0xbe);
    cpu.write_widereg(Reg::SP, 0xfffe);
    assert_eq!(cpu.read_widereg(Reg::SP), 0xfffe);
}

#[test]
fn register_to_register_load_is_a_no_op() {
    let program = [0x40u8];
    let mut cpu = Cpu::new();
    cpu.write_reg(Reg::B, 0x77);
    assert_eq!(cpu.decode(&program), Some(Instr::LdRegReg { src: Reg::B, dst: Reg::B }));
    let mut cpu = Cpu::new();
    cpu.write_reg(Reg::B, 0x77);
    let mut mmu = Mmu::new();
    assert_eq!(cpu.execute(&program, &mut mmu), StepOutcome::Continue);
    assert_eq!(cpu.read_reg(Reg::B), 0x77);
    assert_eq!(cpu.read_reg(Reg::F), 0);
    assert_eq!(cpu.pc(), 1);
}

#[test]
fn immediate_load_into_b() {
    let program = [0x06u8, 0x2a];
    let mut cpu = Cpu::new();
    assert_eq!(cpu.decode(&program), Some(Instr::LdRegImm { src: 0x2a, dst: Reg::B }));
    assert_eq!(cpu.pc(), 2);
    let mut cpu = Cpu::new();
    let mut mmu = Mmu::new();
    assert_eq!(cpu.execute(&program, &mut mmu), StepOutcome::Continue);
    assert_eq!(cpu.read_reg(Reg::B), 0x2a);
}

#[test]
fn increment_a_wraps_and_keeps_carry() {
    let program = [0x3cu8];
    for carry in [0u8, FLAG_C] {
        let mut cpu = Cpu::new();
        let mut mmu = Mmu::new();
        cpu.write_reg(Reg::A, 0xff);
        cpu.write_reg(Reg::F, carry);
        assert_eq!(cpu.execute(&program, &mut mmu), StepOutcome::Continue);
        assert_eq!(cpu.read_reg(Reg::A), 0x00);
        let f = cpu.read_reg(Reg::F);
        assert!(f & FLAG_Z != 0);
        assert!(f & FLAG_H != 0);
        assert_eq!(f & FLAG_C, carry);
    }
}

#[test]
fn untaken_relative_jump_falls_through() {
    // JR NZ needs both N and Z set; with clear flags it is not taken.
    let program = [0x20u8, 0x10];
    let mut cpu = Cpu::new();
    let mut mmu = Mmu::new();
    assert_eq!(cpu.execute(&program, &mut mmu), StepOutcome::Continue);
    assert_eq!(cpu.pc(), 2);
    let mut cpu = Cpu::new();
    cpu.write_reg(Reg::F, FLAG_Z | FLAG_N);
    assert_eq!(cpu.execute(&program, &mut mmu), StepOutcome::Continue);
    assert_eq!(cpu.pc(), 0x12);
}

#[test]
fn every_assigned_opcode_decodes() {
    for op in 0..=255u8 {
        if BASE_KIND[op as usize] != 0 {
            for next in [0x00u8, 0x47, 0xff] {
                let mut cpu = Cpu::new();
                assert!(cpu.decode(&[op, next, 0x12]).is_some(), "opcode {:#04x}", op);
            }
        }
    }
    for x in 0..=255u8 {
        assert_ne!(EXT_KIND[x as usize], 0);
    }
}

#[test]
fn extended_opcodes_decode() {
    let mut cpu = Cpu::new();
    assert_eq!(cpu.decode(&[0xcb, 0x37]), Some(Instr::SwapReg { reg: Reg::A }));
    assert_eq!(cpu.pc(), 2);
    let mut cpu = Cpu::new();
    assert_eq!(cpu.decode(&[0xcb, 0x7e]), Some(Instr::BitMem { reg: RegAddr::HL, bit: 7 }));
    let mut cpu = Cpu::new();
    assert_eq!(cpu.decode(&[0xcb, 0xc1]), Some(Instr::SetReg { reg: Reg::C, bit: 0 }));
}

#[test]
fn wide_immediates_are_little_endian() {
    let mut cpu = Cpu::new();
    assert_eq!(cpu.decode(&[0x21, 0x34, 0x12]), Some(Instr::LdWRegImm { src: 0x1234, dst: Reg::H }));
    assert_eq!(cpu.pc(), 3);
    let mut cpu = Cpu::new();
    assert_eq!(cpu.decode(&[0xc3, 0x00, 0x80]), Some(Instr::JPImm { addr: 0x8000 }));
}

#[test]
fn decode_faults_leave_pc_alone() {
    let mut cpu = Cpu::new();
    assert_eq!(cpu.decode(&[0x06]), None);
    assert_eq!(cpu.pc(), 0);
    assert_eq!(cpu.decode(&[0xd3]), None);
    assert_eq!(cpu.pc(), 0);
    assert_eq!(cpu.decode(&[0xcb]), None);
    assert_eq!(cpu.decode(&[]), None);
    assert_eq!(cpu.pc(), 0);
}

#[test]
fn decode_fault_in_a_step() {
    let mut cpu = Cpu::new();
    let mut mmu = Mmu::new();
    assert_eq!(cpu.execute(&[0xd3], &mut mmu), StepOutcome::Fault(Fault::Decode));
    assert_eq!(cpu.pc(), 0);
}

#[test]
fn memory_fault_changes_nothing() {
    // LD (0xffff), A: the last address is out of range.
    let mut cpu = Cpu::new();
    let mut mmu = Mmu::new();
    cpu.write_reg(Reg::A, 5);
    assert_eq!(cpu.execute(&[0xea, 0xff, 0xff], &mut mmu), StepOutcome::Fault(Fault::Memory));
    assert_eq!(cpu.pc(), 0);
    assert_eq!(cpu.read_reg(Reg::A), 5);
}

#[test]
fn negative_relative_jump_is_an_execution_fault() {
    let mut cpu = Cpu::new();
    let mut mmu = Mmu::new();
    assert_eq!(cpu.execute(&[0x18, 0x80], &mut mmu), StepOutcome::Fault(Fault::Execution));
    assert_eq!(cpu.pc(), 0);
    assert_eq!(cpu.execute(&[0x18, 0xfe], &mut mmu), StepOutcome::Continue);
    assert_eq!(cpu.pc(), 0);
}

#[test]
fn halt_ends_the_step() {
    let mut cpu = Cpu::new();
    let mut mmu = Mmu::new();
    assert_eq!(cpu.execute(&[0x76], &mut mmu), StepOutcome::Halted);
    assert_eq!(cpu.pc(), 1);
}

#[test]
fn store_and_load_through_hl_with_post_increment() {
    // LD HL,0x4000; LD A,0x99; LD (HL+),A; LD A,(HL-) ...
    let program = [0x21u8, 0x00, 0x40, 0x3e, 0x99, 0x22, 0x3a];
    let mut cpu = Cpu::new();
    let mut mmu = Mmu::new();
    for _ in 0..3 {
        assert_eq!(cpu.execute(&program, &mut mmu), StepOutcome::Continue);
    }
    assert_eq!(mmu.read_word(Addr(0x4000)), Some(0x99));
    assert_eq!(cpu.read_widereg(Reg::H), 0x4001);
    assert_eq!(cpu.execute(&program, &mut mmu), StepOutcome::Continue);
    assert_eq!(cpu.read_reg(Reg::A), 0x00);
    assert_eq!(cpu.read_widereg(Reg::H), 0x4000);
}

#[test]
fn increment_in_memory() {
    // LD HL,0x2000; INC (HL)
    let program = [0x21u8, 0x00, 0x20, 0x34];
    let mut cpu = Cpu::new();
    let mut mmu = Mmu::new();
    mmu.write_word(Addr(0x2000), 0x0f);
    assert_eq!(cpu.execute(&program, &mut mmu), StepOutcome::Continue);
    assert_eq!(cpu.execute(&program, &mut mmu), StepOutcome::Continue);
    assert_eq!(mmu.read_word(Addr(0x2000)), Some(0x10));
    assert_eq!(cpu.read_reg(Reg::F), FLAG_H);
}

#[test]
fn push_then_pop_restores_a_pair() {
    // LD SP,0x8000; LD BC,0xbeef; PUSH BC; POP DE
    let program = [0x31u8, 0x00, 0x80, 0x01, 0xef, 0xbe, 0xc5, 0xd1];
    let mut cpu = Cpu::new();
    let mut mmu = Mmu::new();
    for _ in 0..3 {
        assert_eq!(cpu.execute(&program, &mut mmu), StepOutcome::Continue);
    }
    assert_eq!(cpu.read_widereg(Reg::SP), 0x7ffe);
    assert_eq!(mmu.read_dword(Addr(0x7ffe)), Some(0xbeef));
    assert_eq!(cpu.execute(&program, &mut mmu), StepOutcome::Continue);
    assert_eq!(cpu.read_widereg(Reg::D), 0xbeef);
    assert_eq!(cpu.read_widereg(Reg::SP), 0x8000);
}

#[test]
fn restart_pushes_pc_and_jumps() {
    let mut cpu = Cpu::new();
    let mut mmu = Mmu::new();
    cpu.write_widereg(Reg::SP, 0x9000);
    assert_eq!(cpu.execute(&[0xef], &mut mmu), StepOutcome::Continue);
    assert_eq!(cpu.pc(), 0x28);
    assert_eq!(mmu.read_dword(Addr(0x8ffe)), Some(0x0001));
}

#[test]
fn decrement_wide_saturates_at_zero() {
    let mut cpu = Cpu::new();
    let mut mmu = Mmu::new();
    cpu.write_reg(Reg::F, FLAG_C);
    assert_eq!(cpu.execute(&[0x0b], &mut mmu), StepOutcome::Continue);
    assert_eq!(cpu.read_widereg(Reg::B), 0);
    assert_eq!(cpu.read_reg(Reg::F), FLAG_C);
}

#[test]
fn compare_keeps_a() {
    let mut cpu = Cpu::new();
    let mut mmu = Mmu::new();
    cpu.write_reg(Reg::A, 0x42);
    assert_eq!(cpu.execute(&[0xfe, 0x42], &mut mmu), StepOutcome::Continue);
    assert_eq!(cpu.read_reg(Reg::A), 0x42);
    assert!(cpu.read_reg(Reg::F) & FLAG_Z != 0);
}

#[test]
fn memory_handlers_intercept() {
    let mut mmu = Mmu::new();
    mmu.add_handler(
        0x1000,
        0x10ff,
        MemHandler { on_read: MemRead::Replace(0xaa), on_write: MemWrite::Block },
    );
    assert_eq!(mmu.write_word(Addr(0x1000), 5), Some(()));
    assert_eq!(mmu.read_word(Addr(0x1000)), Some(0xaa));
    assert_eq!(Addr(0x1000).get_handler(&mmu).on_write, MemWrite::Block);
    mmu.add_handler(
        0x1000,
        0x1000,
        MemHandler { on_read: MemRead::PassThrough, on_write: MemWrite::Replace(7) },
    );
    assert_eq!(mmu.write_word(Addr(0x1000), 5), Some(()));
    assert_eq!(mmu.read_word(Addr(0x1000)), Some(7));
    assert_eq!(mmu.read_word(Addr(0x1001)), Some(0xaa));
    assert_eq!(mmu.read_word(Addr(0x2000)), Some(0));
}

#[test]
fn memory_range() {
    let mut mmu = Mmu::new();
    assert_eq!(mmu.read_word(Addr(0xffff)), None);
    assert_eq!(mmu.write_word(Addr(0xffff), 1), None);
    assert_eq!(mmu.write_dword(Addr(0xfffe), 0x1234), None);
    assert_eq!(mmu.read_word(Addr(0xfffe)), Some(0));
    assert_eq!(mmu.write_dword(Addr(0x0100), 0x1234), Some(()));
    assert_eq!(mmu.read_word(Addr(0x0100)), Some(0x34));
    assert_eq!(mmu.read_dword(Addr(0x0100)), Some(0x1234));
}

#[test]
fn operand_codes_convert() {
    assert_eq!(Reg::from_u8(3), Reg::B);
    assert_eq!(Reg::from_u8(0), Reg::Invalid);
    assert_eq!(RegAddr::from_u8(11), RegAddr::HLPlus);
    assert_eq!(gbcpu::InstrKind::from_u8(2), gbcpu::InstrKind::LdRegReg);
}
