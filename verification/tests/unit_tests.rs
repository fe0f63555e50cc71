//! The memory image, the packed-status helpers, the harness checks and the
//! reset state.

use mos6502::memory::Memory;
use mos6502::instructions;
use mos6502::mos6502::Mos6502;
use mos6502::mos6502::Mos6502Flags;
use mos6502::tests_utils;
use mos6502::tests_utils::FlagAssertionError;
use mos6502::tests_utils::Registers;
use mos6502::tests_utils::assert_all_status_flags_false_except;
use mos6502::tests_utils::assert_register_has_value;
use mos6502::tests_utils::assert_true_flags;
use mos6502::tests_utils::cpu_mem_set;
use mos6502::tests_utils::word_from_byte_addition;
use mos6502::tests_utils::word_from_bytes;

#[test]
fn memory_starts_zeroed() {
    let mem = Memory::new();
    assert_eq!(mem.get_byte(0x0000), 0x00);
    assert_eq!(mem.get_byte(0xFFFF), 0x00);
}

#[test]
fn memory_insert_and_get_byte() {
    let mut mem = Memory::new();
    mem.insert_byte(0x1234, 0xAB);
    assert_eq!(mem.get_byte(0x1234), 0xAB);
    assert_eq!(mem.get_byte(0x1235), 0x00);
}

#[test]
fn memory_at_gives_a_writable_slot() {
    let mut mem = Memory::new();
    *mem.at(0x0005) = 0x09;
    assert_eq!(mem.get_byte(0x0005), 0x09);
}

#[test]
fn memory_write_word_is_little_endian() {
    let mut mem = Memory::new();
    mem.write_word(0x2000, 0x1234);
    assert_eq!(mem.get_byte(0x2000), 0x34);
    assert_eq!(mem.get_byte(0x2001), 0x12);
}

#[test]
fn memory_write_word_wraps_at_top_of_memory() {
    let mut mem = Memory::new();
    mem.write_word(0xFFFF, 0x1234);
    assert_eq!(mem.get_byte(0xFFFF), 0x34);
    assert_eq!(mem.get_byte(0x0000), 0x12);
}

#[test]
fn memory_clear_erases_everything() {
    let mut mem = Memory::new();
    mem.insert_byte(0x4000, 0x55);
    mem.clear();
    assert_eq!(mem.get_byte(0x4000), 0x00);
}

#[test]
fn flag_set_clear_get_on_packed_byte() {
    let mut status: u8 = 0x00;
    Mos6502Flags::C.set(&mut status);
    assert_eq!(status, 0x01);
    Mos6502Flags::N.set(&mut status);
    assert_eq!(status, 0x81);
    assert!(Mos6502Flags::C.get(status));
    assert!(Mos6502Flags::N.get(status));
    assert!(!Mos6502Flags::V.get(status));
    Mos6502Flags::C.clear(&mut status);
    assert_eq!(status, 0x80);
    assert!(!Mos6502Flags::C.get(status));
}

#[test]
fn new_state_before_reset() {
    let mem = Memory::new();
    let cpu = Mos6502::new(mem);
    assert_eq!(cpu.get_accumulator(), 0x00);
    assert_eq!(cpu.get_sp(), 0xFF);
    assert_eq!(cpu.get_pc(), 0x0000);
    assert_eq!(cpu.get_status(), 0x00);
    assert_eq!(cpu.get_cycles(), 0);
}

#[test]
fn reset_state_matches_the_documented_values() {
    let mem = Memory::new();
    let mut cpu = Mos6502::new(mem);
    cpu.reset();
    assert_eq!(cpu.get_accumulator(), 0x00);
    assert_eq!(cpu.get_xreg(), 0x00);
    assert_eq!(cpu.get_yreg(), 0x00);
    assert_eq!(cpu.get_sp(), 0xFD);
    assert_eq!(cpu.get_pc(), 0xFFFC);
    // The status comes out of reset with only I and U set.
    assert!(cpu.interrupts_disable_flag());
    assert!(cpu.unused_flag());
    assert_eq!(cpu.get_status(), 0x24);
    assert_eq!(cpu.get_cycles(), 0);
}

#[test]
fn get_status_packs_flags_by_bit_position() {
    // A constructed, not yet reset CPU starts with every flag clear.
    let mut cpu = Mos6502::new(Memory::new());
    cpu.set_status_flag(Mos6502Flags::C);
    cpu.set_status_flag(Mos6502Flags::D);
    cpu.set_status_flag(Mos6502Flags::N);
    assert_eq!(cpu.get_status(), 0x01 + 0x08 + 0x80);
}

#[test]
fn flag_check_names_the_first_set_flag() {
    let mut cpu = Mos6502::new(Memory::new());
    cpu.set_status_flag(Mos6502Flags::Z);
    cpu.set_status_flag(Mos6502Flags::N);
    assert_eq!(
        assert_all_status_flags_false_except(&cpu, vec![]),
        Err(FlagAssertionError::Zero)
    );
    assert_eq!(
        assert_all_status_flags_false_except(&cpu, vec![Mos6502Flags::Z]),
        Err(FlagAssertionError::Negative)
    );
    assert_eq!(
        assert_all_status_flags_false_except(&cpu, vec![Mos6502Flags::Z, Mos6502Flags::N]),
        Ok(())
    );
}

#[test]
fn flag_check_reports_each_flag_by_name() {
    let cases = [
        (Mos6502Flags::C, FlagAssertionError::Carry),
        (Mos6502Flags::Z, FlagAssertionError::Zero),
        (Mos6502Flags::I, FlagAssertionError::InterruptsDisable),
        (Mos6502Flags::D, FlagAssertionError::DecimalMode),
        (Mos6502Flags::B, FlagAssertionError::Break),
        (Mos6502Flags::U, FlagAssertionError::Unused),
        (Mos6502Flags::V, FlagAssertionError::Overflow),
        (Mos6502Flags::N, FlagAssertionError::Negative),
    ];
    for (flag, err) in cases {
        let mut cpu = Mos6502::new(Memory::new());
        cpu.set_status_flag(flag);
        assert_eq!(assert_all_status_flags_false_except(&cpu, vec![]), Err(err));
    }
}

#[test]
fn true_flag_check_sees_missing_flags() {
    let mut cpu = Mos6502::new(Memory::new());
    cpu.set_status_flag(Mos6502Flags::C);
    assert!(assert_true_flags(&cpu, &vec![Mos6502Flags::C]));
    assert!(!assert_true_flags(&cpu, &vec![Mos6502Flags::C, Mos6502Flags::Z]));
    assert!(assert_true_flags(&cpu, &vec![]));
}

#[test]
fn register_check_distinguishes_registers() {
    let mut cpu = Mos6502::new(Memory::new());
    cpu.set_xreg(0x12);
    assert!(assert_register_has_value(&cpu, Registers::X, 0x12));
    assert!(!assert_register_has_value(&cpu, Registers::A, 0x12));
    assert!(!assert_register_has_value(&cpu, Registers::X, 0x13));
}

#[test]
fn word_helpers_assemble_and_wrap() {
    assert_eq!(word_from_bytes(0x12, 0x34), 0x1234);
    assert_eq!(word_from_bytes(0x00, 0xFF), 0x00FF);
    assert_eq!(word_from_byte_addition(0x80, 0xFF), 0x007F);
    assert_eq!(word_from_byte_addition(0x01, 0x02), 0x0003);
}

#[test]
fn ld_into_reg_rejects_a_wrong_expectation() {
    // The same program as the immediate-load scenario, but expecting the
    // wrong value: the harness check must come back false.
    assert!(!tests_utils::ld_into_reg(
        vec![(0xFFFC, instructions::LDA_IMM), (0xFFFD, 0x84)],
        0x85,
        instructions::LDA_IMM_CCOST,
        Registers::A,
        vec![Mos6502Flags::N],
        None,
    ));
}

#[test]
fn step_executes_exactly_one_instruction() {
    let mut cpu = cpu_mem_set(vec![
        (0xFFFC, instructions::LDA_IMM),
        (0xFFFD, 0x84),
        (0xFFFE, instructions::NOP_IMP),
    ]);
    assert!(cpu.step());
    assert_eq!(cpu.get_accumulator(), 0x84);
    assert_eq!(cpu.get_cycles(), 2);
    assert_eq!(cpu.get_pc(), 0xFFFE);
    assert!(cpu.step());
    assert_eq!(cpu.get_cycles(), 4);
}

#[test]
fn step_refuses_an_undocumented_opcode() {
    let mut cpu = cpu_mem_set(vec![(0xFFFC, 0x02)]);
    assert!(!cpu.step());
    assert_eq!(cpu.get_pc(), 0xFFFC);
    assert_eq!(cpu.get_cycles(), 0);
}

#[test]
fn pc_and_sp_mutators_relocate_a_run() {
    let mut cpu = cpu_mem_set(vec![
        (0x6000, instructions::LDA_IMM),
        (0x6001, 0x21),
    ]);
    cpu.set_pc(0x6000);
    cpu.set_sp(0x80);
    cpu.exe(Some(instructions::LDA_IMM_CCOST));
    assert_eq!(cpu.get_accumulator(), 0x21);
    assert_eq!(cpu.get_sp(), 0x80);
    assert_eq!(cpu.get_pc(), 0x6002);
}

#[test]
fn clear_status_flag_undoes_set() {
    let mut cpu = Mos6502::new(Memory::new());
    cpu.set_status_flag(Mos6502Flags::V);
    assert!(cpu.overflow_flag());
    cpu.clear_status_flag(Mos6502Flags::V);
    assert!(!cpu.overflow_flag());
    assert_eq!(cpu.get_status(), 0x00);
}
