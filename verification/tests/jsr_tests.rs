//! JSR, RTS and the hardware stack.

use mos6502::instructions;
use mos6502::mos6502::Mos6502Flags;
use mos6502::tests_utils::assert_all_status_flags_false_except;
use mos6502::tests_utils::cpu_mem_set;

#[test]
fn mod_jsr_abs_wlda_imm() {
    let mut cpu = cpu_mem_set(vec![
        (0xFFFC, instructions::JSR_ABS),
        (0xFFFD, 0x42),
        (0xFFFE, 0x42),
        (0x4242, instructions::LDA_IMM),
        (0x4243, 0x84),
    ]);

    cpu.exe(Some(instructions::JSR_ABS_CCOST + instructions::LDA_IMM_CCOST));

    assert_eq!(cpu.get_accumulator(), 0x84);
    assert!(assert_all_status_flags_false_except(&cpu, vec![Mos6502Flags::N, Mos6502Flags::I, Mos6502Flags::U]).is_ok());
    assert!(cpu.negative_flag());
    assert_eq!(
        cpu.get_cycles(),
        instructions::JSR_ABS_CCOST + instructions::LDA_IMM_CCOST
    );
}

#[test]
fn jsr_pushes_return_address_high_then_low() {
    let mut cpu = cpu_mem_set(vec![
        (0xFFFC, instructions::JSR_ABS),
        (0xFFFD, 0x42),
        (0xFFFE, 0x42),
        (0x4242, instructions::LDA_IMM),
        (0x4243, 0x84),
    ]);

    cpu.exe(Some(instructions::JSR_ABS_CCOST + instructions::LDA_IMM_CCOST));

    // The return address 0xFFFE (the JSR's last byte) sits on the stack,
    // high byte first, and SP has moved down by two.
    assert_eq!(cpu.mem.get_byte(0x01FD), 0xFF);
    assert_eq!(cpu.mem.get_byte(0x01FC), 0xFE);
    assert_eq!(cpu.get_sp(), 0xFB);
    assert_eq!(cpu.get_pc(), 0x4244);
}

#[test]
fn jsr_then_rts_resumes_after_the_jsr() {
    let mut cpu = cpu_mem_set(vec![
        (0xFFFC, instructions::JSR_ABS),
        (0xFFFD, 0x00),
        (0xFFFE, 0x80),
        (0x8000, instructions::RTS_IMP),
    ]);

    cpu.exe(Some(instructions::JSR_ABS_CCOST + instructions::RTS_IMP_CCOST));

    // 0xFFFC + 3: the byte just past the three-byte JSR instruction.
    assert_eq!(cpu.get_pc(), 0xFFFF);
    assert_eq!(cpu.get_sp(), 0xFD);
    assert_eq!(
        cpu.get_cycles(),
        instructions::JSR_ABS_CCOST + instructions::RTS_IMP_CCOST
    );
}

#[test]
fn pha_lda_pla_restores_accumulator_and_sp() {
    let mut cpu = cpu_mem_set(vec![
        (0xFFFC, instructions::PHA_IMP),
        (0xFFFD, instructions::LDA_IMM),
        (0xFFFE, 0x00),
        (0xFFFF, instructions::PLA_IMP),
    ]);

    cpu.set_accumulator(0x5A);
    cpu.exe(Some(
        instructions::PHA_IMP_CCOST + instructions::LDA_IMM_CCOST + instructions::PLA_IMP_CCOST,
    ));

    assert_eq!(cpu.get_accumulator(), 0x5A);
    assert_eq!(cpu.get_sp(), 0xFD);
    assert_eq!(cpu.mem.get_byte(0x01FD), 0x5A);
    assert_eq!(
        cpu.get_cycles(),
        instructions::PHA_IMP_CCOST + instructions::LDA_IMM_CCOST + instructions::PLA_IMP_CCOST
    );
}

#[test]
fn php_pushes_status_with_break_and_unused_set() {
    let mut cpu = cpu_mem_set(vec![(0xFFFC, instructions::PHP_IMP)]);

    cpu.set_status_flag(Mos6502Flags::C);
    cpu.set_status_flag(Mos6502Flags::N);
    cpu.exe(Some(instructions::PHP_IMP_CCOST));

    // C (0x01), N (0x80) and the post-reset I (0x04), plus the forced
    // B (0x10) and U (0x20) bits.
    assert_eq!(cpu.mem.get_byte(0x01FD), 0xB5);
    // The register itself keeps B clear and U as reset left it.
    assert_eq!(cpu.get_status(), 0xA5);
}

#[test]
fn plp_leaves_break_and_unused_unchanged() {
    let mut cpu = cpu_mem_set(vec![
        (0xFFFC, instructions::PLP_IMP),
        (0x01FE, 0xFF),
    ]);

    cpu.exe(Some(instructions::PLP_IMP_CCOST));

    // All pulled flags land except B and U: B stays clear and U stays set,
    // whatever the pulled byte says of them.
    assert_eq!(cpu.get_status(), 0xEF);
    assert_eq!(cpu.get_sp(), 0xFE);
}
