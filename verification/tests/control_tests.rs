//! Branches, jumps, stores, transfers, BRK/RTI and the illegal-opcode halt.

use mos6502::instructions;
use mos6502::mos6502::Mos6502Flags;
use mos6502::mos6502::RunResult;
use mos6502::tests_utils::cpu_mem_set;

#[test]
fn branch_not_taken_costs_two_cycles() {
    let mut cpu = cpu_mem_set(vec![
        (0xFFFC, instructions::BEQ_REL),
        (0xFFFD, 0x10),
    ]);
    cpu.exe(Some(instructions::BEQ_REL_CCOST));
    assert_eq!(cpu.get_pc(), 0xFFFE);
    assert_eq!(cpu.get_cycles(), instructions::BEQ_REL_CCOST);
}

#[test]
fn branch_taken_same_page_costs_three_cycles() {
    // BNE -4 from 0xFFFE lands at 0xFFFA, still in page 0xFF.
    let mut cpu = cpu_mem_set(vec![
        (0xFFFC, instructions::BNE_REL),
        (0xFFFD, 0xFC),
    ]);
    cpu.exe(Some(instructions::BNE_REL_CCOST + 1));
    assert_eq!(cpu.get_pc(), 0xFFFA);
    assert_eq!(cpu.get_cycles(), instructions::BNE_REL_CCOST + 1);
}

#[test]
fn branch_taken_across_page_costs_four_cycles() {
    // BEQ +0x10 from 0xFFFE wraps to 0x000E: a different page.
    let mut cpu = cpu_mem_set(vec![
        (0xFFFC, instructions::BEQ_REL),
        (0xFFFD, 0x10),
    ]);
    cpu.set_status_flag(Mos6502Flags::Z);
    cpu.exe(Some(instructions::BEQ_REL_CCOST + 2));
    assert_eq!(cpu.get_pc(), 0x000E);
    assert_eq!(cpu.get_cycles(), instructions::BEQ_REL_CCOST + 2);
}

#[test]
fn bcs_follows_carry() {
    let mut cpu = cpu_mem_set(vec![
        (0xFFFC, instructions::BCS_REL),
        (0xFFFD, 0xFC),
    ]);
    cpu.set_status_flag(Mos6502Flags::C);
    cpu.exe(Some(instructions::BCS_REL_CCOST + 1));
    assert_eq!(cpu.get_pc(), 0xFFFA);
}

#[test]
fn bmi_follows_negative() {
    let mut cpu = cpu_mem_set(vec![
        (0xFFFC, instructions::BMI_REL),
        (0xFFFD, 0xFC),
    ]);
    cpu.set_status_flag(Mos6502Flags::N);
    cpu.exe(Some(instructions::BMI_REL_CCOST + 1));
    assert_eq!(cpu.get_pc(), 0xFFFA);
}

#[test]
fn jmp_abs_sets_pc_in_three_cycles() {
    let mut cpu = cpu_mem_set(vec![
        (0xFFFC, instructions::JMP_ABS),
        (0xFFFD, 0x00),
        (0xFFFE, 0x90),
    ]);
    cpu.exe(Some(instructions::JMP_ABS_CCOST));
    assert_eq!(cpu.get_pc(), 0x9000);
    assert_eq!(cpu.get_cycles(), instructions::JMP_ABS_CCOST);
}

#[test]
fn jmp_indirect_reads_pointer_word() {
    let mut cpu = cpu_mem_set(vec![
        (0xFFFC, instructions::JMP_ABS_IND),
        (0xFFFD, 0x00),
        (0xFFFE, 0x30),
        (0x3000, 0x78),
        (0x3001, 0x56),
    ]);
    cpu.exe(Some(instructions::JMP_ABS_IND_CCOST));
    assert_eq!(cpu.get_pc(), 0x5678);
    assert_eq!(cpu.get_cycles(), instructions::JMP_ABS_IND_CCOST);
}

#[test]
fn jmp_indirect_page_wrap_bug() {
    // JMP (0x10FF): the high byte comes from 0x1000, not 0x1100.
    let mut cpu = cpu_mem_set(vec![
        (0xFFFC, instructions::JMP_ABS_IND),
        (0xFFFD, 0xFF),
        (0xFFFE, 0x10),
        (0x10FF, 0x00),
        (0x1000, 0x40),
        (0x1100, 0x99),
    ]);
    cpu.exe(Some(instructions::JMP_ABS_IND_CCOST));
    assert_eq!(cpu.get_pc(), 0x4000);
}

#[test]
fn sta_zp_writes_accumulator_without_flags() {
    let mut cpu = cpu_mem_set(vec![
        (0xFFFC, instructions::STA_ZP),
        (0xFFFD, 0x33),
    ]);
    cpu.set_accumulator(0x77);
    cpu.exe(Some(instructions::STA_ZP_CCOST));
    assert_eq!(cpu.mem.get_byte(0x0033), 0x77);
    // The status byte still holds only the post-reset I and U bits.
    assert_eq!(cpu.get_status(), 0x24);
    assert_eq!(cpu.get_cycles(), instructions::STA_ZP_CCOST);
}

#[test]
fn sta_absx_always_pays_five_cycles() {
    let mut cpu = cpu_mem_set(vec![
        (0xFFFC, instructions::STA_ABSX),
        (0xFFFD, 0x80),
        (0xFFFE, 0x44),
    ]);
    cpu.set_accumulator(0x55);
    cpu.set_xreg(0x01);
    cpu.exe(Some(instructions::STA_ABSX_CCOST));
    assert_eq!(cpu.mem.get_byte(0x4481), 0x55);
    assert_eq!(cpu.get_cycles(), instructions::STA_ABSX_CCOST);
}

#[test]
fn stx_zpy_indexes_by_y() {
    let mut cpu = cpu_mem_set(vec![
        (0xFFFC, instructions::STX_ZPY),
        (0xFFFD, 0x40),
    ]);
    cpu.set_xreg(0x99);
    cpu.set_yreg(0x02);
    cpu.exe(Some(instructions::STX_ZPY_CCOST));
    assert_eq!(cpu.mem.get_byte(0x0042), 0x99);
}

#[test]
fn sty_abs_writes_yreg() {
    let mut cpu = cpu_mem_set(vec![
        (0xFFFC, instructions::STY_ABS),
        (0xFFFD, 0x00),
        (0xFFFE, 0x20),
    ]);
    cpu.set_yreg(0x11);
    cpu.exe(Some(instructions::STY_ABS_CCOST));
    assert_eq!(cpu.mem.get_byte(0x2000), 0x11);
}

#[test]
fn tax_copies_and_sets_negative() {
    let mut cpu = cpu_mem_set(vec![(0xFFFC, instructions::TAX_IMP)]);
    cpu.set_accumulator(0x80);
    cpu.exe(Some(instructions::TAX_IMP_CCOST));
    assert_eq!(cpu.get_xreg(), 0x80);
    assert!(cpu.negative_flag());
    assert_eq!(cpu.get_cycles(), instructions::TAX_IMP_CCOST);
}

#[test]
fn tay_txa_tya_round_trip() {
    let mut cpu = cpu_mem_set(vec![
        (0xFFFC, instructions::TAY_IMP),
        (0xFFFD, instructions::TYA_IMP),
    ]);
    cpu.set_accumulator(0x42);
    cpu.exe(Some(instructions::TAY_IMP_CCOST + instructions::TYA_IMP_CCOST));
    assert_eq!(cpu.get_yreg(), 0x42);
    assert_eq!(cpu.get_accumulator(), 0x42);
}

#[test]
fn tsx_reads_stack_pointer() {
    let mut cpu = cpu_mem_set(vec![(0xFFFC, instructions::TSX_IMP)]);
    cpu.exe(Some(instructions::TSX_IMP_CCOST));
    assert_eq!(cpu.get_xreg(), 0xFD);
    assert!(cpu.negative_flag());
}

#[test]
fn txs_writes_stack_pointer_without_flags() {
    let mut cpu = cpu_mem_set(vec![(0xFFFC, instructions::TXS_IMP)]);
    cpu.set_xreg(0x42);
    cpu.exe(Some(instructions::TXS_IMP_CCOST));
    assert_eq!(cpu.get_sp(), 0x42);
    // The status byte still holds only the post-reset I and U bits.
    assert_eq!(cpu.get_status(), 0x24);
}

#[test]
fn brk_pushes_state_and_takes_the_vector() {
    let mut cpu = cpu_mem_set(vec![
        (0xFFFC, instructions::BRK_IMP),
        (0xFFFE, 0x00),
        (0xFFFF, 0x80),
    ]);
    cpu.exe(Some(instructions::BRK_IMP_CCOST));
    assert_eq!(cpu.get_pc(), 0x8000);
    assert!(cpu.interrupts_disable_flag());
    assert_eq!(cpu.get_sp(), 0xFA);
    // Return address 0xFFFE pushed high then low, then P: the post-reset
    // I bit plus the forced B and U bits.
    assert_eq!(cpu.mem.get_byte(0x01FD), 0xFF);
    assert_eq!(cpu.mem.get_byte(0x01FC), 0xFE);
    assert_eq!(cpu.mem.get_byte(0x01FB), 0x34);
    assert_eq!(cpu.get_cycles(), instructions::BRK_IMP_CCOST);
}

#[test]
fn rti_restores_flags_and_pc() {
    // The stack already holds P = 0x81, then PC = 0x1234, low byte first.
    let mut cpu = cpu_mem_set(vec![
        (0xFFFC, instructions::RTI_IMP),
        (0x01FE, 0x81),
        (0x01FF, 0x34),
        (0x0100, 0x12),
    ]);
    cpu.exe(Some(instructions::RTI_IMP_CCOST));
    assert_eq!(cpu.get_pc(), 0x1234);
    assert!(cpu.carry_flag());
    assert!(cpu.negative_flag());
    // B and U are untouched by RTI: B stays clear, U stays as reset set it.
    assert!(!cpu.break_flag());
    assert!(cpu.unused_flag());
    assert_eq!(cpu.get_sp(), 0x00);
    assert_eq!(cpu.get_cycles(), instructions::RTI_IMP_CCOST);
}

#[test]
fn illegal_opcode_halts_with_opcode_and_pc() {
    let mut cpu = cpu_mem_set(vec![(0xFFFC, 0x02)]);
    let r = cpu.exe(Some(10));
    assert_eq!(
        r,
        RunResult::HaltedOnIllegal {
            opcode: 0x02,
            pc: 0xFFFC,
        }
    );
    assert_eq!(cpu.get_cycles(), 0);
    assert_eq!(cpu.get_pc(), 0xFFFC);
}

#[test]
fn illegal_opcode_halts_an_unbudgeted_run() {
    let mut cpu = cpu_mem_set(vec![
        (0xFFFC, instructions::NOP_IMP),
        (0xFFFD, 0x02),
    ]);
    let r = cpu.exe(None);
    assert_eq!(
        r,
        RunResult::HaltedOnIllegal {
            opcode: 0x02,
            pc: 0xFFFD,
        }
    );
    assert_eq!(cpu.get_cycles(), instructions::NOP_IMP_CCOST);
}

#[test]
fn budget_reached_reports_completed() {
    let mut cpu = cpu_mem_set(vec![(0xFFFC, instructions::NOP_IMP)]);
    let r = cpu.exe(Some(instructions::NOP_IMP_CCOST));
    assert_eq!(r, RunResult::Completed);
}

#[test]
fn bcc_taken_when_carry_clear() {
    let mut cpu = cpu_mem_set(vec![
        (0xFFFC, instructions::BCC_REL),
        (0xFFFD, 0xFC),
    ]);
    cpu.exe(Some(instructions::BCC_REL_CCOST + 1));
    assert_eq!(cpu.get_pc(), 0xFFFA);
    assert_eq!(cpu.get_cycles(), instructions::BCC_REL_CCOST + 1);
}

#[test]
fn bpl_taken_when_negative_clear() {
    let mut cpu = cpu_mem_set(vec![
        (0xFFFC, instructions::BPL_REL),
        (0xFFFD, 0xFC),
    ]);
    cpu.exe(Some(instructions::BPL_REL_CCOST + 1));
    assert_eq!(cpu.get_pc(), 0xFFFA);
}

#[test]
fn bvc_and_bvs_follow_overflow() {
    let mut cpu = cpu_mem_set(vec![
        (0xFFFC, instructions::BVC_REL),
        (0xFFFD, 0xFC),
    ]);
    cpu.exe(Some(instructions::BVC_REL_CCOST + 1));
    assert_eq!(cpu.get_pc(), 0xFFFA);

    let mut cpu2 = cpu_mem_set(vec![
        (0xFFFC, instructions::BVS_REL),
        (0xFFFD, 0xFC),
    ]);
    cpu2.set_status_flag(Mos6502Flags::V);
    cpu2.exe(Some(instructions::BVS_REL_CCOST + 1));
    assert_eq!(cpu2.get_pc(), 0xFFFA);
}

#[test]
fn txa_copies_xreg_to_accumulator() {
    let mut cpu = cpu_mem_set(vec![(0xFFFC, instructions::TXA_IMP)]);
    cpu.set_xreg(0x00);
    cpu.exe(Some(instructions::TXA_IMP_CCOST));
    assert_eq!(cpu.get_accumulator(), 0x00);
    assert!(cpu.zero_flag());
}

#[test]
fn dey_counts_down() {
    let mut cpu = cpu_mem_set(vec![(0xFFFC, instructions::DEY_IMP)]);
    cpu.set_yreg(0x01);
    cpu.exe(Some(instructions::DEY_IMP_CCOST));
    assert_eq!(cpu.get_yreg(), 0x00);
    assert!(cpu.zero_flag());
}

#[test]
fn sta_zpx_ind_stores_through_the_pointer() {
    let mut cpu = cpu_mem_set(vec![
        (0xFFFC, instructions::STA_ZPX_IND),
        (0xFFFD, 0x02),
        (0x0006, 0x00),
        (0x0007, 0x80),
    ]);
    cpu.set_accumulator(0x37);
    cpu.set_xreg(0x04);
    cpu.exe(Some(instructions::STA_ZPX_IND_CCOST));
    assert_eq!(cpu.mem.get_byte(0x8000), 0x37);
    assert_eq!(cpu.get_cycles(), instructions::STA_ZPX_IND_CCOST);
}

#[test]
fn sta_zpy_ind_always_pays_six_cycles() {
    let mut cpu = cpu_mem_set(vec![
        (0xFFFC, instructions::STA_ZPY_IND),
        (0xFFFD, 0x02),
        (0x0002, 0x00),
        (0x0003, 0x80),
    ]);
    cpu.set_accumulator(0x55);
    cpu.set_yreg(0x04);
    cpu.exe(Some(instructions::STA_ZPY_IND_CCOST));
    assert_eq!(cpu.mem.get_byte(0x8004), 0x55);
    assert_eq!(cpu.get_cycles(), instructions::STA_ZPY_IND_CCOST);
}

#[test]
fn a_started_instruction_runs_to_completion_past_the_budget() {
    // The budget is polled only between instructions, so a three-cycle
    // zero-page load started under a two-cycle budget still finishes.
    let mut cpu = cpu_mem_set(vec![
        (0xFFFC, instructions::LDA_ZP),
        (0xFFFD, 0x42),
        (0x0042, 0x37),
    ]);
    cpu.exe(Some(2));
    assert_eq!(cpu.get_accumulator(), 0x37);
    assert_eq!(cpu.get_cycles(), 3);
}
