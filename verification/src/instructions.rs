//! Opcode bytes and base cycle costs for the documented instruction set,
//! named `MNEMONIC_MODE` and `MNEMONIC_MODE_CCOST`.  The cost constants give
//! the base cycles of the reference table; page-cross and branch-taken
//! surcharges come on top where the addressing notes say so.

use vstd::prelude::*;

verus! {

// Load accumulator (LDA) — flags N, Z.
pub const LDA_IMM: u8 = 0xA9;

pub const LDA_IMM_CCOST: u32 = 2;

pub const LDA_ZP: u8 = 0xA5;

pub const LDA_ZP_CCOST: u32 = 3;

pub const LDA_ZPX: u8 = 0xB5;

pub const LDA_ZPX_CCOST: u32 = 4;

pub const LDA_ABS: u8 = 0xAD;

pub const LDA_ABS_CCOST: u32 = 4;

// +1 on page cross.
pub const LDA_ABSX: u8 = 0xBD;

pub const LDA_ABSX_CCOST: u32 = 4;

// +1 on page cross.
pub const LDA_ABSY: u8 = 0xB9;

pub const LDA_ABSY_CCOST: u32 = 4;

pub const LDA_ZPX_IND: u8 = 0xA1;

pub const LDA_ZPX_IND_CCOST: u32 = 6;

// +1 on page cross.
pub const LDA_ZPY_IND: u8 = 0xB1;

pub const LDA_ZPY_IND_CCOST: u32 = 5;

// Load index X (LDX) — flags N, Z.
pub const LDX_IMM: u8 = 0xA2;

pub const LDX_IMM_CCOST: u32 = 2;

pub const LDX_ZP: u8 = 0xA6;

pub const LDX_ZP_CCOST: u32 = 3;

pub const LDX_ZPY: u8 = 0xB6;

pub const LDX_ZPY_CCOST: u32 = 4;

pub const LDX_ABS: u8 = 0xAE;

pub const LDX_ABS_CCOST: u32 = 4;

// +1 on page cross.
pub const LDX_ABSY: u8 = 0xBE;

pub const LDX_ABSY_CCOST: u32 = 4;

// Load index Y (LDY) — flags N, Z.
pub const LDY_IMM: u8 = 0xA0;

pub const LDY_IMM_CCOST: u32 = 2;

pub const LDY_ZP: u8 = 0xA4;

pub const LDY_ZP_CCOST: u32 = 3;

pub const LDY_ZPX: u8 = 0xB4;

pub const LDY_ZPX_CCOST: u32 = 4;

pub const LDY_ABS: u8 = 0xAC;

pub const LDY_ABS_CCOST: u32 = 4;

// +1 on page cross.
pub const LDY_ABSX: u8 = 0xBC;

pub const LDY_ABSX_CCOST: u32 = 4;

// Stores — no flag effects.
pub const STA_ZP: u8 = 0x85;

pub const STA_ZP_CCOST: u32 = 3;

pub const STA_ZPX: u8 = 0x95;

pub const STA_ZPX_CCOST: u32 = 4;

pub const STA_ABS: u8 = 0x8D;

pub const STA_ABS_CCOST: u32 = 4;

pub const STA_ABSX: u8 = 0x9D;

pub const STA_ABSX_CCOST: u32 = 5;

pub const STA_ABSY: u8 = 0x99;

pub const STA_ABSY_CCOST: u32 = 5;

pub const STA_ZPX_IND: u8 = 0x81;

pub const STA_ZPX_IND_CCOST: u32 = 6;

pub const STA_ZPY_IND: u8 = 0x91;

pub const STA_ZPY_IND_CCOST: u32 = 6;

pub const STX_ZP: u8 = 0x86;

pub const STX_ZP_CCOST: u32 = 3;

pub const STX_ZPY: u8 = 0x96;

pub const STX_ZPY_CCOST: u32 = 4;

pub const STX_ABS: u8 = 0x8E;

pub const STX_ABS_CCOST: u32 = 4;

pub const STY_ZP: u8 = 0x84;

pub const STY_ZP_CCOST: u32 = 3;

pub const STY_ZPX: u8 = 0x94;

pub const STY_ZPX_CCOST: u32 = 4;

pub const STY_ABS: u8 = 0x8C;

pub const STY_ABS_CCOST: u32 = 4;

// Transfers — flags N, Z except TXS.
pub const TAX_IMP: u8 = 0xAA;

pub const TAX_IMP_CCOST: u32 = 2;

pub const TAY_IMP: u8 = 0xA8;

pub const TAY_IMP_CCOST: u32 = 2;

pub const TSX_IMP: u8 = 0xBA;

pub const TSX_IMP_CCOST: u32 = 2;

pub const TXA_IMP: u8 = 0x8A;

pub const TXA_IMP_CCOST: u32 = 2;

pub const TXS_IMP: u8 = 0x9A;

pub const TXS_IMP_CCOST: u32 = 2;

pub const TYA_IMP: u8 = 0x98;

pub const TYA_IMP_CCOST: u32 = 2;

// Stack operations.
pub const PHA_IMP: u8 = 0x48;

pub const PHA_IMP_CCOST: u32 = 3;

pub const PHP_IMP: u8 = 0x08;

pub const PHP_IMP_CCOST: u32 = 3;

pub const PLA_IMP: u8 = 0x68;

pub const PLA_IMP_CCOST: u32 = 4;

pub const PLP_IMP: u8 = 0x28;

pub const PLP_IMP_CCOST: u32 = 4;

// Shifts and rotates — flags N, Z, C.
pub const ASL_ACC: u8 = 0x0A;

pub const ASL_ACC_CCOST: u32 = 2;

pub const ASL_ZP: u8 = 0x06;

pub const ASL_ZP_CCOST: u32 = 5;

pub const ASL_ZPX: u8 = 0x16;

pub const ASL_ZPX_CCOST: u32 = 6;

pub const ASL_ABS: u8 = 0x0E;

pub const ASL_ABS_CCOST: u32 = 6;

pub const ASL_ABSX: u8 = 0x1E;

pub const ASL_ABSX_CCOST: u32 = 7;

pub const LSR_ACC: u8 = 0x4A;

pub const LSR_ACC_CCOST: u32 = 2;

pub const LSR_ZP: u8 = 0x46;

pub const LSR_ZP_CCOST: u32 = 5;

pub const LSR_ZPX: u8 = 0x56;

pub const LSR_ZPX_CCOST: u32 = 6;

pub const LSR_ABS: u8 = 0x4E;

pub const LSR_ABS_CCOST: u32 = 6;

pub const LSR_ABSX: u8 = 0x5E;

pub const LSR_ABSX_CCOST: u32 = 7;

pub const ROL_ACC: u8 = 0x2A;

pub const ROL_ACC_CCOST: u32 = 2;

pub const ROL_ZP: u8 = 0x26;

pub const ROL_ZP_CCOST: u32 = 5;

pub const ROL_ZPX: u8 = 0x36;

pub const ROL_ZPX_CCOST: u32 = 6;

pub const ROL_ABS: u8 = 0x2E;

pub const ROL_ABS_CCOST: u32 = 6;

pub const ROL_ABSX: u8 = 0x3E;

pub const ROL_ABSX_CCOST: u32 = 7;

pub const ROR_ACC: u8 = 0x6A;

pub const ROR_ACC_CCOST: u32 = 2;

pub const ROR_ZP: u8 = 0x66;

pub const ROR_ZP_CCOST: u32 = 5;

pub const ROR_ZPX: u8 = 0x76;

pub const ROR_ZPX_CCOST: u32 = 6;

pub const ROR_ABS: u8 = 0x6E;

pub const ROR_ABS_CCOST: u32 = 6;

pub const ROR_ABSX: u8 = 0x7E;

pub const ROR_ABSX_CCOST: u32 = 7;

// Logic — flags N, Z.  Indexed reads: +1 on page cross.
pub const AND_IMM: u8 = 0x29;

pub const AND_IMM_CCOST: u32 = 2;

pub const AND_ZP: u8 = 0x25;

pub const AND_ZP_CCOST: u32 = 3;

pub const AND_ZPX: u8 = 0x35;

pub const AND_ZPX_CCOST: u32 = 4;

pub const AND_ABS: u8 = 0x2D;

pub const AND_ABS_CCOST: u32 = 4;

pub const AND_ABSX: u8 = 0x3D;

pub const AND_ABSX_CCOST: u32 = 4;

pub const AND_ABSY: u8 = 0x39;

pub const AND_ABSY_CCOST: u32 = 4;

pub const AND_ZPX_IND: u8 = 0x21;

pub const AND_ZPX_IND_CCOST: u32 = 6;

pub const AND_ZPY_IND: u8 = 0x31;

pub const AND_ZPY_IND_CCOST: u32 = 5;

pub const ORA_IMM: u8 = 0x09;

pub const ORA_IMM_CCOST: u32 = 2;

pub const ORA_ZP: u8 = 0x05;

pub const ORA_ZP_CCOST: u32 = 3;

pub const ORA_ZPX: u8 = 0x15;

pub const ORA_ZPX_CCOST: u32 = 4;

pub const ORA_ABS: u8 = 0x0D;

pub const ORA_ABS_CCOST: u32 = 4;

pub const ORA_ABSX: u8 = 0x1D;

pub const ORA_ABSX_CCOST: u32 = 4;

pub const ORA_ABSY: u8 = 0x19;

pub const ORA_ABSY_CCOST: u32 = 4;

pub const ORA_ZPX_IND: u8 = 0x01;

pub const ORA_ZPX_IND_CCOST: u32 = 6;

pub const ORA_ZPY_IND: u8 = 0x11;

pub const ORA_ZPY_IND_CCOST: u32 = 5;

pub const EOR_IMM: u8 = 0x49;

pub const EOR_IMM_CCOST: u32 = 2;

pub const EOR_ZP: u8 = 0x45;

pub const EOR_ZP_CCOST: u32 = 3;

pub const EOR_ZPX: u8 = 0x55;

pub const EOR_ZPX_CCOST: u32 = 4;

pub const EOR_ABS: u8 = 0x4D;

pub const EOR_ABS_CCOST: u32 = 4;

pub const EOR_ABSX: u8 = 0x5D;

pub const EOR_ABSX_CCOST: u32 = 4;

pub const EOR_ABSY: u8 = 0x59;

pub const EOR_ABSY_CCOST: u32 = 4;

pub const EOR_ZPX_IND: u8 = 0x41;

pub const EOR_ZPX_IND_CCOST: u32 = 6;

pub const EOR_ZPY_IND: u8 = 0x51;

pub const EOR_ZPY_IND_CCOST: u32 = 5;

// Bit test — flags N, V, Z.
pub const BIT_ZP: u8 = 0x24;

pub const BIT_ZP_CCOST: u32 = 3;

pub const BIT_ABS: u8 = 0x2C;

pub const BIT_ABS_CCOST: u32 = 4;

// Arithmetic — flags N, V, Z, C.  Indexed reads: +1 on page cross.
pub const ADC_IMM: u8 = 0x69;

pub const ADC_IMM_CCOST: u32 = 2;

pub const ADC_ZP: u8 = 0x65;

pub const ADC_ZP_CCOST: u32 = 3;

pub const ADC_ZPX: u8 = 0x75;

pub const ADC_ZPX_CCOST: u32 = 4;

pub const ADC_ABS: u8 = 0x6D;

pub const ADC_ABS_CCOST: u32 = 4;

pub const ADC_ABSX: u8 = 0x7D;

pub const ADC_ABSX_CCOST: u32 = 4;

pub const ADC_ABSY: u8 = 0x79;

pub const ADC_ABSY_CCOST: u32 = 4;

pub const ADC_ZPX_IND: u8 = 0x61;

pub const ADC_ZPX_IND_CCOST: u32 = 6;

pub const ADC_ZPY_IND: u8 = 0x71;

pub const ADC_ZPY_IND_CCOST: u32 = 5;

pub const SBC_IMM: u8 = 0xE9;

pub const SBC_IMM_CCOST: u32 = 2;

pub const SBC_ZP: u8 = 0xE5;

pub const SBC_ZP_CCOST: u32 = 3;

pub const SBC_ZPX: u8 = 0xF5;

pub const SBC_ZPX_CCOST: u32 = 4;

pub const SBC_ABS: u8 = 0xED;

pub const SBC_ABS_CCOST: u32 = 4;

pub const SBC_ABSX: u8 = 0xFD;

pub const SBC_ABSX_CCOST: u32 = 4;

pub const SBC_ABSY: u8 = 0xF9;

pub const SBC_ABSY_CCOST: u32 = 4;

pub const SBC_ZPX_IND: u8 = 0xE1;

pub const SBC_ZPX_IND_CCOST: u32 = 6;

pub const SBC_ZPY_IND: u8 = 0xF1;

pub const SBC_ZPY_IND_CCOST: u32 = 5;

// Compares — flags N, Z, C.  Indexed reads: +1 on page cross.
pub const CMP_IMM: u8 = 0xC9;

pub const CMP_IMM_CCOST: u32 = 2;

pub const CMP_ZP: u8 = 0xC5;

pub const CMP_ZP_CCOST: u32 = 3;

pub const CMP_ZPX: u8 = 0xD5;

pub const CMP_ZPX_CCOST: u32 = 4;

pub const CMP_ABS: u8 = 0xCD;

pub const CMP_ABS_CCOST: u32 = 4;

pub const CMP_ABSX: u8 = 0xDD;

pub const CMP_ABSX_CCOST: u32 = 4;

pub const CMP_ABSY: u8 = 0xD9;

pub const CMP_ABSY_CCOST: u32 = 4;

pub const CMP_ZPX_IND: u8 = 0xC1;

pub const CMP_ZPX_IND_CCOST: u32 = 6;

pub const CMP_ZPY_IND: u8 = 0xD1;

pub const CMP_ZPY_IND_CCOST: u32 = 5;

pub const CPX_IMM: u8 = 0xE0;

pub const CPX_IMM_CCOST: u32 = 2;

pub const CPX_ZP: u8 = 0xE4;

pub const CPX_ZP_CCOST: u32 = 3;

pub const CPX_ABS: u8 = 0xEC;

pub const CPX_ABS_CCOST: u32 = 4;

pub const CPY_IMM: u8 = 0xC0;

pub const CPY_IMM_CCOST: u32 = 2;

pub const CPY_ZP: u8 = 0xC4;

pub const CPY_ZP_CCOST: u32 = 3;

pub const CPY_ABS: u8 = 0xCC;

pub const CPY_ABS_CCOST: u32 = 4;

// Increments and decrements — flags N, Z.
pub const INC_ZP: u8 = 0xE6;

pub const INC_ZP_CCOST: u32 = 5;

pub const INC_ZPX: u8 = 0xF6;

pub const INC_ZPX_CCOST: u32 = 6;

pub const INC_ABS: u8 = 0xEE;

pub const INC_ABS_CCOST: u32 = 6;

pub const INC_ABSX: u8 = 0xFE;

pub const INC_ABSX_CCOST: u32 = 7;

pub const DEC_ZP: u8 = 0xC6;

pub const DEC_ZP_CCOST: u32 = 5;

pub const DEC_ZPX: u8 = 0xD6;

pub const DEC_ZPX_CCOST: u32 = 6;

pub const DEC_ABS: u8 = 0xCE;

pub const DEC_ABS_CCOST: u32 = 6;

pub const DEC_ABSX: u8 = 0xDE;

pub const DEC_ABSX_CCOST: u32 = 7;

pub const INX_IMP: u8 = 0xE8;

pub const INX_IMP_CCOST: u32 = 2;

pub const INY_IMP: u8 = 0xC8;

pub const INY_IMP_CCOST: u32 = 2;

pub const DEX_IMP: u8 = 0xCA;

pub const DEX_IMP_CCOST: u32 = 2;

pub const DEY_IMP: u8 = 0x88;

pub const DEY_IMP_CCOST: u32 = 2;

// Branches — base cost 2; +1 when taken, +1 more on page cross.
pub const BCC_REL: u8 = 0x90;

pub const BCC_REL_CCOST: u32 = 2;

pub const BCS_REL: u8 = 0xB0;

pub const BCS_REL_CCOST: u32 = 2;

pub const BEQ_REL: u8 = 0xF0;

pub const BEQ_REL_CCOST: u32 = 2;

pub const BNE_REL: u8 = 0xD0;

pub const BNE_REL_CCOST: u32 = 2;

pub const BMI_REL: u8 = 0x30;

pub const BMI_REL_CCOST: u32 = 2;

pub const BPL_REL: u8 = 0x10;

pub const BPL_REL_CCOST: u32 = 2;

pub const BVC_REL: u8 = 0x50;

pub const BVC_REL_CCOST: u32 = 2;

pub const BVS_REL: u8 = 0x70;

pub const BVS_REL_CCOST: u32 = 2;

// Jumps, subroutines and interrupts.
pub const JMP_ABS: u8 = 0x4C;

pub const JMP_ABS_CCOST: u32 = 3;

pub const JMP_ABS_IND: u8 = 0x6C;

pub const JMP_ABS_IND_CCOST: u32 = 5;

pub const JSR_ABS: u8 = 0x20;

pub const JSR_ABS_CCOST: u32 = 6;

pub const RTS_IMP: u8 = 0x60;

pub const RTS_IMP_CCOST: u32 = 6;

pub const RTI_IMP: u8 = 0x40;

pub const RTI_IMP_CCOST: u32 = 6;

pub const BRK_IMP: u8 = 0x00;

pub const BRK_IMP_CCOST: u32 = 7;

// Flag instructions — each touches exactly one flag.
pub const CLC_IMP: u8 = 0x18;

pub const CLC_IMP_CCOST: u32 = 2;

pub const SEC_IMP: u8 = 0x38;

pub const SEC_IMP_CCOST: u32 = 2;

pub const CLI_IMP: u8 = 0x58;

pub const CLI_IMP_CCOST: u32 = 2;

pub const SEI_IMP: u8 = 0x78;

pub const SEI_IMP_CCOST: u32 = 2;

pub const CLD_IMP: u8 = 0xD8;

pub const CLD_IMP_CCOST: u32 = 2;

pub const SED_IMP: u8 = 0xF8;

pub const SED_IMP_CCOST: u32 = 2;

pub const CLV_IMP: u8 = 0xB8;

pub const CLV_IMP_CCOST: u32 = 2;

// No operation.
pub const NOP_IMP: u8 = 0xEA;

pub const NOP_IMP_CCOST: u32 = 2;

} // verus!
