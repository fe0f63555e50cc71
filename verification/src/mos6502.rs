//! The executable MOS 6502 CPU.
//!
//! Every method is verified against the ghost model in [`crate::model`]:
//! the instruction handlers produce exactly the state that [`model::ins_spec`]
//! prescribes, the dispatch loop [`Mos6502::exe`] realises [`model::run_spec`],
//! and so every cycle charge, flag effect and addressing quirk of the model
//! holds of the running emulator.

use vstd::prelude::*;

use crate::memory::Byte;
use crate::memory::Memory;
use crate::model;
use crate::model::AddrMode;
use crate::model::AluOp;
use crate::model::BranchOn;
use crate::model::CpuState;
use crate::model::FlagSel;
use crate::model::Instr;
use crate::model::Reg;
use crate::model::ShiftOp;

verus! {

/// The largest cycle budget [`Mos6502::exe`] accepts; larger requests are
/// clamped so the 32-bit cycle counter can never overflow mid-instruction.
pub const CYCLE_LIMIT_MAX: u32 = 0xFFFF_FF00;

/// The eight processor-status flags, ordered by bit position in the packed
/// status byte (`C` is bit 0, `N` is bit 7).
#[derive(PartialEq, Eq, Structural, Clone, Copy, Debug)]
pub enum Mos6502Flags {
    C,
    Z,
    I,
    D,
    B,
    U,
    V,
    N,
}

/// The single-bit mask of a flag within the packed status byte.
pub open spec fn flag_mask(f: Mos6502Flags) -> u8 {
    match f {
        Mos6502Flags::C => 0x01,
        Mos6502Flags::Z => 0x02,
        Mos6502Flags::I => 0x04,
        Mos6502Flags::D => 0x08,
        Mos6502Flags::B => 0x10,
        Mos6502Flags::U => 0x20,
        Mos6502Flags::V => 0x40,
        Mos6502Flags::N => 0x80,
    }
}

impl Mos6502Flags {
    /// The exec-side mask of this flag.
    pub fn mask(self) -> (r: Byte)
        ensures
            r == flag_mask(self),
    {
        match self {
            Mos6502Flags::C => 0x01,
            Mos6502Flags::Z => 0x02,
            Mos6502Flags::I => 0x04,
            Mos6502Flags::D => 0x08,
            Mos6502Flags::B => 0x10,
            Mos6502Flags::U => 0x20,
            Mos6502Flags::V => 0x40,
            Mos6502Flags::N => 0x80,
        }
    }

    /// Sets this flag's bit in a packed status byte.
    pub fn set(self, status: &mut Byte)
        ensures
            *final(status) == *old(status) | flag_mask(self),
    {
        *status = *status | self.mask();
    }

    /// Clears this flag's bit in a packed status byte.
    pub fn clear(self, status: &mut Byte)
        ensures
            *final(status) == *old(status) & !flag_mask(self),
    {
        *status = *status & !self.mask();
    }

    /// Reads this flag's bit from a packed status byte.
    pub fn get(self, status: Byte) -> (r: bool)
        ensures
            r == (status & flag_mask(self) != 0),
    {
        status & self.mask() != 0
    }
}

/// The state with one flag forced to true, as the test-only mutator
/// [`Mos6502::set_status_flag`] leaves it.
pub open spec fn with_flag_set(s: CpuState, f: Mos6502Flags) -> CpuState {
    match f {
        Mos6502Flags::C => CpuState { c: true, ..s },
        Mos6502Flags::Z => CpuState { z: true, ..s },
        Mos6502Flags::I => CpuState { i: true, ..s },
        Mos6502Flags::D => CpuState { d: true, ..s },
        Mos6502Flags::B => CpuState { b: true, ..s },
        Mos6502Flags::U => CpuState { u: true, ..s },
        Mos6502Flags::V => CpuState { v: true, ..s },
        Mos6502Flags::N => CpuState { n: true, ..s },
    }
}

/// The state with one flag forced to false, as [`Mos6502::clear_status_flag`]
/// leaves it.
pub open spec fn with_flag_clear(s: CpuState, f: Mos6502Flags) -> CpuState {
    match f {
        Mos6502Flags::C => CpuState { c: false, ..s },
        Mos6502Flags::Z => CpuState { z: false, ..s },
        Mos6502Flags::I => CpuState { i: false, ..s },
        Mos6502Flags::D => CpuState { d: false, ..s },
        Mos6502Flags::B => CpuState { b: false, ..s },
        Mos6502Flags::U => CpuState { u: false, ..s },
        Mos6502Flags::V => CpuState { v: false, ..s },
        Mos6502Flags::N => CpuState { n: false, ..s },
    }
}

/// How a call to [`Mos6502::exe`] ended.
#[derive(PartialEq, Eq, Structural, Clone, Copy, Debug)]
pub enum RunResult {
    /// The cycle budget was reached.
    Completed,
    /// An undocumented opcode was about to be fetched; the run stopped with
    /// the offending byte and the address it sits at.
    HaltedOnIllegal { opcode: u8, pc: u16 },
}

/// The effective cycle budget: the caller's budget clamped to
/// [`CYCLE_LIMIT_MAX`]; no budget means the largest representable one.
pub open spec fn effective_limit(cycle_limit: Option<u32>) -> u32 {
    match cycle_limit {
        Some(l) => if l <= CYCLE_LIMIT_MAX {
            l
        } else {
            CYCLE_LIMIT_MAX
        },
        None => CYCLE_LIMIT_MAX,
    }
}

/// The decoder: maps a documented opcode byte to its structured instruction,
/// and an undocumented byte to `None`, exactly as [`model::decode`] does.
pub fn decode_op(op: u8) -> (r: Option<Instr>)
    ensures
        r == model::decode(op),
{
    match op {
        0x00u8 => Some(Instr::Brk),
        0x01u8 => Some(Instr::Alu(AluOp::Ora, AddrMode::IndirectX)),
        0x05u8 => Some(Instr::Alu(AluOp::Ora, AddrMode::ZeroPage)),
        0x06u8 => Some(Instr::ShiftMem(ShiftOp::Asl, AddrMode::ZeroPage)),
        0x08u8 => Some(Instr::Php),
        0x09u8 => Some(Instr::Alu(AluOp::Ora, AddrMode::Immediate)),
        0x0Au8 => Some(Instr::ShiftAcc(ShiftOp::Asl)),
        0x0Du8 => Some(Instr::Alu(AluOp::Ora, AddrMode::Absolute)),
        0x0Eu8 => Some(Instr::ShiftMem(ShiftOp::Asl, AddrMode::Absolute)),
        0x10u8 => Some(Instr::Branch(BranchOn::Plus)),
        0x11u8 => Some(Instr::Alu(AluOp::Ora, AddrMode::IndirectY)),
        0x15u8 => Some(Instr::Alu(AluOp::Ora, AddrMode::ZeroPageX)),
        0x16u8 => Some(Instr::ShiftMem(ShiftOp::Asl, AddrMode::ZeroPageX)),
        0x18u8 => Some(Instr::SetFlag(FlagSel::Carry, false)),
        0x19u8 => Some(Instr::Alu(AluOp::Ora, AddrMode::AbsoluteY)),
        0x1Du8 => Some(Instr::Alu(AluOp::Ora, AddrMode::AbsoluteX)),
        0x1Eu8 => Some(Instr::ShiftMem(ShiftOp::Asl, AddrMode::AbsoluteX)),
        0x20u8 => Some(Instr::Jsr),
        0x21u8 => Some(Instr::Alu(AluOp::And, AddrMode::IndirectX)),
        0x24u8 => Some(Instr::Bit(AddrMode::ZeroPage)),
        0x25u8 => Some(Instr::Alu(AluOp::And, AddrMode::ZeroPage)),
        0x26u8 => Some(Instr::ShiftMem(ShiftOp::Rol, AddrMode::ZeroPage)),
        0x28u8 => Some(Instr::Plp),
        0x29u8 => Some(Instr::Alu(AluOp::And, AddrMode::Immediate)),
        0x2Au8 => Some(Instr::ShiftAcc(ShiftOp::Rol)),
        0x2Cu8 => Some(Instr::Bit(AddrMode::Absolute)),
        0x2Du8 => Some(Instr::Alu(AluOp::And, AddrMode::Absolute)),
        0x2Eu8 => Some(Instr::ShiftMem(ShiftOp::Rol, AddrMode::Absolute)),
        0x30u8 => Some(Instr::Branch(BranchOn::Minus)),
        0x31u8 => Some(Instr::Alu(AluOp::And, AddrMode::IndirectY)),
        0x35u8 => Some(Instr::Alu(AluOp::And, AddrMode::ZeroPageX)),
        0x36u8 => Some(Instr::ShiftMem(ShiftOp::Rol, AddrMode::ZeroPageX)),
        0x38u8 => Some(Instr::SetFlag(FlagSel::Carry, true)),
        0x39u8 => Some(Instr::Alu(AluOp::And, AddrMode::AbsoluteY)),
        0x3Du8 => Some(Instr::Alu(AluOp::And, AddrMode::AbsoluteX)),
        0x3Eu8 => Some(Instr::ShiftMem(ShiftOp::Rol, AddrMode::AbsoluteX)),
        0x40u8 => Some(Instr::Rti),
        0x41u8 => Some(Instr::Alu(AluOp::Eor, AddrMode::IndirectX)),
        0x45u8 => Some(Instr::Alu(AluOp::Eor, AddrMode::ZeroPage)),
        0x46u8 => Some(Instr::ShiftMem(ShiftOp::Lsr, AddrMode::ZeroPage)),
        0x48u8 => Some(Instr::Pha),
        0x49u8 => Some(Instr::Alu(AluOp::Eor, AddrMode::Immediate)),
        0x4Au8 => Some(Instr::ShiftAcc(ShiftOp::Lsr)),
        0x4Cu8 => Some(Instr::JmpAbs),
        0x4Du8 => Some(Instr::Alu(AluOp::Eor, AddrMode::Absolute)),
        0x4Eu8 => Some(Instr::ShiftMem(ShiftOp::Lsr, AddrMode::Absolute)),
        0x50u8 => Some(Instr::Branch(BranchOn::OverflowClear)),
        0x51u8 => Some(Instr::Alu(AluOp::Eor, AddrMode::IndirectY)),
        0x55u8 => Some(Instr::Alu(AluOp::Eor, AddrMode::ZeroPageX)),
        0x56u8 => Some(Instr::ShiftMem(ShiftOp::Lsr, AddrMode::ZeroPageX)),
        0x58u8 => Some(Instr::SetFlag(FlagSel::Interrupt, false)),
        0x59u8 => Some(Instr::Alu(AluOp::Eor, AddrMode::AbsoluteY)),
        0x5Du8 => Some(Instr::Alu(AluOp::Eor, AddrMode::AbsoluteX)),
        0x5Eu8 => Some(Instr::ShiftMem(ShiftOp::Lsr, AddrMode::AbsoluteX)),
        0x60u8 => Some(Instr::Rts),
        0x61u8 => Some(Instr::Alu(AluOp::Adc, AddrMode::IndirectX)),
        0x65u8 => Some(Instr::Alu(AluOp::Adc, AddrMode::ZeroPage)),
        0x66u8 => Some(Instr::ShiftMem(ShiftOp::Ror, AddrMode::ZeroPage)),
        0x68u8 => Some(Instr::Pla),
        0x69u8 => Some(Instr::Alu(AluOp::Adc, AddrMode::Immediate)),
        0x6Au8 => Some(Instr::ShiftAcc(ShiftOp::Ror)),
        0x6Cu8 => Some(Instr::JmpInd),
        0x6Du8 => Some(Instr::Alu(AluOp::Adc, AddrMode::Absolute)),
        0x6Eu8 => Some(Instr::ShiftMem(ShiftOp::Ror, AddrMode::Absolute)),
        0x70u8 => Some(Instr::Branch(BranchOn::OverflowSet)),
        0x71u8 => Some(Instr::Alu(AluOp::Adc, AddrMode::IndirectY)),
        0x75u8 => Some(Instr::Alu(AluOp::Adc, AddrMode::ZeroPageX)),
        0x76u8 => Some(Instr::ShiftMem(ShiftOp::Ror, AddrMode::ZeroPageX)),
        0x78u8 => Some(Instr::SetFlag(FlagSel::Interrupt, true)),
        0x79u8 => Some(Instr::Alu(AluOp::Adc, AddrMode::AbsoluteY)),
        0x7Du8 => Some(Instr::Alu(AluOp::Adc, AddrMode::AbsoluteX)),
        0x7Eu8 => Some(Instr::ShiftMem(ShiftOp::Ror, AddrMode::AbsoluteX)),
        0x81u8 => Some(Instr::Store(Reg::A, AddrMode::IndirectX)),
        0x84u8 => Some(Instr::Store(Reg::Y, AddrMode::ZeroPage)),
        0x85u8 => Some(Instr::Store(Reg::A, AddrMode::ZeroPage)),
        0x86u8 => Some(Instr::Store(Reg::X, AddrMode::ZeroPage)),
        0x88u8 => Some(Instr::Dey),
        0x8Au8 => Some(Instr::Txa),
        0x8Cu8 => Some(Instr::Store(Reg::Y, AddrMode::Absolute)),
        0x8Du8 => Some(Instr::Store(Reg::A, AddrMode::Absolute)),
        0x8Eu8 => Some(Instr::Store(Reg::X, AddrMode::Absolute)),
        0x90u8 => Some(Instr::Branch(BranchOn::CarryClear)),
        0x91u8 => Some(Instr::Store(Reg::A, AddrMode::IndirectY)),
        0x94u8 => Some(Instr::Store(Reg::Y, AddrMode::ZeroPageX)),
        0x95u8 => Some(Instr::Store(Reg::A, AddrMode::ZeroPageX)),
        0x96u8 => Some(Instr::Store(Reg::X, AddrMode::ZeroPageY)),
        0x98u8 => Some(Instr::Tya),
        0x99u8 => Some(Instr::Store(Reg::A, AddrMode::AbsoluteY)),
        0x9Au8 => Some(Instr::Txs),
        0x9Du8 => Some(Instr::Store(Reg::A, AddrMode::AbsoluteX)),
        0xA0u8 => Some(Instr::Load(Reg::Y, AddrMode::Immediate)),
        0xA1u8 => Some(Instr::Load(Reg::A, AddrMode::IndirectX)),
        0xA2u8 => Some(Instr::Load(Reg::X, AddrMode::Immediate)),
        0xA4u8 => Some(Instr::Load(Reg::Y, AddrMode::ZeroPage)),
        0xA5u8 => Some(Instr::Load(Reg::A, AddrMode::ZeroPage)),
        0xA6u8 => Some(Instr::Load(Reg::X, AddrMode::ZeroPage)),
        0xA8u8 => Some(Instr::Tay),
        0xA9u8 => Some(Instr::Load(Reg::A, AddrMode::Immediate)),
        0xAAu8 => Some(Instr::Tax),
        0xACu8 => Some(Instr::Load(Reg::Y, AddrMode::Absolute)),
        0xADu8 => Some(Instr::Load(Reg::A, AddrMode::Absolute)),
        0xAEu8 => Some(Instr::Load(Reg::X, AddrMode::Absolute)),
        0xB0u8 => Some(Instr::Branch(BranchOn::CarrySet)),
        0xB1u8 => Some(Instr::Load(Reg::A, AddrMode::IndirectY)),
        0xB4u8 => Some(Instr::Load(Reg::Y, AddrMode::ZeroPageX)),
        0xB5u8 => Some(Instr::Load(Reg::A, AddrMode::ZeroPageX)),
        0xB6u8 => Some(Instr::Load(Reg::X, AddrMode::ZeroPageY)),
        0xB8u8 => Some(Instr::SetFlag(FlagSel::Overflow, false)),
        0xB9u8 => Some(Instr::Load(Reg::A, AddrMode::AbsoluteY)),
        0xBAu8 => Some(Instr::Tsx),
        0xBCu8 => Some(Instr::Load(Reg::Y, AddrMode::AbsoluteX)),
        0xBDu8 => Some(Instr::Load(Reg::A, AddrMode::AbsoluteX)),
        0xBEu8 => Some(Instr::Load(Reg::X, AddrMode::AbsoluteY)),
        0xC0u8 => Some(Instr::Cmp(Reg::Y, AddrMode::Immediate)),
        0xC1u8 => Some(Instr::Cmp(Reg::A, AddrMode::IndirectX)),
        0xC4u8 => Some(Instr::Cmp(Reg::Y, AddrMode::ZeroPage)),
        0xC5u8 => Some(Instr::Cmp(Reg::A, AddrMode::ZeroPage)),
        0xC6u8 => Some(Instr::DecMem(AddrMode::ZeroPage)),
        0xC8u8 => Some(Instr::Iny),
        0xC9u8 => Some(Instr::Cmp(Reg::A, AddrMode::Immediate)),
        0xCAu8 => Some(Instr::Dex),
        0xCCu8 => Some(Instr::Cmp(Reg::Y, AddrMode::Absolute)),
        0xCDu8 => Some(Instr::Cmp(Reg::A, AddrMode::Absolute)),
        0xCEu8 => Some(Instr::DecMem(AddrMode::Absolute)),
        0xD0u8 => Some(Instr::Branch(BranchOn::NotZero)),
        0xD1u8 => Some(Instr::Cmp(Reg::A, AddrMode::IndirectY)),
        0xD5u8 => Some(Instr::Cmp(Reg::A, AddrMode::ZeroPageX)),
        0xD6u8 => Some(Instr::DecMem(AddrMode::ZeroPageX)),
        0xD8u8 => Some(Instr::SetFlag(FlagSel::Decimal, false)),
        0xD9u8 => Some(Instr::Cmp(Reg::A, AddrMode::AbsoluteY)),
        0xDDu8 => Some(Instr::Cmp(Reg::A, AddrMode::AbsoluteX)),
        0xDEu8 => Some(Instr::DecMem(AddrMode::AbsoluteX)),
        0xE0u8 => Some(Instr::Cmp(Reg::X, AddrMode::Immediate)),
        0xE1u8 => Some(Instr::Alu(AluOp::Sbc, AddrMode::IndirectX)),
        0xE4u8 => Some(Instr::Cmp(Reg::X, AddrMode::ZeroPage)),
        0xE5u8 => Some(Instr::Alu(AluOp::Sbc, AddrMode::ZeroPage)),
        0xE6u8 => Some(Instr::IncMem(AddrMode::ZeroPage)),
        0xE8u8 => Some(Instr::Inx),
        0xE9u8 => Some(Instr::Alu(AluOp::Sbc, AddrMode::Immediate)),
        0xEAu8 => Some(Instr::Nop),
        0xECu8 => Some(Instr::Cmp(Reg::X, AddrMode::Absolute)),
        0xEDu8 => Some(Instr::Alu(AluOp::Sbc, AddrMode::Absolute)),
        0xEEu8 => Some(Instr::IncMem(AddrMode::Absolute)),
        0xF0u8 => Some(Instr::Branch(BranchOn::Zero)),
        0xF1u8 => Some(Instr::Alu(AluOp::Sbc, AddrMode::IndirectY)),
        0xF5u8 => Some(Instr::Alu(AluOp::Sbc, AddrMode::ZeroPageX)),
        0xF6u8 => Some(Instr::IncMem(AddrMode::ZeroPageX)),
        0xF8u8 => Some(Instr::SetFlag(FlagSel::Decimal, true)),
        0xF9u8 => Some(Instr::Alu(AluOp::Sbc, AddrMode::AbsoluteY)),
        0xFDu8 => Some(Instr::Alu(AluOp::Sbc, AddrMode::AbsoluteX)),
        0xFEu8 => Some(Instr::IncMem(AddrMode::AbsoluteX)),
        _ => None,
    }
}

/// The CPU: three user registers, stack pointer, program counter, the eight
/// status flags, the cycle counter, and the memory image it owns.
pub struct Mos6502 {
    pub a: u8,
    pub x: u8,
    pub y: u8,
    pub sp: u8,
    pub pc: u16,
    pub c: bool,
    pub z: bool,
    pub i: bool,
    pub d: bool,
    pub b: bool,
    pub u: bool,
    pub v: bool,
    pub n: bool,
    pub cycles: u32,
    pub mem: Memory,
}

impl View for Mos6502 {
    type V = CpuState;

    /// The machine state this CPU currently embodies.
    open spec fn view(&self) -> CpuState {
        CpuState {
            a: self.a,
            x: self.x,
            y: self.y,
            sp: self.sp,
            pc: self.pc,
            c: self.c,
            z: self.z,
            i: self.i,
            d: self.d,
            b: self.b,
            u: self.u,
            v: self.v,
            n: self.n,
            cycles: self.cycles as nat,
            mem: self.mem@,
        }
    }
}

impl Mos6502 {
    /// Well-formedness: the memory image covers the whole address space.
    pub open spec fn wf(&self) -> bool {
        self.mem.wf()
    }

    /// A CPU owning the given memory image, with cleared registers and
    /// flags and the stack pointer still at its power-on value.
    /// [`Mos6502::reset`] must run before execution starts.
    pub fn new(mem: Memory) -> (r: Self)
        requires
            mem.wf(),
        ensures
            r.wf(),
            r@ == (CpuState {
                a: 0,
                x: 0,
                y: 0,
                sp: 0xFF,
                pc: 0,
                c: false,
                z: false,
                i: false,
                d: false,
                b: false,
                u: false,
                v: false,
                n: false,
                cycles: 0,
                mem: mem@,
            }),
    {
        Mos6502 {
            a: 0,
            x: 0,
            y: 0,
            sp: 0xFF,
            pc: 0,
            c: false,
            z: false,
            i: false,
            d: false,
            b: false,
            u: false,
            v: false,
            n: false,
            cycles: 0,
            mem,
        }
    }

    /// The reset sequence: registers cleared, the status cleared except the
    /// interrupt-disable and unused bits, which come out of reset set, the
    /// stack pointer at its documented post-reset value, the program counter
    /// at the reset-vector address, and the cycle counter zeroed so tests
    /// can assert exact per-opcode costs.  Memory is untouched.
    pub fn reset(&mut self)
        requires
            old(self).wf(),
        ensures
            final(self).wf(),
            final(self)@ == (CpuState {
                a: 0,
                x: 0,
                y: 0,
                sp: 0xFD,
                pc: 0xFFFC,
                c: false,
                z: false,
                i: true,
                d: false,
                b: false,
                u: true,
                v: false,
                n: false,
                cycles: 0,
                mem: old(self)@.mem,
            }),
    {
        self.a = 0;
        self.x = 0;
        self.y = 0;
        self.sp = 0xFD;
        self.pc = 0xFFFC;
        self.c = false;
        self.z = false;
        self.i = true;
        self.d = false;
        self.b = false;
        self.u = true;
        self.v = false;
        self.n = false;
        self.cycles = 0;
    }

    // ---- accessors -------------------------------------------------------

    pub fn zero_flag(&self) -> (r: bool)
        ensures
            r == self@.z,
    {
        self.z
    }

    pub fn negative_flag(&self) -> (r: bool)
        ensures
            r == self@.n,
    {
        self.n
    }

    pub fn carry_flag(&self) -> (r: bool)
        ensures
            r == self@.c,
    {
        self.c
    }

    pub fn interrupts_disable_flag(&self) -> (r: bool)
        ensures
            r == self@.i,
    {
        self.i
    }

    pub fn decimal_mode_flag(&self) -> (r: bool)
        ensures
            r == self@.d,
    {
        self.d
    }

    pub fn break_flag(&self) -> (r: bool)
        ensures
            r == self@.b,
    {
        self.b
    }

    pub fn unused_flag(&self) -> (r: bool)
        ensures
            r == self@.u,
    {
        self.u
    }

    pub fn overflow_flag(&self) -> (r: bool)
        ensures
            r == self@.v,
    {
        self.v
    }

    pub fn get_accumulator(&self) -> (r: Byte)
        ensures
            r == self@.a,
    {
        self.a
    }

    pub fn get_xreg(&self) -> (r: Byte)
        ensures
            r == self@.x,
    {
        self.x
    }

    pub fn get_yreg(&self) -> (r: Byte)
        ensures
            r == self@.y,
    {
        self.y
    }

    pub fn get_sp(&self) -> (r: Byte)
        ensures
            r == self@.sp,
    {
        self.sp
    }

    pub fn get_pc(&self) -> (r: u16)
        ensures
            r == self@.pc,
    {
        self.pc
    }

    pub fn get_cycles(&self) -> (r: u32)
        ensures
            r == self@.cycles,
    {
        self.cycles
    }

    /// The packed status byte `NV-UB-DIZC` exactly as the model packs it.
    pub fn get_status(&self) -> (r: Byte)
        ensures
            r == model::status_byte(self@),
    {
        self.pack_status(self.b, self.u)
    }

    // ---- test-only mutators ---------------------------------------------

    pub fn set_xreg(&mut self, data: Byte)
        ensures
            final(self)@ == (CpuState { x: data, ..old(self)@ }),
            final(self).wf() == old(self).wf(),
    {
        self.x = data;
    }

    pub fn set_yreg(&mut self, data: Byte)
        ensures
            final(self)@ == (CpuState { y: data, ..old(self)@ }),
            final(self).wf() == old(self).wf(),
    {
        self.y = data;
    }

    pub fn set_accumulator(&mut self, data: Byte)
        ensures
            final(self)@ == (CpuState { a: data, ..old(self)@ }),
            final(self).wf() == old(self).wf(),
    {
        self.a = data;
    }

    pub fn set_sp(&mut self, data: Byte)
        ensures
            final(self)@ == (CpuState { sp: data, ..old(self)@ }),
            final(self).wf() == old(self).wf(),
    {
        self.sp = data;
    }

    pub fn set_pc(&mut self, data: u16)
        ensures
            final(self)@ == (CpuState { pc: data, ..old(self)@ }),
            final(self).wf() == old(self).wf(),
    {
        self.pc = data;
    }

    /// Forces one status flag on, so a test can start from the opposite
    /// state of a flag instruction's target.
    pub fn set_status_flag(&mut self, flag: Mos6502Flags)
        ensures
            final(self)@ == with_flag_set(old(self)@, flag),
            final(self).wf() == old(self).wf(),
    {
        match flag {
            Mos6502Flags::C => self.c = true,
            Mos6502Flags::Z => self.z = true,
            Mos6502Flags::I => self.i = true,
            Mos6502Flags::D => self.d = true,
            Mos6502Flags::B => self.b = true,
            Mos6502Flags::U => self.u = true,
            Mos6502Flags::V => self.v = true,
            Mos6502Flags::N => self.n = true,
        }
    }

    /// Forces one status flag off.
    pub fn clear_status_flag(&mut self, flag: Mos6502Flags)
        ensures
            final(self)@ == with_flag_clear(old(self)@, flag),
            final(self).wf() == old(self).wf(),
    {
        match flag {
            Mos6502Flags::C => self.c = false,
            Mos6502Flags::Z => self.z = false,
            Mos6502Flags::I => self.i = false,
            Mos6502Flags::D => self.d = false,
            Mos6502Flags::B => self.b = false,
            Mos6502Flags::U => self.u = false,
            Mos6502Flags::V => self.v = false,
            Mos6502Flags::N => self.n = false,
        }
    }

    // ---- bus and helper operations --------------------------------------

    /// Charges one machine cycle.
    fn cycle(&mut self)
        requires
            old(self).cycles < u32::MAX,
        ensures
            final(self)@ == model::tick(old(self)@, 1),
            final(self).wf() == old(self).wf(),
    {
        self.cycles = self.cycles + 1;
    }

    /// One bus read: returns the byte at `addr` and charges one cycle.
    fn read_mem(&mut self, addr: u16) -> (r: Byte)
        requires
            old(self).wf(),
            old(self).cycles < u32::MAX,
        ensures
            final(self).wf(),
            final(self)@ == model::tick(old(self)@, 1),
            r == model::rd(old(self)@, addr),
    {
        let b = self.mem.get_byte(addr as usize);
        self.cycle();
        b
    }

    /// One bus write: stores `val` at `addr` and charges one cycle.
    fn write_mem(&mut self, addr: u16, val: Byte)
        requires
            old(self).wf(),
            old(self).cycles < u32::MAX,
        ensures
            final(self).wf(),
            final(self)@ == (CpuState {
                mem: old(self)@.mem.update(addr as int, val),
                cycles: old(self)@.cycles + 1,
                ..old(self)@
            }),
    {
        self.mem.insert_byte(addr as usize, val);
        self.cycle();
    }

    /// Fetches the byte at the program counter, advancing it with 16-bit
    /// wrap-around and charging one cycle.
    fn fetch_byte(&mut self) -> (r: Byte)
        requires
            old(self).wf(),
            old(self).cycles < u32::MAX,
        ensures
            final(self).wf(),
            final(self)@ == model::fetch_opcode(old(self)@),
            r == model::rd(old(self)@, old(self)@.pc),
    {
        let b = self.mem.get_byte(self.pc as usize);
        self.pc = ((self.pc as u32 + 1) % 0x10000) as u16;
        self.cycle();
        b
    }

    /// Fetches the little-endian operand word at the program counter: two
    /// bus reads, two cycles.
    fn fetch_word(&mut self) -> (r: u16)
        requires
            old(self).wf(),
            old(self).cycles + 2 <= u32::MAX,
        ensures
            final(self).wf(),
            final(self)@ == (CpuState {
                pc: model::wrap16(old(self)@.pc + 2),
                cycles: old(self)@.cycles + 2,
                ..old(self)@
            }),
            r == model::abs_word(old(self)@),
    {
        let lo = self.fetch_byte();
        let hi = self.fetch_byte();
        lo as u16 + 256 * (hi as u16)
    }

    /// Sets the N and Z flags from a result byte.
    fn update_nz(&mut self, val: Byte)
        ensures
            final(self)@ == model::update_nz(old(self)@, val),
            final(self).wf() == old(self).wf(),
    {
        self.z = val == 0;
        self.n = val & 0x80 != 0;
    }

    /// Pushes a byte on the hardware stack: write at `0x0100 + SP`, then
    /// decrement SP with wrap-around; one cycle for the write.
    fn push_byte(&mut self, val: Byte)
        requires
            old(self).wf(),
            old(self).cycles < u32::MAX,
        ensures
            final(self).wf(),
            final(self)@ == model::push_spec(old(self)@, val),
    {
        let addr: u16 = 0x0100 + self.sp as u16;
        self.mem.insert_byte(addr as usize, val);
        self.sp = if self.sp == 0 {
            255
        } else {
            self.sp - 1
        };
        self.cycle();
    }

    /// Pulls a byte from the hardware stack: increment SP with wrap-around,
    /// then read at `0x0100 + SP`; one cycle for the read.
    fn pull_byte(&mut self) -> (r: Byte)
        requires
            old(self).wf(),
            old(self).cycles < u32::MAX,
        ensures
            final(self).wf(),
            final(self)@ == model::pull_spec(old(self)@).0,
            r == model::pull_spec(old(self)@).1,
    {
        self.sp = if self.sp == 255 {
            0
        } else {
            self.sp + 1
        };
        let addr: u16 = 0x0100 + self.sp as u16;
        let b = self.mem.get_byte(addr as usize);
        self.cycle();
        b
    }

    /// The packed status byte with B and U forced to the given values.
    fn pack_status(&self, bval: bool, uval: bool) -> (r: Byte)
        ensures
            r == model::status_byte_with(self@, bval, uval),
    {
        let mut r: u8 = 0;
        if self.c {
            r = r + 1;
        }
        if self.z {
            r = r + 2;
        }
        if self.i {
            r = r + 4;
        }
        if self.d {
            r = r + 8;
        }
        if bval {
            r = r + 16;
        }
        if uval {
            r = r + 32;
        }
        if self.v {
            r = r + 64;
        }
        if self.n {
            r = r + 128;
        }
        r
    }

    /// Installs a pulled status byte: all flags from its bits except B and
    /// U, which keep their current register values.
    fn apply_pulled_status(&mut self, val: Byte)
        ensures
            final(self)@ == model::unpack_status(old(self)@, val),
            final(self).wf() == old(self).wf(),
    {
        self.c = val & 0x01 != 0;
        self.z = val & 0x02 != 0;
        self.i = val & 0x04 != 0;
        self.d = val & 0x08 != 0;
        self.v = val & 0x40 != 0;
        self.n = val & 0x80 != 0;
    }

    /// Resolves a read operand: consumes the operand bytes, performs the
    /// address computation with all its wrap rules, charges the resolve,
    /// read and page-cross cycles, and returns the value read.
    #[verifier::rlimit(100)]
    fn operand_read(&mut self, m: AddrMode) -> (r: Byte)
        requires
            old(self).wf(),
            old(self).cycles + 6 <= u32::MAX,
        ensures
            final(self).wf(),
            final(self)@ == model::read_operand(old(self)@, m).0,
            r == model::read_operand(old(self)@, m).1,
    {
        match m {
            AddrMode::Immediate => self.fetch_byte(),
            AddrMode::ZeroPage => {
                let a = self.fetch_byte();
                self.read_mem(a as u16)
            },
            AddrMode::ZeroPageX => {
                let base = self.fetch_byte();
                let a = ((base as u16 + self.x as u16) % 256) as u8;
                self.cycle();
                self.read_mem(a as u16)
            },
            AddrMode::ZeroPageY => {
                let base = self.fetch_byte();
                let a = ((base as u16 + self.y as u16) % 256) as u8;
                self.cycle();
                self.read_mem(a as u16)
            },
            AddrMode::Absolute => {
                let a = self.fetch_word();
                self.read_mem(a)
            },
            AddrMode::AbsoluteX => {
                let lo = self.mem.get_byte(self.pc as usize);
                let base = self.fetch_word();
                let a = ((base as u32 + self.x as u32) % 0x10000) as u16;
                if lo as u16 + self.x as u16 > 255 {
                    self.cycle();
                }
                self.read_mem(a)
            },
            AddrMode::AbsoluteY => {
                let lo = self.mem.get_byte(self.pc as usize);
                let base = self.fetch_word();
                let a = ((base as u32 + self.y as u32) % 0x10000) as u16;
                if lo as u16 + self.y as u16 > 255 {
                    self.cycle();
                }
                self.read_mem(a)
            },
            AddrMode::IndirectX => {
                let base = self.fetch_byte();
                let p = ((base as u16 + self.x as u16) % 256) as u8;
                self.cycle();
                let lo = self.read_mem(p as u16);
                let hi = self.read_mem(((p as u16 + 1) % 256) as u16);
                self.read_mem(lo as u16 + 256 * (hi as u16))
            },
            AddrMode::IndirectY => {
                let p = self.fetch_byte();
                let lo = self.read_mem(p as u16);
                let hi = self.read_mem(((p as u16 + 1) % 256) as u16);
                let base = lo as u16 + 256 * (hi as u16);
                let a = ((base as u32 + self.y as u32) % 0x10000) as u16;
                if lo as u16 + self.y as u16 > 255 {
                    self.cycle();
                }
                self.read_mem(a)
            },
        }
    }

    /// Resolves a write or read-modify-write target address.  Indexed modes
    /// charge their fixed extra cycle here; stores have no conditional
    /// page-cross penalty.
    #[verifier::rlimit(100)]
    fn operand_target(&mut self, m: AddrMode) -> (r: u16)
        requires
            old(self).wf(),
            old(self).cycles + 5 <= u32::MAX,
        ensures
            final(self).wf(),
            final(self)@ == model::write_target(old(self)@, m).0,
            r == model::write_target(old(self)@, m).1,
    {
        match m {
            AddrMode::Immediate => {
                let a = self.pc;
                let _ = self.fetch_byte();
                a
            },
            AddrMode::ZeroPage => {
                let a = self.fetch_byte();
                a as u16
            },
            AddrMode::ZeroPageX => {
                let base = self.fetch_byte();
                self.cycle();
                ((base as u16 + self.x as u16) % 256) as u16
            },
            AddrMode::ZeroPageY => {
                let base = self.fetch_byte();
                self.cycle();
                ((base as u16 + self.y as u16) % 256) as u16
            },
            AddrMode::Absolute => self.fetch_word(),
            AddrMode::AbsoluteX => {
                let base = self.fetch_word();
                self.cycle();
                ((base as u32 + self.x as u32) % 0x10000) as u16
            },
            AddrMode::AbsoluteY => {
                let base = self.fetch_word();
                self.cycle();
                ((base as u32 + self.y as u32) % 0x10000) as u16
            },
            AddrMode::IndirectX => {
                let base = self.fetch_byte();
                let p = ((base as u16 + self.x as u16) % 256) as u8;
                self.cycle();
                let lo = self.read_mem(p as u16);
                let hi = self.read_mem(((p as u16 + 1) % 256) as u16);
                lo as u16 + 256 * (hi as u16)
            },
            AddrMode::IndirectY => {
                let p = self.fetch_byte();
                let lo = self.read_mem(p as u16);
                let hi = self.read_mem(((p as u16 + 1) % 256) as u16);
                let base = lo as u16 + 256 * (hi as u16);
                self.cycle();
                ((base as u32 + self.y as u32) % 0x10000) as u16
            },
        }
    }

    /// One shift or rotate on a byte, with the current carry as input where
    /// the operation rotates; returns the result and the new carry.
    fn shift_apply(op: ShiftOp, val: Byte, carry: bool) -> (r: (Byte, bool))
        ensures
            r.0 == model::shift_res(op, val, carry).0,
            r.1 == model::shift_res(op, val, carry).1,
    {
        match op {
            ShiftOp::Asl => (val << 1, val & 0x80 != 0),
            ShiftOp::Lsr => (val >> 1, val & 0x01 != 0),
            ShiftOp::Rol => (
                (val << 1) | (if carry {
                    1
                } else {
                    0
                }),
                val & 0x80 != 0,
            ),
            ShiftOp::Ror => (
                (val >> 1) | (if carry {
                    0x80
                } else {
                    0
                }),
                val & 0x01 != 0,
            ),
        }
    }

    /// Binary-mode add with carry into the accumulator.
    fn adc_binary(&mut self, mval: Byte)
        ensures
            final(self)@ == model::adc_binary(old(self)@, mval),
            final(self).wf() == old(self).wf(),
    {
        let cin: u16 = if self.c {
            1
        } else {
            0
        };
        let t: u16 = self.a as u16 + mval as u16 + cin;
        let r = (t % 256) as u8;
        self.c = t > 255;
        self.v = (self.a ^ r) & (mval ^ r) & 0x80 != 0;
        self.z = r == 0;
        self.n = r & 0x80 != 0;
        self.a = r;
    }

    /// Decimal-mode add with carry on packed BCD digits; N, Z and V come
    /// from the binary result of the same operation.
    #[verifier::rlimit(100)]
    fn adc_decimal(&mut self, mval: Byte)
        ensures
            final(self)@ == model::adc_decimal(old(self)@, mval),
            final(self).wf() == old(self).wf(),
    {
        let cin: u16 = if self.c {
            1
        } else {
            0
        };
        let t: u16 = self.a as u16 + mval as u16 + cin;
        let rbin = (t % 256) as u8;
        let lo: u16 = (self.a % 16) as u16 + (mval % 16) as u16 + cin;
        let locarry = lo > 9;
        let hi: u16 = (self.a / 16) as u16 + (mval / 16) as u16 + (if locarry {
            1
        } else {
            0
        });
        let hicarry = hi > 9;
        let dl: u16 = if locarry {
            (lo + 6) % 16
        } else {
            lo % 16
        };
        let dh: u16 = if hicarry {
            (hi + 6) % 16
        } else {
            hi % 16
        };
        self.v = (self.a ^ rbin) & (mval ^ rbin) & 0x80 != 0;
        self.z = rbin == 0;
        self.n = rbin & 0x80 != 0;
        self.c = hicarry;
        self.a = (dh * 16 + dl) as u8;
    }

    /// Decimal-mode subtract with borrow on packed BCD digits; N, Z, V and
    /// C come from the binary result of the same operation.
    #[verifier::rlimit(100)]
    fn sbc_decimal(&mut self, mval: Byte)
        ensures
            final(self)@ == model::sbc_decimal(old(self)@, mval),
            final(self).wf() == old(self).wf(),
    {
        let a0 = self.a;
        let borrow: u16 = if self.c {
            0
        } else {
            1
        };
        self.adc_binary(!mval);
        let lo: u16 = (a0 % 16) as u16 + 16 - (mval % 16) as u16 - borrow;
        let loborrow = lo < 16;
        let hi: u16 = (a0 / 16) as u16 + 16 - (mval / 16) as u16 - (if loborrow {
            1
        } else {
            0
        });
        let hiborrow = hi < 16;
        let dl: u16 = if loborrow {
            (lo + 10) % 16
        } else {
            lo % 16
        };
        let dh: u16 = if hiborrow {
            (hi + 10) % 16
        } else {
            hi % 16
        };
        self.a = (dh * 16 + dl) as u8;
    }

    /// Compare a register value with an operand byte: sets C, Z and N,
    /// stores nothing.
    fn compare(&mut self, regv: Byte, mval: Byte)
        ensures
            final(self)@ == model::compare_flags(old(self)@, regv, mval),
            final(self).wf() == old(self).wf(),
    {
        let diff = ((regv as u16 + 256 - mval as u16) % 256) as u8;
        self.c = regv >= mval;
        self.z = regv == mval;
        self.n = diff & 0x80 != 0;
    }

    /// Whether the branch condition holds right now.
    fn cond_met(&self, bc: BranchOn) -> (r: bool)
        ensures
            r == model::cond_holds(self@, bc),
    {
        match bc {
            BranchOn::CarryClear => !self.c,
            BranchOn::CarrySet => self.c,
            BranchOn::Zero => self.z,
            BranchOn::NotZero => !self.z,
            BranchOn::Minus => self.n,
            BranchOn::Plus => !self.n,
            BranchOn::OverflowClear => !self.v,
            BranchOn::OverflowSet => self.v,
        }
    }

    /// A load: the target register takes the operand value; N and Z follow.
    fn ins_load(&mut self, r: Reg, m: AddrMode)
        requires
            old(self).wf(),
            old(self).cycles + 8 <= u32::MAX,
        ensures
            final(self).wf(),
            final(self)@ == model::ins_spec(old(self)@, Instr::Load(r, m)),
    {
        let val = self.operand_read(m);
        match r {
            Reg::A => self.a = val,
            Reg::X => self.x = val,
            Reg::Y => self.y = val,
        }
        self.update_nz(val);
    }

    /// A store: the source register's value goes to the effective address;
    /// no flag changes.
    fn ins_store(&mut self, r: Reg, m: AddrMode)
        requires
            old(self).wf(),
            old(self).cycles + 8 <= u32::MAX,
        ensures
            final(self).wf(),
            final(self)@ == model::ins_spec(old(self)@, Instr::Store(r, m)),
    {
        let regv = match r {
            Reg::A => self.a,
            Reg::X => self.x,
            Reg::Y => self.y,
        };
        let addr = self.operand_target(m);
        self.write_mem(addr, regv);
    }

    /// An accumulator arithmetic/logic operation on a memory operand.
    fn ins_alu(&mut self, op: AluOp, m: AddrMode)
        requires
            old(self).wf(),
            old(self).cycles + 8 <= u32::MAX,
        ensures
            final(self).wf(),
            final(self)@ == model::ins_spec(old(self)@, Instr::Alu(op, m)),
    {
        let val = self.operand_read(m);
        match op {
            AluOp::And => {
                let r = self.a & val;
                self.a = r;
                self.update_nz(r);
            },
            AluOp::Ora => {
                let r = self.a | val;
                self.a = r;
                self.update_nz(r);
            },
            AluOp::Eor => {
                let r = self.a ^ val;
                self.a = r;
                self.update_nz(r);
            },
            AluOp::Adc => {
                if self.d {
                    self.adc_decimal(val);
                } else {
                    self.adc_binary(val);
                }
            },
            AluOp::Sbc => {
                if self.d {
                    self.sbc_decimal(val);
                } else {
                    self.adc_binary(!val);
                }
            },
        }
    }

    /// A compare: register minus operand drives C, Z and N.
    fn ins_cmp(&mut self, r: Reg, m: AddrMode)
        requires
            old(self).wf(),
            old(self).cycles + 8 <= u32::MAX,
        ensures
            final(self).wf(),
            final(self)@ == model::ins_spec(old(self)@, Instr::Cmp(r, m)),
    {
        let regv = match r {
            Reg::A => self.a,
            Reg::X => self.x,
            Reg::Y => self.y,
        };
        let val = self.operand_read(m);
        self.compare(regv, val);
    }

    /// BIT: Z from `A & M`, N from bit 7 of M, V from bit 6 of M.
    fn ins_bit(&mut self, m: AddrMode)
        requires
            old(self).wf(),
            old(self).cycles + 8 <= u32::MAX,
        ensures
            final(self).wf(),
            final(self)@ == model::ins_spec(old(self)@, Instr::Bit(m)),
    {
        let val = self.operand_read(m);
        self.z = self.a & val == 0;
        self.n = val & 0x80 != 0;
        self.v = val & 0x40 != 0;
    }

    /// A shift or rotate on the accumulator.
    fn ins_shift_acc(&mut self, op: ShiftOp)
        requires
            old(self).cycles + 8 <= u32::MAX,
        ensures
            final(self).wf() == old(self).wf(),
            final(self)@ == model::ins_spec(old(self)@, Instr::ShiftAcc(op)),
    {
        let (r, cnew) = Self::shift_apply(op, self.a, self.c);
        self.a = r;
        self.c = cnew;
        self.update_nz(r);
        self.cycle();
    }

    /// A read-modify-write shift or rotate on memory: the extra cycle pays
    /// for the internal modify step.
    fn ins_shift_mem(&mut self, op: ShiftOp, m: AddrMode)
        requires
            old(self).wf(),
            old(self).cycles + 8 <= u32::MAX,
        ensures
            final(self).wf(),
            final(self)@ == model::ins_spec(old(self)@, Instr::ShiftMem(op, m)),
    {
        let addr = self.operand_target(m);
        let val = self.read_mem(addr);
        let (r, cnew) = Self::shift_apply(op, val, self.c);
        self.cycle();
        self.write_mem(addr, r);
        self.c = cnew;
        self.update_nz(r);
    }

    /// Read-modify-write increment of a memory byte, wrapping at 255.
    fn ins_inc_mem(&mut self, m: AddrMode)
        requires
            old(self).wf(),
            old(self).cycles + 8 <= u32::MAX,
        ensures
            final(self).wf(),
            final(self)@ == model::ins_spec(old(self)@, Instr::IncMem(m)),
    {
        let addr = self.operand_target(m);
        let val = self.read_mem(addr);
        let r = if val == 255 {
            0
        } else {
            val + 1
        };
        self.cycle();
        self.write_mem(addr, r);
        self.update_nz(r);
    }

    /// Read-modify-write decrement of a memory byte, wrapping at 0.
    fn ins_dec_mem(&mut self, m: AddrMode)
        requires
            old(self).wf(),
            old(self).cycles + 8 <= u32::MAX,
        ensures
            final(self).wf(),
            final(self)@ == model::ins_spec(old(self)@, Instr::DecMem(m)),
    {
        let addr = self.operand_target(m);
        let val = self.read_mem(addr);
        let r = if val == 0 {
            255
        } else {
            val - 1
        };
        self.cycle();
        self.write_mem(addr, r);
        self.update_nz(r);
    }

    /// A relative branch: always consumes the offset byte; a taken branch
    /// costs one more cycle, and one more again if it crosses a page.
    fn ins_branch(&mut self, bc: BranchOn)
        requires
            old(self).wf(),
            old(self).cycles + 8 <= u32::MAX,
        ensures
            final(self).wf(),
            final(self)@ == model::ins_spec(old(self)@, Instr::Branch(bc)),
    {
        let off = self.fetch_byte();
        if self.cond_met(bc) {
            let pad: u32 = if off >= 128 {
                0xFF00
            } else {
                0
            };
            let t = ((self.pc as u32 + off as u32 + pad) % 0x10000) as u16;
            self.cycle();
            if t / 256 != self.pc / 256 {
                self.cycle();
            }
            self.pc = t;
        }
    }

    /// JSR: pushes the address of the instruction's last byte, high byte
    /// first, then jumps to the operand word.
    fn ins_jsr(&mut self)
        requires
            old(self).wf(),
            old(self).cycles + 8 <= u32::MAX,
        ensures
            final(self).wf(),
            final(self)@ == model::ins_spec(old(self)@, Instr::Jsr),
    {
        let ret = ((self.pc as u32 + 1) % 0x10000) as u16;
        let target = self.fetch_word();
        self.push_byte((ret / 256) as u8);
        self.push_byte((ret % 256) as u8);
        self.cycle();
        self.pc = target;
    }

    /// RTS: pulls the return address low byte first and resumes one past it.
    fn ins_rts(&mut self)
        requires
            old(self).wf(),
            old(self).cycles + 8 <= u32::MAX,
        ensures
            final(self).wf(),
            final(self)@ == model::ins_spec(old(self)@, Instr::Rts),
    {
        let lo = self.pull_byte();
        let hi = self.pull_byte();
        self.cycle();
        self.cycle();
        self.cycle();
        self.pc = ((lo as u32 + 256 * (hi as u32) + 1) % 0x10000) as u16;
    }

    /// RTI: pulls the status byte (B and U unchanged), then the program
    /// counter low byte first, without the RTS increment.
    fn ins_rti(&mut self)
        requires
            old(self).wf(),
            old(self).cycles + 8 <= u32::MAX,
        ensures
            final(self).wf(),
            final(self)@ == model::ins_spec(old(self)@, Instr::Rti),
    {
        let p = self.pull_byte();
        let lo = self.pull_byte();
        let hi = self.pull_byte();
        self.cycle();
        self.cycle();
        self.apply_pulled_status(p);
        self.pc = lo as u16 + 256 * (hi as u16);
    }

    /// BRK: pushes the return address and the status byte with B and U
    /// forced on, sets I, and loads the IRQ/BRK vector.
    fn ins_brk(&mut self)
        requires
            old(self).wf(),
            old(self).cycles + 8 <= u32::MAX,
        ensures
            final(self).wf(),
            final(self)@ == model::ins_spec(old(self)@, Instr::Brk),
    {
        let ret = ((self.pc as u32 + 1) % 0x10000) as u16;
        let p = self.pack_status(true, true);
        self.push_byte((ret / 256) as u8);
        self.push_byte((ret % 256) as u8);
        self.push_byte(p);
        let lo = self.read_mem(0xFFFE);
        let hi = self.read_mem(0xFFFF);
        self.cycle();
        self.i = true;
        self.pc = lo as u16 + 256 * (hi as u16);
    }

    /// JMP indirect, reproducing the page-wrap bug: a pointer whose low
    /// byte is `0xFF` takes its high byte from the start of the same page.
    fn ins_jmp_ind(&mut self)
        requires
            old(self).wf(),
            old(self).cycles + 8 <= u32::MAX,
        ensures
            final(self).wf(),
            final(self)@ == model::ins_spec(old(self)@, Instr::JmpInd),
    {
        let ptr = self.fetch_word();
        let lo = self.read_mem(ptr);
        let hi_addr: u16 = if ptr % 256 == 255 {
            ptr - 255
        } else {
            ptr + 1
        };
        let hi = self.read_mem(hi_addr);
        self.pc = lo as u16 + 256 * (hi as u16);
    }

    /// PLA: pulls into the accumulator and updates N and Z.
    fn ins_pla(&mut self)
        requires
            old(self).wf(),
            old(self).cycles + 8 <= u32::MAX,
        ensures
            final(self).wf(),
            final(self)@ == model::ins_spec(old(self)@, Instr::Pla),
    {
        let v = self.pull_byte();
        self.cycle();
        self.cycle();
        self.a = v;
        self.update_nz(v);
    }

    /// PLP: pulls the status byte; B and U keep their register values.
    fn ins_plp(&mut self)
        requires
            old(self).wf(),
            old(self).cycles + 8 <= u32::MAX,
        ensures
            final(self).wf(),
            final(self)@ == model::ins_spec(old(self)@, Instr::Plp),
    {
        let v = self.pull_byte();
        self.cycle();
        self.cycle();
        self.apply_pulled_status(v);
    }

    /// Executes one decoded instruction; the opcode byte has already been
    /// fetched.  The resulting state is exactly what the model prescribes.
    #[verifier::rlimit(100)]
    #[verifier::spinoff_prover]
    fn run_instr(&mut self, ins: Instr)
        requires
            old(self).wf(),
            old(self).cycles + 8 <= u32::MAX,
        ensures
            final(self).wf(),
            final(self)@ == model::ins_spec(old(self)@, ins),
    {
        match ins {
            Instr::Load(r, m) => self.ins_load(r, m),
            Instr::Store(r, m) => self.ins_store(r, m),
            Instr::Alu(op, m) => self.ins_alu(op, m),
            Instr::Cmp(r, m) => self.ins_cmp(r, m),
            Instr::Bit(m) => self.ins_bit(m),
            Instr::ShiftAcc(op) => self.ins_shift_acc(op),
            Instr::ShiftMem(op, m) => self.ins_shift_mem(op, m),
            Instr::IncMem(m) => self.ins_inc_mem(m),
            Instr::DecMem(m) => self.ins_dec_mem(m),
            Instr::Inx => {
                let r = if self.x == 255 {
                    0
                } else {
                    self.x + 1
                };
                self.x = r;
                self.update_nz(r);
                self.cycle();
            },
            Instr::Iny => {
                let r = if self.y == 255 {
                    0
                } else {
                    self.y + 1
                };
                self.y = r;
                self.update_nz(r);
                self.cycle();
            },
            Instr::Dex => {
                let r = if self.x == 0 {
                    255
                } else {
                    self.x - 1
                };
                self.x = r;
                self.update_nz(r);
                self.cycle();
            },
            Instr::Dey => {
                let r = if self.y == 0 {
                    255
                } else {
                    self.y - 1
                };
                self.y = r;
                self.update_nz(r);
                self.cycle();
            },
            Instr::Tax => {
                self.x = self.a;
                let r = self.x;
                self.update_nz(r);
                self.cycle();
            },
            Instr::Tay => {
                self.y = self.a;
                let r = self.y;
                self.update_nz(r);
                self.cycle();
            },
            Instr::Tsx => {
                self.x = self.sp;
                let r = self.x;
                self.update_nz(r);
                self.cycle();
            },
            Instr::Txa => {
                self.a = self.x;
                let r = self.a;
                self.update_nz(r);
                self.cycle();
            },
            Instr::Txs => {
                self.sp = self.x;
                self.cycle();
            },
            Instr::Tya => {
                self.a = self.y;
                let r = self.a;
                self.update_nz(r);
                self.cycle();
            },
            Instr::Pha => {
                let v = self.a;
                self.push_byte(v);
                self.cycle();
            },
            Instr::Php => {
                let p = self.pack_status(true, true);
                self.push_byte(p);
                self.cycle();
            },
            Instr::Pla => self.ins_pla(),
            Instr::Plp => self.ins_plp(),
            Instr::Branch(bc) => self.ins_branch(bc),
            Instr::JmpAbs => {
                let target = self.fetch_word();
                self.pc = target;
            },
            Instr::JmpInd => self.ins_jmp_ind(),
            Instr::Jsr => self.ins_jsr(),
            Instr::Rts => self.ins_rts(),
            Instr::Rti => self.ins_rti(),
            Instr::Brk => self.ins_brk(),
            Instr::SetFlag(f, on) => {
                match f {
                    FlagSel::Carry => self.c = on,
                    FlagSel::Interrupt => self.i = on,
                    FlagSel::Decimal => self.d = on,
                    FlagSel::Overflow => self.v = on,
                }
                self.cycle();
            },
            Instr::Nop => {
                self.cycle();
            },
        }
    }

    /// One fetch-decode-execute step.  On a documented opcode the state
    /// advances exactly as [`model::step_spec`] prescribes and the call
    /// returns true; on an undocumented byte nothing changes and the call
    /// returns false.
    pub fn step(&mut self) -> (ok: bool)
        requires
            old(self).wf(),
            old(self).cycles <= CYCLE_LIMIT_MAX,
        ensures
            final(self).wf(),
            model::legal(model::opcode_at(old(self)@)) ==> ok && final(self)@
                == model::step_spec(old(self)@),
            !model::legal(model::opcode_at(old(self)@)) ==> !ok && final(self)@ == old(self)@,
    {
        let op = self.mem.get_byte(self.pc as usize);
        match decode_op(op) {
            Some(ins) => {
                let _ = self.fetch_byte();
                self.run_instr(ins);
                true
            },
            None => false,
        }
    }

    /// The dispatch loop: fetch, decode and execute instructions until the
    /// cycle counter reaches the budget or an undocumented opcode is about
    /// to be fetched.  The final state is exactly [`model::run_spec`] of the
    /// starting state at the effective budget, and the result says which of
    /// the two stop conditions fired.
    #[verifier::rlimit(100)]
    #[verifier::spinoff_prover]
    pub fn exe(&mut self, cycle_limit: Option<u32>) -> (r: RunResult)
        requires
            old(self).wf(),
        ensures
            final(self).wf(),
            final(self)@ == model::run_spec(old(self)@, effective_limit(cycle_limit) as nat),
            match r {
                RunResult::Completed => final(self)@.cycles >= effective_limit(cycle_limit) as nat,
                RunResult::HaltedOnIllegal { opcode, pc } => {
                    &&& final(self)@.cycles < effective_limit(cycle_limit) as nat
                    &&& !model::legal(model::opcode_at(final(self)@))
                    &&& opcode == model::opcode_at(final(self)@)
                    &&& pc == final(self)@.pc
                },
            },
    {
        let lim: u32 = match cycle_limit {
            Some(l) => if l <= CYCLE_LIMIT_MAX {
                l
            } else {
                CYCLE_LIMIT_MAX
            },
            None => CYCLE_LIMIT_MAX,
        };
        let ghost s0 = self@;
        let ghost mut fuel: nat = lim as nat;
        while self.cycles < lim
            invariant
                self.wf(),
                lim <= CYCLE_LIMIT_MAX,
                s0 == old(self)@,
                lim == effective_limit(cycle_limit),
                fuel + self@.cycles >= lim,
                model::run_fuel(s0, lim as nat, lim as nat) == model::run_fuel(
                    self@,
                    lim as nat,
                    fuel,
                ),
            decreases (if self.cycles < lim { lim - self.cycles } else { 0int }),
        {
            let op = self.mem.get_byte(self.pc as usize);
            if decode_op(op).is_none() {
                proof {
                    assert(model::run_fuel(self@, lim as nat, fuel) == self@);
                }
                return RunResult::HaltedOnIllegal { opcode: op, pc: self.pc };
            }
            let ghost pre = self@;
            let ok = self.step();
            proof {
                model::lemma_step_cycles_lb(pre);
                assert(model::run_fuel(pre, lim as nat, fuel) == model::run_fuel(
                    self@,
                    lim as nat,
                    (fuel - 1) as nat,
                ));
                fuel = (fuel - 1) as nat;
            }
        }
        proof {
            assert(model::run_fuel(self@, lim as nat, fuel) == self@);
        }
        RunResult::Completed
    }
}

} // verus!
