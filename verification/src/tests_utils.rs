//! Harness utilities: building a CPU over a prepared memory image, and
//! result-valued register/flag checks.  Nothing here panics; a failed check
//! is a value, so the utilities can carry exact contracts.

use vstd::prelude::*;

use crate::memory::Byte;
use crate::memory::MEM_MAX;
use crate::memory::Memory;
use crate::memory::Word;
use crate::model;
use crate::model::CpuState;
use crate::mos6502::Mos6502;
use crate::mos6502::Mos6502Flags;
use crate::mos6502::effective_limit;

verus! {

/// Where the harness places programs: execution starts at the reset-vector
/// address itself.
pub const PC_START: Word = 0xFFFC;

/// A register a load test inspects or presets.
#[derive(PartialEq, Eq, Structural, Clone, Copy, Debug)]
pub enum Registers {
    A,
    X,
    Y,
}

/// The first status flag found set when it was expected clear.
#[derive(PartialEq, Eq, Structural, Clone, Copy, Debug)]
pub enum FlagAssertionError {
    Carry,
    Zero,
    InterruptsDisable,
    DecimalMode,
    Break,
    Unused,
    Overflow,
    Negative,
}

/// The value of the selected status flag.
pub open spec fn flag_of(s: CpuState, f: Mos6502Flags) -> bool {
    match f {
        Mos6502Flags::C => s.c,
        Mos6502Flags::Z => s.z,
        Mos6502Flags::I => s.i,
        Mos6502Flags::D => s.d,
        Mos6502Flags::B => s.b,
        Mos6502Flags::U => s.u,
        Mos6502Flags::V => s.v,
        Mos6502Flags::N => s.n,
    }
}

/// The error that names a flag.
pub open spec fn err_of(f: Mos6502Flags) -> FlagAssertionError {
    match f {
        Mos6502Flags::C => FlagAssertionError::Carry,
        Mos6502Flags::Z => FlagAssertionError::Zero,
        Mos6502Flags::I => FlagAssertionError::InterruptsDisable,
        Mos6502Flags::D => FlagAssertionError::DecimalMode,
        Mos6502Flags::B => FlagAssertionError::Break,
        Mos6502Flags::U => FlagAssertionError::Unused,
        Mos6502Flags::V => FlagAssertionError::Overflow,
        Mos6502Flags::N => FlagAssertionError::Negative,
    }
}

/// A flag violates the all-clear expectation when it is set and not in the
/// excluded list.
pub open spec fn violates(s: CpuState, ex: Seq<Mos6502Flags>, f: Mos6502Flags) -> bool {
    flag_of(s, f) && !ex.contains(f)
}

/// The first violating flag in the order C, Z, I, D, B, U, V, N, if any.
pub open spec fn first_violation(s: CpuState, ex: Seq<Mos6502Flags>) -> Option<Mos6502Flags> {
    if violates(s, ex, Mos6502Flags::C) {
        Some(Mos6502Flags::C)
    } else if violates(s, ex, Mos6502Flags::Z) {
        Some(Mos6502Flags::Z)
    } else if violates(s, ex, Mos6502Flags::I) {
        Some(Mos6502Flags::I)
    } else if violates(s, ex, Mos6502Flags::D) {
        Some(Mos6502Flags::D)
    } else if violates(s, ex, Mos6502Flags::B) {
        Some(Mos6502Flags::B)
    } else if violates(s, ex, Mos6502Flags::U) {
        Some(Mos6502Flags::U)
    } else if violates(s, ex, Mos6502Flags::V) {
        Some(Mos6502Flags::V)
    } else if violates(s, ex, Mos6502Flags::N) {
        Some(Mos6502Flags::N)
    } else {
        None
    }
}

/// The memory image that holds the given address/byte pairs over an
/// all-zero background, later pairs overriding earlier ones.
pub open spec fn image_of(pairs: Seq<(u16, u8)>) -> Seq<u8>
    decreases pairs.len(),
{
    if pairs.len() == 0 {
        Seq::<u8>::new(MEM_MAX as nat, |i: int| 0u8)
    } else {
        image_of(pairs.drop_last()).update(
            pairs.last().0 as int,
            pairs.last().1,
        )
    }
}

/// The machine state [`cpu_mem_set`] hands back: freshly reset over the
/// given memory image, with the interrupt-disable and unused flags set as
/// the reset sequence leaves them.
pub open spec fn booted(memimg: Seq<u8>) -> CpuState {
    CpuState {
        a: 0,
        x: 0,
        y: 0,
        sp: 0xFD,
        pc: 0xFFFC,
        c: false,
        z: false,
        i: true,
        d: false,
        b: false,
        u: true,
        v: false,
        n: false,
        cycles: 0,
        mem: memimg,
    }
}

/// Builds a CPU whose memory holds exactly the given address/byte pairs and
/// resets it, ready to execute at [`PC_START`].
pub fn cpu_mem_set(instrs: Vec<(u16, u8)>) -> (r: Mos6502)
    ensures
        r.wf(),
        r@ == booted(image_of(instrs@)),
{
    let mut mem = Memory::new();
    let mut k: usize = 0;
    proof {
        assert(instrs@.subrange(0, 0) =~= Seq::<(u16, u8)>::empty());
        assert(mem@ =~= image_of(instrs@.subrange(0, 0)));
    }
    while k < instrs.len()
        invariant
            k <= instrs@.len(),
            mem.wf(),
            mem@ == image_of(instrs@.subrange(0, k as int)),
        decreases instrs@.len() - k,
    {
        let (addr, data) = instrs[k];
        mem.insert_byte(addr as usize, data);
        proof {
            assert(instrs@.subrange(0, k + 1).drop_last() =~= instrs@.subrange(0, k as int));
        }
        k = k + 1;
    }
    proof {
        assert(instrs@.subrange(0, instrs@.len() as int) =~= instrs@);
    }
    let mut cpu = Mos6502::new(mem);
    cpu.reset();
    cpu
}

/// The value of the selected register.
pub open spec fn reg_sel(s: CpuState, r: Registers) -> u8 {
    match r {
        Registers::A => s.a,
        Registers::X => s.x,
        Registers::Y => s.y,
    }
}

/// Whether the vector of flags holds the given flag.
fn flags_contain(v: &Vec<Mos6502Flags>, f: Mos6502Flags) -> (r: bool)
    ensures
        r == v@.contains(f),
{
    let mut k: usize = 0;
    while k < v.len()
        invariant
            k <= v@.len(),
            forall|j: int| 0 <= j < k ==> v@[j] != f,
        decreases v@.len() - k,
    {
        if v[k] == f {
            return true;
        }
        k = k + 1;
    }
    false
}

/// The current value of the selected flag.
fn get_flag(cpu: &Mos6502, f: Mos6502Flags) -> (r: bool)
    ensures
        r == flag_of(cpu@, f),
{
    match f {
        Mos6502Flags::C => cpu.carry_flag(),
        Mos6502Flags::Z => cpu.zero_flag(),
        Mos6502Flags::I => cpu.interrupts_disable_flag(),
        Mos6502Flags::D => cpu.decimal_mode_flag(),
        Mos6502Flags::B => cpu.break_flag(),
        Mos6502Flags::U => cpu.unused_flag(),
        Mos6502Flags::V => cpu.overflow_flag(),
        Mos6502Flags::N => cpu.negative_flag(),
    }
}

/// Checks that every status flag outside the excluded list is clear; the
/// error names the first flag found set, in the order C, Z, I, D, B, U, V, N.
pub fn assert_all_status_flags_false_except(
    cpu: &Mos6502,
    excluded_flags: Vec<Mos6502Flags>,
) -> (r: Result<(), FlagAssertionError>)
    ensures
        r == (match first_violation(cpu@, excluded_flags@) {
            None => Result::<(), FlagAssertionError>::Ok(()),
            Some(f) => Result::<(), FlagAssertionError>::Err(err_of(f)),
        }),
{
    if cpu.carry_flag() && !flags_contain(&excluded_flags, Mos6502Flags::C) {
        return Err(FlagAssertionError::Carry);
    }
    if cpu.zero_flag() && !flags_contain(&excluded_flags, Mos6502Flags::Z) {
        return Err(FlagAssertionError::Zero);
    }
    if cpu.interrupts_disable_flag() && !flags_contain(&excluded_flags, Mos6502Flags::I) {
        return Err(FlagAssertionError::InterruptsDisable);
    }
    if cpu.decimal_mode_flag() && !flags_contain(&excluded_flags, Mos6502Flags::D) {
        return Err(FlagAssertionError::DecimalMode);
    }
    if cpu.break_flag() && !flags_contain(&excluded_flags, Mos6502Flags::B) {
        return Err(FlagAssertionError::Break);
    }
    if cpu.unused_flag() && !flags_contain(&excluded_flags, Mos6502Flags::U) {
        return Err(FlagAssertionError::Unused);
    }
    if cpu.overflow_flag() && !flags_contain(&excluded_flags, Mos6502Flags::V) {
        return Err(FlagAssertionError::Overflow);
    }
    if cpu.negative_flag() && !flags_contain(&excluded_flags, Mos6502Flags::N) {
        return Err(FlagAssertionError::Negative);
    }
    Ok(())
}

/// Whether every flag in the list is currently set.
pub fn assert_true_flags(cpu: &Mos6502, tflags: &Vec<Mos6502Flags>) -> (r: bool)
    ensures
        r == (forall|j: int| 0 <= j < tflags@.len() ==> flag_of(cpu@, #[trigger] tflags@[j])),
{
    let mut k: usize = 0;
    while k < tflags.len()
        invariant
            k <= tflags@.len(),
            forall|j: int| 0 <= j < k ==> flag_of(cpu@, #[trigger] tflags@[j]),
        decreases tflags@.len() - k,
    {
        if !get_flag(cpu, tflags[k]) {
            return false;
        }
        k = k + 1;
    }
    true
}

/// Whether the selected register holds the expected value.
pub fn assert_register_has_value(cpu: &Mos6502, register: Registers, val: Byte) -> (r: bool)
    ensures
        r == (reg_sel(cpu@, register) == val),
{
    match register {
        Registers::A => cpu.get_accumulator() == val,
        Registers::X => cpu.get_xreg() == val,
        Registers::Y => cpu.get_yreg() == val,
    }
}

/// The 16-bit word assembled from a high and a low byte.
pub fn word_from_bytes(hi: Byte, lo: Byte) -> (r: Word)
    ensures
        r == hi * 256 + lo,
{
    (hi as u16) * 256 + lo as u16
}

/// Byte addition wrapped within the zero page, as zero-page indexing wraps.
pub fn word_from_byte_addition(b1: Byte, b2: Byte) -> (r: Word)
    ensures
        r == (b1 + b2) % 256,
{
    (b1 as u16 + b2 as u16) % 256
}

/// The state with one register preset, as a load test may ask for before
/// the run starts.
pub open spec fn preset_reg(s: CpuState, p: Option<(Registers, u8)>) -> CpuState {
    match p {
        None => s,
        Some((r, v)) => match r {
            Registers::A => CpuState { a: v, ..s },
            Registers::X => CpuState { x: v, ..s },
            Registers::Y => CpuState { y: v, ..s },
        },
    }
}

/// What a load scenario demands of the final state: the target register
/// holds the loaded value, exactly the budgeted cycles were charged, and
/// every listed flag is set.  Whether the remaining flags are clear is a
/// separate question, answered by [`assert_all_status_flags_false_except`].
pub open spec fn ld_expected(
    fin: CpuState,
    val: u8,
    ccost: u32,
    reg: Registers,
    tflags: Seq<Mos6502Flags>,
) -> bool {
    &&& reg_sel(fin, reg) == val
    &&& fin.cycles == ccost
    &&& (forall|j: int| 0 <= j < tflags.len() ==> flag_of(fin, #[trigger] tflags[j]))
}

/// One whole load scenario: boot over the given memory pairs, preset a
/// register if asked, run to the cycle budget, and check the loaded value,
/// the exact cycle count and the listed flags.  True exactly when the run
/// ends in the expected state.
pub fn ld_into_reg(
    mem: Vec<(Word, Byte)>,
    val: Byte,
    ccost: u32,
    test_register: Registers,
    tflags: Vec<Mos6502Flags>,
    mod_before_exe: Option<(Registers, Byte)>,
) -> (r: bool)
    ensures
        r == ld_expected(
            model::run_spec(
                preset_reg(booted(image_of(mem@)), mod_before_exe),
                effective_limit(Some(ccost)) as nat,
            ),
            val,
            ccost,
            test_register,
            tflags@,
        ),
{
    let mut cpu = cpu_mem_set(mem);
    match mod_before_exe {
        Some((Registers::A, v)) => cpu.set_accumulator(v),
        Some((Registers::X, v)) => cpu.set_xreg(v),
        Some((Registers::Y, v)) => cpu.set_yreg(v),
        None => (),
    }
    let _ = cpu.exe(Some(ccost));
    let reg_ok = assert_register_has_value(&cpu, test_register, val);
    let cycles_ok = cpu.get_cycles() == ccost;
    let set_ok = assert_true_flags(&cpu, &tflags);
    reg_ok && cycles_ok && set_ok
}

} // verus!
