//! The mathematical model of the MOS 6502.
//!
//! [`CpuState`] is the ghost image of the whole machine: registers, the
//! eight status flags, the cycle counter and the 64 KiB memory.  [`decode`]
//! maps every documented opcode byte to a structured [`Instr`], and
//! [`step_spec`] is the one-instruction interpreter over that structure.
//! The executable CPU is proved to agree with this model step by step, so
//! every property shown here (cycle accounting, flag effects, the addressing
//! quirks) holds of the running emulator as well.

use vstd::prelude::*;

verus! {

/// The complete architectural state of the processor at a point in time.
#[verifier::ext_equal]
pub ghost struct CpuState {
    /// Accumulator.
    pub a: u8,
    /// Index register X.
    pub x: u8,
    /// Index register Y.
    pub y: u8,
    /// Stack pointer; the effective stack address is `0x0100 + sp`.
    pub sp: u8,
    /// Program counter.
    pub pc: u16,
    /// Carry flag (bit 0 of the packed status byte).
    pub c: bool,
    /// Zero flag (bit 1).
    pub z: bool,
    /// Interrupt-disable flag (bit 2).
    pub i: bool,
    /// Decimal-mode flag (bit 3).
    pub d: bool,
    /// Break flag (bit 4).
    pub b: bool,
    /// Unused flag (bit 5).
    pub u: bool,
    /// Overflow flag (bit 6).
    pub v: bool,
    /// Negative flag (bit 7).
    pub n: bool,
    /// Machine cycles elapsed; every bus access costs at least one.
    pub cycles: nat,
    /// The 64 KiB memory image.
    pub mem: Seq<u8>,
}

impl CpuState {
    /// The memory image covers the full 16-bit address space.
    pub open spec fn wf(self) -> bool {
        self.mem.len() == 0x10000
    }
}

/// The byte in memory at address `a`.
pub open spec fn rd(s: CpuState, a: u16) -> u8 {
    s.mem[a as int]
}

/// Reduction modulo 256, for zero-page and stack-pointer wrap-around.
pub open spec fn wrap8(x: int) -> u8 {
    (x % 256) as u8
}

/// Reduction modulo 65536, for program-counter and address wrap-around.
pub open spec fn wrap16(x: int) -> u16 {
    (x % 0x10000) as u16
}

/// Whether bit 7 (the sign bit) of a byte is set.
pub open spec fn bit7(x: u8) -> bool {
    x & 0x80 != 0
}

/// Whether bit 6 of a byte is set.
pub open spec fn bit6(x: u8) -> bool {
    x & 0x40 != 0
}

/// Whether bit 0 of a byte is set.
pub open spec fn bit0(x: u8) -> bool {
    x & 0x01 != 0
}

/// The state after `k` machine cycles pass with no other effect.
pub open spec fn tick(s: CpuState, k: nat) -> CpuState {
    CpuState { cycles: s.cycles + k, ..s }
}

/// The addressing modes that read or name a memory operand.
#[derive(Clone, Copy)]
pub enum AddrMode {
    Immediate,
    ZeroPage,
    ZeroPageX,
    ZeroPageY,
    Absolute,
    AbsoluteX,
    AbsoluteY,
    IndirectX,
    IndirectY,
}

/// A register that an instruction loads, stores or compares.
#[derive(Clone, Copy)]
pub enum Reg {
    A,
    X,
    Y,
}

/// The four shift/rotate operations.
#[derive(Clone, Copy)]
pub enum ShiftOp {
    Asl,
    Lsr,
    Rol,
    Ror,
}

/// The accumulator-and-memory arithmetic/logic operations.
#[derive(Clone, Copy)]
pub enum AluOp {
    And,
    Ora,
    Eor,
    Adc,
    Sbc,
}

/// The condition a relative branch tests.
#[derive(Clone, Copy)]
pub enum BranchOn {
    CarryClear,
    CarrySet,
    Zero,
    NotZero,
    Minus,
    Plus,
    OverflowClear,
    OverflowSet,
}

/// A flag that a one-byte flag instruction sets or clears.
#[derive(Clone, Copy)]
pub enum FlagSel {
    Carry,
    Interrupt,
    Decimal,
    Overflow,
}

/// The structured form of a documented instruction: its mnemonic group and
/// addressing mode.  All 151 documented opcodes decode to one of these.
#[derive(Clone, Copy)]
pub enum Instr {
    Load(Reg, AddrMode),
    Store(Reg, AddrMode),
    Alu(AluOp, AddrMode),
    Cmp(Reg, AddrMode),
    Bit(AddrMode),
    ShiftAcc(ShiftOp),
    ShiftMem(ShiftOp, AddrMode),
    IncMem(AddrMode),
    DecMem(AddrMode),
    Inx,
    Iny,
    Dex,
    Dey,
    Tax,
    Tay,
    Tsx,
    Txa,
    Txs,
    Tya,
    Pha,
    Php,
    Pla,
    Plp,
    Branch(BranchOn),
    JmpAbs,
    JmpInd,
    Jsr,
    Rts,
    Rti,
    Brk,
    SetFlag(FlagSel, bool),
    Nop,
}

/// Number of operand bytes the mode consumes after the opcode.
pub open spec fn mode_len(m: AddrMode) -> nat {
    match m {
        AddrMode::Immediate => 1,
        AddrMode::ZeroPage => 1,
        AddrMode::ZeroPageX => 1,
        AddrMode::ZeroPageY => 1,
        AddrMode::Absolute => 2,
        AddrMode::AbsoluteX => 2,
        AddrMode::AbsoluteY => 2,
        AddrMode::IndirectX => 1,
        AddrMode::IndirectY => 1,
    }
}

/// The little-endian operand word at the program counter.
pub open spec fn abs_word(s: CpuState) -> u16 {
    (rd(s, s.pc) + 256 * rd(s, wrap16(s.pc + 1))) as u16
}

/// The effective address the mode names, with every documented wrap rule:
/// zero-page indexing wraps within the zero page, and the indirect pointer
/// bytes for `(Indirect,X)` and `(Indirect),Y` wrap within the zero page.
pub open spec fn mode_addr(s: CpuState, m: AddrMode) -> u16 {
    match m {
        AddrMode::Immediate => s.pc,
        AddrMode::ZeroPage => rd(s, s.pc) as u16,
        AddrMode::ZeroPageX => wrap8(rd(s, s.pc) + s.x) as u16,
        AddrMode::ZeroPageY => wrap8(rd(s, s.pc) + s.y) as u16,
        AddrMode::Absolute => abs_word(s),
        AddrMode::AbsoluteX => wrap16(abs_word(s) + s.x),
        AddrMode::AbsoluteY => wrap16(abs_word(s) + s.y),
        AddrMode::IndirectX => {
            let p = wrap8(rd(s, s.pc) + s.x);
            (rd(s, p as u16) + 256 * rd(s, wrap8(p + 1) as u16)) as u16
        },
        AddrMode::IndirectY => {
            let p = rd(s, s.pc);
            let base = rd(s, p as u16) + 256 * rd(s, wrap8(p + 1) as u16);
            wrap16(base + s.y)
        },
    }
}

/// Whether the indexed address computation crosses a page boundary: the sum
/// of the base low byte and the index register carries into the high byte.
pub open spec fn mode_crossed(s: CpuState, m: AddrMode) -> bool {
    match m {
        AddrMode::AbsoluteX => rd(s, s.pc) + s.x > 255,
        AddrMode::AbsoluteY => rd(s, s.pc) + s.y > 255,
        AddrMode::IndirectY => rd(s, rd(s, s.pc) as u16) + s.y > 255,
        _ => false,
    }
}

/// Bus cycles to resolve the mode and read the operand value, counted after
/// the opcode fetch and before any page-cross penalty.
pub open spec fn mode_cycles_read(m: AddrMode) -> nat {
    match m {
        AddrMode::Immediate => 1,
        AddrMode::ZeroPage => 2,
        AddrMode::ZeroPageX => 3,
        AddrMode::ZeroPageY => 3,
        AddrMode::Absolute => 3,
        AddrMode::AbsoluteX => 3,
        AddrMode::AbsoluteY => 3,
        AddrMode::IndirectX => 5,
        AddrMode::IndirectY => 4,
    }
}

/// Bus cycles to resolve the mode as a write or read-modify-write target
/// (the write itself excluded).  Indexed modes always pay the extra cycle
/// here; there is no conditional page-cross penalty for stores.
pub open spec fn mode_cycles_write(m: AddrMode) -> nat {
    match m {
        AddrMode::Immediate => 1,
        AddrMode::ZeroPage => 1,
        AddrMode::ZeroPageX => 2,
        AddrMode::ZeroPageY => 2,
        AddrMode::Absolute => 2,
        AddrMode::AbsoluteX => 3,
        AddrMode::AbsoluteY => 3,
        AddrMode::IndirectX => 4,
        AddrMode::IndirectY => 4,
    }
}

/// Resolves a read operand: the state after consuming the operand bytes and
/// charging the resolve, read, and page-cross cycles, plus the value read.
pub open spec fn read_operand(s: CpuState, m: AddrMode) -> (CpuState, u8) {
    let pen: nat = if mode_crossed(s, m) { 1 } else { 0 };
    (
        CpuState {
            pc: wrap16(s.pc + mode_len(m)),
            cycles: s.cycles + mode_cycles_read(m) + pen,
            ..s
        },
        rd(s, mode_addr(s, m)),
    )
}

/// Resolves a write or read-modify-write target: the state after consuming
/// the operand bytes and charging the resolve cycles, plus the address.
pub open spec fn write_target(s: CpuState, m: AddrMode) -> (CpuState, u16) {
    (
        CpuState {
            pc: wrap16(s.pc + mode_len(m)),
            cycles: s.cycles + mode_cycles_write(m),
            ..s
        },
        mode_addr(s, m),
    )
}

/// Sets the N and Z flags from a result byte: `N` is bit 7 of the value and
/// `Z` says whether the value is zero.
pub open spec fn update_nz(s: CpuState, val: u8) -> CpuState {
    CpuState { z: val == 0, n: bit7(val), ..s }
}

/// The value of the selected register.
pub open spec fn reg_val(s: CpuState, r: Reg) -> u8 {
    match r {
        Reg::A => s.a,
        Reg::X => s.x,
        Reg::Y => s.y,
    }
}

/// The state with the selected register replaced.
pub open spec fn set_reg(s: CpuState, r: Reg, val: u8) -> CpuState {
    match r {
        Reg::A => CpuState { a: val, ..s },
        Reg::X => CpuState { x: val, ..s },
        Reg::Y => CpuState { y: val, ..s },
    }
}

/// The stack pointer after a push (decrement, wrapping within the page).
pub open spec fn sp_dec(sp: u8) -> u8 {
    if sp == 0 { 255 } else { (sp - 1) as u8 }
}

/// The stack pointer after a pull (increment, wrapping within the page).
pub open spec fn sp_inc(sp: u8) -> u8 {
    if sp == 255 { 0 } else { (sp + 1) as u8 }
}

/// Pushes a byte: writes at `0x0100 + sp`, then decrements `sp`; one cycle
/// for the bus write.
pub open spec fn push_spec(s: CpuState, val: u8) -> CpuState {
    CpuState {
        mem: s.mem.update(0x100 + s.sp as int, val),
        sp: sp_dec(s.sp),
        cycles: s.cycles + 1,
        ..s
    }
}

/// Pulls a byte: increments `sp`, then reads at `0x0100 + sp`; one cycle
/// for the bus read.
pub open spec fn pull_spec(s: CpuState) -> (CpuState, u8) {
    (
        CpuState { sp: sp_inc(s.sp), cycles: s.cycles + 1, ..s },
        rd(s, (0x100 + sp_inc(s.sp)) as u16),
    )
}

/// The packed status byte with the B and U bits forced to the given values
/// (pushes force both to 1; the register itself keeps its own B and U).
pub open spec fn status_byte_with(s: CpuState, bval: bool, uval: bool) -> u8 {
    ((if s.c { 1int } else { 0 })
        + (if s.z { 2int } else { 0 })
        + (if s.i { 4int } else { 0 })
        + (if s.d { 8int } else { 0 })
        + (if bval { 16int } else { 0 })
        + (if uval { 32int } else { 0 })
        + (if s.v { 64int } else { 0 })
        + (if s.n { 128int } else { 0 })) as u8
}

/// The packed status byte as the register holds it.
pub open spec fn status_byte(s: CpuState) -> u8 {
    status_byte_with(s, s.b, s.u)
}

/// The flags unpacked from a pulled status byte; B and U keep the values
/// they had in the register, as PLP and RTI leave them untouched.
pub open spec fn unpack_status(s: CpuState, val: u8) -> CpuState {
    CpuState {
        c: bit0(val),
        z: val & 0x02 != 0,
        i: val & 0x04 != 0,
        d: val & 0x08 != 0,
        v: bit6(val),
        n: bit7(val),
        ..s
    }
}

/// One shift or rotate on a byte: the result and the new carry.
pub open spec fn shift_res(op: ShiftOp, val: u8, carry: bool) -> (u8, bool) {
    match op {
        ShiftOp::Asl => ((val << 1) as u8, bit7(val)),
        ShiftOp::Lsr => (val >> 1, bit0(val)),
        ShiftOp::Rol => ((val << 1) | (if carry { 1 } else { 0 }), bit7(val)),
        ShiftOp::Ror => ((val >> 1) | (if carry { 0x80 } else { 0 }), bit0(val)),
    }
}

/// Binary-mode add with carry: `C` is the carry out of bit 7 and `V` is the
/// signed-overflow predicate `((A ^ r) & (M ^ r) & 0x80) != 0`.
pub open spec fn adc_binary(s: CpuState, mval: u8) -> CpuState {
    let t = s.a + mval + (if s.c { 1int } else { 0 });
    let r = (t % 256) as u8;
    CpuState {
        a: r,
        c: t > 255,
        v: (s.a ^ r) & (mval ^ r) & 0x80 != 0,
        z: r == 0,
        n: bit7(r),
        ..s
    }
}

/// Decimal-mode add with carry on packed BCD digits.  The accumulator and
/// carry follow the decimal digit adjust; N, Z and V are taken from the
/// binary result of the same operation, as the NMOS part computes them.
pub open spec fn adc_decimal(s: CpuState, mval: u8) -> CpuState {
    let cin = if s.c { 1int } else { 0 };
    let bin = (s.a + mval + cin) % 256;
    let lo = (s.a % 16) + (mval % 16) + cin;
    let locarry = lo > 9;
    let hi = (s.a / 16) + (mval / 16) + (if locarry { 1int } else { 0 });
    let hicarry = hi > 9;
    let dl = if locarry { (lo + 6) % 16 } else { lo % 16 };
    let dh = if hicarry { (hi + 6) % 16 } else { hi % 16 };
    let rbin = bin as u8;
    CpuState {
        a: (dh * 16 + dl) as u8,
        c: hicarry,
        v: (s.a ^ rbin) & (mval ^ rbin) & 0x80 != 0,
        z: rbin == 0,
        n: bit7(rbin),
        ..s
    }
}

/// Binary-mode subtract with borrow: the same operation as ADC with the
/// one's complement of the operand.
pub open spec fn sbc_binary(s: CpuState, mval: u8) -> CpuState {
    adc_binary(s, !mval)
}

/// Decimal-mode subtract with borrow on packed BCD digits.  Each digit
/// borrows decimally; N, Z, V and C come from the binary result of the same
/// operation, with C the usual no-borrow indicator.
pub open spec fn sbc_decimal(s: CpuState, mval: u8) -> CpuState {
    let borrow = if s.c { 0int } else { 1 };
    let bflags = adc_binary(s, !mval);
    let lo = (s.a % 16) + 16 - (mval % 16) - borrow;
    let loborrow = lo < 16;
    let hi = (s.a / 16) + 16 - (mval / 16) - (if loborrow { 1int } else { 0 });
    let hiborrow = hi < 16;
    let dl = if loborrow { (lo + 10) % 16 } else { lo % 16 };
    let dh = if hiborrow { (hi + 10) % 16 } else { hi % 16 };
    CpuState { a: (dh * 16 + dl) as u8, ..bflags }
}

/// One arithmetic/logic operation on the accumulator and an operand byte.
pub open spec fn alu_apply(s: CpuState, op: AluOp, mval: u8) -> CpuState {
    match op {
        AluOp::And => update_nz(CpuState { a: s.a & mval, ..s }, s.a & mval),
        AluOp::Ora => update_nz(CpuState { a: s.a | mval, ..s }, s.a | mval),
        AluOp::Eor => update_nz(CpuState { a: s.a ^ mval, ..s }, s.a ^ mval),
        AluOp::Adc => if s.d { adc_decimal(s, mval) } else { adc_binary(s, mval) },
        AluOp::Sbc => if s.d { sbc_decimal(s, mval) } else { sbc_binary(s, mval) },
    }
}

/// Compare a register with an operand: `C = reg >= M`, `Z = reg == M`,
/// `N` = bit 7 of the wrapped difference.  Nothing is stored.
pub open spec fn compare_flags(s: CpuState, regv: u8, mval: u8) -> CpuState {
    let diff = wrap8(regv + 256 - mval);
    CpuState { c: regv >= mval, z: regv == mval, n: bit7(diff), ..s }
}

/// Whether the branch condition holds in the given state.
pub open spec fn cond_holds(s: CpuState, bc: BranchOn) -> bool {
    match bc {
        BranchOn::CarryClear => !s.c,
        BranchOn::CarrySet => s.c,
        BranchOn::Zero => s.z,
        BranchOn::NotZero => !s.z,
        BranchOn::Minus => s.n,
        BranchOn::Plus => !s.n,
        BranchOn::OverflowClear => !s.v,
        BranchOn::OverflowSet => s.v,
    }
}

/// The branch target: the program counter after the operand plus the
/// two's-complement offset, modulo 65536.
pub open spec fn branch_target(pc1: u16, off: u8) -> u16 {
    wrap16(pc1 + off + (if off >= 128 { 0xFF00int } else { 0 }))
}

/// The interrupt/BRK vector address.
pub open spec fn irq_vector(s: CpuState) -> u16 {
    (rd(s, 0xFFFE) + 256 * rd(s, 0xFFFF)) as u16
}

/// The word a `JMP (ind)` reads, with the page-wrap bug: when the pointer's
/// low byte is `0xFF` the high byte comes from the start of the same page,
/// not from the next page.
pub open spec fn jmp_ind_target(s: CpuState, ptr: u16) -> u16 {
    let hi_addr: u16 = if ptr % 256 == 255 { (ptr - 255) as u16 } else { (ptr + 1) as u16 };
    (rd(s, ptr) + 256 * rd(s, hi_addr)) as u16
}

/// The effect of one decoded instruction on the state just after its opcode
/// byte was fetched (so the program counter names the first operand byte and
/// the fetch cycle has been charged).
pub open spec fn ins_spec(s: CpuState, ins: Instr) -> CpuState {
    match ins {
        Instr::Load(r, m) => {
            let (s1, val) = read_operand(s, m);
            set_reg(update_nz(s1, val), r, val)
        },
        Instr::Store(r, m) => {
            let (s1, addr) = write_target(s, m);
            CpuState {
                mem: s1.mem.update(addr as int, reg_val(s, r)),
                cycles: s1.cycles + 1,
                ..s1
            }
        },
        Instr::Alu(op, m) => {
            let (s1, val) = read_operand(s, m);
            alu_apply(s1, op, val)
        },
        Instr::Cmp(r, m) => {
            let (s1, val) = read_operand(s, m);
            compare_flags(s1, reg_val(s, r), val)
        },
        Instr::Bit(m) => {
            let (s1, val) = read_operand(s, m);
            CpuState { z: s.a & val == 0, n: bit7(val), v: bit6(val), ..s1 }
        },
        Instr::ShiftAcc(op) => {
            let (r, cnew) = shift_res(op, s.a, s.c);
            CpuState { a: r, c: cnew, z: r == 0, n: bit7(r), cycles: s.cycles + 1, ..s }
        },
        Instr::ShiftMem(op, m) => {
            let (s1, addr) = write_target(s, m);
            let old = rd(s1, addr);
            let (r, cnew) = shift_res(op, old, s.c);
            CpuState {
                mem: s1.mem.update(addr as int, r),
                c: cnew,
                z: r == 0,
                n: bit7(r),
                cycles: s1.cycles + 3,
                ..s1
            }
        },
        Instr::IncMem(m) => {
            let (s1, addr) = write_target(s, m);
            let r = wrap8(rd(s1, addr) + 1);
            CpuState {
                mem: s1.mem.update(addr as int, r),
                z: r == 0,
                n: bit7(r),
                cycles: s1.cycles + 3,
                ..s1
            }
        },
        Instr::DecMem(m) => {
            let (s1, addr) = write_target(s, m);
            let r = wrap8(rd(s1, addr) + 255);
            CpuState {
                mem: s1.mem.update(addr as int, r),
                z: r == 0,
                n: bit7(r),
                cycles: s1.cycles + 3,
                ..s1
            }
        },
        Instr::Inx => update_nz(CpuState { x: wrap8(s.x + 1), cycles: s.cycles + 1, ..s }, wrap8(s.x + 1)),
        Instr::Iny => update_nz(CpuState { y: wrap8(s.y + 1), cycles: s.cycles + 1, ..s }, wrap8(s.y + 1)),
        Instr::Dex => update_nz(CpuState { x: wrap8(s.x + 255), cycles: s.cycles + 1, ..s }, wrap8(s.x + 255)),
        Instr::Dey => update_nz(CpuState { y: wrap8(s.y + 255), cycles: s.cycles + 1, ..s }, wrap8(s.y + 255)),
        Instr::Tax => update_nz(CpuState { x: s.a, cycles: s.cycles + 1, ..s }, s.a),
        Instr::Tay => update_nz(CpuState { y: s.a, cycles: s.cycles + 1, ..s }, s.a),
        Instr::Tsx => update_nz(CpuState { x: s.sp, cycles: s.cycles + 1, ..s }, s.sp),
        Instr::Txa => update_nz(CpuState { a: s.x, cycles: s.cycles + 1, ..s }, s.x),
        Instr::Txs => CpuState { sp: s.x, cycles: s.cycles + 1, ..s },
        Instr::Tya => update_nz(CpuState { a: s.y, cycles: s.cycles + 1, ..s }, s.y),
        Instr::Pha => tick(push_spec(s, s.a), 1),
        Instr::Php => tick(push_spec(s, status_byte_with(s, true, true)), 1),
        Instr::Pla => {
            let (s1, val) = pull_spec(s);
            update_nz(CpuState { a: val, cycles: s1.cycles + 2, ..s1 }, val)
        },
        Instr::Plp => {
            let (s1, val) = pull_spec(s);
            unpack_status(CpuState { cycles: s1.cycles + 2, ..s1 }, val)
        },
        Instr::Branch(bc) => {
            let off = rd(s, s.pc);
            let pc1 = wrap16(s.pc + 1);
            if cond_holds(s, bc) {
                let t = branch_target(pc1, off);
                let pen: nat = if t / 256 != pc1 / 256 { 1 } else { 0 };
                CpuState { pc: t, cycles: s.cycles + 2 + pen, ..s }
            } else {
                CpuState { pc: pc1, cycles: s.cycles + 1, ..s }
            }
        },
        Instr::JmpAbs => CpuState { pc: abs_word(s), cycles: s.cycles + 2, ..s },
        Instr::JmpInd => CpuState {
            pc: jmp_ind_target(s, abs_word(s)),
            cycles: s.cycles + 4,
            ..s
        },
        Instr::Jsr => {
            let target = abs_word(s);
            let ret = wrap16(s.pc + 1);
            let s1 = push_spec(tick(s, 2), (ret / 256) as u8);
            let s2 = push_spec(s1, (ret % 256) as u8);
            CpuState { pc: target, cycles: s2.cycles + 1, ..s2 }
        },
        Instr::Rts => {
            let (s1, lo) = pull_spec(s);
            let (s2, hi) = pull_spec(s1);
            CpuState { pc: wrap16(lo + 256 * hi + 1), cycles: s2.cycles + 3, ..s2 }
        },
        Instr::Rti => {
            let (s1, p) = pull_spec(s);
            let (s2, lo) = pull_spec(s1);
            let (s3, hi) = pull_spec(s2);
            unpack_status(
                CpuState { pc: (lo + 256 * hi) as u16, cycles: s3.cycles + 2, ..s3 },
                p,
            )
        },
        Instr::Brk => {
            let ret = wrap16(s.pc + 1);
            let s1 = push_spec(s, (ret / 256) as u8);
            let s2 = push_spec(s1, (ret % 256) as u8);
            let s3 = push_spec(s2, status_byte_with(s, true, true));
            CpuState { pc: irq_vector(s), i: true, cycles: s3.cycles + 3, ..s3 }
        },
        Instr::SetFlag(f, on) => {
            let s1 = tick(s, 1);
            match f {
                FlagSel::Carry => CpuState { c: on, ..s1 },
                FlagSel::Interrupt => CpuState { i: on, ..s1 },
                FlagSel::Decimal => CpuState { d: on, ..s1 },
                FlagSel::Overflow => CpuState { v: on, ..s1 },
            }
        },
        Instr::Nop => tick(s, 1),
    }
}

/// The dispatch table: every documented opcode byte and nothing else.
pub open spec fn decode(op: u8) -> Option<Instr> {
    match op {
        0x00u8 => Some(Instr::Brk),
        0x01u8 => Some(Instr::Alu(AluOp::Ora, AddrMode::IndirectX)),
        0x05u8 => Some(Instr::Alu(AluOp::Ora, AddrMode::ZeroPage)),
        0x06u8 => Some(Instr::ShiftMem(ShiftOp::Asl, AddrMode::ZeroPage)),
        0x08u8 => Some(Instr::Php),
        0x09u8 => Some(Instr::Alu(AluOp::Ora, AddrMode::Immediate)),
        0x0Au8 => Some(Instr::ShiftAcc(ShiftOp::Asl)),
        0x0Du8 => Some(Instr::Alu(AluOp::Ora, AddrMode::Absolute)),
        0x0Eu8 => Some(Instr::ShiftMem(ShiftOp::Asl, AddrMode::Absolute)),
        0x10u8 => Some(Instr::Branch(BranchOn::Plus)),
        0x11u8 => Some(Instr::Alu(AluOp::Ora, AddrMode::IndirectY)),
        0x15u8 => Some(Instr::Alu(AluOp::Ora, AddrMode::ZeroPageX)),
        0x16u8 => Some(Instr::ShiftMem(ShiftOp::Asl, AddrMode::ZeroPageX)),
        0x18u8 => Some(Instr::SetFlag(FlagSel::Carry, false)),
        0x19u8 => Some(Instr::Alu(AluOp::Ora, AddrMode::AbsoluteY)),
        0x1Du8 => Some(Instr::Alu(AluOp::Ora, AddrMode::AbsoluteX)),
        0x1Eu8 => Some(Instr::ShiftMem(ShiftOp::Asl, AddrMode::AbsoluteX)),
        0x20u8 => Some(Instr::Jsr),
        0x21u8 => Some(Instr::Alu(AluOp::And, AddrMode::IndirectX)),
        0x24u8 => Some(Instr::Bit(AddrMode::ZeroPage)),
        0x25u8 => Some(Instr::Alu(AluOp::And, AddrMode::ZeroPage)),
        0x26u8 => Some(Instr::ShiftMem(ShiftOp::Rol, AddrMode::ZeroPage)),
        0x28u8 => Some(Instr::Plp),
        0x29u8 => Some(Instr::Alu(AluOp::And, AddrMode::Immediate)),
        0x2Au8 => Some(Instr::ShiftAcc(ShiftOp::Rol)),
        0x2Cu8 => Some(Instr::Bit(AddrMode::Absolute)),
        0x2Du8 => Some(Instr::Alu(AluOp::And, AddrMode::Absolute)),
        0x2Eu8 => Some(Instr::ShiftMem(ShiftOp::Rol, AddrMode::Absolute)),
        0x30u8 => Some(Instr::Branch(BranchOn::Minus)),
        0x31u8 => Some(Instr::Alu(AluOp::And, AddrMode::IndirectY)),
        0x35u8 => Some(Instr::Alu(AluOp::And, AddrMode::ZeroPageX)),
        0x36u8 => Some(Instr::ShiftMem(ShiftOp::Rol, AddrMode::ZeroPageX)),
        0x38u8 => Some(Instr::SetFlag(FlagSel::Carry, true)),
        0x39u8 => Some(Instr::Alu(AluOp::And, AddrMode::AbsoluteY)),
        0x3Du8 => Some(Instr::Alu(AluOp::And, AddrMode::AbsoluteX)),
        0x3Eu8 => Some(Instr::ShiftMem(ShiftOp::Rol, AddrMode::AbsoluteX)),
        0x40u8 => Some(Instr::Rti),
        0x41u8 => Some(Instr::Alu(AluOp::Eor, AddrMode::IndirectX)),
        0x45u8 => Some(Instr::Alu(AluOp::Eor, AddrMode::ZeroPage)),
        0x46u8 => Some(Instr::ShiftMem(ShiftOp::Lsr, AddrMode::ZeroPage)),
        0x48u8 => Some(Instr::Pha),
        0x49u8 => Some(Instr::Alu(AluOp::Eor, AddrMode::Immediate)),
        0x4Au8 => Some(Instr::ShiftAcc(ShiftOp::Lsr)),
        0x4Cu8 => Some(Instr::JmpAbs),
        0x4Du8 => Some(Instr::Alu(AluOp::Eor, AddrMode::Absolute)),
        0x4Eu8 => Some(Instr::ShiftMem(ShiftOp::Lsr, AddrMode::Absolute)),
        0x50u8 => Some(Instr::Branch(BranchOn::OverflowClear)),
        0x51u8 => Some(Instr::Alu(AluOp::Eor, AddrMode::IndirectY)),
        0x55u8 => Some(Instr::Alu(AluOp::Eor, AddrMode::ZeroPageX)),
        0x56u8 => Some(Instr::ShiftMem(ShiftOp::Lsr, AddrMode::ZeroPageX)),
        0x58u8 => Some(Instr::SetFlag(FlagSel::Interrupt, false)),
        0x59u8 => Some(Instr::Alu(AluOp::Eor, AddrMode::AbsoluteY)),
        0x5Du8 => Some(Instr::Alu(AluOp::Eor, AddrMode::AbsoluteX)),
        0x5Eu8 => Some(Instr::ShiftMem(ShiftOp::Lsr, AddrMode::AbsoluteX)),
        0x60u8 => Some(Instr::Rts),
        0x61u8 => Some(Instr::Alu(AluOp::Adc, AddrMode::IndirectX)),
        0x65u8 => Some(Instr::Alu(AluOp::Adc, AddrMode::ZeroPage)),
        0x66u8 => Some(Instr::ShiftMem(ShiftOp::Ror, AddrMode::ZeroPage)),
        0x68u8 => Some(Instr::Pla),
        0x69u8 => Some(Instr::Alu(AluOp::Adc, AddrMode::Immediate)),
        0x6Au8 => Some(Instr::ShiftAcc(ShiftOp::Ror)),
        0x6Cu8 => Some(Instr::JmpInd),
        0x6Du8 => Some(Instr::Alu(AluOp::Adc, AddrMode::Absolute)),
        0x6Eu8 => Some(Instr::ShiftMem(ShiftOp::Ror, AddrMode::Absolute)),
        0x70u8 => Some(Instr::Branch(BranchOn::OverflowSet)),
        0x71u8 => Some(Instr::Alu(AluOp::Adc, AddrMode::IndirectY)),
        0x75u8 => Some(Instr::Alu(AluOp::Adc, AddrMode::ZeroPageX)),
        0x76u8 => Some(Instr::ShiftMem(ShiftOp::Ror, AddrMode::ZeroPageX)),
        0x78u8 => Some(Instr::SetFlag(FlagSel::Interrupt, true)),
        0x79u8 => Some(Instr::Alu(AluOp::Adc, AddrMode::AbsoluteY)),
        0x7Du8 => Some(Instr::Alu(AluOp::Adc, AddrMode::AbsoluteX)),
        0x7Eu8 => Some(Instr::ShiftMem(ShiftOp::Ror, AddrMode::AbsoluteX)),
        0x81u8 => Some(Instr::Store(Reg::A, AddrMode::IndirectX)),
        0x84u8 => Some(Instr::Store(Reg::Y, AddrMode::ZeroPage)),
        0x85u8 => Some(Instr::Store(Reg::A, AddrMode::ZeroPage)),
        0x86u8 => Some(Instr::Store(Reg::X, AddrMode::ZeroPage)),
        0x88u8 => Some(Instr::Dey),
        0x8Au8 => Some(Instr::Txa),
        0x8Cu8 => Some(Instr::Store(Reg::Y, AddrMode::Absolute)),
        0x8Du8 => Some(Instr::Store(Reg::A, AddrMode::Absolute)),
        0x8Eu8 => Some(Instr::Store(Reg::X, AddrMode::Absolute)),
        0x90u8 => Some(Instr::Branch(BranchOn::CarryClear)),
        0x91u8 => Some(Instr::Store(Reg::A, AddrMode::IndirectY)),
        0x94u8 => Some(Instr::Store(Reg::Y, AddrMode::ZeroPageX)),
        0x95u8 => Some(Instr::Store(Reg::A, AddrMode::ZeroPageX)),
        0x96u8 => Some(Instr::Store(Reg::X, AddrMode::ZeroPageY)),
        0x98u8 => Some(Instr::Tya),
        0x99u8 => Some(Instr::Store(Reg::A, AddrMode::AbsoluteY)),
        0x9Au8 => Some(Instr::Txs),
        0x9Du8 => Some(Instr::Store(Reg::A, AddrMode::AbsoluteX)),
        0xA0u8 => Some(Instr::Load(Reg::Y, AddrMode::Immediate)),
        0xA1u8 => Some(Instr::Load(Reg::A, AddrMode::IndirectX)),
        0xA2u8 => Some(Instr::Load(Reg::X, AddrMode::Immediate)),
        0xA4u8 => Some(Instr::Load(Reg::Y, AddrMode::ZeroPage)),
        0xA5u8 => Some(Instr::Load(Reg::A, AddrMode::ZeroPage)),
        0xA6u8 => Some(Instr::Load(Reg::X, AddrMode::ZeroPage)),
        0xA8u8 => Some(Instr::Tay),
        0xA9u8 => Some(Instr::Load(Reg::A, AddrMode::Immediate)),
        0xAAu8 => Some(Instr::Tax),
        0xACu8 => Some(Instr::Load(Reg::Y, AddrMode::Absolute)),
        0xADu8 => Some(Instr::Load(Reg::A, AddrMode::Absolute)),
        0xAEu8 => Some(Instr::Load(Reg::X, AddrMode::Absolute)),
        0xB0u8 => Some(Instr::Branch(BranchOn::CarrySet)),
        0xB1u8 => Some(Instr::Load(Reg::A, AddrMode::IndirectY)),
        0xB4u8 => Some(Instr::Load(Reg::Y, AddrMode::ZeroPageX)),
        0xB5u8 => Some(Instr::Load(Reg::A, AddrMode::ZeroPageX)),
        0xB6u8 => Some(Instr::Load(Reg::X, AddrMode::ZeroPageY)),
        0xB8u8 => Some(Instr::SetFlag(FlagSel::Overflow, false)),
        0xB9u8 => Some(Instr::Load(Reg::A, AddrMode::AbsoluteY)),
        0xBAu8 => Some(Instr::Tsx),
        0xBCu8 => Some(Instr::Load(Reg::Y, AddrMode::AbsoluteX)),
        0xBDu8 => Some(Instr::Load(Reg::A, AddrMode::AbsoluteX)),
        0xBEu8 => Some(Instr::Load(Reg::X, AddrMode::AbsoluteY)),
        0xC0u8 => Some(Instr::Cmp(Reg::Y, AddrMode::Immediate)),
        0xC1u8 => Some(Instr::Cmp(Reg::A, AddrMode::IndirectX)),
        0xC4u8 => Some(Instr::Cmp(Reg::Y, AddrMode::ZeroPage)),
        0xC5u8 => Some(Instr::Cmp(Reg::A, AddrMode::ZeroPage)),
        0xC6u8 => Some(Instr::DecMem(AddrMode::ZeroPage)),
        0xC8u8 => Some(Instr::Iny),
        0xC9u8 => Some(Instr::Cmp(Reg::A, AddrMode::Immediate)),
        0xCAu8 => Some(Instr::Dex),
        0xCCu8 => Some(Instr::Cmp(Reg::Y, AddrMode::Absolute)),
        0xCDu8 => Some(Instr::Cmp(Reg::A, AddrMode::Absolute)),
        0xCEu8 => Some(Instr::DecMem(AddrMode::Absolute)),
        0xD0u8 => Some(Instr::Branch(BranchOn::NotZero)),
        0xD1u8 => Some(Instr::Cmp(Reg::A, AddrMode::IndirectY)),
        0xD5u8 => Some(Instr::Cmp(Reg::A, AddrMode::ZeroPageX)),
        0xD6u8 => Some(Instr::DecMem(AddrMode::ZeroPageX)),
        0xD8u8 => Some(Instr::SetFlag(FlagSel::Decimal, false)),
        0xD9u8 => Some(Instr::Cmp(Reg::A, AddrMode::AbsoluteY)),
        0xDDu8 => Some(Instr::Cmp(Reg::A, AddrMode::AbsoluteX)),
        0xDEu8 => Some(Instr::DecMem(AddrMode::AbsoluteX)),
        0xE0u8 => Some(Instr::Cmp(Reg::X, AddrMode::Immediate)),
        0xE1u8 => Some(Instr::Alu(AluOp::Sbc, AddrMode::IndirectX)),
        0xE4u8 => Some(Instr::Cmp(Reg::X, AddrMode::ZeroPage)),
        0xE5u8 => Some(Instr::Alu(AluOp::Sbc, AddrMode::ZeroPage)),
        0xE6u8 => Some(Instr::IncMem(AddrMode::ZeroPage)),
        0xE8u8 => Some(Instr::Inx),
        0xE9u8 => Some(Instr::Alu(AluOp::Sbc, AddrMode::Immediate)),
        0xEAu8 => Some(Instr::Nop),
        0xECu8 => Some(Instr::Cmp(Reg::X, AddrMode::Absolute)),
        0xEDu8 => Some(Instr::Alu(AluOp::Sbc, AddrMode::Absolute)),
        0xEEu8 => Some(Instr::IncMem(AddrMode::Absolute)),
        0xF0u8 => Some(Instr::Branch(BranchOn::Zero)),
        0xF1u8 => Some(Instr::Alu(AluOp::Sbc, AddrMode::IndirectY)),
        0xF5u8 => Some(Instr::Alu(AluOp::Sbc, AddrMode::ZeroPageX)),
        0xF6u8 => Some(Instr::IncMem(AddrMode::ZeroPageX)),
        0xF8u8 => Some(Instr::SetFlag(FlagSel::Decimal, true)),
        0xF9u8 => Some(Instr::Alu(AluOp::Sbc, AddrMode::AbsoluteY)),
        0xFDu8 => Some(Instr::Alu(AluOp::Sbc, AddrMode::AbsoluteX)),
        0xFEu8 => Some(Instr::IncMem(AddrMode::AbsoluteX)),
        _ => None,
    }
}

/// Whether the byte is a documented opcode.
pub open spec fn legal(op: u8) -> bool {
    decode(op) is Some
}

/// The opcode byte the processor would fetch next.
pub open spec fn opcode_at(s: CpuState) -> u8 {
    rd(s, s.pc)
}

/// The state after the opcode fetch itself: the program counter advances
/// past the opcode byte and one cycle is charged for the bus read.
pub open spec fn fetch_opcode(s: CpuState) -> CpuState {
    CpuState { pc: wrap16(s.pc + 1), cycles: s.cycles + 1, ..s }
}

/// One complete instruction from a state whose program counter names a
/// documented opcode.  On an undocumented byte the state is unchanged.
pub open spec fn step_spec(s: CpuState) -> CpuState {
    match decode(opcode_at(s)) {
        Some(ins) => ins_spec(fetch_opcode(s), ins),
        None => s,
    }
}

/// Repeated stepping, bounded by `fuel`: stop once the cycle counter has
/// reached `lim` or the next opcode is undocumented.  Because every step
/// charges at least the opcode-fetch cycle, `fuel = lim` always suffices,
/// which [`run_spec`] uses.
pub open spec fn run_fuel(s: CpuState, lim: nat, fuel: nat) -> CpuState
    decreases fuel,
{
    if fuel == 0 || s.cycles >= lim || !legal(opcode_at(s)) {
        s
    } else {
        run_fuel(step_spec(s), lim, (fuel - 1) as nat)
    }
}

/// The state after running until the cycle counter reaches `lim` or an
/// undocumented opcode is about to be fetched.
pub open spec fn run_spec(s: CpuState, lim: nat) -> CpuState {
    run_fuel(s, lim, lim)
}

/// No instruction ever takes the cycle counter backwards.
pub proof fn lemma_ins_cycles_mono(s: CpuState, ins: Instr)
    ensures
        ins_spec(s, ins).cycles >= s.cycles,
{
}

/// Every complete step charges at least the opcode-fetch cycle, which is
/// what bounds the number of iterations a bounded run can make.
pub proof fn lemma_step_cycles_lb(s: CpuState)
    requires
        legal(opcode_at(s)),
    ensures
        step_spec(s).cycles >= s.cycles + 1,
{
    match decode(opcode_at(s)) {
        Some(ins) => lemma_ins_cycles_mono(fetch_opcode(s), ins),
        None => (),
    }
}

} // verus!
