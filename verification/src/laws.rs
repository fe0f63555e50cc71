//! The general laws of the emulator, stated over the model and proved once
//! and for all.  Because every executable handler is verified to realise the
//! model exactly, each law here holds of the running CPU as well.

use vstd::prelude::*;

use crate::model::AddrMode;
use crate::model::AluOp;
use crate::model::CpuState;
use crate::model::Instr;
use crate::model::Reg;
use crate::model::abs_word;
use crate::model::adc_binary;
use crate::model::bit7;
use crate::model::branch_target;
use crate::model::cond_holds;
use crate::model::decode;
use crate::model::fetch_opcode;
use crate::model::ins_spec;
use crate::model::jmp_ind_target;
use crate::model::mode_addr;
use crate::model::mode_crossed;
use crate::model::mode_cycles_read;
use crate::model::mode_cycles_write;
use crate::model::opcode_at;
use crate::model::pull_spec;
use crate::model::push_spec;
use crate::model::rd;
use crate::model::read_operand;
use crate::model::sp_dec;
use crate::model::sp_inc;
use crate::model::step_spec;
use crate::model::wrap16;
use crate::mos6502::Mos6502Flags;
use crate::tests_utils::flag_of;

verus! {

/// The documented base cycle count of an instruction, opcode fetch
/// included: 2 to 7 cycles, before any page-cross or branch-taken surcharge.
pub open spec fn base_cycles(ins: Instr) -> nat {
    match ins {
        Instr::Load(_, m) => 1 + mode_cycles_read(m),
        Instr::Store(_, m) => 2 + mode_cycles_write(m),
        Instr::Alu(_, m) => 1 + mode_cycles_read(m),
        Instr::Cmp(_, m) => 1 + mode_cycles_read(m),
        Instr::Bit(m) => 1 + mode_cycles_read(m),
        Instr::ShiftAcc(_) => 2,
        Instr::ShiftMem(_, m) => 4 + mode_cycles_write(m),
        Instr::IncMem(m) => 4 + mode_cycles_write(m),
        Instr::DecMem(m) => 4 + mode_cycles_write(m),
        Instr::Inx => 2,
        Instr::Iny => 2,
        Instr::Dex => 2,
        Instr::Dey => 2,
        Instr::Tax => 2,
        Instr::Tay => 2,
        Instr::Tsx => 2,
        Instr::Txa => 2,
        Instr::Txs => 2,
        Instr::Tya => 2,
        Instr::Pha => 3,
        Instr::Php => 3,
        Instr::Pla => 4,
        Instr::Plp => 4,
        Instr::Branch(_) => 2,
        Instr::JmpAbs => 3,
        Instr::JmpInd => 5,
        Instr::Jsr => 6,
        Instr::Rts => 6,
        Instr::Rti => 6,
        Instr::Brk => 7,
        Instr::SetFlag(_, _) => 2,
        Instr::Nop => 2,
    }
}

/// The page-cross surcharge an instruction actually incurs, judged on the
/// state just after the opcode fetch: one cycle for the read-style indexed
/// modes when the index carries into the high address byte, never for
/// stores or read-modify-writes (their cost is fixed).
pub open spec fn cross_penalty(s: CpuState, ins: Instr) -> nat {
    match ins {
        Instr::Load(_, m) => if mode_crossed(s, m) {
            1
        } else {
            0
        },
        Instr::Alu(_, m) => if mode_crossed(s, m) {
            1
        } else {
            0
        },
        Instr::Cmp(_, m) => if mode_crossed(s, m) {
            1
        } else {
            0
        },
        Instr::Bit(m) => if mode_crossed(s, m) {
            1
        } else {
            0
        },
        _ => 0,
    }
}

/// The branch surcharge, judged on the state just after the opcode fetch:
/// one cycle when the branch is taken, one more when the taken branch lands
/// on a different page than the instruction's end.
pub open spec fn branch_penalty(s: CpuState, ins: Instr) -> nat {
    match ins {
        Instr::Branch(bc) => if cond_holds(s, bc) {
            let pc1 = wrap16(s.pc + 1);
            let t = branch_target(pc1, rd(s, s.pc));
            if t / 256 != pc1 / 256 {
                2
            } else {
                1
            }
        } else {
            0
        },
        _ => 0,
    }
}

/// Cycle accounting: executing any documented instruction advances the
/// cycle counter by exactly the opcode's base cycles plus the page-cross
/// and branch-taken surcharges that actually occurred.
pub proof fn lemma_cycle_accounting(s: CpuState, ins: Instr)
    requires
        decode(opcode_at(s)) == Some(ins),
    ensures
        step_spec(s).cycles == s.cycles + base_cycles(ins) + cross_penalty(fetch_opcode(s), ins)
            + branch_penalty(fetch_opcode(s), ins),
{
}

/// Which flags an instruction may write at all.  Everything outside this
/// set is untouched, which [`lemma_unaffected_flag_preserved`] proves.
pub open spec fn affects_flag(ins: Instr, f: Mos6502Flags) -> bool {
    match ins {
        Instr::Load(_, _) => f == Mos6502Flags::Z || f == Mos6502Flags::N,
        Instr::Store(_, _) => false,
        Instr::Alu(op, _) => match op {
            AluOp::And => f == Mos6502Flags::Z || f == Mos6502Flags::N,
            AluOp::Ora => f == Mos6502Flags::Z || f == Mos6502Flags::N,
            AluOp::Eor => f == Mos6502Flags::Z || f == Mos6502Flags::N,
            AluOp::Adc => f == Mos6502Flags::C || f == Mos6502Flags::Z || f == Mos6502Flags::V
                || f == Mos6502Flags::N,
            AluOp::Sbc => f == Mos6502Flags::C || f == Mos6502Flags::Z || f == Mos6502Flags::V
                || f == Mos6502Flags::N,
        },
        Instr::Cmp(_, _) => f == Mos6502Flags::C || f == Mos6502Flags::Z || f == Mos6502Flags::N,
        Instr::Bit(_) => f == Mos6502Flags::Z || f == Mos6502Flags::V || f == Mos6502Flags::N,
        Instr::ShiftAcc(_) => f == Mos6502Flags::C || f == Mos6502Flags::Z || f == Mos6502Flags::N,
        Instr::ShiftMem(_, _) => f == Mos6502Flags::C || f == Mos6502Flags::Z || f
            == Mos6502Flags::N,
        Instr::IncMem(_) => f == Mos6502Flags::Z || f == Mos6502Flags::N,
        Instr::DecMem(_) => f == Mos6502Flags::Z || f == Mos6502Flags::N,
        Instr::Inx => f == Mos6502Flags::Z || f == Mos6502Flags::N,
        Instr::Iny => f == Mos6502Flags::Z || f == Mos6502Flags::N,
        Instr::Dex => f == Mos6502Flags::Z || f == Mos6502Flags::N,
        Instr::Dey => f == Mos6502Flags::Z || f == Mos6502Flags::N,
        Instr::Tax => f == Mos6502Flags::Z || f == Mos6502Flags::N,
        Instr::Tay => f == Mos6502Flags::Z || f == Mos6502Flags::N,
        Instr::Tsx => f == Mos6502Flags::Z || f == Mos6502Flags::N,
        Instr::Txa => f == Mos6502Flags::Z || f == Mos6502Flags::N,
        Instr::Txs => false,
        Instr::Tya => f == Mos6502Flags::Z || f == Mos6502Flags::N,
        Instr::Pha => false,
        Instr::Php => false,
        Instr::Pla => f == Mos6502Flags::Z || f == Mos6502Flags::N,
        Instr::Plp => f != Mos6502Flags::B && f != Mos6502Flags::U,
        Instr::Branch(_) => false,
        Instr::JmpAbs => false,
        Instr::JmpInd => false,
        Instr::Jsr => false,
        Instr::Rts => false,
        Instr::Rti => f != Mos6502Flags::B && f != Mos6502Flags::U,
        Instr::Brk => f == Mos6502Flags::I,
        Instr::SetFlag(sel, _) => match sel {
            crate::model::FlagSel::Carry => f == Mos6502Flags::C,
            crate::model::FlagSel::Interrupt => f == Mos6502Flags::I,
            crate::model::FlagSel::Decimal => f == Mos6502Flags::D,
            crate::model::FlagSel::Overflow => f == Mos6502Flags::V,
        },
        Instr::Nop => false,
    }
}

/// Flag preservation: any flag an instruction does not affect is
/// bit-identical before and after the instruction.
pub proof fn lemma_unaffected_flag_preserved(s: CpuState, ins: Instr, f: Mos6502Flags)
    requires
        !affects_flag(ins, f),
    ensures
        flag_of(ins_spec(s, ins), f) == flag_of(s, f),
{
}

/// The same, over a whole fetch-decode-execute step.
pub proof fn lemma_step_preserves_unaffected_flag(s: CpuState, ins: Instr, f: Mos6502Flags)
    requires
        decode(opcode_at(s)) == Some(ins),
        !affects_flag(ins, f),
    ensures
        flag_of(step_spec(s), f) == flag_of(s, f),
{
    lemma_unaffected_flag_preserved(fetch_opcode(s), ins, f);
}

/// Loads drive N and Z from the loaded value: N is its bit 7 and Z says
/// whether it is zero; the value lands in the target register.
pub proof fn lemma_load_sets_nz(s: CpuState, r: Reg, m: AddrMode)
    ensures
        ({
            let val = read_operand(s, m).1;
            let fin = ins_spec(s, Instr::Load(r, m));
            &&& fin.n == bit7(val)
            &&& fin.z == (val == 0)
            &&& crate::model::reg_val(fin, r) == val
        }),
{
}

/// The value a transfer copies into its destination.
pub open spec fn transfer_value(s: CpuState, ins: Instr) -> u8 {
    match ins {
        Instr::Tax => s.a,
        Instr::Tay => s.a,
        Instr::Tsx => s.sp,
        Instr::Txa => s.x,
        Instr::Tya => s.y,
        _ => 0,
    }
}

/// The flag-updating transfers drive N and Z from the copied value.
/// (TXS copies without touching any flag; see [`affects_flag`].)
pub proof fn lemma_transfer_sets_nz(s: CpuState, ins: Instr)
    requires
        ins == Instr::Tax || ins == Instr::Tay || ins == Instr::Tsx || ins == Instr::Txa || ins
            == Instr::Tya,
    ensures
        ins_spec(s, ins).n == bit7(transfer_value(s, ins)),
        ins_spec(s, ins).z == (transfer_value(s, ins) == 0),
{
}

/// Binary-mode ALU operations drive N and Z from the accumulator result.
/// (In decimal mode ADC and SBC take N and Z from the binary intermediate
/// result, as the NMOS part does, so the accumulator form holds only with
/// the D flag clear.)
pub proof fn lemma_alu_sets_nz(s: CpuState, op: AluOp, m: AddrMode)
    requires
        !s.d,
    ensures
        ({
            let fin = ins_spec(s, Instr::Alu(op, m));
            &&& fin.n == bit7(fin.a)
            &&& fin.z == (fin.a == 0)
        }),
{
}

/// Push then pull of any byte returns that byte, restores SP to its initial
/// value, touches no register or flag, and charges one cycle per bus
/// access.  Memory changes only at the stack slot that was written.
pub proof fn lemma_push_pull_roundtrip(s: CpuState, val: u8)
    requires
        s.wf(),
    ensures
        ({
            let (s2, got) = pull_spec(push_spec(s, val));
            &&& got == val
            &&& s2.sp == s.sp
            &&& s2.a == s.a
            &&& s2.x == s.x
            &&& s2.y == s.y
            &&& s2.pc == s.pc
            &&& s2.c == s.c
            &&& s2.z == s.z
            &&& s2.i == s.i
            &&& s2.d == s.d
            &&& s2.b == s.b
            &&& s2.u == s.u
            &&& s2.v == s.v
            &&& s2.n == s.n
            &&& s2.cycles == s.cycles + 2
            &&& s2.mem == s.mem.update(0x100 + s.sp as int, val)
        }),
{
}

/// Zero-page indexed addressing wraps within the zero page: the effective
/// address is `(base + index) mod 256`, with a high byte of zero.
pub proof fn lemma_zero_page_index_wrap(s: CpuState)
    ensures
        mode_addr(s, AddrMode::ZeroPageX) == ((rd(s, s.pc) + s.x) % 256) as u16,
        mode_addr(s, AddrMode::ZeroPageY) == ((rd(s, s.pc) + s.y) % 256) as u16,
        mode_addr(s, AddrMode::ZeroPageX) < 256,
        mode_addr(s, AddrMode::ZeroPageY) < 256,
{
}

/// The indirect-JMP page-wrap bug: when the pointer's low byte is `0xFF`,
/// the high byte of the target comes from the first byte of the pointer's
/// own page, not from the next page.
pub proof fn lemma_jmp_indirect_page_wrap(s: CpuState, ptr: u16)
    requires
        ptr % 256 == 255,
    ensures
        jmp_ind_target(s, ptr) == rd(s, ptr) + 256 * rd(s, (ptr - 255) as u16),
{
}

/// ADC in binary mode: the carry out is exactly `A + M + C_in > 0xFF`, the
/// overflow flag is the signed-overflow predicate, and the accumulator is
/// the sum modulo 256.
pub proof fn lemma_adc_binary_flags(s: CpuState, mval: u8)
    ensures
        ({
            let cin: int = if s.c {
                1
            } else {
                0
            };
            let fin = adc_binary(s, mval);
            &&& fin.c == (s.a + mval + cin > 0xFF)
            &&& fin.v == ((s.a ^ fin.a) & (mval ^ fin.a) & 0x80 != 0)
            &&& fin.a == (s.a + mval + cin) % 256
            &&& fin.z == (fin.a == 0)
            &&& fin.n == bit7(fin.a)
        }),
{
}

/// `JSR abs` immediately followed by `RTS` resumes at the byte just after
/// the three-byte JSR instruction, with the stack pointer restored.  The
/// hypotheses say only that the opcodes are in place and that the two
/// stack slots JSR writes do not overlay the RTS opcode it jumps to.
pub proof fn lemma_jsr_rts(s: CpuState)
    requires
        s.wf(),
        opcode_at(s) == 0x20,
        ({
            let target = abs_word(fetch_opcode(s));
            &&& rd(s, target) == 0x60
            &&& target != 0x100 + s.sp
            &&& target != 0x100 + sp_dec(s.sp)
        }),
    ensures
        step_spec(step_spec(s)).pc == wrap16(s.pc + 3),
        step_spec(step_spec(s)).sp == s.sp,
        step_spec(step_spec(s)).cycles == s.cycles + 12,
{
    let sf = fetch_opcode(s);
    let target = abs_word(sf);
    let ret = wrap16(sf.pc + 1);
    let s1 = step_spec(s);
    assert(s1.pc == target);
    assert(s1.sp == sp_dec(sp_dec(s.sp)));
    assert(s1.mem == s.mem.update(0x100 + s.sp as int, (ret / 256) as u8).update(
        0x100 + sp_dec(s.sp) as int,
        (ret % 256) as u8,
    ));
    assert(opcode_at(s1) == 0x60) by {
        assert(s1.mem[target as int] == s.mem[target as int]);
    }
    let s1f = fetch_opcode(s1);
    let (p1, lo) = pull_spec(s1f);
    let (p2, hi) = pull_spec(p1);
    assert(lo == (ret % 256) as u8) by {
        assert(sp_inc(sp_dec(sp_dec(s.sp))) == sp_dec(s.sp)) by {
            reveal_sp_arith();
        }
    }
    assert(hi == (ret / 256) as u8) by {
        assert(sp_inc(sp_dec(s.sp)) == s.sp) by {
            reveal_sp_arith();
        }
    }
    assert(lo + 256 * hi == ret) by {
        assert(ret == 256 * (ret / 256) + ret % 256) by (nonlinear_arith);
    }
    assert(step_spec(s1).pc == wrap16(ret + 1));
    assert(ret == wrap16(s.pc + 2)) by {
        lemma_wrap16_shift(s.pc as int, 1, 1);
    }
    assert(wrap16(ret + 1) == wrap16(s.pc + 3)) by {
        lemma_wrap16_shift(s.pc as int, 2, 1);
    }
}

/// Incrementing then decrementing the stack pointer (and the other way
/// round) restores it; used by the subroutine round trip.
proof fn reveal_sp_arith()
    ensures
        forall|x: u8| #[trigger] crate::model::sp_inc(sp_dec(x)) == x,
        forall|x: u8| #[trigger] sp_dec(crate::model::sp_inc(x)) == x,
{
}

/// Adding to an already-wrapped 16-bit value and wrapping again is the same
/// as wrapping the whole sum once.
proof fn lemma_wrap16_shift(x: int, a: int, b: int)
    requires
        x >= 0,
        a >= 0,
        b >= 0,
    ensures
        wrap16(wrap16(x + a) + b) == wrap16(x + a + b),
{
    let m = 0x10000int;
    vstd::arithmetic::div_mod::lemma_mod_multiples_vanish(
        -((x + a) / m),
        x + a + b,
        m,
    );
    assert((x + a) % m + b == (x + a + b) - m * ((x + a) / m)) by {
        vstd::arithmetic::div_mod::lemma_fundamental_div_mod(x + a, m);
    }
}

} // verus!
