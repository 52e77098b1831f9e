use vstd::prelude::*;

use crate::addressing;
use crate::cpu::lemma_overflow_bits;
use crate::emu::Emu;
use crate::emu::Stat;
use crate::flags::Flags;
use crate::flags::FLAG_A;
use crate::flags::FLAG_B;
use crate::flags::FLAG_C;
use crate::flags::FLAG_N;
use crate::flags::FLAG_V;
use crate::flags::FLAG_Z;
use crate::isa::Instr;
use crate::isa::Mode;
use crate::isa::lemma_run_branch;
use crate::isa::lemma_run_brk;
use crate::isa::lemma_run_jmp;
use crate::isa::lemma_run_jsr;
use crate::isa::lemma_run_pha;
use crate::isa::lemma_run_php;
use crate::isa::lemma_run_pla;
use crate::isa::lemma_run_plp;
use crate::isa::lemma_run_rti;
use crate::isa::lemma_run_rts;
use crate::isa::lemma_run_implied;
use crate::isa::lemma_run_store;
use crate::isa::lemma_run_read;
use crate::isa::lemma_run_rmw;
use crate::isa::IRQ_VECTOR;
use crate::stack;

verus! {

// Operations on a value: the registers change, memory does not.

pub fn adc(emu: &mut Emu, val: u8)
    ensures
        final(emu).cpu == old(emu).cpu.read_op(Instr::Adc, val),
        final(emu).mem == old(emu).mem,
        final(emu).stat == old(emu).stat,
{
    let a = emu.cpu.a;
    let c = emu.cpu.sp.carry_bit();
    let sum: u16 = a as u16 + val as u16 + c as u16;
    let r = (sum % 256) as u8;
    proof {
        lemma_overflow_bits(a, val, c);
    }
    emu.cpu.overflow_flag((val ^ r) & (a ^ r) & 0x80 != 0);
    emu.cpu.carry_flag(sum > 255);
    emu.cpu.a = r;
    emu.cpu.nz_flags(r);
}

/// Subtraction is addition of the one's complement of the operand.
pub fn sbc(emu: &mut Emu, val: u8)
    ensures
        final(emu).cpu == old(emu).cpu.read_op(Instr::Sbc, val),
        final(emu).mem == old(emu).mem,
        final(emu).stat == old(emu).stat,
{
    adc(emu, 255 - val);
}

pub fn and(emu: &mut Emu, val: u8)
    ensures
        final(emu).cpu == old(emu).cpu.read_op(Instr::And, val),
        final(emu).mem == old(emu).mem,
        final(emu).stat == old(emu).stat,
{
    emu.cpu.a = emu.cpu.a & val;
    emu.cpu.nz_flags(emu.cpu.a);
}

pub fn ora(emu: &mut Emu, val: u8)
    ensures
        final(emu).cpu == old(emu).cpu.read_op(Instr::Ora, val),
        final(emu).mem == old(emu).mem,
        final(emu).stat == old(emu).stat,
{
    emu.cpu.a = emu.cpu.a | val;
    emu.cpu.nz_flags(emu.cpu.a);
}

pub fn eor(emu: &mut Emu, val: u8)
    ensures
        final(emu).cpu == old(emu).cpu.read_op(Instr::Eor, val),
        final(emu).mem == old(emu).mem,
        final(emu).stat == old(emu).stat,
{
    emu.cpu.a = emu.cpu.a ^ val;
    emu.cpu.nz_flags(emu.cpu.a);
}

pub fn lda(emu: &mut Emu, val: u8)
    ensures
        final(emu).cpu == old(emu).cpu.read_op(Instr::Lda, val),
        final(emu).mem == old(emu).mem,
        final(emu).stat == old(emu).stat,
{
    emu.cpu.a = val;
    emu.cpu.nz_flags(emu.cpu.a);
}

pub fn ldx(emu: &mut Emu, val: u8)
    ensures
        final(emu).cpu == old(emu).cpu.read_op(Instr::Ldx, val),
        final(emu).mem == old(emu).mem,
        final(emu).stat == old(emu).stat,
{
    emu.cpu.x = val;
    emu.cpu.nz_flags(emu.cpu.x);
}

pub fn ldy(emu: &mut Emu, val: u8)
    ensures
        final(emu).cpu == old(emu).cpu.read_op(Instr::Ldy, val),
        final(emu).mem == old(emu).mem,
        final(emu).stat == old(emu).stat,
{
    emu.cpu.y = val;
    emu.cpu.nz_flags(emu.cpu.y);
}

/// Carry when `reg >= val`; Zero and Negative from `reg - val`, which is not kept.
fn compare(emu: &mut Emu, reg: u8, val: u8)
    ensures
        final(emu).cpu == old(emu).cpu.after_compare(reg, val),
        final(emu).mem == old(emu).mem,
        final(emu).stat == old(emu).stat,
{
    emu.cpu.carry_flag(reg >= val);
    emu.cpu.nz_flags(reg.wrapping_sub(val));
}

pub fn cmp(emu: &mut Emu, val: u8)
    ensures
        final(emu).cpu == old(emu).cpu.read_op(Instr::Cmp, val),
        final(emu).mem == old(emu).mem,
        final(emu).stat == old(emu).stat,
{
    let a = emu.cpu.a;
    compare(emu, a, val);
}

pub fn cpx(emu: &mut Emu, val: u8)
    ensures
        final(emu).cpu == old(emu).cpu.read_op(Instr::Cpx, val),
        final(emu).mem == old(emu).mem,
        final(emu).stat == old(emu).stat,
{
    let x = emu.cpu.x;
    compare(emu, x, val);
}

pub fn cpy(emu: &mut Emu, val: u8)
    ensures
        final(emu).cpu == old(emu).cpu.read_op(Instr::Cpy, val),
        final(emu).mem == old(emu).mem,
        final(emu).stat == old(emu).stat,
{
    let y = emu.cpu.y;
    compare(emu, y, val);
}

/// Overflow and Negative from bits 6 and 7 of the operand, Zero from its AND with A.
pub fn bit(emu: &mut Emu, val: u8)
    ensures
        final(emu).cpu == old(emu).cpu.read_op(Instr::Bit, val),
        final(emu).mem == old(emu).mem,
        final(emu).stat == old(emu).stat,
{
    emu.cpu.overflow_flag(val & 0x40 != 0);
    emu.cpu.negative_flag(val & 0x80 != 0);
    emu.cpu.zero_flag(val & emu.cpu.a == 0);
}

// Operations on an address.

pub fn sta(emu: &mut Emu, addr: u16)
    requires
        old(emu).wf(),
    ensures
        final(emu).wf(),
        final(emu)@ == old(emu)@.store(addr, old(emu).cpu.a),
        final(emu).stat == old(emu).stat,
{
    emu.mem.store_u8(addr, emu.cpu.a);
}

pub fn stx(emu: &mut Emu, addr: u16)
    requires
        old(emu).wf(),
    ensures
        final(emu).wf(),
        final(emu)@ == old(emu)@.store(addr, old(emu).cpu.x),
        final(emu).stat == old(emu).stat,
{
    emu.mem.store_u8(addr, emu.cpu.x);
}

pub fn sty(emu: &mut Emu, addr: u16)
    requires
        old(emu).wf(),
    ensures
        final(emu).wf(),
        final(emu)@ == old(emu)@.store(addr, old(emu).cpu.y),
        final(emu).stat == old(emu).stat,
{
    emu.mem.store_u8(addr, emu.cpu.y);
}

/// Bit 7 goes to Carry before the shift; the flags follow the shifted value.
pub fn asl(emu: &mut Emu, addr: u16)
    requires
        old(emu).wf(),
    ensures
        final(emu).wf(),
        final(emu)@ == old(emu)@.rmw_at(Instr::Asl, addr),
        final(emu).stat == old(emu).stat,
{
    let val = emu.mem.load_u8(addr);
    let r = (val % 128) * 2;
    emu.cpu.carry_flag(val >= 0x80);
    emu.mem.store_u8(addr, r);
    emu.cpu.nz_flags(r);
}

/// Bit 0 goes to Carry before the shift; the flags follow the shifted value.
pub fn lsr(emu: &mut Emu, addr: u16)
    requires
        old(emu).wf(),
    ensures
        final(emu).wf(),
        final(emu)@ == old(emu)@.rmw_at(Instr::Lsr, addr),
        final(emu).stat == old(emu).stat,
{
    let val = emu.mem.load_u8(addr);
    let r = val / 2;
    emu.cpu.carry_flag(val % 2 == 1);
    emu.mem.store_u8(addr, r);
    emu.cpu.nz_flags(r);
}

/// Shift left, the old Carry entering at bit 0 and bit 7 leaving into Carry.
pub fn rol(emu: &mut Emu, addr: u16)
    requires
        old(emu).wf(),
    ensures
        final(emu).wf(),
        final(emu)@ == old(emu)@.rmw_at(Instr::Rol, addr),
        final(emu).stat == old(emu).stat,
{
    let val = emu.mem.load_u8(addr);
    let c = emu.cpu.sp.carry_bit();
    let r = (val % 128) * 2 + c;
    emu.cpu.carry_flag(val >= 0x80);
    emu.mem.store_u8(addr, r);
    emu.cpu.nz_flags(r);
}

/// Shift right, the old Carry entering at bit 7 and bit 0 leaving into Carry.
pub fn ror(emu: &mut Emu, addr: u16)
    requires
        old(emu).wf(),
    ensures
        final(emu).wf(),
        final(emu)@ == old(emu)@.rmw_at(Instr::Ror, addr),
        final(emu).stat == old(emu).stat,
{
    let val = emu.mem.load_u8(addr);
    let c = emu.cpu.sp.carry_bit();
    let r = val / 2 + 128 * c;
    emu.cpu.carry_flag(val % 2 == 1);
    emu.mem.store_u8(addr, r);
    emu.cpu.nz_flags(r);
}

pub fn inc(emu: &mut Emu, addr: u16)
    requires
        old(emu).wf(),
    ensures
        final(emu).wf(),
        final(emu)@ == old(emu)@.rmw_at(Instr::Inc, addr),
        final(emu).stat == old(emu).stat,
{
    let val = emu.mem.load_u8(addr).wrapping_add(1);
    emu.mem.store_u8(addr, val);
    emu.cpu.nz_flags(val);
}

pub fn dec(emu: &mut Emu, addr: u16)
    requires
        old(emu).wf(),
    ensures
        final(emu).wf(),
        final(emu)@ == old(emu)@.rmw_at(Instr::Dec, addr),
        final(emu).stat == old(emu).stat,
{
    let val = emu.mem.load_u8(addr).wrapping_sub(1);
    emu.mem.store_u8(addr, val);
    emu.cpu.nz_flags(val);
}

/// Takes the branch when `cond` holds. Returns the extra cycles: one for a taken branch,
/// one more when the target lies on another page than the next instruction.
fn branch(emu: &mut Emu, cond: bool) -> (extra: u8)
    requires
        old(emu).wf(),
    ensures
        final(emu).wf(),
        final(emu)@ == if cond {
            old(emu)@.with_pc(old(emu)@.operand_addr(Mode::Relative))
        } else {
            old(emu)@.advance(2)
        },
        extra == if !cond {
            0
        } else if old(emu)@.pc_plus(2) / 256 == old(emu)@.operand_addr(Mode::Relative) / 256 {
            1int
        } else {
            2
        },
        final(emu).stat == old(emu).stat,
{
    let next = emu.cpu.pc.wrapping_add(2);
    if cond {
        let target = addressing::relative(emu);
        emu.cpu.pc = target;
        if next / 256 == target / 256 {
            1
        } else {
            2
        }
    } else {
        emu.cpu.pc = next;
        0
    }
}

// Instructions, one per opcode. Each advances the program counter past itself or jumps.

/// An opcode that the instruction set leaves undefined: recorded in the counters and
/// stepped over as a one-byte no-op.
pub fn undef(emu: &mut Emu)
    requires
        old(emu).wf(),
    ensures
        final(emu).wf(),
        final(emu)@ == old(emu)@.run(Instr::Undef, Mode::Implied),
        final(emu).stat == (Stat { last_undefined: Some(old(emu).cpu.pc), ..old(emu).stat }),
{
    proof {
        lemma_run_implied(emu@, Instr::Undef, Mode::Implied);
    }
    emu.stat.last_undefined = Some(emu.cpu.pc);
    emu.cpu.pc = emu.cpu.pc.wrapping_add(1);
}

/// Pushes the address after the padding byte and the flags with both reserved bits set,
/// disables interrupts and jumps through the interrupt vector.
pub fn brk(emu: &mut Emu)
    requires
        old(emu).wf(),
    ensures
        final(emu).wf(),
        final(emu)@ == old(emu)@.run(Instr::Brk, Mode::Implied),
        final(emu).stat == old(emu).stat,
{
    proof {
        lemma_run_brk(emu@, Mode::Implied);
    }
    let mut f = emu.cpu.sp;
    f.set(FLAG_B, true);
    f.set(FLAG_A, true);
    stack::push_u16(emu, emu.cpu.pc.wrapping_add(1));
    stack::push_u8(emu, f.bits);
    emu.cpu.interrupt_flag(true);
    emu.cpu.pc = emu.mem.load_u16(IRQ_VECTOR);
}

pub fn nop(emu: &mut Emu)
    requires
        old(emu).wf(),
    ensures
        final(emu).wf(),
        final(emu)@ == old(emu)@.run(Instr::Nop, Mode::Implied),
        final(emu).stat == old(emu).stat,
{
    proof {
        lemma_run_implied(emu@, Instr::Nop, Mode::Implied);
    }
    emu.cpu.pc = emu.cpu.pc.wrapping_add(1);
}

pub fn asl_i(emu: &mut Emu)
    requires
        old(emu).wf(),
    ensures
        final(emu).wf(),
        final(emu)@ == old(emu)@.run(Instr::Asl, Mode::Accumulator),
        final(emu).stat == old(emu).stat,
{
    proof {
        lemma_run_rmw(emu@, Instr::Asl, Mode::Accumulator);
    }
    let val = emu.cpu.a;
    emu.cpu.carry_flag(val >= 0x80);
    emu.cpu.a = (val % 128) * 2;
    emu.cpu.nz_flags(emu.cpu.a);
    emu.cpu.pc = emu.cpu.pc.wrapping_add(1);
}

pub fn lsr_i(emu: &mut Emu)
    requires
        old(emu).wf(),
    ensures
        final(emu).wf(),
        final(emu)@ == old(emu)@.run(Instr::Lsr, Mode::Accumulator),
        final(emu).stat == old(emu).stat,
{
    proof {
        lemma_run_rmw(emu@, Instr::Lsr, Mode::Accumulator);
    }
    let val = emu.cpu.a;
    emu.cpu.carry_flag(val % 2 == 1);
    emu.cpu.a = val / 2;
    emu.cpu.nz_flags(emu.cpu.a);
    emu.cpu.pc = emu.cpu.pc.wrapping_add(1);
}

pub fn rol_i(emu: &mut Emu)
    requires
        old(emu).wf(),
    ensures
        final(emu).wf(),
        final(emu)@ == old(emu)@.run(Instr::Rol, Mode::Accumulator),
        final(emu).stat == old(emu).stat,
{
    proof {
        lemma_run_rmw(emu@, Instr::Rol, Mode::Accumulator);
    }
    let val = emu.cpu.a;
    let c = emu.cpu.sp.carry_bit();
    emu.cpu.carry_flag(val >= 0x80);
    emu.cpu.a = (val % 128) * 2 + c;
    emu.cpu.nz_flags(emu.cpu.a);
    emu.cpu.pc = emu.cpu.pc.wrapping_add(1);
}

pub fn ror_i(emu: &mut Emu)
    requires
        old(emu).wf(),
    ensures
        final(emu).wf(),
        final(emu)@ == old(emu)@.run(Instr::Ror, Mode::Accumulator),
        final(emu).stat == old(emu).stat,
{
    proof {
        lemma_run_rmw(emu@, Instr::Ror, Mode::Accumulator);
    }
    let val = emu.cpu.a;
    let c = emu.cpu.sp.carry_bit();
    emu.cpu.carry_flag(val % 2 == 1);
    emu.cpu.a = val / 2 + 128 * c;
    emu.cpu.nz_flags(emu.cpu.a);
    emu.cpu.pc = emu.cpu.pc.wrapping_add(1);
}

pub fn pha_i(emu: &mut Emu)
    requires
        old(emu).wf(),
    ensures
        final(emu).wf(),
        final(emu)@ == old(emu)@.run(Instr::Pha, Mode::Implied),
        final(emu).stat == old(emu).stat,
{
    proof {
        lemma_run_pha(emu@, Mode::Implied);
    }
    stack::push_u8(emu, emu.cpu.a);
    emu.cpu.pc = emu.cpu.pc.wrapping_add(1);
}

/// Pushes the flags with both reserved bits set.
pub fn php_i(emu: &mut Emu)
    requires
        old(emu).wf(),
    ensures
        final(emu).wf(),
        final(emu)@ == old(emu)@.run(Instr::Php, Mode::Implied),
        final(emu).stat == old(emu).stat,
{
    proof {
        lemma_run_php(emu@, Mode::Implied);
    }
    let mut f = emu.cpu.sp;
    f.set(FLAG_B, true);
    f.set(FLAG_A, true);
    stack::push_u8(emu, f.bits);
    emu.cpu.pc = emu.cpu.pc.wrapping_add(1);
}

pub fn pla_i(emu: &mut Emu)
    requires
        old(emu).wf(),
    ensures
        final(emu).wf(),
        final(emu)@ == old(emu)@.run(Instr::Pla, Mode::Implied),
        final(emu).stat == old(emu).stat,
{
    proof {
        lemma_run_pla(emu@, Mode::Implied);
    }
    let v = stack::pop_u8(emu);
    lda(emu, v);
    emu.cpu.pc = emu.cpu.pc.wrapping_add(1);
}

/// Pulls the flags: the reserved bit is set and Break cleared, whatever was on the stack.
pub fn plp_i(emu: &mut Emu)
    requires
        old(emu).wf(),
    ensures
        final(emu).wf(),
        final(emu)@ == old(emu)@.run(Instr::Plp, Mode::Implied),
        final(emu).stat == old(emu).stat,
{
    proof {
        lemma_run_plp(emu@, Mode::Implied);
    }
    let mut f = Flags::from_bits_truncate(stack::pop_u8(emu));
    f.set(FLAG_A, true);
    f.set(FLAG_B, false);
    emu.cpu.sp = f;
    emu.cpu.pc = emu.cpu.pc.wrapping_add(1);
}

pub fn jmp_abs(emu: &mut Emu)
    requires
        old(emu).wf(),
    ensures
        final(emu).wf(),
        final(emu)@ == old(emu)@.run(Instr::Jmp, Mode::Absolute),
        final(emu).stat == old(emu).stat,
{
    proof {
        lemma_run_jmp(emu@, Mode::Absolute);
    }
    emu.cpu.pc = addressing::absolute(emu);
}

pub fn jmp_ind(emu: &mut Emu)
    requires
        old(emu).wf(),
    ensures
        final(emu).wf(),
        final(emu)@ == old(emu)@.run(Instr::Jmp, Mode::Indirect),
        final(emu).stat == old(emu).stat,
{
    proof {
        lemma_run_jmp(emu@, Mode::Indirect);
    }
    emu.cpu.pc = addressing::indirect(emu);
}

/// Pushes the address of the instruction's last byte, then jumps.
pub fn jsr_abs(emu: &mut Emu)
    requires
        old(emu).wf(),
    ensures
        final(emu).wf(),
        final(emu)@ == old(emu)@.run(Instr::Jsr, Mode::Absolute),
        final(emu).stat == old(emu).stat,
{
    proof {
        lemma_run_jsr(emu@, Mode::Absolute);
    }
    let target = addressing::absolute(emu);
    stack::push_u16(emu, emu.cpu.pc.wrapping_add(2));
    emu.cpu.pc = target;
}

/// Pulls the return address and continues one byte after it.
#[verifier::rlimit(30)]
pub fn rts_i(emu: &mut Emu)
    requires
        old(emu).wf(),
    ensures
        final(emu).wf(),
        final(emu)@ == old(emu)@.run(Instr::Rts, Mode::Implied),
        final(emu).stat == old(emu).stat,
{
    proof {
        lemma_run_rts(emu@, Mode::Implied);
    }
    emu.cpu.pc = stack::pop_u16(emu).wrapping_add(1);
}

/// Pulls the flags as PLP does, then the program counter.
pub fn rti_i(emu: &mut Emu)
    requires
        old(emu).wf(),
    ensures
        final(emu).wf(),
        final(emu)@ == old(emu)@.run(Instr::Rti, Mode::Implied),
        final(emu).stat == old(emu).stat,
{
    proof {
        lemma_run_rti(emu@, Mode::Implied);
    }
    let mut f = Flags::from_bits_truncate(stack::pop_u8(emu));
    f.set(FLAG_A, true);
    f.set(FLAG_B, false);
    emu.cpu.sp = f;
    emu.cpu.pc = stack::pop_u16(emu);
}

pub fn ora_inx(emu: &mut Emu)
    requires
        old(emu).wf(),
    ensures
        final(emu).wf(),
        final(emu)@ == old(emu)@.run(Instr::Ora, Mode::IndirectX),
        final(emu).stat == old(emu).stat,
{
    proof {
        lemma_run_read(emu@, Instr::Ora, Mode::IndirectX);
    }
    let addr = addressing::indirect_x(emu);
    let v = emu.mem.load_u8(addr);
    ora(emu, v);
    emu.cpu.pc = emu.cpu.pc.wrapping_add(2);
}

pub fn ora_zpg(emu: &mut Emu)
    requires
        old(emu).wf(),
    ensures
        final(emu).wf(),
        final(emu)@ == old(emu)@.run(Instr::Ora, Mode::ZeroPage),
        final(emu).stat == old(emu).stat,
{
    proof {
        lemma_run_read(emu@, Instr::Ora, Mode::ZeroPage);
    }
    let addr = addressing::zeropage(emu);
    let v = emu.mem.load_u8(addr);
    ora(emu, v);
    emu.cpu.pc = emu.cpu.pc.wrapping_add(2);
}

pub fn asl_zpg(emu: &mut Emu)
    requires
        old(emu).wf(),
    ensures
        final(emu).wf(),
        final(emu)@ == old(emu)@.run(Instr::Asl, Mode::ZeroPage),
        final(emu).stat == old(emu).stat,
{
    proof {
        lemma_run_rmw(emu@, Instr::Asl, Mode::ZeroPage);
    }
    let addr = addressing::zeropage(emu);
    asl(emu, addr);
    emu.cpu.pc = emu.cpu.pc.wrapping_add(2);
}

pub fn ora_imm(emu: &mut Emu)
    requires
        old(emu).wf(),
    ensures
        final(emu).wf(),
        final(emu)@ == old(emu)@.run(Instr::Ora, Mode::Immediate),
        final(emu).stat == old(emu).stat,
{
    proof {
        lemma_run_read(emu@, Instr::Ora, Mode::Immediate);
    }
    let addr = addressing::immediate(emu);
    let v = emu.mem.load_u8(addr);
    ora(emu, v);
    emu.cpu.pc = emu.cpu.pc.wrapping_add(2);
}

pub fn ora_abs(emu: &mut Emu)
    requires
        old(emu).wf(),
    ensures
        final(emu).wf(),
        final(emu)@ == old(emu)@.run(Instr::Ora, Mode::Absolute),
        final(emu).stat == old(emu).stat,
{
    proof {
        lemma_run_read(emu@, Instr::Ora, Mode::Absolute);
    }
    let addr = addressing::absolute(emu);
    let v = emu.mem.load_u8(addr);
    ora(emu, v);
    emu.cpu.pc = emu.cpu.pc.wrapping_add(3);
}

pub fn asl_abs(emu: &mut Emu)
    requires
        old(emu).wf(),
    ensures
        final(emu).wf(),
        final(emu)@ == old(emu)@.run(Instr::Asl, Mode::Absolute),
        final(emu).stat == old(emu).stat,
{
    proof {
        lemma_run_rmw(emu@, Instr::Asl, Mode::Absolute);
    }
    let addr = addressing::absolute(emu);
    asl(emu, addr);
    emu.cpu.pc = emu.cpu.pc.wrapping_add(3);
}

pub fn bpl_rel(emu: &mut Emu) -> (extra: u8)
    requires
        old(emu).wf(),
    ensures
        final(emu).wf(),
        final(emu)@ == old(emu)@.run(Instr::Bpl, Mode::Relative),
        extra == old(emu)@.penalty(Instr::Bpl, Mode::Relative),
        final(emu).stat == old(emu).stat,
{
    proof {
        lemma_run_branch(emu@, Instr::Bpl, Mode::Relative);
    }
    let cond = !emu.cpu.sp.contains(FLAG_N);
    branch(emu, cond)
}

pub fn ora_iny(emu: &mut Emu) -> (extra: u8)
    requires
        old(emu).wf(),
    ensures
        final(emu).wf(),
        final(emu)@ == old(emu)@.run(Instr::Ora, Mode::IndirectY),
        extra == old(emu)@.penalty(Instr::Ora, Mode::IndirectY),
        final(emu).stat == old(emu).stat,
{
    proof {
        lemma_run_read(emu@, Instr::Ora, Mode::IndirectY);
    }
    let (addr, crossed) = addressing::indirect_y(emu);
    let v = emu.mem.load_u8(addr);
    ora(emu, v);
    emu.cpu.pc = emu.cpu.pc.wrapping_add(2);
    if crossed {
        1
    } else {
        0
    }
}

pub fn ora_zpx(emu: &mut Emu)
    requires
        old(emu).wf(),
    ensures
        final(emu).wf(),
        final(emu)@ == old(emu)@.run(Instr::Ora, Mode::ZeroPageX),
        final(emu).stat == old(emu).stat,
{
    proof {
        lemma_run_read(emu@, Instr::Ora, Mode::ZeroPageX);
    }
    let addr = addressing::zeropage_x(emu);
    let v = emu.mem.load_u8(addr);
    ora(emu, v);
    emu.cpu.pc = emu.cpu.pc.wrapping_add(2);
}

pub fn asl_zpx(emu: &mut Emu)
    requires
        old(emu).wf(),
    ensures
        final(emu).wf(),
        final(emu)@ == old(emu)@.run(Instr::Asl, Mode::ZeroPageX),
        final(emu).stat == old(emu).stat,
{
    proof {
        lemma_run_rmw(emu@, Instr::Asl, Mode::ZeroPageX);
    }
    let addr = addressing::zeropage_x(emu);
    asl(emu, addr);
    emu.cpu.pc = emu.cpu.pc.wrapping_add(2);
}

pub fn clc_i(emu: &mut Emu)
    requires
        old(emu).wf(),
    ensures
        final(emu).wf(),
        final(emu)@ == old(emu)@.run(Instr::Clc, Mode::Implied),
        final(emu).stat == old(emu).stat,
{
    proof {
        lemma_run_implied(emu@, Instr::Clc, Mode::Implied);
    }
    emu.cpu.carry_flag(false);
    emu.cpu.pc = emu.cpu.pc.wrapping_add(1);
}

pub fn ora_aby(emu: &mut Emu) -> (extra: u8)
    requires
        old(emu).wf(),
    ensures
        final(emu).wf(),
        final(emu)@ == old(emu)@.run(Instr::Ora, Mode::AbsoluteY),
        extra == old(emu)@.penalty(Instr::Ora, Mode::AbsoluteY),
        final(emu).stat == old(emu).stat,
{
    proof {
        lemma_run_read(emu@, Instr::Ora, Mode::AbsoluteY);
    }
    let (addr, crossed) = addressing::absolute_y(emu);
    let v = emu.mem.load_u8(addr);
    ora(emu, v);
    emu.cpu.pc = emu.cpu.pc.wrapping_add(3);
    if crossed {
        1
    } else {
        0
    }
}

pub fn ora_abx(emu: &mut Emu) -> (extra: u8)
    requires
        old(emu).wf(),
    ensures
        final(emu).wf(),
        final(emu)@ == old(emu)@.run(Instr::Ora, Mode::AbsoluteX),
        extra == old(emu)@.penalty(Instr::Ora, Mode::AbsoluteX),
        final(emu).stat == old(emu).stat,
{
    proof {
        lemma_run_read(emu@, Instr::Ora, Mode::AbsoluteX);
    }
    let (addr, crossed) = addressing::absolute_x(emu);
    let v = emu.mem.load_u8(addr);
    ora(emu, v);
    emu.cpu.pc = emu.cpu.pc.wrapping_add(3);
    if crossed {
        1
    } else {
        0
    }
}

pub fn asl_abx(emu: &mut Emu)
    requires
        old(emu).wf(),
    ensures
        final(emu).wf(),
        final(emu)@ == old(emu)@.run(Instr::Asl, Mode::AbsoluteX),
        final(emu).stat == old(emu).stat,
{
    proof {
        lemma_run_rmw(emu@, Instr::Asl, Mode::AbsoluteX);
    }
    let (addr, crossed) = addressing::absolute_x(emu);
    asl(emu, addr);
    emu.cpu.pc = emu.cpu.pc.wrapping_add(3);
}

pub fn and_inx(emu: &mut Emu)
    requires
        old(emu).wf(),
    ensures
        final(emu).wf(),
        final(emu)@ == old(emu)@.run(Instr::And, Mode::IndirectX),
        final(emu).stat == old(emu).stat,
{
    proof {
        lemma_run_read(emu@, Instr::And, Mode::IndirectX);
    }
    let addr = addressing::indirect_x(emu);
    let v = emu.mem.load_u8(addr);
    and(emu, v);
    emu.cpu.pc = emu.cpu.pc.wrapping_add(2);
}

pub fn bit_zpg(emu: &mut Emu)
    requires
        old(emu).wf(),
    ensures
        final(emu).wf(),
        final(emu)@ == old(emu)@.run(Instr::Bit, Mode::ZeroPage),
        final(emu).stat == old(emu).stat,
{
    proof {
        lemma_run_read(emu@, Instr::Bit, Mode::ZeroPage);
    }
    let addr = addressing::zeropage(emu);
    let v = emu.mem.load_u8(addr);
    bit(emu, v);
    emu.cpu.pc = emu.cpu.pc.wrapping_add(2);
}

pub fn and_zpg(emu: &mut Emu)
    requires
        old(emu).wf(),
    ensures
        final(emu).wf(),
        final(emu)@ == old(emu)@.run(Instr::And, Mode::ZeroPage),
        final(emu).stat == old(emu).stat,
{
    proof {
        lemma_run_read(emu@, Instr::And, Mode::ZeroPage);
    }
    let addr = addressing::zeropage(emu);
    let v = emu.mem.load_u8(addr);
    and(emu, v);
    emu.cpu.pc = emu.cpu.pc.wrapping_add(2);
}

pub fn rol_zpg(emu: &mut Emu)
    requires
        old(emu).wf(),
    ensures
        final(emu).wf(),
        final(emu)@ == old(emu)@.run(Instr::Rol, Mode::ZeroPage),
        final(emu).stat == old(emu).stat,
{
    proof {
        lemma_run_rmw(emu@, Instr::Rol, Mode::ZeroPage);
    }
    let addr = addressing::zeropage(emu);
    rol(emu, addr);
    emu.cpu.pc = emu.cpu.pc.wrapping_add(2);
}

pub fn and_imm(emu: &mut Emu)
    requires
        old(emu).wf(),
    ensures
        final(emu).wf(),
        final(emu)@ == old(emu)@.run(Instr::And, Mode::Immediate),
        final(emu).stat == old(emu).stat,
{
    proof {
        lemma_run_read(emu@, Instr::And, Mode::Immediate);
    }
    let addr = addressing::immediate(emu);
    let v = emu.mem.load_u8(addr);
    and(emu, v);
    emu.cpu.pc = emu.cpu.pc.wrapping_add(2);
}

pub fn bit_abs(emu: &mut Emu)
    requires
        old(emu).wf(),
    ensures
        final(emu).wf(),
        final(emu)@ == old(emu)@.run(Instr::Bit, Mode::Absolute),
        final(emu).stat == old(emu).stat,
{
    proof {
        lemma_run_read(emu@, Instr::Bit, Mode::Absolute);
    }
    let addr = addressing::absolute(emu);
    let v = emu.mem.load_u8(addr);
    bit(emu, v);
    emu.cpu.pc = emu.cpu.pc.wrapping_add(3);
}

pub fn and_abs(emu: &mut Emu)
    requires
        old(emu).wf(),
    ensures
        final(emu).wf(),
        final(emu)@ == old(emu)@.run(Instr::And, Mode::Absolute),
        final(emu).stat == old(emu).stat,
{
    proof {
        lemma_run_read(emu@, Instr::And, Mode::Absolute);
    }
    let addr = addressing::absolute(emu);
    let v = emu.mem.load_u8(addr);
    and(emu, v);
    emu.cpu.pc = emu.cpu.pc.wrapping_add(3);
}

pub fn rol_abs(emu: &mut Emu)
    requires
        old(emu).wf(),
    ensures
        final(emu).wf(),
        final(emu)@ == old(emu)@.run(Instr::Rol, Mode::Absolute),
        final(emu).stat == old(emu).stat,
{
    proof {
        lemma_run_rmw(emu@, Instr::Rol, Mode::Absolute);
    }
    let addr = addressing::absolute(emu);
    rol(emu, addr);
    emu.cpu.pc = emu.cpu.pc.wrapping_add(3);
}

pub fn bmi_rel(emu: &mut Emu) -> (extra: u8)
    requires
        old(emu).wf(),
    ensures
        final(emu).wf(),
        final(emu)@ == old(emu)@.run(Instr::Bmi, Mode::Relative),
        extra == old(emu)@.penalty(Instr::Bmi, Mode::Relative),
        final(emu).stat == old(emu).stat,
{
    proof {
        lemma_run_branch(emu@, Instr::Bmi, Mode::Relative);
    }
    let cond = emu.cpu.sp.contains(FLAG_N);
    branch(emu, cond)
}

pub fn and_iny(emu: &mut Emu) -> (extra: u8)
    requires
        old(emu).wf(),
    ensures
        final(emu).wf(),
        final(emu)@ == old(emu)@.run(Instr::And, Mode::IndirectY),
        extra == old(emu)@.penalty(Instr::And, Mode::IndirectY),
        final(emu).stat == old(emu).stat,
{
    proof {
        lemma_run_read(emu@, Instr::And, Mode::IndirectY);
    }
    let (addr, crossed) = addressing::indirect_y(emu);
    let v = emu.mem.load_u8(addr);
    and(emu, v);
    emu.cpu.pc = emu.cpu.pc.wrapping_add(2);
    if crossed {
        1
    } else {
        0
    }
}

pub fn and_zpx(emu: &mut Emu)
    requires
        old(emu).wf(),
    ensures
        final(emu).wf(),
        final(emu)@ == old(emu)@.run(Instr::And, Mode::ZeroPageX),
        final(emu).stat == old(emu).stat,
{
    proof {
        lemma_run_read(emu@, Instr::And, Mode::ZeroPageX);
    }
    let addr = addressing::zeropage_x(emu);
    let v = emu.mem.load_u8(addr);
    and(emu, v);
    emu.cpu.pc = emu.cpu.pc.wrapping_add(2);
}

pub fn rol_zpx(emu: &mut Emu)
    requires
        old(emu).wf(),
    ensures
        final(emu).wf(),
        final(emu)@ == old(emu)@.run(Instr::Rol, Mode::ZeroPageX),
        final(emu).stat == old(emu).stat,
{
    proof {
        lemma_run_rmw(emu@, Instr::Rol, Mode::ZeroPageX);
    }
    let addr = addressing::zeropage_x(emu);
    rol(emu, addr);
    emu.cpu.pc = emu.cpu.pc.wrapping_add(2);
}

pub fn sec_i(emu: &mut Emu)
    requires
        old(emu).wf(),
    ensures
        final(emu).wf(),
        final(emu)@ == old(emu)@.run(Instr::Sec, Mode::Implied),
        final(emu).stat == old(emu).stat,
{
    proof {
        lemma_run_implied(emu@, Instr::Sec, Mode::Implied);
    }
    emu.cpu.carry_flag(true);
    emu.cpu.pc = emu.cpu.pc.wrapping_add(1);
}

pub fn and_aby(emu: &mut Emu) -> (extra: u8)
    requires
        old(emu).wf(),
    ensures
        final(emu).wf(),
        final(emu)@ == old(emu)@.run(Instr::And, Mode::AbsoluteY),
        extra == old(emu)@.penalty(Instr::And, Mode::AbsoluteY),
        final(emu).stat == old(emu).stat,
{
    proof {
        lemma_run_read(emu@, Instr::And, Mode::AbsoluteY);
    }
    let (addr, crossed) = addressing::absolute_y(emu);
    let v = emu.mem.load_u8(addr);
    and(emu, v);
    emu.cpu.pc = emu.cpu.pc.wrapping_add(3);
    if crossed {
        1
    } else {
        0
    }
}

pub fn and_abx(emu: &mut Emu) -> (extra: u8)
    requires
        old(emu).wf(),
    ensures
        final(emu).wf(),
        final(emu)@ == old(emu)@.run(Instr::And, Mode::AbsoluteX),
        extra == old(emu)@.penalty(Instr::And, Mode::AbsoluteX),
        final(emu).stat == old(emu).stat,
{
    proof {
        lemma_run_read(emu@, Instr::And, Mode::AbsoluteX);
    }
    let (addr, crossed) = addressing::absolute_x(emu);
    let v = emu.mem.load_u8(addr);
    and(emu, v);
    emu.cpu.pc = emu.cpu.pc.wrapping_add(3);
    if crossed {
        1
    } else {
        0
    }
}

pub fn rol_abx(emu: &mut Emu)
    requires
        old(emu).wf(),
    ensures
        final(emu).wf(),
        final(emu)@ == old(emu)@.run(Instr::Rol, Mode::AbsoluteX),
        final(emu).stat == old(emu).stat,
{
    proof {
        lemma_run_rmw(emu@, Instr::Rol, Mode::AbsoluteX);
    }
    let (addr, crossed) = addressing::absolute_x(emu);
    rol(emu, addr);
    emu.cpu.pc = emu.cpu.pc.wrapping_add(3);
}

pub fn eor_inx(emu: &mut Emu)
    requires
        old(emu).wf(),
    ensures
        final(emu).wf(),
        final(emu)@ == old(emu)@.run(Instr::Eor, Mode::IndirectX),
        final(emu).stat == old(emu).stat,
{
    proof {
        lemma_run_read(emu@, Instr::Eor, Mode::IndirectX);
    }
    let addr = addressing::indirect_x(emu);
    let v = emu.mem.load_u8(addr);
    eor(emu, v);
    emu.cpu.pc = emu.cpu.pc.wrapping_add(2);
}

pub fn eor_zpg(emu: &mut Emu)
    requires
        old(emu).wf(),
    ensures
        final(emu).wf(),
        final(emu)@ == old(emu)@.run(Instr::Eor, Mode::ZeroPage),
        final(emu).stat == old(emu).stat,
{
    proof {
        lemma_run_read(emu@, Instr::Eor, Mode::ZeroPage);
    }
    let addr = addressing::zeropage(emu);
    let v = emu.mem.load_u8(addr);
    eor(emu, v);
    emu.cpu.pc = emu.cpu.pc.wrapping_add(2);
}

pub fn lsr_zpg(emu: &mut Emu)
    requires
        old(emu).wf(),
    ensures
        final(emu).wf(),
        final(emu)@ == old(emu)@.run(Instr::Lsr, Mode::ZeroPage),
        final(emu).stat == old(emu).stat,
{
    proof {
        lemma_run_rmw(emu@, Instr::Lsr, Mode::ZeroPage);
    }
    let addr = addressing::zeropage(emu);
    lsr(emu, addr);
    emu.cpu.pc = emu.cpu.pc.wrapping_add(2);
}

pub fn eor_imm(emu: &mut Emu)
    requires
        old(emu).wf(),
    ensures
        final(emu).wf(),
        final(emu)@ == old(emu)@.run(Instr::Eor, Mode::Immediate),
        final(emu).stat == old(emu).stat,
{
    proof {
        lemma_run_read(emu@, Instr::Eor, Mode::Immediate);
    }
    let addr = addressing::immediate(emu);
    let v = emu.mem.load_u8(addr);
    eor(emu, v);
    emu.cpu.pc = emu.cpu.pc.wrapping_add(2);
}

pub fn eor_abs(emu: &mut Emu)
    requires
        old(emu).wf(),
    ensures
        final(emu).wf(),
        final(emu)@ == old(emu)@.run(Instr::Eor, Mode::Absolute),
        final(emu).stat == old(emu).stat,
{
    proof {
        lemma_run_read(emu@, Instr::Eor, Mode::Absolute);
    }
    let addr = addressing::absolute(emu);
    let v = emu.mem.load_u8(addr);
    eor(emu, v);
    emu.cpu.pc = emu.cpu.pc.wrapping_add(3);
}

pub fn lsr_abs(emu: &mut Emu)
    requires
        old(emu).wf(),
    ensures
        final(emu).wf(),
        final(emu)@ == old(emu)@.run(Instr::Lsr, Mode::Absolute),
        final(emu).stat == old(emu).stat,
{
    proof {
        lemma_run_rmw(emu@, Instr::Lsr, Mode::Absolute);
    }
    let addr = addressing::absolute(emu);
    lsr(emu, addr);
    emu.cpu.pc = emu.cpu.pc.wrapping_add(3);
}

pub fn bvc_rel(emu: &mut Emu) -> (extra: u8)
    requires
        old(emu).wf(),
    ensures
        final(emu).wf(),
        final(emu)@ == old(emu)@.run(Instr::Bvc, Mode::Relative),
        extra == old(emu)@.penalty(Instr::Bvc, Mode::Relative),
        final(emu).stat == old(emu).stat,
{
    proof {
        lemma_run_branch(emu@, Instr::Bvc, Mode::Relative);
    }
    let cond = !emu.cpu.sp.contains(FLAG_V);
    branch(emu, cond)
}

pub fn eor_iny(emu: &mut Emu) -> (extra: u8)
    requires
        old(emu).wf(),
    ensures
        final(emu).wf(),
        final(emu)@ == old(emu)@.run(Instr::Eor, Mode::IndirectY),
        extra == old(emu)@.penalty(Instr::Eor, Mode::IndirectY),
        final(emu).stat == old(emu).stat,
{
    proof {
        lemma_run_read(emu@, Instr::Eor, Mode::IndirectY);
    }
    let (addr, crossed) = addressing::indirect_y(emu);
    let v = emu.mem.load_u8(addr);
    eor(emu, v);
    emu.cpu.pc = emu.cpu.pc.wrapping_add(2);
    if crossed {
        1
    } else {
        0
    }
}

pub fn eor_zpx(emu: &mut Emu)
    requires
        old(emu).wf(),
    ensures
        final(emu).wf(),
        final(emu)@ == old(emu)@.run(Instr::Eor, Mode::ZeroPageX),
        final(emu).stat == old(emu).stat,
{
    proof {
        lemma_run_read(emu@, Instr::Eor, Mode::ZeroPageX);
    }
    let addr = addressing::zeropage_x(emu);
    let v = emu.mem.load_u8(addr);
    eor(emu, v);
    emu.cpu.pc = emu.cpu.pc.wrapping_add(2);
}

pub fn lsr_zpx(emu: &mut Emu)
    requires
        old(emu).wf(),
    ensures
        final(emu).wf(),
        final(emu)@ == old(emu)@.run(Instr::Lsr, Mode::ZeroPageX),
        final(emu).stat == old(emu).stat,
{
    proof {
        lemma_run_rmw(emu@, Instr::Lsr, Mode::ZeroPageX);
    }
    let addr = addressing::zeropage_x(emu);
    lsr(emu, addr);
    emu.cpu.pc = emu.cpu.pc.wrapping_add(2);
}

pub fn cli_i(emu: &mut Emu)
    requires
        old(emu).wf(),
    ensures
        final(emu).wf(),
        final(emu)@ == old(emu)@.run(Instr::Cli, Mode::Implied),
        final(emu).stat == old(emu).stat,
{
    proof {
        lemma_run_implied(emu@, Instr::Cli, Mode::Implied);
    }
    emu.cpu.interrupt_flag(false);
    emu.cpu.pc = emu.cpu.pc.wrapping_add(1);
}

pub fn eor_aby(emu: &mut Emu) -> (extra: u8)
    requires
        old(emu).wf(),
    ensures
        final(emu).wf(),
        final(emu)@ == old(emu)@.run(Instr::Eor, Mode::AbsoluteY),
        extra == old(emu)@.penalty(Instr::Eor, Mode::AbsoluteY),
        final(emu).stat == old(emu).stat,
{
    proof {
        lemma_run_read(emu@, Instr::Eor, Mode::AbsoluteY);
    }
    let (addr, crossed) = addressing::absolute_y(emu);
    let v = emu.mem.load_u8(addr);
    eor(emu, v);
    emu.cpu.pc = emu.cpu.pc.wrapping_add(3);
    if crossed {
        1
    } else {
        0
    }
}

pub fn eor_abx(emu: &mut Emu) -> (extra: u8)
    requires
        old(emu).wf(),
    ensures
        final(emu).wf(),
        final(emu)@ == old(emu)@.run(Instr::Eor, Mode::AbsoluteX),
        extra == old(emu)@.penalty(Instr::Eor, Mode::AbsoluteX),
        final(emu).stat == old(emu).stat,
{
    proof {
        lemma_run_read(emu@, Instr::Eor, Mode::AbsoluteX);
    }
    let (addr, crossed) = addressing::absolute_x(emu);
    let v = emu.mem.load_u8(addr);
    eor(emu, v);
    emu.cpu.pc = emu.cpu.pc.wrapping_add(3);
    if crossed {
        1
    } else {
        0
    }
}

pub fn lsr_abx(emu: &mut Emu)
    requires
        old(emu).wf(),
    ensures
        final(emu).wf(),
        final(emu)@ == old(emu)@.run(Instr::Lsr, Mode::AbsoluteX),
        final(emu).stat == old(emu).stat,
{
    proof {
        lemma_run_rmw(emu@, Instr::Lsr, Mode::AbsoluteX);
    }
    let (addr, crossed) = addressing::absolute_x(emu);
    lsr(emu, addr);
    emu.cpu.pc = emu.cpu.pc.wrapping_add(3);
}

pub fn adc_inx(emu: &mut Emu)
    requires
        old(emu).wf(),
    ensures
        final(emu).wf(),
        final(emu)@ == old(emu)@.run(Instr::Adc, Mode::IndirectX),
        final(emu).stat == old(emu).stat,
{
    proof {
        lemma_run_read(emu@, Instr::Adc, Mode::IndirectX);
    }
    let addr = addressing::indirect_x(emu);
    let v = emu.mem.load_u8(addr);
    adc(emu, v);
    emu.cpu.pc = emu.cpu.pc.wrapping_add(2);
}

pub fn adc_zpg(emu: &mut Emu)
    requires
        old(emu).wf(),
    ensures
        final(emu).wf(),
        final(emu)@ == old(emu)@.run(Instr::Adc, Mode::ZeroPage),
        final(emu).stat == old(emu).stat,
{
    proof {
        lemma_run_read(emu@, Instr::Adc, Mode::ZeroPage);
    }
    let addr = addressing::zeropage(emu);
    let v = emu.mem.load_u8(addr);
    adc(emu, v);
    emu.cpu.pc = emu.cpu.pc.wrapping_add(2);
}

pub fn ror_zpg(emu: &mut Emu)
    requires
        old(emu).wf(),
    ensures
        final(emu).wf(),
        final(emu)@ == old(emu)@.run(Instr::Ror, Mode::ZeroPage),
        final(emu).stat == old(emu).stat,
{
    proof {
        lemma_run_rmw(emu@, Instr::Ror, Mode::ZeroPage);
    }
    let addr = addressing::zeropage(emu);
    ror(emu, addr);
    emu.cpu.pc = emu.cpu.pc.wrapping_add(2);
}

pub fn adc_imm(emu: &mut Emu)
    requires
        old(emu).wf(),
    ensures
        final(emu).wf(),
        final(emu)@ == old(emu)@.run(Instr::Adc, Mode::Immediate),
        final(emu).stat == old(emu).stat,
{
    proof {
        lemma_run_read(emu@, Instr::Adc, Mode::Immediate);
    }
    let addr = addressing::immediate(emu);
    let v = emu.mem.load_u8(addr);
    adc(emu, v);
    emu.cpu.pc = emu.cpu.pc.wrapping_add(2);
}

pub fn adc_abs(emu: &mut Emu)
    requires
        old(emu).wf(),
    ensures
        final(emu).wf(),
        final(emu)@ == old(emu)@.run(Instr::Adc, Mode::Absolute),
        final(emu).stat == old(emu).stat,
{
    proof {
        lemma_run_read(emu@, Instr::Adc, Mode::Absolute);
    }
    let addr = addressing::absolute(emu);
    let v = emu.mem.load_u8(addr);
    adc(emu, v);
    emu.cpu.pc = emu.cpu.pc.wrapping_add(3);
}

pub fn ror_abs(emu: &mut Emu)
    requires
        old(emu).wf(),
    ensures
        final(emu).wf(),
        final(emu)@ == old(emu)@.run(Instr::Ror, Mode::Absolute),
        final(emu).stat == old(emu).stat,
{
    proof {
        lemma_run_rmw(emu@, Instr::Ror, Mode::Absolute);
    }
    let addr = addressing::absolute(emu);
    ror(emu, addr);
    emu.cpu.pc = emu.cpu.pc.wrapping_add(3);
}

pub fn bvs_rel(emu: &mut Emu) -> (extra: u8)
    requires
        old(emu).wf(),
    ensures
        final(emu).wf(),
        final(emu)@ == old(emu)@.run(Instr::Bvs, Mode::Relative),
        extra == old(emu)@.penalty(Instr::Bvs, Mode::Relative),
        final(emu).stat == old(emu).stat,
{
    proof {
        lemma_run_branch(emu@, Instr::Bvs, Mode::Relative);
    }
    let cond = emu.cpu.sp.contains(FLAG_V);
    branch(emu, cond)
}

pub fn adc_iny(emu: &mut Emu) -> (extra: u8)
    requires
        old(emu).wf(),
    ensures
        final(emu).wf(),
        final(emu)@ == old(emu)@.run(Instr::Adc, Mode::IndirectY),
        extra == old(emu)@.penalty(Instr::Adc, Mode::IndirectY),
        final(emu).stat == old(emu).stat,
{
    proof {
        lemma_run_read(emu@, Instr::Adc, Mode::IndirectY);
    }
    let (addr, crossed) = addressing::indirect_y(emu);
    let v = emu.mem.load_u8(addr);
    adc(emu, v);
    emu.cpu.pc = emu.cpu.pc.wrapping_add(2);
    if crossed {
        1
    } else {
        0
    }
}

pub fn adc_zpx(emu: &mut Emu)
    requires
        old(emu).wf(),
    ensures
        final(emu).wf(),
        final(emu)@ == old(emu)@.run(Instr::Adc, Mode::ZeroPageX),
        final(emu).stat == old(emu).stat,
{
    proof {
        lemma_run_read(emu@, Instr::Adc, Mode::ZeroPageX);
    }
    let addr = addressing::zeropage_x(emu);
    let v = emu.mem.load_u8(addr);
    adc(emu, v);
    emu.cpu.pc = emu.cpu.pc.wrapping_add(2);
}

pub fn ror_zpx(emu: &mut Emu)
    requires
        old(emu).wf(),
    ensures
        final(emu).wf(),
        final(emu)@ == old(emu)@.run(Instr::Ror, Mode::ZeroPageX),
        final(emu).stat == old(emu).stat,
{
    proof {
        lemma_run_rmw(emu@, Instr::Ror, Mode::ZeroPageX);
    }
    let addr = addressing::zeropage_x(emu);
    ror(emu, addr);
    emu.cpu.pc = emu.cpu.pc.wrapping_add(2);
}

pub fn sei_i(emu: &mut Emu)
    requires
        old(emu).wf(),
    ensures
        final(emu).wf(),
        final(emu)@ == old(emu)@.run(Instr::Sei, Mode::Implied),
        final(emu).stat == old(emu).stat,
{
    proof {
        lemma_run_implied(emu@, Instr::Sei, Mode::Implied);
    }
    emu.cpu.interrupt_flag(true);
    emu.cpu.pc = emu.cpu.pc.wrapping_add(1);
}

pub fn adc_aby(emu: &mut Emu) -> (extra: u8)
    requires
        old(emu).wf(),
    ensures
        final(emu).wf(),
        final(emu)@ == old(emu)@.run(Instr::Adc, Mode::AbsoluteY),
        extra == old(emu)@.penalty(Instr::Adc, Mode::AbsoluteY),
        final(emu).stat == old(emu).stat,
{
    proof {
        lemma_run_read(emu@, Instr::Adc, Mode::AbsoluteY);
    }
    let (addr, crossed) = addressing::absolute_y(emu);
    let v = emu.mem.load_u8(addr);
    adc(emu, v);
    emu.cpu.pc = emu.cpu.pc.wrapping_add(3);
    if crossed {
        1
    } else {
        0
    }
}

pub fn adc_abx(emu: &mut Emu) -> (extra: u8)
    requires
        old(emu).wf(),
    ensures
        final(emu).wf(),
        final(emu)@ == old(emu)@.run(Instr::Adc, Mode::AbsoluteX),
        extra == old(emu)@.penalty(Instr::Adc, Mode::AbsoluteX),
        final(emu).stat == old(emu).stat,
{
    proof {
        lemma_run_read(emu@, Instr::Adc, Mode::AbsoluteX);
    }
    let (addr, crossed) = addressing::absolute_x(emu);
    let v = emu.mem.load_u8(addr);
    adc(emu, v);
    emu.cpu.pc = emu.cpu.pc.wrapping_add(3);
    if crossed {
        1
    } else {
        0
    }
}

pub fn ror_abx(emu: &mut Emu)
    requires
        old(emu).wf(),
    ensures
        final(emu).wf(),
        final(emu)@ == old(emu)@.run(Instr::Ror, Mode::AbsoluteX),
        final(emu).stat == old(emu).stat,
{
    proof {
        lemma_run_rmw(emu@, Instr::Ror, Mode::AbsoluteX);
    }
    let (addr, crossed) = addressing::absolute_x(emu);
    ror(emu, addr);
    emu.cpu.pc = emu.cpu.pc.wrapping_add(3);
}

pub fn sta_inx(emu: &mut Emu)
    requires
        old(emu).wf(),
    ensures
        final(emu).wf(),
        final(emu)@ == old(emu)@.run(Instr::Sta, Mode::IndirectX),
        final(emu).stat == old(emu).stat,
{
    proof {
        lemma_run_store(emu@, Instr::Sta, Mode::IndirectX);
    }
    let addr = addressing::indirect_x(emu);
    sta(emu, addr);
    emu.cpu.pc = emu.cpu.pc.wrapping_add(2);
}

pub fn sty_zpg(emu: &mut Emu)
    requires
        old(emu).wf(),
    ensures
        final(emu).wf(),
        final(emu)@ == old(emu)@.run(Instr::Sty, Mode::ZeroPage),
        final(emu).stat == old(emu).stat,
{
    proof {
        lemma_run_store(emu@, Instr::Sty, Mode::ZeroPage);
    }
    let addr = addressing::zeropage(emu);
    sty(emu, addr);
    emu.cpu.pc = emu.cpu.pc.wrapping_add(2);
}

pub fn sta_zpg(emu: &mut Emu)
    requires
        old(emu).wf(),
    ensures
        final(emu).wf(),
        final(emu)@ == old(emu)@.run(Instr::Sta, Mode::ZeroPage),
        final(emu).stat == old(emu).stat,
{
    proof {
        lemma_run_store(emu@, Instr::Sta, Mode::ZeroPage);
    }
    let addr = addressing::zeropage(emu);
    sta(emu, addr);
    emu.cpu.pc = emu.cpu.pc.wrapping_add(2);
}

pub fn stx_zpg(emu: &mut Emu)
    requires
        old(emu).wf(),
    ensures
        final(emu).wf(),
        final(emu)@ == old(emu)@.run(Instr::Stx, Mode::ZeroPage),
        final(emu).stat == old(emu).stat,
{
    proof {
        lemma_run_store(emu@, Instr::Stx, Mode::ZeroPage);
    }
    let addr = addressing::zeropage(emu);
    stx(emu, addr);
    emu.cpu.pc = emu.cpu.pc.wrapping_add(2);
}

pub fn dey_i(emu: &mut Emu)
    requires
        old(emu).wf(),
    ensures
        final(emu).wf(),
        final(emu)@ == old(emu)@.run(Instr::Dey, Mode::Implied),
        final(emu).stat == old(emu).stat,
{
    proof {
        lemma_run_implied(emu@, Instr::Dey, Mode::Implied);
    }
    emu.cpu.y = emu.cpu.y.wrapping_sub(1);
    emu.cpu.nz_flags(emu.cpu.y);
    emu.cpu.pc = emu.cpu.pc.wrapping_add(1);
}

pub fn txa_i(emu: &mut Emu)
    requires
        old(emu).wf(),
    ensures
        final(emu).wf(),
        final(emu)@ == old(emu)@.run(Instr::Txa, Mode::Implied),
        final(emu).stat == old(emu).stat,
{
    proof {
        lemma_run_implied(emu@, Instr::Txa, Mode::Implied);
    }
    emu.cpu.a = emu.cpu.x;
    emu.cpu.nz_flags(emu.cpu.x);
    emu.cpu.pc = emu.cpu.pc.wrapping_add(1);
}

pub fn sty_abs(emu: &mut Emu)
    requires
        old(emu).wf(),
    ensures
        final(emu).wf(),
        final(emu)@ == old(emu)@.run(Instr::Sty, Mode::Absolute),
        final(emu).stat == old(emu).stat,
{
    proof {
        lemma_run_store(emu@, Instr::Sty, Mode::Absolute);
    }
    let addr = addressing::absolute(emu);
    sty(emu, addr);
    emu.cpu.pc = emu.cpu.pc.wrapping_add(3);
}

pub fn sta_abs(emu: &mut Emu)
    requires
        old(emu).wf(),
    ensures
        final(emu).wf(),
        final(emu)@ == old(emu)@.run(Instr::Sta, Mode::Absolute),
        final(emu).stat == old(emu).stat,
{
    proof {
        lemma_run_store(emu@, Instr::Sta, Mode::Absolute);
    }
    let addr = addressing::absolute(emu);
    sta(emu, addr);
    emu.cpu.pc = emu.cpu.pc.wrapping_add(3);
}

pub fn stx_abs(emu: &mut Emu)
    requires
        old(emu).wf(),
    ensures
        final(emu).wf(),
        final(emu)@ == old(emu)@.run(Instr::Stx, Mode::Absolute),
        final(emu).stat == old(emu).stat,
{
    proof {
        lemma_run_store(emu@, Instr::Stx, Mode::Absolute);
    }
    let addr = addressing::absolute(emu);
    stx(emu, addr);
    emu.cpu.pc = emu.cpu.pc.wrapping_add(3);
}

pub fn bcc_rel(emu: &mut Emu) -> (extra: u8)
    requires
        old(emu).wf(),
    ensures
        final(emu).wf(),
        final(emu)@ == old(emu)@.run(Instr::Bcc, Mode::Relative),
        extra == old(emu)@.penalty(Instr::Bcc, Mode::Relative),
        final(emu).stat == old(emu).stat,
{
    proof {
        lemma_run_branch(emu@, Instr::Bcc, Mode::Relative);
    }
    let cond = !emu.cpu.sp.contains(FLAG_C);
    branch(emu, cond)
}

pub fn sta_iny(emu: &mut Emu)
    requires
        old(emu).wf(),
    ensures
        final(emu).wf(),
        final(emu)@ == old(emu)@.run(Instr::Sta, Mode::IndirectY),
        final(emu).stat == old(emu).stat,
{
    proof {
        lemma_run_store(emu@, Instr::Sta, Mode::IndirectY);
    }
    let (addr, crossed) = addressing::indirect_y(emu);
    sta(emu, addr);
    emu.cpu.pc = emu.cpu.pc.wrapping_add(2);
}

pub fn sty_zpx(emu: &mut Emu)
    requires
        old(emu).wf(),
    ensures
        final(emu).wf(),
        final(emu)@ == old(emu)@.run(Instr::Sty, Mode::ZeroPageX),
        final(emu).stat == old(emu).stat,
{
    proof {
        lemma_run_store(emu@, Instr::Sty, Mode::ZeroPageX);
    }
    let addr = addressing::zeropage_x(emu);
    sty(emu, addr);
    emu.cpu.pc = emu.cpu.pc.wrapping_add(2);
}

pub fn sta_zpx(emu: &mut Emu)
    requires
        old(emu).wf(),
    ensures
        final(emu).wf(),
        final(emu)@ == old(emu)@.run(Instr::Sta, Mode::ZeroPageX),
        final(emu).stat == old(emu).stat,
{
    proof {
        lemma_run_store(emu@, Instr::Sta, Mode::ZeroPageX);
    }
    let addr = addressing::zeropage_x(emu);
    sta(emu, addr);
    emu.cpu.pc = emu.cpu.pc.wrapping_add(2);
}

pub fn stx_zpy(emu: &mut Emu)
    requires
        old(emu).wf(),
    ensures
        final(emu).wf(),
        final(emu)@ == old(emu)@.run(Instr::Stx, Mode::ZeroPageY),
        final(emu).stat == old(emu).stat,
{
    proof {
        lemma_run_store(emu@, Instr::Stx, Mode::ZeroPageY);
    }
    let addr = addressing::zeropage_y(emu);
    stx(emu, addr);
    emu.cpu.pc = emu.cpu.pc.wrapping_add(2);
}

pub fn tya_i(emu: &mut Emu)
    requires
        old(emu).wf(),
    ensures
        final(emu).wf(),
        final(emu)@ == old(emu)@.run(Instr::Tya, Mode::Implied),
        final(emu).stat == old(emu).stat,
{
    proof {
        lemma_run_implied(emu@, Instr::Tya, Mode::Implied);
    }
    emu.cpu.a = emu.cpu.y;
    emu.cpu.nz_flags(emu.cpu.y);
    emu.cpu.pc = emu.cpu.pc.wrapping_add(1);
}

pub fn sta_aby(emu: &mut Emu)
    requires
        old(emu).wf(),
    ensures
        final(emu).wf(),
        final(emu)@ == old(emu)@.run(Instr::Sta, Mode::AbsoluteY),
        final(emu).stat == old(emu).stat,
{
    proof {
        lemma_run_store(emu@, Instr::Sta, Mode::AbsoluteY);
    }
    let (addr, crossed) = addressing::absolute_y(emu);
    sta(emu, addr);
    emu.cpu.pc = emu.cpu.pc.wrapping_add(3);
}

pub fn txs_i(emu: &mut Emu)
    requires
        old(emu).wf(),
    ensures
        final(emu).wf(),
        final(emu)@ == old(emu)@.run(Instr::Txs, Mode::Implied),
        final(emu).stat == old(emu).stat,
{
    proof {
        lemma_run_implied(emu@, Instr::Txs, Mode::Implied);
    }
    emu.cpu.s = emu.cpu.x;
    emu.cpu.pc = emu.cpu.pc.wrapping_add(1);
}

pub fn sta_abx(emu: &mut Emu)
    requires
        old(emu).wf(),
    ensures
        final(emu).wf(),
        final(emu)@ == old(emu)@.run(Instr::Sta, Mode::AbsoluteX),
        final(emu).stat == old(emu).stat,
{
    proof {
        lemma_run_store(emu@, Instr::Sta, Mode::AbsoluteX);
    }
    let (addr, crossed) = addressing::absolute_x(emu);
    sta(emu, addr);
    emu.cpu.pc = emu.cpu.pc.wrapping_add(3);
}

pub fn ldy_imm(emu: &mut Emu)
    requires
        old(emu).wf(),
    ensures
        final(emu).wf(),
        final(emu)@ == old(emu)@.run(Instr::Ldy, Mode::Immediate),
        final(emu).stat == old(emu).stat,
{
    proof {
        lemma_run_read(emu@, Instr::Ldy, Mode::Immediate);
    }
    let addr = addressing::immediate(emu);
    let v = emu.mem.load_u8(addr);
    ldy(emu, v);
    emu.cpu.pc = emu.cpu.pc.wrapping_add(2);
}

pub fn lda_inx(emu: &mut Emu)
    requires
        old(emu).wf(),
    ensures
        final(emu).wf(),
        final(emu)@ == old(emu)@.run(Instr::Lda, Mode::IndirectX),
        final(emu).stat == old(emu).stat,
{
    proof {
        lemma_run_read(emu@, Instr::Lda, Mode::IndirectX);
    }
    let addr = addressing::indirect_x(emu);
    let v = emu.mem.load_u8(addr);
    lda(emu, v);
    emu.cpu.pc = emu.cpu.pc.wrapping_add(2);
}

pub fn ldx_imm(emu: &mut Emu)
    requires
        old(emu).wf(),
    ensures
        final(emu).wf(),
        final(emu)@ == old(emu)@.run(Instr::Ldx, Mode::Immediate),
        final(emu).stat == old(emu).stat,
{
    proof {
        lemma_run_read(emu@, Instr::Ldx, Mode::Immediate);
    }
    let addr = addressing::immediate(emu);
    let v = emu.mem.load_u8(addr);
    ldx(emu, v);
    emu.cpu.pc = emu.cpu.pc.wrapping_add(2);
}

pub fn ldy_zpg(emu: &mut Emu)
    requires
        old(emu).wf(),
    ensures
        final(emu).wf(),
        final(emu)@ == old(emu)@.run(Instr::Ldy, Mode::ZeroPage),
        final(emu).stat == old(emu).stat,
{
    proof {
        lemma_run_read(emu@, Instr::Ldy, Mode::ZeroPage);
    }
    let addr = addressing::zeropage(emu);
    let v = emu.mem.load_u8(addr);
    ldy(emu, v);
    emu.cpu.pc = emu.cpu.pc.wrapping_add(2);
}

pub fn lda_zpg(emu: &mut Emu)
    requires
        old(emu).wf(),
    ensures
        final(emu).wf(),
        final(emu)@ == old(emu)@.run(Instr::Lda, Mode::ZeroPage),
        final(emu).stat == old(emu).stat,
{
    proof {
        lemma_run_read(emu@, Instr::Lda, Mode::ZeroPage);
    }
    let addr = addressing::zeropage(emu);
    let v = emu.mem.load_u8(addr);
    lda(emu, v);
    emu.cpu.pc = emu.cpu.pc.wrapping_add(2);
}

pub fn ldx_zpg(emu: &mut Emu)
    requires
        old(emu).wf(),
    ensures
        final(emu).wf(),
        final(emu)@ == old(emu)@.run(Instr::Ldx, Mode::ZeroPage),
        final(emu).stat == old(emu).stat,
{
    proof {
        lemma_run_read(emu@, Instr::Ldx, Mode::ZeroPage);
    }
    let addr = addressing::zeropage(emu);
    let v = emu.mem.load_u8(addr);
    ldx(emu, v);
    emu.cpu.pc = emu.cpu.pc.wrapping_add(2);
}

pub fn tay_i(emu: &mut Emu)
    requires
        old(emu).wf(),
    ensures
        final(emu).wf(),
        final(emu)@ == old(emu)@.run(Instr::Tay, Mode::Implied),
        final(emu).stat == old(emu).stat,
{
    proof {
        lemma_run_implied(emu@, Instr::Tay, Mode::Implied);
    }
    emu.cpu.y = emu.cpu.a;
    emu.cpu.nz_flags(emu.cpu.a);
    emu.cpu.pc = emu.cpu.pc.wrapping_add(1);
}

pub fn lda_imm(emu: &mut Emu)
    requires
        old(emu).wf(),
    ensures
        final(emu).wf(),
        final(emu)@ == old(emu)@.run(Instr::Lda, Mode::Immediate),
        final(emu).stat == old(emu).stat,
{
    proof {
        lemma_run_read(emu@, Instr::Lda, Mode::Immediate);
    }
    let addr = addressing::immediate(emu);
    let v = emu.mem.load_u8(addr);
    lda(emu, v);
    emu.cpu.pc = emu.cpu.pc.wrapping_add(2);
}

pub fn tax_i(emu: &mut Emu)
    requires
        old(emu).wf(),
    ensures
        final(emu).wf(),
        final(emu)@ == old(emu)@.run(Instr::Tax, Mode::Implied),
        final(emu).stat == old(emu).stat,
{
    proof {
        lemma_run_implied(emu@, Instr::Tax, Mode::Implied);
    }
    emu.cpu.x = emu.cpu.a;
    emu.cpu.nz_flags(emu.cpu.a);
    emu.cpu.pc = emu.cpu.pc.wrapping_add(1);
}

pub fn ldy_abs(emu: &mut Emu)
    requires
        old(emu).wf(),
    ensures
        final(emu).wf(),
        final(emu)@ == old(emu)@.run(Instr::Ldy, Mode::Absolute),
        final(emu).stat == old(emu).stat,
{
    proof {
        lemma_run_read(emu@, Instr::Ldy, Mode::Absolute);
    }
    let addr = addressing::absolute(emu);
    let v = emu.mem.load_u8(addr);
    ldy(emu, v);
    emu.cpu.pc = emu.cpu.pc.wrapping_add(3);
}

pub fn lda_abs(emu: &mut Emu)
    requires
        old(emu).wf(),
    ensures
        final(emu).wf(),
        final(emu)@ == old(emu)@.run(Instr::Lda, Mode::Absolute),
        final(emu).stat == old(emu).stat,
{
    proof {
        lemma_run_read(emu@, Instr::Lda, Mode::Absolute);
    }
    let addr = addressing::absolute(emu);
    let v = emu.mem.load_u8(addr);
    lda(emu, v);
    emu.cpu.pc = emu.cpu.pc.wrapping_add(3);
}

pub fn ldx_abs(emu: &mut Emu)
    requires
        old(emu).wf(),
    ensures
        final(emu).wf(),
        final(emu)@ == old(emu)@.run(Instr::Ldx, Mode::Absolute),
        final(emu).stat == old(emu).stat,
{
    proof {
        lemma_run_read(emu@, Instr::Ldx, Mode::Absolute);
    }
    let addr = addressing::absolute(emu);
    let v = emu.mem.load_u8(addr);
    ldx(emu, v);
    emu.cpu.pc = emu.cpu.pc.wrapping_add(3);
}

pub fn bcs_rel(emu: &mut Emu) -> (extra: u8)
    requires
        old(emu).wf(),
    ensures
        final(emu).wf(),
        final(emu)@ == old(emu)@.run(Instr::Bcs, Mode::Relative),
        extra == old(emu)@.penalty(Instr::Bcs, Mode::Relative),
        final(emu).stat == old(emu).stat,
{
    proof {
        lemma_run_branch(emu@, Instr::Bcs, Mode::Relative);
    }
    let cond = emu.cpu.sp.contains(FLAG_C);
    branch(emu, cond)
}

pub fn lda_iny(emu: &mut Emu) -> (extra: u8)
    requires
        old(emu).wf(),
    ensures
        final(emu).wf(),
        final(emu)@ == old(emu)@.run(Instr::Lda, Mode::IndirectY),
        extra == old(emu)@.penalty(Instr::Lda, Mode::IndirectY),
        final(emu).stat == old(emu).stat,
{
    proof {
        lemma_run_read(emu@, Instr::Lda, Mode::IndirectY);
    }
    let (addr, crossed) = addressing::indirect_y(emu);
    let v = emu.mem.load_u8(addr);
    lda(emu, v);
    emu.cpu.pc = emu.cpu.pc.wrapping_add(2);
    if crossed {
        1
    } else {
        0
    }
}

pub fn ldy_zpx(emu: &mut Emu)
    requires
        old(emu).wf(),
    ensures
        final(emu).wf(),
        final(emu)@ == old(emu)@.run(Instr::Ldy, Mode::ZeroPageX),
        final(emu).stat == old(emu).stat,
{
    proof {
        lemma_run_read(emu@, Instr::Ldy, Mode::ZeroPageX);
    }
    let addr = addressing::zeropage_x(emu);
    let v = emu.mem.load_u8(addr);
    ldy(emu, v);
    emu.cpu.pc = emu.cpu.pc.wrapping_add(2);
}

pub fn lda_zpx(emu: &mut Emu)
    requires
        old(emu).wf(),
    ensures
        final(emu).wf(),
        final(emu)@ == old(emu)@.run(Instr::Lda, Mode::ZeroPageX),
        final(emu).stat == old(emu).stat,
{
    proof {
        lemma_run_read(emu@, Instr::Lda, Mode::ZeroPageX);
    }
    let addr = addressing::zeropage_x(emu);
    let v = emu.mem.load_u8(addr);
    lda(emu, v);
    emu.cpu.pc = emu.cpu.pc.wrapping_add(2);
}

pub fn ldx_zpy(emu: &mut Emu)
    requires
        old(emu).wf(),
    ensures
        final(emu).wf(),
        final(emu)@ == old(emu)@.run(Instr::Ldx, Mode::ZeroPageY),
        final(emu).stat == old(emu).stat,
{
    proof {
        lemma_run_read(emu@, Instr::Ldx, Mode::ZeroPageY);
    }
    let addr = addressing::zeropage_y(emu);
    let v = emu.mem.load_u8(addr);
    ldx(emu, v);
    emu.cpu.pc = emu.cpu.pc.wrapping_add(2);
}

pub fn clv_i(emu: &mut Emu)
    requires
        old(emu).wf(),
    ensures
        final(emu).wf(),
        final(emu)@ == old(emu)@.run(Instr::Clv, Mode::Implied),
        final(emu).stat == old(emu).stat,
{
    proof {
        lemma_run_implied(emu@, Instr::Clv, Mode::Implied);
    }
    emu.cpu.overflow_flag(false);
    emu.cpu.pc = emu.cpu.pc.wrapping_add(1);
}

pub fn lda_aby(emu: &mut Emu) -> (extra: u8)
    requires
        old(emu).wf(),
    ensures
        final(emu).wf(),
        final(emu)@ == old(emu)@.run(Instr::Lda, Mode::AbsoluteY),
        extra == old(emu)@.penalty(Instr::Lda, Mode::AbsoluteY),
        final(emu).stat == old(emu).stat,
{
    proof {
        lemma_run_read(emu@, Instr::Lda, Mode::AbsoluteY);
    }
    let (addr, crossed) = addressing::absolute_y(emu);
    let v = emu.mem.load_u8(addr);
    lda(emu, v);
    emu.cpu.pc = emu.cpu.pc.wrapping_add(3);
    if crossed {
        1
    } else {
        0
    }
}

pub fn tsx_i(emu: &mut Emu)
    requires
        old(emu).wf(),
    ensures
        final(emu).wf(),
        final(emu)@ == old(emu)@.run(Instr::Tsx, Mode::Implied),
        final(emu).stat == old(emu).stat,
{
    proof {
        lemma_run_implied(emu@, Instr::Tsx, Mode::Implied);
    }
    emu.cpu.x = emu.cpu.s;
    emu.cpu.nz_flags(emu.cpu.s);
    emu.cpu.pc = emu.cpu.pc.wrapping_add(1);
}

pub fn ldy_abx(emu: &mut Emu) -> (extra: u8)
    requires
        old(emu).wf(),
    ensures
        final(emu).wf(),
        final(emu)@ == old(emu)@.run(Instr::Ldy, Mode::AbsoluteX),
        extra == old(emu)@.penalty(Instr::Ldy, Mode::AbsoluteX),
        final(emu).stat == old(emu).stat,
{
    proof {
        lemma_run_read(emu@, Instr::Ldy, Mode::AbsoluteX);
    }
    let (addr, crossed) = addressing::absolute_x(emu);
    let v = emu.mem.load_u8(addr);
    ldy(emu, v);
    emu.cpu.pc = emu.cpu.pc.wrapping_add(3);
    if crossed {
        1
    } else {
        0
    }
}

pub fn lda_abx(emu: &mut Emu) -> (extra: u8)
    requires
        old(emu).wf(),
    ensures
        final(emu).wf(),
        final(emu)@ == old(emu)@.run(Instr::Lda, Mode::AbsoluteX),
        extra == old(emu)@.penalty(Instr::Lda, Mode::AbsoluteX),
        final(emu).stat == old(emu).stat,
{
    proof {
        lemma_run_read(emu@, Instr::Lda, Mode::AbsoluteX);
    }
    let (addr, crossed) = addressing::absolute_x(emu);
    let v = emu.mem.load_u8(addr);
    lda(emu, v);
    emu.cpu.pc = emu.cpu.pc.wrapping_add(3);
    if crossed {
        1
    } else {
        0
    }
}

pub fn ldx_aby(emu: &mut Emu) -> (extra: u8)
    requires
        old(emu).wf(),
    ensures
        final(emu).wf(),
        final(emu)@ == old(emu)@.run(Instr::Ldx, Mode::AbsoluteY),
        extra == old(emu)@.penalty(Instr::Ldx, Mode::AbsoluteY),
        final(emu).stat == old(emu).stat,
{
    proof {
        lemma_run_read(emu@, Instr::Ldx, Mode::AbsoluteY);
    }
    let (addr, crossed) = addressing::absolute_y(emu);
    let v = emu.mem.load_u8(addr);
    ldx(emu, v);
    emu.cpu.pc = emu.cpu.pc.wrapping_add(3);
    if crossed {
        1
    } else {
        0
    }
}

pub fn cpy_imm(emu: &mut Emu)
    requires
        old(emu).wf(),
    ensures
        final(emu).wf(),
        final(emu)@ == old(emu)@.run(Instr::Cpy, Mode::Immediate),
        final(emu).stat == old(emu).stat,
{
    proof {
        lemma_run_read(emu@, Instr::Cpy, Mode::Immediate);
    }
    let addr = addressing::immediate(emu);
    let v = emu.mem.load_u8(addr);
    cpy(emu, v);
    emu.cpu.pc = emu.cpu.pc.wrapping_add(2);
}

pub fn cmp_inx(emu: &mut Emu)
    requires
        old(emu).wf(),
    ensures
        final(emu).wf(),
        final(emu)@ == old(emu)@.run(Instr::Cmp, Mode::IndirectX),
        final(emu).stat == old(emu).stat,
{
    proof {
        lemma_run_read(emu@, Instr::Cmp, Mode::IndirectX);
    }
    let addr = addressing::indirect_x(emu);
    let v = emu.mem.load_u8(addr);
    cmp(emu, v);
    emu.cpu.pc = emu.cpu.pc.wrapping_add(2);
}

pub fn cpy_zpg(emu: &mut Emu)
    requires
        old(emu).wf(),
    ensures
        final(emu).wf(),
        final(emu)@ == old(emu)@.run(Instr::Cpy, Mode::ZeroPage),
        final(emu).stat == old(emu).stat,
{
    proof {
        lemma_run_read(emu@, Instr::Cpy, Mode::ZeroPage);
    }
    let addr = addressing::zeropage(emu);
    let v = emu.mem.load_u8(addr);
    cpy(emu, v);
    emu.cpu.pc = emu.cpu.pc.wrapping_add(2);
}

pub fn cmp_zpg(emu: &mut Emu)
    requires
        old(emu).wf(),
    ensures
        final(emu).wf(),
        final(emu)@ == old(emu)@.run(Instr::Cmp, Mode::ZeroPage),
        final(emu).stat == old(emu).stat,
{
    proof {
        lemma_run_read(emu@, Instr::Cmp, Mode::ZeroPage);
    }
    let addr = addressing::zeropage(emu);
    let v = emu.mem.load_u8(addr);
    cmp(emu, v);
    emu.cpu.pc = emu.cpu.pc.wrapping_add(2);
}

pub fn dec_zpg(emu: &mut Emu)
    requires
        old(emu).wf(),
    ensures
        final(emu).wf(),
        final(emu)@ == old(emu)@.run(Instr::Dec, Mode::ZeroPage),
        final(emu).stat == old(emu).stat,
{
    proof {
        lemma_run_rmw(emu@, Instr::Dec, Mode::ZeroPage);
    }
    let addr = addressing::zeropage(emu);
    dec(emu, addr);
    emu.cpu.pc = emu.cpu.pc.wrapping_add(2);
}

pub fn iny_i(emu: &mut Emu)
    requires
        old(emu).wf(),
    ensures
        final(emu).wf(),
        final(emu)@ == old(emu)@.run(Instr::Iny, Mode::Implied),
        final(emu).stat == old(emu).stat,
{
    proof {
        lemma_run_implied(emu@, Instr::Iny, Mode::Implied);
    }
    emu.cpu.y = emu.cpu.y.wrapping_add(1);
    emu.cpu.nz_flags(emu.cpu.y);
    emu.cpu.pc = emu.cpu.pc.wrapping_add(1);
}

pub fn cmp_imm(emu: &mut Emu)
    requires
        old(emu).wf(),
    ensures
        final(emu).wf(),
        final(emu)@ == old(emu)@.run(Instr::Cmp, Mode::Immediate),
        final(emu).stat == old(emu).stat,
{
    proof {
        lemma_run_read(emu@, Instr::Cmp, Mode::Immediate);
    }
    let addr = addressing::immediate(emu);
    let v = emu.mem.load_u8(addr);
    cmp(emu, v);
    emu.cpu.pc = emu.cpu.pc.wrapping_add(2);
}

pub fn dex_i(emu: &mut Emu)
    requires
        old(emu).wf(),
    ensures
        final(emu).wf(),
        final(emu)@ == old(emu)@.run(Instr::Dex, Mode::Implied),
        final(emu).stat == old(emu).stat,
{
    proof {
        lemma_run_implied(emu@, Instr::Dex, Mode::Implied);
    }
    emu.cpu.x = emu.cpu.x.wrapping_sub(1);
    emu.cpu.nz_flags(emu.cpu.x);
    emu.cpu.pc = emu.cpu.pc.wrapping_add(1);
}

pub fn cpy_abs(emu: &mut Emu)
    requires
        old(emu).wf(),
    ensures
        final(emu).wf(),
        final(emu)@ == old(emu)@.run(Instr::Cpy, Mode::Absolute),
        final(emu).stat == old(emu).stat,
{
    proof {
        lemma_run_read(emu@, Instr::Cpy, Mode::Absolute);
    }
    let addr = addressing::absolute(emu);
    let v = emu.mem.load_u8(addr);
    cpy(emu, v);
    emu.cpu.pc = emu.cpu.pc.wrapping_add(3);
}

pub fn cmp_abs(emu: &mut Emu)
    requires
        old(emu).wf(),
    ensures
        final(emu).wf(),
        final(emu)@ == old(emu)@.run(Instr::Cmp, Mode::Absolute),
        final(emu).stat == old(emu).stat,
{
    proof {
        lemma_run_read(emu@, Instr::Cmp, Mode::Absolute);
    }
    let addr = addressing::absolute(emu);
    let v = emu.mem.load_u8(addr);
    cmp(emu, v);
    emu.cpu.pc = emu.cpu.pc.wrapping_add(3);
}

pub fn dec_abs(emu: &mut Emu)
    requires
        old(emu).wf(),
    ensures
        final(emu).wf(),
        final(emu)@ == old(emu)@.run(Instr::Dec, Mode::Absolute),
        final(emu).stat == old(emu).stat,
{
    proof {
        lemma_run_rmw(emu@, Instr::Dec, Mode::Absolute);
    }
    let addr = addressing::absolute(emu);
    dec(emu, addr);
    emu.cpu.pc = emu.cpu.pc.wrapping_add(3);
}

pub fn bne_rel(emu: &mut Emu) -> (extra: u8)
    requires
        old(emu).wf(),
    ensures
        final(emu).wf(),
        final(emu)@ == old(emu)@.run(Instr::Bne, Mode::Relative),
        extra == old(emu)@.penalty(Instr::Bne, Mode::Relative),
        final(emu).stat == old(emu).stat,
{
    proof {
        lemma_run_branch(emu@, Instr::Bne, Mode::Relative);
    }
    let cond = !emu.cpu.sp.contains(FLAG_Z);
    branch(emu, cond)
}

pub fn cmp_iny(emu: &mut Emu) -> (extra: u8)
    requires
        old(emu).wf(),
    ensures
        final(emu).wf(),
        final(emu)@ == old(emu)@.run(Instr::Cmp, Mode::IndirectY),
        extra == old(emu)@.penalty(Instr::Cmp, Mode::IndirectY),
        final(emu).stat == old(emu).stat,
{
    proof {
        lemma_run_read(emu@, Instr::Cmp, Mode::IndirectY);
    }
    let (addr, crossed) = addressing::indirect_y(emu);
    let v = emu.mem.load_u8(addr);
    cmp(emu, v);
    emu.cpu.pc = emu.cpu.pc.wrapping_add(2);
    if crossed {
        1
    } else {
        0
    }
}

pub fn cmp_zpx(emu: &mut Emu)
    requires
        old(emu).wf(),
    ensures
        final(emu).wf(),
        final(emu)@ == old(emu)@.run(Instr::Cmp, Mode::ZeroPageX),
        final(emu).stat == old(emu).stat,
{
    proof {
        lemma_run_read(emu@, Instr::Cmp, Mode::ZeroPageX);
    }
    let addr = addressing::zeropage_x(emu);
    let v = emu.mem.load_u8(addr);
    cmp(emu, v);
    emu.cpu.pc = emu.cpu.pc.wrapping_add(2);
}

pub fn dec_zpx(emu: &mut Emu)
    requires
        old(emu).wf(),
    ensures
        final(emu).wf(),
        final(emu)@ == old(emu)@.run(Instr::Dec, Mode::ZeroPageX),
        final(emu).stat == old(emu).stat,
{
    proof {
        lemma_run_rmw(emu@, Instr::Dec, Mode::ZeroPageX);
    }
    let addr = addressing::zeropage_x(emu);
    dec(emu, addr);
    emu.cpu.pc = emu.cpu.pc.wrapping_add(2);
}

pub fn cld_i(emu: &mut Emu)
    requires
        old(emu).wf(),
    ensures
        final(emu).wf(),
        final(emu)@ == old(emu)@.run(Instr::Cld, Mode::Implied),
        final(emu).stat == old(emu).stat,
{
    proof {
        lemma_run_implied(emu@, Instr::Cld, Mode::Implied);
    }
    emu.cpu.decimal_flag(false);
    emu.cpu.pc = emu.cpu.pc.wrapping_add(1);
}

pub fn cmp_aby(emu: &mut Emu) -> (extra: u8)
    requires
        old(emu).wf(),
    ensures
        final(emu).wf(),
        final(emu)@ == old(emu)@.run(Instr::Cmp, Mode::AbsoluteY),
        extra == old(emu)@.penalty(Instr::Cmp, Mode::AbsoluteY),
        final(emu).stat == old(emu).stat,
{
    proof {
        lemma_run_read(emu@, Instr::Cmp, Mode::AbsoluteY);
    }
    let (addr, crossed) = addressing::absolute_y(emu);
    let v = emu.mem.load_u8(addr);
    cmp(emu, v);
    emu.cpu.pc = emu.cpu.pc.wrapping_add(3);
    if crossed {
        1
    } else {
        0
    }
}

pub fn cmp_abx(emu: &mut Emu) -> (extra: u8)
    requires
        old(emu).wf(),
    ensures
        final(emu).wf(),
        final(emu)@ == old(emu)@.run(Instr::Cmp, Mode::AbsoluteX),
        extra == old(emu)@.penalty(Instr::Cmp, Mode::AbsoluteX),
        final(emu).stat == old(emu).stat,
{
    proof {
        lemma_run_read(emu@, Instr::Cmp, Mode::AbsoluteX);
    }
    let (addr, crossed) = addressing::absolute_x(emu);
    let v = emu.mem.load_u8(addr);
    cmp(emu, v);
    emu.cpu.pc = emu.cpu.pc.wrapping_add(3);
    if crossed {
        1
    } else {
        0
    }
}

pub fn dec_abx(emu: &mut Emu)
    requires
        old(emu).wf(),
    ensures
        final(emu).wf(),
        final(emu)@ == old(emu)@.run(Instr::Dec, Mode::AbsoluteX),
        final(emu).stat == old(emu).stat,
{
    proof {
        lemma_run_rmw(emu@, Instr::Dec, Mode::AbsoluteX);
    }
    let (addr, crossed) = addressing::absolute_x(emu);
    dec(emu, addr);
    emu.cpu.pc = emu.cpu.pc.wrapping_add(3);
}

pub fn cpx_imm(emu: &mut Emu)
    requires
        old(emu).wf(),
    ensures
        final(emu).wf(),
        final(emu)@ == old(emu)@.run(Instr::Cpx, Mode::Immediate),
        final(emu).stat == old(emu).stat,
{
    proof {
        lemma_run_read(emu@, Instr::Cpx, Mode::Immediate);
    }
    let addr = addressing::immediate(emu);
    let v = emu.mem.load_u8(addr);
    cpx(emu, v);
    emu.cpu.pc = emu.cpu.pc.wrapping_add(2);
}

pub fn sbc_inx(emu: &mut Emu)
    requires
        old(emu).wf(),
    ensures
        final(emu).wf(),
        final(emu)@ == old(emu)@.run(Instr::Sbc, Mode::IndirectX),
        final(emu).stat == old(emu).stat,
{
    proof {
        lemma_run_read(emu@, Instr::Sbc, Mode::IndirectX);
    }
    let addr = addressing::indirect_x(emu);
    let v = emu.mem.load_u8(addr);
    sbc(emu, v);
    emu.cpu.pc = emu.cpu.pc.wrapping_add(2);
}

pub fn cpx_zpg(emu: &mut Emu)
    requires
        old(emu).wf(),
    ensures
        final(emu).wf(),
        final(emu)@ == old(emu)@.run(Instr::Cpx, Mode::ZeroPage),
        final(emu).stat == old(emu).stat,
{
    proof {
        lemma_run_read(emu@, Instr::Cpx, Mode::ZeroPage);
    }
    let addr = addressing::zeropage(emu);
    let v = emu.mem.load_u8(addr);
    cpx(emu, v);
    emu.cpu.pc = emu.cpu.pc.wrapping_add(2);
}

pub fn sbc_zpg(emu: &mut Emu)
    requires
        old(emu).wf(),
    ensures
        final(emu).wf(),
        final(emu)@ == old(emu)@.run(Instr::Sbc, Mode::ZeroPage),
        final(emu).stat == old(emu).stat,
{
    proof {
        lemma_run_read(emu@, Instr::Sbc, Mode::ZeroPage);
    }
    let addr = addressing::zeropage(emu);
    let v = emu.mem.load_u8(addr);
    sbc(emu, v);
    emu.cpu.pc = emu.cpu.pc.wrapping_add(2);
}

pub fn inc_zpg(emu: &mut Emu)
    requires
        old(emu).wf(),
    ensures
        final(emu).wf(),
        final(emu)@ == old(emu)@.run(Instr::Inc, Mode::ZeroPage),
        final(emu).stat == old(emu).stat,
{
    proof {
        lemma_run_rmw(emu@, Instr::Inc, Mode::ZeroPage);
    }
    let addr = addressing::zeropage(emu);
    inc(emu, addr);
    emu.cpu.pc = emu.cpu.pc.wrapping_add(2);
}

pub fn inx_i(emu: &mut Emu)
    requires
        old(emu).wf(),
    ensures
        final(emu).wf(),
        final(emu)@ == old(emu)@.run(Instr::Inx, Mode::Implied),
        final(emu).stat == old(emu).stat,
{
    proof {
        lemma_run_implied(emu@, Instr::Inx, Mode::Implied);
    }
    emu.cpu.x = emu.cpu.x.wrapping_add(1);
    emu.cpu.nz_flags(emu.cpu.x);
    emu.cpu.pc = emu.cpu.pc.wrapping_add(1);
}

pub fn sbc_imm(emu: &mut Emu)
    requires
        old(emu).wf(),
    ensures
        final(emu).wf(),
        final(emu)@ == old(emu)@.run(Instr::Sbc, Mode::Immediate),
        final(emu).stat == old(emu).stat,
{
    proof {
        lemma_run_read(emu@, Instr::Sbc, Mode::Immediate);
    }
    let addr = addressing::immediate(emu);
    let v = emu.mem.load_u8(addr);
    sbc(emu, v);
    emu.cpu.pc = emu.cpu.pc.wrapping_add(2);
}

pub fn cpx_abs(emu: &mut Emu)
    requires
        old(emu).wf(),
    ensures
        final(emu).wf(),
        final(emu)@ == old(emu)@.run(Instr::Cpx, Mode::Absolute),
        final(emu).stat == old(emu).stat,
{
    proof {
        lemma_run_read(emu@, Instr::Cpx, Mode::Absolute);
    }
    let addr = addressing::absolute(emu);
    let v = emu.mem.load_u8(addr);
    cpx(emu, v);
    emu.cpu.pc = emu.cpu.pc.wrapping_add(3);
}

pub fn sbc_abs(emu: &mut Emu)
    requires
        old(emu).wf(),
    ensures
        final(emu).wf(),
        final(emu)@ == old(emu)@.run(Instr::Sbc, Mode::Absolute),
        final(emu).stat == old(emu).stat,
{
    proof {
        lemma_run_read(emu@, Instr::Sbc, Mode::Absolute);
    }
    let addr = addressing::absolute(emu);
    let v = emu.mem.load_u8(addr);
    sbc(emu, v);
    emu.cpu.pc = emu.cpu.pc.wrapping_add(3);
}

pub fn inc_abs(emu: &mut Emu)
    requires
        old(emu).wf(),
    ensures
        final(emu).wf(),
        final(emu)@ == old(emu)@.run(Instr::Inc, Mode::Absolute),
        final(emu).stat == old(emu).stat,
{
    proof {
        lemma_run_rmw(emu@, Instr::Inc, Mode::Absolute);
    }
    let addr = addressing::absolute(emu);
    inc(emu, addr);
    emu.cpu.pc = emu.cpu.pc.wrapping_add(3);
}

pub fn beq_rel(emu: &mut Emu) -> (extra: u8)
    requires
        old(emu).wf(),
    ensures
        final(emu).wf(),
        final(emu)@ == old(emu)@.run(Instr::Beq, Mode::Relative),
        extra == old(emu)@.penalty(Instr::Beq, Mode::Relative),
        final(emu).stat == old(emu).stat,
{
    proof {
        lemma_run_branch(emu@, Instr::Beq, Mode::Relative);
    }
    let cond = emu.cpu.sp.contains(FLAG_Z);
    branch(emu, cond)
}

pub fn sbc_iny(emu: &mut Emu) -> (extra: u8)
    requires
        old(emu).wf(),
    ensures
        final(emu).wf(),
        final(emu)@ == old(emu)@.run(Instr::Sbc, Mode::IndirectY),
        extra == old(emu)@.penalty(Instr::Sbc, Mode::IndirectY),
        final(emu).stat == old(emu).stat,
{
    proof {
        lemma_run_read(emu@, Instr::Sbc, Mode::IndirectY);
    }
    let (addr, crossed) = addressing::indirect_y(emu);
    let v = emu.mem.load_u8(addr);
    sbc(emu, v);
    emu.cpu.pc = emu.cpu.pc.wrapping_add(2);
    if crossed {
        1
    } else {
        0
    }
}

pub fn sbc_zpx(emu: &mut Emu)
    requires
        old(emu).wf(),
    ensures
        final(emu).wf(),
        final(emu)@ == old(emu)@.run(Instr::Sbc, Mode::ZeroPageX),
        final(emu).stat == old(emu).stat,
{
    proof {
        lemma_run_read(emu@, Instr::Sbc, Mode::ZeroPageX);
    }
    let addr = addressing::zeropage_x(emu);
    let v = emu.mem.load_u8(addr);
    sbc(emu, v);
    emu.cpu.pc = emu.cpu.pc.wrapping_add(2);
}

pub fn inc_zpx(emu: &mut Emu)
    requires
        old(emu).wf(),
    ensures
        final(emu).wf(),
        final(emu)@ == old(emu)@.run(Instr::Inc, Mode::ZeroPageX),
        final(emu).stat == old(emu).stat,
{
    proof {
        lemma_run_rmw(emu@, Instr::Inc, Mode::ZeroPageX);
    }
    let addr = addressing::zeropage_x(emu);
    inc(emu, addr);
    emu.cpu.pc = emu.cpu.pc.wrapping_add(2);
}

pub fn sed_i(emu: &mut Emu)
    requires
        old(emu).wf(),
    ensures
        final(emu).wf(),
        final(emu)@ == old(emu)@.run(Instr::Sed, Mode::Implied),
        final(emu).stat == old(emu).stat,
{
    proof {
        lemma_run_implied(emu@, Instr::Sed, Mode::Implied);
    }
    emu.cpu.decimal_flag(true);
    emu.cpu.pc = emu.cpu.pc.wrapping_add(1);
}

pub fn sbc_aby(emu: &mut Emu) -> (extra: u8)
    requires
        old(emu).wf(),
    ensures
        final(emu).wf(),
        final(emu)@ == old(emu)@.run(Instr::Sbc, Mode::AbsoluteY),
        extra == old(emu)@.penalty(Instr::Sbc, Mode::AbsoluteY),
        final(emu).stat == old(emu).stat,
{
    proof {
        lemma_run_read(emu@, Instr::Sbc, Mode::AbsoluteY);
    }
    let (addr, crossed) = addressing::absolute_y(emu);
    let v = emu.mem.load_u8(addr);
    sbc(emu, v);
    emu.cpu.pc = emu.cpu.pc.wrapping_add(3);
    if crossed {
        1
    } else {
        0
    }
}

pub fn sbc_abx(emu: &mut Emu) -> (extra: u8)
    requires
        old(emu).wf(),
    ensures
        final(emu).wf(),
        final(emu)@ == old(emu)@.run(Instr::Sbc, Mode::AbsoluteX),
        extra == old(emu)@.penalty(Instr::Sbc, Mode::AbsoluteX),
        final(emu).stat == old(emu).stat,
{
    proof {
        lemma_run_read(emu@, Instr::Sbc, Mode::AbsoluteX);
    }
    let (addr, crossed) = addressing::absolute_x(emu);
    let v = emu.mem.load_u8(addr);
    sbc(emu, v);
    emu.cpu.pc = emu.cpu.pc.wrapping_add(3);
    if crossed {
        1
    } else {
        0
    }
}

pub fn inc_abx(emu: &mut Emu)
    requires
        old(emu).wf(),
    ensures
        final(emu).wf(),
        final(emu)@ == old(emu)@.run(Instr::Inc, Mode::AbsoluteX),
        final(emu).stat == old(emu).stat,
{
    proof {
        lemma_run_rmw(emu@, Instr::Inc, Mode::AbsoluteX);
    }
    let (addr, crossed) = addressing::absolute_x(emu);
    inc(emu, addr);
    emu.cpu.pc = emu.cpu.pc.wrapping_add(3);
}

/// One entry of the opcode table.
#[derive(Clone, Copy, Debug, PartialEq, Eq, Structural)]
pub struct Op {
    pub instr: Instr,
    pub mode: Mode,
    pub cycles: u8,
    pub opcode: u8,
}

/// The opcode table: what each of the 256 opcodes does, in which mode, for how many base
/// cycles. The opcodes that the instruction set leaves undefined take two cycles.
pub open spec fn decode(op: u8) -> Op {
    match op {
        0x00 => Op { instr: Instr::Brk, mode: Mode::Implied, cycles: 7, opcode: op },
        0x01 => Op { instr: Instr::Ora, mode: Mode::IndirectX, cycles: 6, opcode: op },
        0x05 => Op { instr: Instr::Ora, mode: Mode::ZeroPage, cycles: 3, opcode: op },
        0x06 => Op { instr: Instr::Asl, mode: Mode::ZeroPage, cycles: 5, opcode: op },
        0x08 => Op { instr: Instr::Php, mode: Mode::Implied, cycles: 3, opcode: op },
        0x09 => Op { instr: Instr::Ora, mode: Mode::Immediate, cycles: 2, opcode: op },
        0x0a => Op { instr: Instr::Asl, mode: Mode::Accumulator, cycles: 2, opcode: op },
        0x0d => Op { instr: Instr::Ora, mode: Mode::Absolute, cycles: 4, opcode: op },
        0x0e => Op { instr: Instr::Asl, mode: Mode::Absolute, cycles: 6, opcode: op },
        0x10 => Op { instr: Instr::Bpl, mode: Mode::Relative, cycles: 2, opcode: op },
        0x11 => Op { instr: Instr::Ora, mode: Mode::IndirectY, cycles: 5, opcode: op },
        0x15 => Op { instr: Instr::Ora, mode: Mode::ZeroPageX, cycles: 4, opcode: op },
        0x16 => Op { instr: Instr::Asl, mode: Mode::ZeroPageX, cycles: 6, opcode: op },
        0x18 => Op { instr: Instr::Clc, mode: Mode::Implied, cycles: 2, opcode: op },
        0x19 => Op { instr: Instr::Ora, mode: Mode::AbsoluteY, cycles: 4, opcode: op },
        0x1d => Op { instr: Instr::Ora, mode: Mode::AbsoluteX, cycles: 4, opcode: op },
        0x1e => Op { instr: Instr::Asl, mode: Mode::AbsoluteX, cycles: 7, opcode: op },
        0x20 => Op { instr: Instr::Jsr, mode: Mode::Absolute, cycles: 6, opcode: op },
        0x21 => Op { instr: Instr::And, mode: Mode::IndirectX, cycles: 6, opcode: op },
        0x24 => Op { instr: Instr::Bit, mode: Mode::ZeroPage, cycles: 3, opcode: op },
        0x25 => Op { instr: Instr::And, mode: Mode::ZeroPage, cycles: 3, opcode: op },
        0x26 => Op { instr: Instr::Rol, mode: Mode::ZeroPage, cycles: 5, opcode: op },
        0x28 => Op { instr: Instr::Plp, mode: Mode::Implied, cycles: 4, opcode: op },
        0x29 => Op { instr: Instr::And, mode: Mode::Immediate, cycles: 2, opcode: op },
        0x2a => Op { instr: Instr::Rol, mode: Mode::Accumulator, cycles: 2, opcode: op },
        0x2c => Op { instr: Instr::Bit, mode: Mode::Absolute, cycles: 4, opcode: op },
        0x2d => Op { instr: Instr::And, mode: Mode::Absolute, cycles: 4, opcode: op },
        0x2e => Op { instr: Instr::Rol, mode: Mode::Absolute, cycles: 6, opcode: op },
        0x30 => Op { instr: Instr::Bmi, mode: Mode::Relative, cycles: 2, opcode: op },
        0x31 => Op { instr: Instr::And, mode: Mode::IndirectY, cycles: 5, opcode: op },
        0x35 => Op { instr: Instr::And, mode: Mode::ZeroPageX, cycles: 4, opcode: op },
        0x36 => Op { instr: Instr::Rol, mode: Mode::ZeroPageX, cycles: 6, opcode: op },
        0x38 => Op { instr: Instr::Sec, mode: Mode::Implied, cycles: 2, opcode: op },
        0x39 => Op { instr: Instr::And, mode: Mode::AbsoluteY, cycles: 4, opcode: op },
        0x3d => Op { instr: Instr::And, mode: Mode::AbsoluteX, cycles: 4, opcode: op },
        0x3e => Op { instr: Instr::Rol, mode: Mode::AbsoluteX, cycles: 7, opcode: op },
        0x40 => Op { instr: Instr::Rti, mode: Mode::Implied, cycles: 6, opcode: op },
        0x41 => Op { instr: Instr::Eor, mode: Mode::IndirectX, cycles: 6, opcode: op },
        0x45 => Op { instr: Instr::Eor, mode: Mode::ZeroPage, cycles: 3, opcode: op },
        0x46 => Op { instr: Instr::Lsr, mode: Mode::ZeroPage, cycles: 5, opcode: op },
        0x48 => Op { instr: Instr::Pha, mode: Mode::Implied, cycles: 3, opcode: op },
        0x49 => Op { instr: Instr::Eor, mode: Mode::Immediate, cycles: 2, opcode: op },
        0x4a => Op { instr: Instr::Lsr, mode: Mode::Accumulator, cycles: 2, opcode: op },
        0x4c => Op { instr: Instr::Jmp, mode: Mode::Absolute, cycles: 3, opcode: op },
        0x4d => Op { instr: Instr::Eor, mode: Mode::Absolute, cycles: 4, opcode: op },
        0x4e => Op { instr: Instr::Lsr, mode: Mode::Absolute, cycles: 6, opcode: op },
        0x50 => Op { instr: Instr::Bvc, mode: Mode::Relative, cycles: 2, opcode: op },
        0x51 => Op { instr: Instr::Eor, mode: Mode::IndirectY, cycles: 5, opcode: op },
        0x55 => Op { instr: Instr::Eor, mode: Mode::ZeroPageX, cycles: 4, opcode: op },
        0x56 => Op { instr: Instr::Lsr, mode: Mode::ZeroPageX, cycles: 6, opcode: op },
        0x58 => Op { instr: Instr::Cli, mode: Mode::Implied, cycles: 2, opcode: op },
        0x59 => Op { instr: Instr::Eor, mode: Mode::AbsoluteY, cycles: 4, opcode: op },
        0x5d => Op { instr: Instr::Eor, mode: Mode::AbsoluteX, cycles: 4, opcode: op },
        0x5e => Op { instr: Instr::Lsr, mode: Mode::AbsoluteX, cycles: 7, opcode: op },
        0x60 => Op { instr: Instr::Rts, mode: Mode::Implied, cycles: 6, opcode: op },
        0x61 => Op { instr: Instr::Adc, mode: Mode::IndirectX, cycles: 6, opcode: op },
        0x65 => Op { instr: Instr::Adc, mode: Mode::ZeroPage, cycles: 3, opcode: op },
        0x66 => Op { instr: Instr::Ror, mode: Mode::ZeroPage, cycles: 5, opcode: op },
        0x68 => Op { instr: Instr::Pla, mode: Mode::Implied, cycles: 4, opcode: op },
        0x69 => Op { instr: Instr::Adc, mode: Mode::Immediate, cycles: 2, opcode: op },
        0x6a => Op { instr: Instr::Ror, mode: Mode::Accumulator, cycles: 2, opcode: op },
        0x6c => Op { instr: Instr::Jmp, mode: Mode::Indirect, cycles: 5, opcode: op },
        0x6d => Op { instr: Instr::Adc, mode: Mode::Absolute, cycles: 4, opcode: op },
        0x6e => Op { instr: Instr::Ror, mode: Mode::Absolute, cycles: 6, opcode: op },
        0x70 => Op { instr: Instr::Bvs, mode: Mode::Relative, cycles: 2, opcode: op },
        0x71 => Op { instr: Instr::Adc, mode: Mode::IndirectY, cycles: 5, opcode: op },
        0x75 => Op { instr: Instr::Adc, mode: Mode::ZeroPageX, cycles: 4, opcode: op },
        0x76 => Op { instr: Instr::Ror, mode: Mode::ZeroPageX, cycles: 6, opcode: op },
        0x78 => Op { instr: Instr::Sei, mode: Mode::Implied, cycles: 2, opcode: op },
        0x79 => Op { instr: Instr::Adc, mode: Mode::AbsoluteY, cycles: 4, opcode: op },
        0x7d => Op { instr: Instr::Adc, mode: Mode::AbsoluteX, cycles: 4, opcode: op },
        0x7e => Op { instr: Instr::Ror, mode: Mode::AbsoluteX, cycles: 7, opcode: op },
        0x81 => Op { instr: Instr::Sta, mode: Mode::IndirectX, cycles: 6, opcode: op },
        0x84 => Op { instr: Instr::Sty, mode: Mode::ZeroPage, cycles: 3, opcode: op },
        0x85 => Op { instr: Instr::Sta, mode: Mode::ZeroPage, cycles: 3, opcode: op },
        0x86 => Op { instr: Instr::Stx, mode: Mode::ZeroPage, cycles: 3, opcode: op },
        0x88 => Op { instr: Instr::Dey, mode: Mode::Implied, cycles: 2, opcode: op },
        0x8a => Op { instr: Instr::Txa, mode: Mode::Implied, cycles: 2, opcode: op },
        0x8c => Op { instr: Instr::Sty, mode: Mode::Absolute, cycles: 4, opcode: op },
        0x8d => Op { instr: Instr::Sta, mode: Mode::Absolute, cycles: 4, opcode: op },
        0x8e => Op { instr: Instr::Stx, mode: Mode::Absolute, cycles: 4, opcode: op },
        0x90 => Op { instr: Instr::Bcc, mode: Mode::Relative, cycles: 2, opcode: op },
        0x91 => Op { instr: Instr::Sta, mode: Mode::IndirectY, cycles: 6, opcode: op },
        0x94 => Op { instr: Instr::Sty, mode: Mode::ZeroPageX, cycles: 4, opcode: op },
        0x95 => Op { instr: Instr::Sta, mode: Mode::ZeroPageX, cycles: 4, opcode: op },
        0x96 => Op { instr: Instr::Stx, mode: Mode::ZeroPageY, cycles: 4, opcode: op },
        0x98 => Op { instr: Instr::Tya, mode: Mode::Implied, cycles: 2, opcode: op },
        0x99 => Op { instr: Instr::Sta, mode: Mode::AbsoluteY, cycles: 5, opcode: op },
        0x9a => Op { instr: Instr::Txs, mode: Mode::Implied, cycles: 2, opcode: op },
        0x9d => Op { instr: Instr::Sta, mode: Mode::AbsoluteX, cycles: 5, opcode: op },
        0xa0 => Op { instr: Instr::Ldy, mode: Mode::Immediate, cycles: 2, opcode: op },
        0xa1 => Op { instr: Instr::Lda, mode: Mode::IndirectX, cycles: 6, opcode: op },
        0xa2 => Op { instr: Instr::Ldx, mode: Mode::Immediate, cycles: 2, opcode: op },
        0xa4 => Op { instr: Instr::Ldy, mode: Mode::ZeroPage, cycles: 3, opcode: op },
        0xa5 => Op { instr: Instr::Lda, mode: Mode::ZeroPage, cycles: 3, opcode: op },
        0xa6 => Op { instr: Instr::Ldx, mode: Mode::ZeroPage, cycles: 3, opcode: op },
        0xa8 => Op { instr: Instr::Tay, mode: Mode::Implied, cycles: 2, opcode: op },
        0xa9 => Op { instr: Instr::Lda, mode: Mode::Immediate, cycles: 2, opcode: op },
        0xaa => Op { instr: Instr::Tax, mode: Mode::Implied, cycles: 2, opcode: op },
        0xac => Op { instr: Instr::Ldy, mode: Mode::Absolute, cycles: 4, opcode: op },
        0xad => Op { instr: Instr::Lda, mode: Mode::Absolute, cycles: 4, opcode: op },
        0xae => Op { instr: Instr::Ldx, mode: Mode::Absolute, cycles: 4, opcode: op },
        0xb0 => Op { instr: Instr::Bcs, mode: Mode::Relative, cycles: 2, opcode: op },
        0xb1 => Op { instr: Instr::Lda, mode: Mode::IndirectY, cycles: 5, opcode: op },
        0xb4 => Op { instr: Instr::Ldy, mode: Mode::ZeroPageX, cycles: 4, opcode: op },
        0xb5 => Op { instr: Instr::Lda, mode: Mode::ZeroPageX, cycles: 4, opcode: op },
        0xb6 => Op { instr: Instr::Ldx, mode: Mode::ZeroPageY, cycles: 4, opcode: op },
        0xb8 => Op { instr: Instr::Clv, mode: Mode::Implied, cycles: 2, opcode: op },
        0xb9 => Op { instr: Instr::Lda, mode: Mode::AbsoluteY, cycles: 4, opcode: op },
        0xba => Op { instr: Instr::Tsx, mode: Mode::Implied, cycles: 2, opcode: op },
        0xbc => Op { instr: Instr::Ldy, mode: Mode::AbsoluteX, cycles: 4, opcode: op },
        0xbd => Op { instr: Instr::Lda, mode: Mode::AbsoluteX, cycles: 4, opcode: op },
        0xbe => Op { instr: Instr::Ldx, mode: Mode::AbsoluteY, cycles: 4, opcode: op },
        0xc0 => Op { instr: Instr::Cpy, mode: Mode::Immediate, cycles: 2, opcode: op },
        0xc1 => Op { instr: Instr::Cmp, mode: Mode::IndirectX, cycles: 6, opcode: op },
        0xc4 => Op { instr: Instr::Cpy, mode: Mode::ZeroPage, cycles: 3, opcode: op },
        0xc5 => Op { instr: Instr::Cmp, mode: Mode::ZeroPage, cycles: 3, opcode: op },
        0xc6 => Op { instr: Instr::Dec, mode: Mode::ZeroPage, cycles: 5, opcode: op },
        0xc8 => Op { instr: Instr::Iny, mode: Mode::Implied, cycles: 2, opcode: op },
        0xc9 => Op { instr: Instr::Cmp, mode: Mode::Immediate, cycles: 2, opcode: op },
        0xca => Op { instr: Instr::Dex, mode: Mode::Implied, cycles: 2, opcode: op },
        0xcc => Op { instr: Instr::Cpy, mode: Mode::Absolute, cycles: 4, opcode: op },
        0xcd => Op { instr: Instr::Cmp, mode: Mode::Absolute, cycles: 4, opcode: op },
        0xce => Op { instr: Instr::Dec, mode: Mode::Absolute, cycles: 6, opcode: op },
        0xd0 => Op { instr: Instr::Bne, mode: Mode::Relative, cycles: 2, opcode: op },
        0xd1 => Op { instr: Instr::Cmp, mode: Mode::IndirectY, cycles: 5, opcode: op },
        0xd5 => Op { instr: Instr::Cmp, mode: Mode::ZeroPageX, cycles: 4, opcode: op },
        0xd6 => Op { instr: Instr::Dec, mode: Mode::ZeroPageX, cycles: 6, opcode: op },
        0xd8 => Op { instr: Instr::Cld, mode: Mode::Implied, cycles: 2, opcode: op },
        0xd9 => Op { instr: Instr::Cmp, mode: Mode::AbsoluteY, cycles: 4, opcode: op },
        0xdd => Op { instr: Instr::Cmp, mode: Mode::AbsoluteX, cycles: 4, opcode: op },
        0xde => Op { instr: Instr::Dec, mode: Mode::AbsoluteX, cycles: 7, opcode: op },
        0xe0 => Op { instr: Instr::Cpx, mode: Mode::Immediate, cycles: 2, opcode: op },
        0xe1 => Op { instr: Instr::Sbc, mode: Mode::IndirectX, cycles: 6, opcode: op },
        0xe4 => Op { instr: Instr::Cpx, mode: Mode::ZeroPage, cycles: 3, opcode: op },
        0xe5 => Op { instr: Instr::Sbc, mode: Mode::ZeroPage, cycles: 3, opcode: op },
        0xe6 => Op { instr: Instr::Inc, mode: Mode::ZeroPage, cycles: 5, opcode: op },
        0xe8 => Op { instr: Instr::Inx, mode: Mode::Implied, cycles: 2, opcode: op },
        0xe9 => Op { instr: Instr::Sbc, mode: Mode::Immediate, cycles: 2, opcode: op },
        0xea => Op { instr: Instr::Nop, mode: Mode::Implied, cycles: 2, opcode: op },
        0xec => Op { instr: Instr::Cpx, mode: Mode::Absolute, cycles: 4, opcode: op },
        0xed => Op { instr: Instr::Sbc, mode: Mode::Absolute, cycles: 4, opcode: op },
        0xee => Op { instr: Instr::Inc, mode: Mode::Absolute, cycles: 6, opcode: op },
        0xf0 => Op { instr: Instr::Beq, mode: Mode::Relative, cycles: 2, opcode: op },
        0xf1 => Op { instr: Instr::Sbc, mode: Mode::IndirectY, cycles: 5, opcode: op },
        0xf5 => Op { instr: Instr::Sbc, mode: Mode::ZeroPageX, cycles: 4, opcode: op },
        0xf6 => Op { instr: Instr::Inc, mode: Mode::ZeroPageX, cycles: 6, opcode: op },
        0xf8 => Op { instr: Instr::Sed, mode: Mode::Implied, cycles: 2, opcode: op },
        0xf9 => Op { instr: Instr::Sbc, mode: Mode::AbsoluteY, cycles: 4, opcode: op },
        0xfd => Op { instr: Instr::Sbc, mode: Mode::AbsoluteX, cycles: 4, opcode: op },
        0xfe => Op { instr: Instr::Inc, mode: Mode::AbsoluteX, cycles: 7, opcode: op },
        _ => Op { instr: Instr::Undef, mode: Mode::Implied, cycles: 2, opcode: op },
    }
}

/// Looks an opcode up in the table.
pub fn op_info(op: u8) -> (r: Op)
    ensures
        r == decode(op),
{
    match op {
        0x00 => Op { instr: Instr::Brk, mode: Mode::Implied, cycles: 7, opcode: op },
        0x01 => Op { instr: Instr::Ora, mode: Mode::IndirectX, cycles: 6, opcode: op },
        0x05 => Op { instr: Instr::Ora, mode: Mode::ZeroPage, cycles: 3, opcode: op },
        0x06 => Op { instr: Instr::Asl, mode: Mode::ZeroPage, cycles: 5, opcode: op },
        0x08 => Op { instr: Instr::Php, mode: Mode::Implied, cycles: 3, opcode: op },
        0x09 => Op { instr: Instr::Ora, mode: Mode::Immediate, cycles: 2, opcode: op },
        0x0a => Op { instr: Instr::Asl, mode: Mode::Accumulator, cycles: 2, opcode: op },
        0x0d => Op { instr: Instr::Ora, mode: Mode::Absolute, cycles: 4, opcode: op },
        0x0e => Op { instr: Instr::Asl, mode: Mode::Absolute, cycles: 6, opcode: op },
        0x10 => Op { instr: Instr::Bpl, mode: Mode::Relative, cycles: 2, opcode: op },
        0x11 => Op { instr: Instr::Ora, mode: Mode::IndirectY, cycles: 5, opcode: op },
        0x15 => Op { instr: Instr::Ora, mode: Mode::ZeroPageX, cycles: 4, opcode: op },
        0x16 => Op { instr: Instr::Asl, mode: Mode::ZeroPageX, cycles: 6, opcode: op },
        0x18 => Op { instr: Instr::Clc, mode: Mode::Implied, cycles: 2, opcode: op },
        0x19 => Op { instr: Instr::Ora, mode: Mode::AbsoluteY, cycles: 4, opcode: op },
        0x1d => Op { instr: Instr::Ora, mode: Mode::AbsoluteX, cycles: 4, opcode: op },
        0x1e => Op { instr: Instr::Asl, mode: Mode::AbsoluteX, cycles: 7, opcode: op },
        0x20 => Op { instr: Instr::Jsr, mode: Mode::Absolute, cycles: 6, opcode: op },
        0x21 => Op { instr: Instr::And, mode: Mode::IndirectX, cycles: 6, opcode: op },
        0x24 => Op { instr: Instr::Bit, mode: Mode::ZeroPage, cycles: 3, opcode: op },
        0x25 => Op { instr: Instr::And, mode: Mode::ZeroPage, cycles: 3, opcode: op },
        0x26 => Op { instr: Instr::Rol, mode: Mode::ZeroPage, cycles: 5, opcode: op },
        0x28 => Op { instr: Instr::Plp, mode: Mode::Implied, cycles: 4, opcode: op },
        0x29 => Op { instr: Instr::And, mode: Mode::Immediate, cycles: 2, opcode: op },
        0x2a => Op { instr: Instr::Rol, mode: Mode::Accumulator, cycles: 2, opcode: op },
        0x2c => Op { instr: Instr::Bit, mode: Mode::Absolute, cycles: 4, opcode: op },
        0x2d => Op { instr: Instr::And, mode: Mode::Absolute, cycles: 4, opcode: op },
        0x2e => Op { instr: Instr::Rol, mode: Mode::Absolute, cycles: 6, opcode: op },
        0x30 => Op { instr: Instr::Bmi, mode: Mode::Relative, cycles: 2, opcode: op },
        0x31 => Op { instr: Instr::And, mode: Mode::IndirectY, cycles: 5, opcode: op },
        0x35 => Op { instr: Instr::And, mode: Mode::ZeroPageX, cycles: 4, opcode: op },
        0x36 => Op { instr: Instr::Rol, mode: Mode::ZeroPageX, cycles: 6, opcode: op },
        0x38 => Op { instr: Instr::Sec, mode: Mode::Implied, cycles: 2, opcode: op },
        0x39 => Op { instr: Instr::And, mode: Mode::AbsoluteY, cycles: 4, opcode: op },
        0x3d => Op { instr: Instr::And, mode: Mode::AbsoluteX, cycles: 4, opcode: op },
        0x3e => Op { instr: Instr::Rol, mode: Mode::AbsoluteX, cycles: 7, opcode: op },
        0x40 => Op { instr: Instr::Rti, mode: Mode::Implied, cycles: 6, opcode: op },
        0x41 => Op { instr: Instr::Eor, mode: Mode::IndirectX, cycles: 6, opcode: op },
        0x45 => Op { instr: Instr::Eor, mode: Mode::ZeroPage, cycles: 3, opcode: op },
        0x46 => Op { instr: Instr::Lsr, mode: Mode::ZeroPage, cycles: 5, opcode: op },
        0x48 => Op { instr: Instr::Pha, mode: Mode::Implied, cycles: 3, opcode: op },
        0x49 => Op { instr: Instr::Eor, mode: Mode::Immediate, cycles: 2, opcode: op },
        0x4a => Op { instr: Instr::Lsr, mode: Mode::Accumulator, cycles: 2, opcode: op },
        0x4c => Op { instr: Instr::Jmp, mode: Mode::Absolute, cycles: 3, opcode: op },
        0x4d => Op { instr: Instr::Eor, mode: Mode::Absolute, cycles: 4, opcode: op },
        0x4e => Op { instr: Instr::Lsr, mode: Mode::Absolute, cycles: 6, opcode: op },
        0x50 => Op { instr: Instr::Bvc, mode: Mode::Relative, cycles: 2, opcode: op },
        0x51 => Op { instr: Instr::Eor, mode: Mode::IndirectY, cycles: 5, opcode: op },
        0x55 => Op { instr: Instr::Eor, mode: Mode::ZeroPageX, cycles: 4, opcode: op },
        0x56 => Op { instr: Instr::Lsr, mode: Mode::ZeroPageX, cycles: 6, opcode: op },
        0x58 => Op { instr: Instr::Cli, mode: Mode::Implied, cycles: 2, opcode: op },
        0x59 => Op { instr: Instr::Eor, mode: Mode::AbsoluteY, cycles: 4, opcode: op },
        0x5d => Op { instr: Instr::Eor, mode: Mode::AbsoluteX, cycles: 4, opcode: op },
        0x5e => Op { instr: Instr::Lsr, mode: Mode::AbsoluteX, cycles: 7, opcode: op },
        0x60 => Op { instr: Instr::Rts, mode: Mode::Implied, cycles: 6, opcode: op },
        0x61 => Op { instr: Instr::Adc, mode: Mode::IndirectX, cycles: 6, opcode: op },
        0x65 => Op { instr: Instr::Adc, mode: Mode::ZeroPage, cycles: 3, opcode: op },
        0x66 => Op { instr: Instr::Ror, mode: Mode::ZeroPage, cycles: 5, opcode: op },
        0x68 => Op { instr: Instr::Pla, mode: Mode::Implied, cycles: 4, opcode: op },
        0x69 => Op { instr: Instr::Adc, mode: Mode::Immediate, cycles: 2, opcode: op },
        0x6a => Op { instr: Instr::Ror, mode: Mode::Accumulator, cycles: 2, opcode: op },
        0x6c => Op { instr: Instr::Jmp, mode: Mode::Indirect, cycles: 5, opcode: op },
        0x6d => Op { instr: Instr::Adc, mode: Mode::Absolute, cycles: 4, opcode: op },
        0x6e => Op { instr: Instr::Ror, mode: Mode::Absolute, cycles: 6, opcode: op },
        0x70 => Op { instr: Instr::Bvs, mode: Mode::Relative, cycles: 2, opcode: op },
        0x71 => Op { instr: Instr::Adc, mode: Mode::IndirectY, cycles: 5, opcode: op },
        0x75 => Op { instr: Instr::Adc, mode: Mode::ZeroPageX, cycles: 4, opcode: op },
        0x76 => Op { instr: Instr::Ror, mode: Mode::ZeroPageX, cycles: 6, opcode: op },
        0x78 => Op { instr: Instr::Sei, mode: Mode::Implied, cycles: 2, opcode: op },
        0x79 => Op { instr: Instr::Adc, mode: Mode::AbsoluteY, cycles: 4, opcode: op },
        0x7d => Op { instr: Instr::Adc, mode: Mode::AbsoluteX, cycles: 4, opcode: op },
        0x7e => Op { instr: Instr::Ror, mode: Mode::AbsoluteX, cycles: 7, opcode: op },
        0x81 => Op { instr: Instr::Sta, mode: Mode::IndirectX, cycles: 6, opcode: op },
        0x84 => Op { instr: Instr::Sty, mode: Mode::ZeroPage, cycles: 3, opcode: op },
        0x85 => Op { instr: Instr::Sta, mode: Mode::ZeroPage, cycles: 3, opcode: op },
        0x86 => Op { instr: Instr::Stx, mode: Mode::ZeroPage, cycles: 3, opcode: op },
        0x88 => Op { instr: Instr::Dey, mode: Mode::Implied, cycles: 2, opcode: op },
        0x8a => Op { instr: Instr::Txa, mode: Mode::Implied, cycles: 2, opcode: op },
        0x8c => Op { instr: Instr::Sty, mode: Mode::Absolute, cycles: 4, opcode: op },
        0x8d => Op { instr: Instr::Sta, mode: Mode::Absolute, cycles: 4, opcode: op },
        0x8e => Op { instr: Instr::Stx, mode: Mode::Absolute, cycles: 4, opcode: op },
        0x90 => Op { instr: Instr::Bcc, mode: Mode::Relative, cycles: 2, opcode: op },
        0x91 => Op { instr: Instr::Sta, mode: Mode::IndirectY, cycles: 6, opcode: op },
        0x94 => Op { instr: Instr::Sty, mode: Mode::ZeroPageX, cycles: 4, opcode: op },
        0x95 => Op { instr: Instr::Sta, mode: Mode::ZeroPageX, cycles: 4, opcode: op },
        0x96 => Op { instr: Instr::Stx, mode: Mode::ZeroPageY, cycles: 4, opcode: op },
        0x98 => Op { instr: Instr::Tya, mode: Mode::Implied, cycles: 2, opcode: op },
        0x99 => Op { instr: Instr::Sta, mode: Mode::AbsoluteY, cycles: 5, opcode: op },
        0x9a => Op { instr: Instr::Txs, mode: Mode::Implied, cycles: 2, opcode: op },
        0x9d => Op { instr: Instr::Sta, mode: Mode::AbsoluteX, cycles: 5, opcode: op },
        0xa0 => Op { instr: Instr::Ldy, mode: Mode::Immediate, cycles: 2, opcode: op },
        0xa1 => Op { instr: Instr::Lda, mode: Mode::IndirectX, cycles: 6, opcode: op },
        0xa2 => Op { instr: Instr::Ldx, mode: Mode::Immediate, cycles: 2, opcode: op },
        0xa4 => Op { instr: Instr::Ldy, mode: Mode::ZeroPage, cycles: 3, opcode: op },
        0xa5 => Op { instr: Instr::Lda, mode: Mode::ZeroPage, cycles: 3, opcode: op },
        0xa6 => Op { instr: Instr::Ldx, mode: Mode::ZeroPage, cycles: 3, opcode: op },
        0xa8 => Op { instr: Instr::Tay, mode: Mode::Implied, cycles: 2, opcode: op },
        0xa9 => Op { instr: Instr::Lda, mode: Mode::Immediate, cycles: 2, opcode: op },
        0xaa => Op { instr: Instr::Tax, mode: Mode::Implied, cycles: 2, opcode: op },
        0xac => Op { instr: Instr::Ldy, mode: Mode::Absolute, cycles: 4, opcode: op },
        0xad => Op { instr: Instr::Lda, mode: Mode::Absolute, cycles: 4, opcode: op },
        0xae => Op { instr: Instr::Ldx, mode: Mode::Absolute, cycles: 4, opcode: op },
        0xb0 => Op { instr: Instr::Bcs, mode: Mode::Relative, cycles: 2, opcode: op },
        0xb1 => Op { instr: Instr::Lda, mode: Mode::IndirectY, cycles: 5, opcode: op },
        0xb4 => Op { instr: Instr::Ldy, mode: Mode::ZeroPageX, cycles: 4, opcode: op },
        0xb5 => Op { instr: Instr::Lda, mode: Mode::ZeroPageX, cycles: 4, opcode: op },
        0xb6 => Op { instr: Instr::Ldx, mode: Mode::ZeroPageY, cycles: 4, opcode: op },
        0xb8 => Op { instr: Instr::Clv, mode: Mode::Implied, cycles: 2, opcode: op },
        0xb9 => Op { instr: Instr::Lda, mode: Mode::AbsoluteY, cycles: 4, opcode: op },
        0xba => Op { instr: Instr::Tsx, mode: Mode::Implied, cycles: 2, opcode: op },
        0xbc => Op { instr: Instr::Ldy, mode: Mode::AbsoluteX, cycles: 4, opcode: op },
        0xbd => Op { instr: Instr::Lda, mode: Mode::AbsoluteX, cycles: 4, opcode: op },
        0xbe => Op { instr: Instr::Ldx, mode: Mode::AbsoluteY, cycles: 4, opcode: op },
        0xc0 => Op { instr: Instr::Cpy, mode: Mode::Immediate, cycles: 2, opcode: op },
        0xc1 => Op { instr: Instr::Cmp, mode: Mode::IndirectX, cycles: 6, opcode: op },
        0xc4 => Op { instr: Instr::Cpy, mode: Mode::ZeroPage, cycles: 3, opcode: op },
        0xc5 => Op { instr: Instr::Cmp, mode: Mode::ZeroPage, cycles: 3, opcode: op },
        0xc6 => Op { instr: Instr::Dec, mode: Mode::ZeroPage, cycles: 5, opcode: op },
        0xc8 => Op { instr: Instr::Iny, mode: Mode::Implied, cycles: 2, opcode: op },
        0xc9 => Op { instr: Instr::Cmp, mode: Mode::Immediate, cycles: 2, opcode: op },
        0xca => Op { instr: Instr::Dex, mode: Mode::Implied, cycles: 2, opcode: op },
        0xcc => Op { instr: Instr::Cpy, mode: Mode::Absolute, cycles: 4, opcode: op },
        0xcd => Op { instr: Instr::Cmp, mode: Mode::Absolute, cycles: 4, opcode: op },
        0xce => Op { instr: Instr::Dec, mode: Mode::Absolute, cycles: 6, opcode: op },
        0xd0 => Op { instr: Instr::Bne, mode: Mode::Relative, cycles: 2, opcode: op },
        0xd1 => Op { instr: Instr::Cmp, mode: Mode::IndirectY, cycles: 5, opcode: op },
        0xd5 => Op { instr: Instr::Cmp, mode: Mode::ZeroPageX, cycles: 4, opcode: op },
        0xd6 => Op { instr: Instr::Dec, mode: Mode::ZeroPageX, cycles: 6, opcode: op },
        0xd8 => Op { instr: Instr::Cld, mode: Mode::Implied, cycles: 2, opcode: op },
        0xd9 => Op { instr: Instr::Cmp, mode: Mode::AbsoluteY, cycles: 4, opcode: op },
        0xdd => Op { instr: Instr::Cmp, mode: Mode::AbsoluteX, cycles: 4, opcode: op },
        0xde => Op { instr: Instr::Dec, mode: Mode::AbsoluteX, cycles: 7, opcode: op },
        0xe0 => Op { instr: Instr::Cpx, mode: Mode::Immediate, cycles: 2, opcode: op },
        0xe1 => Op { instr: Instr::Sbc, mode: Mode::IndirectX, cycles: 6, opcode: op },
        0xe4 => Op { instr: Instr::Cpx, mode: Mode::ZeroPage, cycles: 3, opcode: op },
        0xe5 => Op { instr: Instr::Sbc, mode: Mode::ZeroPage, cycles: 3, opcode: op },
        0xe6 => Op { instr: Instr::Inc, mode: Mode::ZeroPage, cycles: 5, opcode: op },
        0xe8 => Op { instr: Instr::Inx, mode: Mode::Implied, cycles: 2, opcode: op },
        0xe9 => Op { instr: Instr::Sbc, mode: Mode::Immediate, cycles: 2, opcode: op },
        0xea => Op { instr: Instr::Nop, mode: Mode::Implied, cycles: 2, opcode: op },
        0xec => Op { instr: Instr::Cpx, mode: Mode::Absolute, cycles: 4, opcode: op },
        0xed => Op { instr: Instr::Sbc, mode: Mode::Absolute, cycles: 4, opcode: op },
        0xee => Op { instr: Instr::Inc, mode: Mode::Absolute, cycles: 6, opcode: op },
        0xf0 => Op { instr: Instr::Beq, mode: Mode::Relative, cycles: 2, opcode: op },
        0xf1 => Op { instr: Instr::Sbc, mode: Mode::IndirectY, cycles: 5, opcode: op },
        0xf5 => Op { instr: Instr::Sbc, mode: Mode::ZeroPageX, cycles: 4, opcode: op },
        0xf6 => Op { instr: Instr::Inc, mode: Mode::ZeroPageX, cycles: 6, opcode: op },
        0xf8 => Op { instr: Instr::Sed, mode: Mode::Implied, cycles: 2, opcode: op },
        0xf9 => Op { instr: Instr::Sbc, mode: Mode::AbsoluteY, cycles: 4, opcode: op },
        0xfd => Op { instr: Instr::Sbc, mode: Mode::AbsoluteX, cycles: 4, opcode: op },
        0xfe => Op { instr: Instr::Inc, mode: Mode::AbsoluteX, cycles: 7, opcode: op },
        _ => Op { instr: Instr::Undef, mode: Mode::Implied, cycles: 2, opcode: op },
    }
}

/// Runs the instruction that `op` encodes. Returns the cycles that it costs beyond the base
/// count of its table entry.
pub fn execute(emu: &mut Emu, op: u8) -> (extra: u8)
    requires
        old(emu).wf(),
    ensures
        final(emu).wf(),
        final(emu)@ == old(emu)@.run(decode(op).instr, decode(op).mode),
        extra == old(emu)@.penalty(decode(op).instr, decode(op).mode),
        final(emu).stat == if decode(op).instr == Instr::Undef {
            Stat { last_undefined: Some(old(emu).cpu.pc), ..old(emu).stat }
        } else {
            old(emu).stat
        },
{
    match op {
        0x00 => {
            brk(emu);
            0
        },
        0x01 => {
            ora_inx(emu);
            0
        },
        0x05 => {
            ora_zpg(emu);
            0
        },
        0x06 => {
            asl_zpg(emu);
            0
        },
        0x08 => {
            php_i(emu);
            0
        },
        0x09 => {
            ora_imm(emu);
            0
        },
        0x0a => {
            asl_i(emu);
            0
        },
        0x0d => {
            ora_abs(emu);
            0
        },
        0x0e => {
            asl_abs(emu);
            0
        },
        0x10 => bpl_rel(emu),
        0x11 => ora_iny(emu),
        0x15 => {
            ora_zpx(emu);
            0
        },
        0x16 => {
            asl_zpx(emu);
            0
        },
        0x18 => {
            clc_i(emu);
            0
        },
        0x19 => ora_aby(emu),
        0x1d => ora_abx(emu),
        0x1e => {
            asl_abx(emu);
            0
        },
        0x20 => {
            jsr_abs(emu);
            0
        },
        0x21 => {
            and_inx(emu);
            0
        },
        0x24 => {
            bit_zpg(emu);
            0
        },
        0x25 => {
            and_zpg(emu);
            0
        },
        0x26 => {
            rol_zpg(emu);
            0
        },
        0x28 => {
            plp_i(emu);
            0
        },
        0x29 => {
            and_imm(emu);
            0
        },
        0x2a => {
            rol_i(emu);
            0
        },
        0x2c => {
            bit_abs(emu);
            0
        },
        0x2d => {
            and_abs(emu);
            0
        },
        0x2e => {
            rol_abs(emu);
            0
        },
        0x30 => bmi_rel(emu),
        0x31 => and_iny(emu),
        0x35 => {
            and_zpx(emu);
            0
        },
        0x36 => {
            rol_zpx(emu);
            0
        },
        0x38 => {
            sec_i(emu);
            0
        },
        0x39 => and_aby(emu),
        0x3d => and_abx(emu),
        0x3e => {
            rol_abx(emu);
            0
        },
        0x40 => {
            rti_i(emu);
            0
        },
        0x41 => {
            eor_inx(emu);
            0
        },
        0x45 => {
            eor_zpg(emu);
            0
        },
        0x46 => {
            lsr_zpg(emu);
            0
        },
        0x48 => {
            pha_i(emu);
            0
        },
        0x49 => {
            eor_imm(emu);
            0
        },
        0x4a => {
            lsr_i(emu);
            0
        },
        0x4c => {
            jmp_abs(emu);
            0
        },
        0x4d => {
            eor_abs(emu);
            0
        },
        0x4e => {
            lsr_abs(emu);
            0
        },
        0x50 => bvc_rel(emu),
        0x51 => eor_iny(emu),
        0x55 => {
            eor_zpx(emu);
            0
        },
        0x56 => {
            lsr_zpx(emu);
            0
        },
        0x58 => {
            cli_i(emu);
            0
        },
        0x59 => eor_aby(emu),
        0x5d => eor_abx(emu),
        0x5e => {
            lsr_abx(emu);
            0
        },
        0x60 => {
            rts_i(emu);
            0
        },
        0x61 => {
            adc_inx(emu);
            0
        },
        0x65 => {
            adc_zpg(emu);
            0
        },
        0x66 => {
            ror_zpg(emu);
            0
        },
        0x68 => {
            pla_i(emu);
            0
        },
        0x69 => {
            adc_imm(emu);
            0
        },
        0x6a => {
            ror_i(emu);
            0
        },
        0x6c => {
            jmp_ind(emu);
            0
        },
        0x6d => {
            adc_abs(emu);
            0
        },
        0x6e => {
            ror_abs(emu);
            0
        },
        0x70 => bvs_rel(emu),
        0x71 => adc_iny(emu),
        0x75 => {
            adc_zpx(emu);
            0
        },
        0x76 => {
            ror_zpx(emu);
            0
        },
        0x78 => {
            sei_i(emu);
            0
        },
        0x79 => adc_aby(emu),
        0x7d => adc_abx(emu),
        0x7e => {
            ror_abx(emu);
            0
        },
        0x81 => {
            sta_inx(emu);
            0
        },
        0x84 => {
            sty_zpg(emu);
            0
        },
        0x85 => {
            sta_zpg(emu);
            0
        },
        0x86 => {
            stx_zpg(emu);
            0
        },
        0x88 => {
            dey_i(emu);
            0
        },
        0x8a => {
            txa_i(emu);
            0
        },
        0x8c => {
            sty_abs(emu);
            0
        },
        0x8d => {
            sta_abs(emu);
            0
        },
        0x8e => {
            stx_abs(emu);
            0
        },
        0x90 => bcc_rel(emu),
        0x91 => {
            sta_iny(emu);
            0
        },
        0x94 => {
            sty_zpx(emu);
            0
        },
        0x95 => {
            sta_zpx(emu);
            0
        },
        0x96 => {
            stx_zpy(emu);
            0
        },
        0x98 => {
            tya_i(emu);
            0
        },
        0x99 => {
            sta_aby(emu);
            0
        },
        0x9a => {
            txs_i(emu);
            0
        },
        0x9d => {
            sta_abx(emu);
            0
        },
        0xa0 => {
            ldy_imm(emu);
            0
        },
        0xa1 => {
            lda_inx(emu);
            0
        },
        0xa2 => {
            ldx_imm(emu);
            0
        },
        0xa4 => {
            ldy_zpg(emu);
            0
        },
        0xa5 => {
            lda_zpg(emu);
            0
        },
        0xa6 => {
            ldx_zpg(emu);
            0
        },
        0xa8 => {
            tay_i(emu);
            0
        },
        0xa9 => {
            lda_imm(emu);
            0
        },
        0xaa => {
            tax_i(emu);
            0
        },
        0xac => {
            ldy_abs(emu);
            0
        },
        0xad => {
            lda_abs(emu);
            0
        },
        0xae => {
            ldx_abs(emu);
            0
        },
        0xb0 => bcs_rel(emu),
        0xb1 => lda_iny(emu),
        0xb4 => {
            ldy_zpx(emu);
            0
        },
        0xb5 => {
            lda_zpx(emu);
            0
        },
        0xb6 => {
            ldx_zpy(emu);
            0
        },
        0xb8 => {
            clv_i(emu);
            0
        },
        0xb9 => lda_aby(emu),
        0xba => {
            tsx_i(emu);
            0
        },
        0xbc => ldy_abx(emu),
        0xbd => lda_abx(emu),
        0xbe => ldx_aby(emu),
        0xc0 => {
            cpy_imm(emu);
            0
        },
        0xc1 => {
            cmp_inx(emu);
            0
        },
        0xc4 => {
            cpy_zpg(emu);
            0
        },
        0xc5 => {
            cmp_zpg(emu);
            0
        },
        0xc6 => {
            dec_zpg(emu);
            0
        },
        0xc8 => {
            iny_i(emu);
            0
        },
        0xc9 => {
            cmp_imm(emu);
            0
        },
        0xca => {
            dex_i(emu);
            0
        },
        0xcc => {
            cpy_abs(emu);
            0
        },
        0xcd => {
            cmp_abs(emu);
            0
        },
        0xce => {
            dec_abs(emu);
            0
        },
        0xd0 => bne_rel(emu),
        0xd1 => cmp_iny(emu),
        0xd5 => {
            cmp_zpx(emu);
            0
        },
        0xd6 => {
            dec_zpx(emu);
            0
        },
        0xd8 => {
            cld_i(emu);
            0
        },
        0xd9 => cmp_aby(emu),
        0xdd => cmp_abx(emu),
        0xde => {
            dec_abx(emu);
            0
        },
        0xe0 => {
            cpx_imm(emu);
            0
        },
        0xe1 => {
            sbc_inx(emu);
            0
        },
        0xe4 => {
            cpx_zpg(emu);
            0
        },
        0xe5 => {
            sbc_zpg(emu);
            0
        },
        0xe6 => {
            inc_zpg(emu);
            0
        },
        0xe8 => {
            inx_i(emu);
            0
        },
        0xe9 => {
            sbc_imm(emu);
            0
        },
        0xea => {
            nop(emu);
            0
        },
        0xec => {
            cpx_abs(emu);
            0
        },
        0xed => {
            sbc_abs(emu);
            0
        },
        0xee => {
            inc_abs(emu);
            0
        },
        0xf0 => beq_rel(emu),
        0xf1 => sbc_iny(emu),
        0xf5 => {
            sbc_zpx(emu);
            0
        },
        0xf6 => {
            inc_zpx(emu);
            0
        },
        0xf8 => {
            sed_i(emu);
            0
        },
        0xf9 => sbc_aby(emu),
        0xfd => sbc_abx(emu),
        0xfe => {
            inc_abx(emu);
            0
        },
        _ => {
            undef(emu);
            0
        },
    }
}

/// The three-letter mnemonic of an instruction, lower case; `undef` for the undefined
/// opcodes.
pub open spec fn mnemonic_of(instr: Instr) -> Seq<char> {
    match instr {
        Instr::Adc => "adc"@,
        Instr::And => "and"@,
        Instr::Asl => "asl"@,
        Instr::Bcc => "bcc"@,
        Instr::Bcs => "bcs"@,
        Instr::Beq => "beq"@,
        Instr::Bit => "bit"@,
        Instr::Bmi => "bmi"@,
        Instr::Bne => "bne"@,
        Instr::Bpl => "bpl"@,
        Instr::Brk => "brk"@,
        Instr::Bvc => "bvc"@,
        Instr::Bvs => "bvs"@,
        Instr::Clc => "clc"@,
        Instr::Cld => "cld"@,
        Instr::Cli => "cli"@,
        Instr::Clv => "clv"@,
        Instr::Cmp => "cmp"@,
        Instr::Cpx => "cpx"@,
        Instr::Cpy => "cpy"@,
        Instr::Dec => "dec"@,
        Instr::Dex => "dex"@,
        Instr::Dey => "dey"@,
        Instr::Eor => "eor"@,
        Instr::Inc => "inc"@,
        Instr::Inx => "inx"@,
        Instr::Iny => "iny"@,
        Instr::Jmp => "jmp"@,
        Instr::Jsr => "jsr"@,
        Instr::Lda => "lda"@,
        Instr::Ldx => "ldx"@,
        Instr::Ldy => "ldy"@,
        Instr::Lsr => "lsr"@,
        Instr::Nop => "nop"@,
        Instr::Ora => "ora"@,
        Instr::Pha => "pha"@,
        Instr::Php => "php"@,
        Instr::Pla => "pla"@,
        Instr::Plp => "plp"@,
        Instr::Rol => "rol"@,
        Instr::Ror => "ror"@,
        Instr::Rti => "rti"@,
        Instr::Rts => "rts"@,
        Instr::Sbc => "sbc"@,
        Instr::Sec => "sec"@,
        Instr::Sed => "sed"@,
        Instr::Sei => "sei"@,
        Instr::Sta => "sta"@,
        Instr::Stx => "stx"@,
        Instr::Sty => "sty"@,
        Instr::Tax => "tax"@,
        Instr::Tay => "tay"@,
        Instr::Tsx => "tsx"@,
        Instr::Txa => "txa"@,
        Instr::Txs => "txs"@,
        Instr::Tya => "tya"@,
        Instr::Undef => "undef"@,
    }
}

impl Instr {
    pub fn mnemonic(&self) -> (r: &'static str)
        ensures
            r@ == mnemonic_of(*self),
    {
        match self {
            Instr::Adc => "adc",
            Instr::And => "and",
            Instr::Asl => "asl",
            Instr::Bcc => "bcc",
            Instr::Bcs => "bcs",
            Instr::Beq => "beq",
            Instr::Bit => "bit",
            Instr::Bmi => "bmi",
            Instr::Bne => "bne",
            Instr::Bpl => "bpl",
            Instr::Brk => "brk",
            Instr::Bvc => "bvc",
            Instr::Bvs => "bvs",
            Instr::Clc => "clc",
            Instr::Cld => "cld",
            Instr::Cli => "cli",
            Instr::Clv => "clv",
            Instr::Cmp => "cmp",
            Instr::Cpx => "cpx",
            Instr::Cpy => "cpy",
            Instr::Dec => "dec",
            Instr::Dex => "dex",
            Instr::Dey => "dey",
            Instr::Eor => "eor",
            Instr::Inc => "inc",
            Instr::Inx => "inx",
            Instr::Iny => "iny",
            Instr::Jmp => "jmp",
            Instr::Jsr => "jsr",
            Instr::Lda => "lda",
            Instr::Ldx => "ldx",
            Instr::Ldy => "ldy",
            Instr::Lsr => "lsr",
            Instr::Nop => "nop",
            Instr::Ora => "ora",
            Instr::Pha => "pha",
            Instr::Php => "php",
            Instr::Pla => "pla",
            Instr::Plp => "plp",
            Instr::Rol => "rol",
            Instr::Ror => "ror",
            Instr::Rti => "rti",
            Instr::Rts => "rts",
            Instr::Sbc => "sbc",
            Instr::Sec => "sec",
            Instr::Sed => "sed",
            Instr::Sei => "sei",
            Instr::Sta => "sta",
            Instr::Stx => "stx",
            Instr::Sty => "sty",
            Instr::Tax => "tax",
            Instr::Tay => "tay",
            Instr::Tsx => "tsx",
            Instr::Txa => "txa",
            Instr::Txs => "txs",
            Instr::Tya => "tya",
            Instr::Undef => "undef",
        }
    }
}

} // verus!
