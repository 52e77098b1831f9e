use vstd::prelude::*;

use crate::emu::Emu;
use crate::flags::FLAG_C;
use crate::flags::FLAG_V;

verus! {

/// AND with the operand into A; Carry copies bit 7 of the result.
pub fn aac(emu: &mut Emu, val: u8)
    ensures
        final(emu).cpu == (crate::cpu::Cpu { a: old(emu).cpu.a & val, ..old(emu).cpu }).with_flag(
            FLAG_C,
            old(emu).cpu.a & val >= 0x80,
        ).with_nz(old(emu).cpu.a & val),
        final(emu).mem == old(emu).mem,
        final(emu).stat == old(emu).stat,
{
    emu.cpu.a = emu.cpu.a & val;
    emu.cpu.carry_flag(emu.cpu.a >= 0x80);
    emu.cpu.nz_flags(emu.cpu.a);
}

/// Stores A AND X at `addr`.
pub fn aax(emu: &mut Emu, addr: u16)
    requires
        old(emu).wf(),
    ensures
        final(emu).wf(),
        final(emu)@ == old(emu)@.store(addr, old(emu).cpu.a & old(emu).cpu.x).with_cpu(
            old(emu).cpu.with_nz(old(emu).cpu.a & old(emu).cpu.x),
        ),
        final(emu).stat == old(emu).stat,
{
    let r = emu.cpu.a & emu.cpu.x;
    emu.mem.store_u8(addr, r);
    emu.cpu.nz_flags(r);
}

/// Rotates A AND the operand right by one bit and sets the flags from the result: Carry
/// when bits 5 and 6 are both set, Overflow when exactly one of them is. A is unchanged.
pub fn arr(emu: &mut Emu, val: u8)
    ensures
        ({
            let t = old(emu).cpu.a & val;
            let r = (t / 2 + 128 * (t % 2)) as u8;
            let b5 = r & 0x20 != 0;
            let b6 = r & 0x40 != 0;
            final(emu).cpu == old(emu).cpu.with_flag(FLAG_C, b5 && b6).with_flag(
                FLAG_V,
                b5 != b6,
            ).with_nz(r)
        }),
        final(emu).mem == old(emu).mem,
        final(emu).stat == old(emu).stat,
{
    let t = emu.cpu.a & val;
    let r = t / 2 + 128 * (t % 2);
    let bit_5 = r & 0b0010_0000 != 0;
    let bit_6 = r & 0b0100_0000 != 0;
    emu.cpu.carry_flag(bit_5 && bit_6);
    emu.cpu.overflow_flag(bit_5 != bit_6);
    emu.cpu.nz_flags(r);
}

/// Shifts A AND the operand right by one bit and sets the flags from it; Carry copies bit 0
/// of A. A is unchanged.
pub fn asr(emu: &mut Emu, val: u8)
    ensures
        final(emu).cpu == old(emu).cpu.with_flag(FLAG_C, old(emu).cpu.a % 2 == 1).with_nz(
            (val & old(emu).cpu.a) / 2,
        ),
        final(emu).mem == old(emu).mem,
        final(emu).stat == old(emu).stat,
{
    let r = (val & emu.cpu.a) / 2;
    emu.cpu.carry_flag(emu.cpu.a % 2 == 1);
    emu.cpu.nz_flags(r);
}

/// Loads A AND the operand into X.
pub fn atx(emu: &mut Emu, val: u8)
    ensures
        final(emu).cpu == (crate::cpu::Cpu { x: old(emu).cpu.a & val, ..old(emu).cpu }).with_nz(
            old(emu).cpu.a & val,
        ),
        final(emu).mem == old(emu).mem,
        final(emu).stat == old(emu).stat,
{
    emu.cpu.x = emu.cpu.a & val;
    emu.cpu.nz_flags(emu.cpu.x);
}

} // verus!
