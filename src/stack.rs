use vstd::prelude::*;

use crate::emu::Emu;

verus! {

/// Writes `val` at the stack pointer, then moves the pointer down, wrapping within the page.
pub fn push_u8(emu: &mut Emu, val: u8)
    requires
        old(emu).wf(),
    ensures
        final(emu).wf(),
        final(emu)@ == old(emu)@.push(val),
        final(emu).stat == old(emu).stat,
{
    let addr = emu.cpu.stack_ptr();
    emu.mem.store_u8(addr, val);
    emu.cpu.s = emu.cpu.s.wrapping_sub(1);
}

/// Moves the stack pointer up, wrapping within the page, then reads the byte there.
pub fn pop_u8(emu: &mut Emu) -> (r: u8)
    requires
        old(emu).wf(),
    ensures
        final(emu).wf(),
        r == old(emu)@.top(),
        final(emu)@ == old(emu)@.popped(),
        final(emu).stat == old(emu).stat,
{
    emu.cpu.s = emu.cpu.s.wrapping_add(1);
    emu.mem.load_u8(emu.cpu.stack_ptr())
}

/// Pushes the high byte, then the low byte.
pub fn push_u16(emu: &mut Emu, val: u16)
    requires
        old(emu).wf(),
    ensures
        final(emu).wf(),
        final(emu)@ == old(emu)@.push16(val),
        final(emu).stat == old(emu).stat,
{
    push_u8(emu, (val / 256) as u8);
    push_u8(emu, (val % 256) as u8);
}

/// Pulls the low byte, then the high byte.
pub fn pop_u16(emu: &mut Emu) -> (r: u16)
    requires
        old(emu).wf(),
    ensures
        final(emu).wf(),
        r == old(emu)@.top16(),
        final(emu)@ == old(emu)@.popped16(),
        final(emu).stat == old(emu).stat,
{
    let l = pop_u8(emu);
    let h = pop_u8(emu);
    l as u16 + 256 * h as u16
}

} // verus!
