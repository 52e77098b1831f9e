use vstd::prelude::*;

use crate::emu::Emu;
use crate::isa::Mode;

verus! {

/// The operand is the byte after the opcode.
pub fn immediate(emu: &Emu) -> (r: u16)
    requires
        emu.wf(),
    ensures
        r == emu@.operand_addr(Mode::Immediate),
{
    emu.cpu.pc.wrapping_add(1)
}

pub fn zeropage(emu: &Emu) -> (r: u16)
    requires
        emu.wf(),
    ensures
        r == emu@.operand_addr(Mode::ZeroPage),
{
    emu.mem.load_u8(emu.cpu.pc.wrapping_add(1)) as u16
}

/// Zero-page address plus X, wrapping within the zero page.
pub fn zeropage_x(emu: &Emu) -> (r: u16)
    requires
        emu.wf(),
    ensures
        r == emu@.operand_addr(Mode::ZeroPageX),
{
    emu.mem.load_u8(emu.cpu.pc.wrapping_add(1)).wrapping_add(emu.cpu.x) as u16
}

/// Zero-page address plus Y, wrapping within the zero page.
pub fn zeropage_y(emu: &Emu) -> (r: u16)
    requires
        emu.wf(),
    ensures
        r == emu@.operand_addr(Mode::ZeroPageY),
{
    emu.mem.load_u8(emu.cpu.pc.wrapping_add(1)).wrapping_add(emu.cpu.y) as u16
}

pub fn absolute(emu: &Emu) -> (r: u16)
    requires
        emu.wf(),
    ensures
        r == emu@.operand_addr(Mode::Absolute),
{
    emu.mem.load_u16(emu.cpu.pc.wrapping_add(1))
}

/// Absolute address plus X, and whether the sum lies on another page.
pub fn absolute_x(emu: &Emu) -> (r: (u16, bool))
    requires
        emu.wf(),
    ensures
        r.0 == emu@.operand_addr(Mode::AbsoluteX),
        r.1 == emu@.page_crossed(Mode::AbsoluteX),
{
    let base = emu.mem.load_u16(emu.cpu.pc.wrapping_add(1));
    let r = base.wrapping_add(emu.cpu.x as u16);
    (r, base / 256 != r / 256)
}

/// Absolute address plus Y, and whether the sum lies on another page.
pub fn absolute_y(emu: &Emu) -> (r: (u16, bool))
    requires
        emu.wf(),
    ensures
        r.0 == emu@.operand_addr(Mode::AbsoluteY),
        r.1 == emu@.page_crossed(Mode::AbsoluteY),
{
    let base = emu.mem.load_u16(emu.cpu.pc.wrapping_add(1));
    let r = base.wrapping_add(emu.cpu.y as u16);
    (r, base / 256 != r / 256)
}

/// Reads a little-endian pointer from the zero page, wrapping within it.
fn zeropage_word(emu: &Emu, p: u8) -> (r: u16)
    requires
        emu.wf(),
    ensures
        r == emu@.zp_word(p),
{
    let lo = emu.mem.load_u8(p as u16);
    let hi = emu.mem.load_u8(p.wrapping_add(1) as u16);
    lo as u16 + 256 * hi as u16
}

/// The pointer at (zero-page address plus X).
pub fn indirect_x(emu: &Emu) -> (r: u16)
    requires
        emu.wf(),
    ensures
        r == emu@.operand_addr(Mode::IndirectX),
{
    let p = emu.mem.load_u8(emu.cpu.pc.wrapping_add(1)).wrapping_add(emu.cpu.x);
    zeropage_word(emu, p)
}

/// The pointer at a zero-page address, plus Y, and whether the sum lies on another page.
pub fn indirect_y(emu: &Emu) -> (r: (u16, bool))
    requires
        emu.wf(),
    ensures
        r.0 == emu@.operand_addr(Mode::IndirectY),
        r.1 == emu@.page_crossed(Mode::IndirectY),
{
    let p = emu.mem.load_u8(emu.cpu.pc.wrapping_add(1));
    let base = zeropage_word(emu, p);
    let r = base.wrapping_add(emu.cpu.y as u16);
    (r, base / 256 != r / 256)
}

/// The branch target: the address after the two-byte branch plus the signed displacement.
pub fn relative(emu: &Emu) -> (r: u16)
    requires
        emu.wf(),
    ensures
        r == emu@.operand_addr(Mode::Relative),
{
    let d = emu.mem.load_u8(emu.cpu.pc.wrapping_add(1));
    let next = emu.cpu.pc.wrapping_add(2);
    if d < 128 {
        next.wrapping_add(d as u16)
    } else {
        next.wrapping_sub(256 - d as u16)
    }
}

/// The jump target through a pointer. When the pointer's low byte is `0xff` the high byte of
/// the target comes from the start of the same page, as on the hardware.
pub fn indirect(emu: &Emu) -> (r: u16)
    requires
        emu.wf(),
    ensures
        r == emu@.operand_addr(Mode::Indirect),
{
    let p = emu.mem.load_u16(emu.cpu.pc.wrapping_add(1));
    if p % 256 == 0xff {
        let l = emu.mem.load_u8(p);
        let h = emu.mem.load_u8(p - 0xff);
        l as u16 + 256 * h as u16
    } else {
        emu.mem.load_u16(p)
    }
}

} // verus!
