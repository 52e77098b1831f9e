use vstd::prelude::*;

use crate::flags::lemma_with;
use crate::flags::Flags;
use crate::flags::FLAG_C;
use crate::flags::FLAG_D;
use crate::flags::FLAG_I;
use crate::flags::FLAG_N;
use crate::flags::FLAG_V;
use crate::flags::FLAG_Z;

verus! {

/// Base of the stack page.
pub const STACK_BASE: u16 = 0x0100;

/// The value of a byte read as a two's-complement number.
pub open spec fn signed(b: u8) -> int {
    if b < 128 {
        b as int
    } else {
        b - 256
    }
}

/// The 8-bit sum of `a`, `v` and a carry-in `c`.
pub open spec fn adc_sum(a: u8, v: u8, c: u8) -> u8 {
    ((a + v + c) % 256) as u8
}

/// Carry out of an 8-bit addition: the unsigned sum does not fit in 8 bits.
pub open spec fn adc_carry(a: u8, v: u8, c: u8) -> bool {
    a + v + c > 255
}

/// Signed overflow of an 8-bit addition: the sum of the operands read as two's-complement
/// numbers, plus the carry, lies outside `-128..=127`.
pub open spec fn adc_overflow(a: u8, v: u8, c: u8) -> bool {
    !(-128 <= signed(a) + signed(v) + c <= 127)
}

/// The register file.
#[derive(Clone, Copy, Debug, PartialEq, Eq, Structural)]
pub struct Cpu {
    pub pc: u16,
    /// The status register.
    pub sp: Flags,
    pub a: u8,
    pub x: u8,
    pub y: u8,
    /// The stack pointer: an offset into the stack page.
    pub s: u8,
}

impl Default for Cpu {
    fn default() -> (r: Cpu)
        ensures
            r == Cpu::power_on(),
    {
        Cpu { pc: 0x00, sp: Flags::from_bits_truncate(0x24), a: 0x00, x: 0x00, y: 0x00, s: 0xfd }
    }
}

impl Cpu {
    /// Registers at power-on: interrupts disabled, the reserved bit set, the stack pointer at
    /// `0xfd`.
    pub open spec fn power_on() -> Cpu {
        Cpu { pc: 0, sp: Flags { bits: 0x24 }, a: 0, x: 0, y: 0, s: 0xfd }
    }

    pub open spec fn with_flags(self, f: Flags) -> Cpu {
        Cpu { sp: f, ..self }
    }

    pub open spec fn with_nz(self, v: u8) -> Cpu {
        self.with_flags(self.sp.with_nz(v))
    }

    pub open spec fn with_flag(self, mask: u8, on: bool) -> Cpu {
        self.with_flags(self.sp.with(mask, on))
    }

    /// Address of the next free stack slot.
    pub open spec fn stack_addr(self) -> u16 {
        (STACK_BASE + self.s) as u16
    }

    pub open spec fn after_lda(self, v: u8) -> Cpu {
        Cpu { a: v, ..self }.with_nz(v)
    }

    pub open spec fn after_ldx(self, v: u8) -> Cpu {
        Cpu { x: v, ..self }.with_nz(v)
    }

    pub open spec fn after_ldy(self, v: u8) -> Cpu {
        Cpu { y: v, ..self }.with_nz(v)
    }

    pub open spec fn after_and(self, v: u8) -> Cpu {
        self.after_lda(self.a & v)
    }

    pub open spec fn after_ora(self, v: u8) -> Cpu {
        self.after_lda(self.a | v)
    }

    pub open spec fn after_eor(self, v: u8) -> Cpu {
        self.after_lda(self.a ^ v)
    }

    /// Add with carry: Overflow from the signed sum, Carry from the unsigned one.
    pub open spec fn after_adc(self, v: u8) -> Cpu {
        let c = self.sp.carry();
        let r = adc_sum(self.a, v, c);
        Cpu {
            a: r,
            sp: self.sp.with(FLAG_V, adc_overflow(self.a, v, c)).with(
                FLAG_C,
                adc_carry(self.a, v, c),
            ).with_nz(r),
            ..self
        }
    }

    /// Subtract with carry: addition of the one's complement of the operand.
    pub open spec fn after_sbc(self, v: u8) -> Cpu {
        self.after_adc((255 - v) as u8)
    }

    /// Compare `reg` with `v`: Carry when `reg >= v`, Zero and Negative from the difference.
    pub open spec fn after_compare(self, reg: u8, v: u8) -> Cpu {
        self.with_flag(FLAG_C, reg >= v).with_nz(((reg - v + 256) % 256) as u8)
    }

    pub open spec fn after_bit(self, v: u8) -> Cpu {
        self.with_flag(FLAG_V, v & 0x40 != 0).with_flag(FLAG_N, v & 0x80 != 0).with_flag(
            FLAG_Z,
            v & self.a == 0,
        )
    }

    pub fn nz_flags(&mut self, val: u8)
        ensures
            *final(self) == old(self).with_nz(val),
    {
        self.sp.apply_nz(val);
    }

    pub fn carry_flag(&mut self, val: bool)
        ensures
            *final(self) == old(self).with_flag(FLAG_C, val),
    {
        self.sp.set(FLAG_C, val);
    }

    pub fn overflow_flag(&mut self, val: bool)
        ensures
            *final(self) == old(self).with_flag(FLAG_V, val),
    {
        self.sp.set(FLAG_V, val);
    }

    pub fn decimal_flag(&mut self, val: bool)
        ensures
            *final(self) == old(self).with_flag(FLAG_D, val),
    {
        self.sp.set(FLAG_D, val);
    }

    pub fn interrupt_flag(&mut self, val: bool)
        ensures
            *final(self) == old(self).with_flag(FLAG_I, val),
    {
        self.sp.set(FLAG_I, val);
    }

    pub fn negative_flag(&mut self, val: bool)
        ensures
            *final(self) == old(self).with_flag(FLAG_N, val),
    {
        self.sp.set(FLAG_N, val);
    }

    pub fn zero_flag(&mut self, val: bool)
        ensures
            *final(self) == old(self).with_flag(FLAG_Z, val),
    {
        self.sp.set(FLAG_Z, val);
    }

    pub fn stack_ptr(&self) -> (r: u16)
        ensures
            r == self.stack_addr(),
            0x100 <= r < 0x200,
    {
        self.s as u16 + STACK_BASE
    }
}

/// The overflow rule of the hardware, on bits: the result's sign differs from the sign of
/// both operands. It agrees with signed overflow of the sum.
pub proof fn lemma_overflow_bits(a: u8, v: u8, c: u8)
    requires
        c <= 1,
    ensures
        ((v ^ adc_sum(a, v, c)) & (a ^ adc_sum(a, v, c)) & 0x80 != 0) == adc_overflow(a, v, c),
{
    let r = adc_sum(a, v, c);
    assert(r == (a + v + c) % 256);
    assert(((v ^ r) & (a ^ r) & 0x80 != 0) == ((a < 128 && v < 128 && r >= 128) || (a >= 128
        && v >= 128 && r < 128))) by (bit_vector);
    assert(a + v + c <= 511);
}

/// Add with carry, for every accumulator `a`, operand `v` and carry-in `c`: the result is
/// `a + v + c` modulo 256, Carry is set exactly when that sum exceeds 255, and Overflow
/// exactly when the signed sum leaves `-128..=127`, which is when the result's sign differs
/// from the sign of both operands. Subtract with carry gives `a - v - (1 - c)` modulo 256,
/// Carry exactly when that difference is not negative, and Overflow exactly when the signed
/// difference leaves `-128..=127`.
pub proof fn law_add_with_carry(cpu: Cpu, v: u8)
    ensures
        ({
            let (a, c, r) = (cpu.a, cpu.sp.carry(), cpu.after_adc(v));
            &&& r.a == (a + v + c) % 256
            &&& r.sp.has(FLAG_C) == (a + v + c > 255)
            &&& r.sp.has(FLAG_V) == !(-128 <= signed(a) + signed(v) + c <= 127)
            &&& r.sp.has(FLAG_V) == ((v ^ r.a) & (a ^ r.a) & 0x80 != 0)
        }),
        ({
            let (a, c, r) = (cpu.a, cpu.sp.carry(), cpu.after_sbc(v));
            &&& r.a == (a - v - (1 - c) + 256) % 256
            &&& r.sp.has(FLAG_C) == (a - v - (1 - c) >= 0)
            &&& r.sp.has(FLAG_V) == !(-128 <= signed(a) - signed(v) - (1 - c) <= 127)
        }),
{
    lemma_adc_flags(cpu, v);
    lemma_adc_flags(cpu, (255 - v) as u8);
    lemma_overflow_bits(cpu.a, v, cpu.sp.carry());
}

/// Carry and Overflow read back as `after_adc` set them.
proof fn lemma_adc_flags(cpu: Cpu, v: u8)
    ensures
        cpu.after_adc(v).sp.has(FLAG_C) == adc_carry(cpu.a, v, cpu.sp.carry()),
        cpu.after_adc(v).sp.has(FLAG_V) == adc_overflow(cpu.a, v, cpu.sp.carry()),
{
    let c = cpu.sp.carry();
    let r = adc_sum(cpu.a, v, c);
    let f1 = cpu.sp.with(FLAG_V, adc_overflow(cpu.a, v, c));
    let f2 = f1.with(FLAG_C, adc_carry(cpu.a, v, c));
    let f3 = f2.with(FLAG_N, r >= 0x80);
    lemma_with(cpu.sp, FLAG_V, adc_overflow(cpu.a, v, c), FLAG_V);
    lemma_with(f1, FLAG_C, adc_carry(cpu.a, v, c), FLAG_V);
    lemma_with(f1, FLAG_C, adc_carry(cpu.a, v, c), FLAG_C);
    lemma_with(f2, FLAG_N, r >= 0x80, FLAG_V);
    lemma_with(f2, FLAG_N, r >= 0x80, FLAG_C);
    lemma_with(f3, FLAG_Z, r == 0, FLAG_V);
    lemma_with(f3, FLAG_Z, r == 0, FLAG_C);
}

} // verus!
