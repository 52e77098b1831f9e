use vstd::prelude::*;

verus! {

/// Negative: bit 7 of the last result.
pub const FLAG_N: u8 = 0b1000_0000;

/// Signed overflow of the last addition or subtraction.
pub const FLAG_V: u8 = 0b0100_0000;

/// Reserved bit that reads back as one.
pub const FLAG_A: u8 = 0b0010_0000;

/// Break bit: only meaningful in a copy of the register pushed on the stack.
pub const FLAG_B: u8 = 0b0001_0000;

/// Decimal mode.
pub const FLAG_D: u8 = 0b0000_1000;

/// Interrupt disable.
pub const FLAG_I: u8 = 0b0000_0100;

/// Zero: the last result was zero.
pub const FLAG_Z: u8 = 0b0000_0010;

/// Carry out of bit 7 (or no borrow, for subtraction and compare).
pub const FLAG_C: u8 = 0b0000_0001;

/// The bits that instructions read and write: every bit but the two reserved ones.
pub const USER_FLAGS: u8 = 0b1100_1111;

/// True of the eight single-bit masks of the status register.
pub open spec fn is_flag_mask(mask: u8) -> bool {
    mask == FLAG_N || mask == FLAG_V || mask == FLAG_A || mask == FLAG_B || mask == FLAG_D
        || mask == FLAG_I || mask == FLAG_Z || mask == FLAG_C
}

/// The processor status register as an 8-bit mask.
#[derive(Clone, Copy, Debug, PartialEq, Eq, Structural)]
pub struct Flags {
    pub bits: u8,
}

impl Flags {
    /// Whether any bit of `mask` is set.
    pub open spec fn has(self, mask: u8) -> bool {
        self.bits & mask != 0
    }

    /// The register with the bits of `mask` set to `on`.
    pub open spec fn with(self, mask: u8, on: bool) -> Flags {
        Flags { bits: if on { self.bits | mask } else { self.bits & !mask } }
    }

    /// Zero and Negative as they stand after a result `v`.
    pub open spec fn with_nz(self, v: u8) -> Flags {
        self.with(FLAG_N, v >= 0x80).with(FLAG_Z, v == 0)
    }

    /// 1 when Carry is set, else 0.
    pub open spec fn carry(self) -> u8 {
        if self.has(FLAG_C) {
            1
        } else {
            0
        }
    }

    pub fn from_bits_truncate(bits: u8) -> (r: Flags)
        ensures
            r.bits == bits,
    {
        Flags { bits }
    }

    pub fn bits(&self) -> (r: u8)
        ensures
            r == self.bits,
    {
        self.bits
    }

    pub fn contains(&self, mask: u8) -> (r: bool)
        ensures
            r == self.has(mask),
    {
        self.bits & mask != 0
    }

    pub fn set(&mut self, mask: u8, on: bool)
        ensures
            *final(self) == old(self).with(mask, on),
    {
        if on {
            self.bits = self.bits | mask;
        } else {
            self.bits = self.bits & !mask;
        }
    }

    /// Sets Zero when `v` is zero and Negative when bit 7 of `v` is set.
    pub fn apply_nz(&mut self, v: u8)
        ensures
            *final(self) == old(self).with_nz(v),
    {
        self.set(FLAG_N, v >= 0x80);
        self.set(FLAG_Z, v == 0);
    }

    pub fn carry_bit(&self) -> (r: u8)
        ensures
            r == self.carry(),
    {
        if self.bits & FLAG_C != 0 {
            1
        } else {
            0
        }
    }
}

/// Setting or clearing one flag makes that flag read back as set or clear, and leaves every
/// other flag as it was.
pub proof fn lemma_with(f: Flags, mask: u8, on: bool, other: u8)
    requires
        is_flag_mask(mask),
        is_flag_mask(other),
    ensures
        f.with(mask, on).has(mask) == on,
        other != mask ==> f.with(mask, on).has(other) == f.has(other),
{
    let b = f.bits;
    assert(((b | mask) & mask != 0) && ((b & !mask) & mask == 0)) by (bit_vector)
        requires
            mask == 0x80u8 || mask == 0x40u8 || mask == 0x20u8 || mask == 0x10u8 || mask == 0x08u8
                || mask == 0x04u8 || mask == 0x02u8 || mask == 0x01u8,
    ;
    assert(other != mask ==> (((b | mask) & other != 0) == (b & other != 0)) && (((b & !mask)
        & other != 0) == (b & other != 0))) by (bit_vector)
        requires
            mask == 0x80u8 || mask == 0x40u8 || mask == 0x20u8 || mask == 0x10u8 || mask == 0x08u8
                || mask == 0x04u8 || mask == 0x02u8 || mask == 0x01u8,
            other == 0x80u8 || other == 0x40u8 || other == 0x20u8 || other == 0x10u8 || other
                == 0x08u8 || other == 0x04u8 || other == 0x02u8 || other == 0x01u8,
    ;
}

/// After `apply_nz(v)` Zero is set exactly when `v` is zero, Negative exactly when bit 7 of `v`
/// is set, and the other six bits are unchanged.
pub proof fn law_apply_nz(f: Flags, v: u8)
    ensures
        f.with_nz(v).has(FLAG_Z) == (v == 0),
        f.with_nz(v).has(FLAG_N) == (v & 0x80 != 0),
        f.with_nz(v).bits & !(FLAG_N | FLAG_Z) == f.bits & !(FLAG_N | FLAG_Z),
{
    lemma_with(f, FLAG_N, v >= 0x80, FLAG_Z);
    lemma_with(f.with(FLAG_N, v >= 0x80), FLAG_Z, v == 0, FLAG_N);
    assert((v >= 0x80) == (v & 0x80 != 0)) by (bit_vector);
    let b = f.bits;
    let n = v >= 0x80;
    let z = v == 0;
    assert({
        let b1 = if n { b | 0x80u8 } else { b & !0x80u8 };
        let b2 = if z { b1 | 0x02u8 } else { b1 & !0x02u8 };
        b2 & !(0x80u8 | 0x02u8) == b & !(0x80u8 | 0x02u8)
    }) by (bit_vector);
}

} // verus!
