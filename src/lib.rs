// A cycle-counting emulator core for the 6502-family processor of an 8-bit console: the
// register file and flags, the mirrored address space, the slice of the picture unit that
// the processor reaches through the bus, the instruction set with its opcode table, and the
// engine that steps it. Every instruction's effect is stated over the `Machine` model in
// `isa` and proved.

use vstd::prelude::*;

pub mod addressing;
pub mod cpu;
pub mod emu;
pub mod flags;
pub mod isa;
pub mod mem;
pub mod ops;
pub mod ppu;
pub mod stack;
pub mod unofficial_ops;

verus! {

} // verus!
