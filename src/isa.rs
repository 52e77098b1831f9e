use vstd::prelude::*;

use crate::cpu::signed;
use crate::cpu::Cpu;
use crate::flags::Flags;
use crate::flags::FLAG_A;
use crate::flags::FLAG_B;
use crate::flags::FLAG_C;
use crate::flags::FLAG_D;
use crate::flags::FLAG_I;
use crate::flags::FLAG_N;
use crate::flags::FLAG_V;
use crate::flags::FLAG_Z;
use crate::mem::MemView;

verus! {

/// Address of the pointer to the non-maskable interrupt handler.
pub const NMI_VECTOR: u16 = 0xfffa;

/// Address of the pointer to the reset handler.
pub const RESET_VECTOR: u16 = 0xfffc;

/// Address of the pointer to the interrupt and break handler.
pub const IRQ_VECTOR: u16 = 0xfffe;

/// The mnemonics of the instruction set, and one for the opcodes that it leaves undefined.
#[derive(Clone, Copy, Debug, PartialEq, Eq, Structural)]
pub enum Instr {
    Adc,
    And,
    Asl,
    Bcc,
    Bcs,
    Beq,
    Bit,
    Bmi,
    Bne,
    Bpl,
    Brk,
    Bvc,
    Bvs,
    Clc,
    Cld,
    Cli,
    Clv,
    Cmp,
    Cpx,
    Cpy,
    Dec,
    Dex,
    Dey,
    Eor,
    Inc,
    Inx,
    Iny,
    Jmp,
    Jsr,
    Lda,
    Ldx,
    Ldy,
    Lsr,
    Nop,
    Ora,
    Pha,
    Php,
    Pla,
    Plp,
    Rol,
    Ror,
    Rti,
    Rts,
    Sbc,
    Sec,
    Sed,
    Sei,
    Sta,
    Stx,
    Sty,
    Tax,
    Tay,
    Tsx,
    Txa,
    Txs,
    Tya,
    Undef,
}

/// Where an instruction finds its operand.
#[derive(Clone, Copy, Debug, PartialEq, Eq, Structural)]
pub enum Mode {
    Implied,
    Accumulator,
    Immediate,
    ZeroPage,
    ZeroPageX,
    ZeroPageY,
    Absolute,
    AbsoluteX,
    AbsoluteY,
    Indirect,
    IndirectX,
    IndirectY,
    Relative,
}

/// Encoded length of an instruction in this mode, opcode included.
pub open spec fn mode_len(mode: Mode) -> int {
    match mode {
        Mode::Implied | Mode::Accumulator => 1,
        Mode::Absolute | Mode::AbsoluteX | Mode::AbsoluteY | Mode::Indirect => 3,
        _ => 2,
    }
}

/// Instructions that only read their operand, and pay a cycle when indexing crosses a page.
pub open spec fn is_read(instr: Instr) -> bool {
    matches!(instr, Instr::Lda | Instr::Ldx | Instr::Ldy | Instr::And | Instr::Ora | Instr::Eor
        | Instr::Adc | Instr::Sbc | Instr::Cmp | Instr::Cpx | Instr::Cpy | Instr::Bit)
}

pub open spec fn is_branch(instr: Instr) -> bool {
    matches!(instr, Instr::Bcc | Instr::Bcs | Instr::Beq | Instr::Bne | Instr::Bmi | Instr::Bpl
        | Instr::Bvc | Instr::Bvs)
}

/// Read-modify-write instructions: shifts, rotates, increment and decrement of memory.
pub open spec fn is_rmw(instr: Instr) -> bool {
    matches!(instr, Instr::Asl | Instr::Lsr | Instr::Rol | Instr::Ror | Instr::Inc | Instr::Dec)
}

/// The result of a read-modify-write instruction on `v`, with carry-in `c`.
pub open spec fn rmw_value(instr: Instr, v: u8, c: u8) -> u8 {
    match instr {
        Instr::Asl => ((v % 128) * 2) as u8,
        Instr::Lsr => v / 2,
        Instr::Rol => ((v % 128) * 2 + c) as u8,
        Instr::Ror => (v / 2 + 128 * c) as u8,
        Instr::Inc => ((v + 1) % 256) as u8,
        _ => ((v + 255) % 256) as u8,
    }
}

/// The flags after a read-modify-write instruction on `v`: the bit shifted out becomes
/// Carry, and Zero and Negative follow the new value.
pub open spec fn rmw_flags(instr: Instr, f: Flags, v: u8) -> Flags {
    let f1 = match instr {
        Instr::Asl | Instr::Rol => f.with(FLAG_C, v >= 128),
        Instr::Lsr | Instr::Ror => f.with(FLAG_C, v % 2 == 1),
        _ => f,
    };
    f1.with_nz(rmw_value(instr, v, f.carry()))
}

impl Cpu {
    /// The registers after an instruction that reads the operand `v`.
    pub open spec fn read_op(self, instr: Instr, v: u8) -> Cpu {
        match instr {
            Instr::Lda => self.after_lda(v),
            Instr::Ldx => self.after_ldx(v),
            Instr::Ldy => self.after_ldy(v),
            Instr::And => self.after_and(v),
            Instr::Ora => self.after_ora(v),
            Instr::Eor => self.after_eor(v),
            Instr::Adc => self.after_adc(v),
            Instr::Sbc => self.after_sbc(v),
            Instr::Cmp => self.after_compare(self.a, v),
            Instr::Cpx => self.after_compare(self.x, v),
            Instr::Cpy => self.after_compare(self.y, v),
            _ => self.after_bit(v),
        }
    }

    /// The register that a store instruction writes out.
    pub open spec fn stored_reg(self, instr: Instr) -> u8 {
        match instr {
            Instr::Stx => self.x,
            Instr::Sty => self.y,
            _ => self.a,
        }
    }

    /// The registers after an instruction without operand.
    pub open spec fn implied_op(self, instr: Instr) -> Cpu {
        match instr {
            Instr::Tax => Cpu { x: self.a, ..self }.with_nz(self.a),
            Instr::Tay => Cpu { y: self.a, ..self }.with_nz(self.a),
            Instr::Tsx => Cpu { x: self.s, ..self }.with_nz(self.s),
            Instr::Txa => Cpu { a: self.x, ..self }.with_nz(self.x),
            Instr::Txs => Cpu { s: self.x, ..self },
            Instr::Tya => Cpu { a: self.y, ..self }.with_nz(self.y),
            Instr::Dex => Cpu { x: ((self.x + 255) % 256) as u8, ..self }.with_nz(
                ((self.x + 255) % 256) as u8,
            ),
            Instr::Dey => Cpu { y: ((self.y + 255) % 256) as u8, ..self }.with_nz(
                ((self.y + 255) % 256) as u8,
            ),
            Instr::Inx => Cpu { x: ((self.x + 1) % 256) as u8, ..self }.with_nz(
                ((self.x + 1) % 256) as u8,
            ),
            Instr::Iny => Cpu { y: ((self.y + 1) % 256) as u8, ..self }.with_nz(
                ((self.y + 1) % 256) as u8,
            ),
            Instr::Clc => self.with_flag(FLAG_C, false),
            Instr::Cld => self.with_flag(FLAG_D, false),
            Instr::Cli => self.with_flag(FLAG_I, false),
            Instr::Clv => self.with_flag(FLAG_V, false),
            Instr::Sec => self.with_flag(FLAG_C, true),
            Instr::Sed => self.with_flag(FLAG_D, true),
            Instr::Sei => self.with_flag(FLAG_I, true),
            _ => self,
        }
    }

    /// Whether a branch instruction's condition holds.
    pub open spec fn branch_taken(self, instr: Instr) -> bool {
        match instr {
            Instr::Bcc => !self.sp.has(FLAG_C),
            Instr::Bcs => self.sp.has(FLAG_C),
            Instr::Beq => self.sp.has(FLAG_Z),
            Instr::Bne => !self.sp.has(FLAG_Z),
            Instr::Bmi => self.sp.has(FLAG_N),
            Instr::Bpl => !self.sp.has(FLAG_N),
            Instr::Bvc => !self.sp.has(FLAG_V),
            _ => self.sp.has(FLAG_V),
        }
    }
}

/// The flag byte that a pull from the stack installs: Break clear, the reserved bit set.
pub open spec fn pulled_flags(v: u8) -> Flags {
    Flags { bits: v }.with(FLAG_A, true).with(FLAG_B, false)
}

/// The flag byte that BRK and PHP push: both reserved bits set.
pub open spec fn pushed_flags(f: Flags) -> u8 {
    f.with(FLAG_B, true).with(FLAG_A, true).bits
}

/// The whole machine state that instructions read and write.
pub ghost struct Machine {
    pub cpu: Cpu,
    pub mem: MemView,
}

impl Machine {
    pub open spec fn wf(self) -> bool {
        self.mem.wf()
    }

    pub open spec fn read(self, addr: u16) -> u8 {
        self.mem.load(addr)
    }

    pub open spec fn read16(self, addr: u16) -> u16 {
        self.mem.load16(addr)
    }

    /// The program counter moved on by `n`, modulo 65536.
    pub open spec fn pc_plus(self, n: int) -> u16 {
        ((self.cpu.pc + n) % 0x10000) as u16
    }

    pub open spec fn with_cpu(self, cpu: Cpu) -> Machine {
        Machine { cpu, ..self }
    }

    pub open spec fn with_pc(self, pc: u16) -> Machine {
        Machine { cpu: Cpu { pc, ..self.cpu }, ..self }
    }

    pub open spec fn advance(self, n: int) -> Machine {
        self.with_pc(self.pc_plus(n))
    }

    pub open spec fn store(self, addr: u16, v: u8) -> Machine {
        Machine { mem: self.mem.store(addr, v), ..self }
    }

    /// A little-endian pointer in the zero page; its high byte wraps within the page.
    pub open spec fn zp_word(self, p: u8) -> u16 {
        (self.read(p as u16) + 256 * self.read(((p + 1) % 256) as u16)) as u16
    }

    /// The address before indexing, in the indexed modes.
    pub open spec fn indexed_base(self, mode: Mode) -> u16 {
        match mode {
            Mode::IndirectY => self.zp_word(self.read(self.pc_plus(1))),
            _ => self.read16(self.pc_plus(1)),
        }
    }

    /// The effective address of the operand.
    pub open spec fn operand_addr(self, mode: Mode) -> u16 {
        let b = self.read(self.pc_plus(1));
        match mode {
            Mode::Immediate => self.pc_plus(1),
            Mode::ZeroPage => b as u16,
            Mode::ZeroPageX => ((b + self.cpu.x) % 256) as u16,
            Mode::ZeroPageY => ((b + self.cpu.y) % 256) as u16,
            Mode::Absolute => self.read16(self.pc_plus(1)),
            Mode::AbsoluteX => ((self.indexed_base(mode) + self.cpu.x) % 0x10000) as u16,
            Mode::AbsoluteY => ((self.indexed_base(mode) + self.cpu.y) % 0x10000) as u16,
            Mode::IndirectX => self.zp_word(((b + self.cpu.x) % 256) as u8),
            Mode::IndirectY => ((self.indexed_base(mode) + self.cpu.y) % 0x10000) as u16,
            Mode::Relative => self.pc_plus(2 + signed(b)),
            Mode::Indirect => {
                let p = self.read16(self.pc_plus(1));
                if p % 256 == 0xff {
                    (self.read(p) + 256 * self.read((p - 0xff) as u16)) as u16
                } else {
                    self.read16(p)
                }
            },
            _ => 0,
        }
    }

    /// Whether indexing moved the operand address onto another page.
    pub open spec fn page_crossed(self, mode: Mode) -> bool {
        match mode {
            Mode::AbsoluteX | Mode::AbsoluteY | Mode::IndirectY => self.indexed_base(mode) / 256
                != self.operand_addr(mode) / 256,
            _ => false,
        }
    }

    pub open spec fn operand(self, mode: Mode) -> u8 {
        self.read(self.operand_addr(mode))
    }

    /// The machine after pushing `v` on the stack.
    pub open spec fn push(self, v: u8) -> Machine {
        Machine {
            cpu: Cpu { s: ((self.cpu.s + 255) % 256) as u8, ..self.cpu },
            mem: self.mem.store(self.cpu.stack_addr(), v),
        }
    }

    /// High byte first, so that the low byte ends up at the lower address.
    pub open spec fn push16(self, v: u16) -> Machine {
        self.push((v / 256) as u8).push((v % 256) as u8)
    }

    /// The stack pointer after a pull.
    pub open spec fn popped(self) -> Machine {
        Machine { cpu: Cpu { s: ((self.cpu.s + 1) % 256) as u8, ..self.cpu }, ..self }
    }

    /// The byte that a pull returns.
    pub open spec fn top(self) -> u8 {
        self.read(self.popped().cpu.stack_addr())
    }

    /// The word that two pulls return, low byte first.
    pub open spec fn top16(self) -> u16 {
        (self.top() + 256 * self.popped().top()) as u16
    }

    pub open spec fn popped16(self) -> Machine {
        self.popped().popped()
    }

    /// A read-modify-write instruction applied to the accumulator.
    pub open spec fn rmw_acc(self, instr: Instr) -> Machine {
        let v = self.cpu.a;
        self.with_cpu(
            Cpu {
                a: rmw_value(instr, v, self.cpu.sp.carry()),
                sp: rmw_flags(instr, self.cpu.sp, v),
                ..self.cpu
            },
        )
    }

    /// A read-modify-write instruction applied to the byte at `addr`.
    pub open spec fn rmw_at(self, instr: Instr, addr: u16) -> Machine {
        let v = self.read(addr);
        self.store(addr, rmw_value(instr, v, self.cpu.sp.carry())).with_cpu(
            self.cpu.with_flags(rmw_flags(instr, self.cpu.sp, v)),
        )
    }

    /// The machine after an instruction that only reads its operand.
    pub open spec fn run_read(self, instr: Instr, mode: Mode) -> Machine {
        self.with_cpu(self.cpu.read_op(instr, self.operand(mode))).advance(mode_len(mode))
    }

    /// The machine after a read-modify-write instruction.
    pub open spec fn run_rmw(self, instr: Instr, mode: Mode) -> Machine {
        if mode == Mode::Accumulator {
            self.rmw_acc(instr).advance(mode_len(mode))
        } else {
            self.rmw_at(instr, self.operand_addr(mode)).advance(mode_len(mode))
        }
    }

    /// The machine after a branch instruction.
    pub open spec fn run_branch(self, instr: Instr) -> Machine {
        if self.cpu.branch_taken(instr) {
            self.with_pc(self.operand_addr(Mode::Relative))
        } else {
            self.advance(2)
        }
    }

    /// The machine after a store instruction.
    pub open spec fn run_store(self, instr: Instr, mode: Mode) -> Machine {
        self.store(self.operand_addr(mode), self.cpu.stored_reg(instr)).advance(mode_len(mode))
    }

    /// The machine after an instruction that works on the registers alone.
    pub open spec fn run_implied(self, instr: Instr) -> Machine {
        self.with_cpu(self.cpu.implied_op(instr)).advance(1)
    }

    pub open spec fn run_jsr(self) -> Machine {
        let target = self.operand_addr(Mode::Absolute);
        self.push16(self.pc_plus(2)).with_pc(target)
    }

    pub open spec fn run_rts(self) -> Machine {
        self.popped16().with_pc(((self.top16() + 1) % 0x10000) as u16)
    }

    pub open spec fn run_rti(self) -> Machine {
        let m = self.popped().with_cpu(self.popped().cpu.with_flags(pulled_flags(self.top())));
        m.popped16().with_pc(m.top16())
    }

    pub open spec fn run_brk(self) -> Machine {
        let m = self.push16(self.pc_plus(1)).push(pushed_flags(self.cpu.sp));
        m.with_cpu(m.cpu.with_flag(FLAG_I, true)).with_pc(m.read16(IRQ_VECTOR))
    }

    pub open spec fn run_pha(self) -> Machine {
        self.push(self.cpu.a).advance(1)
    }

    pub open spec fn run_php(self) -> Machine {
        self.push(pushed_flags(self.cpu.sp)).advance(1)
    }

    pub open spec fn run_pla(self) -> Machine {
        let m = self.popped();
        m.with_cpu(m.cpu.after_lda(self.top())).advance(1)
    }

    pub open spec fn run_plp(self) -> Machine {
        let m = self.popped();
        m.with_cpu(m.cpu.with_flags(pulled_flags(self.top()))).advance(1)
    }

    /// The machine after one instruction of kind `instr` in mode `mode`, the program
    /// counter included.
    #[verifier::opaque]
    pub open spec fn run(self, instr: Instr, mode: Mode) -> Machine {
        if is_read(instr) {
            self.run_read(instr, mode)
        } else if is_rmw(instr) {
            self.run_rmw(instr, mode)
        } else if is_branch(instr) {
            self.run_branch(instr)
        } else {
            match instr {
                Instr::Sta | Instr::Stx | Instr::Sty => self.run_store(instr, mode),
                Instr::Jmp => self.with_pc(self.operand_addr(mode)),
                Instr::Jsr => self.run_jsr(),
                Instr::Rts => self.run_rts(),
                Instr::Rti => self.run_rti(),
                Instr::Brk => self.run_brk(),
                Instr::Pha => self.run_pha(),
                Instr::Php => self.run_php(),
                Instr::Pla => self.run_pla(),
                Instr::Plp => self.run_plp(),
                _ => self.run_implied(instr),
            }
        }
    }

    /// Cycles beyond the base count: a taken branch pays one, and one more when it lands on
    /// another page; a read through an indexed mode pays one when indexing crosses a page.
    pub open spec fn penalty(self, instr: Instr, mode: Mode) -> int {
        if is_branch(instr) {
            if !self.cpu.branch_taken(instr) {
                0
            } else if self.pc_plus(2) / 256 == self.operand_addr(Mode::Relative) / 256 {
                1
            } else {
                2
            }
        } else if is_read(instr) && self.page_crossed(mode) {
            1
        } else {
            0
        }
    }
}

pub proof fn lemma_run_read(m: Machine, instr: Instr, mode: Mode)
    requires
        is_read(instr),
    ensures
        m.run(instr, mode) == m.run_read(instr, mode),
{
    reveal(Machine::run);
}

pub proof fn lemma_run_rmw(m: Machine, instr: Instr, mode: Mode)
    requires
        is_rmw(instr),
    ensures
        m.run(instr, mode) == m.run_rmw(instr, mode),
{
    reveal(Machine::run);
}

pub proof fn lemma_run_branch(m: Machine, instr: Instr, mode: Mode)
    requires
        is_branch(instr),
    ensures
        m.run(instr, mode) == m.run_branch(instr),
{
    reveal(Machine::run);
}

pub proof fn lemma_run_store(m: Machine, instr: Instr, mode: Mode)
    requires
        instr == Instr::Sta || instr == Instr::Stx || instr == Instr::Sty,
    ensures
        m.run(instr, mode) == m.run_store(instr, mode),
{
    reveal(Machine::run);
}

/// True of the instructions that work on the registers alone.
pub open spec fn is_register_op(instr: Instr) -> bool {
    matches!(instr, Instr::Tax | Instr::Tay | Instr::Tsx | Instr::Txa | Instr::Txs | Instr::Tya
        | Instr::Dex | Instr::Dey | Instr::Inx | Instr::Iny | Instr::Clc | Instr::Cld | Instr::Cli
        | Instr::Clv | Instr::Sec | Instr::Sed | Instr::Sei | Instr::Nop | Instr::Undef)
}

pub proof fn lemma_run_implied(m: Machine, instr: Instr, mode: Mode)
    requires
        is_register_op(instr),
    ensures
        m.run(instr, mode) == m.run_implied(instr),
{
    reveal(Machine::run);
}

pub proof fn lemma_run_jmp(m: Machine, mode: Mode)
    ensures
        m.run(Instr::Jmp, mode) == m.with_pc(m.operand_addr(mode)),
{
    reveal(Machine::run);
}

pub proof fn lemma_run_jsr(m: Machine, mode: Mode)
    ensures
        m.run(Instr::Jsr, mode) == m.run_jsr(),
{
    reveal(Machine::run);
}

pub proof fn lemma_run_rts(m: Machine, mode: Mode)
    ensures
        m.run(Instr::Rts, mode) == m.run_rts(),
{
    reveal(Machine::run);
}

pub proof fn lemma_run_rti(m: Machine, mode: Mode)
    ensures
        m.run(Instr::Rti, mode) == m.run_rti(),
{
    reveal(Machine::run);
}

pub proof fn lemma_run_brk(m: Machine, mode: Mode)
    ensures
        m.run(Instr::Brk, mode) == m.run_brk(),
{
    reveal(Machine::run);
}

pub proof fn lemma_run_pha(m: Machine, mode: Mode)
    ensures
        m.run(Instr::Pha, mode) == m.run_pha(),
{
    reveal(Machine::run);
}

pub proof fn lemma_run_php(m: Machine, mode: Mode)
    ensures
        m.run(Instr::Php, mode) == m.run_php(),
{
    reveal(Machine::run);
}

pub proof fn lemma_run_pla(m: Machine, mode: Mode)
    ensures
        m.run(Instr::Pla, mode) == m.run_pla(),
{
    reveal(Machine::run);
}

pub proof fn lemma_run_plp(m: Machine, mode: Mode)
    ensures
        m.run(Instr::Plp, mode) == m.run_plp(),
{
    reveal(Machine::run);
}

} // verus!
