use vstd::prelude::*;

use crate::cpu::Cpu;
use crate::flags::FLAG_A;
use crate::flags::FLAG_B;
use crate::flags::FLAG_I;
use crate::flags::USER_FLAGS;
use crate::isa::is_branch;
use crate::isa::lemma_run_branch;
use crate::isa::lemma_run_jmp;
use crate::isa::lemma_run_php;
use crate::isa::lemma_run_plp;
use crate::isa::pushed_flags;
use crate::isa::Instr;
use crate::isa::Machine;
use crate::isa::Mode;
use crate::isa::NMI_VECTOR;
use crate::isa::RESET_VECTOR;
use crate::mem::lemma_store_load;
use crate::mem::EmuError;
use crate::mem::Mem;
use crate::mem::MemView;
use crate::mem::Rom;
use crate::mem::RAM_SIZE;
use crate::ops::decode;
use crate::ops::execute;
use crate::ops::op_info;
use crate::stack;

verus! {

/// The most cycles that one instruction can take, penalties included.
pub const MAX_INSTRUCTION_CYCLES: u64 = 9;

/// Where the small teaching machine loads its programs.
pub const EASY_PROGRAM_START: u16 = 0x0600;

/// Clock cycles that the teaching machine runs per frame.
pub const EASY_CLOCKS_PER_FRAME: u32 = 256;

/// Where the teaching machine's programs find a fresh random byte each frame.
pub const EASY_RANDOM_ADDR: u16 = 0x00fe;

/// Where the teaching machine's programs find the last key pressed.
pub const EASY_KEY_ADDR: u16 = 0x00ff;

impl Machine {
    /// The opcode at the program counter.
    pub open spec fn opcode(self) -> u8 {
        self.read(self.cpu.pc)
    }

    /// The machine after the instruction at the program counter.
    pub open spec fn step(self) -> Machine {
        self.run(decode(self.opcode()).instr, decode(self.opcode()).mode)
    }

    /// The cycles that the instruction at the program counter costs.
    pub open spec fn step_cycles(self) -> int {
        decode(self.opcode()).cycles + self.penalty(decode(self.opcode()).instr, decode(self.opcode()).mode)
    }

    /// The machine after `n` instructions.
    pub open spec fn steps(self, n: nat) -> Machine
        decreases n,
    {
        if n == 0 {
            self
        } else {
            self.steps((n - 1) as nat).step()
        }
    }

    /// The cycles that the next `n` instructions cost together.
    pub open spec fn steps_cycles(self, n: nat) -> int
        decreases n,
    {
        if n == 0 {
            0
        } else {
            self.steps_cycles((n - 1) as nat) + self.steps((n - 1) as nat).step_cycles()
        }
    }

    /// The teaching machine at the start of a frame: the random byte and, if a key was
    /// pressed, its code are in place.
    pub open spec fn easy_frame_start(self, random: u8, key: Option<u8>) -> Machine {
        let m = self.store(EASY_RANDOM_ADDR, random);
        match key {
            Some(k) => m.store(EASY_KEY_ADDR, k),
            None => m,
        }
    }

    /// Entry into an interrupt handler: the program counter and the flags, Break clear, go on
    /// the stack, interrupts are disabled, and the handler's address comes from `vector`.
    pub open spec fn interrupt(self, vector: u16) -> Machine {
        let m = self.push16(self.cpu.pc).push(self.cpu.sp.with(FLAG_B, false).with(FLAG_A, true).bits);
        m.with_cpu(m.cpu.with_flag(FLAG_I, true)).with_pc(m.read16(vector))
    }
}

/// The register state before an instruction, with the opcode and the cycle count: one line
/// of a trace.
#[derive(Clone, Copy, Debug, PartialEq, Eq, Structural)]
pub struct Snapshot {
    pub pc: u16,
    pub opcode: u8,
    pub a: u8,
    pub x: u8,
    pub y: u8,
    pub p: u8,
    pub s: u8,
    pub cycles: u64,
}

/// The snapshot of machine `m` with cycle count `cycles`.
pub open spec fn snapshot_of(m: Machine, cycles: int) -> Snapshot {
    Snapshot {
        pc: m.cpu.pc,
        opcode: m.opcode(),
        a: m.cpu.a,
        x: m.cpu.x,
        y: m.cpu.y,
        p: m.cpu.sp.bits,
        s: m.cpu.s,
        cycles: cycles as u64,
    }
}

/// The colour, as red, green, blue, alpha, of a screen byte of the small teaching machine.
pub open spec fn easy_color(c: u8) -> Seq<u8> {
    if c == 0 {
        seq![0x00u8, 0x00, 0x00, 0xff]
    } else if c == 1 {
        seq![0xffu8, 0xff, 0xff, 0xff]
    } else if c == 2 || c == 6 || c == 10 || c == 14 {
        seq![0x00u8, 0x00, 0xff, 0xff]
    } else if c == 3 || c == 7 || c == 11 || c == 15 {
        seq![0xffu8, 0x00, 0x00, 0xff]
    } else if c == 4 || c == 8 || c == 12 {
        seq![0x00u8, 0xff, 0x00, 0xff]
    } else if c == 5 || c == 9 || c == 13 {
        seq![0xccu8, 0xcc, 0x20, 0xff]
    } else {
        seq![0xffu8, 0x00, 0xff, 0xff]
    }
}

/// Counters kept beside the machine state.
#[derive(Clone, Copy, Debug, PartialEq, Eq, Structural)]
pub struct Stat {
    pub cycle_counter: u64,
    pub frame_counter: u32,
    /// Where the last undefined opcode was met, if one was.
    pub last_undefined: Option<u16>,
}

impl Stat {
    pub fn new() -> (r: Stat)
        ensures
            r.cycle_counter == 0,
            r.frame_counter == 0,
            r.last_undefined is None,
    {
        Stat { cycle_counter: 0, frame_counter: 0, last_undefined: None }
    }
}

/// One emulated machine: registers, address space and counters, owned together.
pub struct Emu {
    pub stat: Stat,
    pub cpu: Cpu,
    pub mem: Mem,
}

impl View for Emu {
    type V = Machine;

    open spec fn view(&self) -> Machine {
        Machine { cpu: self.cpu, mem: self.mem@ }
    }
}

impl Default for Emu {
    fn default() -> (r: Emu)
        ensures
            r.wf(),
            r.cpu == Cpu::power_on(),
            r.stat == (Stat { cycle_counter: 0, frame_counter: 0, last_undefined: None }),
    {
        Emu::new()
    }
}

impl Emu {
    pub open spec fn wf(&self) -> bool {
        self.mem.wf()
    }

    /// A machine at power-on with zeroed RAM and a blank cartridge.
    pub fn new() -> (r: Emu)
        ensures
            r.wf(),
            r.cpu == Cpu::power_on(),
            r.stat == (Stat { cycle_counter: 0, frame_counter: 0, last_undefined: None }),
    {
        Emu { stat: Stat::new(), cpu: Cpu::default(), mem: Mem::new() }
    }

    /// Installs a cartridge; fails with `InvalidRomSize`, changing nothing, unless its
    /// program ROM is 16 KiB or 32 KiB long.
    pub fn load(&mut self, rom: Rom) -> (r: Result<(), EmuError>)
        requires
            old(self).wf(),
        ensures
            final(self).wf(),
            r is Ok <==> rom.prg_rom@.len() == 0x4000 || rom.prg_rom@.len() == 0x8000,
            r is Err ==> r == Err::<(), EmuError>(EmuError::InvalidRomSize) && final(self)@
                == old(self)@,
            r is Ok ==> final(self)@.mem == (MemView {
                prg: rom.prg_rom@,
                ppu: crate::ppu::PpuView {
                    chr: rom.chr_rom@,
                    mirroring: rom.screen_mirroring,
                    ..old(self)@.mem.ppu
                },
                ..old(self)@.mem
            }),
            final(self).cpu == old(self).cpu,
            final(self).stat == old(self).stat,
    {
        self.mem.set_rom(rom)
    }

    /// Puts the registers in their power-on state and loads the program counter from the
    /// reset vector.
    pub fn reset(&mut self)
        requires
            old(self).wf(),
        ensures
            final(self).wf(),
            final(self).cpu == (Cpu { pc: old(self)@.read16(RESET_VECTOR), ..Cpu::power_on() }),
            final(self).mem == old(self).mem,
            final(self).stat == old(self).stat,
    {
        let pc = self.mem.load_u16(RESET_VECTOR);
        self.cpu = Cpu::default();
        self.cpu.pc = pc;
    }

    /// Enters the non-maskable interrupt handler.
    pub fn nmi(&mut self)
        requires
            old(self).wf(),
        ensures
            final(self).wf(),
            final(self)@ == old(self)@.interrupt(NMI_VECTOR),
            final(self).stat == old(self).stat,
    {
        let mut f = self.cpu.sp;
        f.set(FLAG_B, false);
        f.set(FLAG_A, true);
        stack::push_u16(self, self.cpu.pc);
        stack::push_u8(self, f.bits);
        self.cpu.interrupt_flag(true);
        self.cpu.pc = self.mem.load_u16(NMI_VECTOR);
    }

    /// Executes exactly one instruction and returns the cycles that it took.
    pub fn run_cpu_once(&mut self) -> (r: u8)
        requires
            old(self).wf(),
            old(self).stat.cycle_counter + MAX_INSTRUCTION_CYCLES <= u64::MAX,
        ensures
            final(self).wf(),
            final(self)@ == old(self)@.step(),
            r == old(self)@.step_cycles(),
            2 <= r <= MAX_INSTRUCTION_CYCLES,
            final(self).stat.cycle_counter == old(self).stat.cycle_counter + r,
            final(self).stat.frame_counter == old(self).stat.frame_counter,
            final(self).stat.last_undefined == if decode(old(self)@.opcode()).instr
                == Instr::Undef {
                Some(old(self).cpu.pc)
            } else {
                old(self).stat.last_undefined
            },
    {
        let op = self.mem.load_u8(self.cpu.pc);
        let d = op_info(op);
        let extra = execute(self, op);
        let c = d.cycles + extra;
        self.stat.cycle_counter = self.stat.cycle_counter + c as u64;
        c
    }

    /// Executes whole instructions until at least `clocks` cycles have passed; the last one
    /// may run past the target, by less than one instruction's cost.
    pub fn run_cpu_clocks(&mut self, clocks: u32)
        requires
            old(self).wf(),
            old(self).stat.cycle_counter + clocks + MAX_INSTRUCTION_CYCLES <= u64::MAX,
        ensures
            final(self).wf(),
            old(self).stat.cycle_counter + clocks <= final(self).stat.cycle_counter
                < old(self).stat.cycle_counter + clocks + MAX_INSTRUCTION_CYCLES,
            final(self).stat.frame_counter == old(self).stat.frame_counter,
            exists|n: nat|
                final(self)@ == old(self)@.steps(n) && final(self).stat.cycle_counter == old(
                    self,
                ).stat.cycle_counter + old(self)@.steps_cycles(n),
    {
        let start = self.stat.cycle_counter;
        let target = start + clocks as u64;
        let ghost mut n: nat = 0;
        while self.stat.cycle_counter < target
            invariant
                self.wf(),
                start == old(self).stat.cycle_counter,
                target == start + clocks,
                target + MAX_INSTRUCTION_CYCLES <= u64::MAX,
                start <= self.stat.cycle_counter < target + MAX_INSTRUCTION_CYCLES,
                self@ == old(self)@.steps(n),
                self.stat.cycle_counter == start + old(self)@.steps_cycles(n),
                self.stat.frame_counter == old(self).stat.frame_counter,
            decreases target + MAX_INSTRUCTION_CYCLES - self.stat.cycle_counter,
        {
            self.run_cpu_once();
            proof {
                n = n + 1;
            }
        }
    }

    /// Executes `inst` instructions and returns the snapshot taken before each.
    pub fn run_cpu_with_trace(&mut self, inst: u32) -> (r: Vec<Snapshot>)
        requires
            old(self).wf(),
            old(self).stat.cycle_counter + inst * MAX_INSTRUCTION_CYCLES <= u64::MAX,
        ensures
            final(self).wf(),
            final(self)@ == old(self)@.steps(inst as nat),
            final(self).stat.cycle_counter == old(self).stat.cycle_counter + old(self)@.steps_cycles(
                inst as nat,
            ),
            r@.len() == inst,
            forall|i: int|
                0 <= i < inst ==> r@[i] == snapshot_of(
                    #[trigger] old(self)@.steps(i as nat),
                    old(self).stat.cycle_counter + old(self)@.steps_cycles(i as nat),
                ),
    {
        let mut r: Vec<Snapshot> = Vec::new();
        let mut k: u32 = 0;
        while k < inst
            invariant
                self.wf(),
                k <= inst,
                old(self).stat.cycle_counter + inst * MAX_INSTRUCTION_CYCLES <= u64::MAX,
                self@ == old(self)@.steps(k as nat),
                self.stat.cycle_counter == old(self).stat.cycle_counter + old(self)@.steps_cycles(
                    k as nat,
                ),
                self.stat.cycle_counter <= old(self).stat.cycle_counter + k * MAX_INSTRUCTION_CYCLES,
                r@.len() == k,
                forall|i: int|
                    0 <= i < k ==> r@[i] == snapshot_of(
                        #[trigger] old(self)@.steps(i as nat),
                        old(self).stat.cycle_counter + old(self)@.steps_cycles(i as nat),
                    ),
            decreases inst - k,
        {
            r.push(self.snapshot());
            proof {
                assert(k * MAX_INSTRUCTION_CYCLES + MAX_INSTRUCTION_CYCLES <= inst * MAX_INSTRUCTION_CYCLES) by (nonlinear_arith)
                    requires
                        k < inst,
                ;
            }
            self.run_cpu_once();
            k = k + 1;
        }
        r
    }

    /// The registers, the opcode at the program counter and the cycle count.
    pub fn snapshot(&self) -> (r: Snapshot)
        requires
            self.wf(),
        ensures
            r == snapshot_of(self@, self.stat.cycle_counter as int),
    {
        Snapshot {
            pc: self.cpu.pc,
            opcode: self.mem.load_u8(self.cpu.pc),
            a: self.cpu.a,
            x: self.cpu.x,
            y: self.cpu.y,
            p: self.cpu.sp.bits(),
            s: self.cpu.s,
            cycles: self.stat.cycle_counter,
        }
    }

    /// Loads a program of the small teaching machine at `0x0600` and points the program
    /// counter at it.
    pub fn load_easy(&mut self, bin: Vec<u8>)
        requires
            old(self).wf(),
            EASY_PROGRAM_START + bin@.len() <= RAM_SIZE,
        ensures
            final(self).wf(),
            final(self)@.mem == (MemView {
                ram: old(self)@.mem.ram.take(0x600) + bin@ + old(self)@.mem.ram.skip(
                    (0x600 + bin@.len()) as int,
                ),
                ..old(self)@.mem
            }),
            final(self).cpu == (Cpu { pc: EASY_PROGRAM_START, ..old(self).cpu }),
            final(self).stat == old(self).stat,
    {
        self.mem.copy_from_slice(EASY_PROGRAM_START as usize, bin.as_slice());
        self.cpu.pc = EASY_PROGRAM_START;
    }

    /// One frame of the teaching machine: counts the frame, hands the program a random byte
    /// and, when a key was pressed, its code, then runs one frame's worth of cycles.
    pub fn step_frame_easy(&mut self, random: u8, key: Option<u8>)
        requires
            old(self).wf(),
            old(self).stat.cycle_counter + EASY_CLOCKS_PER_FRAME + MAX_INSTRUCTION_CYCLES
                <= u64::MAX,
        ensures
            final(self).wf(),
            final(self).stat.frame_counter == (old(self).stat.frame_counter + 1) % 0x1_0000_0000,
            exists|n: nat|
                final(self)@ == #[trigger] old(self)@.easy_frame_start(random, key).steps(n)
                    && final(self).stat.cycle_counter == old(self).stat.cycle_counter
                    + old(self)@.easy_frame_start(random, key).steps_cycles(n),
            old(self).stat.cycle_counter + EASY_CLOCKS_PER_FRAME <= final(self).stat.cycle_counter
                < old(self).stat.cycle_counter + EASY_CLOCKS_PER_FRAME + MAX_INSTRUCTION_CYCLES,
    {
        self.stat.frame_counter = self.stat.frame_counter.wrapping_add(1);
        self.mem.store_u8(EASY_RANDOM_ADDR, random);
        let ghost m = old(self)@.store(EASY_RANDOM_ADDR, random);
        assert(self@ == m);
        if let Some(k) = key {
            self.mem.store_u8(EASY_KEY_ADDR, k);
            assert(self@ == m.store(EASY_KEY_ADDR, k));
        }
        assert(self@ == old(self)@.easy_frame_start(random, key));
        self.run_cpu_clocks(EASY_CLOCKS_PER_FRAME);
    }

    /// Paints the teaching machine's 32x32 screen into `f`, four bytes per pixel.
    pub fn render_easy(&self, f: &mut Vec<u8>)
        requires
            self.wf(),
            old(f)@.len() >= 0x1000,
        ensures
            final(f)@.len() == old(f)@.len(),
            forall|i: int|
                0 <= i < 0x400 ==> #[trigger] final(f)@.subrange(4 * i, 4 * i + 4) == easy_color(
                    self@.mem.ram[0x200 + i],
                ),
            forall|j: int| 0x1000 <= j < old(f)@.len() ==> final(f)@[j] == old(f)@[j],
    {
        let frame = self.mem.get_frame_easy();
        let mut i: usize = 0;
        while i < 0x400
            invariant
                self.wf(),
                frame@ == self@.mem.ram.subrange(0x200, 0x600),
                i <= 0x400,
                f@.len() == old(f)@.len(),
                old(f)@.len() >= 0x1000,
                forall|k: int|
                    0 <= k < i ==> #[trigger] f@.subrange(4 * k, 4 * k + 4) == easy_color(
                        self@.mem.ram[0x200 + k],
                    ),
                forall|j: int| 4 * i <= j < old(f)@.len() ==> f@[j] == old(f)@[j],
            decreases 0x400 - i,
        {
            let c = frame[i];
            let color: [u8; 4] = if c == 0 {
                [0x00, 0x00, 0x00, 0xff]
            } else if c == 1 {
                [0xff, 0xff, 0xff, 0xff]
            } else if c == 2 || c == 6 || c == 10 || c == 14 {
                [0x00, 0x00, 0xff, 0xff]
            } else if c == 3 || c == 7 || c == 11 || c == 15 {
                [0xff, 0x00, 0x00, 0xff]
            } else if c == 4 || c == 8 || c == 12 {
                [0x00, 0xff, 0x00, 0xff]
            } else if c == 5 || c == 9 || c == 13 {
                [0xcc, 0xcc, 0x20, 0xff]
            } else {
                [0xff, 0x00, 0xff, 0xff]
            };
            assert(color@ =~= easy_color(c));
            let offset = i * 4;
            let ghost prev = f@;
            f.set(offset, color[0]);
            f.set(offset + 1, color[1]);
            f.set(offset + 2, color[2]);
            f.set(offset + 3, color[3]);
            assert(f@.subrange(4 * i as int, 4 * i as int + 4) =~= easy_color(c));
            assert forall|k: int| 0 <= k < i implies #[trigger] f@.subrange(4 * k, 4 * k + 4)
                == easy_color(self@.mem.ram[0x200 + k]) by {
                assert(f@.subrange(4 * k, 4 * k + 4) =~= prev.subrange(4 * k, 4 * k + 4));
            }
            i = i + 1;
        }
    }
}

/// A branch that is not taken costs exactly its base count, two cycles, and falls through to
/// the next instruction; one taken to a target on the same page as the next instruction
/// costs one cycle more, and one taken onto another page two cycles more.
pub proof fn law_branch_cycles(m: Machine)
    requires
        m.wf(),
        is_branch(decode(m.opcode()).instr),
    ensures
        ({
            let instr = decode(m.opcode()).instr;
            let target = m.operand_addr(Mode::Relative);
            &&& !m.cpu.branch_taken(instr) ==> m.step_cycles() == 2 && m.step().cpu.pc
                == m.pc_plus(2)
            &&& m.cpu.branch_taken(instr) && target / 256 == m.pc_plus(2) / 256 ==> m.step_cycles()
                == 3 && m.step().cpu.pc == target
            &&& m.cpu.branch_taken(instr) && target / 256 != m.pc_plus(2) / 256 ==> m.step_cycles()
                == 4 && m.step().cpu.pc == target
        }),
{
    let d = decode(m.opcode());
    assert(d.cycles == 2 && d.mode == Mode::Relative);
    lemma_run_branch(m, d.instr, d.mode);
}

/// An indirect jump through a pointer whose low byte is `0xff` takes the low byte of its
/// target from the pointer and the high byte from offset 0 of the same page, not from the
/// next page.
pub proof fn law_jmp_indirect_page_wrap(m: Machine)
    requires
        m.wf(),
        m.opcode() == 0x6c,
        m.read16(m.pc_plus(1)) % 256 == 0xff,
    ensures
        ({
            let p = m.read16(m.pc_plus(1));
            m.step().cpu.pc == m.read(p) + 256 * m.read((p - 0xff) as u16)
        }),
{
    lemma_run_jmp(m, Mode::Indirect);
}

/// Pushing the flags and pulling them straight back restores every flag that instructions
/// use; of the two reserved bits, the one that reads as one comes back set and Break comes
/// back clear. The stack pointer is back where it was.
pub proof fn law_flags_round_trip(m: Machine)
    requires
        m.wf(),
    ensures
        ({
            let r = m.run(Instr::Php, Mode::Implied).run(Instr::Plp, Mode::Implied);
            &&& r.cpu.sp.bits & USER_FLAGS == m.cpu.sp.bits & USER_FLAGS
            &&& r.cpu.sp.has(FLAG_A)
            &&& !r.cpu.sp.has(FLAG_B)
            &&& r.cpu.s == m.cpu.s
            &&& r.cpu.pc == m.pc_plus(2)
        }),
{
    let m1 = m.run(Instr::Php, Mode::Implied);
    lemma_run_php(m, Mode::Implied);
    lemma_run_plp(m1, Mode::Implied);
    let v = pushed_flags(m.cpu.sp);
    lemma_store_load(m.mem, m.cpu.stack_addr(), v);
    assert(m1.popped().cpu.stack_addr() == m.cpu.stack_addr());
    assert(m1.top() == v);
    let b = m.cpu.sp.bits;
    assert({
        let pushed = (b | 0x10u8) | 0x20u8;
        let back = (pushed | 0x20u8) & !0x10u8;
        &&& back & 0xcfu8 == b & 0xcfu8
        &&& back & 0x20u8 != 0
        &&& back & 0x10u8 == 0
    }) by (bit_vector);
}

} // verus!
