use vstd::prelude::*;

use crate::ppu::Mirroring;
use crate::ppu::Ppu;
use crate::ppu::PpuView;

verus! {

/// Size of the physical store behind the RAM, PPU-register and expansion windows.
pub const RAM_SIZE: usize = 0x10000;

/// Size of one program-ROM bank.
pub const PRG_BANK_SIZE: usize = 0x4000;

/// Start of the program-ROM window.
pub const PRG_ROM_ZERO: u16 = 0x8000;

/// The two error conditions of the core.
#[derive(Clone, Copy, Debug, PartialEq, Eq, Structural)]
pub enum EmuError {
    /// The program-ROM image is neither 16 KiB nor 32 KiB long.
    InvalidRomSize,
    /// An address that no window maps. Every 16-bit address is mapped, so this never comes
    /// out of the address translation.
    UnmappedAddress,
}

/// What the cartridge parser hands the core.
pub struct Rom {
    pub prg_rom: Vec<u8>,
    pub chr_rom: Vec<u8>,
    pub screen_mirroring: Mirroring,
}

/// Where a bus address lands: an index into the physical store or into the program ROM.
#[derive(Clone, Copy, Debug, PartialEq, Eq, Structural)]
pub enum Loc {
    Ram(usize),
    Rom(usize),
}

/// True of the lengths of a program-ROM image with defined mirroring.
pub open spec fn valid_prg_len(len: nat) -> bool {
    len == PRG_BANK_SIZE || len == 2 * PRG_BANK_SIZE
}

/// Physical index of an address below `0x8000`: internal RAM repeats every 2 KiB up to
/// `0x2000`, the eight PPU registers repeat up to `0x4000`, the rest maps to itself.
pub open spec fn ram_index(addr: u16) -> int {
    if addr < 0x2000 {
        addr as int % 0x800
    } else if addr < 0x4000 {
        0x2000 + addr % 8
    } else {
        addr as int
    }
}

/// Index into the program ROM of an address from `0x8000` on; a 16 KiB image fills both
/// halves of the window.
pub open spec fn rom_index(addr: u16, prg_len: nat) -> int {
    if prg_len == PRG_BANK_SIZE {
        (addr - 0x8000) % 0x4000
    } else {
        addr - 0x8000
    }
}

/// Address translation.
pub open spec fn locate(addr: u16, prg_len: nat) -> Loc {
    if addr < PRG_ROM_ZERO {
        Loc::Ram(ram_index(addr) as usize)
    } else {
        Loc::Rom(rom_index(addr, prg_len) as usize)
    }
}

/// True of the addresses in the PPU-register window.
pub open spec fn is_ppu_window(addr: u16) -> bool {
    0x2000 <= addr < 0x4000
}

/// The address space as mathematical values.
pub ghost struct MemView {
    pub ram: Seq<u8>,
    pub prg: Seq<u8>,
    pub ppu: PpuView,
}

impl MemView {
    pub open spec fn wf(self) -> bool {
        &&& self.ram.len() == RAM_SIZE
        &&& valid_prg_len(self.prg.len())
        &&& self.ppu.wf()
    }

    /// The byte read at `addr`.
    pub open spec fn load(self, addr: u16) -> u8 {
        match locate(addr, self.prg.len()) {
            Loc::Ram(i) => self.ram[i as int],
            Loc::Rom(j) => self.prg[j as int],
        }
    }

    /// The little-endian word at `addr`: its high byte is the next physical byte, not the
    /// byte at the next bus address. Past the end of the ROM image it is the image's first.
    pub open spec fn load16(self, addr: u16) -> u16 {
        let (lo, hi) = match locate(addr, self.prg.len()) {
            Loc::Ram(i) => (self.ram[i as int], self.ram[i + 1]),
            Loc::Rom(j) => (self.prg[j as int], self.prg[(j + 1) % self.prg.len() as int]),
        };
        (lo + 256 * hi) as u16
    }

    /// The address space after a write of `v` at `addr`. Writes to the program ROM are
    /// ignored; writes to the PPU-register window also reach the PPU.
    pub open spec fn store(self, addr: u16, v: u8) -> MemView {
        if addr >= PRG_ROM_ZERO {
            self
        } else if is_ppu_window(addr) {
            MemView {
                ram: self.ram.update(ram_index(addr), v),
                ppu: self.ppu.after_register_write(addr as int % 8, v),
                ..self
            }
        } else {
            MemView { ram: self.ram.update(ram_index(addr), v), ..self }
        }
    }
}

/// The processor's 16-bit address space.
pub struct Mem {
    pub mem: Vec<u8>,
    pub prg_rom: Vec<u8>,
    pub ppu: Ppu,
}

impl View for Mem {
    type V = MemView;

    open spec fn view(&self) -> MemView {
        MemView { ram: self.mem@, prg: self.prg_rom@, ppu: self.ppu@ }
    }
}

impl Default for Mem {
    fn default() -> (r: Mem)
        ensures
            r.wf(),
    {
        Mem::new()
    }
}

impl Mem {
    pub open spec fn wf(&self) -> bool {
        self@.wf()
    }

    /// Zeroed RAM, a blank 32 KiB program ROM, no pattern data.
    pub fn new() -> (r: Mem)
        ensures
            r.wf(),
            r@.ram == Seq::new(RAM_SIZE as nat, |i: int| 0u8),
            r@.prg == Seq::new(2 * PRG_BANK_SIZE as nat, |i: int| 0u8),
    {
        let r = Mem {
            mem: vec![0u8; RAM_SIZE],
            prg_rom: vec![0u8; 2 * PRG_BANK_SIZE],
            ppu: Ppu::new(Vec::new(), Mirroring::Horizontal),
        };
        assert(r@.ram =~= Seq::new(RAM_SIZE as nat, |i: int| 0u8));
        assert(r@.prg =~= Seq::new(2 * PRG_BANK_SIZE as nat, |i: int| 0u8));
        r
    }

    /// Installs a cartridge: the program ROM into the top window, the pattern data and the
    /// mirroring mode into the PPU. Fails, changing nothing, on an image of another length.
    pub fn set_rom(&mut self, rom: Rom) -> (r: Result<(), EmuError>)
        requires
            old(self).wf(),
        ensures
            final(self).wf(),
            r is Ok <==> valid_prg_len(rom.prg_rom@.len()),
            r is Err ==> r == Err::<(), EmuError>(EmuError::InvalidRomSize) && *final(self)
                == *old(self),
            r is Ok ==> final(self)@ == (MemView {
                prg: rom.prg_rom@,
                ppu: PpuView { chr: rom.chr_rom@, mirroring: rom.screen_mirroring, ..old(self)@.ppu },
                ..old(self)@
            }),
    {
        let len = rom.prg_rom.len();
        if len != PRG_BANK_SIZE && len != 2 * PRG_BANK_SIZE {
            return Err(EmuError::InvalidRomSize);
        }
        self.prg_rom = rom.prg_rom;
        self.ppu.chr_rom = rom.chr_rom;
        self.ppu.mirroring = rom.screen_mirroring;
        Ok(())
    }

    /// Where a read of `addr` lands.
    pub fn translate_address_r(&self, addr: u16) -> (r: Loc)
        requires
            self.wf(),
        ensures
            r == locate(addr, self@.prg.len()),
    {
        if addr < 0x2000 {
            Loc::Ram((addr % 0x800) as usize)
        } else if addr < 0x4000 {
            Loc::Ram((0x2000 + addr % 8) as usize)
        } else if addr < PRG_ROM_ZERO {
            Loc::Ram(addr as usize)
        } else if self.prg_rom.len() == PRG_BANK_SIZE {
            Loc::Rom(((addr - PRG_ROM_ZERO) % 0x4000) as usize)
        } else {
            Loc::Rom((addr - PRG_ROM_ZERO) as usize)
        }
    }

    /// Where a write to `addr` lands in the physical store; `None` for the read-only
    /// program ROM, whose writes are ignored.
    pub fn translate_address_w(&self, addr: u16) -> (r: Option<usize>)
        requires
            self.wf(),
        ensures
            addr >= PRG_ROM_ZERO ==> r is None,
            addr < PRG_ROM_ZERO ==> r == Some(ram_index(addr) as usize),
    {
        match self.translate_address_r(addr) {
            Loc::Ram(i) => Some(i),
            Loc::Rom(_) => None,
        }
    }

    /// Copies `slice` into the physical store from `offset` on, bypassing translation.
    pub fn copy_from_slice(&mut self, offset: usize, slice: &[u8])
        requires
            old(self).wf(),
            offset + slice@.len() <= RAM_SIZE,
        ensures
            final(self).wf(),
            final(self)@ == (MemView {
                ram: old(self)@.ram.take(offset as int) + slice@ + old(self)@.ram.skip(
                    offset + slice@.len(),
                ),
                ..old(self)@
            }),
    {
        let mut k: usize = 0;
        while k < slice.len()
            invariant
                self.wf(),
                offset + slice@.len() <= RAM_SIZE,
                k <= slice@.len(),
                self@.prg == old(self)@.prg,
                self@.ppu == old(self)@.ppu,
                forall|i: int|
                    0 <= i < RAM_SIZE ==> self@.ram[i] == if offset <= i < offset + k {
                        slice@[i - offset]
                    } else {
                        old(self)@.ram[i]
                    },
            decreases slice@.len() - k,
        {
            self.mem.set(offset + k, slice[k]);
            k = k + 1;
        }
        assert(self@.ram =~= old(self)@.ram.take(offset as int) + slice@ + old(self)@.ram.skip(
            offset + slice@.len(),
        ));
    }

    pub fn store_u8(&mut self, addr: u16, data: u8)
        requires
            old(self).wf(),
        ensures
            final(self).wf(),
            final(self)@ == old(self)@.store(addr, data),
    {
        if let Some(i) = self.translate_address_w(addr) {
            self.mem.set(i, data);
            if addr >= 0x2000 && addr < 0x4000 {
                self.ppu.write_register(addr % 8, data);
            }
        }
    }

    pub fn load_u8(&self, addr: u16) -> (r: u8)
        requires
            self.wf(),
        ensures
            r == self@.load(addr),
    {
        match self.translate_address_r(addr) {
            Loc::Ram(i) => self.mem[i],
            Loc::Rom(j) => self.prg_rom[j],
        }
    }

    /// A read from the bus with the PPU's side effects: the data port of the register window
    /// returns the PPU's buffered read and moves its address on; every other address reads
    /// as `load_u8` does and changes nothing.
    pub fn read_u8(&mut self, addr: u16) -> (r: u8)
        requires
            old(self).wf(),
        ensures
            final(self).wf(),
            is_ppu_window(addr) && addr % 8 == 7 ==> r == old(self)@.ppu.read_result()
                && final(self)@ == (MemView { ppu: old(self)@.ppu.after_read(), ..old(self)@ }),
            !(is_ppu_window(addr) && addr % 8 == 7) ==> r == old(self)@.load(addr)
                && final(self)@ == old(self)@,
    {
        if addr >= 0x2000 && addr < 0x4000 && addr % 8 == 7 {
            self.ppu.read_data()
        } else {
            self.load_u8(addr)
        }
    }

    /// Writes `data` little-endian at `addr` and the next bus address.
    pub fn store_u16(&mut self, addr: u16, data: u16)
        requires
            old(self).wf(),
        ensures
            final(self).wf(),
            final(self)@ == old(self)@.store(addr, (data % 256) as u8).store(
                addr.wrapping_add(1),
                (data / 256) as u8,
            ),
    {
        self.store_u8(addr, (data % 256) as u8);
        self.store_u8(addr.wrapping_add(1), (data / 256) as u8);
    }

    pub fn load_u16(&self, addr: u16) -> (r: u16)
        requires
            self.wf(),
        ensures
            r == self@.load16(addr),
    {
        let (lo, hi) = match self.translate_address_r(addr) {
            Loc::Ram(i) => (self.mem[i], self.mem[i + 1]),
            Loc::Rom(j) => (self.prg_rom[j], self.prg_rom[(j + 1) % self.prg_rom.len()]),
        };
        lo as u16 + 256 * hi as u16
    }

    /// The 32x32 screen of the small teaching machine: one colour index per byte at
    /// `0x0200..0x0600`.
    pub fn get_frame_easy(&self) -> (r: &[u8])
        requires
            self.wf(),
        ensures
            r@ == self@.ram.subrange(0x200, 0x600),
    {
        vstd::slice::slice_subrange(self.mem.as_slice(), 0x200, 0x600)
    }
}

/// With a 16 KiB program ROM installed, every address in `0xc000..=0xffff` reads the same
/// byte as the address 16 KiB below it, the image's byte at `addr - 0xc000`.
pub proof fn law_rom_mirror(m: MemView, addr: u16)
    requires
        m.wf(),
        m.prg.len() == PRG_BANK_SIZE,
        0xc000 <= addr,
    ensures
        m.load(addr) == m.load((addr - 0x4000) as u16),
        m.load(addr) == m.prg[addr - 0xc000],
{
}

/// A write to RAM below `0x2000` reads back from the same address.
pub proof fn lemma_store_load(m: MemView, addr: u16, v: u8)
    requires
        m.wf(),
        addr < 0x2000,
    ensures
        m.store(addr, v).load(addr) == v,
        m.store(addr, v).wf(),
        m.store(addr, v).prg == m.prg,
{
}

/// Two writes to the address latch, high byte first, set it to the 14-bit address they
/// spell, ready for the next high byte.
proof fn lemma_latch_pair(r: crate::ppu::PpuAddressRegister, hi: u8, lo: u8)
    requires
        r.wf(),
        r.hi_ptr,
    ensures
        r.updated(hi).updated(lo).value == (hi * 256 + lo) % 0x4000,
        r.updated(hi).updated(lo).hi_ptr,
{
    let q = r.value % 256;
    let h = hi as int;
    assert((h * 256 + q) % 0x4000 == (h % 64) * 256 + q && (h * 256 + lo) % 0x4000 == (h % 64)
        * 256 + lo) by (nonlinear_arith)
        requires
            0 <= h < 256,
            0 <= q < 256,
            0 <= lo < 256,
    ;
    assert(((h % 64) * 256 + q) / 256 == h % 64) by (nonlinear_arith)
        requires
            0 <= h < 256,
            0 <= q < 256,
    ;
}

/// Two writes to the address port, high byte first, then one write of `v` to the data port:
/// the PPU's address ends up at the written address plus the control register's step. Once
/// the address is written again, a palette address reads back `v` at once, while a
/// name-table address first returns what the read buffer held before and refills the
/// buffer with `v`.
pub proof fn law_ppu_data_port(m: MemView, hi: u8, lo: u8, v: u8)
    requires
        m.wf(),
        m.ppu.addr.hi_ptr,
    ensures
        ({
            let a = (hi * 256 + lo) % 0x4000;
            let w = m.store(0x2006, hi).store(0x2006, lo).store(0x2007, v);
            let again = w.store(0x2006, hi).store(0x2006, lo);
            &&& w.ppu.addr.value == (a + m.ppu.ctrl.step()) % 0x4000
            &&& again.ppu.addr.value == a
            &&& a >= 0x3f00 ==> again.ppu.read_result() == v
            &&& 0x2000 <= a < 0x3f00 ==> again.ppu.read_result() == m.ppu.buf
                && again.ppu.after_read().buf == v
        }),
{
    let ppu0 = m.ppu;
    lemma_latch_pair(ppu0.addr, hi, lo);
    let m2 = m.store(0x2006, hi).store(0x2006, lo);
    let ppu2 = ppu0.with_addr(ppu0.addr.updated(hi).updated(lo));
    assert(m.store(0x2006, hi).ppu == ppu0.with_addr(ppu0.addr.updated(hi)));
    assert(m2.ppu == ppu2);
    let w = m2.store(0x2007, v);
    assert(w.ppu == ppu2.after_write(v));
    let ppu_w = ppu2.after_write(v);
    assert(ppu_w.wf());
    lemma_latch_pair(ppu_w.addr, hi, lo);
    let again = w.store(0x2006, hi).store(0x2006, lo);
    assert(w.store(0x2006, hi).ppu == ppu_w.with_addr(ppu_w.addr.updated(hi)));
    assert(again.ppu == ppu_w.with_addr(ppu_w.addr.updated(hi).updated(lo)));
}

} // verus!
