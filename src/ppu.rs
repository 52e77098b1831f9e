use vstd::prelude::*;

verus! {

/// Size of the name-table store.
pub const VRAM_SIZE: usize = 0x800;

/// Size of the palette store.
pub const PALETTE_SIZE: usize = 32;

/// How the cartridge folds the four logical name tables onto the two physical ones.
#[derive(Clone, Copy, Debug, PartialEq, Eq, Structural)]
pub enum Mirroring {
    Vertical,
    Horizontal,
}

/// The two-write address latch: high byte first, then low byte, 14 bits wide.
#[derive(Clone, Copy, Debug, PartialEq, Eq, Structural)]
pub struct PpuAddressRegister {
    pub value: u16,
    pub hi_ptr: bool,
}

impl PpuAddressRegister {
    pub open spec fn wf(self) -> bool {
        self.value < 0x4000
    }

    /// The latch after one write of `data`.
    pub open spec fn updated(self, data: u8) -> PpuAddressRegister {
        let v = if self.hi_ptr {
            (data as int * 256 + self.value as int % 256) % 0x4000
        } else {
            (self.value as int / 256) * 256 + data as int
        };
        PpuAddressRegister { value: v as u16, hi_ptr: !self.hi_ptr }
    }

    /// The latch moved forward by `inc`, wrapping within 14 bits.
    pub open spec fn incremented(self, inc: u8) -> PpuAddressRegister {
        PpuAddressRegister { value: ((self.value + inc) % 0x4000) as u16, ..self }
    }

    pub fn new() -> (r: PpuAddressRegister)
        ensures
            r.value == 0,
            r.hi_ptr,
    {
        PpuAddressRegister { value: 0, hi_ptr: true }
    }

    pub fn update(&mut self, data: u8)
        requires
            old(self).wf(),
        ensures
            *final(self) == old(self).updated(data),
            final(self).wf(),
    {
        if self.hi_ptr {
            self.value = ((data as u16) * 256 + self.value % 256) % 0x4000;
        } else {
            self.value = (self.value / 256) * 256 + data as u16;
        }
        self.hi_ptr = !self.hi_ptr;
    }

    pub fn increment(&mut self, inc: u8)
        requires
            old(self).wf(),
        ensures
            *final(self) == old(self).incremented(inc),
            final(self).wf(),
    {
        self.value = (self.value + inc as u16) % 0x4000;
    }

    pub fn reset_latch(&mut self)
        ensures
            *final(self) == (PpuAddressRegister { hi_ptr: true, ..*old(self) }),
    {
        self.hi_ptr = true;
    }

    pub fn get(&self) -> (r: u16)
        ensures
            r == self.value,
    {
        self.value
    }
}

/// The 8-bit control register.
#[derive(Clone, Copy, Debug, PartialEq, Eq, Structural)]
pub struct ControlRegister {
    pub bits: u8,
}



/// Bit 2: data-port accesses step by 32 instead of 1.
pub const CTRL_VRAM_ADD_INCREMENT: u8 = 0b0000_0100;

/// Bit 3: sprite pattern table at 0x1000.
pub const CTRL_SPRITE_PATTERN_ADDR: u8 = 0b0000_1000;

/// Bit 4: background pattern table at 0x1000.
pub const CTRL_BACKGROUND_PATTERN_ADDR: u8 = 0b0001_0000;

/// Bit 5: 8x16 sprites.
pub const CTRL_SPRITE_SIZE: u8 = 0b0010_0000;

/// Bit 6: master/slave select.
pub const CTRL_MASTER_SLAVE_SELECT: u8 = 0b0100_0000;

/// Bit 7: raise a non-maskable interrupt at vertical blank.
pub const CTRL_GENERATE_NMI: u8 = 0b1000_0000;

impl ControlRegister {
    /// The step of the data port's address after each access.
    pub open spec fn step(self) -> u8 {
        if self.bits & CTRL_VRAM_ADD_INCREMENT != 0 {
            32
        } else {
            1
        }
    }

    pub fn new() -> (r: ControlRegister)
        ensures
            r.bits == 0,
    {
        ControlRegister { bits: 0 }
    }

    pub fn vram_addr_increment(&self) -> (r: u8)
        ensures
            r == self.step(),
    {
        if self.bits & CTRL_VRAM_ADD_INCREMENT != 0 {
            32
        } else {
            1
        }
    }

    /// Replaces the whole register with `data`.
    pub fn update(&mut self, data: u8)
        ensures
            final(self).bits == data,
    {
        self.bits = data;
    }

    /// Base address of the name table selected by bits 0 and 1.
    pub fn nametable_addr(&self) -> (r: u16)
        ensures
            r == 0x2000 + 0x400 * (self.bits % 4),
    {
        0x2000 + 0x400 * ((self.bits % 4) as u16)
    }

    pub fn sprite_pattern_addr(&self) -> (r: u16)
        ensures
            r == (if self.bits & CTRL_SPRITE_PATTERN_ADDR != 0 { 0x1000u16 } else { 0u16 }),
    {
        if self.bits & CTRL_SPRITE_PATTERN_ADDR != 0 {
            0x1000
        } else {
            0
        }
    }

    pub fn background_pattern_addr(&self) -> (r: u16)
        ensures
            r == (if self.bits & CTRL_BACKGROUND_PATTERN_ADDR != 0 { 0x1000u16 } else { 0u16 }),
    {
        if self.bits & CTRL_BACKGROUND_PATTERN_ADDR != 0 {
            0x1000
        } else {
            0
        }
    }

    /// Sprite height in pixels.
    pub fn sprite_size(&self) -> (r: u8)
        ensures
            r == (if self.bits & CTRL_SPRITE_SIZE != 0 { 16u8 } else { 8u8 }),
    {
        if self.bits & CTRL_SPRITE_SIZE != 0 {
            16
        } else {
            8
        }
    }

    pub fn master_slave_select(&self) -> (r: bool)
        ensures
            r == (self.bits & CTRL_MASTER_SLAVE_SELECT != 0),
    {
        self.bits & CTRL_MASTER_SLAVE_SELECT != 0
    }

    pub fn generate_vblank_nmi(&self) -> (r: bool)
        ensures
            r == (self.bits & CTRL_GENERATE_NMI != 0),
    {
        self.bits & CTRL_GENERATE_NMI != 0
    }
}

/// Index into the 2 KiB name-table store of a name-table address in `0x2000..0x4000`.
pub open spec fn mirror_spec(mirroring: Mirroring, addr: u16) -> int {
    let mirrored = if addr >= 0x3000 {
        addr - 0x1000
    } else {
        addr as int
    };
    let vram_index = mirrored - 0x2000;
    let name_table = vram_index / 0x400;
    let fold = match mirroring {
        Mirroring::Vertical => if name_table >= 2 {
            0x800int
        } else {
            0int
        },
        Mirroring::Horizontal => if name_table == 3 {
            0x800int
        } else if name_table >= 1 {
            0x400int
        } else {
            0int
        },
    };
    vram_index - fold
}

/// What the PPU slice holds, as mathematical values.
pub ghost struct PpuView {
    pub chr: Seq<u8>,
    pub vram: Seq<u8>,
    pub palette: Seq<u8>,
    pub addr: PpuAddressRegister,
    pub ctrl: ControlRegister,
    pub buf: u8,
    pub mirroring: Mirroring,
}

impl PpuView {
    pub open spec fn wf(self) -> bool {
        &&& self.vram.len() == VRAM_SIZE
        &&& self.palette.len() == PALETTE_SIZE
        &&& self.addr.wf()
    }

    pub open spec fn with_addr(self, addr: PpuAddressRegister) -> PpuView {
        PpuView { addr, ..self }
    }

    /// The address register moved on by the control register's step.
    pub open spec fn stepped(self) -> PpuView {
        self.with_addr(self.addr.incremented(self.ctrl.step()))
    }

    /// The palette index of an address in `0x3f00..0x4000`.
    pub open spec fn palette_index(addr: u16) -> int {
        (addr - 0x3f00) % 32
    }

    /// The byte that the pattern region holds at `addr`; 0 past the end of the image.
    pub open spec fn chr_at(self, addr: u16) -> u8 {
        if addr < self.chr.len() {
            self.chr[addr as int]
        } else {
            0
        }
    }

    /// The byte returned by a read of the data port.
    pub open spec fn read_result(self) -> u8 {
        let a = self.addr.value;
        if a < 0x3f00 {
            self.buf
        } else {
            self.palette[Self::palette_index(a)]
        }
    }

    /// The state after a read of the data port: the buffer refills from the addressed byte,
    /// except in the palette region, and the address steps on.
    pub open spec fn after_read(self) -> PpuView {
        let a = self.addr.value;
        let s = self.stepped();
        if a < 0x2000 {
            PpuView { buf: self.chr_at(a), ..s }
        } else if a < 0x3f00 {
            PpuView { buf: self.vram[mirror_spec(self.mirroring, a)], ..s }
        } else {
            s
        }
    }

    /// The state after a write of `v` to the data port. The pattern region is read-only.
    pub open spec fn after_write(self, v: u8) -> PpuView {
        let a = self.addr.value;
        let s = self.stepped();
        if a < 0x2000 {
            s
        } else if a < 0x3f00 {
            PpuView { vram: self.vram.update(mirror_spec(self.mirroring, a), v), ..s }
        } else {
            PpuView { palette: self.palette.update(Self::palette_index(a), v), ..s }
        }
    }

    /// The state after a write of `v` to the register selected by `reg` (0 to 7).
    pub open spec fn after_register_write(self, reg: int, v: u8) -> PpuView {
        if reg == 0 {
            PpuView { ctrl: ControlRegister { bits: v }, ..self }
        } else if reg == 6 {
            self.with_addr(self.addr.updated(v))
        } else if reg == 7 {
            self.after_write(v)
        } else {
            self
        }
    }
}

/// The slice of the picture unit that the processor reaches through the bus.
pub struct Ppu {
    pub chr_rom: Vec<u8>,
    pub vram: Vec<u8>,
    pub palette: Vec<u8>,
    pub addr: PpuAddressRegister,
    pub ctrl: ControlRegister,
    pub internal_data_buf: u8,
    pub mirroring: Mirroring,
}

impl View for Ppu {
    type V = PpuView;

    open spec fn view(&self) -> PpuView {
        PpuView {
            chr: self.chr_rom@,
            vram: self.vram@,
            palette: self.palette@,
            addr: self.addr,
            ctrl: self.ctrl,
            buf: self.internal_data_buf,
            mirroring: self.mirroring,
        }
    }
}

impl Ppu {
    pub open spec fn wf(&self) -> bool {
        self@.wf()
    }

    pub fn new(chr_rom: Vec<u8>, mirroring: Mirroring) -> (r: Ppu)
        ensures
            r.wf(),
            r@.chr == chr_rom@,
            r@.vram == Seq::new(VRAM_SIZE as nat, |i: int| 0u8),
            r@.palette == Seq::new(PALETTE_SIZE as nat, |i: int| 0u8),
            r@.addr == (PpuAddressRegister { value: 0, hi_ptr: true }),
            r@.ctrl.bits == 0,
            r@.buf == 0,
            r@.mirroring == mirroring,
    {
        let r = Ppu {
            chr_rom,
            vram: vec![0u8; VRAM_SIZE],
            palette: vec![0u8; PALETTE_SIZE],
            addr: PpuAddressRegister::new(),
            ctrl: ControlRegister::new(),
            internal_data_buf: 0,
            mirroring,
        };
        assert(r@.vram =~= Seq::new(VRAM_SIZE as nat, |i: int| 0u8));
        assert(r@.palette =~= Seq::new(PALETTE_SIZE as nat, |i: int| 0u8));
        r
    }

    pub fn write_to_address_register(&mut self, data: u8)
        requires
            old(self).wf(),
        ensures
            final(self).wf(),
            final(self)@ == old(self)@.with_addr(old(self)@.addr.updated(data)),
    {
        self.addr.update(data);
    }

    pub fn write_to_control_register(&mut self, val: u8)
        ensures
            final(self)@ == (PpuView { ctrl: ControlRegister { bits: val }, ..old(self)@ }),
    {
        self.ctrl.update(val);
    }

    /// Puts the address latch back to expect the high byte next.
    pub fn reset_latch(&mut self)
        ensures
            final(self)@ == old(self)@.with_addr(
                PpuAddressRegister { hi_ptr: true, ..old(self)@.addr },
            ),
    {
        self.addr.reset_latch();
    }

    fn increment_vram_addr(&mut self)
        requires
            old(self).wf(),
        ensures
            final(self).wf(),
            final(self)@ == old(self)@.stepped(),
    {
        let inc = self.ctrl.vram_addr_increment();
        self.addr.increment(inc);
    }

    pub fn mirror_vram_addr(&self, addr: u16) -> (r: u16)
        requires
            0x2000 <= addr < 0x4000,
        ensures
            r == mirror_spec(self.mirroring, addr),
            r < VRAM_SIZE,
    {
        let mirrored = if addr >= 0x3000 {
            addr - 0x1000
        } else {
            addr
        };
        let vram_index = mirrored - 0x2000;
        let name_table = vram_index / 0x400;
        match (self.mirroring, name_table) {
            (Mirroring::Vertical, 2) | (Mirroring::Vertical, 3) => vram_index - 0x800,
            (Mirroring::Horizontal, 1) | (Mirroring::Horizontal, 2) => vram_index - 0x400,
            (Mirroring::Horizontal, 3) => vram_index - 0x800,
            _ => vram_index,
        }
    }

    /// Reads the data port: buffered outside the palette region, immediate inside it.
    pub fn read_data(&mut self) -> (r: u8)
        requires
            old(self).wf(),
        ensures
            final(self).wf(),
            r == old(self)@.read_result(),
            final(self)@ == old(self)@.after_read(),
    {
        let addr = self.addr.get();
        self.increment_vram_addr();
        if addr < 0x2000 {
            let result = self.internal_data_buf;
            self.internal_data_buf = if (addr as usize) < self.chr_rom.len() {
                self.chr_rom[addr as usize]
            } else {
                0
            };
            result
        } else if addr < 0x3f00 {
            let result = self.internal_data_buf;
            let i = self.mirror_vram_addr(addr);
            self.internal_data_buf = self.vram[i as usize];
            result
        } else {
            self.palette[((addr - 0x3f00) % 32) as usize]
        }
    }

    /// Writes the data port; writes to the pattern region are ignored.
    pub fn write_data(&mut self, v: u8)
        requires
            old(self).wf(),
        ensures
            final(self).wf(),
            final(self)@ == old(self)@.after_write(v),
    {
        let addr = self.addr.get();
        self.increment_vram_addr();
        if addr < 0x2000 {
        } else if addr < 0x3f00 {
            let i = self.mirror_vram_addr(addr);
            self.vram.set(i as usize, v);
        } else {
            self.palette.set(((addr - 0x3f00) % 32) as usize, v);
        }
    }

    /// A write from the processor to the register selected by `reg`.
    pub fn write_register(&mut self, reg: u16, v: u8)
        requires
            old(self).wf(),
            reg < 8,
        ensures
            final(self).wf(),
            final(self)@ == old(self)@.after_register_write(reg as int, v),
    {
        if reg == 0 {
            self.write_to_control_register(v);
        } else if reg == 6 {
            self.write_to_address_register(v);
        } else if reg == 7 {
            self.write_data(v);
        }
    }
}

} // verus!
