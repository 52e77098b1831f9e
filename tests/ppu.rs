use nesnes::mem::Mem;
use nesnes::ppu::ControlRegister;
use nesnes::ppu::Mirroring;
use nesnes::ppu::Ppu;
use nesnes::ppu::PpuAddressRegister;

#[test]
fn address_latch_takes_high_byte_first() {
    let mut r = PpuAddressRegister::new();
    r.update(0x21);
    r.update(0x08);
    assert_eq!(r.get(), 0x2108);
    r.update(0x7f);
    r.update(0xff);
    assert_eq!(r.get(), 0x3fff);
    r.increment(1);
    assert_eq!(r.get(), 0x0000);
}

#[test]
fn address_latch_reset() {
    let mut r = PpuAddressRegister::new();
    r.update(0x23);
    r.reset_latch();
    r.update(0x24);
    r.update(0x00);
    assert_eq!(r.get(), 0x2400);
}

#[test]
fn control_register_fields() {
    let mut c = ControlRegister::new();
    assert_eq!(c.vram_addr_increment(), 1);
    c.update(0b1011_1110);
    assert_eq!(c.vram_addr_increment(), 32);
    assert_eq!(c.nametable_addr(), 0x2800);
    assert_eq!(c.sprite_pattern_addr(), 0x1000);
    assert_eq!(c.background_pattern_addr(), 0x1000);
    assert_eq!(c.sprite_size(), 16);
    assert!(!c.master_slave_select());
    assert!(c.generate_vblank_nmi());
    c.update(0x01);
    assert_eq!(c.vram_addr_increment(), 1);
    assert_eq!(c.nametable_addr(), 0x2400);
    assert_eq!(c.sprite_size(), 8);
}

#[test]
fn name_table_mirroring() {
    let h = Ppu::new(vec![], Mirroring::Horizontal);
    assert_eq!(h.mirror_vram_addr(0x2000), 0x000);
    assert_eq!(h.mirror_vram_addr(0x2405), 0x005);
    assert_eq!(h.mirror_vram_addr(0x2805), 0x405);
    assert_eq!(h.mirror_vram_addr(0x2c05), 0x405);
    assert_eq!(h.mirror_vram_addr(0x3005), 0x005);
    let v = Ppu::new(vec![], Mirroring::Vertical);
    assert_eq!(v.mirror_vram_addr(0x2405), 0x405);
    assert_eq!(v.mirror_vram_addr(0x2805), 0x005);
    assert_eq!(v.mirror_vram_addr(0x2c05), 0x405);
}

#[test]
fn data_port_through_the_bus() {
    let mut mem = Mem::new();
    mem.store_u8(0x2000, 0x00);
    mem.store_u8(0x2006, 0x3f);
    mem.store_u8(0x2006, 0x00);
    mem.store_u8(0x2007, 0x12);
    assert_eq!(mem.ppu.addr.get(), 0x3f01);
    // Palette reads are not buffered.
    mem.store_u8(0x2006, 0x3f);
    mem.store_u8(0x2006, 0x00);
    assert_eq!(mem.ppu.read_data(), 0x12);

    // Step of 32, set through a mirror of the control register.
    mem.store_u8(0x2008, 0x04);
    mem.store_u8(0x200e, 0x21);
    mem.store_u8(0x200e, 0x05);
    mem.store_u8(0x2007, 0x66);
    assert_eq!(mem.ppu.addr.get(), 0x2125);
    mem.store_u8(0x2006, 0x21);
    mem.store_u8(0x2006, 0x05);
    // Name-table reads return the previous buffer first.
    assert_eq!(mem.ppu.read_data(), 0x00);
    assert_eq!(mem.ppu.addr.get(), 0x2125);
    assert_eq!(mem.ppu.read_data(), 0x66);
}

#[test]
fn pattern_reads_are_buffered_and_writes_ignored() {
    let mut p = Ppu::new(vec![1, 2, 3, 4], Mirroring::Vertical);
    p.write_to_address_register(0x00);
    p.write_to_address_register(0x02);
    p.write_data(0x99);
    p.reset_latch();
    p.write_to_address_register(0x00);
    p.write_to_address_register(0x02);
    assert_eq!(p.read_data(), 0);
    assert_eq!(p.read_data(), 3);
    assert_eq!(p.read_data(), 4);
}

#[test]
fn control_write_replaces_the_register() {
    let mut p = Ppu::new(vec![], Mirroring::Vertical);
    p.write_to_control_register(0x84);
    p.write_to_control_register(0x00);
    assert_eq!(p.ctrl.bits, 0x00);
}

#[test]
fn data_port_read_through_the_bus_is_buffered() {
    let mut mem = Mem::new();
    mem.store_u8(0x2006, 0x20);
    mem.store_u8(0x2006, 0x10);
    mem.store_u8(0x2007, 0xab);
    mem.store_u8(0x2007, 0xcd);
    mem.store_u8(0x2006, 0x20);
    mem.store_u8(0x2006, 0x10);
    assert_eq!(mem.read_u8(0x2007), 0x00);
    assert_eq!(mem.read_u8(0x3fff), 0xab);
    assert_eq!(mem.read_u8(0x2007), 0xcd);
    mem.store_u8(0x2006, 0x3f);
    mem.store_u8(0x2006, 0x01);
    mem.store_u8(0x2007, 0x0e);
    mem.store_u8(0x2006, 0x3f);
    mem.store_u8(0x2006, 0x01);
    assert_eq!(mem.read_u8(0x2007), 0x0e);
    mem.store_u8(0x0005, 0x44);
    assert_eq!(mem.read_u8(0x0805), 0x44);
}
