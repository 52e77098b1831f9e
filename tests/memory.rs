use nesnes::emu::Emu;
use nesnes::mem::EmuError;
use nesnes::mem::Loc;
use nesnes::mem::Mem;
use nesnes::mem::Rom;
use nesnes::ppu::Mirroring;

fn rom(len: usize) -> Rom {
    let prg: Vec<u8> = (0..len).map(|i| (i * 7 + i / 256) as u8).collect();
    Rom { prg_rom: prg, chr_rom: vec![], screen_mirroring: Mirroring::Horizontal }
}

#[test]
fn sixteen_kib_rom_is_mirrored() {
    let mut mem = Mem::new();
    assert_eq!(mem.set_rom(rom(0x4000)), Ok(()));
    let image = rom(0x4000).prg_rom;
    for addr in 0xc000..=0xffffu16 {
        assert_eq!(mem.load_u8(addr), mem.load_u8(addr - 0x4000));
        assert_eq!(mem.load_u8(addr), image[(addr - 0xc000) as usize]);
    }
}

#[test]
fn thirty_two_kib_rom_is_not_mirrored() {
    let mut mem = Mem::new();
    assert_eq!(mem.set_rom(rom(0x8000)), Ok(()));
    let image = rom(0x8000).prg_rom;
    assert_eq!(mem.load_u8(0xc001), image[0x4001]);
    assert_eq!(mem.load_u8(0x8001), image[0x0001]);
    assert_ne!(mem.load_u8(0xc001), mem.load_u8(0x8001));
}

#[test]
fn other_rom_sizes_are_rejected() {
    let mut mem = Mem::new();
    for len in [0usize, 4, 0x2000, 0x4001, 0x6000, 0x10000] {
        assert_eq!(mem.set_rom(rom(len)), Err(EmuError::InvalidRomSize));
        assert_eq!(mem.prg_rom.len(), 0x8000);
    }
    let mut emu = Emu::new();
    assert_eq!(emu.load(rom(0x3fff)), Err(EmuError::InvalidRomSize));
}

#[test]
fn writes_to_rom_are_ignored() {
    let mut mem = Mem::new();
    mem.set_rom(rom(0x4000)).unwrap();
    let before = mem.load_u8(0x8123);
    mem.store_u8(0x8123, before.wrapping_add(1));
    mem.store_u8(0xc123, before.wrapping_add(2));
    assert_eq!(mem.load_u8(0x8123), before);
    assert_eq!(mem.translate_address_w(0x8123), None);
}

#[test]
fn internal_ram_repeats_every_two_kib() {
    let mut mem = Mem::new();
    mem.store_u8(0x0802, 0x5a);
    assert_eq!(mem.load_u8(0x0002), 0x5a);
    assert_eq!(mem.load_u8(0x1002), 0x5a);
    assert_eq!(mem.load_u8(0x1802), 0x5a);
    assert_eq!(mem.translate_address_r(0x1fff), Loc::Ram(0x07ff));
}

#[test]
fn ppu_registers_repeat_every_eight_bytes() {
    let mut mem = Mem::new();
    mem.store_u8(0x3ff9, 0x42);
    assert_eq!(mem.load_u8(0x2001), 0x42);
    assert_eq!(mem.translate_address_r(0x2008), Loc::Ram(0x2000));
    assert_eq!(mem.translate_address_r(0x5000), Loc::Ram(0x5000));
}

#[test]
fn word_read_takes_next_physical_byte() {
    let mut mem = Mem::new();
    mem.store_u8(0x07ff, 0x34);
    mem.store_u8(0x0000, 0x99);
    mem.copy_from_slice(0x0800, &[0x12]);
    // 0x1fff maps to 0x07ff; its high byte is physical 0x0800, not bus address 0x2000.
    assert_eq!(mem.load_u16(0x1fff), 0x1234);
    mem.store_u16(0x0010, 0xbeef);
    assert_eq!(mem.load_u8(0x0010), 0xef);
    assert_eq!(mem.load_u8(0x0011), 0xbe);
    assert_eq!(mem.load_u16(0x0010), 0xbeef);
}

#[test]
fn word_read_at_end_of_rom_wraps_within_image() {
    let mut mem = Mem::new();
    let mut r = rom(0x8000);
    r.prg_rom[0x7fff] = 0xaa;
    r.prg_rom[0x0000] = 0xbb;
    mem.set_rom(r).unwrap();
    assert_eq!(mem.load_u16(0xffff), 0xbbaa);
}

#[test]
fn teaching_machine_program_and_screen() {
    let mut emu = Emu::new();
    // LDA #$01 ; STA $0200 ; LDA #$05 ; STA $0201
    emu.load_easy(vec![0xa9, 0x01, 0x8d, 0x00, 0x02, 0xa9, 0x05, 0x8d, 0x01, 0x02]);
    assert_eq!(emu.cpu.pc, 0x0600);
    for _ in 0..4 {
        emu.run_cpu_once();
    }
    assert_eq!(emu.mem.get_frame_easy().len(), 0x400);
    assert_eq!(emu.mem.get_frame_easy()[0], 1);
    let mut f = vec![7u8; 0x1004];
    emu.render_easy(&mut f);
    assert_eq!(&f[0..4], &[0xff, 0xff, 0xff, 0xff]);
    assert_eq!(&f[4..8], &[0xcc, 0xcc, 0x20, 0xff]);
    assert_eq!(&f[8..12], &[0x00, 0x00, 0x00, 0xff]);
    assert_eq!(&f[0x1000..], &[7, 7, 7, 7]);
}

#[test]
fn screen_colours_follow_the_palette() {
    let mut emu = Emu::new();
    let bytes = [0u8, 1, 2, 3, 4, 5, 16, 6];
    emu.mem.copy_from_slice(0x0200, &bytes);
    let mut f = vec![0u8; 0x1000];
    emu.render_easy(&mut f);
    let expected: [[u8; 4]; 8] = [
        [0x00, 0x00, 0x00, 0xff],
        [0xff, 0xff, 0xff, 0xff],
        [0x00, 0x00, 0xff, 0xff],
        [0xff, 0x00, 0x00, 0xff],
        [0x00, 0xff, 0x00, 0xff],
        [0xcc, 0xcc, 0x20, 0xff],
        [0xff, 0x00, 0xff, 0xff],
        [0x00, 0x00, 0xff, 0xff],
    ];
    for (i, e) in expected.iter().enumerate() {
        assert_eq!(&f[4 * i..4 * i + 4], e);
    }
}

#[test]
fn teaching_machine_frame_hands_over_random_byte_and_key() {
    let mut emu = Emu::new();
    // LDA $fe ; STA $0200 ; LDA $ff ; STA $0201 ; JMP $060c (spin)
    emu.load_easy(vec![
        0xa5, 0xfe, 0x8d, 0x00, 0x02, 0xa5, 0xff, 0x8d, 0x01, 0x02, 0xea, 0xea, 0x4c, 0x0c, 0x06,
    ]);
    emu.step_frame_easy(0x3c, Some(0x77));
    assert_eq!(emu.stat.frame_counter, 1);
    assert_eq!(emu.mem.load_u8(0x0200), 0x3c);
    assert_eq!(emu.mem.load_u8(0x0201), 0x77);
    assert!(emu.stat.cycle_counter >= 256 && emu.stat.cycle_counter < 256 + 9);
    emu.step_frame_easy(0x01, None);
    assert_eq!(emu.stat.frame_counter, 2);
    assert_eq!(emu.mem.load_u8(0x00fe), 0x01);
    assert_eq!(emu.mem.load_u8(0x00ff), 0x77);
}
