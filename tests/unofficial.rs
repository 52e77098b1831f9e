use nesnes::emu::Emu;
use nesnes::flags::FLAG_C;
use nesnes::flags::FLAG_N;
use nesnes::flags::FLAG_V;
use nesnes::flags::FLAG_Z;
use nesnes::ops::asl;
use nesnes::ops::ror_i;
use nesnes::unofficial_ops::aac;
use nesnes::unofficial_ops::aax;
use nesnes::unofficial_ops::arr;
use nesnes::unofficial_ops::asr;
use nesnes::unofficial_ops::atx;

#[test]
fn undocumented_helpers() {
    let mut emu = Emu::new();
    emu.cpu.a = 0xf0;
    aac(&mut emu, 0x8f);
    assert_eq!(emu.cpu.a, 0x80);
    assert!(emu.cpu.sp.contains(FLAG_C));
    assert!(emu.cpu.sp.contains(FLAG_N));

    emu.cpu.a = 0x0f;
    emu.cpu.x = 0x3c;
    aax(&mut emu, 0x0040);
    assert_eq!(emu.mem.load_u8(0x0040), 0x0c);

    emu.cpu.a = 0xff;
    atx(&mut emu, 0x00);
    assert_eq!(emu.cpu.x, 0x00);
    assert!(emu.cpu.sp.contains(FLAG_Z));

    emu.cpu.a = 0x03;
    asr(&mut emu, 0x02);
    assert!(emu.cpu.sp.contains(FLAG_C));
    assert!(!emu.cpu.sp.contains(FLAG_Z));
    assert_eq!(emu.cpu.a, 0x03);

    emu.cpu.a = 0xc1;
    arr(&mut emu, 0xff);
    // 0xc1 rotated right is 0xe0: bits 5 and 6 set.
    assert!(emu.cpu.sp.contains(FLAG_C));
    assert!(!emu.cpu.sp.contains(FLAG_V));
    assert!(emu.cpu.sp.contains(FLAG_N));
}

#[test]
fn shifts_take_carry_before_shifting() {
    let mut emu = Emu::new();
    emu.mem.store_u8(0x0010, 0x81);
    asl(&mut emu, 0x0010);
    assert_eq!(emu.mem.load_u8(0x0010), 0x02);
    assert!(emu.cpu.sp.contains(FLAG_C));
    assert!(!emu.cpu.sp.contains(FLAG_N));
    emu.cpu.a = 0x01;
    ror_i(&mut emu);
    assert_eq!(emu.cpu.a, 0x80);
    assert!(emu.cpu.sp.contains(FLAG_C));
    assert!(emu.cpu.sp.contains(FLAG_N));
    assert_eq!(emu.cpu.pc, 0x0001);
}
