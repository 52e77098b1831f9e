use nesnes::cpu::Cpu;
use nesnes::flags::Flags;
use nesnes::flags::FLAG_C;
use nesnes::flags::FLAG_N;
use nesnes::flags::FLAG_V;
use nesnes::flags::FLAG_Z;

#[test]
fn apply_nz_sets_zero_only_for_zero() {
    for v in 0..=255u8 {
        let mut f = Flags::from_bits_truncate(0x24);
        f.apply_nz(v);
        assert_eq!(f.contains(FLAG_Z), v == 0, "value {:02x}", v);
        assert_eq!(f.contains(FLAG_N), v & 0x80 != 0, "value {:02x}", v);
        assert_eq!(f.bits() & !(FLAG_N | FLAG_Z), 0x24);
    }
}

#[test]
fn apply_nz_clears_stale_flags() {
    let mut f = Flags::from_bits_truncate(0xff);
    f.apply_nz(0x01);
    assert_eq!(f.bits(), 0x7d);
    f.apply_nz(0x80);
    assert_eq!(f.bits(), 0xfd);
    f.apply_nz(0x00);
    assert_eq!(f.bits(), 0x7f);
}

#[test]
fn set_and_contains_single_flags() {
    let mut f = Flags::from_bits_truncate(0);
    f.set(FLAG_C, true);
    f.set(FLAG_V, true);
    assert_eq!(f.bits(), 0x41);
    assert!(f.contains(FLAG_C));
    f.set(FLAG_C, false);
    assert_eq!(f.bits(), 0x40);
    assert_eq!(f.carry_bit(), 0);
}

#[test]
fn cpu_flag_setters_touch_one_bit() {
    let mut cpu = Cpu::default();
    assert_eq!(cpu.sp.bits(), 0x24);
    assert_eq!(cpu.s, 0xfd);
    cpu.carry_flag(true);
    cpu.overflow_flag(true);
    cpu.decimal_flag(true);
    cpu.negative_flag(true);
    cpu.zero_flag(true);
    assert_eq!(cpu.sp.bits(), 0xef);
    cpu.interrupt_flag(false);
    assert_eq!(cpu.sp.bits(), 0xeb);
    cpu.nz_flags(0x42);
    assert_eq!(cpu.sp.bits(), 0x69);
    assert_eq!(cpu.stack_ptr(), 0x01fd);
}
