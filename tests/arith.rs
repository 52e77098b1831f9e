use nesnes::emu::Emu;
use nesnes::flags::FLAG_C;
use nesnes::flags::FLAG_N;
use nesnes::flags::FLAG_V;
use nesnes::flags::FLAG_Z;
use nesnes::ops::adc;
use nesnes::ops::cmp;
use nesnes::ops::sbc;

fn signed(b: u8) -> i32 {
    b as i8 as i32
}

#[test]
fn adc_matches_reference_for_all_inputs() {
    let mut emu = Emu::new();
    for a in 0..=255u8 {
        for v in 0..=255u8 {
            for c in 0..=1u8 {
                emu.cpu.a = a;
                emu.cpu.carry_flag(c == 1);
                adc(&mut emu, v);
                let sum = a as u32 + v as u32 + c as u32;
                let ssum = signed(a) + signed(v) + c as i32;
                assert_eq!(emu.cpu.a, (sum % 256) as u8);
                assert_eq!(emu.cpu.sp.contains(FLAG_C), sum > 255);
                assert_eq!(emu.cpu.sp.contains(FLAG_V), !(-128..=127).contains(&ssum));
                assert_eq!(emu.cpu.sp.contains(FLAG_Z), sum % 256 == 0);
                assert_eq!(emu.cpu.sp.contains(FLAG_N), sum % 256 >= 128);
            }
        }
    }
}

#[test]
fn sbc_matches_reference_for_all_inputs() {
    let mut emu = Emu::new();
    for a in 0..=255u8 {
        for v in 0..=255u8 {
            for c in 0..=1u8 {
                emu.cpu.a = a;
                emu.cpu.carry_flag(c == 1);
                sbc(&mut emu, v);
                let diff = a as i32 - v as i32 - (1 - c as i32);
                let sdiff = signed(a) - signed(v) - (1 - c as i32);
                assert_eq!(emu.cpu.a, diff.rem_euclid(256) as u8);
                assert_eq!(emu.cpu.sp.contains(FLAG_C), diff >= 0);
                assert_eq!(emu.cpu.sp.contains(FLAG_V), !(-128..=127).contains(&sdiff));
            }
        }
    }
}

#[test]
fn adc_known_cases() {
    let mut emu = Emu::new();
    emu.cpu.a = 0x50;
    emu.cpu.carry_flag(false);
    adc(&mut emu, 0x50);
    assert_eq!(emu.cpu.a, 0xa0);
    assert!(emu.cpu.sp.contains(FLAG_V));
    assert!(!emu.cpu.sp.contains(FLAG_C));
    emu.cpu.a = 0xff;
    emu.cpu.carry_flag(true);
    adc(&mut emu, 0x00);
    assert_eq!(emu.cpu.a, 0x00);
    assert!(emu.cpu.sp.contains(FLAG_C));
    assert!(emu.cpu.sp.contains(FLAG_Z));
    assert!(!emu.cpu.sp.contains(FLAG_V));
}

#[test]
fn compare_sets_carry_without_storing() {
    let mut emu = Emu::new();
    emu.cpu.a = 0x40;
    cmp(&mut emu, 0x40);
    assert_eq!(emu.cpu.a, 0x40);
    assert!(emu.cpu.sp.contains(FLAG_C));
    assert!(emu.cpu.sp.contains(FLAG_Z));
    cmp(&mut emu, 0x41);
    assert!(!emu.cpu.sp.contains(FLAG_C));
    assert!(emu.cpu.sp.contains(FLAG_N));
    assert_eq!(emu.cpu.a, 0x40);
}
