use nesnes::emu::Emu;
use nesnes::emu::Snapshot;
use nesnes::flags::FLAG_C;
use nesnes::flags::FLAG_I;
use nesnes::flags::FLAG_Z;
use nesnes::mem::Rom;
use nesnes::ppu::Mirroring;

fn machine_with_rom(program: &[u8], at: usize) -> Emu {
    let mut prg = vec![0xeau8; 0x4000];
    prg[at..at + program.len()].copy_from_slice(program);
    let mut emu = Emu::new();
    emu.load(Rom { prg_rom: prg, chr_rom: vec![], screen_mirroring: Mirroring::Horizontal })
        .unwrap();
    emu
}

fn trace_line(s: &Snapshot) -> String {
    format!(
        "{:04X} {:02X} A:{:02X} X:{:02X} Y:{:02X} P:{:02X} SP:{:02X} CYC:{}",
        s.pc, s.opcode, s.a, s.x, s.y, s.p, s.s, s.cycles
    )
}

#[test]
fn branch_not_taken_costs_base_cycles() {
    // BNE +0x10 with Zero set.
    let mut emu = machine_with_rom(&[0xd0, 0x10], 0x0000);
    emu.cpu.pc = 0xc000;
    emu.cpu.zero_flag(true);
    assert_eq!(emu.run_cpu_once(), 2);
    assert_eq!(emu.cpu.pc, 0xc002);
    assert_eq!(emu.stat.cycle_counter, 2);
}

#[test]
fn branch_taken_same_page_costs_one_more() {
    let mut emu = machine_with_rom(&[0xd0, 0x10], 0x0000);
    emu.cpu.pc = 0xc000;
    emu.cpu.zero_flag(false);
    assert_eq!(emu.run_cpu_once(), 3);
    assert_eq!(emu.cpu.pc, 0xc012);
}

#[test]
fn branch_taken_across_page_costs_two_more() {
    // BEQ -4 at 0xc0fe would land on 0xc0fc: same page; BEQ +4 at 0xc0fc lands on 0xc102.
    let mut emu = machine_with_rom(&[0xf0, 0x04], 0x00fc);
    emu.cpu.pc = 0xc0fc;
    emu.cpu.zero_flag(true);
    assert_eq!(emu.run_cpu_once(), 4);
    assert_eq!(emu.cpu.pc, 0xc102);
}

#[test]
fn branch_backwards_uses_signed_displacement() {
    let mut emu = machine_with_rom(&[0x90, 0xfc], 0x0010);
    emu.cpu.pc = 0xc010;
    emu.cpu.carry_flag(false);
    assert_eq!(emu.run_cpu_once(), 3);
    assert_eq!(emu.cpu.pc, 0xc00e);
}

#[test]
fn indexed_read_pays_for_page_cross() {
    // LDA $c0f0,X with X = 0x20 crosses into 0xc1; with X = 0x01 it does not.
    let mut emu = machine_with_rom(&[0xbd, 0xf0, 0xc0], 0x0000);
    emu.cpu.pc = 0xc000;
    emu.cpu.x = 0x20;
    assert_eq!(emu.run_cpu_once(), 5);
    let mut emu = machine_with_rom(&[0xbd, 0xf0, 0xc0], 0x0000);
    emu.cpu.pc = 0xc000;
    emu.cpu.x = 0x01;
    assert_eq!(emu.run_cpu_once(), 4);
    // A store through the same mode never pays extra.
    let mut emu = machine_with_rom(&[0x9d, 0xf0, 0x00], 0x0000);
    emu.cpu.pc = 0xc000;
    emu.cpu.x = 0x20;
    emu.cpu.a = 0x77;
    assert_eq!(emu.run_cpu_once(), 5);
    assert_eq!(emu.mem.load_u8(0x0110), 0x77);
}

#[test]
fn jmp_indirect_wraps_within_page() {
    let mut emu = machine_with_rom(&[0x6c, 0xff, 0x02], 0x0000);
    emu.cpu.pc = 0xc000;
    emu.mem.store_u8(0x02ff, 0x34);
    emu.mem.store_u8(0x0200, 0x12);
    emu.mem.store_u8(0x0300, 0x56);
    assert_eq!(emu.run_cpu_once(), 5);
    assert_eq!(emu.cpu.pc, 0x1234);
}

#[test]
fn jmp_indirect_without_quirk() {
    let mut emu = machine_with_rom(&[0x6c, 0x80, 0x02], 0x0000);
    emu.cpu.pc = 0xc000;
    emu.mem.store_u8(0x0280, 0xcd);
    emu.mem.store_u8(0x0281, 0xab);
    emu.run_cpu_once();
    assert_eq!(emu.cpu.pc, 0xabcd);
}

#[test]
fn php_then_plp_restores_user_flags() {
    let mut emu = machine_with_rom(&[0x08, 0x28], 0x0000);
    emu.cpu.pc = 0xc000;
    emu.cpu.sp = nesnes::flags::Flags::from_bits_truncate(0xcb);
    emu.run_cpu_once();
    assert_eq!(emu.mem.load_u8(0x01fd), 0xfb);
    assert_eq!(emu.cpu.s, 0xfc);
    emu.run_cpu_once();
    assert_eq!(emu.cpu.sp.bits(), 0xeb);
    assert_eq!(emu.cpu.s, 0xfd);
    assert_eq!(emu.cpu.pc, 0xc002);
}

#[test]
fn plp_sets_reserved_and_clears_break() {
    let mut emu = machine_with_rom(&[0x28], 0x0000);
    emu.cpu.pc = 0xc000;
    emu.mem.store_u8(0x01fe, 0x10);
    emu.run_cpu_once();
    assert_eq!(emu.cpu.sp.bits(), 0x20);
}

#[test]
fn jsr_pushes_last_byte_and_rts_returns_after_it() {
    // 0xc000: JSR $c010 ; 0xc010: RTS
    let mut emu = machine_with_rom(&[0x20, 0x10, 0xc0], 0x0000);
    let mut emu2 = machine_with_rom(&[0x60], 0x0010);
    emu.mem.prg_rom[0x10] = 0x60;
    emu.cpu.pc = 0xc000;
    assert_eq!(emu.run_cpu_once(), 6);
    assert_eq!(emu.cpu.pc, 0xc010);
    assert_eq!(emu.mem.load_u8(0x01fd), 0xc0);
    assert_eq!(emu.mem.load_u8(0x01fc), 0x02);
    assert_eq!(emu.cpu.s, 0xfb);
    assert_eq!(emu.run_cpu_once(), 6);
    assert_eq!(emu.cpu.pc, 0xc003);
    assert_eq!(emu.cpu.s, 0xfd);
    emu2.cpu.pc = 0xc010;
    emu2.cpu.s = 0xfb;
    emu2.mem.store_u8(0x01fc, 0xff);
    emu2.mem.store_u8(0x01fd, 0x12);
    emu2.run_cpu_once();
    assert_eq!(emu2.cpu.pc, 0x1300);
}

#[test]
fn brk_and_rti_round_trip() {
    let mut prg = vec![0xeau8; 0x4000];
    prg[0x0000] = 0x00; // BRK at 0xc000
    prg[0x0100] = 0x40; // RTI at 0xc100
    prg[0x3ffe] = 0x00;
    prg[0x3fff] = 0xc1;
    let mut emu = Emu::new();
    emu.load(Rom { prg_rom: prg, chr_rom: vec![], screen_mirroring: Mirroring::Vertical })
        .unwrap();
    emu.cpu.pc = 0xc000;
    emu.cpu.sp = nesnes::flags::Flags::from_bits_truncate(0x20);
    assert_eq!(emu.run_cpu_once(), 7);
    assert_eq!(emu.cpu.pc, 0xc100);
    assert!(emu.cpu.sp.contains(FLAG_I));
    assert_eq!(emu.mem.load_u8(0x01fb), 0x30);
    assert_eq!(emu.mem.load_u8(0x01fc), 0x01);
    assert_eq!(emu.mem.load_u8(0x01fd), 0xc0);
    assert_eq!(emu.run_cpu_once(), 6);
    assert_eq!(emu.cpu.pc, 0xc001);
    assert_eq!(emu.cpu.sp.bits(), 0x20);
    assert_eq!(emu.cpu.s, 0xfd);
}

#[test]
fn nmi_pushes_flags_with_break_clear() {
    let mut prg = vec![0xeau8; 0x4000];
    prg[0x3ffa] = 0x00;
    prg[0x3ffb] = 0xd0;
    let mut emu = Emu::new();
    emu.load(Rom { prg_rom: prg, chr_rom: vec![], screen_mirroring: Mirroring::Vertical })
        .unwrap();
    emu.cpu.pc = 0xc123;
    emu.cpu.sp = nesnes::flags::Flags::from_bits_truncate(0x10);
    emu.nmi();
    assert_eq!(emu.cpu.pc, 0xd000);
    assert_eq!(emu.mem.load_u8(0x01fb), 0x20);
    assert_eq!(emu.mem.load_u8(0x01fc), 0x23);
    assert_eq!(emu.mem.load_u8(0x01fd), 0xc1);
}

#[test]
fn reset_reads_vector() {
    let mut prg = vec![0u8; 0x8000];
    prg[0x7ffc] = 0x00;
    prg[0x7ffd] = 0x80;
    let mut emu = Emu::new();
    emu.load(Rom { prg_rom: prg, chr_rom: vec![], screen_mirroring: Mirroring::Vertical })
        .unwrap();
    emu.cpu.a = 9;
    emu.reset();
    assert_eq!(emu.cpu.pc, 0x8000);
    assert_eq!(emu.cpu.a, 0);
    assert_eq!(emu.cpu.s, 0xfd);
    assert_eq!(emu.cpu.sp.bits(), 0x24);
}

#[test]
fn undefined_opcode_is_a_recorded_one_byte_noop() {
    let mut emu = machine_with_rom(&[0x02], 0x0000);
    emu.cpu.pc = 0xc000;
    emu.cpu.a = 0x11;
    assert_eq!(emu.run_cpu_once(), 2);
    assert_eq!(emu.cpu.pc, 0xc001);
    assert_eq!(emu.cpu.a, 0x11);
    assert_eq!(emu.stat.last_undefined, Some(0xc000));
}

#[test]
fn run_cpu_clocks_reaches_target_without_undershoot() {
    // NOPs cost two cycles each; a target of 5 ends after three of them.
    let mut emu = machine_with_rom(&[], 0x0000);
    emu.cpu.pc = 0xc000;
    emu.run_cpu_clocks(5);
    assert_eq!(emu.stat.cycle_counter, 6);
    assert_eq!(emu.cpu.pc, 0xc003);
    emu.run_cpu_clocks(0);
    assert_eq!(emu.stat.cycle_counter, 6);
}

#[test]
fn trace_matches_reference_lines() {
    let program = [
        0xa2, 0x05, // LDX #$05
        0xa9, 0x10, // LDA #$10
        0x85, 0x00, // STA $00
        0x18, // CLC
        0x69, 0xf5, // ADC #$f5
        0xca, // DEX
        0xd0, 0xfd, // BNE $c009
    ];
    let mut emu = machine_with_rom(&program, 0x0000);
    emu.cpu.pc = 0xc000;
    emu.stat.cycle_counter = 7;
    let trace = emu.run_cpu_with_trace(8);
    let lines: Vec<String> = trace.iter().map(trace_line).collect();
    let expected = [
        "C000 A2 A:00 X:00 Y:00 P:24 SP:FD CYC:7",
        "C002 A9 A:00 X:05 Y:00 P:24 SP:FD CYC:9",
        "C004 85 A:10 X:05 Y:00 P:24 SP:FD CYC:11",
        "C006 18 A:10 X:05 Y:00 P:24 SP:FD CYC:14",
        "C007 69 A:10 X:05 Y:00 P:24 SP:FD CYC:16",
        "C009 CA A:05 X:05 Y:00 P:25 SP:FD CYC:18",
        "C00A D0 A:05 X:04 Y:00 P:25 SP:FD CYC:20",
        "C009 CA A:05 X:04 Y:00 P:25 SP:FD CYC:23",
    ];
    assert_eq!(lines, expected);
    assert_eq!(emu.cpu.x, 3);
    assert_eq!(emu.mem.load_u8(0x0000), 0x10);
    assert_eq!(emu.stat.cycle_counter, 25);
    assert!(emu.cpu.sp.contains(FLAG_C));
    assert!(!emu.cpu.sp.contains(FLAG_Z));
}

#[test]
fn test() {
    let mut emu = Emu::default();
    let r = emu.load(Rom { prg_rom: vec![0x00, 0x00, 0x00, 0x00], chr_rom: vec![], screen_mirroring: Mirroring::Horizontal });
    assert_eq!(r, Err(nesnes::mem::EmuError::InvalidRomSize));
    emu.run_cpu_clocks(100);
    assert!(emu.stat.cycle_counter >= 100);
}
