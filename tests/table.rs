use nesnes::emu::Emu;
use nesnes::isa::Instr;
use nesnes::isa::Mode;
use nesnes::ops::execute;
use nesnes::ops::op_info;

#[test]
fn opcode_table_has_every_slot() {
    let mut undefined = 0;
    for op in 0..=255u8 {
        let d = op_info(op);
        assert_eq!(d.opcode, op);
        assert!(d.cycles >= 2 && d.cycles <= 7);
        if d.instr == Instr::Undef {
            undefined += 1;
            assert_eq!(d.instr.mnemonic(), "undef");
        } else {
            assert_eq!(d.instr.mnemonic().len(), 3);
        }
    }
    assert_eq!(undefined, 105);
}

#[test]
fn opcode_table_known_entries() {
    let d = op_info(0xa9);
    assert_eq!((d.instr, d.mode, d.cycles), (Instr::Lda, Mode::Immediate, 2));
    assert_eq!(d.instr.mnemonic(), "lda");
    let d = op_info(0x6c);
    assert_eq!((d.instr, d.mode, d.cycles), (Instr::Jmp, Mode::Indirect, 5));
    let d = op_info(0x1e);
    assert_eq!((d.instr, d.mode, d.cycles), (Instr::Asl, Mode::AbsoluteX, 7));
    let d = op_info(0x91);
    assert_eq!((d.instr, d.mode, d.cycles), (Instr::Sta, Mode::IndirectY, 6));
    let d = op_info(0xff);
    assert_eq!(d.instr, Instr::Undef);
}

#[test]
fn indirect_modes_wrap_in_zero_page() {
    let mut emu = Emu::new();
    // LDA ($ff,X) with X = 0: pointer low byte at 0x00ff, high byte at 0x0000.
    emu.mem.copy_from_slice(0x0300, &[0xa1, 0xff]);
    emu.mem.store_u8(0x00ff, 0x34);
    emu.mem.store_u8(0x0000, 0x02);
    emu.mem.store_u8(0x0234, 0x99);
    emu.cpu.pc = 0x0300;
    assert_eq!(execute(&mut emu, 0xa1), 0);
    assert_eq!(emu.cpu.a, 0x99);
    assert_eq!(emu.cpu.pc, 0x0302);
    // LDA ($10),Y crossing a page pays one cycle.
    emu.mem.copy_from_slice(0x0302, &[0xb1, 0x10]);
    emu.mem.store_u8(0x0010, 0xf0);
    emu.mem.store_u8(0x0011, 0x02);
    emu.mem.store_u8(0x0310, 0x5a);
    emu.cpu.y = 0x20;
    assert_eq!(emu.run_cpu_once(), 6);
    assert_eq!(emu.cpu.a, 0x5a);
}

#[test]
fn zero_page_indexing_wraps() {
    let mut emu = Emu::new();
    emu.mem.copy_from_slice(0x0400, &[0xb5, 0xf0, 0x96, 0x80]);
    emu.mem.store_u8(0x0010, 0x21);
    emu.cpu.pc = 0x0400;
    emu.cpu.x = 0x20;
    emu.run_cpu_once();
    assert_eq!(emu.cpu.a, 0x21);
    emu.cpu.y = 0x90;
    emu.cpu.x = 0x77;
    emu.run_cpu_once();
    assert_eq!(emu.mem.load_u8(0x0010), 0x77);
}
