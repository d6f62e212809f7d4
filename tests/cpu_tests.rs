use rusty_nes::cpu::CPU;
use rusty_nes::opcodes::decode_opcode;
use rusty_nes::rom::LoadError;

/// A 32 KB NROM image whose PRG starts with `program` at 0x8000 and whose
/// reset vector points at 0x8000.
fn image(program: &[u8]) -> Vec<u8> {
    let mut bytes = vec![0x4e, 0x45, 0x53, 0x1a, 2, 1, 0, 0, 0, 0, 0, 0, 0, 0, 0, 0];
    let mut prg = vec![0xeau8; 0x8000];
    prg[..program.len()].copy_from_slice(program);
    prg[0x7ffc] = 0x00;
    prg[0x7ffd] = 0x80;
    prg[0x7ffa] = 0x00;
    prg[0x7ffb] = 0x90;
    bytes.extend_from_slice(&prg);
    bytes.extend_from_slice(&vec![0u8; 0x2000]);
    bytes
}

fn console(program: &[u8]) -> CPU {
    CPU::new_from_rom_bytes(image(program)).expect("valid image")
}

#[test]
fn reset_vector() {
    let cpu = console(&[]);
    assert_eq!(cpu.pc, 0x8000);
    assert_eq!(cpu.sp, 0xfd);
    assert!(cpu.i);
    assert_eq!(cpu.cycles, 7);
}

#[test]
fn adc_overflow() {
    let mut cpu = console(&[0x69, 0x50]);
    cpu.a = 0x50;
    cpu.c = false;
    let cycles = cpu.step();
    assert_eq!(cycles, 2);
    assert_eq!(cpu.a, 0xa0);
    assert!(cpu.n);
    assert!(cpu.v);
    assert!(!cpu.c);
    assert!(!cpu.z);
}

#[test]
fn sbc_borrow() {
    let mut cpu = console(&[0xe9, 0xf0]);
    cpu.a = 0x50;
    cpu.c = true;
    cpu.step();
    assert_eq!(cpu.a, 0x60);
    assert!(!cpu.c);
    // 0x50 - 0xF0 is +80 - (-16) = +96: no signed overflow by the V rule
    // ((A ^ M) & 0x80 == 0 && (A ^ R) & 0x80 != 0).
    assert!(!cpu.v);
}

#[test]
fn oam_dma_timing() {
    let mut cpu = console(&[]);
    for i in 0..256u16 {
        cpu.bus.write(0x0200 + i, (i as u8).wrapping_mul(7));
    }
    cpu.cycles = 100;
    cpu.bus.write(0x4014, 0x02);
    let mut stalled = 0;
    let first = cpu.step();
    assert_eq!(first, 1);
    stalled += first;
    while cpu.stall > 0 {
        assert_eq!(cpu.step(), 1);
        stalled += 1;
    }
    assert_eq!(stalled, 513 + (100 & 1));
    for i in 0..256usize {
        assert_eq!(cpu.bus.ppu.oam[i], (i as u8).wrapping_mul(7));
    }
}

#[test]
fn oam_dma_odd_cycle() {
    let mut cpu = console(&[]);
    cpu.cycles = 101;
    cpu.bus.write(0x4014, 0x03);
    cpu.step();
    assert_eq!(cpu.stall, 513);
}

#[test]
fn nmi_on_vblank() {
    let mut cpu = console(&[]);
    cpu.bus.ppu.write_register(0, 0x80);
    assert_eq!((cpu.bus.ppu.line, cpu.bus.ppu.dot), (241, 0));
    cpu.bus.ppu.step();
    assert!(!cpu.bus.ppu.nmi_triggered);
    cpu.bus.ppu.step();
    assert!(cpu.bus.ppu.nmi_triggered);
    cpu.c = true;
    cpu.b = true;
    let pc = cpu.pc;
    let sp = cpu.sp as u16;
    cpu.step();
    assert_eq!(cpu.bus.read(0x100 + sp), (pc >> 8) as u8);
    assert_eq!(cpu.bus.read(0x100 + sp - 1), (pc & 0xff) as u8);
    let flags = cpu.bus.read(0x100 + sp - 2);
    assert_eq!(flags & 0x10, 0);
    assert_eq!(flags & 0x20, 0x20);
    assert_eq!(flags & 0x01, 0x01);
    // The NMI handler at 0x9000 has started (one NOP already run).
    assert_eq!(cpu.pc, 0x9001);
    assert!(!cpu.bus.ppu.nmi_triggered);
    for _ in 0..300 {
        cpu.bus.ppu.step();
        assert!(!cpu.bus.ppu.nmi_triggered);
    }
}

#[test]
fn push_pull_round_trip() {
    let mut cpu = console(&[]);
    let sp = cpu.sp;
    cpu.push_16(0xbeef);
    assert_eq!(cpu.sp, sp.wrapping_sub(2));
    assert_eq!(cpu.pull_16(), 0xbeef);
    assert_eq!(cpu.sp, sp);
}

#[test]
fn push_pull_wraps_stack() {
    let mut cpu = console(&[]);
    cpu.sp = 0x00;
    cpu.push_16(0x1234);
    assert_eq!(cpu.sp, 0xfe);
    assert_eq!(cpu.pull_16(), 0x1234);
    assert_eq!(cpu.sp, 0x00);
}

#[test]
fn jmp_indirect_page_bug() {
    let mut cpu = console(&[0x6c, 0xff, 0x02]);
    cpu.bus.write(0x02ff, 0x34);
    cpu.bus.write(0x0200, 0x12);
    cpu.bus.write(0x0300, 0x99);
    let cycles = cpu.step();
    assert_eq!(cpu.pc, 0x1234);
    assert_eq!(cycles, 5);
}

#[test]
fn indirect_y_timing_table() {
    let lda = decode_opcode(0xb1);
    assert_eq!((lda.cycles, lda.extra_cycles), (5, 1));
    let sta = decode_opcode(0x91);
    assert_eq!((sta.cycles, sta.extra_cycles), (6, 0));
}

#[test]
fn indirect_y_page_cross_costs_a_cycle_on_reads() {
    // LDA ($10),Y with the pointer at 0x00FF + Y = 1 crossing into 0x0100.
    let mut cpu = console(&[0xb1, 0x10, 0xb1, 0x12]);
    cpu.bus.write(0x0010, 0xff);
    cpu.bus.write(0x0011, 0x00);
    cpu.bus.write(0x0012, 0x10);
    cpu.bus.write(0x0013, 0x00);
    cpu.bus.write(0x0100, 0x42);
    cpu.y = 1;
    assert_eq!(cpu.step(), 6);
    assert_eq!(cpu.a, 0x42);
    assert_eq!(cpu.step(), 5);
}

#[test]
fn indirect_y_store_costs_six() {
    let mut cpu = console(&[0x91, 0x10, 0x91, 0x12]);
    cpu.bus.write(0x0010, 0xff);
    cpu.bus.write(0x0011, 0x00);
    cpu.bus.write(0x0012, 0x10);
    cpu.bus.write(0x0013, 0x00);
    cpu.y = 1;
    cpu.a = 0x77;
    assert_eq!(cpu.step(), 6);
    assert_eq!(cpu.step(), 6);
    assert_eq!(cpu.bus.read(0x0100), 0x77);
    assert_eq!(cpu.bus.read(0x0011), 0x77);
}

#[test]
fn branch_cycles() {
    let mut cpu = console(&[]);
    cpu.pc = 0x80f0;
    cpu.cycles = 0;
    cpu.branch(0x80f5);
    assert_eq!(cpu.cycles, 1);
    cpu.pc = 0x80f0;
    cpu.cycles = 0;
    cpu.branch(0x8105);
    assert_eq!(cpu.cycles, 2);
}

#[test]
fn taken_branch_through_step() {
    // BNE +2 with Z clear: 2 + 1 cycles; BEQ with Z clear: not taken, 2.
    let mut cpu = console(&[0xd0, 0x02, 0xea, 0xea, 0xf0, 0x10]);
    cpu.z = false;
    assert_eq!(cpu.step(), 3);
    assert_eq!(cpu.pc, 0x8004);
    assert_eq!(cpu.step(), 2);
    assert_eq!(cpu.pc, 0x8006);
}

#[test]
fn absolute_x_page_cross() {
    let mut cpu = console(&[0xbd, 0xff, 0x01, 0xbd, 0x00, 0x01]);
    cpu.x = 1;
    cpu.bus.write(0x0200, 9);
    assert_eq!(cpu.step(), 5);
    assert_eq!(cpu.a, 9);
    assert_eq!(cpu.step(), 4);
}

#[test]
fn ram_mirrors() {
    let mut cpu = console(&[]);
    cpu.bus.write(0x0001, 0x5a);
    assert_eq!(cpu.bus.read(0x0801), 0x5a);
    assert_eq!(cpu.bus.read(0x1001), 0x5a);
    assert_eq!(cpu.bus.read(0x1801), 0x5a);
    cpu.bus.write(0x1fff, 0x11);
    assert_eq!(cpu.bus.read(0x07ff), 0x11);
}

#[test]
fn unused_io_reads_zero() {
    let mut cpu = console(&[]);
    assert_eq!(cpu.bus.read(0x4018), 0);
    assert_eq!(cpu.bus.read(0x401f), 0);
}

#[test]
fn php_plp_flags() {
    let mut cpu = console(&[0x08, 0x28]);
    cpu.c = true;
    cpu.b = false;
    cpu.step();
    let pushed = cpu.bus.read(0x01fd);
    assert_eq!(pushed & 0x30, 0x30);
    cpu.c = false;
    cpu.step();
    assert!(cpu.c);
    assert!(!cpu.b);
    assert!(cpu.u);
}

#[test]
fn shifts_and_rotates() {
    let mut cpu = console(&[0x0a, 0x4a, 0x2a, 0x6a]);
    cpu.a = 0x81;
    cpu.c = false;
    cpu.step();
    assert_eq!((cpu.a, cpu.c), (0x02, true));
    cpu.step();
    assert_eq!((cpu.a, cpu.c), (0x01, false));
    cpu.c = true;
    cpu.step();
    assert_eq!((cpu.a, cpu.c), (0x03, false));
    cpu.c = true;
    cpu.step();
    assert_eq!((cpu.a, cpu.c), (0x81, true));
}

#[test]
fn compare_sets_carry() {
    let mut cpu = console(&[0xc9, 0x10, 0xc9, 0x30]);
    cpu.a = 0x20;
    cpu.step();
    assert!(cpu.c && !cpu.z && !cpu.n);
    cpu.step();
    assert!(!cpu.c && cpu.n);
}

#[test]
fn jsr_rts_round_trip() {
    let mut cpu = console(&[0x20, 0x10, 0x80]);
    let sp = cpu.sp;
    cpu.step();
    assert_eq!(cpu.pc, 0x8010);
    cpu.rts();
    assert_eq!(cpu.pc, 0x8003);
    assert_eq!(cpu.sp, sp);
}

#[test]
fn illegal_lax_and_dcp() {
    let mut cpu = console(&[0xa7, 0x10, 0xc7, 0x11]);
    cpu.bus.write(0x0010, 0x3c);
    cpu.bus.write(0x0011, 0x05);
    cpu.step();
    assert_eq!((cpu.a, cpu.x), (0x3c, 0x3c));
    cpu.a = 0x04;
    cpu.step();
    assert_eq!(cpu.bus.read(0x0011), 0x04);
    assert!(cpu.z && cpu.c);
}

#[test]
fn load_errors() {
    assert_eq!(CPU::new_from_rom_bytes(vec![1, 2, 3, 4, 0, 0, 0, 0, 0, 0, 0, 0, 0, 0, 0, 0]).err(), Some(LoadError::InvalidMagic));
    assert_eq!(CPU::new_from_rom_bytes(vec![0x4e, 0x45, 0x53]).err(), Some(LoadError::Truncated));
    let mut bad_version = image(&[]);
    bad_version[7] = 0x08;
    assert_eq!(CPU::new_from_rom_bytes(bad_version).err(), Some(LoadError::UnsupportedVersion));
    let mut mapper1 = image(&[]);
    mapper1[6] = 0x10;
    assert_eq!(CPU::new_from_rom_bytes(mapper1).err(), Some(LoadError::UnsupportedMapper(1)));
    let mut short = image(&[]);
    short.truncate(20000);
    assert_eq!(CPU::new_from_rom_bytes(short).err(), Some(LoadError::Truncated));
}
