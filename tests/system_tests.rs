use rusty_nes::apu::APU;
use rusty_nes::buffer::Buffer;
use rusty_nes::cpu::CPU;
use rusty_nes::mappers::{Cartridge, Mapper2, Mapper4};
use rusty_nes::nes::DecodeError;
use rusty_nes::rom::{Mirroring, ROM};

fn image(mapper: u8) -> Vec<u8> {
    let mut bytes = vec![0x4e, 0x45, 0x53, 0x1a, 2, 1, (mapper & 0x0f) << 4, mapper & 0xf0, 0, 0, 0, 0, 0, 0, 0, 0];
    let mut prg = vec![0u8; 0x8000];
    // 0x8000: LDA #$80; STA $2000; LDA #$1E; STA $2001; loop: INC $10; JMP loop
    let program = [0xa9, 0x80, 0x8d, 0x00, 0x20, 0xa9, 0x1e, 0x8d, 0x01, 0x20, 0xe6, 0x10, 0x4c, 0x0a, 0x80];
    prg[..program.len()].copy_from_slice(&program);
    // NMI handler at 0x9000: INC $11; RTI
    prg[0x1000..0x1003].copy_from_slice(&[0xe6, 0x11, 0x40]);
    prg[0x7ffa] = 0x00;
    prg[0x7ffb] = 0x90;
    prg[0x7ffc] = 0x00;
    prg[0x7ffd] = 0x80;
    bytes.extend_from_slice(&prg);
    let chr: Vec<u8> = (0..0x2000u32).map(|i| (i * 13) as u8).collect();
    bytes.extend_from_slice(&chr);
    bytes
}

fn snapshot(cpu: &CPU) -> Vec<u8> {
    let mut buffer = Buffer::new_buffer();
    cpu.encode(&mut buffer);
    buffer.data
}

#[test]
fn frames_run_and_nmi_counts() {
    let mut cpu = CPU::new_from_rom_bytes(image(0)).unwrap();
    for _ in 0..6 {
        cpu.step_till_next_frame();
    }
    assert!(cpu.bus.read(0x0011) >= 3);
    assert_eq!(cpu.frame_buffer_ref().len(), 256 * 240 * 4);
}

#[test]
fn snapshot_round_trip_bytes() {
    let mut cpu = CPU::new_from_rom_bytes(image(0)).unwrap();
    cpu.step_till_next_frame();
    let bytes = snapshot(&cpu);
    let restored = CPU::new_nes_from_save_bytes(bytes.clone()).unwrap();
    assert_eq!(snapshot(&restored), bytes);
}

#[test]
fn snapshot_replays_same_frames() {
    let mut cpu = CPU::new_from_rom_bytes(image(0)).unwrap();
    cpu.step_till_next_frame();
    let mut copy = CPU::new_nes_from_save_bytes(snapshot(&cpu)).unwrap();
    for _ in 0..3 {
        cpu.update_button(3, true);
        copy.update_button(3, true);
        cpu.step_till_next_frame();
        copy.step_till_next_frame();
        assert_eq!(cpu.frame_buffer_ref(), copy.frame_buffer_ref());
    }
}

#[test]
fn snapshot_round_trip_mmc3() {
    let mut cpu = CPU::new_from_rom_bytes(image(4)).unwrap();
    cpu.bus.write(0x8000, 0x46);
    cpu.bus.write(0x8001, 0x03);
    cpu.bus.write(0xa000, 0x01);
    let bytes = snapshot(&cpu);
    let restored = CPU::new_nes_from_save_bytes(bytes.clone()).unwrap();
    assert_eq!(snapshot(&restored), bytes);
}

#[test]
fn corrupt_snapshot_is_rejected() {
    let cpu = CPU::new_from_rom_bytes(image(0)).unwrap();
    let bytes = snapshot(&cpu);
    let short = bytes[..bytes.len() - 5].to_vec();
    assert_eq!(CPU::new_nes_from_save_bytes(short).err(), Some(DecodeError::Malformed));
    let mut bad_tag = bytes.clone();
    // The mirroring tag follows the image bytes, two bank counts, two
    // 32-bit offsets and the mapper number.
    let tag_at = 8 + image(0).len() + 2 + 8 + 1;
    bad_tag[tag_at] = 9;
    assert_eq!(CPU::new_nes_from_save_bytes(bad_tag).err(), Some(DecodeError::Malformed));
}

#[test]
fn buffer_little_endian() {
    let mut b = Buffer::new_buffer();
    b.write_u16(0x1234);
    b.write_u32(0xdeadbeef);
    b.write_u64(0x0102030405060708);
    b.write_bool(true);
    assert_eq!(b.data[..2], [0x34, 0x12]);
    assert_eq!(b.data[2..6], [0xef, 0xbe, 0xad, 0xde]);
    assert_eq!(b.read_u16(), 0x1234);
    assert_eq!(b.read_u32(), 0xdeadbeef);
    assert_eq!(b.read_u64(), 0x0102030405060708);
    assert!(b.read_bool());
    assert!(!b.overrun);
    assert_eq!(b.read_u8(), 0);
    assert!(b.overrun);
}

#[test]
fn buffer_arrays() {
    let mut b = Buffer::new_buffer();
    b.write_u8_arr(&[1, 2, 3]);
    b.write_u32_arr(&[7, 0x01000000]);
    let mut a = [0u8; 3];
    let mut w = [0u32; 2];
    b.read_u8_arr(&mut a);
    b.read_u32_arr(&mut w);
    assert_eq!(a, [1, 2, 3]);
    assert_eq!(w, [7, 0x01000000]);
}

fn rom(prg_banks: u8, chr_banks: u8) -> ROM {
    let mut bytes = vec![0u8; 16 + prg_banks as usize * 0x4000 + chr_banks as usize * 0x2000];
    for bank in 0..prg_banks as usize {
        bytes[16 + bank * 0x4000] = bank as u8;
    }
    ROM {
        bytes,
        prg_rom_banks: prg_banks,
        chr_rom_banks: chr_banks,
        prg_rom_start: 16,
        chr_rom_start: 16 + prg_banks as usize * 0x4000,
        mapper_id: 2,
        mirroring: Mirroring::Horizontal,
        trainer: false,
    }
}

#[test]
fn uxrom_bank_switch() {
    let mut m = Mapper2::new(rom(4, 0));
    assert_eq!(m.read(0x8000), 0);
    assert_eq!(m.read(0xc000), 3);
    m.write(0x8000, 0x12);
    assert_eq!(m.bank, 2);
    assert_eq!(m.read(0x8000), 2);
    m.write(0x0005, 0x99);
    assert_eq!(m.read(0x0005), 0x99);
    m.write(0x6001, 0x44);
    assert_eq!(m.read(0x6001), 0x44);
}

#[test]
fn mmc3_irq_counter() {
    let mut m = Mapper4::new(rom(4, 1));
    m.write(0xc000, 2);
    m.write(0xc001, 0);
    m.write(0xe001, 0);
    m.step();
    assert_eq!(m.irq_counter, 2);
    m.step();
    assert!(!m.irq_triggered);
    m.step();
    assert!(m.irq_triggered());
    assert!(!m.irq_triggered());
    m.write(0xe000, 0);
    assert!(!m.irq_enabled);
}

#[test]
fn mmc3_prg_banking() {
    let mut m = Mapper4::new(rom(4, 1));
    assert_eq!(m.read(0xe000), 0);
    m.write(0x8000, 6);
    m.write(0x8001, 2);
    assert_eq!(m.read(0x8000), 1);
    m.write(0x8000, 0x46);
    assert_eq!(m.read(0xc000), 1);
    m.write(0xa000, 0);
    assert_eq!(Cartridge::Mmc3(m).mirroring(), Mirroring::Vertical);
}

#[test]
fn apu_samples_and_underflow() {
    let mut apu = APU::new();
    for _ in 0..1000 {
        apu.step(0);
    }
    let mut out = [7u32; 40];
    apu.load_samples(&mut out);
    // 1000 cycles at 48000 / 1789773 samples per cycle: 26 samples. With
    // every channel silent only the triangle's resting level 15 remains.
    assert!(out[..26].iter().all(|&s| s == 851 * 15));
    assert!(out[26..].iter().all(|&s| s == 0));
    let mut again = [5u32; 4];
    apu.load_samples(&mut again);
    assert_eq!(again, [0, 0, 0, 0]);
}

#[test]
fn apu_status_and_length() {
    let mut apu = APU::new();
    apu.write(0x4015, 0x01);
    apu.write(0x4003, 0x08);
    assert_eq!(apu.read(0x4015) & 0x01, 0x01);
    apu.write(0x4015, 0x00);
    assert_eq!(apu.read(0x4015) & 0x01, 0x00);
}

#[test]
fn apu_frame_irq() {
    let mut apu = APU::new();
    for _ in 0..2 * 14915 {
        apu.step(0);
    }
    assert!(apu.irq_pending());
    assert_eq!(apu.read(0x4015) & 0x40, 0x40);
    assert!(!apu.irq_pending());
    apu.write(0x4017, 0x40);
    for _ in 0..2 * 14915 {
        apu.step(0);
    }
    assert!(!apu.irq_pending());
}

#[test]
fn apu_mix_exact() {
    let mut apu = APU::new();
    apu.write(0x4011, 0x7f);
    assert_eq!(apu.output(), 335 * 127 + 851 * 15);
}
