use rusty_nes::controller::Controller;
use rusty_nes::mappers::{Cartridge, Mapper0};
use rusty_nes::ppu::PPU;
use rusty_nes::rom::{Mirroring, ROM};
use rusty_nes::scroll::{increment_coarse_x, increment_fine_y};

fn ppu() -> PPU {
    let rom = ROM {
        bytes: vec![0u8; 16 + 0x4000 + 0x2000],
        prg_rom_banks: 1,
        chr_rom_banks: 1,
        prg_rom_start: 16,
        chr_rom_start: 16 + 0x4000,
        mapper_id: 0,
        mirroring: Mirroring::Vertical,
        trainer: false,
    };
    PPU::new_ppu(Cartridge::Nrom(Mapper0::new(rom)))
}

#[test]
fn palette_mirror() {
    let mut p = ppu();
    p.write_palette(0x3f00, 0x21);
    assert_eq!(p.read_palette(0x3f10), 0x21);
    p.write_palette(0x3f1c, 0x05);
    assert_eq!(p.read_palette(0x3f0c), 0x05);
    p.write_palette(0x3f11, 0x07);
    assert_eq!(p.read_palette(0x3f01), 0);
    assert_eq!(p.map_palette_addr(0x3f10), 0);
    assert_eq!(p.map_palette_addr(0x3f33), 0x13);
}

#[test]
fn fine_y_eight_steps() {
    let mut v: u16 = 0x0000;
    for _ in 0..8 {
        v = increment_fine_y(v);
    }
    assert_eq!(v, 0x0020);
    let mut w: u16 = 29 << 5;
    for _ in 0..8 {
        w = increment_fine_y(w);
    }
    assert_eq!(w, 0x0800);
    let mut u: u16 = 31 << 5;
    for _ in 0..8 {
        u = increment_fine_y(u);
    }
    assert_eq!(u, 0x0000);
}

#[test]
fn coarse_x_wraps_nametable() {
    assert_eq!(increment_coarse_x(0x001f), 0x0400);
    assert_eq!(increment_coarse_x(0x0005), 0x0006);
}

#[test]
fn scroll_registers_stay_15_bit() {
    let mut p = ppu();
    p.write_register(6, 0xff);
    p.write_register(6, 0xff);
    assert!(p.v <= 0x7fff && p.t <= 0x7fff);
    assert_eq!(p.t, 0x3fff);
    p.write_register(5, 0xff);
    p.write_register(5, 0xff);
    assert!(p.t <= 0x7fff);
    assert_eq!(p.x, 7);
    for _ in 0..100000 {
        p.mask = 0x18;
        p.step();
        assert!(p.v <= 0x7fff && p.t <= 0x7fff);
    }
}

#[test]
fn ppu_data_read_is_buffered() {
    let mut p = ppu();
    p.write_register(6, 0x20);
    p.write_register(6, 0x00);
    p.write_register(7, 0xab);
    p.write_register(6, 0x20);
    p.write_register(6, 0x00);
    let first = p.read_register(7);
    let second = p.read_register(7);
    assert_eq!(first, 0);
    assert_eq!(second, 0xab);
    assert_eq!(p.v, 0x2002);
}

#[test]
fn status_read_clears_vblank_and_toggle() {
    let mut p = ppu();
    p.status = 0xe0;
    p.open_bus = 0x1f;
    p.w = true;
    assert_eq!(p.read_register(2), 0xff);
    assert_eq!(p.status & 0x80, 0);
    assert!(!p.w);
}

fn put_sprites(p: &mut PPU, n: usize, y: u8) {
    for i in 0..64 {
        p.oam[4 * i] = 0xff;
    }
    for i in 0..n {
        p.oam[4 * i] = y;
        p.oam[4 * i + 3] = (i * 8) as u8;
    }
}

#[test]
fn sprite_overflow_on_ninth() {
    let mut p = ppu();
    p.line = 20;
    put_sprites(&mut p, 9, 18);
    p.fetch_sprites();
    assert_eq!(p.sprites_count, 8);
    assert!(p.sprite_overflow());
    for k in 0..8 {
        assert_eq!(p.sprites[k].index as usize, k);
    }
}

#[test]
fn eight_sprites_no_overflow() {
    let mut p = ppu();
    p.line = 20;
    put_sprites(&mut p, 8, 18);
    p.fetch_sprites();
    assert_eq!(p.sprites_count, 8);
    assert!(!p.sprite_overflow());
}

#[test]
fn no_sprite_zero_hit_at_last_column() {
    let mut p = ppu();
    p.mask = 0x1e;
    p.line = 10;
    p.dot = 256;
    p.shift_register = 0x1111_1111_1111_1111;
    p.sprites_count = 1;
    p.sprites[0].x = 248;
    p.sprites[0].index = 0;
    p.sprites[0].tile_row = vec![1; 8];
    p.render();
    assert!(!p.sprite_0_hit());
    p.dot = 255;
    p.render();
    assert!(p.sprite_0_hit());
}

#[test]
fn render_writes_backdrop() {
    let mut p = ppu();
    p.mask = 0x08;
    p.line = 0;
    p.dot = 1;
    p.write_palette(0x3f00, 0x00);
    p.render();
    assert_eq!(&p.frame_buffer[0..4], &[0x80, 0x80, 0x80, 0xff]);
}

#[test]
fn odd_frame_skip() {
    let mut p = ppu();
    p.odd = true;
    p.mask = 0x08;
    p.line = 261;
    p.dot = 338;
    p.step();
    assert_eq!((p.line, p.dot), (261, 339));
    p.step();
    assert_eq!((p.line, p.dot), (0, 0));
    assert!(!p.odd);
    assert_eq!(p.frame_counter, 1);
}

#[test]
fn no_skip_without_rendering() {
    let mut p = ppu();
    p.odd = true;
    p.mask = 0;
    p.line = 261;
    p.dot = 338;
    p.step();
    p.step();
    assert_eq!((p.line, p.dot), (261, 340));
    p.step();
    assert_eq!((p.line, p.dot), (0, 0));
}

#[test]
fn vblank_flag_and_frame_complete() {
    let mut p = ppu();
    p.step();
    p.step();
    assert!(p.vblank_started());
    assert!(p.frame_complete());
    assert!(!p.frame_complete());
}

#[test]
fn nametable_mirroring() {
    assert_eq!(Mirroring::Vertical.get_address(0x2800), 0x000);
    assert_eq!(Mirroring::Vertical.get_address(0x2400), 0x400);
    assert_eq!(Mirroring::Horizontal.get_address(0x2400), 0x000);
    assert_eq!(Mirroring::Horizontal.get_address(0x2c05), 0x405);
    assert_eq!(Mirroring::OneScreenUpper.get_address(0x2005), 0x405);
    assert_eq!(Mirroring::OneScreenLower.get_address(0x3c05), 0x005);
}

#[test]
fn controller_shifts_buttons() {
    let mut c = Controller::new_controller();
    c.update_button(0, true);
    c.update_button(3, true);
    c.write(1);
    c.write(0);
    let bits: Vec<u8> = (0..8).map(|_| c.read()).collect();
    assert_eq!(bits, vec![1, 0, 0, 1, 0, 0, 0, 0]);
    assert_eq!(c.read(), 1);
    c.update_button(0, false);
    assert_eq!(c.state, 0x08);
}
