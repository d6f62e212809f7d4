//! The CPU-facing PPU registers $2000..=$2007.
use vstd::prelude::*;
use crate::mappers::Cartridge;
use crate::ppu::{PPU, palette_index};

verus! {

/// Keeping a 15-bit value in some bit positions and adding 15-bit bits
/// stays 15-bit.
proof fn lemma_merge_15(a: u16, m: u16, b: u16)
    requires
        a < 0x8000,
        b < 0x8000,
    ensures
        (a & m) | b < 0x8000,
{
    assert((a & m) | b < 0x8000) by (bit_vector)
        requires
            a < 0x8000,
            b < 0x8000,
    ;
}

/// What a read of PPU address `addr` through $2007 returns: pattern tables
/// and nametables come from the read buffer, palette entries directly.
pub open spec fn ppu_data_result(p: PPU, addr: u16) -> u8 {
    if addr >= 0x3f00 {
        p.frame_palette@[palette_index(addr)]
    } else {
        p.data_latch
    }
}

/// The value the read buffer holds after a $2007 read of `addr`.
pub open spec fn ppu_data_refill(p: PPU, addr: u16) -> u8 {
    if addr < 0x2000 {
        p.cartridge.peek(addr)
    } else if addr < 0x3f00 {
        p.vram@[p.vram_index(addr)]
    } else {
        p.data_latch
    }
}

/// `v` after a $2007 access.
pub open spec fn v_after_data_access(p: PPU) -> u16 {
    ((p.v + if p.ctrl & 0x04 == 0 {
        1int
    } else {
        32int
    }) % 0x4000) as u16
}

/// `f` and `r` are the PPU and the value after reading register `a`
/// (0..=7) of `o`.
pub open spec fn register_read(o: PPU, f: PPU, a: u16, r: u8) -> bool {
    if a == 2 {
        r == (o.status & 0xe0) | (o.open_bus & 0x1f) && f == (PPU {
            status: o.status & 0x7f,
            w: false,
            ..o
        }).nmi_updated()
    } else if a == 4 {
        r == o.oam@[o.oam_addr as int] && f == o
    } else if a == 7 {
        r == ppu_data_result(o, o.v & 0x3fff) && f == (PPU {
            data_latch: ppu_data_refill(o, o.v & 0x3fff),
            v: v_after_data_access(o),
            ..o
        })
    } else {
        r == o.open_bus && f == o
    }
}

/// `f` is the PPU after writing `d` to register `a` (0..=7) of `o`; every
/// write first sets the open-bus byte.
pub open spec fn register_written(o: PPU, f: PPU, a: u16, d: u8) -> bool {
    let p = PPU { open_bus: d, ..o };
    if a == 0 {
        f == (PPU { ctrl: d, t: (p.t & 0xf3ff) | (((d as u16) & 3) << 10u16), ..p }).nmi_updated()
    } else if a == 1 {
        f == (PPU { mask: d, ..p })
    } else if a == 3 {
        f == (PPU { oam_addr: d, ..p })
    } else if a == 4 {
        f.oam@ == p.oam@.update(p.oam_addr as int, d) && f == (PPU {
            oam: f.oam,
            oam_addr: ((p.oam_addr + 1) % 256) as u8,
            ..p
        })
    } else if a == 5 {
        if !p.w {
            f == (PPU { t: (p.t & 0xffe0) | ((d as u16) >> 3u16), x: d & 7, w: true, ..p })
        } else {
            f == (PPU {
                t: (((p.t & 0x8fff) | (((d as u16) & 7) << 12u16)) & 0xfc1f) | (((d as u16) & 0xf8)
                    << 2u16),
                w: false,
                ..p
            })
        }
    } else if a == 6 {
        if !p.w {
            f == (PPU {
                t: ((p.t & 0x80ff) | (((d as u16) & 0x3f) << 8u16)) & 0xbfff,
                w: true,
                ..p
            })
        } else {
            f == (PPU {
                t: (p.t & 0xff00) | (d as u16),
                v: (p.t & 0xff00) | (d as u16),
                w: false,
                ..p
            })
        }
    } else if a == 7 {
        &&& f.v == v_after_data_access(p)
        &&& (p.v & 0x3fff) >= 0x3f00 ==> f.frame_palette@ == p.frame_palette@.update(
            palette_index(p.v & 0x3fff),
            d,
        )
        &&& (0x2000 <= (p.v & 0x3fff) < 0x3f00) ==> f.vram@ == p.vram@.update(
            p.vram_index(p.v & 0x3fff),
            d,
        )
        &&& (p.v & 0x3fff) < 0x3f00 ==> f.frame_palette == p.frame_palette
        &&& !(0x2000 <= (p.v & 0x3fff) < 0x3f00) ==> f.vram == p.vram
        &&& (p.v & 0x3fff) >= 0x2000 ==> f.cartridge == p.cartridge
        &&& (p.v & 0x3fff) < 0x2000 ==> Cartridge::same_image(p.cartridge, f.cartridge)
            && f.cartridge.wf()
        &&& f == (PPU {
            v: f.v,
            frame_palette: f.frame_palette,
            vram: f.vram,
            cartridge: f.cartridge,
            ..p
        })
    } else {
        f == p
    }
}

impl PPU {
    /// Reads register `addr & 7`; the write-only registers return the
    /// value last written to any register.
    pub fn read_register(&mut self, addr: u16) -> (r: u8)
        requires
            old(self).wf(),
        ensures
            final(self).wf(),
            final(self).cartridge == old(self).cartridge,
            final(self).oam == old(self).oam,
            register_read(*old(self), *final(self), addr, r),
    {
        match addr {
            2 => self.read_status(),
            4 => self.read_oam_data(),
            7 => self.read_ppu_data(),
            _ => self.open_bus,
        }
    }

    /// $2002: flags and stale bus bits; clears vblank and the write toggle.
    pub fn read_status(&mut self) -> (r: u8)
        requires
            old(self).wf(),
        ensures
            final(self).wf(),
            r == (old(self).status & 0xe0) | (old(self).open_bus & 0x1f),
            *final(self) == (PPU { status: old(self).status & 0x7f, w: false, ..*old(self) }).nmi_updated(),
    {
        let res = (self.status & 0xe0) | (self.open_bus & 0x1f);
        self.w = false;
        self.status = self.status & 0x7f;
        self.update_nmi_state();
        res
    }

    /// $2004 read: the OAM byte at `oam_addr`, without incrementing.
    pub fn read_oam_data(&self) -> (r: u8)
        requires
            self.wf(),
        ensures
            r == self.oam@[self.oam_addr as int],
    {
        self.oam[self.oam_addr as usize]
    }

    /// Writes register `addr & 7`; every write also sets the open-bus byte.
    pub fn write_register(&mut self, addr: u16, data: u8)
        requires
            old(self).wf(),
        ensures
            final(self).wf(),
            final(self).open_bus == data,
            register_written(*old(self), *final(self), addr, data),
    {
        self.open_bus = data;
        match addr {
            0 => self.write_ctrl(data),
            1 => self.write_mask(data),
            3 => self.write_oam_addr(data),
            4 => self.write_oam_data(data),
            5 => self.write_scroll(data),
            6 => self.write_ppu_addr(data),
            7 => self.write_ppu_data(data),
            _ => {},
        }
    }

    /// $2000: control bits; the nametable bits go to `t` bits 10-11.
    pub fn write_ctrl(&mut self, data: u8)
        requires
            old(self).wf(),
        ensures
            final(self).wf(),
            *final(self) == (PPU {
                ctrl: data,
                t: (old(self).t & 0xf3ff) | (((data as u16) & 3) << 10u16),
                ..*old(self)
            }).nmi_updated(),
    {
        self.ctrl = data;
        let bits = ((data as u16) & 3) << 10u16;
        assert(bits < 0x8000) by (bit_vector)
            requires
                bits == ((data as u16) & 3) << 10u16,
        ;
        proof {
            lemma_merge_15(self.t, 0xf3ff, bits);
        }
        self.t = (self.t & 0xf3ff) | bits;
        self.update_nmi_state();
    }

    /// $2001.
    pub fn write_mask(&mut self, data: u8)
        ensures
            *final(self) == (PPU { mask: data, ..*old(self) }),
    {
        self.mask = data;
    }

    /// $2003.
    pub fn write_oam_addr(&mut self, val: u8)
        ensures
            *final(self) == (PPU { oam_addr: val, ..*old(self) }),
    {
        self.oam_addr = val;
    }

    /// $2007 read: buffered for pattern tables and nametables, direct for
    /// the palette; then `v` advances by 1 or 32.
    pub fn read_ppu_data(&mut self) -> (r: u8)
        requires
            old(self).wf(),
        ensures
            final(self).wf(),
            r == ppu_data_result(*old(self), old(self).v & 0x3fff),
            *final(self) == (PPU {
                data_latch: ppu_data_refill(*old(self), old(self).v & 0x3fff),
                v: v_after_data_access(*old(self)),
                ..*old(self)
            }),
    {
        let addr = self.v & 0x3fff;
        let res = if addr < 0x2000 {
            self.read_chr_delayed(addr)
        } else if addr < 0x3f00 {
            self.read_nametable_delayed(addr)
        } else {
            self.read_palette(addr)
        };
        self.v = ((self.v as u32 + self.vram_addr_increment() as u32) % 0x4000) as u16;
        res
    }

    /// $2004 write: stores at `oam_addr` and moves to the next byte.
    pub fn write_oam_data(&mut self, data: u8)
        requires
            old(self).wf(),
        ensures
            final(self).wf(),
            final(self).oam@ == old(self).oam@.update(old(self).oam_addr as int, data),
            *final(self) == (PPU {
                oam: final(self).oam,
                oam_addr: ((old(self).oam_addr + 1) % 256) as u8,
                ..*old(self)
            }),
    {
        self.oam.set(self.oam_addr as usize, data);
        self.oam_addr = self.oam_addr.wrapping_add(1);
    }

    /// $2005: first write coarse x and fine x, second write coarse y and
    /// fine y.
    pub fn write_scroll(&mut self, data: u8)
        requires
            old(self).wf(),
        ensures
            final(self).wf(),
            !old(self).w ==> *final(self) == (PPU {
                t: (old(self).t & 0xffe0) | ((data as u16) >> 3u16),
                x: data & 7,
                w: true,
                ..*old(self)
            }),
            old(self).w ==> *final(self) == (PPU {
                t: (((old(self).t & 0x8fff) | (((data as u16) & 7) << 12u16)) & 0xfc1f) | (((
                data as u16) & 0xf8) << 2u16),
                w: false,
                ..*old(self)
            }),
    {
        let d = data as u16;
        if !self.w {
            assert(d >> 3u16 < 0x8000 && data & 7 < 8) by (bit_vector)
                requires
                    d == data as u16,
            ;
            proof {
                lemma_merge_15(self.t, 0xffe0, d >> 3u16);
            }
            self.t = (self.t & 0xffe0) | (d >> 3u16);
            self.x = data & 7;
            self.w = true;
        } else {
            assert(((d & 7) << 12u16) < 0x8000 && ((d & 0xf8) << 2u16) < 0x8000) by (bit_vector)
                requires
                    d == data as u16,
            ;
            proof {
                lemma_merge_15(self.t, 0x8fff, (d & 7) << 12u16);
                lemma_merge_15((self.t & 0x8fff) | ((d & 7) << 12u16), 0xfc1f, (d & 0xf8) << 2u16);
            }
            self.t = (((self.t & 0x8fff) | ((d & 7) << 12u16)) & 0xfc1f) | ((d & 0xf8) << 2u16);
            self.w = false;
        }
    }

    /// $2006: first write the high six bits of `t` (bit 14 cleared), second
    /// write the low byte, then `v = t`.
    pub fn write_ppu_addr(&mut self, data: u8)
        requires
            old(self).wf(),
        ensures
            final(self).wf(),
            !old(self).w ==> *final(self) == (PPU {
                t: ((old(self).t & 0x80ff) | (((data as u16) & 0x3f) << 8u16)) & 0xbfff,
                w: true,
                ..*old(self)
            }),
            old(self).w ==> *final(self) == (PPU {
                t: (old(self).t & 0xff00) | (data as u16),
                v: (old(self).t & 0xff00) | (data as u16),
                w: false,
                ..*old(self)
            }),
    {
        let d = data as u16;
        if !self.w {
            assert(((d & 0x3f) << 8u16) < 0x8000) by (bit_vector)
                requires
                    d == data as u16,
            ;
            proof {
                lemma_merge_15(self.t, 0x80ff, (d & 0x3f) << 8u16);
                lemma_merge_15((self.t & 0x80ff) | ((d & 0x3f) << 8u16), 0xbfff, 0);
                assert(((self.t & 0x80ff) | ((d & 0x3f) << 8u16)) & 0xbfff == ((((self.t & 0x80ff)
                    | ((d & 0x3f) << 8u16)) & 0xbfff) | 0)) by (bit_vector);
            }
            self.t = ((self.t & 0x80ff) | ((d & 0x3f) << 8u16)) & 0xbfff;
            self.w = true;
        } else {
            proof {
                lemma_merge_15(self.t, 0xff00, d);
            }
            self.t = (self.t & 0xff00) | d;
            self.v = self.t;
            self.w = false;
        }
    }

    /// $2007 write: stores at `v` (pattern tables through the cartridge,
    /// nametables, palette), then `v` advances by 1 or 32.
    pub fn write_ppu_data(&mut self, data: u8)
        requires
            old(self).wf(),
        ensures
            final(self).wf(),
            final(self).v == v_after_data_access(*old(self)),
            (old(self).v & 0x3fff) >= 0x3f00 ==> final(self).frame_palette@ == old(
                self,
            ).frame_palette@.update(palette_index(old(self).v & 0x3fff), data),
            (0x2000 <= (old(self).v & 0x3fff) < 0x3f00) ==> final(self).vram@ == old(self).vram@.update(
                old(self).vram_index(old(self).v & 0x3fff),
                data,
            ),
            Cartridge::same_image(old(self).cartridge, final(self).cartridge),
            (old(self).v & 0x3fff) < 0x3f00 ==> final(self).frame_palette == old(self).frame_palette,
            !(0x2000 <= (old(self).v & 0x3fff) < 0x3f00) ==> final(self).vram == old(self).vram,
            (old(self).v & 0x3fff) >= 0x2000 ==> final(self).cartridge == old(self).cartridge,
            *final(self) == (PPU {
                v: final(self).v,
                frame_palette: final(self).frame_palette,
                vram: final(self).vram,
                cartridge: final(self).cartridge,
                ..*old(self)
            }),
    {
        let addr = self.v & 0x3fff;
        if addr < 0x2000 {
            self.write_chr(addr, data);
        } else if addr < 0x3f00 {
            self.write_nametable(addr, data);
        } else {
            self.write_palette(addr, data);
        }
        self.v = ((self.v as u32 + self.vram_addr_increment() as u32) % 0x4000) as u16;
    }
}

} // verus!
