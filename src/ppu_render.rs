//! Background fetches, sprite evaluation and pixel output.
use vstd::prelude::*;
use crate::cpu::Interrupt;
use crate::execute::cartridge_irq;
use crate::ppu::{PPU, Sprite};
use crate::palette::{system_color, system_rgb};
use crate::scroll::{
    coarse_x_next, copy_x, copy_y, fine_y_next, increment_coarse_x, increment_fine_y,
    lemma_copies_15,
};

verus! {

/// The 4-bit background pixel under fine x: palette << 2 | pattern.
pub open spec fn bg_pixel(p: PPU) -> u64 {
    ((p.shift_register >> 32u64) >> (((7 - p.x) * 4) as u64)) & 0xf
}

/// The first sprite of the secondary list, from position `i` on, that
/// covers screen column `px` with an opaque pixel.
pub open spec fn sprite_at(p: PPU, px: int, i: int) -> Option<int>
    decreases 8 - i,
{
    if i < 0 || i >= p.sprites_count || i >= 8 {
        None
    } else {
        let s = p.sprites@[i];
        if s.x <= px <= s.x + 7 && s.tile_row@[px - s.x] % 4 != 0 {
            Some(i)
        } else {
            sprite_at(p, px, i + 1)
        }
    }
}

/// The pixel value sprite `i` of the secondary list shows at column `px`.
pub open spec fn sprite_value(p: PPU, px: int, i: int) -> u8 {
    p.sprites@[i].tile_row@[px - p.sprites@[i].x]
}

/// Whether the background layer is drawn at column `px`.
pub open spec fn bg_shown(p: PPU, px: int) -> bool {
    p.mask & 0x08 != 0 && (px >= 8 || p.mask & 0x02 != 0)
}

/// Whether the sprite layer is drawn at column `px`.
pub open spec fn sp_shown(p: PPU, px: int) -> bool {
    p.mask & 0x10 != 0 && (px >= 8 || p.mask & 0x04 != 0)
}

/// The opaque background pixel at column `px`, if any.
pub open spec fn bg_at(p: PPU, px: int) -> Option<u64> {
    if bg_shown(p, px) && bg_pixel(p) % 4 != 0 {
        Some(bg_pixel(p))
    } else {
        None
    }
}

/// The opaque sprite (position in the secondary list) at column `px`, if
/// any.
pub open spec fn sp_at(p: PPU, px: int) -> Option<int> {
    if sp_shown(p, px) {
        sprite_at(p, px, 0)
    } else {
        None
    }
}

/// The palette RAM entry the pixel at column `px` shows: backdrop when
/// both layers are transparent, else the opaque one, and where both are
/// opaque the background if the sprite is behind it.
pub open spec fn pixel_entry(p: PPU, px: int) -> int {
    match (bg_at(p, px), sp_at(p, px)) {
        (None, None) => 0,
        (None, Some(i)) => 0x10 + sprite_value(p, px, i) % 16,
        (Some(b), None) => b as int,
        (Some(b), Some(i)) => if p.sprites@[i].show_bg {
            b as int
        } else {
            0x10 + sprite_value(p, px, i) % 16
        },
    }
}

/// Whether drawing column `px` sets the sprite-zero hit flag.
pub open spec fn sprite_zero_hits(p: PPU, px: int) -> bool {
    match (bg_at(p, px), sp_at(p, px)) {
        (Some(_), Some(i)) => p.sprites@[i].index == 0 && px < 255 && p.status & 0x40 == 0,
        _ => false,
    }
}

/// The last column never registers a sprite-zero hit.
pub proof fn lemma_no_hit_at_last_column(p: PPU)
    ensures
        !sprite_zero_hits(p, 255),
{
}

/// Whether primary OAM entry `i` covers the current scanline.
pub open spec fn on_line(p: PPU, i: int) -> bool {
    let y = p.oam@[4 * i] as int;
    let height = if p.ctrl & 0x20 == 0 {
        7int
    } else {
        15int
    };
    y <= p.line <= y + height
}

/// How many of the first `n` OAM entries cover the current scanline.
pub open spec fn hits_before(p: PPU, n: int) -> int
    decreases n,
{
    if n <= 0 {
        0
    } else {
        hits_before(p, n - 1) + if on_line(p, n - 1) {
            1int
        } else {
            0int
        }
    }
}

proof fn lemma_hits_monotone(p: PPU, a: int, b: int)
    requires
        0 <= a <= b,
    ensures
        hits_before(p, a) <= hits_before(p, b),
        hits_before(p, b) - hits_before(p, a) <= b - a,
    decreases b - a,
{
    if a < b {
        lemma_hits_monotone(p, a, b - 1);
    }
}

/// The CHR address of the row of OAM entry `i` that the current scanline
/// crosses, flips and 8x16 halves applied.
pub open spec fn sprite_row_addr(p: PPU, i: int) -> int {
    let y = p.oam@[4 * i] as int;
    let tile = p.oam@[4 * i + 1] as int;
    let attr = p.oam@[4 * i + 2];
    let row = p.line - y;
    if p.ctrl & 0x20 == 0 {
        let r = if attr & 0x80 != 0 {
            7 - row
        } else {
            row
        };
        (if p.ctrl & 0x08 == 0 {
            0int
        } else {
            0x1000int
        }) + tile * 16 + r
    } else {
        let r = if attr & 0x80 != 0 {
            15 - row
        } else {
            row
        };
        let bank = (tile % 2) * 0x1000;
        let t = tile - tile % 2;
        if r > 7 {
            bank + (t + 1) * 16 + (r - 8)
        } else {
            bank + t * 16 + r
        }
    }
}

/// Pixel `j` (0 = left) of a sprite row with bit planes `lo` and `hi`.
pub open spec fn sprite_pixel(lo: u8, hi: u8, palette: u8, flip: bool, j: int) -> u8 {
    let b = if flip {
        j as u8
    } else {
        (7 - j) as u8
    };
    (palette << 2u8) | (((hi >> b) & 1) << 1u8) | ((lo >> b) & 1)
}

/// Pixel `k` (0 = left) of a background tile row: attribute bits over the
/// two pattern bits.
pub open spec fn bg_row_pixel(attr: u8, lo: u8, hi: u8, k: int) -> u32 {
    (((attr as u32) << 2u32) | ((((hi >> ((7 - k) as u8)) & 1) as u32) << 1u32) | (((lo >> ((7
        - k) as u8)) & 1) as u32))
}

/// The first `n` pixels of a background tile row packed four bits each,
/// leftmost in the highest nibble.
pub open spec fn bg_row_bits(attr: u8, lo: u8, hi: u8, n: int) -> u32
    decreases n,
{
    if n <= 0 {
        0
    } else {
        (bg_row_bits(attr, lo, hi, n - 1) << 4u32) | bg_row_pixel(attr, lo, hi, n - 1)
    }
}

/// Nametable address of the tile under `v`.
pub open spec fn nt_addr(v: u16) -> u16 {
    0x2000 | (v & 0x0fff)
}

/// Attribute-table address of the tile under `v`.
pub open spec fn at_addr(v: u16) -> u16 {
    0x23c0 | (v & 0x0c00) | ((v >> 4u16) & 0x38) | ((v >> 2u16) & 0x07)
}

/// Shift that selects the tile's two bits of its attribute byte.
pub open spec fn at_shift(v: u16) -> u16 {
    ((v >> 4u16) & 4) | (v & 2)
}

/// Dot, line, odd-frame flag and frame count after one PPU dot; with
/// rendering on, dot 339 of the pre-render line of an odd frame skips
/// straight to the next frame.
pub open spec fn next_position(p: PPU, rendering: bool) -> (u16, u16, bool, u64) {
    if rendering && p.odd && p.line == 261 && p.dot == 339 {
        (0, 0, !p.odd, next_frame(p.frame_counter))
    } else if p.dot < 340 {
        ((p.dot + 1) as u16, p.line, p.odd, p.frame_counter)
    } else if p.line < 261 {
        (0, (p.line + 1) as u16, p.odd, p.frame_counter)
    } else {
        (0, 0, !p.odd, next_frame(p.frame_counter))
    }
}

/// `v` after the scroll updates of the current dot (rendering on).
pub open spec fn scrolled_v(p: PPU) -> u16 {
    let fetch_line = p.line < 240 || p.line == 261;
    let fetch_dot = (1 <= p.dot <= 256) || (321 <= p.dot <= 336);
    let v1 = if fetch_line && fetch_dot && p.dot % 8 == 0 {
        coarse_x_next(p.v)
    } else {
        p.v
    };
    let v2 = if fetch_line && p.dot == 256 {
        fine_y_next(v1)
    } else {
        v1
    };
    let v3 = if fetch_line && p.dot == 257 {
        copy_x(v2, p.t)
    } else {
        v2
    };
    if p.line == 261 && 280 <= p.dot <= 304 {
        copy_y(v3, p.t)
    } else {
        v3
    }
}

/// Whether the current dot outputs a pixel.
pub open spec fn render_dot(p: PPU) -> bool {
    p.line < 240 && 1 <= p.dot <= 256
}

/// The frame buffer after outputting the pixel of the current dot.
pub open spec fn frame_after_pixel(p: PPU) -> Seq<u8> {
    let px = p.dot - 1;
    let o = (p.line * 256 + px) * 4;
    let rgb = system_rgb(p.frame_palette@[pixel_entry(p, px)]);
    p.frame_buffer@.update(o, rgb.0).update(o + 1, rgb.1).update(o + 2, rgb.2).update(o + 3, 255)
}

/// The status register after the rendering work of the current dot:
/// sprite-zero hit from the pixel, overflow from sprite evaluation at dot
/// 256 of a visible line.
pub open spec fn status_after_pipeline(p: PPU) -> u8 {
    let s1 = if render_dot(p) && sprite_zero_hits(p, p.dot - 1) {
        p.status | 0x40
    } else {
        p.status
    };
    if p.dot == 256 && p.line < 240 && hits_before(p, 64) >= 9 {
        s1 | 0x20
    } else {
        s1
    }
}

proof fn lemma_overflow_bit(s: u8)
    ensures
        (s | 0x20) & 0x20 != 0,
        ((s | 0x40) | 0x20) & 0x20 != 0,
{
    assert((s | 0x20) & 0x20 != 0 && ((s | 0x40) | 0x20) & 0x20 != 0) by (bit_vector);
}

/// Sprite evaluation looks only at OAM, the scanline and the sprite size.
proof fn lemma_hits_same(p: PPU, q: PPU, n: int)
    requires
        p.oam == q.oam,
        p.line == q.line,
        p.ctrl == q.ctrl,
    ensures
        hits_before(p, n) == hits_before(q, n),
    decreases n,
{
    if n > 0 {
        lemma_hits_same(p, q, n - 1);
    }
}

/// The frame count after one more frame, wrapping at the top.
pub open spec fn next_frame(n: u64) -> u64 {
    if n == u64::MAX {
        0
    } else {
        (n + 1) as u64
    }
}

impl PPU {
    /// One background fetch step, chosen by `dot & 7`; the shift register
    /// moves one pixel first.
    #[verifier::rlimit(100)]
    pub fn fetch_bg(&mut self)
        requires
            old(self).wf(),
        ensures
            final(self).wf(),
            ({
                let p = *old(self);
                let q = PPU { shift_register: p.shift_register << 4u64, ..p };
                let fine_y = (p.v >> 12u16) & 7;
                let pt = (if p.ctrl & 0x10 == 0 {
                    0int
                } else {
                    0x1000int
                }) + p.nametable_latch * 16 + fine_y;
                if p.dot % 8 == 1 {
                    *final(self) == (PPU {
                        nametable_latch: p.vram@[p.vram_index(nt_addr(p.v))],
                        ..q
                    })
                } else if p.dot % 8 == 3 {
                    *final(self) == (PPU {
                        attribute_table_latch: (p.vram@[p.vram_index(at_addr(p.v))] >> (at_shift(
                            p.v,
                        ) as u8)) & 3,
                        ..q
                    })
                } else if p.dot % 8 == 7 {
                    *final(self) == (PPU {
                        pattern_table_low_latch: p.cartridge.peek(pt as u16),
                        pattern_table_high_latch: p.cartridge.peek((pt + 8) as u16),
                        ..q
                    })
                } else if p.dot % 8 == 0 {
                    *final(self) == (PPU {
                        shift_register: q.shift_register | (bg_row_bits(
                            p.attribute_table_latch,
                            p.pattern_table_low_latch,
                            p.pattern_table_high_latch,
                            8,
                        ) as u64),
                        ..q
                    })
                } else {
                    *final(self) == q
                }
            }),
    {
        self.shift_register = self.shift_register << 4u64;
        let d = self.dot % 8;
        if d == 1 {
            let addr = 0x2000 | (self.v & 0x0fff);
            self.nametable_latch = self.read_nametable(addr);
        } else if d == 3 {
            let v = self.v;
            let addr = 0x23c0 | (v & 0x0c00) | ((v >> 4u16) & 0x38) | ((v >> 2u16) & 0x07);
            let shift = ((v >> 4u16) & 4) | (v & 2);
            assert(shift <= 6) by (bit_vector)
                requires
                    shift == ((v >> 4u16) & 4) | (v & 2),
            ;
            self.attribute_table_latch = (self.read_nametable(addr) >> (shift as u8)) & 3;
        } else if d == 7 {
            let v = self.v;
            let fine_y = (v >> 12u16) & 7;
            assert(fine_y <= 7) by (bit_vector)
                requires
                    fine_y == (v >> 12u16) & 7,
            ;
            let addr = self.background_pt_addr() + (self.nametable_latch as u16) * 16 + fine_y;
            self.pattern_table_low_latch = self.read_chr(addr);
            self.pattern_table_high_latch = self.read_chr(addr + 8);
        } else if d == 0 {
            let mut new_data: u32 = 0;
            let attr = self.attribute_table_latch;
            let lo = self.pattern_table_low_latch;
            let hi = self.pattern_table_high_latch;
            let mut k: usize = 0;
            while k < 8
                invariant
                    k <= 8,
                    new_data == bg_row_bits(attr, lo, hi, k as int),
                decreases 8 - k,
            {
                let b = (7 - k) as u8;
                let px = ((attr as u32) << 2u32) | ((((hi >> b) & 1) as u32) << 1u32) | (((lo >> b)
                    & 1) as u32);
                new_data = (new_data << 4u32) | px;
                k = k + 1;
            }
            self.shift_register = self.shift_register | (new_data as u64);
        }
    }

    /// Scroll updates of one dot: coarse x every eighth fetch dot, fine y
    /// at dot 256, horizontal bits from `t` at dot 257, vertical bits from
    /// `t` on pre-render dots 280..=304.
    fn increment_and_copy(&mut self, fetch_line: bool, fetch_dot: bool, preline: bool)
        requires
            old(self).wf(),
        ensures
            final(self).wf(),
            ({
                let p = *old(self);
                let v1 = if fetch_line && fetch_dot && p.dot % 8 == 0 {
                    coarse_x_next(p.v)
                } else {
                    p.v
                };
                let v2 = if fetch_line && p.dot == 256 {
                    fine_y_next(v1)
                } else {
                    v1
                };
                let v3 = if fetch_line && p.dot == 257 {
                    copy_x(v2, p.t)
                } else {
                    v2
                };
                let v4 = if preline && 280 <= p.dot <= 304 {
                    copy_y(v3, p.t)
                } else {
                    v3
                };
                *final(self) == (PPU { v: v4, ..p })
            }),
    {
        if fetch_line {
            if fetch_dot && self.dot % 8 == 0 {
                self.v = increment_coarse_x(self.v);
            }
            if self.dot == 256 {
                self.v = increment_fine_y(self.v);
            }
            if self.dot == 257 {
                proof {
                    lemma_copies_15(self.v, self.t);
                }
                self.v = (self.v & 0xfbe0) | (self.t & 0x041f);
            }
        }
        if preline && self.dot >= 280 && self.dot <= 304 {
            proof {
                lemma_copies_15(self.v, self.t);
            }
            self.v = (self.v & 0x841f) | (self.t & 0x7be0);
        }
    }

    /// Advances the PPU by one dot.
    #[verifier::rlimit(100)]
    pub fn step(&mut self)
        requires
            old(self).wf(),
        ensures
            final(self).wf(),
            (final(self).dot, final(self).line, final(self).odd, final(self).frame_counter)
                == next_position(*old(self), old(self).rendering_on()),
            final(self).ctrl == old(self).ctrl,
            final(self).mask == old(self).mask,
            final(self).t == old(self).t,
            final(self).x == old(self).x,
            final(self).w == old(self).w,
            final(self).oam == old(self).oam,
            final(self).frame_palette == old(self).frame_palette,
            final(self).vram == old(self).vram,
            final(self).dma_triggered == old(self).dma_triggered,
            final(self).frame_complete == (old(self).frame_complete || (old(self).line == 241
                && old(self).dot == 1)),
            (old(self).line == 241 && old(self).dot == 1) ==> final(self).status & 0x80 != 0,
            (old(self).line == 261 && old(self).dot == 1) ==> final(self).status & 0xe0 == 0,
            (old(self).line == 241 && old(self).dot == 1 && old(self).ctrl & 0x80 != 0
                && !old(self).nmi_previous_state) ==> final(self).nmi_triggered,
            final(self).nmi_triggered ==> old(self).nmi_triggered || final(self).nmi_line(),
            final(self).nmi_previous_state == if (old(self).line == 241 || old(self).line == 261)
                && old(self).dot == 1 {
                final(self).nmi_line()
            } else {
                old(self).nmi_previous_state
            },
            final(self).nmi_triggered == (old(self).nmi_triggered || ((old(
                self,
            ).nmi_triggering_allowed || ((old(self).line == 241 || old(self).line == 261) && old(
                self,
            ).dot == 1 && !old(self).nmi_previous_state && final(self).nmi_line()))
                && final(self).nmi_line())),
            final(self).nmi_triggering_allowed == ((old(self).nmi_triggering_allowed || ((old(
                self,
            ).line == 241 || old(self).line == 261) && old(self).dot == 1
                && !old(self).nmi_previous_state && final(self).nmi_line())) && !final(self).nmi_line()),
            !old(self).rendering_on() ==> final(self).v == old(self).v && final(self).frame_buffer
                == old(self).frame_buffer && final(self).cartridge == old(self).cartridge
                && final(self).sprites == old(self).sprites && final(self).sprites_count == old(
                self,
            ).sprites_count,
            old(self).rendering_on() ==> final(self).v == scrolled_v(*old(self)),
            old(self).rendering_on() && render_dot(*old(self)) ==> final(self).frame_buffer@
                == frame_after_pixel(*old(self)),
            old(self).rendering_on() && !render_dot(*old(self)) ==> final(self).frame_buffer == old(
                self,
            ).frame_buffer,
            (old(self).rendering_on() && old(self).dot == 256 && old(self).line < 240) ==> final(self).sprites_count == if hits_before(*old(self), 64) < 8 {
                hits_before(*old(self), 64)
            } else {
                8
            },
            (old(self).rendering_on() && old(self).dot == 256 && old(self).line < 240 && hits_before(
                *old(self),
                64,
            ) >= 9) ==> final(self).status & 0x20 != 0,
    {
        let rendering_enabled = self.is_rendering_enabled();
        proof {
            lemma_overflow_bit(old(self).status);
        }
        if rendering_enabled {
            self.pipeline();
        }
        self.vblank_and_nmi();
        self.advance_clock(rendering_enabled);
    }

    /// The rendering work of one dot: pixel output, fetches, sprite
    /// evaluation, the board's scanline clock and scroll updates.
    #[verifier::rlimit(100)]
    fn pipeline(&mut self)
        requires
            old(self).wf(),
        ensures
            final(self).wf(),
            final(self).v == scrolled_v(*old(self)),
            render_dot(*old(self)) ==> final(self).frame_buffer@ == frame_after_pixel(*old(self)),
            !render_dot(*old(self)) ==> final(self).frame_buffer == old(self).frame_buffer,
            final(self).status == status_after_pipeline(*old(self)),
            !(old(self).dot == 256 && old(self).line < 240) ==> final(self).sprites == old(
                self,
            ).sprites && final(self).sprites_count == old(self).sprites_count,
            (old(self).dot == 256 && old(self).line < 240) ==> final(self).sprites_count == if hits_before(
                *old(self),
                64,
            ) < 8 {
                hits_before(*old(self), 64)
            } else {
                8
            },
            !(old(self).dot == 260 && old(self).line < 240) ==> final(self).cartridge == old(
                self,
            ).cartridge,
            forall|a: u16| #[trigger] final(self).cartridge.peek(a) == old(self).cartridge.peek(a),
            *final(self) == (PPU {
                v: final(self).v,
                status: final(self).status,
                shift_register: final(self).shift_register,
                nametable_latch: final(self).nametable_latch,
                attribute_table_latch: final(self).attribute_table_latch,
                pattern_table_low_latch: final(self).pattern_table_low_latch,
                pattern_table_high_latch: final(self).pattern_table_high_latch,
                sprites: final(self).sprites,
                sprites_count: final(self).sprites_count,
                frame_buffer: final(self).frame_buffer,
                cartridge: final(self).cartridge,
                ..*old(self)
            }),
    {
        let visible_line = self.line < 240;
        let preline = self.line == 261;
        let fetch_line = visible_line || preline;
        let visible_dot = self.dot >= 1 && self.dot <= 256;
        let pre_fetch_dot = self.dot >= 321 && self.dot <= 336;
        let fetch_dot = visible_dot || pre_fetch_dot;
        if visible_line && visible_dot {
            self.render();
        }
        if fetch_line && fetch_dot {
            self.fetch_bg();
        }
        if self.dot == 256 && visible_line {
            let ghost before = *self;
            self.fetch_sprites();
            proof {
                lemma_hits_same(before, *old(self), 64);
            }
        }
        if self.dot == 260 && visible_line {
            self.cartridge.step();
        }
        self.increment_and_copy(fetch_line, fetch_dot, preline);
    }

    /// Enters vblank at (241, 1), leaves it at (261, 1), and raises an armed
    /// NMI while its condition holds.
    #[verifier::rlimit(100)]
    fn vblank_and_nmi(&mut self)
        requires
            old(self).wf(),
        ensures
            final(self).wf(),
            *final(self) == (PPU {
                status: final(self).status,
                frame_complete: final(self).frame_complete,
                nmi_previous_state: final(self).nmi_previous_state,
                nmi_triggering_allowed: final(self).nmi_triggering_allowed,
                nmi_triggered: final(self).nmi_triggered,
                ..*old(self)
            }),
            final(self).frame_complete == (old(self).frame_complete || (old(self).line == 241
                && old(self).dot == 1)),
            (old(self).line == 241 && old(self).dot == 1) ==> final(self).status & 0x80 != 0,
            (old(self).line == 261 && old(self).dot == 1) ==> final(self).status & 0xe0 == 0,
            (old(self).line == 241 && old(self).dot == 1 && old(self).ctrl & 0x80 != 0
                && !old(self).nmi_previous_state) ==> final(self).nmi_triggered,
            final(self).nmi_triggered ==> old(self).nmi_triggered || final(self).nmi_line(),
            !((old(self).line == 241 || old(self).line == 261) && old(self).dot == 1) ==> final(self).status == old(self).status,
            final(self).nmi_previous_state == if (old(self).line == 241 || old(self).line == 261)
                && old(self).dot == 1 {
                final(self).nmi_line()
            } else {
                old(self).nmi_previous_state
            },
            final(self).nmi_triggered == (old(self).nmi_triggered || ((old(
                self,
            ).nmi_triggering_allowed || ((old(self).line == 241 || old(self).line == 261) && old(
                self,
            ).dot == 1 && !old(self).nmi_previous_state && final(self).nmi_line()))
                && final(self).nmi_line())),
            final(self).nmi_triggering_allowed == ((old(self).nmi_triggering_allowed || ((old(
                self,
            ).line == 241 || old(self).line == 261) && old(self).dot == 1
                && !old(self).nmi_previous_state && final(self).nmi_line())) && !final(self).nmi_line()),
    {
        if self.line == 241 && self.dot == 1 {
            self.frame_complete = true;
            let s0 = self.status;
            self.set_vblank_started();
            let st = self.status;
            assert(st & 0x80 != 0) by (bit_vector)
                requires
                    st == s0 | 0x80,
            ;
            self.update_nmi_state();
        }
        if self.line == 261 && self.dot == 1 {
            let s0 = self.status;
            self.clear_vblank_started();
            self.clear_sprite_0_hit();
            self.clear_sprite_overflow();
            self.update_nmi_state();
            let st = self.status;
            assert(st & 0xe0 == 0) by (bit_vector)
                requires
                    st == ((s0 & 0x7f) & 0xbf) & 0xdf,
            ;
        }
        if self.nmi_triggering_allowed && self.genrate_nmi() && self.vblank_started() {
            self.nmi_triggered = true;
            self.nmi_triggering_allowed = false;
        }

    }

    /// Moves to the next dot, line and frame.
    fn advance_clock(&mut self, rendering_enabled: bool)
        requires
            old(self).wf(),
        ensures
            final(self).wf(),
            (final(self).dot, final(self).line, final(self).odd, final(self).frame_counter)
                == next_position(*old(self), rendering_enabled),
            *final(self) == (PPU {
                dot: final(self).dot,
                line: final(self).line,
                odd: final(self).odd,
                frame_counter: final(self).frame_counter,
                ..*old(self)
            }),
    {
        if rendering_enabled && self.odd && self.line == 261 && self.dot == 339 {
            self.dot = 0;
            self.line = 0;
            self.odd = !self.odd;
            self.frame_counter = if self.frame_counter == u64::MAX {
                0
            } else {
                self.frame_counter + 1
            };
            return;
        }
        self.dot = self.dot + 1;
        if self.dot > 340 {
            self.dot = 0;
            self.line = self.line + 1;
            if self.line > 261 {
                self.line = 0;
                self.odd = !self.odd;
                self.frame_counter = if self.frame_counter == u64::MAX {
                0
            } else {
                self.frame_counter + 1
            };
            }
        }
    }

    /// Reports a pending OAM DMA stall and clears it.
    pub fn dma_triggered(&mut self) -> (r: bool)
        ensures
            r == old(self).dma_triggered,
            *final(self) == (PPU { dma_triggered: false, ..*old(self) }),
    {
        let triggered = self.dma_triggered;
        self.dma_triggered = false;
        triggered
    }

    /// Reports a pending NMI and clears it.
    pub fn nmi_triggered(&mut self) -> (r: bool)
        ensures
            r == old(self).nmi_triggered,
            *final(self) == (PPU { nmi_triggered: false, ..*old(self) }),
    {
        let triggered = self.nmi_triggered;
        self.nmi_triggered = false;
        triggered
    }

    /// The interrupt to service next: a pending NMI (cleared), else a board
    /// IRQ (acknowledged), else none.
    pub fn interrupt_triggered(&mut self) -> (r: Interrupt)
        requires
            old(self).wf(),
        ensures
            final(self).wf(),
            old(self).nmi_triggered ==> r == Interrupt::NMI && *final(self) == (PPU {
                nmi_triggered: false,
                ..*old(self)
            }),
            !old(self).nmi_triggered && cartridge_irq(old(self).cartridge) ==> r == Interrupt::IRQ,
            !old(self).nmi_triggered && !cartridge_irq(old(self).cartridge) ==> r
                == Interrupt::NoInterrupt && *final(self) == *old(self),
            !old(self).nmi_triggered ==> !cartridge_irq(final(self).cartridge),
    {
        if self.nmi_triggered() {
            Interrupt::NMI
        } else if self.cartridge.irq_triggered() {
            Interrupt::IRQ
        } else {
            Interrupt::NoInterrupt
        }
    }

    /// Reports whether a frame was completed and clears the flag.
    pub fn frame_complete(&mut self) -> (r: bool)
        ensures
            r == old(self).frame_complete,
            *final(self) == (PPU { frame_complete: false, ..*old(self) }),
    {
        let complete = self.frame_complete;
        self.frame_complete = false;
        complete
    }

    /// at (dot - 1, line) into the frame buffer.
    #[verifier::rlimit(100)]
    pub fn render(&mut self)
        requires
            old(self).wf(),
            old(self).line < 240,
            1 <= old(self).dot <= 256,
        ensures
            final(self).wf(),
            ({
                let p = *old(self);
                let px = p.dot - 1;
                let o = (p.line * 256 + px) * 4;
                let rgb = system_rgb(p.frame_palette@[pixel_entry(p, px)]);
                &&& final(self).frame_buffer@ == p.frame_buffer@.update(o, rgb.0).update(
                    o + 1,
                    rgb.1,
                ).update(o + 2, rgb.2).update(o + 3, 255)
                &&& *final(self) == (PPU {
                    frame_buffer: final(self).frame_buffer,
                    status: if sprite_zero_hits(p, px) {
                        p.status | 0x40
                    } else {
                        p.status
                    },
                    ..p
                })
            }),
    {
        let x = (self.dot - 1) as usize;
        let y = self.line as usize;
        let (entry, hit) = self.pixel_choice(x);
        if hit {
            self.set_sprite_0_hit();
        }
        let (r, g, b) = system_color(self.frame_palette[entry]);
        let offset = (y * 256 + x) * 4;
        self.frame_buffer.set(offset, r);
        self.frame_buffer.set(offset + 1, g);
        self.frame_buffer.set(offset + 2, b);
        self.frame_buffer.set(offset + 3, 255);
    }

    /// The palette entry for column `x` and whether it registers a
    /// sprite-zero hit.
    #[verifier::rlimit(100)]
    fn pixel_choice(&self, x: usize) -> (r: (usize, bool))
        requires
            self.wf(),
            x < 256,
        ensures
            r.0 < 32,
            r.0 as int == pixel_entry(*self, x as int),
            r.1 == sprite_zero_hits(*self, x as int),
    {
        let render_bg = self.bg_rendering_allowed() && (x >= 8
            || self.leftmost_bg_rendering_allowed());
        let render_sp = self.sp_rendering_allowed() && (x >= 8
            || self.leftmost_sp_rendering_allowed());
        let bg = if render_bg {
            self.get_bg_color()
        } else {
            None
        };
        let sp = if render_sp {
            self.get_sp_color(x as u16)
        } else {
            None
        };
        let entry: usize = match (bg, sp) {
            (None, None) => 0,
            (None, Some(i)) => 0x10 + (self.sprites[i].tile_row[x - self.sprites[i].x as usize]
                % 16) as usize,
            (Some(b), None) => b as usize,
            (Some(b), Some(i)) => if self.sprites[i].show_bg {
                b as usize
            } else {
                0x10 + (self.sprites[i].tile_row[x - self.sprites[i].x as usize] % 16) as usize
            },
        };
        let hit = match (bg, sp) {
            (Some(_), Some(i)) => self.sprites[i].index == 0 && x < 255 && !self.sprite_0_hit(),
            _ => false,
        };
        (entry, hit)
    }

    /// The opaque background pixel under fine x, if any.
    fn get_bg_color(&self) -> (r: Option<u8>)
        requires
            self.x < 8,
        ensures
            bg_pixel(*self) < 16,
            r == (if bg_pixel(*self) % 4 != 0 {
                Some(bg_pixel(*self) as u8)
            } else {
                None
            }),
    {
        let tile_row = self.shift_register >> 32u64;
        let shift = ((7 - self.x) * 4) as u64;
        let index = (tile_row >> shift) & 0xf;
        assert(index < 16) by (bit_vector)
            requires
                index == (tile_row >> shift) & 0xf,
        ;
        if index % 4 == 0 {
            None
        } else {
            Some(index as u8)
        }
    }

    /// The first sprite of the secondary list opaque at column `x`.
    fn get_sp_color(&self, x: u16) -> (r: Option<usize>)
        requires
            self.wf(),
        ensures
            match r {
                Some(i) => sprite_at(*self, x as int, 0) == Some(i as int) && i < 8
                    && self.sprites@[i as int].x <= x <= self.sprites@[i as int].x + 7,
                None => sprite_at(*self, x as int, 0) is None,
            },
    {
        let count = self.sprites_count as usize;
        let mut i: usize = 0;
        while i < count
            invariant
                count == self.sprites_count,
                count <= 8,
                i <= count,
                self.wf(),
                sprite_at(*self, x as int, 0) == sprite_at(*self, x as int, i as int),
            decreases count - i,
        {
            let s = &self.sprites[i];
            if s.x <= x && (x as u32) <= s.x as u32 + 7 {
                let v = s.tile_row[(x - s.x) as usize];
                if v % 4 != 0 {
                    return Some(i);
                }
            }
            i = i + 1;
        }
        None
    }

    /// Evaluates the sprites of the current scanline: the first eight
    /// entries of OAM that cover it go to the secondary list, and a ninth
    /// sets the sprite-overflow flag.
    #[verifier::rlimit(100)]
    pub fn fetch_sprites(&mut self)
        requires
            old(self).wf(),
        ensures
            final(self).wf(),
            final(self).sprites_count == if hits_before(*old(self), 64) < 8 {
                hits_before(*old(self), 64)
            } else {
                8
            },
            final(self).status == if hits_before(*old(self), 64) >= 9 {
                old(self).status | 0x20
            } else {
                old(self).status
            },
            forall|k: int|
                0 <= k < final(self).sprites_count ==> {
                    let i = (#[trigger] final(self).sprites@[k]).index as int;
                    &&& i < 64
                    &&& on_line(*old(self), i)
                    &&& hits_before(*old(self), i) == k
                    &&& final(self).sprites@[k].x == old(self).oam@[4 * i + 3]
                    &&& final(self).sprites@[k].show_bg == (old(self).oam@[4 * i + 2] & 0x20 != 0)
                },
            *final(self) == (PPU {
                sprites: final(self).sprites,
                sprites_count: final(self).sprites_count,
                status: final(self).status,
                ..*old(self)
            }),
    {
        let ghost p = *old(self);
        let height = self.sprite_size() as u16;
        let mut count: usize = 0;
        let mut i: usize = 0;
        let mut overflow = false;
        while i < 64 && !overflow
            invariant
                0 <= i <= 64,
                self.wf(),
                height == if p.ctrl & 0x20 == 0 {
                    7u16
                } else {
                    15u16
                },
                *self == (PPU { sprites: self.sprites, sprites_count: self.sprites_count, status: self.status, ..p }),
                self.sprites_count == p.sprites_count,
                !overflow ==> count == hits_before(p, i as int) && count <= 8 && self.status == p.status,
                overflow ==> hits_before(p, i as int) == 9 && count == 8 && self.status == p.status | 0x20,
                forall|k: int|
                    0 <= k < count ==> {
                        let j = (#[trigger] self.sprites@[k]).index as int;
                        &&& j < i
                        &&& on_line(p, j)
                        &&& hits_before(p, j) == k
                        &&& self.sprites@[k].x == p.oam@[4 * j + 3]
                        &&& self.sprites@[k].show_bg == (p.oam@[4 * j + 2] & 0x20 != 0)
                    },
            decreases 64 - i,
        {
            let y = self.oam[4 * i] as u16;
            if y <= self.line && self.line <= y + height {
                if count == 8 {
                    self.set_sprite_overflow();
                    overflow = true;
                } else {
                    let s = self.sprite_row(i);
                    self.sprites.set(count, s);
                    proof {
                        assert forall|k: int| 0 <= k < count implies {
                            let j = (#[trigger] self.sprites@[k]).index as int;
                            &&& j < i
                            &&& on_line(p, j)
                            &&& hits_before(p, j) == k
                            &&& self.sprites@[k].x == p.oam@[4 * j + 3]
                            &&& self.sprites@[k].show_bg == (p.oam@[4 * j + 2] & 0x20 != 0)
                        } by {}
                    }
                    count = count + 1;
                }
            }
            i = i + 1;
        }
        proof {
            if overflow {
                lemma_hits_monotone(p, i as int, 64);
            }
        }
        self.sprites_count = count as u8;
    }

    /// Builds the secondary-list entry for OAM entry `i` on the current
    /// scanline.
    #[verifier::rlimit(100)]
    fn sprite_row(&self, i: usize) -> (r: Sprite)
        requires
            self.wf(),
            i < 64,
            on_line(*self, i as int),
        ensures
            r.x == self.oam@[4 * i + 3],
            r.index == i,
            r.show_bg == (self.oam@[4 * i + 2] & 0x20 != 0),
            r.tile_row@.len() == 8,
            forall|j: int|
                0 <= j < 8 ==> #[trigger] r.tile_row@[j] == sprite_pixel(
                    self.cartridge.peek(sprite_row_addr(*self, i as int) as u16),
                    self.cartridge.peek((sprite_row_addr(*self, i as int) + 8) as u16),
                    self.oam@[4 * i + 2] & 3,
                    self.oam@[4 * i + 2] & 0x40 != 0,
                    j,
                ),
    {
        let offset = 4 * i;
        let y = self.oam[offset] as u16;
        let attr = self.oam[offset + 2];
        let palette = attr & 3;
        let show_bg = attr & 0x20 != 0;
        let flip_h = attr & 0x40 != 0;
        let flip_v = attr & 0x80 != 0;
        let row = self.line - y;
        let mut tile: u16 = self.oam[offset + 1] as u16;
        let addr: u16 = if self.ctrl & 0x20 == 0 {
            let r = if flip_v {
                7 - row
            } else {
                row
            };
            self.sprite_pt_addr() + tile * 16 + r
        } else {
            let r = if flip_v {
                15 - row
            } else {
                row
            };
            let bank = (tile % 2) * 0x1000;
            tile = tile - tile % 2;
            if r > 7 {
                bank + (tile + 1) * 16 + (r - 8)
            } else {
                bank + tile * 16 + r
            }
        };
        let lo = self.read_chr(addr);
        let hi = self.read_chr(addr + 8);
        let mut tile_row: Vec<u8> = Vec::new();
        let mut j: usize = 0;
        while j < 8
            invariant
                j <= 8,
                tile_row@.len() == j,
                forall|k: int| 0 <= k < j ==> #[trigger] tile_row@[k] == sprite_pixel(lo, hi, palette, flip_h, k),
            decreases 8 - j,
        {
            let b: u8 = if flip_h {
                j as u8
            } else {
                (7 - j) as u8
            };
            let px = (palette << 2u8) | (((hi >> b) & 1) << 1u8) | ((lo >> b) & 1);
            tile_row.push(px);
            j = j + 1;
        }
        Sprite { x: self.oam[offset + 3] as u16, index: i as u8, show_bg, tile_row }
    }
}

} // verus!
