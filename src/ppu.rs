//! The picture processing unit: registers, memories, scroll state and the
//! dot/scanline clock.
use vstd::prelude::*;
use crate::mappers::Cartridge;
use crate::rom::physical_table;

verus! {

/// Width times height times four bytes per pixel.
pub const FRAME_BYTES: usize = 245760;

/// One entry of the secondary sprite list, ready for the next scanline.
pub struct Sprite {
    /// Screen x of the left column.
    pub x: u16,
    /// Position of the sprite in primary OAM (0..=63).
    pub index: u8,
    /// Drawn behind opaque background pixels.
    pub show_bg: bool,
    /// Eight 4-bit pixel values, left to right: palette << 2 | pattern.
    pub tile_row: Vec<u8>,
}

pub struct PPU {
    /// 0..=340.
    pub dot: u16,
    /// 0..=239 visible, 240 post-render, 241..=260 vblank, 261 pre-render.
    pub line: u16,
    pub ctrl: u8,
    pub mask: u8,
    pub status: u8,
    pub oam_addr: u8,
    /// Current VRAM address: yyy NN YYYYY XXXXX.
    pub v: u16,
    /// Temporary VRAM address, same layout as `v`.
    pub t: u16,
    /// Fine x scroll.
    pub x: u8,
    /// Write toggle shared by $2005 and $2006.
    pub w: bool,
    /// Two tile rows of 4-bit pixels; the upper half is being drawn.
    pub shift_register: u64,
    pub nametable_latch: u8,
    pub attribute_table_latch: u8,
    pub pattern_table_low_latch: u8,
    pub pattern_table_high_latch: u8,
    pub vram: Vec<u8>,
    pub frame_palette: Vec<u8>,
    pub oam: Vec<u8>,
    pub sprites: Vec<Sprite>,
    pub sprites_count: u8,
    pub odd: bool,
    pub frame_counter: u64,
    /// 256 x 240 pixels, four bytes each (red, green, blue, 255).
    pub frame_buffer: Vec<u8>,
    pub frame_complete: bool,
    pub nmi_previous_state: bool,
    pub nmi_triggering_allowed: bool,
    pub nmi_triggered: bool,
    pub open_bus: u8,
    pub data_latch: u8,
    pub dma_triggered: bool,
    pub cartridge: Cartridge,
}

/// The palette RAM entry that palette address `addr` selects: 32 entries
/// repeated, with 0x10, 0x14, 0x18, 0x1C aliasing 0x00, 0x04, 0x08, 0x0C.
pub open spec fn palette_index(addr: u16) -> int {
    let a = addr % 32;
    if a >= 16 && a % 4 == 0 {
        a - 16
    } else {
        a as int
    }
}

impl PPU {
    pub open spec fn wf(&self) -> bool {
        &&& self.dot <= 340
        &&& self.line <= 261
        &&& self.v < 0x8000
        &&& self.t < 0x8000
        &&& self.x < 8
        &&& self.vram@.len() == 0x800
        &&& self.frame_palette@.len() == 32
        &&& self.oam@.len() == 256
        &&& self.sprites@.len() == 8
        &&& forall|i: int| 0 <= i < 8 ==> (#[trigger] self.sprites@[i]).tile_row@.len() == 8
        &&& self.sprites_count <= 8
        &&& self.frame_buffer@.len() == FRAME_BYTES
        &&& self.cartridge.wf()
    }

    /// The current NMI condition: NMIs enabled and vblank flag set.
    pub open spec fn nmi_line(&self) -> bool {
        self.ctrl & 0x80 != 0 && self.status & 0x80 != 0
    }

    /// `self` after the NMI edge detector has looked at the NMI condition.
    pub open spec fn nmi_updated(self) -> PPU {
        PPU {
            nmi_triggering_allowed: self.nmi_triggering_allowed || (!self.nmi_previous_state
                && self.nmi_line()),
            nmi_previous_state: self.nmi_line(),
            ..self
        }
    }

    /// Offset in nametable memory that PPU address `addr` reaches.
    pub open spec fn vram_index(&self, addr: u16) -> int {
        physical_table(self.cartridge.rom().mirroring, ((addr & 0x0fff) / 0x400) as int) * 0x400
            + (addr & 0x03ff)
    }

    pub fn new_ppu(cartridge: Cartridge) -> (r: PPU)
        requires
            cartridge.wf(),
        ensures
            r.wf(),
            r.cartridge == cartridge,
            r.line == 241 && r.dot == 0,
            r.ctrl == 0 && r.mask == 0 && r.status == 0 && r.oam_addr == 0,
            r.v == 0 && r.t == 0 && r.x == 0 && !r.w,
            !r.odd && r.frame_counter == 0 && !r.frame_complete,
            !r.nmi_previous_state && !r.nmi_triggering_allowed && !r.nmi_triggered,
            !r.dma_triggered && r.sprites_count == 0,
            r.vram@ == Seq::new(0x800, |i: int| 0u8),
            r.frame_palette@ == Seq::new(32, |i: int| 0u8),
            r.oam@ == Seq::new(256, |i: int| 0u8),
            r.frame_buffer@ == Seq::new(FRAME_BYTES as nat, |i: int| 0u8),
            r.data_latch == 0 && r.open_bus == 0 && r.shift_register == 0,
    {
        let mut sprites: Vec<Sprite> = Vec::new();
        let mut i: usize = 0;
        while i < 8
            invariant
                i <= 8,
                sprites@.len() == i,
                forall|j: int| 0 <= j < i ==> (#[trigger] sprites@[j]).tile_row@.len() == 8,
            decreases 8 - i,
        {
            sprites.push(Sprite { x: 0, index: 0, show_bg: false, tile_row: vec![0u8; 8] });
            i = i + 1;
        }
        let r = PPU {
            dot: 0,
            line: 241,
            ctrl: 0,
            mask: 0,
            status: 0,
            oam_addr: 0,
            v: 0,
            t: 0,
            x: 0,
            w: false,
            shift_register: 0,
            nametable_latch: 0,
            attribute_table_latch: 0,
            pattern_table_low_latch: 0,
            pattern_table_high_latch: 0,
            vram: vec![0u8; 0x800],
            frame_palette: vec![0u8; 32],
            oam: vec![0u8; 256],
            sprites,
            sprites_count: 0,
            odd: false,
            frame_counter: 0,
            frame_buffer: vec![0u8; FRAME_BYTES],
            frame_complete: false,
            nmi_previous_state: false,
            nmi_triggering_allowed: false,
            nmi_triggered: false,
            open_bus: 0,
            data_latch: 0,
            dma_triggered: false,
            cartridge,
        };
        assert(r.vram@ =~= Seq::new(0x800, |i: int| 0u8));
        assert(r.frame_palette@ =~= Seq::new(32, |i: int| 0u8));
        assert(r.oam@ =~= Seq::new(256, |i: int| 0u8));
        assert(r.frame_buffer@ =~= Seq::new(FRAME_BYTES as nat, |i: int| 0u8));
        r
    }

    // Control register bits.
    pub fn genrate_nmi(&self) -> (r: bool)
        ensures
            r == (self.ctrl & 0x80 != 0),
    {
        self.ctrl & 0x80 != 0
    }

    /// Sprite height minus one: 7 for 8x8 sprites, 15 for 8x16.
    pub fn sprite_size(&self) -> (r: u8)
        ensures
            r == if self.ctrl & 0x20 == 0 {
                7u8
            } else {
                15u8
            },
    {
        if self.ctrl & 0x20 == 0 {
            7
        } else {
            15
        }
    }

    pub fn background_pt_addr(&self) -> (r: u16)
        ensures
            r == if self.ctrl & 0x10 == 0 {
                0u16
            } else {
                0x1000u16
            },
    {
        if self.ctrl & 0x10 == 0 {
            0
        } else {
            0x1000
        }
    }

    pub fn sprite_pt_addr(&self) -> (r: u16)
        ensures
            r == if self.ctrl & 0x08 == 0 {
                0u16
            } else {
                0x1000u16
            },
    {
        if self.ctrl & 0x08 == 0 {
            0
        } else {
            0x1000
        }
    }

    pub fn vram_addr_increment(&self) -> (r: u16)
        ensures
            r == if self.ctrl & 0x04 == 0 {
                1u16
            } else {
                32u16
            },
    {
        if self.ctrl & 0x04 == 0 {
            1
        } else {
            32
        }
    }

    // Mask register bits.
    pub fn sp_rendering_allowed(&self) -> (r: bool)
        ensures
            r == (self.mask & 0x10 != 0),
    {
        self.mask & 0x10 != 0
    }

    pub fn bg_rendering_allowed(&self) -> (r: bool)
        ensures
            r == (self.mask & 0x08 != 0),
    {
        self.mask & 0x08 != 0
    }

    pub fn leftmost_sp_rendering_allowed(&self) -> (r: bool)
        ensures
            r == (self.mask & 0x04 != 0),
    {
        self.mask & 0x04 != 0
    }

    pub fn leftmost_bg_rendering_allowed(&self) -> (r: bool)
        ensures
            r == (self.mask & 0x02 != 0),
    {
        self.mask & 0x02 != 0
    }

    pub open spec fn rendering_on(&self) -> bool {
        self.mask & 0x08 != 0 || self.mask & 0x10 != 0
    }

    pub fn is_rendering_enabled(&self) -> (r: bool)
        ensures
            r == self.rendering_on(),
    {
        self.bg_rendering_allowed() || self.sp_rendering_allowed()
    }

    // Status register bits.
    pub fn vblank_started(&self) -> (r: bool)
        ensures
            r == (self.status & 0x80 != 0),
    {
        self.status & 0x80 != 0
    }

    pub fn set_vblank_started(&mut self)
        ensures
            *final(self) == (PPU { status: old(self).status | 0x80, ..*old(self) }),
    {
        self.status = self.status | 0x80;
    }

    pub fn clear_vblank_started(&mut self)
        ensures
            *final(self) == (PPU { status: old(self).status & 0x7f, ..*old(self) }),
    {
        self.status = self.status & 0x7f;
    }

    pub fn sprite_0_hit(&self) -> (r: bool)
        ensures
            r == (self.status & 0x40 != 0),
    {
        self.status & 0x40 != 0
    }

    pub fn set_sprite_0_hit(&mut self)
        ensures
            *final(self) == (PPU { status: old(self).status | 0x40, ..*old(self) }),
    {
        self.status = self.status | 0x40;
    }

    pub fn clear_sprite_0_hit(&mut self)
        ensures
            *final(self) == (PPU { status: old(self).status & 0xbf, ..*old(self) }),
    {
        self.status = self.status & 0xbf;
    }

    pub fn sprite_overflow(&self) -> (r: bool)
        ensures
            r == (self.status & 0x20 != 0),
    {
        self.status & 0x20 != 0
    }

    pub fn set_sprite_overflow(&mut self)
        ensures
            *final(self) == (PPU { status: old(self).status | 0x20, ..*old(self) }),
    {
        self.status = self.status | 0x20;
    }

    pub fn clear_sprite_overflow(&mut self)
        ensures
            *final(self) == (PPU { status: old(self).status & 0xdf, ..*old(self) }),
    {
        self.status = self.status & 0xdf;
    }

    /// Arms an NMI when the NMI condition has just gone from low to high.
    pub fn update_nmi_state(&mut self)
        ensures
            *final(self) == old(self).nmi_updated(),
    {
        let current = self.genrate_nmi() && self.vblank_started();
        if !self.nmi_previous_state && current {
            self.nmi_triggering_allowed = true;
        }
        self.nmi_previous_state = current;
    }

    // PPU address space.
    pub fn read_chr(&self, addr: u16) -> (r: u8)
        requires
            self.cartridge.wf(),
        ensures
            r == self.cartridge.peek(addr),
    {
        self.cartridge.read(addr)
    }

    pub fn write_chr(&mut self, addr: u16, data: u8)
        requires
            old(self).cartridge.wf(),
        ensures
            final(self).cartridge.wf(),
            Cartridge::same_image(old(self).cartridge, final(self).cartridge),
            *final(self) == (PPU { cartridge: final(self).cartridge, ..*old(self) }),
    {
        self.cartridge.write(addr, data);
    }

    /// Returns the buffered byte and refills the buffer from `addr`.
    pub fn read_chr_delayed(&mut self, addr: u16) -> (r: u8)
        requires
            old(self).cartridge.wf(),
        ensures
            r == old(self).data_latch,
            *final(self) == (PPU { data_latch: old(self).cartridge.peek(addr), ..*old(self) }),
    {
        let res = self.data_latch;
        self.data_latch = self.read_chr(addr);
        res
    }

    pub fn map_vram_addr(&self, addr: u16) -> (r: u16)
        ensures
            r as int == self.vram_index(addr),
            r < 0x800,
    {
        self.cartridge.mirroring().get_address(addr)
    }

    pub fn read_nametable(&self, addr: u16) -> (r: u8)
        requires
            self.vram@.len() == 0x800,
        ensures
            r == self.vram@[self.vram_index(addr)],
    {
        let i = self.map_vram_addr(addr);
        self.vram[i as usize]
    }

    pub fn write_nametable(&mut self, addr: u16, data: u8)
        requires
            old(self).vram@.len() == 0x800,
        ensures
            0 <= old(self).vram_index(addr) < 0x800,
            final(self).vram@.len() == 0x800,
            final(self).vram@ == old(self).vram@.update(old(self).vram_index(addr), data),
            *final(self) == (PPU { vram: final(self).vram, ..*old(self) }),
    {
        let i = self.map_vram_addr(addr);
        self.vram.set(i as usize, data);
    }

    pub fn read_nametable_delayed(&mut self, addr: u16) -> (r: u8)
        requires
            old(self).vram@.len() == 0x800,
        ensures
            r == old(self).data_latch,
            *final(self) == (PPU {
                data_latch: old(self).vram@[old(self).vram_index(addr)],
                ..*old(self)
            }),
    {
        let res = self.data_latch;
        self.data_latch = self.read_nametable(addr);
        res
    }

    pub fn map_palette_addr(&self, addr: u16) -> (r: u16)
        ensures
            r as int == palette_index(addr),
            r < 32,
    {
        let a = addr % 32;
        if a >= 16 && a % 4 == 0 {
            a - 16
        } else {
            a
        }
    }

    pub fn write_palette(&mut self, addr: u16, data: u8)
        requires
            old(self).frame_palette@.len() == 32,
        ensures
            final(self).frame_palette@ == old(self).frame_palette@.update(
                palette_index(addr),
                data,
            ),
            *final(self) == (PPU { frame_palette: final(self).frame_palette, ..*old(self) }),
    {
        let i = self.map_palette_addr(addr);
        self.frame_palette.set(i as usize, data);
    }

    pub fn read_palette(&self, addr: u16) -> (r: u8)
        requires
            self.frame_palette@.len() == 32,
        ensures
            r == self.frame_palette@[palette_index(addr)],
    {
        let i = self.map_palette_addr(addr);
        self.frame_palette[i as usize]
    }
}

/// Every well-formed PPU keeps `v` and `t` within 15 bits; all PPU
/// operations preserve well-formedness.
pub proof fn lemma_scroll_registers_15_bit(p: PPU)
    requires
        p.wf(),
    ensures
        p.v <= 0x7fff,
        p.t <= 0x7fff,
{
}

/// Palette address 0x3F10 shows the backdrop colour stored at 0x3F00, and
/// likewise 0x3F14/0x3F18/0x3F1C mirror 0x3F04/0x3F08/0x3F0C.
pub proof fn lemma_palette_mirror(p: PPU, addr: u16)
    requires
        0x3f10 <= addr <= 0x3fff,
        addr % 4 == 0,
        (addr - 0x3f00) % 32 >= 16,
    ensures
        palette_index(addr) == palette_index((addr - 16) as u16),
        p.frame_palette@[palette_index(addr)] == p.frame_palette@[palette_index((addr - 16) as u16)],
{
}

} // verus!
