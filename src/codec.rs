//! Saving and restoring the state of the cartridge board, the PPU and the
//! CPU registers.
use vstd::prelude::*;
use crate::buffer::Buffer;
use crate::cpu::CPU;
use crate::mappers::Cartridge;
use crate::ppu::PPU;

verus! {

impl Cartridge {
    /// Appends the board's mutable state: RAM, bank registers and IRQ
    /// state.
    #[verifier::rlimit(100)]
    pub fn encode(&self, buffer: &mut Buffer)
        requires
            self.wf(),
        ensures
            final(buffer).index == old(buffer).index,
            final(buffer).overrun == old(buffer).overrun,
            old(buffer).data@.is_prefix_of(final(buffer).data@),
    {
        let ghost d0 = buffer.data@;
        match self {
            Cartridge::Nrom(m) => {
                buffer.write_u8_arr(m.prg_ram.as_slice());
                buffer.write_u8_arr(m.chr_ram.as_slice());
            },
            Cartridge::Uxrom(m) => {
                buffer.write_u8_arr(m.prg_ram.as_slice());
                buffer.write_u8_arr(m.chr_ram.as_slice());
                buffer.write_u8(m.bank);
            },
            Cartridge::Mmc3(m) => {
                buffer.write_u8_arr(m.registers.as_slice());
                buffer.write_u8(m.reg_index);
                buffer.write_u8(m.prg_mode);
                buffer.write_u8(m.chr_mode);
                buffer.write_u8_arr(m.prg_ram.as_slice());
                buffer.write_u8_arr(m.chr_ram.as_slice());
                buffer.write_u32_arr(m.prg_offsets.as_slice());
                buffer.write_u32_arr(m.chr_offsets.as_slice());
                buffer.write_bool(m.irq_enabled);
                buffer.write_u8(m.irq_reload);
                buffer.write_u8(m.irq_counter);
                buffer.write_bool(m.irq_triggered);
            },
        }
        assert(d0.is_prefix_of(buffer.data@));
    }

    /// Reads the board's state back in the order `encode` wrote it. Values
    /// that break the board's invariants mark the buffer as failed.
    #[verifier::rlimit(100)]
    pub fn decode(&mut self, buffer: &mut Buffer)
        requires
            old(self).wf(),
            old(buffer).wf(),
        ensures
            final(self).wf(),
            final(buffer).wf(),
            final(buffer).data@ == old(buffer).data@,
            Cartridge::same_image(*old(self), *final(self)),
            final(self).rom() == old(self).rom(),
    {
        match self {
            Cartridge::Nrom(m) => {
                buffer.read_u8_arr(m.prg_ram.as_mut_slice());
                buffer.read_u8_arr(m.chr_ram.as_mut_slice());
            },
            Cartridge::Uxrom(m) => {
                buffer.read_u8_arr(m.prg_ram.as_mut_slice());
                buffer.read_u8_arr(m.chr_ram.as_mut_slice());
                m.bank = buffer.read_u8();
            },
            Cartridge::Mmc3(m) => {
                buffer.read_u8_arr(m.registers.as_mut_slice());
                let reg_index = buffer.read_u8();
                m.reg_index = if reg_index < 8 {
                    reg_index
                } else {
                    buffer.overrun = true;
                    0
                };
                m.prg_mode = buffer.read_u8();
                m.chr_mode = buffer.read_u8();
                buffer.read_u8_arr(m.prg_ram.as_mut_slice());
                buffer.read_u8_arr(m.chr_ram.as_mut_slice());
                let mut prg = vec![0u32; 4];
                let mut chr = vec![0u32; 8];
                buffer.read_u32_arr(prg.as_mut_slice());
                buffer.read_u32_arr(chr.as_mut_slice());
                m.irq_enabled = buffer.read_bool();
                m.irq_reload = buffer.read_u8();
                m.irq_counter = buffer.read_u8();
                m.irq_triggered = buffer.read_bool();
                // The bank tables follow from the registers; saved tables
                // that disagree with them are rejected.
                m.refresh_banks();
                let mut i: usize = 0;
                while i < 4
                    invariant
                        m.wf(),
                        prg@.len() == 4,
                        buffer.wf(),
                        buffer.data@ == old(buffer).data@,
                    decreases 4 - i,
                {
                    if prg[i] != m.prg_offsets[i] {
                        buffer.overrun = true;
                    }
                    i = i + 1;
                }
                let mut j: usize = 0;
                while j < 8
                    invariant
                        m.wf(),
                        chr@.len() == 8,
                        buffer.wf(),
                        buffer.data@ == old(buffer).data@,
                    decreases 8 - j,
                {
                    if chr[j] != m.chr_offsets[j] {
                        buffer.overrun = true;
                    }
                    j = j + 1;
                }
            },
        }
    }
}

impl PPU {
    /// Appends every PPU field: position, registers, scroll state, fetch
    /// latches, memories, sprite list, frame state and interrupt state.
    #[verifier::rlimit(100)]
    pub fn encode(&self, buffer: &mut Buffer)
        requires
            self.wf(),
        ensures
            final(buffer).index == old(buffer).index,
            final(buffer).overrun == old(buffer).overrun,
            old(buffer).data@.is_prefix_of(final(buffer).data@),
    {
        let ghost d0 = buffer.data@;
        buffer.write_u16(self.dot);
        buffer.write_u16(self.line);
        buffer.write_u8(self.ctrl);
        buffer.write_u8(self.mask);
        buffer.write_u8(self.status);
        buffer.write_u8(self.oam_addr);
        buffer.write_u16(self.v);
        buffer.write_u16(self.t);
        buffer.write_u8(self.x);
        buffer.write_bool(self.w);
        buffer.write_u64(self.shift_register);
        buffer.write_u8(self.nametable_latch);
        buffer.write_u8(self.attribute_table_latch);
        buffer.write_u8(self.pattern_table_low_latch);
        buffer.write_u8(self.pattern_table_high_latch);
        buffer.write_u8_arr(self.vram.as_slice());
        buffer.write_u8_arr(self.frame_palette.as_slice());
        buffer.write_u8_arr(self.oam.as_slice());
        let mut i: usize = 0;
        while i < 8
            invariant
                self.wf(),
                i <= 8,
                buffer.index == old(buffer).index,
                buffer.overrun == old(buffer).overrun,
                d0.is_prefix_of(buffer.data@),
                d0 == old(buffer).data@,
            decreases 8 - i,
        {
            let s = &self.sprites[i];
            buffer.write_u16(s.x);
            buffer.write_u8(s.index);
            buffer.write_bool(s.show_bg);
            buffer.write_u8_arr(s.tile_row.as_slice());
            i = i + 1;
            assert(d0.is_prefix_of(buffer.data@));
        }
        buffer.write_u8(self.sprites_count);
        buffer.write_bool(self.odd);
        buffer.write_u64(self.frame_counter);
        buffer.write_u8_arr(self.frame_buffer.as_slice());
        buffer.write_bool(self.frame_complete);
        buffer.write_bool(self.nmi_previous_state);
        buffer.write_bool(self.nmi_triggering_allowed);
        buffer.write_bool(self.nmi_triggered);
        buffer.write_u8(self.open_bus);
        buffer.write_u8(self.data_latch);
        buffer.write_bool(self.dma_triggered);
        assert(d0.is_prefix_of(buffer.data@));
    }

    /// Reads the fields back in the order `encode` wrote them. Out-of-range
    /// positions, scroll values or sprite counts mark the buffer as failed
    /// and are replaced by 0.
    #[verifier::rlimit(100)]
    pub fn decode(&mut self, buffer: &mut Buffer)
        requires
            old(self).wf(),
            old(buffer).wf(),
        ensures
            final(self).wf(),
            final(buffer).wf(),
            final(buffer).data@ == old(buffer).data@,
            final(self).cartridge == old(self).cartridge,
    {
        let dot = buffer.read_u16();
        let line = buffer.read_u16();
        self.ctrl = buffer.read_u8();
        self.mask = buffer.read_u8();
        self.status = buffer.read_u8();
        self.oam_addr = buffer.read_u8();
        let v = buffer.read_u16();
        let t = buffer.read_u16();
        let x = buffer.read_u8();
        self.w = buffer.read_bool();
        self.shift_register = buffer.read_u64();
        self.nametable_latch = buffer.read_u8();
        self.attribute_table_latch = buffer.read_u8();
        self.pattern_table_low_latch = buffer.read_u8();
        self.pattern_table_high_latch = buffer.read_u8();
        buffer.read_u8_arr(self.vram.as_mut_slice());
        buffer.read_u8_arr(self.frame_palette.as_mut_slice());
        buffer.read_u8_arr(self.oam.as_mut_slice());
        let mut i: usize = 0;
        while i < 8
            invariant
                i <= 8,
                self.sprites@.len() == 8,
                forall|j: int| 0 <= j < 8 ==> (#[trigger] self.sprites@[j]).tile_row@.len() == 8,
                buffer.wf(),
                buffer.data@ == old(buffer).data@,
                self.cartridge == old(self).cartridge,
                self.vram@.len() == 0x800,
                self.frame_palette@.len() == 32,
                self.oam@.len() == 256,
                self.frame_buffer@.len() == old(self).frame_buffer@.len(),
            decreases 8 - i,
        {
            let sx = buffer.read_u16();
            let index = buffer.read_u8();
            let show_bg = buffer.read_bool();
            let mut tile_row = vec![0u8; 8];
            buffer.read_u8_arr(tile_row.as_mut_slice());
            self.sprites.set(i, crate::ppu::Sprite { x: sx, index, show_bg, tile_row });
            i = i + 1;
        }
        let count = buffer.read_u8();
        self.odd = buffer.read_bool();
        self.frame_counter = buffer.read_u64();
        buffer.read_u8_arr(self.frame_buffer.as_mut_slice());
        self.frame_complete = buffer.read_bool();
        self.nmi_previous_state = buffer.read_bool();
        self.nmi_triggering_allowed = buffer.read_bool();
        self.nmi_triggered = buffer.read_bool();
        self.open_bus = buffer.read_u8();
        self.data_latch = buffer.read_u8();
        self.dma_triggered = buffer.read_bool();
        if dot > 340 || line > 261 || v >= 0x8000 || t >= 0x8000 || x >= 8 || count > 8 {
            buffer.overrun = true;
        }
        self.dot = if dot <= 340 { dot } else { 0 };
        self.line = if line <= 261 { line } else { 0 };
        self.v = if v < 0x8000 { v } else { 0 };
        self.t = if t < 0x8000 { t } else { 0 };
        self.x = if x < 8 { x } else { 0 };
        self.sprites_count = if count <= 8 { count } else { 0 };
    }
}

impl CPU {
    fn encode_cpu(&self, buffer: &mut Buffer)
        ensures
            final(buffer).index == old(buffer).index,
            final(buffer).overrun == old(buffer).overrun,
            old(buffer).data@.is_prefix_of(final(buffer).data@),
            final(buffer).data@.len() == old(buffer).data@.len() + 22,
    {
        buffer.write_u8(self.a);
        buffer.write_u8(self.x);
        buffer.write_u8(self.y);
        buffer.write_u8(self.sp);
        buffer.write_u16(self.pc);
        buffer.write_bool(self.c);
        buffer.write_bool(self.z);
        buffer.write_bool(self.i);
        buffer.write_bool(self.d);
        buffer.write_bool(self.b);
        buffer.write_bool(self.u);
        buffer.write_bool(self.v);
        buffer.write_bool(self.n);
        buffer.write_u32(self.cycles);
        buffer.write_u32(self.stall);
        assert(old(buffer).data@.is_prefix_of(buffer.data@));
    }

    pub(crate) fn decode_registers(&mut self, buffer: &mut Buffer)
        requires
            old(buffer).wf(),
        ensures
            final(buffer).wf(),
            final(buffer).data@ == old(buffer).data@,
            final(self).bus == old(self).bus,
    {
        self.a = buffer.read_u8();
        self.x = buffer.read_u8();
        self.y = buffer.read_u8();
        self.sp = buffer.read_u8();
        self.pc = buffer.read_u16();
        self.c = buffer.read_bool();
        self.z = buffer.read_bool();
        self.i = buffer.read_bool();
        self.d = buffer.read_bool();
        self.b = buffer.read_bool();
        self.u = buffer.read_bool();
        self.v = buffer.read_bool();
        self.n = buffer.read_bool();
        self.cycles = buffer.read_u32();
        self.stall = buffer.read_u32();
    }

    /// Writes a snapshot: image and header, board state, PPU, pad, RAM and
    /// CPU registers, in that order, into a fresh buffer.
    #[verifier::rlimit(100)]
    pub fn encode(&self, buffer: &mut Buffer)
        requires
            self.wf(),
        ensures
            final(buffer).index == 0,
            !final(buffer).overrun,
    {
        *buffer = Buffer::new_buffer();
        self.bus.ppu.cartridge.data().encode(buffer);
        self.bus.ppu.cartridge.encode(buffer);
        self.bus.ppu.encode(buffer);
        self.bus.controller.encode(buffer);
        self.bus.encode(buffer);
        self.encode_cpu(buffer);
    }
}

} // verus!
