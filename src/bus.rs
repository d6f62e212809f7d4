//! The CPU's address space: RAM, PPU and APU registers, the pad port and
//! the cartridge, plus OAM DMA.
use vstd::prelude::*;
use crate::apu::APU;
use crate::buffer::Buffer;
use crate::controller::Controller;
use crate::mappers::Cartridge;
use crate::ppu::PPU;
use crate::ppu_io::{register_read, register_written};

verus! {

pub struct BUS {
    /// 2 KB of work RAM, mirrored through 0x0000..=0x1FFF.
    pub ram: Vec<u8>,
    pub ppu: PPU,
    pub controller: Controller,
    pub apu: APU,
}

/// A DMA source page whose reads have no side effects: RAM and the
/// cartridge, not the PPU and APU/pad registers.
pub open spec fn quiet_page(page: u8) -> bool {
    page < 0x20 || page > 0x40
}

impl BUS {
    pub open spec fn wf(&self) -> bool {
        &&& self.ram@.len() == 0x800
        &&& self.ppu.wf()
        &&& self.controller.wf()
        &&& self.apu.wf()
    }

    /// What a read of `addr` returns where reading it changes nothing:
    /// RAM, unused and write-only registers, the cartridge.
    pub open spec fn peek(&self, addr: u16) -> Option<u8> {
        if addr <= 0x1fff {
            Some(self.ram@[(addr % 0x800) as int])
        } else if addr <= 0x3fff {
            None
        } else if addr == 0x4015 || addr == 0x4016 {
            None
        } else if addr <= 0x401f {
            Some(0u8)
        } else {
            Some(self.ppu.cartridge.peek(addr))
        }
    }

    pub fn new_bus(ppu: PPU, controller: Controller) -> (r: BUS)
        requires
            ppu.wf(),
            controller.wf(),
        ensures
            r.wf(),
            r.ppu == ppu,
            r.controller == controller,
            r.ram@ == Seq::new(0x800, |i: int| 0u8),
    {
        let r = BUS { ram: vec![0u8; 0x800], ppu, controller, apu: APU::new() };
        assert(r.ram@ =~= Seq::new(0x800, |i: int| 0u8));
        r
    }

    /// A CPU read. RAM repeats every 2 KB up to 0x1FFF, PPU registers every
    /// 8 bytes up to 0x3FFF; 0x4016 is the pad, 0x4018..=0x401F read 0.
    pub fn read(&mut self, addr: u16) -> (r: u8)
        requires
            old(self).wf(),
        ensures
            final(self).wf(),
            old(self).peek(addr) matches Some(v) ==> r == v && *final(self) == *old(self),
            final(self).ram == old(self).ram,
            Cartridge::same_image(old(self).ppu.cartridge, final(self).ppu.cartridge),
            0x2000 <= addr <= 0x3fff ==> final(self).controller == old(self).controller
                && final(self).apu == old(self).apu,
            addr == 0x4016 ==> r == (old(self).controller.latched >> old(self).controller.index)
                & 1 && *final(self) == (BUS {
                controller: Controller {
                    index: ((old(self).controller.index + 1) % 8) as u8,
                    ..old(self).controller
                },
                ..*old(self)
            }),
            0x2000 <= addr <= 0x3fff ==> register_read(old(self).ppu, final(self).ppu, addr % 8, r)
                && *final(self) == (BUS { ppu: final(self).ppu, ..*old(self) }),
            addr == 0x4015 ==> r == old(self).apu.status_byte() && *final(self) == (BUS {
                apu: APU { irq_triggered: false, ..old(self).apu },
                ..*old(self)
            }),
    {
        if addr <= 0x1fff {
            self.ram[(addr % 0x800) as usize]
        } else if addr <= 0x3fff {
            self.ppu.read_register(addr % 8)
        } else if addr == 0x4016 {
            self.controller.read()
        } else if addr <= 0x4017 {
            self.apu.read(addr)
        } else if addr <= 0x401f {
            0
        } else {
            self.ppu.cartridge.read(addr)
        }
    }

    /// A CPU write; 0x4014 starts OAM DMA from page `val`.
    pub fn write(&mut self, addr: u16, val: u8)
        requires
            old(self).wf(),
        ensures
            final(self).wf(),
            addr <= 0x1fff ==> final(self).ram@ == old(self).ram@.update((addr % 0x800) as int, val)
                && *final(self) == (BUS { ram: final(self).ram, ..*old(self) }),
            addr > 0x1fff && addr != 0x4014 ==> final(self).ram == old(self).ram,
            addr == 0x4014 && quiet_page(val) ==> final(self).ram == old(self).ram,
            addr == 0x4014 ==> final(self).ppu.dma_triggered,
            0x2000 <= addr <= 0x3fff ==> register_written(old(self).ppu, final(self).ppu, addr % 8, val)
                && *final(self) == (BUS { ppu: final(self).ppu, ..*old(self) }),
            addr == 0x4016 ==> *final(self) == (BUS {
                controller: old(self).controller.written(val),
                ..*old(self)
            }),
            (0x4000 <= addr <= 0x4017 && addr != 0x4014 && addr != 0x4016) ==> *final(self) == (BUS {
                apu: final(self).apu,
                ..*old(self)
            }),
            (0x4018 <= addr <= 0x401f) ==> *final(self) == *old(self),
            addr == 0x4014 && quiet_page(val) ==> final(self).ppu.oam_addr == old(self).ppu.oam_addr
                && forall|i: int|
                0 <= i < 256 ==> #[trigger] final(self).ppu.oam@[(old(self).ppu.oam_addr + i) % 256]
                    == old(self).peek((val as int * 256 + i) as u16)->Some_0,
            0x4020 <= addr ==> final(self).ppu.cartridge.peek(addr) == val || !(0x6000 <= addr
                <= 0x7fff),
    {
        if addr <= 0x1fff {
            self.ram.set((addr % 0x800) as usize, val);
        } else if addr <= 0x3fff {
            self.ppu.write_register(addr % 8, val);
        } else if addr == 0x4014 {
            self.dma(val);
        } else if addr == 0x4016 {
            self.controller.write(val);
        } else if addr <= 0x4017 {
            self.apu.write(addr, val);
        } else if addr <= 0x401f {
        } else {
            self.ppu.cartridge.write(addr, val);
        }
    }

    /// Copies the 256 bytes of page `val` into OAM through `write_oam_data`
    /// and flags the CPU stall.
    #[verifier::rlimit(100)]
    fn dma(&mut self, val: u8)
        requires
            old(self).wf(),
        ensures
            final(self).wf(),
            final(self).ppu.dma_triggered,
            quiet_page(val) ==> final(self).ram == old(self).ram && final(self).ppu.oam_addr == old(
                self,
            ).ppu.oam_addr && forall|i: int|
                0 <= i < 256 ==> #[trigger] final(self).ppu.oam@[(old(self).ppu.oam_addr + i) % 256]
                    == old(self).peek((val as int * 256 + i) as u16)->Some_0,
    {
        let hi: u16 = (val as u16) * 256;
        let mut lo: u16 = 0;
        while lo < 256
            invariant
                self.wf(),
                lo <= 256,
                hi == val as int * 256,
                quiet_page(val) ==> {
                    &&& self.ram == old(self).ram
                    &&& self.ppu.cartridge == old(self).ppu.cartridge
                    &&& self.ppu.oam_addr == (old(self).ppu.oam_addr + lo) % 256
                    &&& forall|i: int|
                        0 <= i < lo ==> #[trigger] self.ppu.oam@[(old(self).ppu.oam_addr + i) % 256]
                            == old(self).peek((val as int * 256 + i) as u16)->Some_0
                },
            decreases 256 - lo,
        {
            let ghost before = *self;
            let data = self.read(hi + lo);
            self.ppu.write_oam_data(data);
            proof {
                if quiet_page(val) {
                    assert(before.peek((hi + lo) as u16) == old(self).peek((hi + lo) as u16));
                }
            }
            lo = lo + 1;
        }
        self.ppu.dma_triggered = true;
    }

    pub fn encode(&self, buffer: &mut Buffer)
        ensures
            final(buffer).data@ == old(buffer).data@ + self.ram@,
            final(buffer).index == old(buffer).index,
            final(buffer).overrun == old(buffer).overrun,
    {
        buffer.write_u8_arr(self.ram.as_slice());
    }

    pub fn decode(&mut self, buffer: &mut Buffer)
        requires
            old(buffer).wf(),
            old(self).wf(),
        ensures
            final(self).wf(),
            Buffer::consumed(*old(buffer), *final(buffer), final(self).ram@),
            *final(self) == (BUS { ram: final(self).ram, ..*old(self) }),
    {
        buffer.read_u8_arr(self.ram.as_mut_slice());
    }
}

/// RAM reads back through every one of its mirrors: after a write of `v`
/// to `addr`, a read of any address below 0x2000 that agrees with `addr`
/// modulo 2 KB returns `v`.
pub proof fn lemma_ram_mirror(before: BUS, after: BUS, addr: u16, v: u8, addr2: u16)
    requires
        before.wf(),
        addr <= 0x1fff,
        addr2 <= 0x1fff,
        addr2 % 0x800 == addr % 0x800,
        after.ram@ == before.ram@.update((addr % 0x800) as int, v),
    ensures
        after.peek(addr2) == Some(v),
{
}

} // verus!
