//! Cartridge boards: how CPU addresses 0x4020..=0xFFFF and PPU addresses
//! 0x0000..=0x1FFF reach PRG and CHR memory.
use vstd::prelude::*;
use crate::rom::{ROM, Mirroring, LoadError, byte_at, byte_or_zero};

verus! {

/// NROM: PRG-ROM fixed at 0x8000 (a single 16 KB bank is mirrored at
/// 0xC000), 2 KB of PRG-RAM at 0x6000, CHR-ROM or 8 KB of CHR-RAM.
pub struct Mapper0 {
    pub prg_ram: Vec<u8>,
    pub chr_ram: Vec<u8>,
    pub rom: ROM,
}

/// UxROM: a switchable 16 KB bank at 0x8000 and the last bank fixed at
/// 0xC000.
pub struct Mapper2 {
    pub prg_ram: Vec<u8>,
    pub chr_ram: Vec<u8>,
    pub bank: u8,
    pub rom: ROM,
}

/// MMC3: four 8 KB PRG slots, eight 1 KB CHR slots and a scanline counter
/// that raises IRQs.
pub struct Mapper4 {
    pub registers: Vec<u8>,
    pub reg_index: u8,
    pub prg_mode: u8,
    pub chr_mode: u8,
    pub prg_ram: Vec<u8>,
    pub chr_ram: Vec<u8>,
    pub prg_offsets: Vec<u32>,
    pub chr_offsets: Vec<u32>,
    pub irq_enabled: bool,
    pub irq_reload: u8,
    pub irq_counter: u8,
    pub irq_triggered: bool,
    pub rom: ROM,
}

/// The pattern-table byte at `addr` of a board whose CHR is ROM unless
/// it has no CHR banks.
pub open spec fn chr_byte(rom: ROM, chr_ram: Seq<u8>, offset: int) -> u8 {
    if rom.chr_rom_banks == 0 {
        chr_ram[offset % 0x2000]
    } else {
        byte_or_zero(rom.bytes@, rom.chr_rom_start + offset)
    }
}

fn read_chr(rom: &ROM, chr_ram: &Vec<u8>, offset: usize) -> (r: u8)
    requires
        chr_ram@.len() == 0x2000,
    ensures
        r == chr_byte(*rom, chr_ram@, offset as int),
{
    if rom.chr_rom_banks == 0 {
        chr_ram[offset % 0x2000]
    } else {
        byte_at(&rom.bytes, rom.chr_rom_start, offset)
    }
}

impl Mapper0 {
    pub open spec fn wf(&self) -> bool {
        self.prg_ram@.len() == 0x800 && self.chr_ram@.len() == 0x2000
    }

    /// What a read of `addr` returns.
    pub open spec fn peek(&self, addr: u16) -> u8 {
        if addr <= 0x1fff {
            chr_byte(self.rom, self.chr_ram@, addr as int)
        } else if 0x6000 <= addr <= 0x7fff {
            self.prg_ram@[(addr - 0x6000) % 0x800]
        } else if addr >= 0x8000 {
            let off = if self.rom.prg_rom_banks == 1 {
                (addr - 0x8000) % 0x4000
            } else {
                addr - 0x8000
            };
            byte_or_zero(self.rom.bytes@, self.rom.prg_rom_start + off)
        } else {
            0
        }
    }

    pub fn new(rom: ROM) -> (r: Mapper0)
        ensures
            r.wf(),
            r.rom == rom,
            r.prg_ram@ == Seq::new(0x800, |i: int| 0u8),
            r.chr_ram@ == Seq::new(0x2000, |i: int| 0u8),
    {
        let r = Mapper0 { prg_ram: vec![0u8; 0x800], chr_ram: vec![0u8; 0x2000], rom };
        assert(r.prg_ram@ =~= Seq::new(0x800, |i: int| 0u8));
        assert(r.chr_ram@ =~= Seq::new(0x2000, |i: int| 0u8));
        r
    }

    pub fn read(&self, addr: u16) -> (r: u8)
        requires
            self.wf(),
        ensures
            r == self.peek(addr),
    {
        if addr <= 0x1fff {
            read_chr(&self.rom, &self.chr_ram, addr as usize)
        } else if 0x6000 <= addr && addr <= 0x7fff {
            self.prg_ram[((addr - 0x6000) % 0x800) as usize]
        } else if addr >= 0x8000 {
            let off = if self.rom.prg_rom_banks == 1 {
                (addr - 0x8000) % 0x4000
            } else {
                addr - 0x8000
            };
            byte_at(&self.rom.bytes, self.rom.prg_rom_start, off as usize)
        } else {
            0
        }
    }

    /// Writes reach PRG-RAM, and CHR-RAM where the board has it; the rest
    /// is ignored.
    pub fn write(&mut self, addr: u16, val: u8)
        requires
            old(self).wf(),
        ensures
            final(self).wf(),
            final(self).rom == old(self).rom,
            0x6000 <= addr <= 0x7fff ==> final(self).prg_ram@ == old(self).prg_ram@.update(
                (addr - 0x6000) % 0x800,
                val,
            ),
            !(0x6000 <= addr <= 0x7fff) ==> final(self).prg_ram@ == old(self).prg_ram@,
            (addr <= 0x1fff && old(self).rom.chr_rom_banks == 0) ==> final(self).chr_ram@ == old(
                self,
            ).chr_ram@.update(addr as int, val),
            !(addr <= 0x1fff && old(self).rom.chr_rom_banks == 0) ==> final(self).chr_ram@ == old(
                self,
            ).chr_ram@,
    {
        if 0x6000 <= addr && addr <= 0x7fff {
            self.prg_ram.set(((addr - 0x6000) % 0x800) as usize, val);
        } else if addr <= 0x1fff && self.rom.chr_rom_banks == 0 {
            self.chr_ram.set(addr as usize, val);
        }
    }
}

impl Mapper2 {
    pub open spec fn wf(&self) -> bool {
        self.prg_ram@.len() == 0x800 && self.chr_ram@.len() == 0x2000
    }

    pub open spec fn last_bank(&self) -> int {
        if self.rom.prg_rom_banks == 0 {
            0
        } else {
            self.rom.prg_rom_banks - 1
        }
    }

    pub open spec fn peek(&self, addr: u16) -> u8 {
        if addr <= 0x1fff {
            chr_byte(self.rom, self.chr_ram@, addr as int)
        } else if 0x6000 <= addr <= 0x7fff {
            self.prg_ram@[(addr - 0x6000) % 0x800]
        } else if 0x8000 <= addr <= 0xbfff {
            byte_or_zero(
                self.rom.bytes@,
                self.rom.prg_rom_start + self.bank * 0x4000 + (addr - 0x8000),
            )
        } else if addr >= 0xc000 {
            byte_or_zero(
                self.rom.bytes@,
                self.rom.prg_rom_start + self.last_bank() * 0x4000 + (addr - 0xc000),
            )
        } else {
            0
        }
    }

    pub fn new(rom: ROM) -> (r: Mapper2)
        ensures
            r.wf(),
            r.rom == rom,
            r.bank == 0,
    {
        Mapper2 { prg_ram: vec![0u8; 0x800], chr_ram: vec![0u8; 0x2000], bank: 0, rom }
    }

    pub fn read(&self, addr: u16) -> (r: u8)
        requires
            self.wf(),
        ensures
            r == self.peek(addr),
    {
        if addr <= 0x1fff {
            read_chr(&self.rom, &self.chr_ram, addr as usize)
        } else if 0x6000 <= addr && addr <= 0x7fff {
            self.prg_ram[((addr - 0x6000) % 0x800) as usize]
        } else if 0x8000 <= addr && addr <= 0xbfff {
            let off = (self.bank as usize) * 0x4000 + (addr - 0x8000) as usize;
            byte_at(&self.rom.bytes, self.rom.prg_rom_start, off)
        } else if addr >= 0xc000 {
            let last: usize = if self.rom.prg_rom_banks == 0 {
                0
            } else {
                (self.rom.prg_rom_banks - 1) as usize
            };
            byte_at(&self.rom.bytes, self.rom.prg_rom_start, last * 0x4000 + (addr - 0xc000) as usize)
        } else {
            0
        }
    }

    /// 0x8000..=0xFFFF selects the bank from the low nibble.
    pub fn write(&mut self, addr: u16, val: u8)
        requires
            old(self).wf(),
        ensures
            final(self).wf(),
            final(self).rom == old(self).rom,
            final(self).bank == if addr >= 0x8000 { val & 0x0f } else { old(self).bank },
            0x6000 <= addr <= 0x7fff ==> final(self).prg_ram@ == old(self).prg_ram@.update(
                (addr - 0x6000) % 0x800,
                val,
            ),
            !(0x6000 <= addr <= 0x7fff) ==> final(self).prg_ram@ == old(self).prg_ram@,
            (addr <= 0x1fff && old(self).rom.chr_rom_banks == 0) ==> final(self).chr_ram@ == old(
                self,
            ).chr_ram@.update(addr as int, val),
            !(addr <= 0x1fff && old(self).rom.chr_rom_banks == 0) ==> final(self).chr_ram@ == old(
                self,
            ).chr_ram@,
    {
        if 0x6000 <= addr && addr <= 0x7fff {
            self.prg_ram.set(((addr - 0x6000) % 0x800) as usize, val);
        } else if addr <= 0x1fff && self.rom.chr_rom_banks == 0 {
            self.chr_ram.set(addr as usize, val);
        } else if addr >= 0x8000 {
            self.bank = val & 0x0f;
        }
    }
}

/// The 1 KB CHR bank register value feeding slot `slot` (0..=7).
pub open spec fn mmc3_chr_bank(regs: Seq<u8>, chr_mode: u8, slot: int) -> int {
    let s = if chr_mode == 0 {
        slot
    } else {
        (slot + 4) % 8
    };
    if s == 0 {
        regs[0] as int
    } else if s == 1 {
        regs[0] + 1
    } else if s == 2 {
        regs[1] as int
    } else if s == 3 {
        regs[1] + 1
    } else {
        regs[s - 2] as int
    }
}

/// The 8 KB PRG bank feeding slot `slot` (0..=3) of a board with
/// `banks16` 16 KB banks.
pub open spec fn mmc3_prg_bank(regs: Seq<u8>, prg_mode: u8, banks16: u8, slot: int) -> int {
    let count = 2 * banks16;
    let second_last = if count >= 2 {
        count - 2
    } else {
        0
    };
    let last = if count >= 1 {
        count - 1
    } else {
        0
    };
    if slot == 1 {
        regs[7] as int
    } else if slot == 3 {
        last
    } else if (slot == 0) == (prg_mode == 0) {
        regs[6] as int
    } else {
        second_last
    }
}

impl Mapper4 {
    pub open spec fn wf(&self) -> bool {
        &&& self.registers@.len() == 8
        &&& self.reg_index < 8
        &&& self.prg_ram@.len() == 0x2000
        &&& self.chr_ram@.len() == 0x2000
        &&& self.prg_offsets@.len() == 4
        &&& self.chr_offsets@.len() == 8
        &&& forall|i: int| 0 <= i < 8 ==> #[trigger] self.chr_offsets@[i] < 0x100000
        &&& forall|i: int| 0 <= i < 4 ==> #[trigger] self.prg_offsets@[i] < 0x1000000
    }

    pub open spec fn peek(&self, addr: u16) -> u8 {
        if addr <= 0x1fff {
            chr_byte(
                self.rom,
                self.chr_ram@,
                self.chr_offsets@[(addr / 0x400) as int] + (addr % 0x400),
            )
        } else if 0x6000 <= addr <= 0x7fff {
            self.prg_ram@[addr - 0x6000]
        } else if addr >= 0x8000 {
            byte_or_zero(
                self.rom.bytes@,
                self.rom.prg_rom_start + self.prg_offsets@[((addr - 0x8000) / 0x2000) as int] + (addr
                    % 0x2000),
            )
        } else {
            0
        }
    }

    /// The bank tables agree with the registers and modes.
    pub open spec fn offsets_follow(&self) -> bool {
        &&& forall|i: int|
            0 <= i < 8 ==> #[trigger] self.chr_offsets@[i] == mmc3_chr_bank(
                self.registers@,
                self.chr_mode,
                i,
            ) * 0x400
        &&& forall|i: int|
            0 <= i < 4 ==> #[trigger] self.prg_offsets@[i] == mmc3_prg_bank(
                self.registers@,
                self.prg_mode,
                self.rom.prg_rom_banks,
                i,
            ) * 0x2000
    }

    pub fn new(rom: ROM) -> (r: Mapper4)
        ensures
            r.wf(),
            r.rom == rom,
            !r.irq_enabled && !r.irq_triggered && r.irq_counter == 0 && r.irq_reload == 0,
            r.offsets_follow(),
    {
        let mut r = Mapper4 {
            registers: vec![0u8; 8],
            reg_index: 0,
            prg_mode: 0,
            chr_mode: 0,
            prg_ram: vec![0u8; 0x2000],
            chr_ram: vec![0u8; 0x2000],
            prg_offsets: vec![0u32; 4],
            chr_offsets: vec![0u32; 8],
            irq_enabled: false,
            irq_reload: 0,
            irq_counter: 0,
            irq_triggered: false,
            rom,
        };
        r.update_offsets();
        r
    }

    fn update_offsets(&mut self)
        requires
            old(self).wf(),
        ensures
            final(self).wf(),
            final(self).offsets_follow(),
            final(self).registers == old(self).registers,
            final(self).reg_index == old(self).reg_index,
            final(self).prg_mode == old(self).prg_mode,
            final(self).chr_mode == old(self).chr_mode,
            final(self).prg_ram == old(self).prg_ram,
            final(self).chr_ram == old(self).chr_ram,
            final(self).irq_enabled == old(self).irq_enabled,
            final(self).irq_reload == old(self).irq_reload,
            final(self).irq_counter == old(self).irq_counter,
            final(self).irq_triggered == old(self).irq_triggered,
            final(self).rom == old(self).rom,
    {
        let kb: u32 = 0x400;
        let r0 = self.registers[0] as u32;
        let r1 = self.registers[1] as u32;
        let (lo, hi): (usize, usize) = if self.chr_mode == 0 { (0, 4) } else { (4, 0) };
        self.chr_offsets.set(lo, r0 * kb);
        self.chr_offsets.set(lo + 1, (r0 + 1) * kb);
        self.chr_offsets.set(lo + 2, r1 * kb);
        self.chr_offsets.set(lo + 3, (r1 + 1) * kb);
        self.chr_offsets.set(hi, self.registers[2] as u32 * kb);
        self.chr_offsets.set(hi + 1, self.registers[3] as u32 * kb);
        self.chr_offsets.set(hi + 2, self.registers[4] as u32 * kb);
        self.chr_offsets.set(hi + 3, self.registers[5] as u32 * kb);

        let count = 2 * (self.rom.prg_rom_banks as u32);
        let second_last: u32 = if count >= 2 { count - 2 } else { 0 };
        let last: u32 = if count >= 1 { count - 1 } else { 0 };
        let r6 = self.registers[6] as u32;
        let r7 = self.registers[7] as u32;
        let kb8: u32 = 0x2000;
        if self.prg_mode == 0 {
            self.prg_offsets.set(0, r6 * kb8);
            self.prg_offsets.set(2, second_last * kb8);
        } else {
            self.prg_offsets.set(0, second_last * kb8);
            self.prg_offsets.set(2, r6 * kb8);
        }
        self.prg_offsets.set(1, r7 * kb8);
        self.prg_offsets.set(3, last * kb8);
        assert forall|i: int| 0 <= i < 8 implies #[trigger] self.chr_offsets@[i] == mmc3_chr_bank(
            self.registers@,
            self.chr_mode,
            i,
        ) * 0x400 by {}
        assert forall|i: int| 0 <= i < 4 implies #[trigger] self.prg_offsets@[i] < 0x1000000 by {}
    }

    /// Recomputes the bank tables from the registers and modes.
    pub fn refresh_banks(&mut self)
        requires
            old(self).wf(),
        ensures
            final(self).wf(),
            final(self).offsets_follow(),
            final(self).rom == old(self).rom,
            final(self).irq_triggered == old(self).irq_triggered,
    {
        self.update_offsets();
    }

    pub fn read(&self, addr: u16) -> (r: u8)
        requires
            self.wf(),
        ensures
            r == self.peek(addr),
    {
        if addr <= 0x1fff {
            let off = self.chr_offsets[(addr / 0x400) as usize] as usize + (addr % 0x400) as usize;
            read_chr(&self.rom, &self.chr_ram, off)
        } else if 0x6000 <= addr && addr <= 0x7fff {
            self.prg_ram[(addr - 0x6000) as usize]
        } else if addr >= 0x8000 {
            let off = self.prg_offsets[((addr - 0x8000) / 0x2000) as usize] as usize + (addr
                % 0x2000) as usize;
            byte_at(&self.rom.bytes, self.rom.prg_rom_start, off)
        } else {
            0
        }
    }

    /// Register writes: bank select and data at 0x8000/0x8001, mirroring at
    /// 0xA000, IRQ latch and reload at 0xC000/0xC001, IRQ disable and
    /// enable at 0xE000/0xE001 (even and odd addresses of each range).
    pub fn write(&mut self, addr: u16, val: u8)
        requires
            old(self).wf(),
            old(self).offsets_follow(),
        ensures
            final(self).wf(),
            final(self).offsets_follow(),
            final(self).rom.bytes == old(self).rom.bytes,
            final(self).rom.prg_rom_banks == old(self).rom.prg_rom_banks,
            final(self).rom.chr_rom_banks == old(self).rom.chr_rom_banks,
            final(self).rom.prg_rom_start == old(self).rom.prg_rom_start,
            final(self).rom.chr_rom_start == old(self).rom.chr_rom_start,
            final(self).rom.mapper_id == old(self).rom.mapper_id,
            final(self).rom.trainer == old(self).rom.trainer,
            final(self).chr_ram == old(self).chr_ram,
            0x6000 <= addr <= 0x7fff ==> final(self).prg_ram@ == old(self).prg_ram@.update(
                addr - 0x6000,
                val,
            ),
            !(0x6000 <= addr <= 0x7fff) ==> final(self).prg_ram@ == old(self).prg_ram@,
            (0x8000 <= addr <= 0x9fff && addr % 2 == 0) ==> final(self).chr_mode == (val >> 7u8)
                & 1 && final(self).prg_mode == (val >> 6u8) & 1 && final(self).reg_index == val
                & 7,
            (0x8000 <= addr <= 0x9fff && addr % 2 == 1) ==> final(self).registers@ == old(
                self,
            ).registers@.update(old(self).reg_index as int, val),
            !(0x8000 <= addr <= 0x9fff && addr % 2 == 1) ==> final(self).registers@ == old(
                self,
            ).registers@,
            (0xa000 <= addr <= 0xbfff && addr % 2 == 0) ==> final(self).rom.mirroring == if val
                & 1 == 0 {
                Mirroring::Vertical
            } else {
                Mirroring::Horizontal
            },
            !(0xa000 <= addr <= 0xbfff && addr % 2 == 0) ==> final(self).rom.mirroring == old(
                self,
            ).rom.mirroring,
            final(self).irq_reload == if 0xc000 <= addr <= 0xdfff && addr % 2 == 0 {
                val
            } else {
                old(self).irq_reload
            },
            final(self).irq_counter == if 0xc000 <= addr <= 0xdfff && addr % 2 == 1 {
                0
            } else {
                old(self).irq_counter
            },
            final(self).irq_enabled == if addr >= 0xe000 {
                addr % 2 == 1
            } else {
                old(self).irq_enabled
            },
            final(self).irq_triggered == if addr >= 0xe000 && addr % 2 == 0 {
                false
            } else {
                old(self).irq_triggered
            },
    {
        if 0x6000 <= addr && addr <= 0x7fff {
            self.prg_ram.set((addr - 0x6000) as usize, val);
        } else if 0x8000 <= addr && addr <= 0x9fff {
            if addr % 2 == 0 {
                self.chr_mode = (val >> 7u8) & 1;
                self.prg_mode = (val >> 6u8) & 1;
                self.reg_index = val & 7;
                assert(val & 7 < 8) by (bit_vector);
                self.update_offsets();
            } else {
                self.registers.set(self.reg_index as usize, val);
                self.update_offsets();
            }
        } else if 0xa000 <= addr && addr <= 0xbfff {
            if addr % 2 == 0 {
                self.rom.mirroring = if val & 1 == 0 {
                    Mirroring::Vertical
                } else {
                    Mirroring::Horizontal
                };
            }
        } else if 0xc000 <= addr && addr <= 0xdfff {
            if addr % 2 == 0 {
                self.irq_reload = val;
            } else {
                self.irq_counter = 0;
            }
        } else if addr >= 0xe000 {
            self.irq_enabled = addr % 2 == 1;
            if !self.irq_enabled {
                self.irq_triggered = false;
            }
        }
    }

    /// The scanline counter: reload from the latch at zero, else count
    /// down; reaching zero with IRQs enabled raises an IRQ.
    pub fn step(&mut self)
        requires
            old(self).wf(),
        ensures
            final(self).wf(),
            final(self).irq_counter == if old(self).irq_counter == 0 {
                old(self).irq_reload
            } else {
                (old(self).irq_counter - 1) as u8
            },
            final(self).irq_triggered == (old(self).irq_triggered || (final(self).irq_counter == 0
                && old(self).irq_enabled)),
            final(self).irq_enabled == old(self).irq_enabled,
            final(self).irq_reload == old(self).irq_reload,
            final(self).registers == old(self).registers,
            final(self).reg_index == old(self).reg_index,
            final(self).prg_mode == old(self).prg_mode,
            final(self).chr_mode == old(self).chr_mode,
            final(self).prg_ram == old(self).prg_ram,
            final(self).chr_ram == old(self).chr_ram,
            final(self).prg_offsets == old(self).prg_offsets,
            final(self).chr_offsets == old(self).chr_offsets,
            final(self).rom == old(self).rom,
    {
        if self.irq_counter == 0 {
            self.irq_counter = self.irq_reload;
        } else {
            self.irq_counter = self.irq_counter - 1;
        }
        if self.irq_counter == 0 && self.irq_enabled {
            self.irq_triggered = true;
        }
    }

    /// Reports a pending IRQ and acknowledges it.
    pub fn irq_triggered(&mut self) -> (r: bool)
        ensures
            r == old(self).irq_triggered,
            *final(self) == (Mapper4 { irq_triggered: false, ..*old(self) }),
    {
        let r = self.irq_triggered;
        self.irq_triggered = false;
        r
    }
}

/// A cartridge: one of the supported boards with its image.
pub enum Cartridge {
    Nrom(Mapper0),
    Uxrom(Mapper2),
    Mmc3(Mapper4),
}

/// Builds the board that mapper number `mapper_id` names.
pub fn create_cartridge(mapper_id: u8, rom: ROM) -> (r: Result<Cartridge, LoadError>)
    ensures
        mapper_id == 0 <==> r matches Ok(Cartridge::Nrom(_)),
        mapper_id == 2 <==> r matches Ok(Cartridge::Uxrom(_)),
        mapper_id == 4 <==> r matches Ok(Cartridge::Mmc3(_)),
        r is Err ==> r == Err::<Cartridge, LoadError>(LoadError::UnsupportedMapper(mapper_id)),
        r is Ok ==> r->Ok_0.wf() && r->Ok_0.rom() == rom,
{
    match mapper_id {
        0 => Ok(Cartridge::Nrom(Mapper0::new(rom))),
        2 => Ok(Cartridge::Uxrom(Mapper2::new(rom))),
        4 => Ok(Cartridge::Mmc3(Mapper4::new(rom))),
        _ => Err(LoadError::UnsupportedMapper(mapper_id)),
    }
}

impl Cartridge {
    pub open spec fn wf(&self) -> bool {
        match self {
            Cartridge::Nrom(m) => m.wf(),
            Cartridge::Uxrom(m) => m.wf(),
            Cartridge::Mmc3(m) => m.wf() && m.offsets_follow(),
        }
    }

    pub open spec fn rom(&self) -> ROM {
        match self {
            Cartridge::Nrom(m) => m.rom,
            Cartridge::Uxrom(m) => m.rom,
            Cartridge::Mmc3(m) => m.rom,
        }
    }

    /// What a read of `addr` returns: CPU addresses 0x4020..=0xFFFF, PPU
    /// addresses 0x0000..=0x1FFF.
    pub open spec fn peek(&self, addr: u16) -> u8 {
        match self {
            Cartridge::Nrom(m) => m.peek(addr),
            Cartridge::Uxrom(m) => m.peek(addr),
            Cartridge::Mmc3(m) => m.peek(addr),
        }
    }

    /// The image is the same in both, save for the mirroring mode.
    pub open spec fn same_image(a: Cartridge, b: Cartridge) -> bool {
        &&& a.rom().bytes == b.rom().bytes
        &&& a.rom().prg_rom_banks == b.rom().prg_rom_banks
        &&& a.rom().chr_rom_banks == b.rom().chr_rom_banks
        &&& a.rom().prg_rom_start == b.rom().prg_rom_start
        &&& a.rom().chr_rom_start == b.rom().chr_rom_start
        &&& a.rom().mapper_id == b.rom().mapper_id
        &&& a.rom().trainer == b.rom().trainer
        &&& (a is Nrom <==> b is Nrom)
        &&& (a is Uxrom <==> b is Uxrom)
        &&& (a is Mmc3 <==> b is Mmc3)
    }

    pub fn read(&self, addr: u16) -> (r: u8)
        requires
            self.wf(),
        ensures
            r == self.peek(addr),
    {
        match self {
            Cartridge::Nrom(m) => m.read(addr),
            Cartridge::Uxrom(m) => m.read(addr),
            Cartridge::Mmc3(m) => m.read(addr),
        }
    }

    /// A write to the board; PRG-RAM at 0x6000..=0x7FFF reads back what
    /// was written.
    pub fn write(&mut self, addr: u16, val: u8)
        requires
            old(self).wf(),
        ensures
            final(self).wf(),
            Cartridge::same_image(*old(self), *final(self)),
            !(*old(self) is Mmc3) ==> final(self).rom() == old(self).rom(),
            0x6000 <= addr <= 0x7fff ==> final(self).peek(addr) == val,
    {
        match self {
            Cartridge::Nrom(m) => m.write(addr, val),
            Cartridge::Uxrom(m) => m.write(addr, val),
            Cartridge::Mmc3(m) => m.write(addr, val),
        }
    }

    /// Clocks the board once per rendered scanline; only MMC3 counts.
    pub fn step(&mut self)
        requires
            old(self).wf(),
        ensures
            final(self).wf(),
            final(self).rom() == old(self).rom(),
            Cartridge::same_image(*old(self), *final(self)),
            forall|a: u16| #[trigger] final(self).peek(a) == old(self).peek(a),
            !(*old(self) is Mmc3) ==> *final(self) == *old(self),
    {
        match self {
            Cartridge::Mmc3(m) => m.step(),
            _ => {},
        }
    }

    /// Reports a pending board IRQ and acknowledges it; boards without an
    /// IRQ source report none.
    pub fn irq_triggered(&mut self) -> (r: bool)
        requires
            old(self).wf(),
        ensures
            final(self).wf(),
            final(self).rom() == old(self).rom(),
            Cartridge::same_image(*old(self), *final(self)),
            forall|a: u16| #[trigger] final(self).peek(a) == old(self).peek(a),
            match *old(self) {
                Cartridge::Mmc3(m) => r == m.irq_triggered && *final(self) == Cartridge::Mmc3(
                    Mapper4 { irq_triggered: false, ..m },
                ),
                _ => !r && *final(self) == *old(self),
            },
    {
        match self {
            Cartridge::Mmc3(m) => m.irq_triggered(),
            _ => false,
        }
    }

    pub fn mirroring(&self) -> (r: Mirroring)
        ensures
            r == self.rom().mirroring,
    {
        match self {
            Cartridge::Nrom(m) => m.rom.mirroring,
            Cartridge::Uxrom(m) => m.rom.mirroring,
            Cartridge::Mmc3(m) => m.rom.mirroring,
        }
    }

    pub fn data(&self) -> (r: &ROM)
        ensures
            *r == self.rom(),
    {
        match self {
            Cartridge::Nrom(m) => &m.rom,
            Cartridge::Uxrom(m) => &m.rom,
            Cartridge::Mmc3(m) => &m.rom,
        }
    }
}

} // verus!
