//! The console as a whole: loading an image, running frames, input,
//! audio samples and snapshots.
use vstd::prelude::*;
use crate::buffer::Buffer;
use crate::bus::BUS;
use crate::controller::Controller;
use crate::cpu::CPU;
use crate::mappers::{Cartridge, Mapper0, create_cartridge};
use crate::ppu::PPU;
use crate::rom::{
    LoadError, Mirroring, ROM, header_mapper, header_mirroring, header_trainer, load_outcome,
};

verus! {

/// Why a snapshot could not be restored: it ends early or holds a value
/// out of range (a mirroring tag, a board number, a register).
#[derive(Clone, Copy, Debug, PartialEq, Eq, Structural)]
pub enum DecodeError {
    Malformed,
}

/// Upper bound on the CPU steps one frame can take; a frame needs fewer
/// than 30,000 CPU cycles.
pub const MAX_FRAME_STEPS: u32 = 200000;

/// A console with an empty NROM board, the starting point for restoring a
/// snapshot.
fn blank_console() -> (r: CPU)
    ensures
        r.wf(),
{
    let rom = ROM {
        bytes: Vec::new(),
        prg_rom_banks: 0,
        chr_rom_banks: 0,
        prg_rom_start: 16,
        chr_rom_start: 16,
        mapper_id: 0,
        mirroring: Mirroring::Horizontal,
        trainer: false,
    };
    let cartridge = Cartridge::Nrom(Mapper0::new(rom));
    let ppu = PPU::new_ppu(cartridge);
    let bus = BUS::new_bus(ppu, Controller::new_controller());
    CPU::new_cpu(bus)
}

impl CPU {
    /// Builds a console from an iNES image: parses the header, picks the
    /// board and resets the CPU through the reset vector.
    pub fn new_from_rom_bytes(bytes: Vec<u8>) -> (r: Result<CPU, LoadError>)
        ensures
            match r {
                Ok(cpu) => {
                    let rom = cpu.bus.ppu.cartridge.rom();
                    &&& load_outcome(bytes@) == Ok::<(), LoadError>(())
                    &&& cpu.wf()
                    &&& cpu.sp == 0xfd && cpu.i && cpu.u && cpu.cycles == 7 && cpu.stall == 0
                    &&& cpu.pc == cpu.bus.ppu.cartridge.peek(0xfffc) + 256
                        * cpu.bus.ppu.cartridge.peek(0xfffd)
                    &&& rom.bytes@ == bytes@
                    &&& rom.prg_rom_banks == bytes@[4]
                    &&& rom.chr_rom_banks == bytes@[5]
                    &&& rom.trainer == header_trainer(bytes@)
                    &&& rom.prg_rom_start == 16 + (if rom.trainer { 512int } else { 0int })
                    &&& rom.chr_rom_start == rom.prg_rom_start + 16384 * rom.prg_rom_banks
                    &&& rom.mapper_id == header_mapper(bytes@)
                    &&& rom.mirroring == header_mirroring(bytes@)
                    &&& (rom.mapper_id == 0 <==> cpu.bus.ppu.cartridge is Nrom)
                    &&& (rom.mapper_id == 2 <==> cpu.bus.ppu.cartridge is Uxrom)
                    &&& (rom.mapper_id == 4 <==> cpu.bus.ppu.cartridge is Mmc3)
                },
                Err(e) => load_outcome(bytes@) == Err::<(), LoadError>(e),
            },
    {
        let rom = match ROM::parse(bytes) {
            Ok(rom) => rom,
            Err(e) => return Err(e),
        };
        let cartridge = match create_cartridge(rom.mapper_id, rom) {
            Ok(c) => c,
            Err(e) => return Err(e),
        };
        let ppu = PPU::new_ppu(cartridge);
        let bus = BUS::new_bus(ppu, Controller::new_controller());
        Ok(CPU::new_cpu(bus))
    }

    /// Builds a console from a snapshot.
    pub fn new_nes_from_save_bytes(bytes: Vec<u8>) -> (r: Result<CPU, DecodeError>)
        ensures
            r matches Ok(cpu) ==> cpu.wf(),
    {
        let mut cpu = blank_console();
        let mut buffer = Buffer::new_from_bytes(bytes);
        match cpu.decode(&mut buffer) {
            Ok(()) => Ok(cpu),
            Err(e) => Err(e),
        }
    }

    /// Restores a snapshot written by `encode`. On failure the console is
    /// left as it was.
    #[verifier::rlimit(100)]
    pub fn decode(&mut self, buffer: &mut Buffer) -> (r: Result<(), DecodeError>)
        requires
            old(self).wf(),
            old(buffer).wf(),
        ensures
            final(self).wf(),
            r is Err ==> *final(self) == *old(self),
    {
        let rom = ROM::decode(buffer);
        let cartridge = match create_cartridge(rom.mapper_id, rom) {
            Ok(c) => c,
            Err(_) => return Err(DecodeError::Malformed),
        };
        let mut fresh = blank_console();
        fresh.bus.ppu.cartridge = cartridge;
        fresh.bus.ppu.cartridge.decode(buffer);
        fresh.bus.ppu.decode(buffer);
        fresh.bus.controller.decode(buffer);
        fresh.bus.decode(buffer);
        fresh.decode_registers(buffer);
        buffer.index = 0;
        if buffer.overrun {
            Err(DecodeError::Malformed)
        } else {
            *self = fresh;
            Ok(())
        }
    }

    /// Presses (`pressed`) or releases button `index`: A, B, Select,
    /// Start, Up, Down, Left, Right for 0..=7.
    pub fn update_button(&mut self, index: u8, pressed: bool)
        requires
            old(self).wf(),
            index < 8,
        ensures
            final(self).wf(),
            pressed ==> final(self).bus.controller.state == old(self).bus.controller.state | (1u8
                << index),
            !pressed ==> final(self).bus.controller.state == old(self).bus.controller.state & !(1u8
                << index),
    {
        self.bus.controller.update_button(index, pressed)
    }

    /// Runs CPU, PPU (three dots per CPU cycle) and APU (one step per CPU
    /// cycle, fed the byte at the DMC address) until the PPU completes a
    /// frame.
    #[verifier::rlimit(100)]
    pub fn step_till_next_frame(&mut self)
        requires
            old(self).wf(),
        ensures
            final(self).wf(),
    {
        let mut steps: u32 = 0;
        let mut done = false;
        while steps < MAX_FRAME_STEPS && !done
            invariant
                self.wf(),
            decreases MAX_FRAME_STEPS - steps,
        {
            if self.bus.ppu.frame_complete() {
                done = true;
            } else {
                let cpu_cycles = self.step();
                let dots: u64 = cpu_cycles as u64 * 3;
                let mut k: u64 = 0;
                while k < dots
                    invariant
                        self.wf(),
                    decreases dots - k,
                {
                    self.bus.ppu.step();
                    k = k + 1;
                }
                let mut j: u32 = 0;
                while j < cpu_cycles
                    invariant
                        self.wf(),
                    decreases cpu_cycles - j,
                {
                    let addr = self.bus.apu.dmc.current_address;
                    let data = self.bus.read(addr);
                    self.bus.apu.step(data);
                    j = j + 1;
                }
            }
            steps = steps + 1;
        }
    }

    /// The last rendered frame: 256 x 240 pixels of four bytes.
    pub fn frame_buffer_ref(&self) -> (r: &Vec<u8>)
        ensures
            r@ == self.bus.ppu.frame_buffer@,
    {
        &self.bus.ppu.frame_buffer
    }

    /// Hands out pending audio levels; see `APU::load_samples`.
    pub fn load_samples(&mut self, out: &mut [u32])
        requires
            old(self).wf(),
        ensures
            final(self).wf(),
            final(out)@.len() == old(out)@.len(),
            forall|i: int|
                0 <= i < old(out)@.len() ==> #[trigger] final(out)@[i] == if i < old(
                    self,
                ).bus.apu.pending().len() {
                    old(self).bus.apu.pending()[i]
                } else {
                    0
                },
    {
        self.bus.apu.load_samples(out)
    }
}

} // verus!
