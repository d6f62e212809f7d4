//! A cycle-stepped NES core: 6502 CPU, PPU pixel pipeline, APU, cartridge
//! mappers and the bus that joins them, with a byte-stream state codec.
pub mod buffer;
pub mod controller;
pub mod rom;
pub mod mappers;
pub mod ppu;
pub mod ppu_io;
pub mod scroll;
pub mod palette;
pub mod ppu_render;
pub mod apu_units;
pub mod apu_channels;
pub mod apu;
pub mod bus;
pub mod opcodes;
pub mod cpu;
pub mod instructions;
pub mod execute;
pub mod dispatch;
pub mod codec;
pub mod nes;
