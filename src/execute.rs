//! Operand addressing, instruction dispatch, interrupts and the CPU step.
use vstd::prelude::*;
use crate::cpu::{CPU, flags_byte, same_page_next, stack_push16, wrap16, wrap32};
use crate::bus::BUS;
use crate::mappers::Cartridge;
use crate::ppu::PPU;
use crate::opcodes::{AddressingMode, Instruction, decode_opcode, opcode_spec};

verus! {

/// Reading `a` has no side effects.
pub open spec fn quiet(c: CPU, a: u16) -> bool {
    c.bus.peek(a) is Some
}

/// The byte a quiet read of `a` returns.
pub open spec fn byte(c: CPU, a: u16) -> u8 {
    c.bus.peek(a)->Some_0
}

/// The 16-bit value at `a` and the address after it.
pub open spec fn word(c: CPU, lo: u16, hi: u16) -> u16 {
    (byte(c, lo) + 256 * byte(c, hi)) as u16
}

/// Whether `base` and `eff` lie in different pages.
pub open spec fn crosses(base: u16, eff: u16) -> bool {
    base / 256 != eff / 256
}

/// PC + 1 and PC + 2: where operand bytes are read.
pub open spec fn pc1(c: CPU) -> u16 {
    wrap16(c.pc + 1)
}

pub open spec fn pc2(c: CPU) -> u16 {
    wrap16(c.pc + 2)
}

/// The branch target: PC + 2 plus the signed offset byte.
pub open spec fn relative_target(c: CPU) -> u16 {
    let b = byte(c, pc1(c));
    wrap16(c.pc + 2 + if b < 128 {
        b as int
    } else {
        b - 256
    })
}

/// The 16-bit address in the two operand bytes.
pub open spec fn absolute_base(c: CPU) -> u16 {
    word(c, pc1(c), pc2(c))
}

/// The zero-page pointer of (zp,X).
pub open spec fn indirect_x_pointer(c: CPU) -> u16 {
    ((byte(c, pc1(c)) + c.x) % 256) as u16
}

/// The base address read through the zero-page pointer of (zp),Y.
pub open spec fn indirect_y_base(c: CPU) -> u16 {
    let zp = byte(c, pc1(c)) as u16;
    word(c, zp, ((zp + 1) % 256) as u16)
}

pub open spec fn indirect_quiet(c: CPU) -> bool {
    let ptr = absolute_base(c);
    quiet(c, pc1(c)) && quiet(c, pc2(c)) && quiet(c, ptr) && quiet(c, same_page_next(ptr))
}

pub open spec fn indirect_x_quiet(c: CPU) -> bool {
    let zp = indirect_x_pointer(c);
    quiet(c, pc1(c)) && quiet(c, zp) && quiet(c, ((zp + 1) % 256) as u16)
}

pub open spec fn indirect_y_quiet(c: CPU) -> bool {
    let zp = byte(c, pc1(c)) as u16;
    quiet(c, pc1(c)) && quiet(c, zp) && quiet(c, ((zp + 1) % 256) as u16)
}

/// Every byte the addressing mode reads (at PC + 1, PC + 2 and through
/// pointers) can be read without side effects.
pub open spec fn operand_quiet(c: CPU, mode: AddressingMode) -> bool {
    match mode {
        AddressingMode::Accumulator | AddressingMode::Implied | AddressingMode::Immediate => true,
        AddressingMode::Relative | AddressingMode::ZeroPage | AddressingMode::ZeroPageX
        | AddressingMode::ZeroPageY => quiet(c, pc1(c)),
        AddressingMode::Absolute | AddressingMode::AbsoluteX | AddressingMode::AbsoluteY => quiet(
            c,
            pc1(c),
        ) && quiet(c, pc2(c)),
        AddressingMode::Indirect => indirect_quiet(c),
        AddressingMode::IndirectX => indirect_x_quiet(c),
        AddressingMode::IndirectY => indirect_y_quiet(c),
    }
}

/// The effective address of the operand and whether indexing crossed a
/// page.
pub open spec fn operand_address(c: CPU, mode: AddressingMode) -> (u16, bool) {
    match mode {
        AddressingMode::Accumulator | AddressingMode::Implied => (0, false),
        AddressingMode::Immediate => (pc1(c), false),
        AddressingMode::Relative => (relative_target(c), false),
        AddressingMode::ZeroPage => (byte(c, pc1(c)) as u16, false),
        AddressingMode::ZeroPageX => (((byte(c, pc1(c)) + c.x) % 256) as u16, false),
        AddressingMode::ZeroPageY => (((byte(c, pc1(c)) + c.y) % 256) as u16, false),
        AddressingMode::Absolute => (absolute_base(c), false),
        AddressingMode::AbsoluteX => (
            wrap16(absolute_base(c) + c.x),
            crosses(absolute_base(c), wrap16(absolute_base(c) + c.x)),
        ),
        AddressingMode::AbsoluteY => (
            wrap16(absolute_base(c) + c.y),
            crosses(absolute_base(c), wrap16(absolute_base(c) + c.y)),
        ),
        AddressingMode::Indirect => (
            word(c, absolute_base(c), same_page_next(absolute_base(c))),
            false,
        ),
        AddressingMode::IndirectX => (
            word(c, indirect_x_pointer(c), ((indirect_x_pointer(c) + 1) % 256) as u16),
            false,
        ),
        AddressingMode::IndirectY => (
            wrap16(indirect_y_base(c) + c.y),
            crosses(indirect_y_base(c), wrap16(indirect_y_base(c) + c.y)),
        ),
    }
}

/// The stall after the DMA check: a pending OAM DMA adds 513 cycles, one
/// more on an odd cycle (saturating).
pub open spec fn dma_stall(c: CPU) -> u32 {
    if c.bus.ppu.dma_triggered {
        if c.stall + 513 + c.cycles % 2 > u32::MAX {
            u32::MAX
        } else {
            (c.stall + 513 + c.cycles % 2) as u32
        }
    } else {
        c.stall
    }
}

/// A pending board IRQ.
pub open spec fn cartridge_irq(c: Cartridge) -> bool {
    match c {
        Cartridge::Mmc3(m) => m.irq_triggered,
        _ => false,
    }
}

/// No interrupt will be serviced at the start of the next instruction.
pub open spec fn no_interrupt(c: CPU) -> bool {
    !c.bus.ppu.nmi_triggered && (c.i || (!cartridge_irq(c.bus.ppu.cartridge)
        && !c.bus.apu.irq_triggered && !c.bus.apu.dmc.irq_triggered))
}

/// The conditional branches.
pub open spec fn is_branch(i: Instruction) -> bool {
    i == Instruction::BPL || i == Instruction::BMI || i == Instruction::BVC || i
        == Instruction::BVS || i == Instruction::BCC || i == Instruction::BCS || i
        == Instruction::BNE || i == Instruction::BEQ
}

impl CPU {
    #[verifier::rlimit(100)]
    fn address_relative(&mut self) -> (r: u16)
        requires
            old(self).wf(),
        ensures
            final(self).wf(),
            *final(self) == (CPU { bus: final(self).bus, ..*old(self) }),
            quiet(*old(self), pc1(*old(self))) ==> r == relative_target(*old(self)) && *final(self)
                == *old(self),
    {
        let pc = self.pc;
        let b = self.read(pc.wrapping_add(1));
        if b < 128 {
            pc.wrapping_add(2).wrapping_add(b as u16)
        } else {
            pc.wrapping_add(2).wrapping_sub(256 - b as u16)
        }
    }

    #[verifier::rlimit(100)]
    fn address_zero_page(&mut self, idx: u8) -> (r: u16)
        requires
            old(self).wf(),
        ensures
            final(self).wf(),
            *final(self) == (CPU { bus: final(self).bus, ..*old(self) }),
            quiet(*old(self), wrap16(old(self).pc + 1)) ==> r == (byte(
                *old(self),
                wrap16(old(self).pc + 1),
            ) + idx) % 256 && *final(self) == *old(self),
    {
        self.read(self.pc.wrapping_add(1)).wrapping_add(idx) as u16
    }

    #[verifier::rlimit(100)]
    fn address_absolute(&mut self, idx: u8) -> (r: (u16, bool))
        requires
            old(self).wf(),
        ensures
            final(self).wf(),
            *final(self) == (CPU { bus: final(self).bus, ..*old(self) }),
            quiet(*old(self), wrap16(old(self).pc + 1)) && quiet(*old(self), wrap16(old(self).pc + 2))
                ==> ({
                let base = word(*old(self), wrap16(old(self).pc + 1), wrap16(old(self).pc + 2));
                r == (wrap16(base + idx), crosses(base, wrap16(base + idx)))
            }) && *final(self) == *old(self),
    {
        let base = self.read_16(self.pc.wrapping_add(1));
        proof {
            assert(wrap16(self.pc + 1 + 1) == wrap16(self.pc + 2));
        }
        let eff = base.wrapping_add(idx as u16);
        (eff, base / 256 != eff / 256)
    }

    #[verifier::rlimit(100)]
    fn address_indirect(&mut self) -> (r: u16)
        requires
            old(self).wf(),
        ensures
            final(self).wf(),
            *final(self) == (CPU { bus: final(self).bus, ..*old(self) }),
            indirect_quiet(*old(self)) ==> r == word(
                *old(self),
                absolute_base(*old(self)),
                same_page_next(absolute_base(*old(self))),
            ) && *final(self) == *old(self),
    {
        let ptr = self.read_16(self.pc.wrapping_add(1));
        proof {
            assert(wrap16(self.pc + 1 + 1) == wrap16(self.pc + 2));
        }
        self.read_16_from_same_page(ptr)
    }

    #[verifier::rlimit(100)]
    fn address_indirect_x(&mut self) -> (r: u16)
        requires
            old(self).wf(),
        ensures
            final(self).wf(),
            *final(self) == (CPU { bus: final(self).bus, ..*old(self) }),
            indirect_x_quiet(*old(self)) ==> r == word(
                *old(self),
                indirect_x_pointer(*old(self)),
                ((indirect_x_pointer(*old(self)) + 1) % 256) as u16,
            ) && *final(self) == *old(self),
    {
        let zp = self.read(self.pc.wrapping_add(1)).wrapping_add(self.x) as u16;
        proof {
            assert(same_page_next(zp) == ((zp + 1) % 256) as u16);
        }
        self.read_16_from_same_page(zp)
    }

    #[verifier::rlimit(100)]
    fn address_indirect_y(&mut self) -> (r: (u16, bool))
        requires
            old(self).wf(),
        ensures
            final(self).wf(),
            *final(self) == (CPU { bus: final(self).bus, ..*old(self) }),
            indirect_y_quiet(*old(self)) ==> r == (
                wrap16(indirect_y_base(*old(self)) + old(self).y),
                crosses(indirect_y_base(*old(self)), wrap16(indirect_y_base(*old(self)) + old(self).y)),
            ) && *final(self) == *old(self),
    {
        let zp = self.read(self.pc.wrapping_add(1)) as u16;
        proof {
            assert(same_page_next(zp) == ((zp + 1) % 256) as u16);
        }
        let base = self.read_16_from_same_page(zp);
        let eff = base.wrapping_add(self.y as u16);
        (eff, base / 256 != eff / 256)
    }
}

impl AddressingMode {
    /// Resolves the operand address of the instruction at PC.
    #[verifier::rlimit(100)]
    pub fn get_address(&self, cpu: &mut CPU) -> (r: (u16, bool))
        requires
            old(cpu).wf(),
        ensures
            final(cpu).wf(),
            *final(cpu) == (CPU { bus: final(cpu).bus, ..*old(cpu) }),
            operand_quiet(*old(cpu), *self) ==> r == operand_address(*old(cpu), *self)
                && *final(cpu) == *old(cpu),
    {
        match *self {
            AddressingMode::Accumulator => (0, false),
            AddressingMode::Implied => (0, false),
            AddressingMode::Immediate => (cpu.pc.wrapping_add(1), false),
            AddressingMode::Relative => (cpu.address_relative(), false),
            AddressingMode::ZeroPage => (cpu.address_zero_page(0), false),
            AddressingMode::ZeroPageX => {
                let x = cpu.x;
                (cpu.address_zero_page(x), false)
            },
            AddressingMode::ZeroPageY => {
                let y = cpu.y;
                (cpu.address_zero_page(y), false)
            },
            AddressingMode::Absolute => {
                let (a, _) = cpu.address_absolute(0);
                (a, false)
            },
            AddressingMode::AbsoluteX => {
                let x = cpu.x;
                cpu.address_absolute(x)
            },
            AddressingMode::AbsoluteY => {
                let y = cpu.y;
                cpu.address_absolute(y)
            },
            AddressingMode::Indirect => (cpu.address_indirect(), false),
            AddressingMode::IndirectX => (cpu.address_indirect_x(), false),
            AddressingMode::IndirectY => cpu.address_indirect_y(),
        }
    }
}


impl CPU {
    /// Adds the OAM DMA stall, 513 cycles plus one on an odd cycle, when
    /// the PPU reports a DMA.
    #[verifier::rlimit(100)]
    pub fn handle_dma(&mut self)
        requires
            old(self).wf(),
        ensures
            final(self).wf(),
            final(self).stall == dma_stall(*old(self)),
            final(self).bus.ppu == (PPU { dma_triggered: false, ..old(self).bus.ppu }),
            final(self).bus == (BUS { ppu: final(self).bus.ppu, ..old(self).bus }),
            *final(self) == (CPU { stall: final(self).stall, bus: final(self).bus, ..*old(self) }),
    {
        if self.bus.ppu.dma_triggered {
            self.bus.ppu.dma_triggered = false;
            self.stall = self.stall.saturating_add(513 + self.cycles % 2);
        }
    }

    /// Services a pending NMI, or else an IRQ from the board or the APU
    /// unless I is set.
    #[verifier::rlimit(100)]
    fn handle_interrupt(&mut self)
        requires
            old(self).wf(),
        ensures
            final(self).wf(),
            final(self).stall == old(self).stall,
            no_interrupt(*old(self)) ==> *final(self) == *old(self),
            old(self).bus.ppu.nmi_triggered ==> final(self).i && final(self).cycles == wrap32(
                old(self).cycles + 7,
            ) && final(self).pc == old(self).bus.ppu.cartridge.peek(0xfffa) + 256 * old(
                self,
            ).bus.ppu.cartridge.peek(0xfffb) && final(self).sp == ((old(self).sp + 253) % 256) as u8
                && final(self).bus.ram@ == stack_push16(old(self).bus.ram@, old(self).sp, old(self).pc).update(
                0x100 + (old(self).sp + 254) % 256,
                (flags_byte(*old(self)) & 0xef) | 0x20,
            ),
            !old(self).bus.ppu.nmi_triggered ==> final(self).cycles == old(self).cycles
                || final(self).cycles == wrap32(old(self).cycles + 7),
    {
        if self.bus.ppu.nmi_triggered {
            self.bus.ppu.nmi_triggered = false;
            self.interrupt(0xfffa);
        } else if !self.i {
            let cartridge_irq = self.bus.ppu.cartridge.irq_triggered();
            let apu_irq = self.bus.apu.irq_pending();
            if cartridge_irq || apu_irq {
                self.interrupt(0xfffe);
            }
        }
    }

    /// Pushes PC and the flags (B clear, U set), sets I, loads PC from
    /// `vector` and charges 7 cycles.
    #[verifier::rlimit(100)]
    fn interrupt(&mut self, vector: u16)
        requires
            old(self).wf(),
            0x4020 <= vector < 0xffff,
        ensures
            final(self).wf(),
            final(self).i,
            final(self).stall == old(self).stall,
            final(self).cycles == wrap32(old(self).cycles + 7),
            final(self).sp == ((old(self).sp + 253) % 256) as u8,
            final(self).bus.ram@ == stack_push16(old(self).bus.ram@, old(self).sp, old(self).pc).update(
                0x100 + (old(self).sp + 254) % 256,
                (flags_byte(*old(self)) & 0xef) | 0x20,
            ),
            final(self).pc == old(self).bus.ppu.cartridge.peek(vector) + 256 * old(
                self,
            ).bus.ppu.cartridge.peek((vector + 1) as u16),
    {
        let pc = self.pc;
        let f = (self.get_flags() & 0xef) | 0x20;
        self.push_16(pc);
        self.push_8(f);
        self.i = true;
        self.pc = self.read_16(vector);
        self.cycles = self.cycles.wrapping_add(7);
    }

    /// Spends one cycle of an OAM DMA stall.
    fn stalled_cycle(&mut self) -> (r: u32)
        requires
            old(self).stall > 0,
        ensures
            r == 1,
            *final(self) == (CPU {
                stall: (old(self).stall - 1) as u32,
                cycles: wrap32(old(self).cycles + 1),
                ..*old(self)
            }),
    {
        self.stall = self.stall - 1;
        self.cycles = self.cycles.wrapping_add(1);
        1
    }

    /// Runs one instruction (or one stalled cycle) and returns the cycles
    /// it took: the table's base cost, plus its extra cost when indexing
    /// crossed a page, plus branch and interrupt costs.
    /// Services a pending interrupt, then fetches, decodes and runs one
    /// instruction; returns the cycles spent.
    #[verifier::rlimit(100)]
    fn run_instruction(&mut self) -> (r: u32)
        requires
            old(self).wf(),
            old(self).stall == 0,
            !old(self).bus.ppu.dma_triggered,
        ensures
            final(self).wf(),
            (dma_stall(*old(self)) == 0 && no_interrupt(*old(self))
                && quiet(*old(self), old(self).pc) && operand_quiet(
                *old(self),
                opcode_spec(byte(*old(self), old(self).pc)).mode,
            ) && !is_branch(opcode_spec(byte(*old(self), old(self).pc)).instruction)) ==> ({
                let op = opcode_spec(byte(*old(self), old(self).pc));
                let crossed = operand_address(*old(self), op.mode).1;
                r == op.cycles + if crossed {
                    op.extra_cycles
                } else {
                    0
                }
            }),
    {
        let start = self.cycles;
        let ghost s0 = *self;
        self.handle_interrupt();
        let ghost s1 = *self;
        let op = self.read(self.pc);
        let opcode = decode_opcode(op);
        let (address, page_crossed) = opcode.mode.get_address(self);
        self.pc = self.pc.wrapping_add(opcode.size);
        let ghost before_exec = self.cycles;
        opcode.instruction.execute(self, address, opcode.mode);
        let cost: u32 = if page_crossed {
            opcode.cycles + opcode.extra_cycles
        } else {
            opcode.cycles
        };
        self.cycles = self.cycles.wrapping_add(cost);
        let r = self.cycles.wrapping_sub(start);
        proof {
            if !is_branch(opcode.instruction) && no_interrupt(s0) {
                assert(self.cycles == wrap32(start + cost));
                assert(cost <= 8);
            }
        }
        r
    }

    #[verifier::rlimit(100)]
    pub fn step(&mut self) -> (r: u32)
        requires
            old(self).wf(),
        ensures
            final(self).wf(),
            dma_stall(*old(self)) > 0 ==> r == 1 && final(self).stall == dma_stall(*old(self)) - 1
                && final(self).cycles == wrap32(old(self).cycles + 1) && final(self).pc == old(self).pc,
    {
        self.handle_dma();
        if self.stall > 0 {
            return self.stalled_cycle();
        }
        self.run_instruction()
    }
}

} // verus!
