//! The 6502 core: registers, status flags, stack, interrupts and the
//! fetch-decode-execute step.
use vstd::prelude::*;
use crate::bus::BUS;

verus! {

/// The kinds of interrupt a step can service.
#[derive(Clone, Copy, Debug, PartialEq, Eq, Structural)]
pub enum Interrupt {
    NMI,
    IRQ,
    NoInterrupt,
}

pub struct CPU {
    pub a: u8,
    pub x: u8,
    pub y: u8,
    pub sp: u8,
    pub pc: u16,
    /// Carry.
    pub c: bool,
    /// Zero.
    pub z: bool,
    /// Interrupt disable.
    pub i: bool,
    /// Decimal mode (stored, without effect on this CPU).
    pub d: bool,
    /// Break.
    pub b: bool,
    /// Unused bit 5.
    pub u: bool,
    /// Overflow.
    pub v: bool,
    /// Negative.
    pub n: bool,
    /// CPU cycles run, wrapping.
    pub cycles: u32,
    /// Cycles still to be spent stalled by OAM DMA.
    pub stall: u32,
    pub bus: BUS,
}

/// `x` reduced to 16 bits.
pub open spec fn wrap16(x: int) -> u16 {
    (x % 0x10000) as u16
}

/// The address after `addr` within its page.
pub open spec fn same_page_next(addr: u16) -> u16 {
    ((addr / 256) * 256 + (addr % 256 + 1) % 256) as u16
}

/// A pointer at the last byte of a page wraps to the start of that page
/// for its high byte, as JMP ($XXFF) does.
pub proof fn lemma_page_wrap(page: u8)
    ensures
        same_page_next((page as int * 256 + 0xff) as u16) == (page as int * 256) as u16,
{
}

/// `x` reduced to 32 bits.
pub open spec fn wrap32(x: int) -> u32 {
    (x % 0x1_0000_0000) as u32
}

/// The status byte: C, Z, I, D, B, U, V, N from bit 0 to bit 7.
pub open spec fn flags_byte(c: CPU) -> u8 {
    (if c.c {
        0x01u8
    } else {
        0
    }) | (if c.z {
        0x02u8
    } else {
        0
    }) | (if c.i {
        0x04u8
    } else {
        0
    }) | (if c.d {
        0x08u8
    } else {
        0
    }) | (if c.b {
        0x10u8
    } else {
        0
    }) | (if c.u {
        0x20u8
    } else {
        0
    }) | (if c.v {
        0x40u8
    } else {
        0
    }) | (if c.n {
        0x80u8
    } else {
        0
    })
}

/// `c` with the flags taken from the status byte `f`.
pub open spec fn with_flags(c: CPU, f: u8) -> CPU {
    CPU {
        c: f & 0x01 != 0,
        z: f & 0x02 != 0,
        i: f & 0x04 != 0,
        d: f & 0x08 != 0,
        b: f & 0x10 != 0,
        u: f & 0x20 != 0,
        v: f & 0x40 != 0,
        n: f & 0x80 != 0,
        ..c
    }
}

/// `c` with Z and N set from the result `r`.
pub open spec fn with_zn(c: CPU, r: u8) -> CPU {
    CPU { z: r == 0, n: r >= 0x80, ..c }
}

/// Stack RAM after pushing the 16-bit `v` at stack pointer `sp`: high
/// byte first, then low byte.
pub open spec fn stack_push16(ram: Seq<u8>, sp: u8, v: u16) -> Seq<u8> {
    ram.update(0x100 + sp, (v / 256) as u8).update(0x100 + (sp + 255) % 256, (v % 256) as u8)
}

/// The 16-bit value that pulling at stack pointer `sp` reads: low byte
/// above `sp`, high byte above that.
pub open spec fn stack_pull16(ram: Seq<u8>, sp: u8) -> u16 {
    (ram[0x100 + (sp + 1) % 256] + 256 * ram[0x100 + (sp + 2) % 256]) as u16
}

proof fn lemma_split16(v: u16)
    ensures
        (v >> 8u16) as u8 == v / 256,
        (v & 0xff) as u8 == v % 256,
{
    assert((v >> 8u16) == v / 256 && (v & 0xff) == v % 256) by (bit_vector);
}

/// Pushing a 16-bit value and pulling one back returns it and restores the
/// stack pointer.
pub proof fn lemma_push_pull16(ram: Seq<u8>, sp: u8, v: u16)
    requires
        ram.len() == 0x800,
    ensures
        stack_pull16(stack_push16(ram, sp, v), ((sp + 254) % 256) as u8) == v,
        ((((sp + 254) % 256) as u8) + 2) % 256 == sp,
{
    let r = stack_push16(ram, sp, v);
    let sp2 = ((sp + 254) % 256) as u8;
    assert((sp2 + 1) % 256 == (sp + 255) % 256);
    assert((sp2 + 2) % 256 == sp);
    assert(r[0x100 + (sp2 + 1) % 256] == (v % 256) as u8);
    assert(r[0x100 + (sp2 + 2) % 256] == (v / 256) as u8);
}

impl CPU {
    pub open spec fn wf(&self) -> bool {
        self.bus.wf()
    }

    /// Sets up a CPU on `bus` as reset does: SP 0xFD, PC from the reset
    /// vector at 0xFFFC, I and U set, 7 cycles spent.
    pub fn new_cpu(bus: BUS) -> (r: CPU)
        requires
            bus.wf(),
        ensures
            r.wf(),
            r.sp == 0xfd,
            r.i && r.u,
            r.cycles == 7,
            r.stall == 0,
            r.a == 0 && r.x == 0 && r.y == 0,
            !r.c && !r.z && !r.d && !r.b && !r.v && !r.n,
            bus.peek(0xfffc) is Some && bus.peek(0xfffd) is Some ==> r.pc == bus.peek(0xfffc)->Some_0
                + 256 * bus.peek(0xfffd)->Some_0 && r.bus == bus,
    {
        let mut cpu = CPU {
            a: 0,
            x: 0,
            y: 0,
            sp: 0xfd,
            pc: 0,
            c: false,
            z: false,
            i: true,
            d: false,
            b: false,
            u: true,
            v: false,
            n: false,
            cycles: 7,
            stall: 0,
            bus,
        };
        cpu.pc = cpu.read_16(0xfffc);
        cpu
    }

    pub fn read(&mut self, addr: u16) -> (r: u8)
        requires
            old(self).wf(),
        ensures
            final(self).wf(),
            old(self).bus.peek(addr) matches Some(v) ==> r == v && *final(self) == *old(self),
            *final(self) == (CPU { bus: final(self).bus, ..*old(self) }),
            final(self).bus.ram == old(self).bus.ram,
    {
        self.bus.read(addr)
    }

    pub fn write(&mut self, addr: u16, val: u8)
        requires
            old(self).wf(),
        ensures
            final(self).wf(),
            *final(self) == (CPU { bus: final(self).bus, ..*old(self) }),
            addr <= 0x1fff ==> final(self).bus.ram@ == old(self).bus.ram@.update(
                (addr % 0x800) as int,
                val,
            ) && final(self).bus == (BUS { ram: final(self).bus.ram, ..old(self).bus }),
    {
        self.bus.write(addr, val);
    }

    /// Two bytes, little-endian, at `addr` and `addr + 1`.
    pub fn read_16(&mut self, addr: u16) -> (r: u16)
        requires
            old(self).wf(),
        ensures
            final(self).wf(),
            final(self).bus.ram == old(self).bus.ram,
            *final(self) == (CPU { bus: final(self).bus, ..*old(self) }),
            old(self).bus.peek(addr) is Some && old(self).bus.peek(wrap16(addr + 1)) is Some ==> r
                == old(self).bus.peek(addr)->Some_0 + 256 * old(self).bus.peek(
                wrap16(addr + 1),
            )->Some_0 && *final(self) == *old(self),
    {
        let lo = self.read(addr) as u16;
        let hi = self.read(addr.wrapping_add(1)) as u16;
        hi * 256 + lo
    }

    /// Two bytes, little-endian, the second taken from the same page: a
    /// pointer at 0xXXFF takes its high byte from 0xXX00.
    pub fn read_16_from_same_page(&mut self, addr: u16) -> (r: u16)
        requires
            old(self).wf(),
        ensures
            final(self).wf(),
            final(self).bus.ram == old(self).bus.ram,
            *final(self) == (CPU { bus: final(self).bus, ..*old(self) }),
            old(self).bus.peek(addr) is Some && old(self).bus.peek(same_page_next(addr)) is Some
                ==> r == old(self).bus.peek(addr)->Some_0 + 256 * old(self).bus.peek(
                same_page_next(addr),
            )->Some_0 && *final(self) == *old(self),
    {
        let lo = self.read(addr) as u16;
        let next = (addr / 256) * 256 + (addr % 256 + 1) % 256;
        let hi = self.read(next) as u16;
        hi * 256 + lo
    }

    /// Pushes a byte at 0x100 + SP and decrements SP.
    pub fn push_8(&mut self, val: u8)
        requires
            old(self).wf(),
        ensures
            final(self).wf(),
            final(self).bus.ram@ == old(self).bus.ram@.update(0x100 + old(self).sp, val),
            final(self).bus == (BUS { ram: final(self).bus.ram, ..old(self).bus }),
            *final(self) == (CPU {
                sp: ((old(self).sp + 255) % 256) as u8,
                bus: final(self).bus,
                ..*old(self)
            }),
    {
        self.write(0x100 + self.sp as u16, val);
        self.sp = self.sp.wrapping_sub(1);
    }

    /// Increments SP and reads the byte at 0x100 + SP.
    pub fn pull_8(&mut self) -> (r: u8)
        requires
            old(self).wf(),
        ensures
            final(self).wf(),
            r == old(self).bus.ram@[0x100 + (old(self).sp + 1) % 256],
            *final(self) == (CPU { sp: ((old(self).sp + 1) % 256) as u8, ..*old(self) }),
    {
        self.sp = self.sp.wrapping_add(1);
        self.read(0x100 + self.sp as u16)
    }

    pub fn push_16(&mut self, val: u16)
        requires
            old(self).wf(),
        ensures
            final(self).wf(),
            final(self).bus.ram@ == stack_push16(old(self).bus.ram@, old(self).sp, val),
            final(self).bus == (BUS { ram: final(self).bus.ram, ..old(self).bus }),
            *final(self) == (CPU {
                sp: ((old(self).sp + 254) % 256) as u8,
                bus: final(self).bus,
                ..*old(self)
            }),
    {
        proof {
            lemma_split16(val);
        }
        self.push_8((val >> 8u16) as u8);
        self.push_8((val & 0xff) as u8);
    }

    pub fn pull_16(&mut self) -> (r: u16)
        requires
            old(self).wf(),
        ensures
            final(self).wf(),
            r == stack_pull16(old(self).bus.ram@, old(self).sp),
            *final(self) == (CPU { sp: ((old(self).sp + 2) % 256) as u8, ..*old(self) }),
    {
        let lo = self.pull_8() as u16;
        let hi = self.pull_8() as u16;
        hi * 256 + lo
    }

    /// The status byte.
    pub fn get_flags(&self) -> (r: u8)
        ensures
            r == flags_byte(*self),
    {
        let c: u8 = if self.c { 0x01 } else { 0 };
        let z: u8 = if self.z { 0x02 } else { 0 };
        let i: u8 = if self.i { 0x04 } else { 0 };
        let d: u8 = if self.d { 0x08 } else { 0 };
        let b: u8 = if self.b { 0x10 } else { 0 };
        let u: u8 = if self.u { 0x20 } else { 0 };
        let v: u8 = if self.v { 0x40 } else { 0 };
        let n: u8 = if self.n { 0x80 } else { 0 };
        c | z | i | d | b | u | v | n
    }

    /// Loads all eight flags from a status byte.
    pub fn set_flags(&mut self, data: u8)
        ensures
            *final(self) == with_flags(*old(self), data),
    {
        self.c = data & 0x01 != 0;
        self.z = data & 0x02 != 0;
        self.i = data & 0x04 != 0;
        self.d = data & 0x08 != 0;
        self.b = data & 0x10 != 0;
        self.u = data & 0x20 != 0;
        self.v = data & 0x40 != 0;
        self.n = data & 0x80 != 0;
    }

    pub fn update_zn_flags(&mut self, data: u8)
        ensures
            *final(self) == with_zn(*old(self), data),
    {
        self.z = data == 0;
        self.n = data >= 0x80;
    }
}

} // verus!
