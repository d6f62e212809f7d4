//! Instruction semantics. Each reads its operand through the bus; where
//! that read has no side effects (RAM, cartridge) the contract gives the
//! exact outcome.
use vstd::prelude::*;
use crate::bus::BUS;
use crate::cpu::{CPU, with_zn, wrap16, wrap32, flags_byte, with_flags, stack_push16, stack_pull16};
use crate::opcodes::AddressingMode;

verus! {

/// The sum A + M + C of an add with carry.
pub open spec fn adc_sum(a: u8, m: u8, c: bool) -> int {
    a + m + if c {
        1int
    } else {
        0int
    }
}

/// `c` after adding `m` and the carry to A: C is the carry out, V is set
/// when both inputs share a sign that the result does not.
pub open spec fn after_adc(c: CPU, m: u8) -> CPU {
    let s = adc_sum(c.a, m, c.c);
    let r = (s % 256) as u8;
    CPU {
        a: r,
        c: s > 255,
        v: ((c.a ^ m) & 0x80 == 0) && ((c.a ^ r) & 0x80 != 0),
        z: r == 0,
        n: r >= 0x80,
        ..c
    }
}

/// `c` after subtracting `m` and the borrow (not C) from A: an add of the
/// complement of `m`.
pub open spec fn after_sbc(c: CPU, m: u8) -> CPU {
    after_adc(c, (255 - m) as u8)
}

/// `c` after comparing `reg` with `m`: C when `reg >= m`, Z and N from the
/// difference.
pub open spec fn after_compare(c: CPU, reg: u8, m: u8) -> CPU {
    let d = ((reg - m + 256) % 256) as u8;
    CPU { c: reg >= m, z: d == 0, n: d >= 0x80, ..c }
}

impl CPU {
    /// A AND memory.
    pub fn and(&mut self, addr: u16)
        requires
            old(self).wf(),
        ensures
            final(self).wf(),
            final(self).cycles == old(self).cycles,
            final(self).stall == old(self).stall,
            old(self).bus.peek(addr) matches Some(m) ==> *final(self) == with_zn(CPU { a: old(self).a & m, ..*old(self) }, old(self).a & m),
    {
        let m = self.read(addr);
        self.a = self.a & m;
        self.update_zn_flags(self.a);
    }

    /// A XOR memory.
    pub fn eor(&mut self, addr: u16)
        requires
            old(self).wf(),
        ensures
            final(self).wf(),
            final(self).cycles == old(self).cycles,
            final(self).stall == old(self).stall,
            old(self).bus.peek(addr) matches Some(m) ==> *final(self) == with_zn(CPU { a: old(self).a ^ m, ..*old(self) }, old(self).a ^ m),
    {
        let m = self.read(addr);
        self.a = self.a ^ m;
        self.update_zn_flags(self.a);
    }

    /// A OR memory.
    pub fn ora(&mut self, addr: u16)
        requires
            old(self).wf(),
        ensures
            final(self).wf(),
            final(self).cycles == old(self).cycles,
            final(self).stall == old(self).stall,
            old(self).bus.peek(addr) matches Some(m) ==> *final(self) == with_zn(CPU { a: old(self).a | m, ..*old(self) }, old(self).a | m),
    {
        let m = self.read(addr);
        self.a = self.a | m;
        self.update_zn_flags(self.a);
    }

    /// Loads A.
    pub fn lda(&mut self, addr: u16)
        requires
            old(self).wf(),
        ensures
            final(self).wf(),
            final(self).cycles == old(self).cycles,
            final(self).stall == old(self).stall,
            old(self).bus.peek(addr) matches Some(m) ==> *final(self) == with_zn(CPU { a: m, ..*old(self) }, m),
    {
        let m = self.read(addr);
        self.a = m;
        self.update_zn_flags(m);
    }

    /// Loads X.
    pub fn ldx(&mut self, addr: u16)
        requires
            old(self).wf(),
        ensures
            final(self).wf(),
            final(self).cycles == old(self).cycles,
            final(self).stall == old(self).stall,
            old(self).bus.peek(addr) matches Some(m) ==> *final(self) == with_zn(CPU { x: m, ..*old(self) }, m),
    {
        let m = self.read(addr);
        self.x = m;
        self.update_zn_flags(m);
    }

    /// Loads Y.
    pub fn ldy(&mut self, addr: u16)
        requires
            old(self).wf(),
        ensures
            final(self).wf(),
            final(self).cycles == old(self).cycles,
            final(self).stall == old(self).stall,
            old(self).bus.peek(addr) matches Some(m) ==> *final(self) == with_zn(CPU { y: m, ..*old(self) }, m),
    {
        let m = self.read(addr);
        self.y = m;
        self.update_zn_flags(m);
    }

    /// Loads A and X with the same byte.
    pub fn lax(&mut self, addr: u16)
        requires
            old(self).wf(),
        ensures
            final(self).wf(),
            final(self).cycles == old(self).cycles,
            final(self).stall == old(self).stall,
            old(self).bus.peek(addr) matches Some(m) ==> *final(self) == with_zn(CPU { a: m, x: m, ..*old(self) }, m),
    {
        let m = self.read(addr);
        self.a = m;
        self.x = m;
        self.update_zn_flags(m);
    }

    /// Adds memory and carry to A.
    pub fn adc(&mut self, addr: u16)
        requires
            old(self).wf(),
        ensures
            final(self).wf(),
            final(self).cycles == old(self).cycles,
            final(self).stall == old(self).stall,
            old(self).bus.peek(addr) matches Some(m) ==> *final(self) == after_adc(*old(self), m),
    {
        let m = self.read(addr);
        self.add_with_carry(m);
    }

    /// Subtracts memory and borrow from A.
    pub fn sbc(&mut self, addr: u16)
        requires
            old(self).wf(),
        ensures
            final(self).wf(),
            final(self).cycles == old(self).cycles,
            final(self).stall == old(self).stall,
            old(self).bus.peek(addr) matches Some(m) ==> *final(self) == after_sbc(*old(self), m),
    {
        let m = self.read(addr);
        assert(!m == 255 - m) by (bit_vector);
        self.add_with_carry(255 - m);
    }

    /// Compares A with memory.
    pub fn cmp(&mut self, addr: u16)
        requires
            old(self).wf(),
        ensures
            final(self).wf(),
            final(self).cycles == old(self).cycles,
            final(self).stall == old(self).stall,
            old(self).bus.peek(addr) matches Some(m) ==> *final(self) == after_compare(*old(self), old(self).a, m),
    {
        let m = self.read(addr);
        let r = self.a;
        self.compare(r, m);
    }

    /// Compares X with memory.
    pub fn cpx(&mut self, addr: u16)
        requires
            old(self).wf(),
        ensures
            final(self).wf(),
            final(self).cycles == old(self).cycles,
            final(self).stall == old(self).stall,
            old(self).bus.peek(addr) matches Some(m) ==> *final(self) == after_compare(*old(self), old(self).x, m),
    {
        let m = self.read(addr);
        let r = self.x;
        self.compare(r, m);
    }

    /// Compares Y with memory.
    pub fn cpy(&mut self, addr: u16)
        requires
            old(self).wf(),
        ensures
            final(self).wf(),
            final(self).cycles == old(self).cycles,
            final(self).stall == old(self).stall,
            old(self).bus.peek(addr) matches Some(m) ==> *final(self) == after_compare(*old(self), old(self).y, m),
    {
        let m = self.read(addr);
        let r = self.y;
        self.compare(r, m);
    }

    /// Tests A AND memory into Z; bits 6 and 7 of memory into V and N.
    pub fn bit(&mut self, addr: u16)
        requires
            old(self).wf(),
        ensures
            final(self).wf(),
            final(self).cycles == old(self).cycles,
            final(self).stall == old(self).stall,
            old(self).bus.peek(addr) matches Some(m) ==> *final(self) == (CPU { z: old(self).a & m == 0, v: m & 0x40 != 0, n: m & 0x80 != 0, ..*old(self) }),
    {
        let m = self.read(addr);
        self.z = (self.a & m) == 0;
        self.v = m & 0x40 != 0;
        self.n = m & 0x80 != 0;
    }

    /// Stores A.
    pub fn sta(&mut self, addr: u16)
        requires
            old(self).wf(),
        ensures
            final(self).wf(),
            final(self).cycles == old(self).cycles,
            final(self).stall == old(self).stall,
            *final(self) == (CPU { bus: final(self).bus, ..*old(self) }),
            addr <= 0x1fff ==> final(self).bus.ram@ == old(self).bus.ram@.update(
                (addr % 0x800) as int,
                old(self).a,
            ),
    {
        let v = self.a;
        self.write(addr, v);
    }

    /// Stores X.
    pub fn stx(&mut self, addr: u16)
        requires
            old(self).wf(),
        ensures
            final(self).wf(),
            final(self).cycles == old(self).cycles,
            final(self).stall == old(self).stall,
            *final(self) == (CPU { bus: final(self).bus, ..*old(self) }),
            addr <= 0x1fff ==> final(self).bus.ram@ == old(self).bus.ram@.update(
                (addr % 0x800) as int,
                old(self).x,
            ),
    {
        let v = self.x;
        self.write(addr, v);
    }

    /// Stores Y.
    pub fn sty(&mut self, addr: u16)
        requires
            old(self).wf(),
        ensures
            final(self).wf(),
            final(self).cycles == old(self).cycles,
            final(self).stall == old(self).stall,
            *final(self) == (CPU { bus: final(self).bus, ..*old(self) }),
            addr <= 0x1fff ==> final(self).bus.ram@ == old(self).bus.ram@.update(
                (addr % 0x800) as int,
                old(self).y,
            ),
    {
        let v = self.y;
        self.write(addr, v);
    }

    /// Stores A AND X.
    pub fn sax(&mut self, addr: u16)
        requires
            old(self).wf(),
        ensures
            final(self).wf(),
            final(self).cycles == old(self).cycles,
            final(self).stall == old(self).stall,
            *final(self) == (CPU { bus: final(self).bus, ..*old(self) }),
            addr <= 0x1fff ==> final(self).bus.ram@ == old(self).bus.ram@.update(
                (addr % 0x800) as int,
                old(self).a & old(self).x,
            ),
    {
        let v = self.a & self.x;
        self.write(addr, v);
    }

    /// Shifts left; bit 7 goes to C.
    pub fn asl(&mut self, addr: u16, addr_mode: AddressingMode)
        requires
            old(self).wf(),
        ensures
            final(self).wf(),
            final(self).cycles == old(self).cycles,
            final(self).stall == old(self).stall,
            addr_mode == AddressingMode::Accumulator ==> *final(self) == with_zn(
                CPU { a: ((old(self).a as int * 2) % 256) as u8, c: old(self).a >= 0x80, ..*old(self) },
                ((old(self).a as int * 2) % 256) as u8,
            ),
            addr_mode != AddressingMode::Accumulator && addr <= 0x1fff ==> {
                let m = old(self).bus.ram@[(addr % 0x800) as int];
                &&& final(self).bus.ram@ == old(self).bus.ram@.update((addr % 0x800) as int, ((m as int * 2) % 256) as u8)
                &&& final(self).bus == (BUS { ram: final(self).bus.ram, ..old(self).bus })
                &&& *final(self) == with_zn(
                    CPU { c: m >= 0x80, bus: final(self).bus, ..*old(self) },
                    ((m as int * 2) % 256) as u8,
                )
            },
    {
        let m = if addr_mode == AddressingMode::Accumulator {
            self.a
        } else {
            self.read(addr)
        };
        let r: u8 = ((m as u16 * 2) % 256) as u8;
        self.c = m >= 0x80;
        self.update_zn_flags(r);
        if addr_mode == AddressingMode::Accumulator {
            self.a = r;
        } else {
            self.write(addr, r);
        }
    }

    /// Shifts right; bit 0 goes to C.
    pub fn lsr(&mut self, addr: u16, addr_mode: AddressingMode)
        requires
            old(self).wf(),
        ensures
            final(self).wf(),
            final(self).cycles == old(self).cycles,
            final(self).stall == old(self).stall,
            addr_mode == AddressingMode::Accumulator ==> *final(self) == with_zn(
                CPU { a: (old(self).a / 2) as u8, c: old(self).a % 2 == 1, ..*old(self) },
                (old(self).a / 2) as u8,
            ),
            addr_mode != AddressingMode::Accumulator && addr <= 0x1fff ==> {
                let m = old(self).bus.ram@[(addr % 0x800) as int];
                &&& final(self).bus.ram@ == old(self).bus.ram@.update((addr % 0x800) as int, (m / 2) as u8)
                &&& final(self).bus == (BUS { ram: final(self).bus.ram, ..old(self).bus })
                &&& *final(self) == with_zn(
                    CPU { c: m % 2 == 1, bus: final(self).bus, ..*old(self) },
                    (m / 2) as u8,
                )
            },
    {
        let m = if addr_mode == AddressingMode::Accumulator {
            self.a
        } else {
            self.read(addr)
        };
        let r: u8 = (m / 2) as u8;
        self.c = m % 2 == 1;
        self.update_zn_flags(r);
        if addr_mode == AddressingMode::Accumulator {
            self.a = r;
        } else {
            self.write(addr, r);
        }
    }

    /// Rotates left through C.
    pub fn rol(&mut self, addr: u16, addr_mode: AddressingMode)
        requires
            old(self).wf(),
        ensures
            final(self).wf(),
            final(self).cycles == old(self).cycles,
            final(self).stall == old(self).stall,
            addr_mode == AddressingMode::Accumulator ==> *final(self) == with_zn(
                CPU { a: ((old(self).a as int * 2) % 256 + if old(self).c { 1int } else { 0int }) as u8, c: old(self).a >= 0x80, ..*old(self) },
                ((old(self).a as int * 2) % 256 + if old(self).c { 1int } else { 0int }) as u8,
            ),
            addr_mode != AddressingMode::Accumulator && addr <= 0x1fff ==> {
                let m = old(self).bus.ram@[(addr % 0x800) as int];
                &&& final(self).bus.ram@ == old(self).bus.ram@.update((addr % 0x800) as int, ((m as int * 2) % 256 + if old(self).c { 1int } else { 0int }) as u8)
                &&& final(self).bus == (BUS { ram: final(self).bus.ram, ..old(self).bus })
                &&& *final(self) == with_zn(
                    CPU { c: m >= 0x80, bus: final(self).bus, ..*old(self) },
                    ((m as int * 2) % 256 + if old(self).c { 1int } else { 0int }) as u8,
                )
            },
    {
        let m = if addr_mode == AddressingMode::Accumulator {
            self.a
        } else {
            self.read(addr)
        };
        let r: u8 = ((m as u16 * 2) % 256 + if self.c { 1u16 } else { 0u16 }) as u8;
        self.c = m >= 0x80;
        self.update_zn_flags(r);
        if addr_mode == AddressingMode::Accumulator {
            self.a = r;
        } else {
            self.write(addr, r);
        }
    }

    /// Rotates right through C.
    pub fn ror(&mut self, addr: u16, addr_mode: AddressingMode)
        requires
            old(self).wf(),
        ensures
            final(self).wf(),
            final(self).cycles == old(self).cycles,
            final(self).stall == old(self).stall,
            addr_mode == AddressingMode::Accumulator ==> *final(self) == with_zn(
                CPU { a: (old(self).a / 2 + if old(self).c { 128int } else { 0int }) as u8, c: old(self).a % 2 == 1, ..*old(self) },
                (old(self).a / 2 + if old(self).c { 128int } else { 0int }) as u8,
            ),
            addr_mode != AddressingMode::Accumulator && addr <= 0x1fff ==> {
                let m = old(self).bus.ram@[(addr % 0x800) as int];
                &&& final(self).bus.ram@ == old(self).bus.ram@.update((addr % 0x800) as int, (m / 2 + if old(self).c { 128int } else { 0int }) as u8)
                &&& final(self).bus == (BUS { ram: final(self).bus.ram, ..old(self).bus })
                &&& *final(self) == with_zn(
                    CPU { c: m % 2 == 1, bus: final(self).bus, ..*old(self) },
                    (m / 2 + if old(self).c { 128int } else { 0int }) as u8,
                )
            },
    {
        let m = if addr_mode == AddressingMode::Accumulator {
            self.a
        } else {
            self.read(addr)
        };
        let r: u8 = (m / 2 + if self.c { 128u8 } else { 0u8 }) as u8;
        self.c = m % 2 == 1;
        self.update_zn_flags(r);
        if addr_mode == AddressingMode::Accumulator {
            self.a = r;
        } else {
            self.write(addr, r);
        }
    }

    /// Increments memory.
    pub fn inc(&mut self, addr: u16)
        requires
            old(self).wf(),
        ensures
            final(self).wf(),
            final(self).cycles == old(self).cycles,
            final(self).stall == old(self).stall,
            addr <= 0x1fff ==> {
                let m = old(self).bus.ram@[(addr % 0x800) as int];
                &&& final(self).bus.ram@ == old(self).bus.ram@.update((addr % 0x800) as int, ((m + 1) % 256) as u8)
                &&& final(self).bus == (BUS { ram: final(self).bus.ram, ..old(self).bus })
                &&& *final(self) == with_zn(CPU { bus: final(self).bus, ..*old(self) }, ((m + 1) % 256) as u8)
            },
    {
        let m = self.read(addr);
        let r: u8 = m.wrapping_add(1);
        self.write(addr, r);
        self.update_zn_flags(r);
    }

    /// Decrements memory.
    pub fn dec(&mut self, addr: u16)
        requires
            old(self).wf(),
        ensures
            final(self).wf(),
            final(self).cycles == old(self).cycles,
            final(self).stall == old(self).stall,
            addr <= 0x1fff ==> {
                let m = old(self).bus.ram@[(addr % 0x800) as int];
                &&& final(self).bus.ram@ == old(self).bus.ram@.update((addr % 0x800) as int, ((m + 255) % 256) as u8)
                &&& final(self).bus == (BUS { ram: final(self).bus.ram, ..old(self).bus })
                &&& *final(self) == with_zn(CPU { bus: final(self).bus, ..*old(self) }, ((m + 255) % 256) as u8)
            },
    {
        let m = self.read(addr);
        let r: u8 = m.wrapping_sub(1);
        self.write(addr, r);
        self.update_zn_flags(r);
    }

    /// The adder shared by ADC and SBC.
    fn add_with_carry(&mut self, m: u8)
        ensures
            *final(self) == after_adc(*old(self), m),
    {
        let s: u16 = self.a as u16 + m as u16 + if self.c {
            1
        } else {
            0
        };
        let r = (s % 256) as u8;
        self.v = ((self.a ^ m) & 0x80 == 0) && ((self.a ^ r) & 0x80 != 0);
        self.c = s > 255;
        self.a = r;
        self.update_zn_flags(r);
    }

    /// The comparison shared by CMP, CPX and CPY.
    fn compare(&mut self, reg: u8, m: u8)
        ensures
            *final(self) == after_compare(*old(self), reg, m),
    {
        let d = reg.wrapping_sub(m);
        self.c = reg >= m;
        self.update_zn_flags(d);
    }

    /// Copies A to X.
    pub fn tax(&mut self)
        ensures
            *final(self) == with_zn(CPU { x: old(self).a, ..*old(self) }, old(self).a),
    {
        self.x = self.a;
        self.update_zn_flags(self.x);
    }

    /// Copies A to Y.
    pub fn tay(&mut self)
        ensures
            *final(self) == with_zn(CPU { y: old(self).a, ..*old(self) }, old(self).a),
    {
        self.y = self.a;
        self.update_zn_flags(self.y);
    }

    /// Copies X to A.
    pub fn txa(&mut self)
        ensures
            *final(self) == with_zn(CPU { a: old(self).x, ..*old(self) }, old(self).x),
    {
        self.a = self.x;
        self.update_zn_flags(self.a);
    }

    /// Copies Y to A.
    pub fn tya(&mut self)
        ensures
            *final(self) == with_zn(CPU { a: old(self).y, ..*old(self) }, old(self).y),
    {
        self.a = self.y;
        self.update_zn_flags(self.a);
    }

    /// Copies SP to X.
    pub fn tsx(&mut self)
        ensures
            *final(self) == with_zn(CPU { x: old(self).sp, ..*old(self) }, old(self).sp),
    {
        self.x = self.sp;
        self.update_zn_flags(self.x);
    }

    /// Copies X to SP.
    pub fn txs(&mut self)
        ensures
            *final(self) == (CPU { sp: old(self).x, ..*old(self) }),
    {
        self.sp = self.x;
    }

    /// Increments X.
    pub fn inx(&mut self)
        ensures
            *final(self) == with_zn(CPU { x: ((old(self).x + 1) % 256) as u8, ..*old(self) }, ((old(self).x + 1) % 256) as u8),
    {
        self.x = self.x.wrapping_add(1);
        self.update_zn_flags(self.x);
    }

    /// Increments Y.
    pub fn iny(&mut self)
        ensures
            *final(self) == with_zn(CPU { y: ((old(self).y + 1) % 256) as u8, ..*old(self) }, ((old(self).y + 1) % 256) as u8),
    {
        self.y = self.y.wrapping_add(1);
        self.update_zn_flags(self.y);
    }

    /// Decrements X.
    pub fn dex(&mut self)
        ensures
            *final(self) == with_zn(CPU { x: ((old(self).x + 255) % 256) as u8, ..*old(self) }, ((old(self).x + 255) % 256) as u8),
    {
        self.x = self.x.wrapping_sub(1);
        self.update_zn_flags(self.x);
    }

    /// Decrements Y.
    pub fn dey(&mut self)
        ensures
            *final(self) == with_zn(CPU { y: ((old(self).y + 255) % 256) as u8, ..*old(self) }, ((old(self).y + 255) % 256) as u8),
    {
        self.y = self.y.wrapping_sub(1);
        self.update_zn_flags(self.y);
    }

    /// Clears C.
    pub fn clc(&mut self)
        ensures
            *final(self) == (CPU { c: false, ..*old(self) }),
    {
        self.c = false;
    }

    /// Clears D.
    pub fn cld(&mut self)
        ensures
            *final(self) == (CPU { d: false, ..*old(self) }),
    {
        self.d = false;
    }

    /// Clears I.
    pub fn cli(&mut self)
        ensures
            *final(self) == (CPU { i: false, ..*old(self) }),
    {
        self.i = false;
    }

    /// Clears V.
    pub fn clv(&mut self)
        ensures
            *final(self) == (CPU { v: false, ..*old(self) }),
    {
        self.v = false;
    }

    /// Sets C.
    pub fn sec(&mut self)
        ensures
            *final(self) == (CPU { c: true, ..*old(self) }),
    {
        self.c = true;
    }

    /// Sets D.
    pub fn sed(&mut self)
        ensures
            *final(self) == (CPU { d: true, ..*old(self) }),
    {
        self.d = true;
    }

    /// Sets I.
    pub fn sei(&mut self)
        ensures
            *final(self) == (CPU { i: true, ..*old(self) }),
    {
        self.i = true;
    }

    /// Jumps to `new_addr`: one extra cycle, two if the page changes.
    pub fn branch(&mut self, new_addr: u16)
        ensures
            *final(self) == (CPU {
                pc: new_addr,
                cycles: wrap32(old(self).cycles + 1 + if old(self).pc / 256 != new_addr / 256 {
                    1int
                } else {
                    0int
                }),
                ..*old(self)
            }),
    {
        let old_addr = self.pc;
        self.pc = new_addr;
        self.cycles = self.cycles.wrapping_add(1);
        if old_addr / 256 != new_addr / 256 {
            self.cycles = self.cycles.wrapping_add(1);
        }
    }

    /// Branches when !n.
    pub fn bpl(&mut self, new_addr: u16)
        ensures
            !old(self).n ==> *final(self) == (CPU {
                pc: new_addr,
                cycles: wrap32(old(self).cycles + 1 + if old(self).pc / 256 != new_addr / 256 {
                    1int
                } else {
                    0int
                }),
                ..*old(self)
            }),
            !(!old(self).n) ==> *final(self) == *old(self),
    {
        if !self.n {
            self.branch(new_addr);
        }
    }

    /// Branches when n.
    pub fn bmi(&mut self, new_addr: u16)
        ensures
            old(self).n ==> *final(self) == (CPU {
                pc: new_addr,
                cycles: wrap32(old(self).cycles + 1 + if old(self).pc / 256 != new_addr / 256 {
                    1int
                } else {
                    0int
                }),
                ..*old(self)
            }),
            !(old(self).n) ==> *final(self) == *old(self),
    {
        if self.n {
            self.branch(new_addr);
        }
    }

    /// Branches when !v.
    pub fn bvc(&mut self, new_addr: u16)
        ensures
            !old(self).v ==> *final(self) == (CPU {
                pc: new_addr,
                cycles: wrap32(old(self).cycles + 1 + if old(self).pc / 256 != new_addr / 256 {
                    1int
                } else {
                    0int
                }),
                ..*old(self)
            }),
            !(!old(self).v) ==> *final(self) == *old(self),
    {
        if !self.v {
            self.branch(new_addr);
        }
    }

    /// Branches when v.
    pub fn bvs(&mut self, new_addr: u16)
        ensures
            old(self).v ==> *final(self) == (CPU {
                pc: new_addr,
                cycles: wrap32(old(self).cycles + 1 + if old(self).pc / 256 != new_addr / 256 {
                    1int
                } else {
                    0int
                }),
                ..*old(self)
            }),
            !(old(self).v) ==> *final(self) == *old(self),
    {
        if self.v {
            self.branch(new_addr);
        }
    }

    /// Branches when !c.
    pub fn bcc(&mut self, new_addr: u16)
        ensures
            !old(self).c ==> *final(self) == (CPU {
                pc: new_addr,
                cycles: wrap32(old(self).cycles + 1 + if old(self).pc / 256 != new_addr / 256 {
                    1int
                } else {
                    0int
                }),
                ..*old(self)
            }),
            !(!old(self).c) ==> *final(self) == *old(self),
    {
        if !self.c {
            self.branch(new_addr);
        }
    }

    /// Branches when c.
    pub fn bcs(&mut self, new_addr: u16)
        ensures
            old(self).c ==> *final(self) == (CPU {
                pc: new_addr,
                cycles: wrap32(old(self).cycles + 1 + if old(self).pc / 256 != new_addr / 256 {
                    1int
                } else {
                    0int
                }),
                ..*old(self)
            }),
            !(old(self).c) ==> *final(self) == *old(self),
    {
        if self.c {
            self.branch(new_addr);
        }
    }

    /// Branches when !z.
    pub fn bne(&mut self, new_addr: u16)
        ensures
            !old(self).z ==> *final(self) == (CPU {
                pc: new_addr,
                cycles: wrap32(old(self).cycles + 1 + if old(self).pc / 256 != new_addr / 256 {
                    1int
                } else {
                    0int
                }),
                ..*old(self)
            }),
            !(!old(self).z) ==> *final(self) == *old(self),
    {
        if !self.z {
            self.branch(new_addr);
        }
    }

    /// Branches when z.
    pub fn beq(&mut self, new_addr: u16)
        ensures
            old(self).z ==> *final(self) == (CPU {
                pc: new_addr,
                cycles: wrap32(old(self).cycles + 1 + if old(self).pc / 256 != new_addr / 256 {
                    1int
                } else {
                    0int
                }),
                ..*old(self)
            }),
            !(old(self).z) ==> *final(self) == *old(self),
    {
        if self.z {
            self.branch(new_addr);
        }
    }

    pub fn jmp(&mut self, addr: u16)
        ensures
            *final(self) == (CPU { pc: addr, ..*old(self) }),
    {
        self.pc = addr;
    }

    /// Pushes the address of the last byte of the JSR, then jumps.
    pub fn jsr(&mut self, addr: u16)
        requires
            old(self).wf(),
        ensures
            final(self).wf(),
            final(self).cycles == old(self).cycles,
            final(self).stall == old(self).stall,
            final(self).bus.ram@ == stack_push16(old(self).bus.ram@, old(self).sp, wrap16(old(self).pc - 1)),
            final(self).bus == (BUS { ram: final(self).bus.ram, ..old(self).bus }),
            *final(self) == (CPU {
                pc: addr,
                sp: ((old(self).sp + 254) % 256) as u8,
                bus: final(self).bus,
                ..*old(self)
            }),
    {
        let ret = self.pc.wrapping_sub(1);
        self.push_16(ret);
        self.pc = addr;
    }

    /// Returns to the pulled address plus one.
    pub fn rts(&mut self)
        requires
            old(self).wf(),
        ensures
            final(self).wf(),
            final(self).cycles == old(self).cycles,
            final(self).stall == old(self).stall,
            *final(self) == (CPU {
                pc: wrap16(stack_pull16(old(self).bus.ram@, old(self).sp) + 1),
                sp: ((old(self).sp + 2) % 256) as u8,
                ..*old(self)
            }),
    {
        let pc = self.pull_16();
        self.pc = pc.wrapping_add(1);
    }

    /// Software interrupt: pushes PC + 1 and the flags with B set, sets I
    /// and jumps through 0xFFFE.
    pub fn brk(&mut self)
        requires
            old(self).wf(),
        ensures
            final(self).wf(),
            final(self).cycles == old(self).cycles,
            final(self).stall == old(self).stall,
            final(self).i && final(self).b,
            final(self).sp == ((old(self).sp + 253) % 256) as u8,
            final(self).bus.ram@ == stack_push16(old(self).bus.ram@, old(self).sp, wrap16(old(self).pc + 1)).update(
                0x100 + (old(self).sp + 254) % 256,
                flags_byte(CPU { b: true, ..*old(self) }) | 0x10,
            ),
    {
        let pc = self.pc.wrapping_add(1);
        self.push_16(pc);
        self.b = true;
        let f = self.get_flags() | 0x10;
        self.push_8(f);
        self.i = true;
        self.pc = self.read_16(0xfffe);
    }

    /// Returns from an interrupt: flags (B cleared, U set), then PC.
    pub fn rti(&mut self)
        requires
            old(self).wf(),
        ensures
            final(self).wf(),
            final(self).cycles == old(self).cycles,
            final(self).stall == old(self).stall,
            *final(self) == (CPU {
                pc: stack_pull16(old(self).bus.ram@, ((old(self).sp + 1) % 256) as u8),
                sp: ((old(self).sp + 3) % 256) as u8,
                ..with_flags(*old(self), (old(self).stack_top() & 0xef) | 0x20)
            }),
    {
        let f = (self.pull_8() & 0xef) | 0x20;
        self.set_flags(f);
        self.pc = self.pull_16();
    }

    /// The byte just above the stack pointer.
    pub open spec fn stack_top(&self) -> u8 {
        self.bus.ram@[0x100 + (self.sp + 1) % 256]
    }

    pub fn pha(&mut self)
        requires
            old(self).wf(),
        ensures
            final(self).wf(),
            final(self).cycles == old(self).cycles,
            final(self).stall == old(self).stall,
            final(self).bus.ram@ == old(self).bus.ram@.update(0x100 + old(self).sp, old(self).a),
            *final(self) == (CPU {
                sp: ((old(self).sp + 255) % 256) as u8,
                bus: final(self).bus,
                ..*old(self)
            }),
    {
        let a = self.a;
        self.push_8(a);
    }

    /// Pushes the flags with B and U set.
    pub fn php(&mut self)
        requires
            old(self).wf(),
        ensures
            final(self).wf(),
            final(self).cycles == old(self).cycles,
            final(self).stall == old(self).stall,
            final(self).bus.ram@ == old(self).bus.ram@.update(
                0x100 + old(self).sp,
                flags_byte(*old(self)) | 0x30,
            ),
            *final(self) == (CPU {
                sp: ((old(self).sp + 255) % 256) as u8,
                bus: final(self).bus,
                ..*old(self)
            }),
    {
        let f = self.get_flags() | 0x30;
        self.push_8(f);
    }

    pub fn pla(&mut self)
        requires
            old(self).wf(),
        ensures
            final(self).wf(),
            final(self).cycles == old(self).cycles,
            final(self).stall == old(self).stall,
            *final(self) == with_zn(
                CPU { a: old(self).stack_top(), sp: ((old(self).sp + 1) % 256) as u8, ..*old(self) },
                old(self).stack_top(),
            ),
    {
        let v = self.pull_8();
        self.a = v;
        self.update_zn_flags(v);
    }

    /// Pulls the flags; B is cleared and U set.
    pub fn plp(&mut self)
        requires
            old(self).wf(),
        ensures
            final(self).wf(),
            final(self).cycles == old(self).cycles,
            final(self).stall == old(self).stall,
            *final(self) == with_flags(
                CPU { sp: ((old(self).sp + 1) % 256) as u8, ..*old(self) },
                (old(self).stack_top() & 0xef) | 0x20,
            ),
    {
        let f = (self.pull_8() & 0xef) | 0x20;
        self.set_flags(f);
    }

    /// DEC then CMP.
    pub fn dcp(&mut self, addr: u16)
        requires
            old(self).wf(),
        ensures
            final(self).wf(),
            final(self).cycles == old(self).cycles,
            final(self).stall == old(self).stall,
    {
        self.dec(addr);
        self.cmp(addr);
    }

    /// INC then SBC.
    pub fn isb(&mut self, addr: u16)
        requires
            old(self).wf(),
        ensures
            final(self).wf(),
            final(self).cycles == old(self).cycles,
            final(self).stall == old(self).stall,
    {
        self.inc(addr);
        self.sbc(addr);
    }

    /// ASL then ORA.
    pub fn slo(&mut self, addr: u16)
        requires
            old(self).wf(),
        ensures
            final(self).wf(),
            final(self).cycles == old(self).cycles,
            final(self).stall == old(self).stall,
    {
        self.asl(addr, AddressingMode::Absolute);
        self.ora(addr);
    }

    /// ROL then AND.
    pub fn rla(&mut self, addr: u16)
        requires
            old(self).wf(),
        ensures
            final(self).wf(),
            final(self).cycles == old(self).cycles,
            final(self).stall == old(self).stall,
    {
        self.rol(addr, AddressingMode::Absolute);
        self.and(addr);
    }

    /// LSR then EOR.
    pub fn sre(&mut self, addr: u16)
        requires
            old(self).wf(),
        ensures
            final(self).wf(),
            final(self).cycles == old(self).cycles,
            final(self).stall == old(self).stall,
    {
        self.lsr(addr, AddressingMode::Absolute);
        self.eor(addr);
    }

    /// ROR then ADC.
    pub fn rra(&mut self, addr: u16)
        requires
            old(self).wf(),
        ensures
            final(self).wf(),
            final(self).cycles == old(self).cycles,
            final(self).stall == old(self).stall,
    {
        self.ror(addr, AddressingMode::Absolute);
        self.adc(addr);
    }

}

} // verus!
