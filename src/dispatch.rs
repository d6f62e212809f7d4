//! Instruction dispatch: what each opcode kind does to the CPU.
use vstd::prelude::*;
use crate::bus::BUS;
use crate::cpu::{
    CPU, flags_byte, stack_pull16, stack_push16, with_flags, with_zn, wrap16, wrap32,
};
use crate::execute::is_branch;
use crate::instructions::{after_adc, after_compare, after_sbc};
use crate::opcodes::{AddressingMode, Instruction};

verus! {

/// `f` is `o` after instruction `i` ran with operand address `addr` and
/// addressing mode `mode` (PC already past the instruction, cycles not yet
/// charged). Where an operand read has side effects the instruction's own
/// contract leaves the outcome open, and so does this.
#[verifier::opaque]
pub open spec fn executed(i: Instruction, o: CPU, f: CPU, addr: u16, mode: AddressingMode) -> bool {
    match i {
        Instruction::AND => ((o.bus.peek(addr) matches Some(m) ==> f == with_zn(CPU { a: o.a & m, ..o }, o.a & m))),
        Instruction::EOR => ((o.bus.peek(addr) matches Some(m) ==> f == with_zn(CPU { a: o.a ^ m, ..o }, o.a ^ m))),
        Instruction::ORA => ((o.bus.peek(addr) matches Some(m) ==> f == with_zn(CPU { a: o.a | m, ..o }, o.a | m))),
        Instruction::ASL => ((mode == AddressingMode::Accumulator ==> f == with_zn( CPU { a: ((o.a as int * 2) % 256) as u8, c: o.a >= 0x80, ..o }, ((o.a as int * 2) % 256) as u8, )) && (mode != AddressingMode::Accumulator && addr <= 0x1fff ==> { let m = o.bus.ram@[(addr % 0x800) as int]; &&& f.bus.ram@ == o.bus.ram@.update((addr % 0x800) as int, ((m as int * 2) % 256) as u8) &&& f.bus == (BUS { ram: f.bus.ram, ..o.bus }) &&& f == with_zn( CPU { c: m >= 0x80, bus: f.bus, ..o }, ((m as int * 2) % 256) as u8, ) })),
        Instruction::LSR => ((mode == AddressingMode::Accumulator ==> f == with_zn( CPU { a: (o.a / 2) as u8, c: o.a % 2 == 1, ..o }, (o.a / 2) as u8, )) && (mode != AddressingMode::Accumulator && addr <= 0x1fff ==> { let m = o.bus.ram@[(addr % 0x800) as int]; &&& f.bus.ram@ == o.bus.ram@.update((addr % 0x800) as int, (m / 2) as u8) &&& f.bus == (BUS { ram: f.bus.ram, ..o.bus }) &&& f == with_zn( CPU { c: m % 2 == 1, bus: f.bus, ..o }, (m / 2) as u8, ) })),
        Instruction::ROL => ((mode == AddressingMode::Accumulator ==> f == with_zn( CPU { a: ((o.a as int * 2) % 256 + if o.c { 1int } else { 0int }) as u8, c: o.a >= 0x80, ..o }, ((o.a as int * 2) % 256 + if o.c { 1int } else { 0int }) as u8, )) && (mode != AddressingMode::Accumulator && addr <= 0x1fff ==> { let m = o.bus.ram@[(addr % 0x800) as int]; &&& f.bus.ram@ == o.bus.ram@.update((addr % 0x800) as int, ((m as int * 2) % 256 + if o.c { 1int } else { 0int }) as u8) &&& f.bus == (BUS { ram: f.bus.ram, ..o.bus }) &&& f == with_zn( CPU { c: m >= 0x80, bus: f.bus, ..o }, ((m as int * 2) % 256 + if o.c { 1int } else { 0int }) as u8, ) })),
        Instruction::ROR => ((mode == AddressingMode::Accumulator ==> f == with_zn( CPU { a: (o.a / 2 + if o.c { 128int } else { 0int }) as u8, c: o.a % 2 == 1, ..o }, (o.a / 2 + if o.c { 128int } else { 0int }) as u8, )) && (mode != AddressingMode::Accumulator && addr <= 0x1fff ==> { let m = o.bus.ram@[(addr % 0x800) as int]; &&& f.bus.ram@ == o.bus.ram@.update((addr % 0x800) as int, (m / 2 + if o.c { 128int } else { 0int }) as u8) &&& f.bus == (BUS { ram: f.bus.ram, ..o.bus }) &&& f == with_zn( CPU { c: m % 2 == 1, bus: f.bus, ..o }, (m / 2 + if o.c { 128int } else { 0int }) as u8, ) })),
        Instruction::BPL => ((!o.n ==> f == (CPU { pc: addr, cycles: wrap32(o.cycles + 1 + if o.pc / 256 != addr / 256 { 1int } else { 0int }), ..o })) && (!(!o.n) ==> f == o)),
        Instruction::BMI => ((o.n ==> f == (CPU { pc: addr, cycles: wrap32(o.cycles + 1 + if o.pc / 256 != addr / 256 { 1int } else { 0int }), ..o })) && (!(o.n) ==> f == o)),
        Instruction::BVC => ((!o.v ==> f == (CPU { pc: addr, cycles: wrap32(o.cycles + 1 + if o.pc / 256 != addr / 256 { 1int } else { 0int }), ..o })) && (!(!o.v) ==> f == o)),
        Instruction::BVS => ((o.v ==> f == (CPU { pc: addr, cycles: wrap32(o.cycles + 1 + if o.pc / 256 != addr / 256 { 1int } else { 0int }), ..o })) && (!(o.v) ==> f == o)),
        Instruction::BCC => ((!o.c ==> f == (CPU { pc: addr, cycles: wrap32(o.cycles + 1 + if o.pc / 256 != addr / 256 { 1int } else { 0int }), ..o })) && (!(!o.c) ==> f == o)),
        Instruction::BCS => ((o.c ==> f == (CPU { pc: addr, cycles: wrap32(o.cycles + 1 + if o.pc / 256 != addr / 256 { 1int } else { 0int }), ..o })) && (!(o.c) ==> f == o)),
        Instruction::BNE => ((!o.z ==> f == (CPU { pc: addr, cycles: wrap32(o.cycles + 1 + if o.pc / 256 != addr / 256 { 1int } else { 0int }), ..o })) && (!(!o.z) ==> f == o)),
        Instruction::BEQ => ((o.z ==> f == (CPU { pc: addr, cycles: wrap32(o.cycles + 1 + if o.pc / 256 != addr / 256 { 1int } else { 0int }), ..o })) && (!(o.z) ==> f == o)),
        Instruction::CMP => ((o.bus.peek(addr) matches Some(m) ==> f == after_compare(o, o.a, m))),
        Instruction::CPX => ((o.bus.peek(addr) matches Some(m) ==> f == after_compare(o, o.x, m))),
        Instruction::CPY => ((o.bus.peek(addr) matches Some(m) ==> f == after_compare(o, o.y, m))),
        Instruction::BIT => ((o.bus.peek(addr) matches Some(m) ==> f == (CPU { z: o.a & m == 0, v: m & 0x40 != 0, n: m & 0x80 != 0, ..o }))),
        Instruction::CLC => ((f == (CPU { c: false, ..o }))),
        Instruction::CLD => ((f == (CPU { d: false, ..o }))),
        Instruction::CLI => ((f == (CPU { i: false, ..o }))),
        Instruction::CLV => ((f == (CPU { v: false, ..o }))),
        Instruction::SEC => ((f == (CPU { c: true, ..o }))),
        Instruction::SED => ((f == (CPU { d: true, ..o }))),
        Instruction::SEI => ((f == (CPU { i: true, ..o }))),
        Instruction::JMP => ((f == (CPU { pc: addr, ..o }))),
        Instruction::JSR => ((f.bus.ram@ == stack_push16(o.bus.ram@, o.sp, wrap16(o.pc - 1))) && (f.bus == (BUS { ram: f.bus.ram, ..o.bus })) && (f == (CPU { pc: addr, sp: ((o.sp + 254) % 256) as u8, bus: f.bus, ..o }))),
        Instruction::RTI => ((f == (CPU { pc: stack_pull16(o.bus.ram@, ((o.sp + 1) % 256) as u8), sp: ((o.sp + 3) % 256) as u8, ..with_flags(o, (o.stack_top() & 0xef) | 0x20) }))),
        Instruction::RTS => ((f == (CPU { pc: wrap16(stack_pull16(o.bus.ram@, o.sp) + 1), sp: ((o.sp + 2) % 256) as u8, ..o }))),
        Instruction::ADC => ((o.bus.peek(addr) matches Some(m) ==> f == after_adc(o, m))),
        Instruction::SBC => ((o.bus.peek(addr) matches Some(m) ==> f == after_sbc(o, m))),
        Instruction::LDA => ((o.bus.peek(addr) matches Some(m) ==> f == with_zn(CPU { a: m, ..o }, m))),
        Instruction::LDX => ((o.bus.peek(addr) matches Some(m) ==> f == with_zn(CPU { x: m, ..o }, m))),
        Instruction::LDY => ((o.bus.peek(addr) matches Some(m) ==> f == with_zn(CPU { y: m, ..o }, m))),
        Instruction::STA => ((f == (CPU { bus: f.bus, ..o })) && (addr <= 0x1fff ==> f.bus.ram@ == o.bus.ram@.update( (addr % 0x800) as int, o.a, ))),
        Instruction::STX => ((f == (CPU { bus: f.bus, ..o })) && (addr <= 0x1fff ==> f.bus.ram@ == o.bus.ram@.update( (addr % 0x800) as int, o.x, ))),
        Instruction::STY => ((f == (CPU { bus: f.bus, ..o })) && (addr <= 0x1fff ==> f.bus.ram@ == o.bus.ram@.update( (addr % 0x800) as int, o.y, ))),
        Instruction::INC => ((addr <= 0x1fff ==> { let m = o.bus.ram@[(addr % 0x800) as int]; &&& f.bus.ram@ == o.bus.ram@.update((addr % 0x800) as int, ((m + 1) % 256) as u8) &&& f.bus == (BUS { ram: f.bus.ram, ..o.bus }) &&& f == with_zn(CPU { bus: f.bus, ..o }, ((m + 1) % 256) as u8) })),
        Instruction::DEC => ((addr <= 0x1fff ==> { let m = o.bus.ram@[(addr % 0x800) as int]; &&& f.bus.ram@ == o.bus.ram@.update((addr % 0x800) as int, ((m + 255) % 256) as u8) &&& f.bus == (BUS { ram: f.bus.ram, ..o.bus }) &&& f == with_zn(CPU { bus: f.bus, ..o }, ((m + 255) % 256) as u8) })),
        Instruction::TAX => ((f == with_zn(CPU { x: o.a, ..o }, o.a))),
        Instruction::TAY => ((f == with_zn(CPU { y: o.a, ..o }, o.a))),
        Instruction::TXA => ((f == with_zn(CPU { a: o.x, ..o }, o.x))),
        Instruction::TYA => ((f == with_zn(CPU { a: o.y, ..o }, o.y))),
        Instruction::INX => ((f == with_zn(CPU { x: ((o.x + 1) % 256) as u8, ..o }, ((o.x + 1) % 256) as u8))),
        Instruction::INY => ((f == with_zn(CPU { y: ((o.y + 1) % 256) as u8, ..o }, ((o.y + 1) % 256) as u8))),
        Instruction::DEX => ((f == with_zn(CPU { x: ((o.x + 255) % 256) as u8, ..o }, ((o.x + 255) % 256) as u8))),
        Instruction::DEY => ((f == with_zn(CPU { y: ((o.y + 255) % 256) as u8, ..o }, ((o.y + 255) % 256) as u8))),
        Instruction::TXS => ((f == (CPU { sp: o.x, ..o }))),
        Instruction::TSX => ((f == with_zn(CPU { x: o.sp, ..o }, o.sp))),
        Instruction::PHA => ((f.bus.ram@ == o.bus.ram@.update(0x100 + o.sp, o.a)) && (f == (CPU { sp: ((o.sp + 255) % 256) as u8, bus: f.bus, ..o }))),
        Instruction::PHP => ((f.bus.ram@ == o.bus.ram@.update( 0x100 + o.sp, flags_byte(o) | 0x30, )) && (f == (CPU { sp: ((o.sp + 255) % 256) as u8, bus: f.bus, ..o }))),
        Instruction::PLA => ((f == with_zn( CPU { a: o.stack_top(), sp: ((o.sp + 1) % 256) as u8, ..o }, o.stack_top(), ))),
        Instruction::PLP => ((f == with_flags( CPU { sp: ((o.sp + 1) % 256) as u8, ..o }, (o.stack_top() & 0xef) | 0x20, ))),
        Instruction::BRK => ((f.i && f.b) && (f.sp == ((o.sp + 253) % 256) as u8) && (f.bus.ram@ == stack_push16(o.bus.ram@, o.sp, wrap16(o.pc + 1)).update( 0x100 + (o.sp + 254) % 256, flags_byte(CPU { b: true, ..o }) | 0x10, ))),
        Instruction::LAX => ((o.bus.peek(addr) matches Some(m) ==> f == with_zn(CPU { a: m, x: m, ..o }, m))),
        Instruction::SAX => ((f == (CPU { bus: f.bus, ..o })) && (addr <= 0x1fff ==> f.bus.ram@ == o.bus.ram@.update( (addr % 0x800) as int, o.a & o.x, ))),
        Instruction::DCP | Instruction::ISB | Instruction::SLO | Instruction::RLA
        | Instruction::SRE | Instruction::RRA => true,
        _ => f == o,
    }
}

impl Instruction {
    /// The opcode kinds that only take their time.
    fn run_none(i: Instruction, cpu: &mut CPU, addr: u16, mode: AddressingMode)
        requires
            !((i == Instruction::AND || i == Instruction::EOR || i == Instruction::ORA || i == Instruction::ASL || i == Instruction::LSR || i == Instruction::ROL || i == Instruction::ROR || i == Instruction::BPL || i == Instruction::BMI || i == Instruction::BVC) || (i == Instruction::BVS || i == Instruction::BCC || i == Instruction::BCS || i == Instruction::BNE || i == Instruction::BEQ || i == Instruction::CMP || i == Instruction::CPX || i == Instruction::CPY || i == Instruction::BIT || i == Instruction::CLC) || (i == Instruction::CLD || i == Instruction::CLI || i == Instruction::CLV || i == Instruction::SEC || i == Instruction::SED || i == Instruction::SEI || i == Instruction::JMP || i == Instruction::JSR || i == Instruction::RTI || i == Instruction::RTS) || (i == Instruction::ADC || i == Instruction::SBC || i == Instruction::LDA || i == Instruction::LDX || i == Instruction::LDY || i == Instruction::STA || i == Instruction::STX || i == Instruction::STY || i == Instruction::INC || i == Instruction::DEC) || (i == Instruction::TAX || i == Instruction::TAY || i == Instruction::TXA || i == Instruction::TYA || i == Instruction::INX || i == Instruction::INY || i == Instruction::DEX || i == Instruction::DEY || i == Instruction::TXS || i == Instruction::TSX) || (i == Instruction::PHA || i == Instruction::PHP || i == Instruction::PLA || i == Instruction::PLP || i == Instruction::BRK || i == Instruction::DCP || i == Instruction::ISB || i == Instruction::LAX || i == Instruction::RLA || i == Instruction::RRA) || (i == Instruction::SAX || i == Instruction::SLO || i == Instruction::SRE)),
            old(cpu).wf(),
        ensures
            final(cpu).wf(),
            final(cpu).stall == old(cpu).stall,
            !is_branch(i) ==> final(cpu).cycles == old(cpu).cycles,
            is_branch(i) ==> final(cpu).cycles == old(cpu).cycles || final(cpu).cycles == wrap32(
                old(cpu).cycles + 1 + if old(cpu).pc / 256 != addr / 256 {
                    1int
                } else {
                    0int
                },
            ),
            executed(i, *old(cpu), *final(cpu), addr, mode),
    {
        reveal(executed);
    }

    #[verifier::rlimit(100)]
    fn run_group_0(i: Instruction, cpu: &mut CPU, addr: u16, mode: AddressingMode)
        requires
            i == Instruction::AND || i == Instruction::EOR || i == Instruction::ORA || i == Instruction::ASL || i == Instruction::LSR || i == Instruction::ROL || i == Instruction::ROR || i == Instruction::BPL || i == Instruction::BMI || i == Instruction::BVC,
            old(cpu).wf(),
        ensures
            final(cpu).wf(),
            final(cpu).stall == old(cpu).stall,
            !is_branch(i) ==> final(cpu).cycles == old(cpu).cycles,
            is_branch(i) ==> final(cpu).cycles == old(cpu).cycles || final(cpu).cycles == wrap32(
                old(cpu).cycles + 1 + if old(cpu).pc / 256 != addr / 256 {
                    1int
                } else {
                    0int
                },
            ),
            executed(i, *old(cpu), *final(cpu), addr, mode),
    {
        reveal(executed);
        match i {
            Instruction::AND => cpu.and(addr),
            Instruction::EOR => cpu.eor(addr),
            Instruction::ORA => cpu.ora(addr),
            Instruction::ASL => cpu.asl(addr, mode),
            Instruction::LSR => cpu.lsr(addr, mode),
            Instruction::ROL => cpu.rol(addr, mode),
            Instruction::ROR => cpu.ror(addr, mode),
            Instruction::BPL => cpu.bpl(addr),
            Instruction::BMI => cpu.bmi(addr),
            Instruction::BVC => cpu.bvc(addr),
            _ => {},
        }
    }

    #[verifier::rlimit(100)]
    fn run_group_1(i: Instruction, cpu: &mut CPU, addr: u16, mode: AddressingMode)
        requires
            i == Instruction::BVS || i == Instruction::BCC || i == Instruction::BCS || i == Instruction::BNE || i == Instruction::BEQ || i == Instruction::CMP || i == Instruction::CPX || i == Instruction::CPY || i == Instruction::BIT || i == Instruction::CLC,
            old(cpu).wf(),
        ensures
            final(cpu).wf(),
            final(cpu).stall == old(cpu).stall,
            !is_branch(i) ==> final(cpu).cycles == old(cpu).cycles,
            is_branch(i) ==> final(cpu).cycles == old(cpu).cycles || final(cpu).cycles == wrap32(
                old(cpu).cycles + 1 + if old(cpu).pc / 256 != addr / 256 {
                    1int
                } else {
                    0int
                },
            ),
            executed(i, *old(cpu), *final(cpu), addr, mode),
    {
        reveal(executed);
        match i {
            Instruction::BVS => cpu.bvs(addr),
            Instruction::BCC => cpu.bcc(addr),
            Instruction::BCS => cpu.bcs(addr),
            Instruction::BNE => cpu.bne(addr),
            Instruction::BEQ => cpu.beq(addr),
            Instruction::CMP => cpu.cmp(addr),
            Instruction::CPX => cpu.cpx(addr),
            Instruction::CPY => cpu.cpy(addr),
            Instruction::BIT => cpu.bit(addr),
            Instruction::CLC => cpu.clc(),
            _ => {},
        }
    }

    #[verifier::rlimit(100)]
    fn run_group_2(i: Instruction, cpu: &mut CPU, addr: u16, mode: AddressingMode)
        requires
            i == Instruction::CLD || i == Instruction::CLI || i == Instruction::CLV || i == Instruction::SEC || i == Instruction::SED || i == Instruction::SEI || i == Instruction::JMP || i == Instruction::JSR || i == Instruction::RTI || i == Instruction::RTS,
            old(cpu).wf(),
        ensures
            final(cpu).wf(),
            final(cpu).stall == old(cpu).stall,
            !is_branch(i) ==> final(cpu).cycles == old(cpu).cycles,
            is_branch(i) ==> final(cpu).cycles == old(cpu).cycles || final(cpu).cycles == wrap32(
                old(cpu).cycles + 1 + if old(cpu).pc / 256 != addr / 256 {
                    1int
                } else {
                    0int
                },
            ),
            executed(i, *old(cpu), *final(cpu), addr, mode),
    {
        reveal(executed);
        match i {
            Instruction::CLD => cpu.cld(),
            Instruction::CLI => cpu.cli(),
            Instruction::CLV => cpu.clv(),
            Instruction::SEC => cpu.sec(),
            Instruction::SED => cpu.sed(),
            Instruction::SEI => cpu.sei(),
            Instruction::JMP => cpu.jmp(addr),
            Instruction::JSR => cpu.jsr(addr),
            Instruction::RTI => cpu.rti(),
            Instruction::RTS => cpu.rts(),
            _ => {},
        }
    }

    #[verifier::rlimit(100)]
    fn run_group_3(i: Instruction, cpu: &mut CPU, addr: u16, mode: AddressingMode)
        requires
            i == Instruction::ADC || i == Instruction::SBC || i == Instruction::LDA || i == Instruction::LDX || i == Instruction::LDY || i == Instruction::STA || i == Instruction::STX || i == Instruction::STY || i == Instruction::INC || i == Instruction::DEC,
            old(cpu).wf(),
        ensures
            final(cpu).wf(),
            final(cpu).stall == old(cpu).stall,
            !is_branch(i) ==> final(cpu).cycles == old(cpu).cycles,
            is_branch(i) ==> final(cpu).cycles == old(cpu).cycles || final(cpu).cycles == wrap32(
                old(cpu).cycles + 1 + if old(cpu).pc / 256 != addr / 256 {
                    1int
                } else {
                    0int
                },
            ),
            executed(i, *old(cpu), *final(cpu), addr, mode),
    {
        reveal(executed);
        match i {
            Instruction::ADC => cpu.adc(addr),
            Instruction::SBC => cpu.sbc(addr),
            Instruction::LDA => cpu.lda(addr),
            Instruction::LDX => cpu.ldx(addr),
            Instruction::LDY => cpu.ldy(addr),
            Instruction::STA => cpu.sta(addr),
            Instruction::STX => cpu.stx(addr),
            Instruction::STY => cpu.sty(addr),
            Instruction::INC => cpu.inc(addr),
            Instruction::DEC => cpu.dec(addr),
            _ => {},
        }
    }

    #[verifier::rlimit(100)]
    fn run_group_4(i: Instruction, cpu: &mut CPU, addr: u16, mode: AddressingMode)
        requires
            i == Instruction::TAX || i == Instruction::TAY || i == Instruction::TXA || i == Instruction::TYA || i == Instruction::INX || i == Instruction::INY || i == Instruction::DEX || i == Instruction::DEY || i == Instruction::TXS || i == Instruction::TSX,
            old(cpu).wf(),
        ensures
            final(cpu).wf(),
            final(cpu).stall == old(cpu).stall,
            !is_branch(i) ==> final(cpu).cycles == old(cpu).cycles,
            is_branch(i) ==> final(cpu).cycles == old(cpu).cycles || final(cpu).cycles == wrap32(
                old(cpu).cycles + 1 + if old(cpu).pc / 256 != addr / 256 {
                    1int
                } else {
                    0int
                },
            ),
            executed(i, *old(cpu), *final(cpu), addr, mode),
    {
        reveal(executed);
        match i {
            Instruction::TAX => cpu.tax(),
            Instruction::TAY => cpu.tay(),
            Instruction::TXA => cpu.txa(),
            Instruction::TYA => cpu.tya(),
            Instruction::INX => cpu.inx(),
            Instruction::INY => cpu.iny(),
            Instruction::DEX => cpu.dex(),
            Instruction::DEY => cpu.dey(),
            Instruction::TXS => cpu.txs(),
            Instruction::TSX => cpu.tsx(),
            _ => {},
        }
    }

    #[verifier::rlimit(100)]
    fn run_group_5(i: Instruction, cpu: &mut CPU, addr: u16, mode: AddressingMode)
        requires
            i == Instruction::PHA || i == Instruction::PHP || i == Instruction::PLA || i == Instruction::PLP || i == Instruction::BRK || i == Instruction::DCP || i == Instruction::ISB || i == Instruction::LAX || i == Instruction::RLA || i == Instruction::RRA,
            old(cpu).wf(),
        ensures
            final(cpu).wf(),
            final(cpu).stall == old(cpu).stall,
            !is_branch(i) ==> final(cpu).cycles == old(cpu).cycles,
            is_branch(i) ==> final(cpu).cycles == old(cpu).cycles || final(cpu).cycles == wrap32(
                old(cpu).cycles + 1 + if old(cpu).pc / 256 != addr / 256 {
                    1int
                } else {
                    0int
                },
            ),
            executed(i, *old(cpu), *final(cpu), addr, mode),
    {
        reveal(executed);
        match i {
            Instruction::PHA => cpu.pha(),
            Instruction::PHP => cpu.php(),
            Instruction::PLA => cpu.pla(),
            Instruction::PLP => cpu.plp(),
            Instruction::BRK => cpu.brk(),
            Instruction::DCP => cpu.dcp(addr),
            Instruction::ISB => cpu.isb(addr),
            Instruction::LAX => cpu.lax(addr),
            Instruction::RLA => cpu.rla(addr),
            Instruction::RRA => cpu.rra(addr),
            _ => {},
        }
    }

    #[verifier::rlimit(100)]
    fn run_group_6(i: Instruction, cpu: &mut CPU, addr: u16, mode: AddressingMode)
        requires
            i == Instruction::SAX || i == Instruction::SLO || i == Instruction::SRE,
            old(cpu).wf(),
        ensures
            final(cpu).wf(),
            final(cpu).stall == old(cpu).stall,
            !is_branch(i) ==> final(cpu).cycles == old(cpu).cycles,
            is_branch(i) ==> final(cpu).cycles == old(cpu).cycles || final(cpu).cycles == wrap32(
                old(cpu).cycles + 1 + if old(cpu).pc / 256 != addr / 256 {
                    1int
                } else {
                    0int
                },
            ),
            executed(i, *old(cpu), *final(cpu), addr, mode),
    {
        reveal(executed);
        match i {
            Instruction::SAX => cpu.sax(addr),
            Instruction::SLO => cpu.slo(addr),
            Instruction::SRE => cpu.sre(addr),
            _ => {},
        }
    }

    /// Runs the instruction on `cpu` with operand address `addr`. NOP and
    /// the unstable undocumented opcodes (NOP, AHX, ALR, ANC, ARR, AXS, JAM, LAS, SHX, SHY, TAS, XAA) do
    /// nothing beyond their timing.
    #[verifier::rlimit(100)]
    pub fn execute(&self, cpu: &mut CPU, addr: u16, mode: AddressingMode)
        requires
            old(cpu).wf(),
        ensures
            final(cpu).wf(),
            final(cpu).stall == old(cpu).stall,
            !is_branch(*self) ==> final(cpu).cycles == old(cpu).cycles,
            is_branch(*self) ==> final(cpu).cycles == old(cpu).cycles || final(cpu).cycles == wrap32(
                old(cpu).cycles + 1 + if old(cpu).pc / 256 != addr / 256 {
                    1int
                } else {
                    0int
                },
            ),
            executed(*self, *old(cpu), *final(cpu), addr, mode),
    {
        if *self == Instruction::AND || *self == Instruction::EOR || *self == Instruction::ORA || *self == Instruction::ASL || *self == Instruction::LSR || *self == Instruction::ROL || *self == Instruction::ROR || *self == Instruction::BPL || *self == Instruction::BMI || *self == Instruction::BVC {
            Instruction::run_group_0(*self, cpu, addr, mode);
        } else if *self == Instruction::BVS || *self == Instruction::BCC || *self == Instruction::BCS || *self == Instruction::BNE || *self == Instruction::BEQ || *self == Instruction::CMP || *self == Instruction::CPX || *self == Instruction::CPY || *self == Instruction::BIT || *self == Instruction::CLC {
            Instruction::run_group_1(*self, cpu, addr, mode);
        } else if *self == Instruction::CLD || *self == Instruction::CLI || *self == Instruction::CLV || *self == Instruction::SEC || *self == Instruction::SED || *self == Instruction::SEI || *self == Instruction::JMP || *self == Instruction::JSR || *self == Instruction::RTI || *self == Instruction::RTS {
            Instruction::run_group_2(*self, cpu, addr, mode);
        } else if *self == Instruction::ADC || *self == Instruction::SBC || *self == Instruction::LDA || *self == Instruction::LDX || *self == Instruction::LDY || *self == Instruction::STA || *self == Instruction::STX || *self == Instruction::STY || *self == Instruction::INC || *self == Instruction::DEC {
            Instruction::run_group_3(*self, cpu, addr, mode);
        } else if *self == Instruction::TAX || *self == Instruction::TAY || *self == Instruction::TXA || *self == Instruction::TYA || *self == Instruction::INX || *self == Instruction::INY || *self == Instruction::DEX || *self == Instruction::DEY || *self == Instruction::TXS || *self == Instruction::TSX {
            Instruction::run_group_4(*self, cpu, addr, mode);
        } else if *self == Instruction::PHA || *self == Instruction::PHP || *self == Instruction::PLA || *self == Instruction::PLP || *self == Instruction::BRK || *self == Instruction::DCP || *self == Instruction::ISB || *self == Instruction::LAX || *self == Instruction::RLA || *self == Instruction::RRA {
            Instruction::run_group_5(*self, cpu, addr, mode);
        } else if *self == Instruction::SAX || *self == Instruction::SLO || *self == Instruction::SRE {
            Instruction::run_group_6(*self, cpu, addr, mode);
        } else {
            Instruction::run_none(*self, cpu, addr, mode);
        }
    }
}

} // verus!
