//! The audio unit: channels, frame sequencer, register map and the sample
//! ring that hands output to the host.
use vstd::prelude::*;
use crate::apu_channels::{Square, Triangle, Noise, Dmc};
use crate::apu_units::{Envelope, LengthCounter, Timer, dmc_period_spec, noise_period_spec};

verus! {

/// CPU clock in Hz.
pub const CPU_FREQ: u64 = 1789773;

/// Output sample rate in Hz.
pub const SAMPLE_RATE: u64 = 48000;

/// Capacity of the sample ring.
pub const BUFFER_SIZE: usize = 0x2000;

/// The mixed output level of the five channels: pulse, triangle, noise and
/// DMC weighted 752, 851, 494 and 335 (in units of 1e-5 of full scale).
pub open spec fn mix(s1: u8, s2: u8, t: u8, n: u8, d: u8) -> int {
    752 * (s1 + s2) + 851 * t + 494 * n + 335 * d
}

pub struct APU {
    pub square1: Square,
    pub square2: Square,
    pub triangle: Triangle,
    pub noise: Noise,
    pub dmc: Dmc,
    /// CPU cycles run so far.
    pub cycle: u64,
    /// Samples produced so far.
    pub sample_count: u64,
    pub frame_counter: u32,
    pub four_step_mode: bool,
    pub irq_triggered: bool,
    pub irq_disabled: bool,
    pub buffer_start: usize,
    pub buffer_len: usize,
    pub buffer: Vec<u32>,
}

impl APU {
    pub open spec fn wf(&self) -> bool {
        &&& self.square1.wf()
        &&& self.square2.wf()
        &&& self.triangle.wf()
        &&& self.dmc.wf()
        &&& self.buffer@.len() == BUFFER_SIZE
        &&& self.buffer_start < BUFFER_SIZE
        &&& self.buffer_len <= BUFFER_SIZE
        &&& self.frame_counter < 18641
    }

    /// The samples produced and not yet handed out, oldest first.
    pub open spec fn pending(&self) -> Seq<u32> {
        Seq::new(
            self.buffer_len as nat,
            |i: int| self.buffer@[(self.buffer_start + i) % (BUFFER_SIZE as int)],
        )
    }

    pub fn new() -> (r: APU)
        ensures
            r.wf(),
            r.pending().len() == 0,
            r.cycle == 0 && r.sample_count == 0 && r.frame_counter == 0,
            r.four_step_mode && !r.irq_triggered && !r.irq_disabled,
    {
        APU {
            square1: Square::new(0),
            square2: Square::new(1),
            triangle: Triangle::new(),
            noise: Noise::new(),
            dmc: Dmc::new(),
            cycle: 0,
            sample_count: 0,
            frame_counter: 0,
            four_step_mode: true,
            irq_triggered: false,
            irq_disabled: false,
            buffer_start: 0,
            buffer_len: 0,
            buffer: vec![0u32; BUFFER_SIZE],
        }
    }

    /// Whether the frame sequencer or the DMC holds the IRQ line.
    pub fn irq_pending(&self) -> (r: bool)
        ensures
            r == (self.irq_triggered || self.dmc.irq_triggered),
    {
        self.irq_triggered || self.dmc.irq_triggered
    }

    /// One CPU cycle. `dmc_data` is the byte at the DMC's current address.
    /// Pulse, noise, DMC and the frame sequencer run every other cycle; a
    /// sample is produced whenever the output clock has moved past the
    /// samples made so far.
    pub fn step(&mut self, dmc_data: u8)
        requires
            old(self).wf(),
        ensures
            final(self).wf(),
            final(self).cycle == if old(self).cycle == u64::MAX {
                0
            } else {
                old(self).cycle + 1
            },
            final(self).pending().len() <= old(self).pending().len() + 1,
            final(self).four_step_mode == old(self).four_step_mode,
            final(self).irq_disabled == old(self).irq_disabled,
            final(self).irq_triggered ==> old(self).irq_triggered || !old(self).irq_disabled,
    {
        self.cycle = if self.cycle == u64::MAX {
            0
        } else {
            self.cycle + 1
        };
        self.triangle.step();
        if self.cycle % 2 == 0 {
            self.square1.step();
            self.square2.step();
            self.noise.step();
            self.dmc.step(dmc_data);
            self.step_frame_counter();
        }
        let c = self.cycle as u128;
        assert(c * 48000 <= 0xffff_ffff_ffff_ffffu128 * 48000) by (nonlinear_arith)
            requires
                c <= 0xffff_ffff_ffff_ffffu128,
        ;
        let required = (c * (SAMPLE_RATE as u128) / (CPU_FREQ as u128)) as u64;
        if self.sample_count < required {
            let level = self.output();
            self.write_buffer(level);
            self.sample_count = self.sample_count + 1;
        }
    }

    /// Frame sequencer: quarter frames at 3729, 7457, 11186 and 14915,
    /// half frames at 7457 and 14915 (4-step) or 18641 (5-step), where the
    /// count restarts; the 4-step sequence raises the IRQ unless disabled.
    fn step_frame_counter(&mut self)
        requires
            old(self).wf(),
        ensures
            final(self).wf(),
            final(self).frame_counter == if (old(self).four_step_mode && old(self).frame_counter
                + 1 == 14915) || old(self).frame_counter + 1 == 18641 {
                0
            } else {
                old(self).frame_counter + 1
            },
            final(self).irq_triggered == (old(self).irq_triggered || (old(self).four_step_mode
                && old(self).frame_counter + 1 == 14915 && !old(self).irq_disabled)),
            final(self).four_step_mode == old(self).four_step_mode,
            final(self).irq_disabled == old(self).irq_disabled,
            final(self).buffer == old(self).buffer,
            final(self).buffer_start == old(self).buffer_start,
            final(self).buffer_len == old(self).buffer_len,
            final(self).cycle == old(self).cycle,
            final(self).sample_count == old(self).sample_count,
            final(self).dmc == old(self).dmc,
    {
        self.frame_counter = self.frame_counter + 1;
        let fc = self.frame_counter;
        if fc == 3729 || fc == 11186 {
            self.step_quarter_frame();
        } else if fc == 7457 {
            self.step_quarter_frame();
            self.step_half_frame();
        } else if fc == 14915 {
            self.step_quarter_frame();
            if self.four_step_mode {
                self.step_half_frame();
                self.frame_counter = 0;
                if !self.irq_disabled {
                    self.irq_triggered = true;
                }
            }
        } else if fc == 18641 {
            self.frame_counter = 0;
            self.step_half_frame();
        }
    }

    /// Envelopes and the triangle's linear counter.
    fn step_quarter_frame(&mut self)
        requires
            old(self).wf(),
        ensures
            final(self).wf(),
            *final(self) == (APU {
                square1: final(self).square1,
                square2: final(self).square2,
                triangle: final(self).triangle,
                noise: final(self).noise,
                ..*old(self)
            }),
    {
        self.square1.step_quarter_frame();
        self.square2.step_quarter_frame();
        self.triangle.step_quarter_frame();
        self.noise.step_quarter_frame();
    }

    /// Length counters and sweeps, plus the quarter-frame units.
    fn step_half_frame(&mut self)
        requires
            old(self).wf(),
        ensures
            final(self).wf(),
            *final(self) == (APU {
                square1: final(self).square1,
                square2: final(self).square2,
                triangle: final(self).triangle,
                noise: final(self).noise,
                ..*old(self)
            }),
    {
        self.square1.step_half_frame();
        self.square2.step_half_frame();
        self.triangle.step_half_frame();
        self.noise.step_half_frame();
    }

    /// $4015 read: channel activity in bits 0-4, frame IRQ in bit 6, DMC
    /// IRQ in bit 7; acknowledges the frame IRQ.
    pub fn read(&mut self, addr: u16) -> (r: u8)
        requires
            old(self).wf(),
        ensures
            final(self).wf(),
            addr != 0x4015 ==> r == 0 && *final(self) == *old(self),
            addr == 0x4015 ==> r == old(self).status_byte() && *final(self) == (APU {
                irq_triggered: false,
                ..*old(self)
            }),
    {
        if addr == 0x4015 {
            self.read_status()
        } else {
            0
        }
    }

    pub open spec fn status_byte(&self) -> u8 {
        (if self.square1.length_counter.counter != 0 {
            0x01u8
        } else {
            0
        }) | (if self.square2.length_counter.counter != 0 {
            0x02u8
        } else {
            0
        }) | (if self.triangle.length_counter.counter != 0 {
            0x04u8
        } else {
            0
        }) | (if self.noise.length_counter.counter != 0 {
            0x08u8
        } else {
            0
        }) | (if self.dmc.current_length != 0 {
            0x10u8
        } else {
            0
        }) | (if self.irq_triggered {
            0x40u8
        } else {
            0
        }) | (if self.dmc.irq_triggered {
            0x80u8
        } else {
            0
        })
    }

    fn read_status(&mut self) -> (r: u8)
        requires
            old(self).wf(),
        ensures
            final(self).wf(),
            r == old(self).status_byte(),
            *final(self) == (APU { irq_triggered: false, ..*old(self) }),
    {
        let s1: u8 = if self.square1.read_status() { 0x01 } else { 0 };
        let s2: u8 = if self.square2.read_status() { 0x02 } else { 0 };
        let t: u8 = if self.triangle.read_status() { 0x04 } else { 0 };
        let n: u8 = if self.noise.read_status() { 0x08 } else { 0 };
        let d: u8 = if self.dmc.read_status() { 0x10 } else { 0 };
        let f: u8 = if self.irq_triggered { 0x40 } else { 0 };
        let di: u8 = if self.dmc.irq_triggered { 0x80 } else { 0 };
        self.irq_triggered = false;
        s1 | s2 | t | n | d | f | di
    }

    /// Register writes $4000..=$4013, $4015 and $4017; other addresses are
    /// ignored.
    pub fn write(&mut self, addr: u16, val: u8)
        requires
            old(self).wf(),
        ensures
            final(self).wf(),
            final(self).buffer == old(self).buffer,
            final(self).buffer_start == old(self).buffer_start,
            final(self).buffer_len == old(self).buffer_len,
            addr == 0x4017 ==> final(self).frame_counter == 0 && final(self).four_step_mode == (
            val & 0x80 == 0) && final(self).irq_disabled == (val & 0x40 != 0) && (val & 0x40 != 0
                ==> !final(self).irq_triggered),
            addr == 0x4011 ==> final(self).dmc.output == val & 0x7f,
            addr == 0x4000 ==> *final(self) == (APU { square1: Square { duty_mode: (val >> 6u8) & 3, length_counter: LengthCounter { enabled: val & 0x20 == 0, ..old(self).square1.length_counter }, envelope: Envelope { start: true, loop_mode: val & 0x20 != 0, period: val & 0x0f, constant_volume: val & 0x0f, constant_mode: val & 0x10 != 0, ..old(self).square1.envelope }, ..old(self).square1 }, ..*old(self) }),
            addr == 0x4001 ==> *final(self) == (APU { square1: Square { sweep_reload: true, sweep_enabled: val & 0x80 != 0, sweep_period: (((val >> 4u8) & 7) + 1) as u8, sweep_negate: val & 0x08 != 0, sweep_shift: val & 7, ..old(self).square1 }, ..*old(self) }),
            addr == 0x4002 ==> *final(self) == (APU { square1: Square { timer: Timer { period: (old(self).square1.timer.period & 0xff00) | (val as u16), ..old(self).square1.timer }, ..old(self).square1 }, ..*old(self) }),
            addr == 0x4003 ==> *final(self) == (APU { square1: Square { duty_cycle: 0, timer: Timer { period: (old(self).square1.timer.period & 0x00ff) | (((val & 7) as u16) << 8u16), ..old(self).square1.timer }, length_counter: LengthCounter { counter: crate::apu_units::length_table_spec(val >> 3u8), ..old(self).square1.length_counter }, ..old(self).square1 }, ..*old(self) }),
            addr == 0x4004 ==> *final(self) == (APU { square2: Square { duty_mode: (val >> 6u8) & 3, length_counter: LengthCounter { enabled: val & 0x20 == 0, ..old(self).square2.length_counter }, envelope: Envelope { start: true, loop_mode: val & 0x20 != 0, period: val & 0x0f, constant_volume: val & 0x0f, constant_mode: val & 0x10 != 0, ..old(self).square2.envelope }, ..old(self).square2 }, ..*old(self) }),
            addr == 0x4005 ==> *final(self) == (APU { square2: Square { sweep_reload: true, sweep_enabled: val & 0x80 != 0, sweep_period: (((val >> 4u8) & 7) + 1) as u8, sweep_negate: val & 0x08 != 0, sweep_shift: val & 7, ..old(self).square2 }, ..*old(self) }),
            addr == 0x4006 ==> *final(self) == (APU { square2: Square { timer: Timer { period: (old(self).square2.timer.period & 0xff00) | (val as u16), ..old(self).square2.timer }, ..old(self).square2 }, ..*old(self) }),
            addr == 0x4007 ==> *final(self) == (APU { square2: Square { duty_cycle: 0, timer: Timer { period: (old(self).square2.timer.period & 0x00ff) | (((val & 7) as u16) << 8u16), ..old(self).square2.timer }, length_counter: LengthCounter { counter: crate::apu_units::length_table_spec(val >> 3u8), ..old(self).square2.length_counter }, ..old(self).square2 }, ..*old(self) }),
            addr == 0x4008 ==> *final(self) == (APU { triangle: Triangle { control_flag: val & 0x80 != 0, reload_value: val & 0x7f, ..old(self).triangle }, ..*old(self) }),
            addr == 0x400a ==> *final(self) == (APU { triangle: Triangle { timer: Timer { period: (old(self).triangle.timer.period & 0xff00) | (val as u16), ..old(self).triangle.timer }, ..old(self).triangle }, ..*old(self) }),
            addr == 0x400b ==> *final(self) == (APU { triangle: Triangle { reload_flag: true, timer: Timer { period: (old(self).triangle.timer.period & 0x00ff) | (((val & 7) as u16) << 8u16), ..old(self).triangle.timer }, length_counter: LengthCounter { counter: crate::apu_units::length_table_spec(val >> 3u8), ..old(self).triangle.length_counter }, ..old(self).triangle }, ..*old(self) }),
            addr == 0x400c ==> *final(self) == (APU { noise: Noise { length_counter: LengthCounter { enabled: val & 0x20 == 0, ..old(self).noise.length_counter }, envelope: Envelope { loop_mode: val & 0x20 != 0, period: val & 0x0f, constant_volume: val & 0x0f, constant_mode: val & 0x10 != 0, ..old(self).noise.envelope }, ..old(self).noise }, ..*old(self) }),
            addr == 0x400e ==> *final(self) == (APU { noise: Noise { mode: val & 0x80 != 0, timer: Timer { period: noise_period_spec(val & 0x0f), ..old(self).noise.timer }, ..old(self).noise }, ..*old(self) }),
            addr == 0x400f ==> *final(self) == (APU { noise: Noise { envelope: Envelope { start: true, ..old(self).noise.envelope }, length_counter: LengthCounter { counter: if old(self).noise.enabled { crate::apu_units::length_table_spec(val >> 3u8) } else { old(self).noise.length_counter.counter }, ..old(self).noise.length_counter }, ..old(self).noise }, ..*old(self) }),
            addr == 0x4010 ==> *final(self) == (APU { dmc: Dmc { irq_enabled: val & 0x80 != 0, loop_mode: val & 0x40 != 0, timer: Timer { period: dmc_period_spec(val & 0x0f), ..old(self).dmc.timer }, irq_triggered: old(self).dmc.irq_triggered && val & 0x80 != 0, ..old(self).dmc }, ..*old(self) }),
            addr == 0x4011 ==> *final(self) == (APU {
                dmc: Dmc { output: val & 0x7f, ..old(self).dmc },
                ..*old(self)
            }),
            addr == 0x4012 ==> *final(self) == (APU {
                dmc: Dmc { start_address: (0xc000 + 64 * val) as u16, ..old(self).dmc },
                ..*old(self)
            }),
            addr == 0x4013 ==> *final(self) == (APU {
                dmc: Dmc { total_length: (16 * val + 1) as u16, ..old(self).dmc },
                ..*old(self)
            }),
            addr == 0x4015 ==> *final(self) == (APU {
                square1: final(self).square1,
                square2: final(self).square2,
                triangle: final(self).triangle,
                noise: final(self).noise,
                dmc: final(self).dmc,
                ..*old(self)
            }) && final(self).square1.enabled == (val & 0x01 != 0) && final(self).square2.enabled == (val
                & 0x02 != 0) && final(self).triangle.enabled == (val & 0x04 != 0) && final(self).noise.enabled
                == (val & 0x08 != 0) && final(self).dmc.enabled == (val & 0x10 != 0),
            (addr == 0x4009 || addr == 0x400d || addr == 0x4014 || addr == 0x4016 || addr > 0x4017 || addr
                < 0x4000) ==> *final(self) == *old(self),
    {
        match addr {
            0x4000 => self.square1.write0(val),
            0x4001 => self.square1.write1(val),
            0x4002 => self.square1.write2(val),
            0x4003 => self.square1.write3(val),
            0x4004 => self.square2.write0(val),
            0x4005 => self.square2.write1(val),
            0x4006 => self.square2.write2(val),
            0x4007 => self.square2.write3(val),
            0x4008 => self.triangle.write0(val),
            0x400a => self.triangle.write1(val),
            0x400b => self.triangle.write2(val),
            0x400c => self.noise.write0(val),
            0x400e => self.noise.write1(val),
            0x400f => self.noise.write2(val),
            0x4010 => self.dmc.write0(val),
            0x4011 => self.dmc.write1(val),
            0x4012 => self.dmc.write2(val),
            0x4013 => self.dmc.write3(val),
            0x4015 => self.write_control(val),
            0x4017 => self.write_frame_counter(val),
            _ => {},
        }
    }

    /// $4015 write: enable bits of the five channels.
    fn write_control(&mut self, val: u8)
        requires
            old(self).wf(),
        ensures
            final(self).wf(),
            final(self).square1.enabled == (val & 0x01 != 0),
            final(self).square2.enabled == (val & 0x02 != 0),
            final(self).triangle.enabled == (val & 0x04 != 0),
            final(self).noise.enabled == (val & 0x08 != 0),
            final(self).dmc.enabled == (val & 0x10 != 0),
            *final(self) == (APU {
                square1: final(self).square1,
                square2: final(self).square2,
                triangle: final(self).triangle,
                noise: final(self).noise,
                dmc: final(self).dmc,
                ..*old(self)
            }),
    {
        self.square1.write_control(val & 0x01 != 0);
        self.square2.write_control(val & 0x02 != 0);
        self.triangle.write_control(val & 0x04 != 0);
        self.noise.write_control(val & 0x08 != 0);
        self.dmc.write_control(val & 0x10 != 0);
    }

    /// $4017 write: restarts the sequencer, picks 4- or 5-step mode (bit 7),
    /// sets the IRQ inhibit (bit 6, which also acknowledges the IRQ), and in
    /// 5-step mode clocks a half frame at once.
    fn write_frame_counter(&mut self, val: u8)
        requires
            old(self).wf(),
        ensures
            final(self).wf(),
            final(self).frame_counter == 0,
            final(self).four_step_mode == (val & 0x80 == 0),
            final(self).irq_disabled == (val & 0x40 != 0),
            final(self).irq_triggered == (old(self).irq_triggered && val & 0x40 == 0),
            final(self).buffer == old(self).buffer,
            final(self).buffer_start == old(self).buffer_start,
            final(self).buffer_len == old(self).buffer_len,
            final(self).dmc == old(self).dmc,
    {
        self.frame_counter = 0;
        self.irq_disabled = val & 0x40 != 0;
        if self.irq_disabled {
            self.irq_triggered = false;
        }
        self.four_step_mode = val & 0x80 == 0;
        if !self.four_step_mode {
            self.step_quarter_frame();
            self.step_half_frame();
        }
    }

    /// The current mixed level of the five channels.
    pub fn output(&self) -> (r: u32)
        requires
            self.wf(),
        ensures
            r == mix(
                self.square1.output_spec(),
                self.square2.output_spec(),
                crate::apu_units::triangle_level(self.triangle.duty_cycle),
                self.noise.output_spec(),
                self.dmc.output,
            ),
    {
        let s1 = self.square1.output() as u32;
        let s2 = self.square2.output() as u32;
        let t = self.triangle.output() as u32;
        let n = self.noise.output() as u32;
        let d = self.dmc.output() as u32;
        752 * (s1 + s2) + 851 * t + 494 * n + 335 * d
    }

    /// Appends a sample; a full ring drops its oldest one.
    fn write_buffer(&mut self, level: u32)
        requires
            old(self).wf(),
        ensures
            final(self).wf(),
            final(self).pending() == if old(self).buffer_len < BUFFER_SIZE {
                old(self).pending().push(level)
            } else {
                old(self).pending().drop_first().push(level)
            },
            *final(self) == (APU {
                buffer: final(self).buffer,
                buffer_start: final(self).buffer_start,
                buffer_len: final(self).buffer_len,
                ..*old(self)
            }),
    {
        if self.buffer_len < BUFFER_SIZE {
            let i = (self.buffer_start + self.buffer_len) % BUFFER_SIZE;
            self.buffer.set(i, level);
            self.buffer_len = self.buffer_len + 1;
            assert(self.pending() =~= old(self).pending().push(level));
        } else {
            let s = self.buffer_start;
            self.buffer.set(s, level);
            self.buffer_start = (s + 1) % BUFFER_SIZE;
            assert(self.pending() =~= old(self).pending().drop_first().push(level));
        }
    }

    /// Hands out pending samples oldest first; positions past them get 0.
    pub fn load_samples(&mut self, out: &mut [u32])
        requires
            old(self).wf(),
        ensures
            final(self).wf(),
            final(out)@.len() == old(out)@.len(),
            forall|i: int|
                0 <= i < old(out)@.len() ==> #[trigger] final(out)@[i] == if i < old(
                    self,
                ).pending().len() {
                    old(self).pending()[i]
                } else {
                    0
                },
            final(self).pending() == old(self).pending().skip(
                if old(out)@.len() < old(self).pending().len() {
                    old(out)@.len() as int
                } else {
                    old(self).pending().len() as int
                },
            ),
    {
        let mut i: usize = 0;
        while i < out.len()
            invariant
                self.wf(),
                i <= out@.len(),
                out@.len() == old(out)@.len(),
                self.buffer == old(self).buffer,
                i <= old(self).buffer_len ==> self.buffer_len == old(self).buffer_len - i
                    && self.buffer_start == (old(self).buffer_start + i) % (BUFFER_SIZE as int),
                i > old(self).buffer_len ==> self.buffer_len == 0 && self.buffer_start == (old(
                    self,
                ).buffer_start + old(self).buffer_len) % (BUFFER_SIZE as int),
                forall|j: int|
                    0 <= j < i ==> #[trigger] out@[j] == if j < old(self).pending().len() {
                        old(self).pending()[j]
                    } else {
                        0
                    },
            decreases out@.len() - i,
        {
            if self.buffer_len > 0 {
                out[i] = self.buffer[self.buffer_start];
                self.buffer_start = (self.buffer_start + 1) % BUFFER_SIZE;
                self.buffer_len = self.buffer_len - 1;
            } else {
                out[i] = 0;
            }
            i = i + 1;
        }
        assert(self.pending() =~= old(self).pending().skip(
            if old(out)@.len() < old(self).pending().len() {
                old(out)@.len() as int
            } else {
                old(self).pending().len() as int
            },
        ));
    }
}

} // verus!
