//! The five sound channels: two pulse waves, a triangle, noise and the
//! delta-modulation sample player. Each reports an integer output level.
use vstd::prelude::*;
use crate::apu_units::{
    Envelope, LengthCounter, Timer, duty, duty_spec, dmc_period, dmc_period_spec, noise_period,
    noise_period_spec, triangle_level,
};

verus! {

/// A pulse channel; `id` 0 and 1 differ only in how sweep negation rounds.
pub struct Square {
    pub id: u8,
    pub enabled: bool,
    pub duty_mode: u8,
    pub duty_cycle: u8,
    pub sweep_enabled: bool,
    pub sweep_period: u8,
    pub sweep_counter: u8,
    pub sweep_reload: bool,
    pub sweep_negate: bool,
    pub sweep_shift: u8,
    pub sweep_mute: bool,
    pub timer: Timer,
    pub envelope: Envelope,
    pub length_counter: LengthCounter,
}

/// The period a sweep unit aims at: the current period plus or minus
/// itself shifted right; channel 0 subtracts one more. Never below 0.
pub open spec fn sweep_target(period: u16, shift: u8, negate: bool, id: u8) -> int {
    let change = (period >> shift) as int;
    if negate {
        let d = if id == 0 {
            change + 1
        } else {
            change
        };
        if period >= d {
            period - d
        } else {
            0
        }
    } else {
        period + change
    }
}

impl Square {
    pub open spec fn wf(&self) -> bool {
        self.duty_mode < 4 && self.duty_cycle < 8 && self.sweep_shift < 8 && self.timer.period
            <= 0x7ff
    }

    pub fn new(id: u8) -> (r: Square)
        ensures
            r.wf(),
            r.id == id,
            !r.enabled,
            r.length_counter.counter == 0,
    {
        Square {
            id,
            enabled: false,
            duty_mode: 0,
            duty_cycle: 0,
            sweep_enabled: false,
            sweep_period: 0,
            sweep_counter: 0,
            sweep_reload: false,
            sweep_negate: false,
            sweep_shift: 0,
            sweep_mute: false,
            timer: Timer::new(),
            envelope: Envelope::new(),
            length_counter: LengthCounter::new(),
        }
    }

    /// One APU cycle: the timer advances the duty position when it fires.
    pub fn step(&mut self)
        requires
            old(self).wf(),
        ensures
            final(self).wf(),
            final(self).duty_cycle == if old(self).timer.counter == 0 {
                (old(self).duty_cycle + 1) % 8
            } else {
                old(self).duty_cycle as int
            },
            *final(self) == (Square {
                timer: final(self).timer,
                duty_cycle: final(self).duty_cycle,
                ..*old(self)
            }),
    {
        if self.timer.step() {
            self.duty_cycle = (self.duty_cycle + 1) % 8;
        }
    }

    pub fn step_quarter_frame(&mut self)
        ensures
            *final(self) == (Square { envelope: final(self).envelope, ..*old(self) }),
    {
        self.envelope.step();
    }

    pub fn step_half_frame(&mut self)
        requires
            old(self).wf(),
        ensures
            final(self).wf(),
            final(self).sweep_mute == (sweep_target(
                old(self).timer.period,
                old(self).sweep_shift,
                old(self).sweep_negate,
                old(self).id,
            ) > 0x7ff || old(self).timer.period < 8),
    {
        self.step_sweep();
        self.envelope.step();
        self.length_counter.step();
    }

    fn calculate_period(&self) -> (r: u16)
        requires
            self.wf(),
        ensures
            r as int == sweep_target(
                self.timer.period,
                self.sweep_shift,
                self.sweep_negate,
                self.id,
            ),
    {
        let period = self.timer.period;
        let shift = self.sweep_shift as u16;
        let change = period >> shift;
        assert(change <= period) by (bit_vector)
            requires
                change == period >> shift,
        ;
        if self.sweep_negate {
            let d = if self.id == 0 {
                change + 1
            } else {
                change
            };
            if self.timer.period >= d {
                self.timer.period - d
            } else {
                0
            }
        } else {
            self.timer.period + change
        }
    }

    /// The sweep unit: mutes on a target above 0x7FF or a period below 8,
    /// and otherwise moves to the target when its divider expires.
    fn step_sweep(&mut self)
        requires
            old(self).wf(),
        ensures
            final(self).wf(),
            final(self).sweep_mute == (sweep_target(
                old(self).timer.period,
                old(self).sweep_shift,
                old(self).sweep_negate,
                old(self).id,
            ) > 0x7ff || old(self).timer.period < 8),
            final(self).envelope == old(self).envelope,
            final(self).length_counter == old(self).length_counter,
    {
        let period = self.calculate_period();
        self.sweep_mute = period > 0x7ff || self.timer.period < 8;
        if self.sweep_enabled && self.sweep_counter == 0 && !self.sweep_mute {
            self.timer.period = period;
        }
        if self.sweep_counter == 0 || self.sweep_reload {
            self.sweep_counter = self.sweep_period;
            self.sweep_reload = false;
        } else {
            self.sweep_counter = self.sweep_counter - 1;
        }
    }

    pub open spec fn output_spec(&self) -> u8 {
        if !self.enabled || self.sweep_mute || self.length_counter.counter == 0 {
            0
        } else if duty_spec(self.duty_mode, self.duty_cycle) == 0 {
            0
        } else {
            self.envelope.output_spec()
        }
    }

    /// The output level, 0..=15.
    pub fn output(&self) -> (r: u8)
        requires
            self.wf(),
        ensures
            r == self.output_spec(),
    {
        if !self.enabled || self.sweep_mute || self.length_counter.counter == 0 {
            return 0;
        }
        let d = duty(self.duty_mode, self.duty_cycle);
        if d == 0 {
            0
        } else {
            self.envelope.output()
        }
    }

    pub fn read_status(&self) -> (r: bool)
        ensures
            r == (self.length_counter.counter != 0),
    {
        self.length_counter.counter != 0
    }

    /// $4015 bit: disabling also clears the length counter.
    pub fn write_control(&mut self, enabled: bool)
        ensures
            final(self).enabled == enabled,
            final(self).length_counter.counter == if enabled {
                old(self).length_counter.counter
            } else {
                0
            },
            *final(self) == (Square {
                enabled,
                length_counter: final(self).length_counter,
                ..*old(self)
            }),
            final(self).length_counter.enabled == old(self).length_counter.enabled,
    {
        if !enabled {
            self.length_counter.counter = 0;
        }
        self.enabled = enabled;
    }

    /// $4000/$4004: duty, halt/loop, constant volume and volume/period.
    pub fn write0(&mut self, val: u8)
        requires
            old(self).wf(),
        ensures
            final(self).wf(),
            *final(self) == (Square {
                duty_mode: (val >> 6u8) & 3,
                length_counter: LengthCounter {
                    enabled: val & 0x20 == 0,
                    ..old(self).length_counter
                },
                envelope: Envelope {
                    start: true,
                    loop_mode: val & 0x20 != 0,
                    period: val & 0x0f,
                    constant_volume: val & 0x0f,
                    constant_mode: val & 0x10 != 0,
                    ..old(self).envelope
                },
                ..*old(self)
            }),
    {
        self.envelope.start = true;
        self.duty_mode = (val >> 6u8) & 3;
        assert((val >> 6u8) & 3 < 4) by (bit_vector);
        let halt = val & 0x20 != 0;
        self.length_counter.enabled = !halt;
        self.envelope.loop_mode = halt;
        let period = val & 0x0f;
        self.envelope.period = period;
        self.envelope.constant_volume = period;
        self.envelope.constant_mode = val & 0x10 != 0;
    }

    /// $4001/$4005: sweep enable, divider period, negate and shift.
    pub fn write1(&mut self, val: u8)
        requires
            old(self).wf(),
        ensures
            final(self).wf(),
            *final(self) == (Square {
                sweep_reload: true,
                sweep_enabled: val & 0x80 != 0,
                sweep_period: (((val >> 4u8) & 7) + 1) as u8,
                sweep_negate: val & 0x08 != 0,
                sweep_shift: val & 7,
                ..*old(self)
            }),
    {
        self.sweep_reload = true;
        self.sweep_enabled = val & 0x80 != 0;
        assert((val >> 4u8) & 7 < 8 && val & 7 < 8) by (bit_vector);
        self.sweep_period = ((val >> 4u8) & 7) + 1;
        self.sweep_negate = val & 0x08 != 0;
        self.sweep_shift = val & 7;
    }

    /// $4002/$4006: low byte of the timer period.
    pub fn write2(&mut self, val: u8)
        requires
            old(self).wf(),
        ensures
            final(self).wf(),
            final(self).timer.period == (old(self).timer.period & 0xff00) | (val as u16),
            *final(self) == (Square {
                timer: Timer { period: final(self).timer.period, ..old(self).timer },
                ..*old(self)
            }),
    {
        let p = self.timer.period;
        assert((p & 0xff00) | (val as u16) <= 0x7ff) by (bit_vector)
            requires
                p <= 0x7ff,
        ;
        self.timer.period = (p & 0xff00) | (val as u16);
    }

    /// $4003/$4007: high bits of the timer period and the length index;
    /// restarts the duty sequence.
    pub fn write3(&mut self, val: u8)
        requires
            old(self).wf(),
        ensures
            final(self).wf(),
            *final(self) == (Square {
                duty_cycle: 0,
                timer: Timer {
                    period: (old(self).timer.period & 0x00ff) | (((val & 7) as u16) << 8u16),
                    ..old(self).timer
                },
                length_counter: LengthCounter {
                    counter: crate::apu_units::length_table_spec(val >> 3u8),
                    ..old(self).length_counter
                },
                ..*old(self)
            }),
    {
        self.duty_cycle = 0;
        let p = self.timer.period;
        let hi = ((val & 7) as u16) << 8u16;
        assert((p & 0x00ff) | hi <= 0x7ff && val >> 3u8 < 32) by (bit_vector)
            requires
                hi == ((val & 7) as u16) << 8u16,
        ;
        self.timer.period = (p & 0x00ff) | hi;
        self.length_counter.set(val >> 3u8);
    }
}

/// The triangle channel with its linear counter.
pub struct Triangle {
    pub enabled: bool,
    pub duty_cycle: u8,
    pub timer: Timer,
    pub length_counter: LengthCounter,
    pub control_flag: bool,
    pub reload_flag: bool,
    pub counter: u8,
    pub reload_value: u8,
}

impl Triangle {
    pub open spec fn wf(&self) -> bool {
        self.duty_cycle < 32
    }

    pub fn new() -> (r: Triangle)
        ensures
            r.wf(),
            !r.enabled,
            r.length_counter.counter == 0,
            r.counter == 0,
    {
        Triangle {
            enabled: false,
            duty_cycle: 0,
            timer: Timer::new(),
            length_counter: LengthCounter::new(),
            control_flag: false,
            reload_flag: false,
            counter: 0,
            reload_value: 0,
        }
    }

    /// One CPU cycle: the sequence advances when the timer fires and both
    /// counters are non-zero.
    pub fn step(&mut self)
        requires
            old(self).wf(),
        ensures
            final(self).wf(),
            final(self).duty_cycle == if old(self).timer.counter == 0 && old(self).counter != 0
                && old(self).length_counter.counter != 0 {
                (old(self).duty_cycle + 1) % 32
            } else {
                old(self).duty_cycle as int
            },
            *final(self) == (Triangle {
                timer: final(self).timer,
                duty_cycle: final(self).duty_cycle,
                ..*old(self)
            }),
    {
        if self.timer.step() && self.counter != 0 && self.length_counter.counter != 0 {
            self.duty_cycle = (self.duty_cycle + 1) % 32;
        }
    }

    pub fn step_quarter_frame(&mut self)
        ensures
            *final(self) == old(self).linear_stepped(),
    {
        self.step_linear_counter();
    }

    pub fn step_half_frame(&mut self)
        ensures
            final(self).counter == old(self).linear_stepped().counter,
            final(self).reload_flag == old(self).linear_stepped().reload_flag,
            final(self).length_counter.counter == if old(self).length_counter.enabled
                && old(self).length_counter.counter > 0 {
                (old(self).length_counter.counter - 1) as u8
            } else {
                old(self).length_counter.counter
            },
            final(self).duty_cycle == old(self).duty_cycle,
    {
        self.step_linear_counter();
        self.length_counter.step();
    }

    /// `self` after one clock of the linear counter.
    pub open spec fn linear_stepped(self) -> Triangle {
        Triangle {
            counter: if self.reload_flag {
                self.reload_value
            } else if self.counter > 0 {
                (self.counter - 1) as u8
            } else {
                0
            },
            reload_flag: self.reload_flag && self.control_flag,
            ..self
        }
    }

    fn step_linear_counter(&mut self)
        ensures
            *final(self) == old(self).linear_stepped(),
    {
        if self.reload_flag {
            self.counter = self.reload_value;
        } else if self.counter > 0 {
            self.counter = self.counter - 1;
        }
        if !self.control_flag {
            self.reload_flag = false;
        }
    }

    /// The output level, 0..=15.
    pub fn output(&self) -> (r: u8)
        requires
            self.wf(),
        ensures
            r == triangle_level(self.duty_cycle),
    {
        if self.duty_cycle < 16 {
            15 - self.duty_cycle
        } else {
            self.duty_cycle - 16
        }
    }

    pub fn read_status(&self) -> (r: bool)
        ensures
            r == (self.length_counter.counter != 0),
    {
        self.length_counter.counter != 0
    }

    pub fn write_control(&mut self, enabled: bool)
        ensures
            final(self).enabled == enabled,
            final(self).length_counter.counter == if enabled {
                old(self).length_counter.counter
            } else {
                0
            },
            final(self).length_counter.enabled == old(self).length_counter.enabled,
            final(self).duty_cycle == old(self).duty_cycle,
            *final(self) == (Triangle {
                enabled,
                length_counter: final(self).length_counter,
                ..*old(self)
            }),
    {
        if !enabled {
            self.length_counter.counter = 0;
        }
        self.enabled = enabled;
    }

    /// $4008: control flag and linear counter reload value.
    pub fn write0(&mut self, val: u8)
        ensures
            *final(self) == (Triangle {
                control_flag: val & 0x80 != 0,
                reload_value: val & 0x7f,
                ..*old(self)
            }),
    {
        self.control_flag = val & 0x80 != 0;
        self.reload_value = val & 0x7f;
    }

    /// $400A: low byte of the timer period.
    pub fn write1(&mut self, val: u8)
        ensures
            *final(self) == (Triangle {
                timer: Timer {
                    period: (old(self).timer.period & 0xff00) | (val as u16),
                    ..old(self).timer
                },
                ..*old(self)
            }),
    {
        self.timer.period = (self.timer.period & 0xff00) | (val as u16);
    }

    /// $400B: high bits of the period and the length index; requests a
    /// linear counter reload.
    pub fn write2(&mut self, val: u8)
        ensures
            *final(self) == (Triangle {
                reload_flag: true,
                timer: Timer {
                    period: (old(self).timer.period & 0x00ff) | (((val & 7) as u16) << 8u16),
                    ..old(self).timer
                },
                length_counter: LengthCounter {
                    counter: crate::apu_units::length_table_spec(val >> 3u8),
                    ..old(self).length_counter
                },
                ..*old(self)
            }),
    {
        self.reload_flag = true;
        self.timer.period = (self.timer.period & 0x00ff) | (((val & 7) as u16) << 8u16);
        assert(val >> 3u8 < 32) by (bit_vector);
        self.length_counter.set(val >> 3u8);
    }
}

/// The noise channel: a 15-bit linear feedback shift register.
pub struct Noise {
    pub enabled: bool,
    pub mode: bool,
    pub shift_register: u16,
    pub timer: Timer,
    pub envelope: Envelope,
    pub length_counter: LengthCounter,
}

/// The shift register after one clock: shifted right, with bit 0 xor bit 1
/// (bit 6 in short mode) fed into bit 14.
pub open spec fn lfsr_next(sr: u16, mode: bool) -> u16 {
    let other = if mode {
        (sr >> 6u16) & 1
    } else {
        (sr >> 1u16) & 1
    };
    (sr >> 1u16) | (((sr & 1) ^ other) << 14u16)
}

impl Noise {
    pub fn new() -> (r: Noise)
        ensures
            r.shift_register == 1,
            !r.enabled,
            r.length_counter.counter == 0,
    {
        Noise {
            enabled: false,
            mode: false,
            shift_register: 1,
            timer: Timer::new(),
            envelope: Envelope::new(),
            length_counter: LengthCounter::new(),
        }
    }

    pub fn step(&mut self)
        ensures
            final(self).shift_register == if old(self).timer.counter == 0 {
                lfsr_next(old(self).shift_register, old(self).mode)
            } else {
                old(self).shift_register
            },
            *final(self) == (Noise {
                timer: final(self).timer,
                shift_register: final(self).shift_register,
                ..*old(self)
            }),
    {
        if self.timer.step() {
            let sr = self.shift_register;
            let other = if self.mode {
                (sr >> 6u16) & 1
            } else {
                (sr >> 1u16) & 1
            };
            self.shift_register = (sr >> 1u16) | (((sr & 1) ^ other) << 14u16);
        }
    }

    pub fn step_quarter_frame(&mut self)
        ensures
            *final(self) == (Noise { envelope: final(self).envelope, ..*old(self) }),
    {
        self.envelope.step();
    }

    pub fn step_half_frame(&mut self)
        ensures
            final(self).length_counter.counter == if old(self).length_counter.enabled
                && old(self).length_counter.counter > 0 {
                (old(self).length_counter.counter - 1) as u8
            } else {
                old(self).length_counter.counter
            },
            *final(self) == (Noise {
                envelope: final(self).envelope,
                length_counter: final(self).length_counter,
                ..*old(self)
            }),
    {
        self.envelope.step();
        self.length_counter.step();
    }

    pub open spec fn output_spec(&self) -> u8 {
        if !self.enabled || self.shift_register & 1 != 0 || self.length_counter.counter == 0 {
            0
        } else {
            self.envelope.output_spec()
        }
    }

    /// The output level, 0..=15; silent while bit 0 of the register is set.
    pub fn output(&self) -> (r: u8)
        ensures
            r == self.output_spec(),
    {
        if !self.enabled || self.shift_register & 1 != 0 || self.length_counter.counter == 0 {
            0
        } else {
            self.envelope.output()
        }
    }

    pub fn read_status(&self) -> (r: bool)
        ensures
            r == (self.length_counter.counter != 0),
    {
        self.length_counter.counter != 0
    }

    pub fn write_control(&mut self, enabled: bool)
        ensures
            final(self).enabled == enabled,
            final(self).length_counter.counter == if enabled {
                old(self).length_counter.counter
            } else {
                0
            },
            final(self).length_counter.enabled == old(self).length_counter.enabled,
            *final(self) == (Noise {
                enabled,
                length_counter: final(self).length_counter,
                ..*old(self)
            }),
    {
        if !enabled {
            self.length_counter.counter = 0;
        }
        self.enabled = enabled;
    }

    /// $400C: halt/loop, constant volume and volume/period.
    pub fn write0(&mut self, val: u8)
        ensures
            *final(self) == (Noise {
                length_counter: LengthCounter {
                    enabled: val & 0x20 == 0,
                    ..old(self).length_counter
                },
                envelope: Envelope {
                    loop_mode: val & 0x20 != 0,
                    period: val & 0x0f,
                    constant_volume: val & 0x0f,
                    constant_mode: val & 0x10 != 0,
                    ..old(self).envelope
                },
                ..*old(self)
            }),
    {
        let halt = val & 0x20 != 0;
        self.length_counter.enabled = !halt;
        self.envelope.loop_mode = halt;
        let period = val & 0x0f;
        self.envelope.period = period;
        self.envelope.constant_volume = period;
        self.envelope.constant_mode = val & 0x10 != 0;
    }

    /// $400E: short mode and period index.
    pub fn write1(&mut self, val: u8)
        ensures
            *final(self) == (Noise {
                mode: val & 0x80 != 0,
                timer: Timer { period: noise_period_spec(val & 0x0f), ..old(self).timer },
                ..*old(self)
            }),
    {
        self.mode = val & 0x80 != 0;
        assert(val & 0x0f < 16) by (bit_vector);
        self.timer.period = noise_period(val & 0x0f);
    }

    /// $400F: length index (while enabled) and envelope restart.
    pub fn write2(&mut self, val: u8)
        ensures
            *final(self) == (Noise {
                envelope: Envelope { start: true, ..old(self).envelope },
                length_counter: LengthCounter {
                    counter: if old(self).enabled {
                        crate::apu_units::length_table_spec(val >> 3u8)
                    } else {
                        old(self).length_counter.counter
                    },
                    ..old(self).length_counter
                },
                ..*old(self)
            }),
    {
        if self.enabled {
            assert(val >> 3u8 < 32) by (bit_vector);
            self.length_counter.set(val >> 3u8);
        }
        self.envelope.start = true;
    }
}

/// The delta-modulation channel: plays 1-bit deltas fetched from CPU
/// memory.
pub struct Dmc {
    pub enabled: bool,
    pub start_address: u16,
    pub total_length: u16,
    pub current_address: u16,
    pub current_length: u16,
    pub shift_index: u8,
    pub shift_register: u8,
    pub irq_triggered: bool,
    pub irq_enabled: bool,
    pub loop_mode: bool,
    pub timer: Timer,
    pub output: u8,
}

impl Dmc {
    /// `self` after taking the sample byte `data`.
    pub open spec fn loaded(self, data: u8) -> Dmc {
        let addr: u16 = if self.current_address == 0xffff {
            0x8000
        } else {
            (self.current_address + 1) as u16
        };
        let len = (self.current_length - 1) as u16;
        if len == 0 && self.loop_mode {
            Dmc {
                shift_index: 8,
                shift_register: data,
                current_address: self.start_address,
                current_length: self.total_length,
                ..self
            }
        } else {
            Dmc {
                shift_index: 8,
                shift_register: data,
                current_address: addr,
                current_length: len,
                irq_triggered: self.irq_triggered || (len == 0 && self.irq_enabled),
                ..self
            }
        }
    }

    /// `self` after playing one delta bit.
    pub open spec fn played(self) -> Dmc {
        if self.shift_index == 0 {
            self
        } else {
            Dmc {
                shift_index: (self.shift_index - 1) as u8,
                shift_register: self.shift_register >> 1u8,
                output: if self.shift_register & 1 == 1 {
                    if self.output <= 125 {
                        (self.output + 2) as u8
                    } else {
                        self.output
                    }
                } else if self.output >= 2 {
                    (self.output - 2) as u8
                } else {
                    self.output
                },
                ..self
            }
        }
    }

    /// `self` after one APU cycle with `data` at the current address.
    pub open spec fn stepped(self, data: u8) -> Dmc {
        if !self.enabled {
            self
        } else {
            let a = if self.current_length != 0 && self.shift_index == 0 {
                self.loaded(data)
            } else {
                self
            };
            let b = Dmc { timer: a.timer.stepped(), ..a };
            if a.timer.counter == 0 {
                b.played()
            } else {
                b
            }
        }
    }

    pub open spec fn wf(&self) -> bool {
        self.output <= 127 && self.shift_index <= 8
    }

    pub fn new() -> (r: Dmc)
        ensures
            r.wf(),
            !r.enabled && !r.irq_triggered && r.current_length == 0 && r.output == 0,
    {
        Dmc {
            enabled: false,
            start_address: 0,
            total_length: 0,
            current_address: 0,
            current_length: 0,
            shift_index: 0,
            shift_register: 0,
            irq_triggered: false,
            irq_enabled: false,
            loop_mode: false,
            timer: Timer::new(),
            output: 0,
        }
    }

    /// One APU cycle, given the byte at `current_address`: an empty shift
    /// register takes it while sample bytes remain, and a timer expiry
    /// plays one delta bit.
    pub fn step(&mut self, data: u8)
        requires
            old(self).wf(),
        ensures
            final(self).wf(),
            *final(self) == old(self).stepped(data),
            final(self).irq_triggered ==> old(self).irq_triggered || old(self).irq_enabled,
    {
        if self.enabled {
            if self.current_length != 0 && self.shift_index == 0 {
                self.load_shift_register(data);
            }
            if self.timer.step() {
                self.update_shift_register();
            }
        }
    }

    /// Takes a sample byte, moves to the next address (0xFFFF wraps to
    /// 0x8000) and, at the end of the sample, restarts it in loop mode or
    /// raises the IRQ if enabled.
    fn load_shift_register(&mut self, data: u8)
        requires
            old(self).wf(),
            old(self).current_length > 0,
        ensures
            final(self).wf(),
            *final(self) == old(self).loaded(data),
            final(self).irq_triggered == (old(self).irq_triggered || (old(self).current_length == 1
                && !old(self).loop_mode && old(self).irq_enabled)),
    {
        self.shift_index = 8;
        self.shift_register = data;
        if self.current_address == 0xffff {
            self.current_address = 0x8000;
        } else {
            self.current_address = self.current_address + 1;
        }
        self.current_length = self.current_length - 1;
        if self.current_length == 0 {
            if self.loop_mode {
                self.current_address = self.start_address;
                self.current_length = self.total_length;
            } else if self.irq_enabled {
                self.irq_triggered = true;
            }
        }
    }

    /// Plays one bit: +2 for a one (up to 127), -2 for a zero (down to 0).
    fn update_shift_register(&mut self)
        requires
            old(self).wf(),
        ensures
            final(self).wf(),
            *final(self) == old(self).played(),
            old(self).shift_index == 0 ==> *final(self) == *old(self),
            old(self).shift_index > 0 ==> final(self).shift_index == old(self).shift_index - 1
                && final(self).shift_register == old(self).shift_register >> 1u8
                && final(self).output == if old(self).shift_register & 1 == 1 {
                if old(self).output <= 125 {
                    (old(self).output + 2) as u8
                } else {
                    old(self).output
                }
            } else if old(self).output >= 2 {
                (old(self).output - 2) as u8
            } else {
                old(self).output
            },
            final(self).irq_triggered == old(self).irq_triggered,
            final(self).enabled == old(self).enabled,
    {
        if self.shift_index == 0 {
            return;
        }
        if self.shift_register & 1 == 1 {
            if self.output <= 125 {
                self.output = self.output + 2;
            }
        } else {
            if self.output >= 2 {
                self.output = self.output - 2;
            }
        }
        self.shift_register = self.shift_register >> 1u8;
        self.shift_index = self.shift_index - 1;
    }

    /// The output level, 0..=127.
    pub fn output(&self) -> (r: u8)
        requires
            self.wf(),
        ensures
            r == self.output,
            r <= 127,
    {
        self.output
    }

    pub fn read_status(&self) -> (r: bool)
        ensures
            r == (self.current_length != 0),
    {
        self.current_length != 0
    }

    /// $4015 bit: disabling stops the sample; enabling restarts a finished
    /// one. Either way acknowledges the DMC IRQ.
    pub fn write_control(&mut self, enabled: bool)
        requires
            old(self).wf(),
        ensures
            final(self).wf(),
            !final(self).irq_triggered,
            final(self).enabled == enabled,
            !enabled ==> final(self).current_length == 0,
            enabled && old(self).current_length == 0 ==> final(self).current_length == old(
                self,
            ).total_length && final(self).current_address == old(self).start_address,
            enabled && old(self).current_length != 0 ==> final(self).current_length == old(
                self,
            ).current_length && final(self).current_address == old(self).current_address,
            *final(self) == (Dmc {
                enabled,
                irq_triggered: false,
                current_length: final(self).current_length,
                current_address: final(self).current_address,
                ..*old(self)
            }),
            !enabled ==> final(self).current_address == old(self).current_address,
    {
        if !enabled {
            self.current_length = 0;
        } else if self.current_length == 0 {
            self.current_address = self.start_address;
            self.current_length = self.total_length;
        }
        self.enabled = enabled;
        self.irq_triggered = false;
    }

    /// $4010: IRQ enable, loop and rate index.
    pub fn write0(&mut self, val: u8)
        ensures
            *final(self) == (Dmc {
                irq_enabled: val & 0x80 != 0,
                loop_mode: val & 0x40 != 0,
                timer: Timer { period: dmc_period_spec(val & 0x0f), ..old(self).timer },
                irq_triggered: old(self).irq_triggered && val & 0x80 != 0,
                ..*old(self)
            }),
    {
        self.irq_enabled = val & 0x80 != 0;
        self.loop_mode = val & 0x40 != 0;
        assert(val & 0x0f < 16) by (bit_vector);
        self.timer.period = dmc_period(val & 0x0f);
        if !self.irq_enabled {
            self.irq_triggered = false;
        }
    }

    /// $4011: direct load of the output level.
    pub fn write1(&mut self, val: u8)
        requires
            old(self).wf(),
        ensures
            final(self).wf(),
            *final(self) == (Dmc { output: val & 0x7f, ..*old(self) }),
    {
        assert(val & 0x7f <= 127) by (bit_vector);
        self.output = val & 0x7f;
    }

    /// $4012: sample address 0xC000 + 64 * val.
    pub fn write2(&mut self, val: u8)
        ensures
            *final(self) == (Dmc { start_address: (0xc000 + 64 * val) as u16, ..*old(self) }),
    {
        self.start_address = 0xc000 + 64 * (val as u16);
    }

    /// $4013: sample length 16 * val + 1 bytes.
    pub fn write3(&mut self, val: u8)
        ensures
            *final(self) == (Dmc { total_length: (16 * val + 1) as u16, ..*old(self) }),
    {
        self.total_length = 16 * (val as u16) + 1;
    }
}

} // verus!
