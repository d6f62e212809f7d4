//! Building blocks shared by the sound channels: lookup tables, envelope,
//! length counter and divider.
use vstd::prelude::*;

verus! {

/// Length-counter load values, indexed by the top five bits of a length write.
pub open spec fn length_table_spec(i: u8) -> u8 {
    match i {
        0 => 10,
        1 => 254,
        2 => 20,
        3 => 2,
        4 => 40,
        5 => 4,
        6 => 80,
        7 => 6,
        8 => 160,
        9 => 8,
        10 => 60,
        11 => 10,
        12 => 14,
        13 => 12,
        14 => 26,
        15 => 14,
        16 => 12,
        17 => 16,
        18 => 24,
        19 => 18,
        20 => 48,
        21 => 20,
        22 => 96,
        23 => 22,
        24 => 192,
        25 => 24,
        26 => 72,
        27 => 26,
        28 => 16,
        29 => 28,
        30 => 32,
        _ => 30,
    }
}

pub fn length_table(i: u8) -> (r: u8)
    requires
        i < 32,
    ensures
        r == length_table_spec(i),
{
    match i {
        0 => 10,
        1 => 254,
        2 => 20,
        3 => 2,
        4 => 40,
        5 => 4,
        6 => 80,
        7 => 6,
        8 => 160,
        9 => 8,
        10 => 60,
        11 => 10,
        12 => 14,
        13 => 12,
        14 => 26,
        15 => 14,
        16 => 12,
        17 => 16,
        18 => 24,
        19 => 18,
        20 => 48,
        21 => 20,
        22 => 96,
        23 => 22,
        24 => 192,
        25 => 24,
        26 => 72,
        27 => 26,
        28 => 16,
        29 => 28,
        30 => 32,
        _ => 30,
    }
}

/// Noise timer periods in APU cycles.
pub open spec fn noise_period_spec(i: u8) -> u16 {
    match i {
        0 => 4,
        1 => 8,
        2 => 16,
        3 => 32,
        4 => 64,
        5 => 96,
        6 => 128,
        7 => 160,
        8 => 202,
        9 => 254,
        10 => 380,
        11 => 508,
        12 => 762,
        13 => 1016,
        14 => 2034,
        _ => 4068,
    }
}

pub fn noise_period(i: u8) -> (r: u16)
    requires
        i < 16,
    ensures
        r == noise_period_spec(i),
{
    match i {
        0 => 4,
        1 => 8,
        2 => 16,
        3 => 32,
        4 => 64,
        5 => 96,
        6 => 128,
        7 => 160,
        8 => 202,
        9 => 254,
        10 => 380,
        11 => 508,
        12 => 762,
        13 => 1016,
        14 => 2034,
        _ => 4068,
    }
}

/// DMC timer periods in APU cycles.
pub open spec fn dmc_period_spec(i: u8) -> u16 {
    match i {
        0 => 428,
        1 => 380,
        2 => 340,
        3 => 320,
        4 => 286,
        5 => 254,
        6 => 226,
        7 => 214,
        8 => 190,
        9 => 160,
        10 => 142,
        11 => 128,
        12 => 106,
        13 => 84,
        14 => 72,
        _ => 54,
    }
}

pub fn dmc_period(i: u8) -> (r: u16)
    requires
        i < 16,
    ensures
        r == dmc_period_spec(i),
{
    match i {
        0 => 428,
        1 => 380,
        2 => 340,
        3 => 320,
        4 => 286,
        5 => 254,
        6 => 226,
        7 => 214,
        8 => 190,
        9 => 160,
        10 => 142,
        11 => 128,
        12 => 106,
        13 => 84,
        14 => 72,
        _ => 54,
    }
}

/// Square wave duty sequences: 12.5%, 25%, 50% and 75% (negated 25%).
pub open spec fn duty_spec(mode: u8, step: u8) -> u8 {
    let pattern: u8 = if mode == 0 {
        0x02
    } else if mode == 1 {
        0x06
    } else if mode == 2 {
        0x1e
    } else {
        0xf9
    };
    (pattern >> step) & 1
}

pub fn duty(mode: u8, step: u8) -> (r: u8)
    requires
        mode < 4,
        step < 8,
    ensures
        r == duty_spec(mode, step),
        r <= 1,
{
    let pattern: u8 = if mode == 0 {
        0x02
    } else if mode == 1 {
        0x06
    } else if mode == 2 {
        0x1e
    } else {
        0xf9
    };
    let r = (pattern >> step) & 1;
    assert(r <= 1) by (bit_vector)
        requires
            r == (pattern >> step) & 1,
    ;
    r
}

/// The triangle's 32-step output: 15 down to 0, then 0 up to 15.
pub open spec fn triangle_level(step: u8) -> u8 {
    if step < 16 {
        (15 - step) as u8
    } else {
        (step - 16) as u8
    }
}

/// Volume envelope: a decaying level, or a constant one.
pub struct Envelope {
    pub counter: u8,
    pub period: u8,
    pub start: bool,
    pub loop_mode: bool,
    pub constant_mode: bool,
    pub constant_volume: u8,
    pub volume: u8,
}

impl Envelope {
    pub fn new() -> (r: Envelope)
        ensures
            r == (Envelope {
                counter: 0,
                period: 0,
                start: false,
                loop_mode: false,
                constant_mode: false,
                constant_volume: 0,
                volume: 0,
            }),
    {
        Envelope {
            counter: 0,
            period: 0,
            start: false,
            loop_mode: false,
            constant_mode: false,
            constant_volume: 0,
            volume: 0,
        }
    }

    /// A quarter-frame clock: a pending start reloads the level to 15;
    /// otherwise the divider counts down and, on expiry, the level drops by
    /// one (wrapping to 15 in loop mode).
    pub fn step(&mut self)
        ensures
            old(self).start ==> *final(self) == (Envelope {
                start: false,
                volume: 15,
                counter: old(self).period,
                ..*old(self)
            }),
            !old(self).start && old(self).counter == 0 ==> *final(self) == (Envelope {
                volume: if old(self).volume > 0 {
                    (old(self).volume - 1) as u8
                } else if old(self).loop_mode {
                    15
                } else {
                    0
                },
                counter: old(self).period,
                ..*old(self)
            }),
            !old(self).start && old(self).counter > 0 ==> *final(self) == (Envelope {
                counter: (old(self).counter - 1) as u8,
                ..*old(self)
            }),
    {
        if self.start {
            self.start = false;
            self.volume = 15;
            self.counter = self.period;
            return;
        }
        if self.counter == 0 {
            if self.volume == 0 {
                if self.loop_mode {
                    self.volume = 15;
                }
            } else {
                self.volume = self.volume - 1;
            }
            self.counter = self.period;
        } else {
            self.counter = self.counter - 1;
        }
    }

    pub open spec fn output_spec(&self) -> u8 {
        if self.constant_mode {
            self.constant_volume
        } else {
            self.volume
        }
    }

    pub fn output(&self) -> (r: u8)
        ensures
            r == self.output_spec(),
            r == if self.constant_mode {
                self.constant_volume
            } else {
                self.volume
            },
    {
        if self.constant_mode {
            self.constant_volume
        } else {
            self.volume
        }
    }
}

/// Silences a channel after a set number of half frames unless halted.
pub struct LengthCounter {
    pub enabled: bool,
    pub counter: u8,
}

impl LengthCounter {
    pub fn new() -> (r: LengthCounter)
        ensures
            r == (LengthCounter { enabled: false, counter: 0 }),
    {
        LengthCounter { enabled: false, counter: 0 }
    }

    /// A half-frame clock: counts down while enabled and above zero.
    pub fn step(&mut self)
        ensures
            final(self).enabled == old(self).enabled,
            final(self).counter == if old(self).enabled && old(self).counter > 0 {
                (old(self).counter - 1) as u8
            } else {
                old(self).counter
            },
    {
        if self.enabled && self.counter > 0 {
            self.counter = self.counter - 1;
        }
    }

    /// Loads the counter from the table entry `index` (0..=31).
    pub fn set(&mut self, index: u8)
        requires
            index < 32,
        ensures
            final(self).enabled == old(self).enabled,
            final(self).counter == length_table_spec(index),
    {
        self.counter = length_table(index);
    }
}

/// A divider: fires when it reaches zero, then reloads from its period.
pub struct Timer {
    pub counter: u16,
    pub period: u16,
}

impl Timer {
    pub fn new() -> (r: Timer)
        ensures
            r == (Timer { counter: 0, period: 0 }),
    {
        Timer { counter: 0, period: 0 }
    }

    /// `self` after one clock.
    pub open spec fn stepped(self) -> Timer {
        if self.counter == 0 {
            Timer { counter: self.period, ..self }
        } else {
            Timer { counter: (self.counter - 1) as u16, ..self }
        }
    }

    pub fn step(&mut self) -> (r: bool)
        ensures
            r == (old(self).counter == 0),
            *final(self) == old(self).stepped(),
            final(self).period == old(self).period,
            final(self).counter == if r {
                old(self).period
            } else {
                (old(self).counter - 1) as u16
            },
    {
        if self.counter == 0 {
            self.counter = self.period;
            true
        } else {
            self.counter = self.counter - 1;
            false
        }
    }
}

} // verus!
