//! The standard pad: eight buttons read out one bit at a time through $4016.
use vstd::prelude::*;
use crate::buffer::{Buffer, bool_byte, lemma_consumed_chain};

verus! {

/// Button order in the state byte: A, B, Select, Start, Up, Down, Left,
/// Right, from bit 0 to bit 7.
pub struct Controller {
    /// Buttons held now, as the host reports them.
    pub state: u8,
    /// Buttons captured by the last strobe; reads shift these out.
    pub latched: u8,
    /// Which latched bit the next read returns.
    pub index: u8,
    /// Whether the strobe line is high.
    pub reset: bool,
}

impl Controller {
    pub open spec fn wf(&self) -> bool {
        self.index < 8
    }

    /// The bytes this controller is saved as.
    pub open spec fn bytes(&self) -> Seq<u8> {
        seq![self.state, self.latched, self.index] + bool_byte(self.reset)
    }

    /// The bytes begin with a saved controller.
    pub open spec fn parses(s: Seq<u8>) -> bool {
        s.len() >= 4 && s[2] < 8 && s[3] <= 1
    }

    pub fn new_controller() -> (r: Controller)
        ensures
            r.wf(),
            r.state == 0 && r.latched == 0 && r.index == 0 && !r.reset,
    {
        Controller { state: 0, latched: 0, index: 0, reset: false }
    }

    /// Returns the next latched button bit, least significant first, and
    /// moves to the next bit modulo 8.
    pub fn read(&mut self) -> (r: u8)
        requires
            old(self).wf(),
        ensures
            final(self).wf(),
            r == (old(self).latched >> old(self).index) & 1,
            final(self).index == (old(self).index + 1) % 8,
            final(self).state == old(self).state,
            final(self).latched == old(self).latched,
            final(self).reset == old(self).reset,
    {
        let val = (self.latched >> self.index) & 1;
        self.index = if self.index == 7 { 0 } else { self.index + 1 };
        val
    }

    /// `self` after a write of `val` to the strobe: bit 0 going from low to
    /// high latches the held buttons and restarts the read-out.
    pub open spec fn written(self, val: u8) -> Controller {
        if val & 1 == 1 && !self.reset {
            Controller { reset: true, latched: self.state, index: 0, ..self }
        } else {
            Controller { reset: val & 1 == 1, ..self }
        }
    }

    /// A strobe write; the rising edge of bit 0 latches the held buttons
    /// and restarts the read-out at the first button.
    pub fn write(&mut self, val: u8)
        requires
            old(self).wf(),
        ensures
            final(self).wf(),
            *final(self) == old(self).written(val),
    {
        let high = (val & 1) == 1;
        if high && !self.reset {
            self.latched = self.state;
            self.index = 0;
        }
        self.reset = high;
    }

    /// Sets or clears bit `index` of the held buttons.
    pub fn update_button(&mut self, index: u8, pressed: bool)
        requires
            index < 8,
        ensures
            pressed ==> final(self).state == old(self).state | (1u8 << index),
            !pressed ==> final(self).state == old(self).state & !(1u8 << index),
            final(self).latched == old(self).latched,
            final(self).index == old(self).index,
            final(self).reset == old(self).reset,
    {
        if pressed {
            self.state = self.state | (1u8 << index);
        } else {
            self.state = self.state & !(1u8 << index);
        }
    }

    pub fn encode(&self, buffer: &mut Buffer)
        ensures
            final(buffer).data@ == old(buffer).data@ + self.bytes(),
            final(buffer).index == old(buffer).index,
            final(buffer).overrun == old(buffer).overrun,
    {
        buffer.write_u8(self.state);
        buffer.write_u8(self.latched);
        buffer.write_u8(self.index);
        buffer.write_bool(self.reset);
        assert(buffer.data@ =~= old(buffer).data@ + self.bytes());
    }

    /// Reads the fields back; an out-of-range index marks the buffer as
    /// failed.
    pub fn decode(&mut self, buffer: &mut Buffer)
        requires
            old(buffer).wf(),
        ensures
            Buffer::consumed(*old(buffer), *final(buffer), final(self).bytes()),
            final(self).wf(),
            (!old(buffer).overrun && Controller::parses(old(buffer).rest())) ==> !final(buffer).overrun,
    {
        let ghost b0 = *buffer;
        let state = buffer.read_u8();
        let ghost b1 = *buffer;
        let latched = buffer.read_u8();
        let ghost b2 = *buffer;
        let index = buffer.read_u8();
        let ghost b3 = *buffer;
        let reset = buffer.read_bool();
        proof {
            assert(seq![state, latched] =~= seq![state] + seq![latched]);
            assert(seq![state, latched, index] =~= seq![state, latched] + seq![index]);
            lemma_consumed_chain(b0, b1, b2, seq![state], seq![latched]);
            lemma_consumed_chain(b0, b2, b3, seq![state, latched], seq![index]);
            lemma_consumed_chain(b0, b3, *buffer, seq![state, latched, index], bool_byte(reset));
        }
        if index >= 8 {
            buffer.overrun = true;
        }
        self.state = state;
        self.latched = latched;
        self.index = if index < 8 { index } else { 0 };
        self.reset = reset;
    }
}

/// Restoring a saved controller gives it back: when the unread bytes begin
/// with `c`'s encoding and a decode consumed them into `d` without
/// failing, `d` is `c`.
pub proof fn lemma_controller_round_trip(c: Controller, d: Controller, b0: Buffer, b1: Buffer)
    requires
        b0.wf(),
        b0.index + 4 <= b0.data@.len(),
        b0.data@.subrange(b0.index as int, b0.index + 4) == c.bytes(),
        Buffer::consumed(b0, b1, d.bytes()),
        !b1.overrun,
    ensures
        d == c,
{
    assert(d.bytes()[0] == c.bytes()[0]);
    assert(d.bytes()[1] == c.bytes()[1]);
    assert(d.bytes()[2] == c.bytes()[2]);
    assert(d.bytes()[3] == c.bytes()[3]);
}

} // verus!
