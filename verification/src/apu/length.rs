//! The length counter that silences a channel after a programmed time.
use vstd::prelude::*;
use crate::bits::lemma_byte;

verus! {

#[derive(Clone, Copy)]
pub struct LengthTimer {
    pub timer: u8,
    pub enable: bool,
}

impl LengthTimer {
    /// The timer after a write of `value` to NRx1: 64 minus its low six bits.
    pub open spec fn with_inv(self, value: u8) -> LengthTimer {
        LengthTimer { timer: (64 - value % 64) as u8, ..self }
    }

    /// One tick counts an enabled, unexpired timer down by one.
    pub open spec fn after_tick(self) -> LengthTimer {
        if self.enable && self.timer > 0 {
            LengthTimer { timer: (self.timer - 1) as u8, ..self }
        } else {
            self
        }
    }

    /// Whether the next tick brings the timer to zero.
    pub open spec fn expires_on_tick(self) -> bool {
        self.enable && self.timer == 1
    }

    /// A trigger reloads an expired timer with the full length, 64.
    pub open spec fn after_trigger(self) -> LengthTimer {
        LengthTimer { timer: if self.timer == 0 { 64 } else { self.timer }, ..self }
    }

    pub fn new() -> (r: Self)
        ensures
            r == (LengthTimer { timer: 0, enable: false }),
    {
        LengthTimer { timer: 0, enable: false }
    }

    /// Loads the counter from the inverted 6-bit length of NRx1: 64 minus it.
    pub fn set_from_inv(&mut self, value: u8)
        ensures
            *final(self) == old(self).with_inv(value),
    {
        proof {
            lemma_byte(value);
        }
        self.timer = 64 - (value & 0x3f);
    }

    /// Counts down when enabled; returns true when the counter has just
    /// reached zero, i.e. the channel must be disabled.
    pub fn tick(&mut self) -> (r: bool)
        ensures
            *final(self) == old(self).after_tick(),
            r == old(self).expires_on_tick(),
    {
        if self.enable && self.timer > 0 {
            self.timer -= 1;
            self.timer == 0
        } else {
            false
        }
    }

    pub fn trigger(&mut self)
        ensures
            *final(self) == old(self).after_trigger(),
    {
        if self.timer == 0 {
            self.timer = 64;
        }
    }
}

} // verus!
