//! The volume envelope of a sound channel.
use vstd::prelude::*;
use crate::bits::lemma_byte;
use crate::bitpack::lemma_unpack8;

verus! {

#[derive(Clone, Copy, PartialEq, Eq, Debug, Structural)]
pub enum EnvelopeDirection {
    Down,
    Up,
}

#[derive(Clone, Copy)]
pub struct Envelope {
    pub start_volume: u8,
    pub period: u8,
    pub direction: EnvelopeDirection,
    pub period_timer: u8,
    pub curent_volume: u8,
}

impl Envelope {
    /// Both volumes are 4-bit values.
    pub open spec fn wf(self) -> bool {
        self.start_volume <= 15 && self.curent_volume <= 15
    }

    /// The envelope after one tick of the frame sequencer's envelope step:
    /// with a zero period nothing happens; otherwise the timer counts down
    /// and, on reaching zero, reloads and moves the volume one step in the
    /// envelope's direction, staying within 0-15.
    pub open spec fn after_tick(self) -> Envelope {
        if self.period == 0 {
            self
        } else {
            let timer = if self.period_timer > 0 { (self.period_timer - 1) as u8 } else { 0u8 };
            if timer == 0 {
                let vol = match self.direction {
                    EnvelopeDirection::Down => if self.curent_volume > 0 {
                        (self.curent_volume - 1) as u8
                    } else {
                        self.curent_volume
                    },
                    EnvelopeDirection::Up => if self.curent_volume < 15 {
                        (self.curent_volume + 1) as u8
                    } else {
                        self.curent_volume
                    },
                };
                Envelope { period_timer: self.period, curent_volume: vol, ..self }
            } else {
                Envelope { period_timer: timer, ..self }
            }
        }
    }

    /// The NRx2 register: initial volume in bits 4-7, direction in bit 3
    /// (set for up), period in bits 0-2.
    pub open spec fn mmio_spec(self) -> u8 {
        (self.start_volume << 4u8) | ((if self.direction == EnvelopeDirection::Up { 1u8 } else { 0u8 })
            << 3u8) | self.period
    }

    /// The envelope after a write of `value` to its NRx2 register.
    pub open spec fn with_mmio(self, value: u8) -> Envelope {
        Envelope {
            period: value & 0x7,
            direction: if value & 0x8 != 0 { EnvelopeDirection::Up } else { EnvelopeDirection::Down },
            start_volume: value >> 4u8,
            ..self
        }
    }

    /// The envelope after a trigger: back at its initial volume, with the
    /// timer reloaded.
    pub open spec fn after_trigger(self) -> Envelope {
        Envelope { curent_volume: self.start_volume, period_timer: self.period, ..self }
    }

    /// Everything zero, direction down.
    pub open spec fn new_spec() -> Envelope {
        Envelope {
            start_volume: 0,
            period: 0,
            direction: EnvelopeDirection::Down,
            period_timer: 0,
            curent_volume: 0,
        }
    }

    pub fn new() -> (r: Self)
        ensures
            r == Envelope::new_spec(),
    {
        Envelope {
            start_volume: 0,
            period: 0,
            direction: EnvelopeDirection::Down,
            period_timer: 0,
            curent_volume: 0,
        }
    }

    pub fn to_mmio(&self) -> (r: u8)
        ensures
            r == self.mmio_spec(),
    {
        let d: u8 = match self.direction {
            EnvelopeDirection::Down => 0,
            EnvelopeDirection::Up => 1,
        };
        (self.start_volume << 4u8) | (d << 3u8) | self.period
    }

    pub fn set_from_mmio(&mut self, value: u8)
        ensures
            *final(self) == old(self).with_mmio(value),
    {
        self.period = value & 0x7;
        self.direction = if value & 0x8 != 0 {
            EnvelopeDirection::Up
        } else {
            EnvelopeDirection::Down
        };
        self.start_volume = value >> 4u8;
    }

    /// Restarts the envelope at its initial volume.
    pub fn trigger(&mut self)
        ensures
            *final(self) == old(self).after_trigger(),
    {
        self.curent_volume = self.start_volume;
        self.period_timer = self.period;
    }

    /// Volume in the 0-15 range.
    pub fn volume(&self) -> (r: u8)
        ensures
            r == self.curent_volume,
    {
        self.curent_volume
    }

    pub fn tick(&mut self)
        ensures
            *final(self) == old(self).after_tick(),
    {
        if self.period == 0 {
            return;
        }
        if self.period_timer > 0 {
            self.period_timer -= 1;
        }
        if self.period_timer == 0 {
            self.period_timer = self.period;
            match self.direction {
                EnvelopeDirection::Down => {
                    if self.curent_volume > 0 {
                        self.curent_volume -= 1;
                    }
                },
                EnvelopeDirection::Up => {
                    if self.curent_volume < 0xF {
                        self.curent_volume += 1;
                    }
                },
            }
        }
    }
}

/// Writing NRx2 and reading it back gives the written value.
pub proof fn lemma_mmio_roundtrip(e: Envelope, value: u8)
    ensures
        e.with_mmio(value).mmio_spec() == value,
{
    lemma_unpack8(value);
}

/// Every envelope operation keeps both volumes within 0-15.
pub proof fn lemma_wf_preserved(e: Envelope, value: u8)
    requires
        e.wf(),
    ensures
        e.after_tick().wf(),
        e.with_mmio(value).wf(),
        e.after_trigger().wf(),
{
    lemma_byte(value);
}

} // verus!
