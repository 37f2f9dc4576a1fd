//! The square wave channels (channel 1, with a sweep unit, and channel 2).
use vstd::prelude::*;
use crate::bits::lemma_byte;
use crate::apu::envelope::{Envelope, EnvelopeDirection, lemma_wf_preserved};
use crate::apu::wave::{WaveDuty, duty_pattern_spec};

verus! {

/// The frequency timer's reload value for an 11-bit frequency value.
pub open spec fn square_period(frequency: u16) -> u16 {
    ((2048 - frequency) * 4) as u16
}

pub struct SquareWaveChannel<const HAS_SWEEP: bool> {
    pub wave_duty: WaveDuty,
    pub envelope: Envelope,
    /// The 11-bit frequency value (a.k.a. wavelength).
    pub frequency: u16,
    pub freq_timer: u16,
    pub length_timer: u16,
    pub length_timer_enable: bool,
    pub channel_enabled: bool,
}

impl<const HAS_SWEEP: bool> SquareWaveChannel<HAS_SWEEP> {
    /// The state `new` gives: silent, 12.5% duty at its first step, the
    /// frequency timer at 8192 and everything else zero.
    pub open spec fn is_new(self) -> bool {
        &&& self.envelope == Envelope::new_spec()
        &&& self.wave_duty.pattern@ == duty_pattern_spec(0)
        &&& self.wave_duty.position == 0
        &&& self.freq_timer == 8192
        &&& self.frequency == 0
        &&& self.length_timer == 0
        &&& !self.length_timer_enable
        &&& !self.channel_enabled
    }

    /// The channel after a trigger.
    pub open spec fn after_trigger(self) -> Self {
        SquareWaveChannel {
            freq_timer: square_period(self.frequency),
            channel_enabled: true,
            envelope: self.envelope.after_trigger(),
            length_timer: if self.length_timer == 0 { 64 } else { self.length_timer },
            ..self
        }
    }

    /// The channel after a length step.
    pub open spec fn after_tick_length(self) -> Self {
        if self.channel_enabled && self.length_timer_enable && self.length_timer > 0 {
            SquareWaveChannel {
                length_timer: (self.length_timer - 1) as u16,
                channel_enabled: self.length_timer != 1,
                ..self
            }
        } else {
            self
        }
    }

    /// The channel after an envelope step.
    pub open spec fn after_tick_envelope(self) -> Self {
        if self.channel_enabled {
            SquareWaveChannel { envelope: self.envelope.after_tick(), ..self }
        } else {
            self
        }
    }

    /// The channel after one clock.
    pub open spec fn after_tick(self) -> Self {
        if !(self.channel_enabled && self.freq_timer > 0) {
            self
        } else if self.freq_timer > 1 {
            SquareWaveChannel { freq_timer: (self.freq_timer - 1) as u16, ..self }
        } else {
            SquareWaveChannel {
                freq_timer: square_period(self.frequency),
                wave_duty: WaveDuty {
                    position: ((self.wave_duty.position + 1) % 8) as usize,
                    ..self.wave_duty
                },
                ..self
            }
        }
    }

    /// The frequency is an 11-bit value, the duty position one of eight and
    /// the volumes 4-bit values.
    pub open spec fn wf(&self) -> bool {
        &&& self.frequency < 2048
        &&& self.wave_duty.wf()
        &&& self.envelope.wf()
    }

    pub fn new() -> (r: Self)
        ensures
            r.wf(),
            r.envelope == Envelope::new_spec(),
            r.wave_duty.pattern@ == duty_pattern_spec(0),
            r.wave_duty.position == 0,
            r.freq_timer == 8192,
            r.frequency == 0,
            r.length_timer == 0,
            !r.length_timer_enable,
            !r.channel_enabled,
    {
        Self {
            envelope: Envelope::new(),
            wave_duty: WaveDuty::new(),
            freq_timer: 8192,
            frequency: 0,
            length_timer: 0,
            length_timer_enable: false,
            channel_enabled: false,
        }
    }

    pub fn reset_freq_timer(&mut self)
        requires
            old(self).frequency <= 2048,
        ensures
            *final(self) == (SquareWaveChannel::<HAS_SWEEP> {
                freq_timer: square_period(old(self).frequency),
                ..*old(self)
            }),
    {
        self.freq_timer = (2048 - self.frequency) * 4;
    }

    /// Enables the channel, restarts the timer and envelope and reloads an
    /// expired length with 64.
    pub fn trigger(&mut self)
        requires
            old(self).wf(),
        ensures
            final(self).wf(),
            *final(self) == old(self).after_trigger(),
    {
        proof {
            lemma_wf_preserved(self.envelope, 0);
        }
        self.reset_freq_timer();
        self.channel_enabled = true;
        self.envelope.trigger();
        if self.length_timer == 0 {
            self.length_timer = 64;
        }
    }

    /// Counts the length down when enabled; the channel turns off when it
    /// reaches zero.
    pub fn tick_length(&mut self)
        ensures
            *final(self) == old(self).after_tick_length(),
    {
        if !self.channel_enabled {
            return ;
        }
        if self.length_timer_enable && self.length_timer > 0 {
            self.length_timer -= 1;
            if self.length_timer == 0 {
                self.channel_enabled = false;
            }
        }
    }

    pub fn tick_envelope(&mut self)
        requires
            old(self).wf(),
        ensures
            final(self).wf(),
            *final(self) == old(self).after_tick_envelope(),
    {
        proof {
            lemma_wf_preserved(self.envelope, 0);
        }
        if !self.channel_enabled {
            return ;
        }
        self.envelope.tick()
    }

    /// The sweep unit is not emulated: a sweep step changes nothing.
    pub fn tick_sweep(&mut self)
        ensures
            *final(self) == *old(self),
    {
    }

    /// One clock: a running frequency timer counts down and, on reaching
    /// zero, reloads and advances the duty step. A timer already at zero
    /// stays there.
    pub fn tick(&mut self)
        requires
            old(self).wf(),
        ensures
            final(self).wf(),
            *final(self) == old(self).after_tick(),
    {
        if !self.channel_enabled {
            return ;
        }
        if self.freq_timer > 0 {
            self.freq_timer -= 1;
            if self.freq_timer == 0 {
                self.reset_freq_timer();
                self.wave_duty.tick();
            }
        }
    }

    /// The channel's signed output level: the envelope volume when the
    /// current duty step is high, its negation when low, 0 while off.
    pub fn signed_volume(&self) -> (r: i8)
        requires
            self.wf(),
        ensures
            r == (if !self.channel_enabled {
                0
            } else if self.wave_duty.pattern@[self.wave_duty.position as int] != 0 {
                self.envelope.curent_volume as int
            } else {
                -(self.envelope.curent_volume as int)
            }),
    {
        if !self.channel_enabled {
            return 0;
        }
        let data = self.wave_duty.get_data();
        let v = self.envelope.volume() as i8;
        if data != 0 {
            v
        } else {
            -v
        }
    }

    /// Register reads are not implemented for this channel: always 0.
    pub fn read_register(&self, reg: u8) -> (r: u8)
        ensures
            r == 0,
    {
        0
    }

    /// How a write of `value` to register index `reg` changes the channel.
    pub open spec fn register_written(self, new: Self, reg: u8, value: u8) -> bool {
        if reg == 1 {
            &&& new.wave_duty.pattern@ == duty_pattern_spec((value >> 6u8) as usize)
            &&& new.wave_duty.position == self.wave_duty.position
            &&& new == (SquareWaveChannel::<HAS_SWEEP> {
                wave_duty: new.wave_duty,
                length_timer: (64 - value % 64) as u16,
                ..self
            })
        } else if reg == 2 {
            new == (SquareWaveChannel::<HAS_SWEEP> {
                envelope: self.envelope.with_mmio(value),
                ..self
            })
        } else if reg == 3 {
            new == (SquareWaveChannel::<HAS_SWEEP> {
                frequency: (self.frequency & 0x700) | (value as u16),
                ..self
            })
        } else if reg == 4 {
            let l = SquareWaveChannel::<HAS_SWEEP> {
                frequency: (self.frequency & 0xff) | (((value as u16) & 7) << 8u16),
                length_timer_enable: value & 0x40 != 0,
                ..self
            };
            new == if value & 0x80 != 0 {
                l.after_trigger()
            } else {
                l
            }
        } else {
            new == self
        }
    }

    /// A write to NRx0 (0, the sweep, ignored), NRx1 (1), NRx2 (2), NRx3 (3)
    /// or NRx4 (4); other indices are ignored.
    pub fn write_register(&mut self, reg: u8, value: u8)
        requires
            old(self).wf(),
        ensures
            final(self).wf(),
            old(self).register_written(*final(self), reg, value),
    {
        proof {
            lemma_wf_preserved(self.envelope, value);
        }
        match reg {
            0 if HAS_SWEEP => {},
            1 => {
                proof {
                    lemma_byte(value);
                }
                self.wave_duty.set_pattern_type((value >> 6u8) as usize);
                self.length_timer = 64 - (value & 0x3f) as u16;
            },
            2 => {
                self.envelope.period = value & 0x7;
                self.envelope.direction = if value & 0x8 != 0 {
                    EnvelopeDirection::Up
                } else {
                    EnvelopeDirection::Down
                };
                self.envelope.start_volume = value >> 4u8;
            },
            3 => {
                let f = self.frequency;
                assert(f < 2048 ==> (f & 0x700) | (value as u16) < 2048) by (bit_vector);
                self.frequency = (self.frequency & 0x700) | value as u16;
            },
            4 => {
                let f = self.frequency;
                assert((f & 0xff) | (((value as u16) & 7) << 8u16) < 2048) by (bit_vector);
                self.frequency = (self.frequency & 0xff) | ((value as u16 & 0b111) << 8u16);
                self.length_timer_enable = value & 0x40 != 0;
                if value & 0x80 != 0 {
                    self.trigger();
                }
            },
            _ => {},
        }
    }

    pub fn is_enabled(&self) -> (r: bool)
        ensures
            r == self.channel_enabled,
    {
        self.channel_enabled
    }
}

} // verus!
