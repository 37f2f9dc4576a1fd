//! The noise channel (channel 4): a linear-feedback shift register clocked
//! by a programmable divider.
use vstd::prelude::*;
use crate::bits::lemma_byte;
use crate::apu::envelope::{Envelope, lemma_wf_preserved};
use crate::apu::length::LengthTimer;

verus! {

/// One step of the 15-bit LFSR: the XOR of the two low bits is shifted in at
/// bit 14 and, in the short (7-bit) mode, also written to bit 6.
pub open spec fn lfsr_next(lfsr: u16, width_short: bool) -> u16 {
    let x: u16 = (lfsr & 1u16) ^ ((lfsr & 2u16) >> 1u16);
    let l: u16 = (lfsr >> 1u16) | (x << 14u16);
    if width_short {
        (l & !(1u16 << 6u16)) | (x << 6u16)
    } else {
        l
    }
}

/// The reload value of the frequency timer: the divisor (8 for a divider of
/// 0, else the divider times 16, kept to 8 bits) shifted left by `shift`.
pub open spec fn noise_period(divider: u8, shift: u8) -> u16 {
    let div_value: u8 = if divider > 0 { divider << 4u8 } else { 8u8 };
    (div_value as u16) << shift
}

pub struct NoiseChannel {
    pub envelope: Envelope,
    pub length: LengthTimer,
    pub shift: u8,
    pub width_short: bool,
    pub divider: u8,
    pub freq_timer: u16,
    pub lfsr: u16,
    pub channel_enabled: bool,
}

impl NoiseChannel {
    /// The state `new` gives: silent, the LFSR at 1 and everything else zero.
    pub open spec fn is_new(self) -> bool {
        &&& self.envelope == Envelope::new_spec()
        &&& self.length == (LengthTimer { timer: 0, enable: false })
        &&& self.shift == 0
        &&& !self.width_short
        &&& self.divider == 0
        &&& self.freq_timer == 0
        &&& self.lfsr == 1
        &&& !self.channel_enabled
    }

    /// The channel after a trigger.
    pub open spec fn after_trigger(self) -> Self {
        NoiseChannel {
            channel_enabled: true,
            freq_timer: noise_period(self.divider, self.shift),
            envelope: self.envelope.after_trigger(),
            length: self.length.after_trigger(),
            ..self
        }
    }

    /// The channel after a length step.
    pub open spec fn after_tick_length(self) -> Self {
        if self.channel_enabled {
            NoiseChannel {
                length: self.length.after_tick(),
                channel_enabled: !self.length.expires_on_tick(),
                ..self
            }
        } else {
            self
        }
    }

    /// The channel after an envelope step.
    pub open spec fn after_tick_envelope(self) -> Self {
        if self.channel_enabled {
            NoiseChannel { envelope: self.envelope.after_tick(), ..self }
        } else {
            self
        }
    }

    /// The channel after one clock.
    pub open spec fn after_tick(self) -> Self {
        if !self.channel_enabled {
            self
        } else if self.freq_timer > 1 {
            NoiseChannel { freq_timer: (self.freq_timer - 1) as u16, ..self }
        } else {
            NoiseChannel {
                freq_timer: noise_period(self.divider, self.shift),
                lfsr: lfsr_next(self.lfsr, self.width_short),
                ..self
            }
        }
    }

    /// The shift amount fits a 16-bit timer and the volumes are 4-bit values.
    pub open spec fn wf(&self) -> bool {
        self.shift < 16 && self.envelope.wf()
    }

    pub fn new() -> (r: Self)
        ensures
            r.wf(),
            r.envelope == Envelope::new_spec(),
            r.length == (LengthTimer { timer: 0, enable: false }),
            r.shift == 0,
            !r.width_short,
            r.divider == 0,
            r.freq_timer == 0,
            r.lfsr == 1,
            !r.channel_enabled,
    {
        Self {
            envelope: Envelope::new(),
            length: LengthTimer::new(),
            shift: 0,
            width_short: false,
            divider: 0,
            freq_timer: 0,
            lfsr: 0x1,
            channel_enabled: false,
        }
    }

    pub fn reset_freq_timer(&mut self)
        requires
            old(self).shift < 16,
        ensures
            *final(self) == (NoiseChannel {
                freq_timer: noise_period(old(self).divider, old(self).shift),
                ..*old(self)
            }),
    {
        let div_value: u8 = if self.divider > 0 {
            self.divider << 4u8
        } else {
            8
        };
        self.freq_timer = (div_value as u16) << self.shift;
    }

    /// Enables the channel and restarts its timer, envelope and length.
    pub fn trigger(&mut self)
        requires
            old(self).wf(),
        ensures
            final(self).wf(),
            *final(self) == old(self).after_trigger(),
    {
        proof {
            lemma_wf_preserved(self.envelope, 0);
        }
        self.channel_enabled = true;
        self.reset_freq_timer();
        self.envelope.trigger();
        self.length.trigger();
    }

    pub fn tick_envelope(&mut self)
        requires
            old(self).wf(),
        ensures
            final(self).wf(),
            *final(self) == old(self).after_tick_envelope(),
    {
        proof {
            lemma_wf_preserved(self.envelope, 0);
        }
        if !self.channel_enabled {
            return ;
        }
        self.envelope.tick();
    }

    /// Counts the length down; the channel turns off when it expires.
    pub fn tick_length(&mut self)
        ensures
            *final(self) == old(self).after_tick_length(),
    {
        if !self.channel_enabled {
            return ;
        }
        if self.length.tick() {
            self.channel_enabled = false;
        }
    }

    /// One clock: the frequency timer counts down and, on reaching zero,
    /// reloads and steps the LFSR.
    pub fn tick(&mut self)
        requires
            old(self).wf(),
        ensures
            final(self).wf(),
            *final(self) == old(self).after_tick(),
    {
        if !self.channel_enabled {
            return ;
        }
        if self.freq_timer > 0 {
            self.freq_timer -= 1;
        }
        if self.freq_timer == 0 {
            self.reset_freq_timer();
            let xor_result: u16 = (self.lfsr & 0b01) ^ ((self.lfsr & 0b10) >> 1u16);
            self.lfsr = (self.lfsr >> 1u16) | (xor_result << 14u16);
            if self.width_short {
                self.lfsr = (self.lfsr & !(1u16 << 6u16)) | (xor_result << 6u16);
            }
        }
    }

    /// The channel's signed output level: the envelope volume (0-15), negated
    /// when bit 0 of the LFSR is set; 0 while the channel is off.
    pub fn signed_volume(&self) -> (r: i8)
        requires
            self.wf(),
        ensures
            r == (if !self.channel_enabled {
                0
            } else if self.lfsr & 1 == 0 {
                self.envelope.curent_volume as int
            } else {
                -(self.envelope.curent_volume as int)
            }),
    {
        if !self.channel_enabled {
            return 0;
        }
        let v = self.envelope.volume() as i8;
        if self.lfsr & 1 == 0 {
            v
        } else {
            -v
        }
    }

    /// Register reads are not implemented for this channel: always 0.
    pub fn read_register(&self, reg: u8) -> (r: u8)
        ensures
            r == 0,
    {
        0
    }

    /// How a write of `value` to register index `reg` changes the channel.
    pub open spec fn register_written(self, new: Self, reg: u8, value: u8) -> bool {
        new == if reg == 1 {
            NoiseChannel { length: self.length.with_inv(value), ..self }
        } else if reg == 2 {
            NoiseChannel { envelope: self.envelope.with_mmio(value), ..self }
        } else if reg == 3 {
            NoiseChannel {
                divider: value & 7,
                width_short: value & 8 != 0,
                shift: value >> 4u8,
                ..self
            }
        } else if reg == 4 {
            let l = NoiseChannel {
                length: LengthTimer { enable: value & 0x40 != 0, ..self.length },
                ..self
            };
            if value & 0x80 != 0 {
                l.after_trigger()
            } else {
                l
            }
        } else {
            self
        }
    }

    /// A write to NR41 (1), NR42 (2), NR43 (3) or NR44 (4); other indices
    /// are ignored.
    pub fn write_register(&mut self, reg: u8, value: u8)
        requires
            old(self).wf(),
        ensures
            final(self).wf(),
            old(self).register_written(*final(self), reg, value),
    {
        proof {
            lemma_wf_preserved(self.envelope, value);
        }
        match reg {
            1 => {
                self.length.set_from_inv(value);
            },
            2 => {
                self.envelope.set_from_mmio(value);
            },
            3 => {
                self.divider = value & 0b111;
                self.width_short = value & 8 != 0;
                self.shift = value >> 4u8;
                proof {
                    lemma_byte(value);
                }
            },
            4 => {
                self.length.enable = value & 0x40 != 0;
                if value & 0x80 != 0 {
                    self.trigger();
                }
            },
            _ => {},
        }
    }

    pub fn is_enabled(&self) -> (r: bool)
        ensures
            r == self.channel_enabled,
    {
        self.channel_enabled
    }
}

/// The LFSR is 15 bits wide: stepping it never sets bit 15.
pub proof fn lemma_lfsr_stays_15_bits(lfsr: u16, width_short: bool)
    requires
        lfsr < 0x8000,
    ensures
        lfsr_next(lfsr, width_short) < 0x8000,
{
    let x: u16 = (lfsr & 1u16) ^ ((lfsr & 2u16) >> 1u16);
    let l: u16 = (lfsr >> 1u16) | (x << 14u16);
    assert(lfsr < 0x8000 ==> l < 0x8000) by (bit_vector)
        requires
            x == (lfsr & 1u16) ^ ((lfsr & 2u16) >> 1u16),
            l == (lfsr >> 1u16) | (x << 14u16),
    ;
    assert(l < 0x8000 && x <= 1 ==> (l & !(1u16 << 6u16)) | (x << 6u16) < 0x8000) by (bit_vector);
    assert(x <= 1) by (bit_vector)
        requires
            x == (lfsr & 1u16) ^ ((lfsr & 2u16) >> 1u16),
    ;
}

/// In the long (15-bit) mode a nonzero LFSR never locks up at zero.
pub proof fn lemma_lfsr_long_nonzero(lfsr: u16)
    requires
        lfsr != 0,
    ensures
        lfsr_next(lfsr, false) != 0,
{
    let x: u16 = (lfsr & 1u16) ^ ((lfsr & 2u16) >> 1u16);
    assert(lfsr != 0 ==> (lfsr >> 1u16) | (x << 14u16) != 0) by (bit_vector)
        requires
            x == (lfsr & 1u16) ^ ((lfsr & 2u16) >> 1u16),
    ;
}

} // verus!
