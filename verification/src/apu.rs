//! The audio processing unit: its channels, the frame sequencer driven by
//! DIV and the sound control registers NR50-NR52.
pub mod envelope;
pub mod length;
pub mod wave;
pub mod frame_sequencer;
pub mod terminal;
pub mod noise;
pub mod square;

use vstd::prelude::*;
use crate::bits::lemma_byte;
use crate::bitpack::{pack8, pack_byte, lemma_pack8, lemma_unpack8};
use crate::apu::square::SquareWaveChannel;
use crate::apu::noise::NoiseChannel;
use crate::apu::terminal::Terminal;

verus! {

pub const R_NR10: u16 = 0xFF10;
pub const R_NR11: u16 = 0xFF11;
pub const R_NR12: u16 = 0xFF12;
pub const R_NR13: u16 = 0xFF13;
pub const R_NR14: u16 = 0xFF14;
pub const R_NR21: u16 = 0xFF16;
pub const R_NR22: u16 = 0xFF17;
pub const R_NR23: u16 = 0xFF18;
pub const R_NR24: u16 = 0xFF19;
pub const R_NR31: u16 = 0xFF1B;
pub const R_NR41: u16 = 0xFF20;
pub const R_NR42: u16 = 0xFF21;
pub const R_NR43: u16 = 0xFF22;
pub const R_NR44: u16 = 0xFF23;
pub const R_NR50: u16 = 0xFF24;
pub const R_NR51: u16 = 0xFF25;
pub const R_NR52: u16 = 0xFF26;

/// Output sample rate, in Hz.
pub const AUDIO_SAMPLE_RATE: usize = 48000;

/// CPU cycles between two output samples (4194304 Hz / 48000 Hz).
pub const AUDIO_CYCLES_PER_SAMPLE: usize = 87;

/// The DIV bit whose falling edge steps the frame sequencer.
pub const DIV_SEQUENCER_BIT: u16 = 0x1000;

/// 1 for true, 0 for false.
pub open spec fn bit_of_bool(b: bool) -> u8 {
    if b {
        1
    } else {
        0
    }
}

fn bool_bit(b: bool) -> (r: u8)
    ensures
        r == bit_of_bool(b),
{
    if b {
        1
    } else {
        0
    }
}

/// NR51: bit N routes channel N+1 to the right terminal, bit N+4 to the left.
pub open spec fn nr51_spec(right: (bool, bool, bool, bool), left: (bool, bool, bool, bool)) -> u8 {
    pack8(
        bit_of_bool(right.0),
        bit_of_bool(right.1),
        bit_of_bool(right.2),
        bit_of_bool(right.3),
        bit_of_bool(left.0),
        bit_of_bool(left.1),
        bit_of_bool(left.2),
        bit_of_bool(left.3),
    )
}

/// The channel routing to the right terminal written to NR51: bits 0-3.
pub open spec fn routing_right(value: u8) -> (bool, bool, bool, bool) {
    (value & 0x01 != 0, value & 0x02 != 0, value & 0x04 != 0, value & 0x08 != 0)
}

/// The channel routing to the left terminal written to NR51: bits 4-7.
pub open spec fn routing_left(value: u8) -> (bool, bool, bool, bool) {
    (value & 0x10 != 0, value & 0x20 != 0, value & 0x40 != 0, value & 0x80 != 0)
}

pub struct Apu {
    pub enabled: bool,
    /// Channel 1: square wave with sweep.
    pub ch1: SquareWaveChannel<true>,
    /// Channel 2: square wave without sweep.
    pub ch2: SquareWaveChannel<false>,
    /// Channel 4: noise.
    pub ch4: NoiseChannel,
    /// The right (SO1) terminal.
    pub right: Terminal,
    /// The left (SO2) terminal.
    pub left: Terminal,
    pub sequencer: u8,
    pub sample_cycles: usize,
    pub prev_div: u16,
}

impl Apu {
    /// The channels are well formed, the sequencer is one of eight steps and
    /// the sample counter below its period.
    pub open spec fn wf(&self) -> bool {
        &&& self.ch1.wf()
        &&& self.ch2.wf()
        &&& self.ch4.wf()
        &&& self.sequencer < 8
        &&& self.sample_cycles < AUDIO_CYCLES_PER_SAMPLE
    }

    /// Every channel clocked once.
    pub open spec fn after_tick_all(self) -> Apu {
        Apu {
            ch1: self.ch1.after_tick(),
            ch2: self.ch2.after_tick(),
            ch4: self.ch4.after_tick(),
            ..self
        }
    }

    /// Every channel clocked `n` times.
    pub open spec fn after_ticks(self, n: nat) -> Apu
        decreases n,
    {
        if n == 0 {
            self
        } else {
            self.after_ticks((n - 1) as nat).after_tick_all()
        }
    }

    pub open spec fn after_tick_length_all(self) -> Apu {
        Apu {
            ch1: self.ch1.after_tick_length(),
            ch2: self.ch2.after_tick_length(),
            ch4: self.ch4.after_tick_length(),
            ..self
        }
    }

    pub open spec fn after_tick_envelope_all(self) -> Apu {
        Apu {
            ch1: self.ch1.after_tick_envelope(),
            ch2: self.ch2.after_tick_envelope(),
            ch4: self.ch4.after_tick_envelope(),
            ..self
        }
    }

    /// One frame sequencer step: the step advances (modulo 8) and then
    /// steps 0 and 4 clock the lengths, 2 and 6 the lengths and the sweep,
    /// and 7 the envelopes.
    pub open spec fn after_sequencer_step(self) -> Apu {
        let s = ((self.sequencer + 1) % 8) as u8;
        let a = Apu { sequencer: s, ..self };
        if s == 0 || s == 4 || s == 2 || s == 6 {
            a.after_tick_length_all()
        } else if s == 7 {
            a.after_tick_envelope_all()
        } else {
            a
        }
    }

    /// Whether going from the previous DIV value to `div` is a falling edge
    /// of DIV's bit 12.
    pub open spec fn is_falling_edge(self, div: u16) -> bool {
        div & DIV_SEQUENCER_BIT == 0 && self.prev_div & DIV_SEQUENCER_BIT != 0
    }

    /// The APU after one 4-cycle step with DIV at `div`, and whether a new
    /// output sample is due.
    pub open spec fn tick_spec(self, div: u16) -> (Apu, bool) {
        let a = Apu { prev_div: div, ..self };
        if !self.enabled {
            (a, false)
        } else {
            let b = a.after_ticks(4);
            let c = if self.is_falling_edge(div) {
                b.after_sequencer_step()
            } else {
                b
            };
            let sc = c.sample_cycles + 4;
            if sc >= AUDIO_CYCLES_PER_SAMPLE {
                (Apu { sample_cycles: (sc - AUDIO_CYCLES_PER_SAMPLE) as usize, ..c }, true)
            } else {
                (Apu { sample_cycles: sc as usize, ..c }, false)
            }
        }
    }

    /// Whether a write to `addr` goes through: always while the APU is on;
    /// while off, only to NR52, the length registers NRx1 and wave RAM.
    pub open spec fn write_allowed(self, addr: u16) -> bool {
        ||| self.enabled
        ||| addr == R_NR52
        ||| addr == R_NR11
        ||| addr == R_NR21
        ||| addr == R_NR31
        ||| addr == R_NR41
        ||| 0xff30 <= addr <= 0xff3f
    }

    /// The value read from `addr`: NR50, NR51 and NR52; 0 elsewhere.
    pub open spec fn read_spec(self, addr: u16) -> u8 {
        if addr == R_NR50 {
            self.right.volume | (self.left.volume << 4u8)
        } else if addr == R_NR51 {
            nr51_spec(self.right.enabled_channels, self.left.enabled_channels)
        } else if addr == R_NR52 {
            pack8(
                bit_of_bool(self.ch1.channel_enabled),
                bit_of_bool(self.ch2.channel_enabled),
                0,
                bit_of_bool(self.ch4.channel_enabled),
                0,
                0,
                0,
                bit_of_bool(self.enabled),
            )
        } else {
            0
        }
    }

    /// How a write of `value` to `addr` that goes through changes the APU.
    pub open spec fn written(self, new: Apu, addr: u16, value: u8) -> bool {
        if R_NR10 <= addr <= R_NR14 {
            &&& self.ch1.register_written(new.ch1, (addr - R_NR10) as u8, value)
            &&& new == Apu { ch1: new.ch1, ..self }
        } else if R_NR21 <= addr <= R_NR24 {
            &&& self.ch2.register_written(new.ch2, (addr - R_NR21 + 1) as u8, value)
            &&& new == Apu { ch2: new.ch2, ..self }
        } else if R_NR41 <= addr <= R_NR44 {
            &&& self.ch4.register_written(new.ch4, (addr - R_NR41 + 1) as u8, value)
            &&& new == Apu { ch4: new.ch4, ..self }
        } else if addr == R_NR50 {
            new == Apu {
                right: Terminal { volume: value & 7, ..self.right },
                left: Terminal { volume: (value >> 4u8) & 7, ..self.left },
                ..self
            }
        } else if addr == R_NR51 {
            new == Apu {
                right: Terminal { enabled_channels: routing_right(value), ..self.right },
                left: Terminal { enabled_channels: routing_left(value), ..self.left },
                ..self
            }
        } else if addr == R_NR52 {
            new == Apu { enabled: value & 0x80 != 0, ..self }
        } else {
            new == self
        }
    }

    pub fn new() -> (r: Self)
        ensures
            r.wf(),
            !r.enabled,
            r.ch1.is_new(),
            r.ch2.is_new(),
            r.ch4.is_new(),
            r.right == Terminal::new_spec(),
            r.left == Terminal::new_spec(),
            r.sequencer == 0,
            r.sample_cycles == 0,
            r.prev_div == 0,
    {
        Apu {
            enabled: false,
            ch1: SquareWaveChannel::new(),
            ch2: SquareWaveChannel::new(),
            ch4: NoiseChannel::new(),
            right: Terminal::new(),
            left: Terminal::new(),
            sequencer: 0,
            sample_cycles: 0,
            prev_div: 0,
        }
    }

    // The frame sequencer is clocked by falling edges of bit 5 of DIV's
    // upper byte, i.e. bit 12 of the 16-bit internal counter.
    fn update_div_falling_edge(&mut self, div: u16) -> (r: bool)
        ensures
            r == old(self).is_falling_edge(div),
            *final(self) == (Apu { prev_div: div, ..*old(self) }),
    {
        let is_falling_edge = (div & DIV_SEQUENCER_BIT == 0) && (self.prev_div & DIV_SEQUENCER_BIT
            != 0);
        self.prev_div = div;
        is_falling_edge
    }

    fn tick_all(&mut self)
        requires
            old(self).wf(),
        ensures
            final(self).wf(),
            *final(self) == old(self).after_tick_all(),
    {
        self.ch1.tick();
        self.ch2.tick();
        self.ch4.tick();
    }

    fn tick_length_all(&mut self)
        requires
            old(self).wf(),
        ensures
            final(self).wf(),
            *final(self) == old(self).after_tick_length_all(),
    {
        self.ch1.tick_length();
        self.ch2.tick_length();
        self.ch4.tick_length();
    }

    fn tick_sweep_all(&mut self)
        ensures
            *final(self) == *old(self),
    {
        self.ch1.tick_sweep();
    }

    fn tick_envelope_all(&mut self)
        requires
            old(self).wf(),
        ensures
            final(self).wf(),
            *final(self) == old(self).after_tick_envelope_all(),
    {
        self.ch1.tick_envelope();
        self.ch2.tick_envelope();
        self.ch4.tick_envelope();
    }

    fn tick_sequencer(&mut self)
        requires
            old(self).wf(),
        ensures
            final(self).wf(),
            *final(self) == old(self).after_sequencer_step(),
    {
        proof {
            lemma_byte((self.sequencer + 1) as u8);
        }
        self.sequencer = (self.sequencer + 1) & 7;
        match self.sequencer {
            0 | 4 => {
                self.tick_length_all();
            },
            2 | 6 => {
                self.tick_length_all();
                self.tick_sweep_all();
            },
            7 => {
                self.tick_envelope_all();
            },
            _ => {},
        }
    }

    /// Advances the APU by one 4-cycle step, with DIV's 16-bit counter at
    /// `div`. Returns true when a new output sample is due; the caller then
    /// mixes the channels' levels.
    pub fn tick(&mut self, div: u16) -> (sample_due: bool)
        requires
            old(self).wf(),
        ensures
            final(self).wf(),
            (*final(self), sample_due) == old(self).tick_spec(div),
    {
        let is_div_falling_edge = self.update_div_falling_edge(div);
        if !self.enabled {
            return false;
        }
        let ghost start = *self;
        let mut i: usize = 0;
        while i < 4
            invariant
                i <= 4,
                self.wf(),
                *self == start.after_ticks(i as nat),
            decreases 4 - i,
        {
            self.tick_all();
            i += 1;
        }
        if is_div_falling_edge {
            self.tick_sequencer();
        }
        self.sample_cycles += 4;
        if self.sample_cycles >= AUDIO_CYCLES_PER_SAMPLE {
            self.sample_cycles -= AUDIO_CYCLES_PER_SAMPLE;
            true
        } else {
            false
        }
    }

    pub fn check_write_access(&self, addr: u16) -> (r: bool)
        ensures
            r == self.write_allowed(addr),
    {
        self.enabled || addr == R_NR52 || addr == R_NR11 || addr == R_NR21 || addr == R_NR31
            || addr == R_NR41 || (0xff30 <= addr && addr <= 0xff3f)
    }

    pub fn read(&self, addr: u16) -> (r: u8)
        ensures
            r == self.read_spec(addr),
    {
        if addr == R_NR50 {
            self.right.volume | (self.left.volume << 4u8)
        } else if addr == R_NR51 {
            let r = &self.right.enabled_channels;
            let l = &self.left.enabled_channels;
            pack_byte(
                bool_bit(r.0),
                bool_bit(r.1),
                bool_bit(r.2),
                bool_bit(r.3),
                bool_bit(l.0),
                bool_bit(l.1),
                bool_bit(l.2),
                bool_bit(l.3),
            )
        } else if addr == R_NR52 {
            pack_byte(
                bool_bit(self.ch1.is_enabled()),
                bool_bit(self.ch2.is_enabled()),
                0,
                bool_bit(self.ch4.is_enabled()),
                0,
                0,
                0,
                bool_bit(self.enabled),
            )
        } else {
            0
        }
    }

    /// A write of `value` to `addr`. With `blocking`, writes that the
    /// powered-off APU does not accept are dropped.
    pub fn write(&mut self, addr: u16, value: u8, blocking: bool)
        requires
            old(self).wf(),
        ensures
            final(self).wf(),
            blocking && !old(self).write_allowed(addr) ==> *final(self) == *old(self),
            !(blocking && !old(self).write_allowed(addr)) ==> old(self).written(
                *final(self),
                addr,
                value,
            ),
    {
        if blocking && !self.check_write_access(addr) {
            return ;
        }
        if R_NR10 <= addr && addr <= R_NR14 {
            self.ch1.write_register((addr - R_NR10) as u8, value);
        } else if R_NR21 <= addr && addr <= R_NR24 {
            self.ch2.write_register((addr - R_NR21 + 1) as u8, value);
        } else if R_NR41 <= addr && addr <= R_NR44 {
            self.ch4.write_register((addr - R_NR41 + 1) as u8, value);
        } else if addr == R_NR50 {
            self.right.volume = value & 0x07;
            self.left.volume = (value >> 4u8) & 0x07;
        } else if addr == R_NR51 {
            self.right.enabled_channels = (
                value & 1 != 0,
                value & 2 != 0,
                value & 4 != 0,
                value & 8 != 0,
            );
            self.left.enabled_channels = (
                value & 0x10 != 0,
                value & 0x20 != 0,
                value & 0x40 != 0,
                value & 0x80 != 0,
            );
        } else if addr == R_NR52 {
            self.enabled = (value & 0x80) != 0;
        }
    }
}

/// NR52 reads back the power bit that was written to it.
pub proof fn lemma_nr52_power_roundtrip(a: Apu, b: Apu, value: u8)
    requires
        a.written(b, R_NR52, value),
    ensures
        (b.read_spec(R_NR52) & 0x80 != 0) == (value & 0x80 != 0),
{
    lemma_pack8(
        bit_of_bool(b.ch1.channel_enabled),
        bit_of_bool(b.ch2.channel_enabled),
        0,
        bit_of_bool(b.ch4.channel_enabled),
        0,
        0,
        0,
        bit_of_bool(b.enabled),
    );
}

/// NR50 and NR51 read back what was written to them, within the bits they
/// keep: three volume bits per terminal, all eight routing bits.
pub proof fn lemma_mixer_roundtrip(a: Apu, b: Apu, c: Apu, value: u8)
    requires
        a.written(b, R_NR50, value),
        a.written(c, R_NR51, value),
    ensures
        b.read_spec(R_NR50) == value & 0x77,
        c.read_spec(R_NR51) == value,
{
    lemma_byte(value);
    lemma_unpack8(value);
}

} // verus!
