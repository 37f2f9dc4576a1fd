//! DIV, TIMA, TMA and TAC: the divider and the programmable timer.
use vstd::prelude::*;
use crate::bits::lemma_byte;
use crate::words::lemma_word;
use crate::cpu::{Cpu, Interrupt, with_interrupt};

verus! {

/// For each TAC clock select (taken modulo four), the bit of the internal
/// divider whose falling edge increments TIMA.
pub open spec fn clock_mask(rate: u8) -> u16 {
    if rate % 4 == 0 {
        0x200
    } else if rate % 4 == 1 {
        0x8
    } else if rate % 4 == 2 {
        0x20
    } else {
        0x80
    }
}

#[derive(Clone, Copy)]
pub struct Timers {
    pub tma: u8,
    pub div: u16,
    pub tima: u8,
    pub tima_reset_pending: bool,
    pub enable: bool,
    pub rate: u8,
    pub tima_inc: bool,
}

impl Timers {
    /// The DIV register: the high byte of the internal 16-bit divider.
    pub open spec fn div_spec(self) -> u8 {
        (self.div / 256) as u8
    }

    pub open spec fn divider(self) -> u16 {
        self.div
    }

    pub open spec fn tima_spec(self) -> u8 {
        self.tima
    }

    /// The TAC register: bit 2 is the enable bit, bits 0-1 the clock select.
    pub open spec fn tac_spec(self) -> u8 {
        ((if self.enable { 4int } else { 0 }) + self.rate) as u8
    }

    pub open spec fn reload_pending(self) -> bool {
        self.tima_reset_pending
    }

    /// The clock select is two bits, and a pending reload follows an
    /// overflow: TIMA is zero and the increment line is low.
    pub open spec fn wf(self) -> bool {
        &&& self.rate < 4
        &&& self.tima_reset_pending ==> self.tima == 0 && !self.tima_inc
    }

    /// Whether the next tick sees a falling edge of the selected divider bit.
    pub open spec fn increments(self) -> bool {
        let div = ((self.div + 4) % 65536) as u16;
        self.tima_inc && !(self.enable && (div / clock_mask(self.rate)) % 2 == 1)
    }

    /// The timers after a write of `value` to TIMA, which also cancels a pending reload.
    pub open spec fn with_tima(self, value: u8) -> Timers {
        Timers { tima: value, tima_reset_pending: false, ..self }
    }

    /// The timers after a write of `value` to TAC.
    pub open spec fn with_tac(self, value: u8) -> Timers {
        Timers { enable: value & 0b100 != 0, rate: value & 0b11, ..self }
    }

    /// The timers after any write to DIV, which clears the whole internal divider.
    pub open spec fn with_div_reset(self) -> Timers {
        Timers { div: 0, ..self }
    }

    /// One machine cycle (four clocks) of the timer: a pending reload copies
    /// TMA into TIMA and requests the timer interrupt, the divider advances by
    /// four, and TIMA increments on a falling edge of the selected divider bit
    /// (gated by the enable bit); an overflow leaves TIMA at zero and schedules
    /// the reload for the next cycle.
    pub open spec fn tick_spec(self, iif: u8) -> (Timers, u8) {
        let t0 = if self.tima_reset_pending {
            Timers { tima_reset_pending: false, tima: self.tma, ..self }
        } else {
            self
        };
        let iif1 = if self.tima_reset_pending {
            with_interrupt(iif, Interrupt::Timer)
        } else {
            iif
        };
        let div = ((t0.div + 4) % 65536) as u16;
        let div_bit = (div / clock_mask(t0.rate)) % 2 == 1;
        let cur = t0.enable && div_bit;
        let falling = t0.tima_inc && !cur;
        let t1 = if falling {
            Timers {
                div,
                tima: ((t0.tima + 1) % 256) as u8,
                tima_reset_pending: t0.tima == 255,
                tima_inc: cur,
                ..t0
            }
        } else {
            Timers { div, tima_inc: cur, ..t0 }
        };
        (t1, iif1)
    }

    pub fn new() -> (r: Self)
        ensures
            r.wf(),
            r.div_spec() == 0,
            r.divider() == 0,
            r.tima_spec() == 0,
            r.tac_spec() == 0,
            r.tma == 0,
            !r.reload_pending(),
            r == (Timers {
                tma: 0,
                div: 0,
                tima: 0,
                tima_reset_pending: false,
                enable: false,
                rate: 0,
                tima_inc: false,
            }),
    {
        Self {
            tma: 0,
            div: 0,
            tima: 0,
            tima_reset_pending: false,
            enable: false,
            rate: 0,
            tima_inc: false,
        }
    }

    pub fn get_div(&self) -> (r: u8)
        ensures
            r == self.div_spec(),
    {
        (self.div / 256) as u8
    }

    pub fn reset_div(&mut self)
        ensures
            *final(self) == old(self).with_div_reset(),
    {
        self.div = 0;
    }

    pub fn get_tima(&self) -> (r: u8)
        ensures
            r == self.tima_spec(),
    {
        self.tima
    }

    /// Writing TIMA cancels a pending reload.
    pub fn set_tima(&mut self, value: u8)
        ensures
            *final(self) == old(self).with_tima(value),
    {
        self.tima = value;
        self.tima_reset_pending = false;
    }

    pub fn get_tac(&self) -> (r: u8)
        requires
            self.wf(),
        ensures
            r == self.tac_spec(),
    {
        let e: u8 = if self.enable {
            1
        } else {
            0
        };
        let rate = self.rate;
        let r = (e << 2) | rate;
        assert(e <= 1 && rate < 4 ==> (e << 2) | rate == e * 4 + rate) by (bit_vector);
        r
    }

    pub fn set_tac(&mut self, value: u8)
        ensures
            *final(self) == old(self).with_tac(value),
            old(self).wf() ==> final(self).wf(),
    {
        self.enable = value & 0b100 != 0;
        self.rate = value & 0b11;
        proof {
            lemma_byte(value);
        }
    }

    pub fn tick(&mut self, iif: &mut u8)
        ensures
            (*final(self), *final(iif)) == old(self).tick_spec(*old(iif)),
            old(self).wf() ==> final(self).wf(),
    {
        if self.tima_reset_pending {
            self.tima_reset_pending = false;
            self.tima = self.tma;
            Cpu::set_interrupt(iif, Interrupt::Timer);
        }
        self.div = self.div.wrapping_add(4);
        let mask = timer_clock_mask(self.rate);
        let d = self.div;
        proof {
            lemma_word(d);
        }
        let div_bit = (self.div & mask) != 0;
        let cur_tima_inc = self.enable && div_bit;
        if self.tima_inc && !cur_tima_inc {
            let carry = self.tima == 255;
            self.tima = self.tima.wrapping_add(1);
            if carry {
                self.tima_reset_pending = true;
            }
        }
        self.tima_inc = cur_tima_inc;
    }
}

/// The divider bit selected by a TAC clock select.
pub fn timer_clock_mask(rate: u8) -> (m: u16)
    ensures
        m == clock_mask(rate),
{
    match rate % 4 {
        0 => 0x200,
        1 => 0x8,
        2 => 0x20,
        _ => 0x80,
    }
}

/// Writing TAC and reading it back gives the written value's low three bits.
pub proof fn lemma_tac_roundtrip(t: Timers, value: u8)
    ensures
        t.with_tac(value).tac_spec() == value & 0b111,
        t.wf() ==> t.with_tac(value).wf(),
{
    let e: u8 = if value & 0b100 != 0 {
        1
    } else {
        0
    };
    assert(e == (if value & 0b100 != 0 {
        1u8
    } else {
        0u8
    }) ==> e * 4 + (value & 0b11) == value & 0b111) by (bit_vector);
    lemma_byte(value);
}

/// After a DIV write the DIV register reads zero.
pub proof fn lemma_div_reset_reads_zero(t: Timers)
    ensures
        t.with_div_reset().div_spec() == 0,
{
}

/// A TIMA write is read back unchanged and no reload stays pending.
pub proof fn lemma_tima_roundtrip(t: Timers, value: u8)
    ensures
        t.with_tima(value).tima_spec() == value,
        !t.with_tima(value).reload_pending(),
{
}

/// Each tick advances the internal divider by four clocks.
pub proof fn lemma_tick_advances_divider(t: Timers, iif: u8)
    ensures
        t.tick_spec(iif).0.divider() == (t.divider() + 4) % 65536,
{
}

/// An overflow of TIMA reloads it one machine cycle late: the tick that
/// overflows leaves TIMA at zero with no interrupt, and the next tick copies
/// TMA into TIMA and requests the timer interrupt.
pub proof fn lemma_overflow_reloads_late(t: Timers, iif: u8)
    requires
        t.wf(),
        !t.reload_pending(),
        t.tima == 255,
        t.increments(),
    ensures
        ({
            let (t1, i1) = t.tick_spec(iif);
            let (t2, i2) = t1.tick_spec(i1);
            &&& t1.tima == 0
            &&& i1 == iif
            &&& t1.reload_pending()
            &&& t2.tima == t.tma
            &&& i2 == with_interrupt(iif, Interrupt::Timer)
        }),
{
}

/// A pending reload is served by the next tick: TIMA takes the value of TMA
/// (it cannot be incremented in the same cycle) and the timer interrupt is requested.
pub proof fn lemma_reload_requests_interrupt(t: Timers, iif: u8)
    requires
        t.reload_pending(),
    ensures
        t.tick_spec(iif).1 == with_interrupt(iif, Interrupt::Timer),
        !t.tick_spec(iif).0.reload_pending() || t.tma == 255,
{
}

/// The number of clocks between two TIMA increments for each TAC clock
/// select: at the 4194304 Hz clock, 4096, 262144, 65536 and 16384 Hz.
pub open spec fn timer_period(rate: u8) -> int {
    if rate == 0 {
        1024
    } else if rate == 1 {
        16
    } else if rate == 2 {
        64
    } else {
        256
    }
}

proof fn lemma_half_period_bit(d: int, m: int)
    requires
        0 <= d,
        m == 8 || m == 32 || m == 128 || m == 512,
    ensures
        ((d / m) % 2 == 1) == (d % (2 * m) >= m),
{
    if m == 8 {
        assert(((d / 8) % 2 == 1) == (d % 16 >= 8));
    } else if m == 32 {
        assert(((d / 32) % 2 == 1) == (d % 64 >= 32));
    } else if m == 128 {
        assert(((d / 128) % 2 == 1) == (d % 256 >= 128));
    } else {
        assert(((d / 512) % 2 == 1) == (d % 1024 >= 512));
    }
}

/// With the timer enabled and the divider on a machine cycle boundary, a
/// tick increments TIMA exactly when the divider reaches a multiple of the
/// selected period (so once every 1024, 16, 64 or 256 clocks), and the
/// increment line it leaves behind is the selected divider bit again, so the
/// same holds of the next tick.
pub proof fn lemma_tima_rate(t: Timers, iif: u8)
    requires
        t.wf(),
        t.enable,
        !t.reload_pending(),
        t.tima < 255,
        t.div % 4 == 0,
        t.tima_inc == (t.div as int % timer_period(t.rate) >= timer_period(t.rate) / 2),
    ensures
        ({
            let t1 = t.tick_spec(iif).0;
            let p = timer_period(t.rate);
            &&& t1.tima == t.tima + (if (t.div + 4) % p == 0 {
                1int
            } else {
                0
            })
            &&& t1.div % 4 == 0
            &&& t1.tima_inc == (t1.div as int % p >= p / 2)
        }),
{
    let p = timer_period(t.rate);
    let m = clock_mask(t.rate) as int;
    assert(p == 2 * m);
    let d = (t.div + 4) % 65536;
    lemma_half_period_bit(d, m);
    assert(d % p == (t.div as int + 4) % p);
    assert(d % 4 == 0);
}

} // verus!
