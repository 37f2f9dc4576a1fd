//! The serial port, modelled with its cable disconnected: a transfer
//! completes on the next tick and shifts in all ones.
use vstd::prelude::*;

verus! {

#[derive(Clone, Copy)]
pub struct Serial {
    pub transfer: bool,
    pub ext_clock: bool,
    pub data: u8,
}

impl Serial {
    /// The SC register: bit 7 transfer in progress, bit 0 clock source,
    /// unused bits read as one.
    pub open spec fn sc_spec(self) -> u8 {
        ((if self.transfer { 128int } else { 0 }) + (if self.ext_clock { 1int } else { 0 }) + 0x7E)
            as u8
    }

    /// The port after a write of `value` to SC.
    pub open spec fn with_sc(self, value: u8) -> Serial {
        Serial { transfer: value & 0x80 != 0, ext_clock: value & 0x01 != 0, ..self }
    }

    /// One tick: a pending transfer finishes and SB reads all ones.
    pub open spec fn tick_spec(self) -> Serial {
        if self.transfer {
            Serial { transfer: false, data: 0xff, ..self }
        } else {
            self
        }
    }

    pub fn new() -> (r: Self)
        ensures
            r == (Serial { transfer: false, ext_clock: false, data: 0xff }),
    {
        Self { transfer: false, ext_clock: false, data: 0xff }
    }

    /// Ticks the port; with no cable attached no interrupt is requested, so
    /// `iif` is left as it is.
    pub fn tick(&mut self, iif: &mut u8)
        ensures
            *final(self) == old(self).tick_spec(),
            *final(iif) == *old(iif),
    {
        if self.transfer {
            self.transfer = false;
            self.data = 0xff;
        }
    }

    pub fn read_sb(&self) -> (r: u8)
        ensures
            r == self.data,
    {
        self.data
    }

    pub fn write_sb(&mut self, value: u8)
        ensures
            *final(self) == (Serial { data: value, ..*old(self) }),
    {
        self.data = value;
    }

    pub fn read_sc(&self) -> (r: u8)
        ensures
            r == self.sc_spec(),
    {
        let t: u8 = if self.transfer {
            1
        } else {
            0
        };
        let e: u8 = if self.ext_clock {
            1
        } else {
            0
        };
        let r = (t << 7) | e | 0b0111_1110;
        assert(t <= 1 && e <= 1 ==> (t << 7) | e | 0b0111_1110 == t * 128 + e + 0x7E)
            by (bit_vector);
        r
    }

    pub fn write_sc(&mut self, value: u8)
        ensures
            *final(self) == old(self).with_sc(value),
    {
        self.transfer = value & 0x80 != 0;
        self.ext_clock = value & 0x01 != 0;
    }
}

/// SC reads back the written transfer and clock bits, with the unused bits set.
pub proof fn lemma_sc_roundtrip(s: Serial, value: u8)
    ensures
        s.with_sc(value).sc_spec() == value | 0x7E,
{
    let t: u8 = if value & 0x80 != 0 {
        1
    } else {
        0
    };
    let e: u8 = if value & 0x01 != 0 {
        1
    } else {
        0
    };
    assert(t == (if value & 0x80 != 0 {
        1u8
    } else {
        0u8
    }) && e == (if value & 0x01 != 0 {
        1u8
    } else {
        0u8
    }) ==> t * 128 + e + 0x7E == value | 0x7E) by (bit_vector);
}

/// A started transfer completes on the next tick with all ones shifted in.
pub proof fn lemma_transfer_completes(s: Serial)
    requires
        s.transfer,
    ensures
        !s.tick_spec().transfer,
        s.tick_spec().data == 0xff,
{
}

} // verus!
