use vstd::prelude::*;
use crate::words::{lemma_word_bytes, lemma_word_halves};
use crate::regs::{hi, lo, join};

verus! {

/// A 16-bit register pair whose high byte (`a`) and low byte (`b`)
/// can also be read and written on their own.
#[derive(Clone, Copy)]
pub struct U16Union {
    value: u16,
}

impl View for U16Union {
    type V = u16;

    closed spec fn view(&self) -> u16 {
        self.value
    }
}

impl U16Union {
    pub fn new(value: u16) -> (r: Self)
        ensures
            r@ == value,
    {
        Self { value }
    }

    pub fn set(&mut self, value: u16)
        ensures
            final(self)@ == value,
    {
        self.value = value;
    }

    pub fn get(&self) -> (r: u16)
        ensures
            r == self@,
    {
        self.value
    }

    /// Replaces the high byte.
    pub fn set_a(&mut self, value: u8)
        ensures
            final(self)@ == join(value, lo(old(self)@)),
    {
        let v = self.value;
        let r = (v & 0x00FF) | ((value as u16) << 8);
        proof {
            lemma_word_bytes(v, value);
        }
        self.value = r;
    }

    /// Replaces the low byte.
    pub fn set_b(&mut self, value: u8)
        ensures
            final(self)@ == join(hi(old(self)@), value),
    {
        let v = self.value;
        let r = (v & 0xFF00) | (value as u16);
        proof {
            lemma_word_bytes(v, value);
        }
        self.value = r;
    }

    /// The high byte.
    pub fn get_a(&self) -> (r: u8)
        ensures
            r == hi(self@),
    {
        let v = self.value;
        let r = (v >> 8) as u8;
        proof {
            lemma_word_halves(v);
        }
        r
    }

    /// The low byte.
    pub fn get_b(&self) -> (r: u8)
        ensures
            r == lo(self@),
    {
        let v = self.value;
        let r = (v & 0xFF) as u8;
        proof {
            lemma_word_halves(v);
        }
        r
    }
}

/// Writing the high byte and reading it back gives the written byte, and
/// the low byte is untouched; likewise for the low byte.
pub proof fn lemma_byte_writes(v: u16, x: u8)
    ensures
        hi(join(x, lo(v))) == x,
        lo(join(x, lo(v))) == lo(v),
        lo(join(hi(v), x)) == x,
        hi(join(hi(v), x)) == hi(v),
        join(hi(v), lo(v)) == v,
{
}

} // verus!
