//! Facts about bit operations on 16-bit words, proved by bit blasting.
use vstd::prelude::*;
use crate::regs::{hi, lo, join};

verus! {

/// Masks, shifts and bytes of a 16-bit word as arithmetic.
pub proof fn lemma_word(v: u16)
    by (bit_vector)
    ensures
        v & 0x7FFF == v % 0x8000,
        v & 0xFFF == v % 4096,
        v & 3 == v % 4,
        v >> 2u16 == v / 4,
        ((v & 0x8) != 0) == ((v / 0x8) % 2 == 1),
        ((v & 0x20) != 0) == ((v / 0x20) % 2 == 1),
        ((v & 0x80) != 0) == ((v / 0x80) % 2 == 1),
        ((v & 0x200) != 0) == ((v / 0x200) % 2 == 1),
{
}

/// The two bytes of a word.
pub proof fn lemma_word_halves(v: u16)
    by (bit_vector)
    ensures
        (v >> 8u16) as u8 == hi(v),
        (v & 0xFF) as u8 == lo(v),
{
}

/// Replacing either byte of a word.
pub proof fn lemma_word_bytes(v: u16, b: u8)
    by (bit_vector)
    ensures
        (v & 0x00FF) | ((b as u16) << 8u16) == join(b, lo(v)),
        (v & 0xFF00) | (b as u16) == join(hi(v), b),
{
}

} // verus!
