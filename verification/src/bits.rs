//! Facts about masks, shifts and rotations of bytes, proved by bit blasting.
use vstd::prelude::*;

verus! {

/// Masks, shifts and rotations of a byte as arithmetic.
pub proof fn lemma_byte(v: u8)
    by (bit_vector)
    ensures
        v & 0xF == v % 16,
        v & 0x1F == v % 32,
        v & 0x3F == v % 64,
        v & 7 == v % 8,
        v & 3 == v % 4,
        v & 8 <= 8,
        (v & 1 != 0) == (v % 2 == 1),
        (v & 0x80 != 0) == (v >= 128),
        v >> 1 == v / 2,
        v >> 3 == v / 8,
        v >> 4 == v / 16,
        v >> 6 == v / 64,
        (v / 16) % 2 == 1 ==> v >= 16,
        (v / 32) % 2 == 1 ==> v >= 32,
        (v / 64) % 2 == 1 ==> v >= 64,
        (v / 128) % 2 == 1 ==> v >= 128,
        (v & 7) | (((v >> 4) & 7) << 4) == v & 0x77,
        (0u8 | 0x06u8) == 6u8 && (0u8 | 0x60u8) == 0x60u8 && (6u8 | 0x60u8) == 0x66u8,
{
}

/// Left shifts and rotations of a byte as integer arithmetic.
pub proof fn lemma_byte_shl(v: u8)
    by (bit_vector)
    ensures
        v << 1 == (v * 2) % 256,
        (v << 1) | (v >> 7) == (v * 2) % 256 + v / 128,
{
}

/// Right rotations, nibble swaps and bit additions of a byte as integer
/// arithmetic.
pub proof fn lemma_byte_arith(v: u8)
    by (bit_vector)
    ensures
        (v >> 1) | (v << 7) == v / 2 + (v % 2) * 128,
        (v << 4) | (v >> 4) == (v % 16) * 16 + v / 16,
        (v >> 1) & 0x40 != 0 ==> ((v >> 1) | 0x80) == v / 2 + (v / 128) * 128,
        (v >> 1) & 0x40 == 0 ==> (v >> 1) == v / 2 + (v / 128) * 128,
        v < 4 ==> v << 5 == v * 32,
        (v / 1) % 2 == 0 ==> v + 1 < 256,
        (v / 2) % 2 == 0 ==> v + 2 < 256,
        (v / 4) % 2 == 0 ==> v + 4 < 256,
        (v / 8) % 2 == 0 ==> v + 8 < 256,
        (v / 16) % 2 == 0 ==> v + 16 < 256,
        (v / 32) % 2 == 0 ==> v + 32 < 256,
        (v / 64) % 2 == 0 ==> v + 64 < 256,
        (v / 128) % 2 == 0 ==> v + 128 < 256,
{
}


} // verus!
