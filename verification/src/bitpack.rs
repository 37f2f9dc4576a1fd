//! Single bits of a byte: testing, setting and packing them, with the facts
//! about them proved by bit blasting.
use vstd::prelude::*;

verus! {

/// 1 when `value` has a bit of `mask` set, else 0.
pub open spec fn flag_bit(value: u8, mask: u8) -> u8 {
    if value & mask != 0 {
        1
    } else {
        0
    }
}

/// Eight one-bit values packed into a byte, `a` in bit 0 up to `h` in bit 7.
pub open spec fn pack8(a: u8, b: u8, c: u8, d: u8, e: u8, f: u8, g: u8, h: u8) -> u8 {
    a | (b << 1u8) | (c << 2u8) | (d << 3u8) | (e << 4u8) | (f << 5u8) | (g << 6u8) | (h << 7u8)
}

/// Packs eight one-bit values into a byte, `a` in bit 0 up to `h` in bit 7.
pub fn pack_byte(a: u8, b: u8, c: u8, d: u8, e: u8, f: u8, g: u8, h: u8) -> (r: u8)
    ensures
        r == pack8(a, b, c, d, e, f, g, h),
{
    a | (b << 1u8) | (c << 2u8) | (d << 3u8) | (e << 4u8) | (f << 5u8) | (g << 6u8) | (h << 7u8)
}

/// Testing, clearing and setting bit `n` of a byte as arithmetic.
pub proof fn lemma_byte_bit(v: u8, n: u8)
    by (bit_vector)
    requires
        n < 8,
    ensures
        ((v & (1u8 << n)) != 0) == ((v >> n) % 2 == 1),
        (v >> n) == v / (1u8 << n),
        (v & !(1u8 << n)) == (if (v >> n) % 2 == 1 {
            (v - (1u8 << n)) as u8
        } else {
            v
        }),
        (v | (1u8 << n)) == (if (v >> n) % 2 == 1 {
            v
        } else {
            (v + (1u8 << n)) as u8
        }),
        (1u8 << n) == (if n == 0 {
            1u8
        } else if n == 1 {
            2u8
        } else if n == 2 {
            4u8
        } else if n == 3 {
            8u8
        } else if n == 4 {
            16u8
        } else if n == 5 {
            32u8
        } else if n == 6 {
            64u8
        } else {
            128u8
        }),
{
}

/// Packed one-bit values read back from their bits.
pub proof fn lemma_pack8(a: u8, b: u8, c: u8, d: u8, e: u8, f: u8, g: u8, h: u8)
    by (bit_vector)
    requires
        a <= 1 && b <= 1 && c <= 1 && d <= 1 && e <= 1 && f <= 1 && g <= 1 && h <= 1,
    ensures
        (pack8(a, b, c, d, e, f, g, h) & 0x01 != 0) == (a == 1),
        (pack8(a, b, c, d, e, f, g, h) & 0x02 != 0) == (b == 1),
        (pack8(a, b, c, d, e, f, g, h) & 0x04 != 0) == (c == 1),
        (pack8(a, b, c, d, e, f, g, h) & 0x08 != 0) == (d == 1),
        (pack8(a, b, c, d, e, f, g, h) & 0x10 != 0) == (e == 1),
        (pack8(a, b, c, d, e, f, g, h) & 0x20 != 0) == (f == 1),
        (pack8(a, b, c, d, e, f, g, h) & 0x40 != 0) == (g == 1),
        (pack8(a, b, c, d, e, f, g, h) & 0x80 != 0) == (h == 1),
{
}

/// Two one-bit values side by side make a 2-bit value.
pub proof fn lemma_two_bits(a: u8, b: u8)
    by (bit_vector)
    requires
        a <= 1 && b <= 1,
    ensures
        (b << 1u8) | a < 4,
{
}

/// A byte is the packing of its bits; parts of it likewise.
pub proof fn lemma_unpack8(v: u8)
    by (bit_vector)
    ensures
        pack8(
            flag_bit(v, 0x01),
            flag_bit(v, 0x02),
            flag_bit(v, 0x04),
            flag_bit(v, 0x08),
            flag_bit(v, 0x10),
            flag_bit(v, 0x20),
            flag_bit(v, 0x40),
            flag_bit(v, 0x80),
        ) == v,
        pack8(flag_bit(v, 0x01), flag_bit(v, 0x02), flag_bit(v, 0x04), flag_bit(v, 0x08), 0, 0, 0, 0)
            == v & 0x0F,
        pack8(0, 0, 0, 0, flag_bit(v, 0x10), flag_bit(v, 0x20), flag_bit(v, 0x40), flag_bit(v, 0x80))
            == v & 0xF0,
        ((v >> 4u8) << 4u8) | (flag_bit(v, 8) << 3u8) | (v & 7) == v,
{
}

} // verus!
