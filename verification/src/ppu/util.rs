//! Decoding a row of 2-bit-per-pixel tile data.
use vstd::prelude::*;
use crate::bitpack::lemma_two_bits;

verus! {

/// The color index (0-3) of pixel `n` (0 leftmost) of a tile row given as
/// (low bit plane, high bit plane): bit `7 - n` of the high plane, then of
/// the low plane.
pub open spec fn pixel_color(data: (u8, u8), n: u8) -> u8 {
    let mask: u8 = 1u8 << (7 - n) as u8;
    let l: u8 = if data.0 & mask != 0 { 1 } else { 0 };
    let h: u8 = if data.1 & mask != 0 { 1 } else { 0 };
    (h << 1u8) | l
}

/// The eight color indices of a tile row, left to right.
pub open spec fn spr_line_spec(data: (u8, u8)) -> Seq<u8> {
    Seq::new(8, |i: int| pixel_color(data, i as u8))
}

fn pixel_color_of(data: (u8, u8), n: u8) -> (r: u8)
    requires
        n < 8,
    ensures
        r == pixel_color(data, n),
        r < 4,
{
    let mask: u8 = 1u8 << (7 - n);
    let l: u8 = if data.0 & mask != 0 {
        1
    } else {
        0
    };
    let h: u8 = if data.1 & mask != 0 {
        1
    } else {
        0
    };
    proof {
        lemma_two_bits(l, h);
    }
    (h << 1u8) | l
}

pub fn spr_line(tile_data: (u8, u8)) -> (colors: [u8; 8])
    ensures
        colors@ == spr_line_spec(tile_data),
        forall|i: int| 0 <= i < 8 ==> #[trigger] colors@[i] < 4,
{
    let colors = [
        pixel_color_of(tile_data, 0),
        pixel_color_of(tile_data, 1),
        pixel_color_of(tile_data, 2),
        pixel_color_of(tile_data, 3),
        pixel_color_of(tile_data, 4),
        pixel_color_of(tile_data, 5),
        pixel_color_of(tile_data, 6),
        pixel_color_of(tile_data, 7),
    ];
    assert(colors@ =~= spr_line_spec(tile_data));
    colors
}

/// Every color index of a decoded row is below 4.
pub proof fn lemma_spr_line_colors(data: (u8, u8))
    ensures
        forall|i: int| 0 <= i < 8 ==> #[trigger] spr_line_spec(data)[i] < 4,
{
    assert forall|i: int| 0 <= i < 8 implies #[trigger] spr_line_spec(data)[i] < 4 by {
        let n = i as u8;
        let mask: u8 = 1u8 << (7 - n) as u8;
        let l: u8 = if data.0 & mask != 0 { 1 } else { 0 };
        let h: u8 = if data.1 & mask != 0 { 1 } else { 0 };
        lemma_two_bits(l, h);
    }
}

/// A tile row whose planes are both zero is all color 0, and one whose
/// planes are both 0xFF is all color 3.
pub proof fn lemma_spr_line_extremes()
    ensures
        spr_line_spec((0, 0)) == Seq::new(8, |i: int| 0u8),
        spr_line_spec((0xFF, 0xFF)) == Seq::new(8, |i: int| 3u8),
{
    assert forall|n: u8| n < 8 implies pixel_color((0, 0), n) == 0 && pixel_color((0xFF, 0xFF), n)
        == 3 by {
        let mask: u8 = 1u8 << (7 - n) as u8;
        assert(n < 8 ==> (1u8 << (7 - n) as u8) != 0 && 0u8 & (1u8 << (7 - n) as u8) == 0 && 0xFFu8
            & (1u8 << (7 - n) as u8) != 0 && (1u8 << 1u8) | 1u8 == 3 && (0u8 << 1u8) | 0u8 == 0)
            by (bit_vector);
    }
    assert(spr_line_spec((0, 0)) =~= Seq::new(8, |i: int| 0u8));
    assert(spr_line_spec((0xFF, 0xFF)) =~= Seq::new(8, |i: int| 3u8));
}

} // verus!
