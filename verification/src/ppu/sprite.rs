//! The sprite pixel fetcher, which overlays one object's row onto its queue.
use vstd::prelude::*;
use bit_reverse::LookupReverse;
use crate::ppu::registers::Lcdc;
use crate::ppu::oam::{OamObject, OamFlags};
use crate::ppu::fifo::{
    Fetcher, FetcherState, FifoPixel, PixelQueue, pixel_queue, colors_ok, queue_new, queue_push_back,
    queue_pop_front, queue_len, queue_is_full, queue_clear, queue_get, queue_set,
};
use crate::ppu::util::{spr_line, spr_line_spec, lemma_spr_line_colors};
use crate::ppu::background::VRAM_SIZE;

verus! {

/// The byte with its bits in reverse order: bit i moves to bit 7 - i.
pub open spec fn reverse_bits(x: u8) -> u8 {
    (((x >> 0u8) & 1) << 7u8) | (((x >> 1u8) & 1) << 6u8) | (((x >> 2u8) & 1) << 5u8) | (((x
        >> 3u8) & 1) << 4u8) | (((x >> 4u8) & 1) << 3u8) | (((x >> 5u8) & 1) << 2u8) | (((x
        >> 6u8) & 1) << 1u8) | ((x >> 7u8) & 1)
}

/// Calls `bit_reverse::LookupReverse::swap_bits` on a byte, which reverses
/// the order of its bits through a lookup table.
#[verifier::external_body]
fn swap_bits(x: u8) -> (r: u8)
    ensures
        r == reverse_bits(x),
{
    LookupReverse::swap_bits(x)
}

/// The abstract state of a sprite fetcher.
pub struct SprFetcherView {
    pub queue: Seq<FifoPixel>,
    pub state: FetcherState,
    pub cycle: bool,
    pub object: OamObject,
    pub tile_idx: usize,
    pub tile_data: (u8, u8),
    pub ly: u8,
    pub fetching: bool,
}

/// `n` transparent pixels.
pub open spec fn blank_pixels(n: int) -> Seq<FifoPixel> {
    Seq::new(n as nat, |i: int| FifoPixel::of_color(0))
}

impl SprFetcherView {
    /// The row of the object on line `ly`, counted from its top edge.
    pub open spec fn row(self) -> int {
        self.ly + 16 - self.object.y
    }

    /// The row can be fetched: the line is not above the object, and a
    /// vertically flipped 8-pixel-tall object is not read past its eighth
    /// row.
    pub open spec fn row_ok(self, tall: bool) -> bool {
        &&& self.ly + 16 >= self.object.y
        &&& tall || !self.object.flags.flip_y || self.row() <= 7
    }

    /// Where in VRAM the low byte of the object's row is. An 8x16 object
    /// uses tile `tile | 1` for its second half (the first when flipped).
    pub open spec fn data_addr(self, tall: bool) -> int {
        let r = self.row();
        if tall {
            let second: usize = if (r > 7) != self.object.flags.flip_y { 1 } else { 0 };
            (self.tile_idx | second) * 16 + (r as usize & 7usize) * 2
        } else if self.object.flags.flip_y {
            self.tile_idx * 16 + (7 - r) * 2
        } else {
            self.tile_idx * 16 + r * 2
        }
    }

    /// The tile data after the horizontal flip and, for an object less than
    /// 8 pixels from the left edge, the shift that hides its clipped part.
    pub open spec fn shown_data(self) -> (u8, u8) {
        let d = if self.object.flags.flip_x {
            (reverse_bits(self.tile_data.0), reverse_bits(self.tile_data.1))
        } else {
            self.tile_data
        };
        if self.object.x < 8 {
            let sh = (7 - self.object.x) as u8;
            ((d.0 << sh) as u8, (d.1 << sh) as u8)
        } else {
            d
        }
    }

    /// How many of the row's pixels are visible.
    pub open spec fn shown_count(self) -> int {
        if self.object.x < 8 {
            8 - (7 - self.object.x)
        } else {
            8
        }
    }

    /// The queue after the row is overlaid: the queue is first filled up
    /// with transparent pixels, then each of the visible pixels replaces
    /// a transparent one.
    pub open spec fn merged_queue(self) -> Seq<FifoPixel> {
        let full = self.queue + blank_pixels(8 - self.queue.len());
        let colors = spr_line_spec(self.shown_data());
        Seq::new(
            8,
            |i: int|
                if i < self.shown_count() && full[i].color == 0 {
                    FifoPixel {
                        color: colors[i],
                        priority: self.object.flags.priority,
                        pal: self.object.flags.palette,
                    }
                } else {
                    full[i]
                },
        )
    }

    /// One fetcher clock: every other clock reads the tile number, the low
    /// data byte and the high data byte in turn; then the row is overlaid
    /// onto the queue and the fetch ends.
    pub open spec fn after_tick(self, lcdc: Lcdc, vram: Seq<u8>) -> SprFetcherView {
        match self.state {
            FetcherState::ReadTileId if self.cycle => SprFetcherView {
                cycle: false,
                tile_idx: if lcdc.obj_size {
                    (self.object.tile & 0xFE) as usize
                } else {
                    self.object.tile as usize
                },
                state: FetcherState::ReadTileDataLow,
                ..self
            },
            FetcherState::ReadTileDataLow if self.cycle => SprFetcherView {
                tile_data: (vram[self.data_addr(lcdc.obj_size)], self.tile_data.1),
                cycle: false,
                state: FetcherState::ReadTileDataHigh,
                ..self
            },
            FetcherState::ReadTileDataHigh if self.cycle => SprFetcherView {
                tile_data: (self.tile_data.0, vram[self.data_addr(lcdc.obj_size) + 1]),
                cycle: false,
                state: FetcherState::PushToFifo,
                ..self
            },
            FetcherState::PushToFifo => SprFetcherView {
                queue: self.merged_queue(),
                tile_data: self.shown_data(),
                state: FetcherState::ReadTileId,
                fetching: false,
                ..self
            },
            _ => SprFetcherView { cycle: true, ..self },
        }
    }
}

/// The tile number and row of an 8x16 object's row.
proof fn lemma_row_bits(t: usize, second: usize, y: usize)
    by (bit_vector)
    ensures
        t <= 255 && second <= 1 ==> t | second <= 255,
        y & 7 <= 7,
{
}

/// The even tile number of an 8x16 object.
proof fn lemma_tile_pair(t: u8)
    by (bit_vector)
    ensures
        (t as usize) & 0xFE == (t & 0xFE) as usize,
        (t as usize) & 0xFE <= 255,
{
}

pub struct SpriteFetcher {
    pub fifo: PixelQueue,
    pub state: FetcherState,
    pub cycle: bool,
    pub object: OamObject,
    pub tile_idx: usize,
    pub tile_data: (u8, u8),
    pub ly: u8,
    pub fetching: bool,
}

impl SpriteFetcher {
    pub open spec fn view(&self) -> SprFetcherView {
        SprFetcherView {
            queue: pixel_queue(self.fifo),
            state: self.state,
            cycle: self.cycle,
            object: self.object,
            tile_idx: self.tile_idx,
            tile_data: self.tile_data,
            ly: self.ly,
            fetching: self.fetching,
        }
    }

    /// The tile index is a tile number and the queue holds at most 8
    /// pixels of 2-bit colors.
    pub open spec fn wf(&self) -> bool {
        &&& self.tile_idx <= 255
        &&& pixel_queue(self.fifo).len() <= 8
        &&& colors_ok(pixel_queue(self.fifo))
    }

    /// The next clock reads tile data.
    pub open spec fn reads_data(&self) -> bool {
        self.cycle && (self.state == FetcherState::ReadTileDataLow || self.state
            == FetcherState::ReadTileDataHigh)
    }

    pub fn new() -> (r: Self)
        ensures
            r.wf(),
            r.view() == (SprFetcherView {
                queue: Seq::empty(),
                state: FetcherState::ReadTileId,
                cycle: false,
                object: OamObject::blank(0),
                tile_idx: 0,
                tile_data: (0, 0),
                ly: 0,
                fetching: false,
            }),
    {
        SpriteFetcher {
            fifo: queue_new(),
            state: FetcherState::ReadTileId,
            cycle: false,
            object: OamObject {
                y: 0,
                x: 0,
                tile: 0,
                flags: OamFlags { priority: false, flip_y: false, flip_x: false, palette: false },
                attr: 0,
                id: 0,
            },
            tile_idx: 0,
            tile_data: (0, 0),
            ly: 0,
            fetching: false,
        }
    }

    /// End of line: stops any fetch and drops the queued pixels.
    pub fn eol(&mut self)
        ensures
            final(self).view() == (SprFetcherView {
                queue: Seq::empty(),
                fetching: false,
                cycle: false,
                state: FetcherState::ReadTileId,
                ..old(self).view()
            }),
            final(self).wf() == (old(self).tile_idx <= 255),
            final(self).wf() <== old(self).wf(),
    {
        self.fetching = false;
        self.cycle = false;
        self.state = FetcherState::ReadTileId;
        queue_clear(&mut self.fifo);
    }

    /// Starts fetching `object`'s row on line `ly`.
    pub fn start(&mut self, object: OamObject, ly: u8)
        ensures
            final(self).view() == (SprFetcherView {
                object,
                ly,
                cycle: false,
                state: FetcherState::ReadTileId,
                fetching: true,
                ..old(self).view()
            }),
            final(self).wf() == old(self).wf(),
    {
        self.object = object;
        self.ly = ly;
        self.cycle = false;
        self.state = FetcherState::ReadTileId;
        self.fetching = true;
    }

    fn fetch_addr(&self, lcdc: &Lcdc) -> (r: usize)
        requires
            self.wf(),
            self.view().row_ok(lcdc.obj_size),
        ensures
            r == self.view().data_addr(lcdc.obj_size),
            r + 1 < VRAM_SIZE,
    {
        let mut y_offset: usize = (self.ly as usize + 16) - self.object.y as usize;
        let mut tile_idx = self.tile_idx;
        let t = tile_idx;
        if lcdc.obj_size {
            let second: usize = if (y_offset > 7) != self.object.flags.flip_y {
                1
            } else {
                0
            };
            proof {
                lemma_row_bits(t, second, y_offset);
            }
            tile_idx |= second;
            y_offset &= 7;
        } else if self.object.flags.flip_y {
            y_offset = 7 - y_offset;
        }
        (tile_idx * 16) + (y_offset * 2)
    }

    pub fn tick(&mut self, lcdc: &Lcdc, vram: &Vec<u8>)
        requires
            old(self).wf(),
            old(self).reads_data() ==> old(self).view().row_ok(lcdc.obj_size),
            vram.len() == VRAM_SIZE,
        ensures
            final(self).wf(),
            final(self).view() == old(self).view().after_tick(*lcdc, vram@),
    {
        match self.state {
            FetcherState::ReadTileId if self.cycle => {
                self.cycle = false;
                let mut tile_idx: usize = self.object.tile as usize;
                if lcdc.obj_size {
                    let t = self.object.tile;
                    proof {
                        lemma_tile_pair(t);
                    }
                    tile_idx &= 0xFE;
                }
                self.tile_idx = tile_idx;
                self.state = FetcherState::ReadTileDataLow;
            },
            FetcherState::ReadTileDataLow if self.cycle => {
                let a = self.fetch_addr(lcdc);
                self.tile_data.0 = vram[a];
                self.cycle = false;
                self.state = FetcherState::ReadTileDataHigh;
            },
            FetcherState::ReadTileDataHigh if self.cycle => {
                let a = self.fetch_addr(lcdc);
                self.tile_data.1 = vram[a + 1];
                self.cycle = false;
                self.state = FetcherState::PushToFifo;
            },
            FetcherState::PushToFifo => {
                let ghost v = self.view();
                self.state = FetcherState::ReadTileId;
                while !queue_is_full(&self.fifo)
                    invariant
                        pixel_queue(self.fifo).len() <= 8,
                        pixel_queue(self.fifo) == v.queue + blank_pixels(
                            pixel_queue(self.fifo).len() - v.queue.len(),
                        ),
                        pixel_queue(self.fifo).len() >= v.queue.len(),
                        colors_ok(pixel_queue(self.fifo)),
                        self.object == v.object,
                        self.tile_data == v.tile_data,
                        self.tile_idx == v.tile_idx,
                        self.ly == v.ly,
                        self.cycle == v.cycle,
                        self.fetching == v.fetching,
                    decreases 8 - pixel_queue(self.fifo).len(),
                {
                    let ghost before = pixel_queue(self.fifo);
                    queue_push_back(&mut self.fifo, FifoPixel::from_color(0));
                    assert(v.queue + blank_pixels(before.len() + 1 - v.queue.len()) =~= (v.queue
                        + blank_pixels(before.len() - v.queue.len())).push(FifoPixel::of_color(0)));
                }
                if self.object.flags.flip_x {
                    self.tile_data.0 = swap_bits(self.tile_data.0);
                    self.tile_data.1 = swap_bits(self.tile_data.1);
                }
                let mut take: usize = 8;
                if self.object.x < 8 {
                    let shift: u32 = 7 - (self.object.x as u32);
                    let d0 = self.tile_data.0;
                    let d1 = self.tile_data.1;
                    let sh8 = (7 - self.object.x) as u8;
                    assert(shift < 8 && shift == sh8 ==> d0 << (shift % 8) == (d0 << sh8) as u8 && d1 << (shift % 8) == (d1 << sh8) as u8)
                        by (bit_vector);
                    self.tile_data.0 = self.tile_data.0.wrapping_shl(shift);
                    self.tile_data.1 = self.tile_data.1.wrapping_shl(shift);
                    take -= shift as usize;
                }
                assert(self.tile_data == v.shown_data());
                let colors = spr_line(self.tile_data);
                let ghost full = pixel_queue(self.fifo);
                assert(full =~= v.queue + blank_pixels(8 - v.queue.len()));
                let mut i: usize = 0;
                while i < take
                    invariant
                        i <= take,
                        take == v.shown_count(),
                        take <= 8,
                        colors@ == spr_line_spec(v.shown_data()),
                        full.len() == 8,
                        full == v.queue + blank_pixels(8 - v.queue.len()),
                        colors_ok(full),
                        forall|k: int| 0 <= k < 8 ==> #[trigger] colors@[k] < 4,
                        self.object == v.object,
                        self.tile_data == v.shown_data(),
                        self.tile_idx == v.tile_idx,
                        self.ly == v.ly,
                        self.cycle == v.cycle,
                        self.fetching == v.fetching,
                        pixel_queue(self.fifo).len() == 8,
                        forall|k: int|
                            0 <= k < 8 ==> #[trigger] pixel_queue(self.fifo)[k] == if k < i
                                && full[k].color == 0 {
                                FifoPixel {
                                    color: colors@[k],
                                    priority: v.object.flags.priority,
                                    pal: v.object.flags.palette,
                                }
                            } else {
                                full[k]
                            },
                    decreases take - i,
                {
                    let p = queue_get(&self.fifo, i);
                    if p.color == 0 {
                        queue_set(
                            &mut self.fifo,
                            i,
                            FifoPixel {
                                color: colors[i],
                                priority: self.object.flags.priority,
                                pal: self.object.flags.palette,
                            },
                        );
                    }
                    i += 1;
                }
                assert(pixel_queue(self.fifo) =~= v.merged_queue());
                proof {
                    lemma_spr_line_colors(v.shown_data());
                }
                self.state = FetcherState::ReadTileId;
                self.fetching = false;
            },
            _ => {
                self.cycle = true;
            },
        }
    }
}

impl Fetcher for SpriteFetcher {
    open spec fn pixels(&self) -> Seq<FifoPixel> {
        pixel_queue(self.fifo)
    }

    fn pop(&mut self) -> (r: Option<FifoPixel>)
        ensures
            final(self).view() == (SprFetcherView { queue: final(self).view().queue, ..old(self).view() }),
            old(self).wf() ==> final(self).wf(),
    {
        queue_pop_front(&mut self.fifo)
    }

    fn len(&self) -> (r: usize) {
        queue_len(&self.fifo)
    }
}

} // verus!
