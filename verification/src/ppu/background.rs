//! The background and window pixel fetcher.
use vstd::prelude::*;
use crate::bits::lemma_byte;
use crate::ppu::registers::Lcdc;
use crate::ppu::fifo::{
    Fetcher, FetcherState, FifoPixel, PixelQueue, pixel_queue, colors_ok, queue_new, queue_push_back,
    queue_pop_front, queue_len, queue_is_empty, queue_clear,
};
use crate::ppu::util::{spr_line, spr_line_spec, lemma_spr_line_colors};

verus! {

pub const VRAM_SIZE: usize = 0x2000;

#[derive(Clone, Copy, PartialEq, Eq, Debug, Structural)]
pub enum FetcherLayer {
    Background,
    Window,
}

/// The abstract state of a background fetcher.
pub struct BgFetcherView {
    pub queue: Seq<FifoPixel>,
    pub state: FetcherState,
    pub cycle: bool,
    pub scx: u8,
    pub scy: u8,
    pub wly: u8,
    pub ly: u8,
    pub offset: u16,
    pub tile_idx: u16,
    pub tile_data: (u8, u8),
    pub layer: FetcherLayer,
    pub sleep: u8,
}

/// The eight pixels of a tile row, as they enter the queue.
pub open spec fn row_pixels(data: (u8, u8)) -> Seq<FifoPixel> {
    Seq::new(8, |i: int| FifoPixel::of_color(spr_line_spec(data)[i]))
}

impl BgFetcherView {
    /// The background row within the tile: `(ly + scy) mod 256`.
    pub open spec fn bg_line(self) -> u8 {
        ((self.ly + self.scy) % 256) as u8
    }

    /// Where in VRAM the tile map entry of the next tile is.
    pub open spec fn map_addr(self, lcdc: Lcdc) -> int {
        match self.layer {
            FetcherLayer::Background => ((((self.offset + (self.scx >> 3u8)) as u16) & 0x1fu16)
                + 32 * (self.bg_line() >> 3u8) + if lcdc.bg_tilemap_addr {
                0x1C00int
            } else {
                0x1800int
            }),
            FetcherLayer::Window => self.offset + (((self.wly >> 3u8) as u16) << 5u16) + if lcdc.win_tilemap_addr {
                0x1C00int
            } else {
                0x1800int
            },
        }
    }

    /// Where in VRAM the low byte of the current tile row is.
    pub open spec fn data_addr(self) -> int {
        self.tile_idx * 16 + match self.layer {
            FetcherLayer::Background => 2 * (self.bg_line() & 7),
            FetcherLayer::Window => 2 * (self.wly & 7),
        }
    }

    /// The clock's arithmetic stays within 16 bits and VRAM: the map
    /// address of the next read (on the window layer the offset is not
    /// wrapped to the map row) and the offset after a push.
    pub open spec fn tick_in_range(self, lcdc: Lcdc) -> bool {
        self.sleep == 0 ==> {
            &&& (self.state == FetcherState::ReadTileId && self.cycle) ==> match self.layer {
                FetcherLayer::Background => self.offset + (self.scx >> 3u8) <= 0xFFFF,
                FetcherLayer::Window => self.map_addr(lcdc) < VRAM_SIZE,
            }
            &&& (self.state == FetcherState::PushToFifo && self.queue.len() == 0) ==> self.offset
                < 0xFFFF
        }
    }

    /// One fetcher clock: first the initial sleep runs out; then every
    /// other clock reads the map entry, the low data byte and the high
    /// data byte in turn, and the row is pushed as soon as the queue is
    /// empty.
    pub open spec fn after_tick(self, lcdc: Lcdc, vram: Seq<u8>) -> BgFetcherView {
        if self.sleep > 0 {
            BgFetcherView { sleep: (self.sleep - 1) as u8, ..self }
        } else {
            match self.state {
                FetcherState::ReadTileId if self.cycle => BgFetcherView {
                    tile_idx: lcdc.transform_tile_index_spec(vram[self.map_addr(lcdc)]),
                    cycle: false,
                    state: FetcherState::ReadTileDataLow,
                    ..self
                },
                FetcherState::ReadTileDataLow if self.cycle => BgFetcherView {
                    tile_data: (vram[self.data_addr()], self.tile_data.1),
                    cycle: false,
                    state: FetcherState::ReadTileDataHigh,
                    ..self
                },
                FetcherState::ReadTileDataHigh if self.cycle => BgFetcherView {
                    tile_data: (self.tile_data.0, vram[self.data_addr() + 1]),
                    cycle: false,
                    state: FetcherState::PushToFifo,
                    ..self
                },
                FetcherState::PushToFifo => if self.queue.len() == 0 {
                    BgFetcherView {
                        queue: row_pixels(self.tile_data),
                        offset: (self.offset + 1) as u16,
                        state: FetcherState::ReadTileId,
                        ..self
                    }
                } else {
                    self
                },
                _ => BgFetcherView { cycle: true, ..self },
            }
        }
    }
}

/// The shifts and masks of the tile map address.
proof fn lemma_map_bits(o: u16, sx: u8, line: u8, w: u8)
    by (bit_vector)
    requires
        o + (sx as u16 >> 3u16) <= 0xFFFF,
    ensures
        (sx as u16 >> 3u16) == (sx >> 3u8),
        (sx as u16 >> 3u16) <= 31,
        ((o + (sx as u16 >> 3u16)) as u16) & 0x1f <= 31,
        (line as u16 >> 3u16) <= 31,
        (line as u16 >> 3u16) == (line >> 3u8),
        (w as u16 >> 3u16) << 5u16 <= 992,
        (w as u16 >> 3u16) << 5u16 == ((w >> 3u8) as u16) << 5u16,
{
}

pub struct BackgroundFetcher {
    pub fifo: PixelQueue,
    pub state: FetcherState,
    pub cycle: bool,
    pub scx: u8,
    pub scy: u8,
    pub wly: u8,
    pub ly: u8,
    pub offset: u16,
    pub tile_idx: u16,
    pub tile_data: (u8, u8),
    pub layer: FetcherLayer,
    pub sleep: u8,
}

impl BackgroundFetcher {
    pub open spec fn view(&self) -> BgFetcherView {
        BgFetcherView {
            queue: pixel_queue(self.fifo),
            state: self.state,
            cycle: self.cycle,
            scx: self.scx,
            scy: self.scy,
            wly: self.wly,
            ly: self.ly,
            offset: self.offset,
            tile_idx: self.tile_idx,
            tile_data: self.tile_data,
            layer: self.layer,
            sleep: self.sleep,
        }
    }

    /// The tile index is one that `transform_tile_index` gives and the
    /// queue holds at most one row of 2-bit colors.
    pub open spec fn wf(&self) -> bool {
        &&& self.tile_idx < 384
        &&& pixel_queue(self.fifo).len() <= 8
        &&& colors_ok(pixel_queue(self.fifo))
    }

    pub fn new() -> (r: Self)
        ensures
            r.wf(),
            r.view() == (BgFetcherView {
                queue: Seq::empty(),
                state: FetcherState::ReadTileId,
                cycle: false,
                scx: 0,
                scy: 0,
                wly: 0,
                ly: 0,
                offset: 0,
                tile_idx: 0,
                tile_data: (0, 0),
                layer: FetcherLayer::Background,
                sleep: 6,
            }),
    {
        BackgroundFetcher {
            cycle: false,
            state: FetcherState::ReadTileId,
            fifo: queue_new(),
            scx: 0,
            scy: 0,
            wly: 0,
            ly: 0,
            offset: 0,
            tile_idx: 0,
            tile_data: (0, 0),
            layer: FetcherLayer::Background,
            sleep: 6,
        }
    }

    /// Starts a line on the background layer, with an empty queue and the
    /// initial six-clock sleep.
    pub fn start(&mut self, scx: u8, scy: u8, ly: u8, wly: u8)
        ensures
            final(self).wf(),
            final(self).view() == (BgFetcherView {
                queue: Seq::empty(),
                state: FetcherState::ReadTileId,
                cycle: false,
                scx,
                scy,
                wly,
                ly,
                offset: 0,
                tile_idx: 0,
                layer: FetcherLayer::Background,
                sleep: 6,
                ..old(self).view()
            }),
    {
        self.scx = scx;
        self.scy = scy;
        self.ly = ly;
        self.wly = wly;
        self.layer = FetcherLayer::Background;
        self.tile_idx = 0;
        self.offset = 0;
        self.cycle = false;
        self.state = FetcherState::ReadTileId;
        self.sleep = 6;
        queue_clear(&mut self.fifo);
    }

    /// Switches to the window layer from its first tile, dropping the
    /// queued pixels.
    pub fn switch_to_window(&mut self)
        requires
            old(self).layer == FetcherLayer::Background,
        ensures
            final(self).wf(),
            final(self).view() == (BgFetcherView {
                queue: Seq::empty(),
                layer: FetcherLayer::Window,
                cycle: false,
                tile_idx: 0,
                offset: 0,
                state: FetcherState::ReadTileId,
                ..old(self).view()
            }),
    {
        self.layer = FetcherLayer::Window;
        self.cycle = false;
        self.tile_idx = 0;
        self.offset = 0;
        self.state = FetcherState::ReadTileId;
        queue_clear(&mut self.fifo);
    }

    pub fn is_window(&self) -> (r: bool)
        ensures
            r == (self.layer == FetcherLayer::Window),
    {
        match self.layer {
            FetcherLayer::Window => true,
            FetcherLayer::Background => false,
        }
    }

    pub fn update_values(&mut self, scx: u8, scy: u8)
        ensures
            final(self).view() == (BgFetcherView { scx, scy, ..old(self).view() }),
            final(self).wf() == old(self).wf(),
    {
        self.scx = scx;
        self.scy = scy;
    }

    /// Restarts the tile fetch after a sprite fetch took over.
    pub fn spr_reset(&mut self)
        ensures
            final(self).view() == (BgFetcherView {
                cycle: false,
                state: FetcherState::ReadTileId,
                ..old(self).view()
            }),
            final(self).wf() == old(self).wf(),
    {
        self.cycle = false;
        self.state = FetcherState::ReadTileId;
    }

    fn fetch_addr(&self) -> (r: usize)
        requires
            self.wf(),
        ensures
            r == self.view().data_addr(),
            r + 1 < VRAM_SIZE,
    {
        let tile = self.tile_idx as usize * 16;
        match self.layer {
            FetcherLayer::Background => {
                let line = self.ly.wrapping_add(self.scy);
                assert(line & 7 <= 7) by {
                    lemma_byte(line);
                }
                tile + (2 * (line & 7)) as usize
            },
            FetcherLayer::Window => {
                let w = self.wly;
                assert(w & 7 <= 7) by {
                    lemma_byte(w);
                }
                tile + 2 * ((self.wly as usize) & 7)
            },
        }
    }

    pub fn tick(&mut self, lcdc: &Lcdc, vram: &Vec<u8>)
        requires
            old(self).wf(),
            old(self).view().tick_in_range(*lcdc),
            vram.len() == VRAM_SIZE,
        ensures
            final(self).wf(),
            final(self).view() == old(self).view().after_tick(*lcdc, vram@),
            final(self).offset <= old(self).offset + 1,
    {
        if self.sleep > 0 {
            self.sleep -= 1;
            return ;
        }
        match self.state {
            FetcherState::ReadTileId if self.cycle => {
                let addr: u16 = match self.layer {
                    FetcherLayer::Background => {
                        let sx = self.scx;
                        let o = self.offset;
                        let line = self.ly.wrapping_add(self.scy);
                        proof {
                            lemma_map_bits(o, sx, line, self.wly);
                        }
                        let a0: u16 = o + (sx as u16 >> 3u16);
                        let a1: u16 = a0 & 0x1f;
                        let l3: u16 = line as u16 >> 3u16;
                        a1 + 32 * l3
                    },
                    FetcherLayer::Window => {
                        let w = self.wly;
                        proof {
                            lemma_map_bits(0, self.scx, self.ly, w);
                        }
                        let w3: u16 = (w as u16 >> 3u16) << 5u16;
                        self.offset + w3
                    },
                };
                let base = match self.layer {
                    FetcherLayer::Background => lcdc.bg_tilemap_addr() - 0x8000,
                    FetcherLayer::Window => lcdc.win_tilemap_addr() - 0x8000,
                };
                let addr = addr + base;
                self.tile_idx = lcdc.transform_tile_index(vram[addr as usize]);
                self.cycle = false;
                self.state = FetcherState::ReadTileDataLow;
            },
            FetcherState::ReadTileDataLow if self.cycle => {
                let a = self.fetch_addr();
                self.tile_data.0 = vram[a];
                self.cycle = false;
                self.state = FetcherState::ReadTileDataHigh;
            },
            FetcherState::ReadTileDataHigh if self.cycle => {
                let a = self.fetch_addr();
                self.tile_data.1 = vram[a + 1];
                self.cycle = false;
                self.state = FetcherState::PushToFifo;
            },
            FetcherState::PushToFifo => {
                if queue_is_empty(&self.fifo) {
                    let ghost before = self.view();
                    let colors = spr_line(self.tile_data);
                    let mut i: usize = 0;
                    while i < 8
                        invariant
                            i <= 8,
                            self.offset < 0xFFFF,
                            self.tile_idx < 384,
                            self.view() == (BgFetcherView { queue: self.view().queue, ..before }),
                            colors@ == spr_line_spec(self.tile_data),
                            forall|k: int| 0 <= k < 8 ==> #[trigger] colors@[k] < 4,
                            pixel_queue(self.fifo) == row_pixels(self.tile_data).subrange(
                                0,
                                i as int,
                            ),
                        decreases 8 - i,
                    {
                        let pushed = queue_push_back(&mut self.fifo, FifoPixel::from_color(colors[i]));
                        assert(row_pixels(self.tile_data).subrange(0, i + 1) =~= row_pixels(
                            self.tile_data,
                        ).subrange(0, i as int).push(FifoPixel::of_color(colors@[i as int])));
                        i += 1;
                    }
                    assert(row_pixels(self.tile_data).subrange(0, 8) =~= row_pixels(
                        self.tile_data,
                    ));
                    proof {
                        lemma_spr_line_colors(self.tile_data);
                    }
                    self.offset += 1;
                    self.state = FetcherState::ReadTileId;
                }
            },
            _ => {
                self.cycle = true;
            },
        }
    }
}

impl Fetcher for BackgroundFetcher {
    open spec fn pixels(&self) -> Seq<FifoPixel> {
        pixel_queue(self.fifo)
    }

    fn pop(&mut self) -> (r: Option<FifoPixel>)
        ensures
            final(self).view() == (BgFetcherView { queue: final(self).view().queue, ..old(self).view() }),
            old(self).wf() ==> final(self).wf(),
    {
        queue_pop_front(&mut self.fifo)
    }

    fn len(&self) -> (r: usize) {
        queue_len(&self.fifo)
    }
}

} // verus!
