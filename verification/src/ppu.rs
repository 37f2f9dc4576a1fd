//! The picture processing unit: mode timing, OAM search, the pixel
//! pipeline and the LCD registers.
pub mod registers;
pub mod oam;
pub mod fifo;
pub mod util;
pub mod background;
pub mod sprite;

use vstd::prelude::*;
use crate::bits::{lemma_byte, lemma_byte_shl};
use crate::cpu::{Cpu, Interrupt, with_interrupt};
use crate::ppu::registers::{
    Lcdc, PpuMode, StatInterrupts, lcdc_of, stat_interrupts_of, mode_number, mode_number_spec,
    b2u, bool_to_u8,
};
use crate::ppu::oam::{OamMemory, OamBuffer, OamObject, scan, sorted_by_key, OBJECTS_PER_LINE};
use crate::ppu::fifo::{Fetcher, FetcherState, FifoPixel, pixel_queue};
use crate::ppu::background::{BackgroundFetcher, BgFetcherView, FetcherLayer, VRAM_SIZE};
use crate::ppu::sprite::{SpriteFetcher, SprFetcherView};

verus! {

pub const WIDTH: usize = 160;
pub const HEIGHT: usize = 144;
pub const FB_SIZE: usize = 23040;

/// The start-up picture: a checkered pattern in three shades (pixel `i`
/// is `((i + i / 160) mod 2) * (1 + i mod 3)`).
pub open spec fn boot_pattern(i: int) -> u8 {
    if (i + i / 160) % 2 == 1 {
        (1 + i % 3) as u8
    } else {
        0
    }
}

/// The abstract state of the PPU.
pub struct PpuView {
    pub display: Seq<u8>,
    pub frame_ready: bool,
    pub bgp: u8,
    pub obp: (u8, u8),
    pub lyc: u8,
    pub scy: u8,
    pub scx: u8,
    pub wy: u8,
    pub wx: u8,
    pub wly: u8,
    pub ly: u8,
    pub mmio_ly: u8,
    pub compare_ly: u8,
    pub lx: u8,
    pub hblank_len: usize,
    pub cycles: usize,
    pub mode: PpuMode,
    pub vram: Seq<u8>,
    pub oam: Seq<OamObject>,
    pub lcdc: Lcdc,
    pub display_cleared: bool,
    pub bg: BgFetcherView,
    pub spr: SprFetcherView,
    pub to_discard: u8,
    pub stat_intr: StatInterrupts,
    pub stat_prev: bool,
    pub oam_buffer: Seq<OamObject>,
    pub suspend_bg_fetcher: bool,
    pub fetched_sprites: usize,
    pub mmu_oam_locked: bool,
    pub stat_r_lyc_eq: bool,
}

/// Whether an object selected for line `ly` can have its row fetched with
/// objects `size` pixels tall: the line is within the object.
pub open spec fn fits(o: OamObject, ly: u8, size: int) -> bool {
    ly + 16 >= o.y && ly + 16 - o.y < size
}

/// The sprite fetch in progress, and during the pixel transfer every
/// selected object, cover their line at the object height `lcdc` selects.
pub open spec fn sprites_fit_in(
    spr: SprFetcherView,
    mode: PpuMode,
    buf: Seq<OamObject>,
    ly: u8,
    lcdc: Lcdc,
) -> bool {
    &&& spr.fetching ==> fits(spr.object, spr.ly, obj_height(lcdc))
    &&& mode == PpuMode::PxTransfer ==> forall|i: int|
        0 <= i < buf.len() ==> fits(#[trigger] buf[i], ly, obj_height(lcdc))
}

/// A background fetcher clock followed by taking its front pixel, if any:
/// the new fetcher, discard count and pixel. The pixel is dropped while
/// `to_discard` pixels remain to be discarded on the background layer,
/// and reads as color 0 while the background is off.
pub open spec fn bg_fetch_spec(
    bg: BgFetcherView,
    lcdc: Lcdc,
    vram: Seq<u8>,
    to_discard: u8,
) -> (BgFetcherView, u8, Option<u8>) {
    let c = bg.after_tick(lcdc, vram);
    if c.queue.len() > 0 {
        let color = c.queue[0].color;
        let d = BgFetcherView { queue: c.queue.drop_first(), ..c };
        if d.layer == FetcherLayer::Background && to_discard > 0 {
            (d, (to_discard - 1) as u8, None)
        } else {
            (d, to_discard, Some(if !lcdc.enable_bg { 0u8 } else { color }))
        }
    } else {
        (c, to_discard, None)
    }
}

fn fetch_bg_pixel(
    bg: &mut BackgroundFetcher,
    lcdc: &Lcdc,
    vram: &Vec<u8>,
    to_discard: &mut u8,
    Ghost(lx): Ghost<int>,
) -> (push: Option<u8>)
    requires
        old(bg).wf(),
        vram.len() == VRAM_SIZE,
        *old(to_discard) <= 7,
        0 <= lx < 160,
        8 * old(bg).offset + *old(to_discard) <= pixel_queue(old(bg).fifo).len() + lx + 7,
    ensures
        final(bg).wf(),
        (final(bg).view(), *final(to_discard), push) == bg_fetch_spec(
            old(bg).view(),
            *lcdc,
            vram@,
            *old(to_discard),
        ),
        *final(to_discard) <= 7,
        push is None ==> 8 * final(bg).offset + *final(to_discard) <= pixel_queue(final(bg).fifo).len()
            + lx + 7,
        push is Some ==> 8 * final(bg).offset + *final(to_discard) <= pixel_queue(final(bg).fifo).len()
            + lx + 8,
        push is Some ==> push->0 < 4,
{
    proof {
        let sx = bg.scx;
        let w = bg.wly;
        assert((sx >> 3u8) <= 31 && ((w >> 3u8) as u16) << 5u16 <= 992) by (bit_vector);
        assert(bg.offset < 32);
    }
    bg.tick(lcdc, vram);
    if bg.len() > 0 {
        let FifoPixel { color, .. } = bg.pop().unwrap();
        if !bg.is_window() && *to_discard > 0 {
            *to_discard -= 1;
            None
        } else {
            if !lcdc.enable_bg {
                Some(0)
            } else {
                Some(color)
            }
        }
    } else {
        None
    }
}

/// The height of objects that LCDC selects.
pub open spec fn obj_height(lcdc: Lcdc) -> int {
    if lcdc.obj_size {
        16
    } else {
        8
    }
}

impl PpuView {
    pub open spec fn with_ly(self, ly: u8) -> PpuView {
        PpuView { ly, mmio_ly: ly, compare_ly: ly, ..self }
    }

    pub open spec fn with_mode(self, mode: PpuMode) -> PpuView {
        PpuView { cycles: 0, mode, ..self }
    }

    /// The STAT interrupt line: some enabled source is active.
    pub open spec fn stat_signal(self) -> bool {
        ||| self.stat_intr.lyc_eq && self.ly == self.lyc
        ||| self.stat_intr.mode_0 && self.mode == PpuMode::HBlank
        ||| self.stat_intr.mode_1 && self.mode == PpuMode::VBlank
        ||| self.stat_intr.mode_2 && self.mode == PpuMode::OamSearch
    }

    /// A rising edge of the STAT line requests the STAT interrupt.
    pub open spec fn after_check_stat(self, iif: u8) -> (PpuView, u8) {
        let stat = self.stat_signal();
        (
            PpuView { stat_prev: stat, ..self },
            if stat && !self.stat_prev {
                with_interrupt(iif, Interrupt::Stat)
            } else {
                iif
            },
        )
    }

    /// The window covers part of this line.
    pub open spec fn window_in_ly(self) -> bool {
        (self.lcdc.enable_win && self.ly >= self.wy && self.wx < 167) || self.wx == 166
    }

    /// OAM is not accessible to the CPU: the display is on and OAM is
    /// locked or being searched or read.
    pub open spec fn oam_blocked(self) -> bool {
        self.lcdc.enable_display && (self.mmu_oam_locked || self.mode == PpuMode::OamSearch
            || self.mode == PpuMode::PxTransfer)
    }

    /// The STAT register: mode (0 while the display is off), the LY=LYC
    /// flag, the interrupt sources and the unused bit 7.
    pub open spec fn stat_value(self) -> u8 {
        ((b2u(self.lcdc.enable_display) * mode_number_spec(self.mode)) as u8) | (b2u(
            self.stat_r_lyc_eq,
        ) << 2u8) | (self.stat_intr.to_u8_spec() << 3u8) | 0x80
    }

    /// The display is turned off: the first time, the screen is cleared and
    /// line, pixel and window counters restart in HBlank.
    #[verifier::opaque]
    pub open spec fn after_disabled(self) -> PpuView {
        if !self.display_cleared {
            PpuView {
                display: Seq::new(FB_SIZE as nat, |i: int| 0u8),
                lx: 0,
                wly: 0,
                stat_prev: false,
                display_cleared: true,
                ..self.with_ly(0)
            }.with_mode(PpuMode::HBlank)
        } else {
            self
        }
    }

    /// While the display is on, each step first latches LY=LYC.
    pub open spec fn enabled_prefix(self) -> PpuView {
        PpuView {
            stat_r_lyc_eq: self.compare_ly == self.lyc,
            display_cleared: false,
            ..self
        }
    }

    /// HBlank: when its length has passed, the next line starts with OAM
    /// search, or VBlank (with the VBlank interrupt and a finished frame)
    /// after line 143.
    #[verifier::opaque]
    pub open spec fn hblank_step(self, iif: u8) -> (PpuView, u8) {
        if self.cycles >= self.hblank_len {
            let a = self.with_ly((self.ly + 1) as u8);
            if a.ly < 144 {
                a.with_mode(PpuMode::OamSearch).after_check_stat(iif)
            } else {
                PpuView { frame_ready: true, ..a.with_mode(PpuMode::VBlank) }.after_check_stat(
                    with_interrupt(iif, Interrupt::VBlank),
                )
            }
        } else {
            (self, iif)
        }
    }

    /// VBlank: every 456 cycles the line advances; after line 154 the frame
    /// restarts at line 0 with OAM search.
    #[verifier::opaque]
    pub open spec fn vblank_step(self, iif: u8) -> (PpuView, u8) {
        if self.cycles >= 456 {
            let a = PpuView { cycles: 0, ..self }.with_ly((self.ly + 1) as u8);
            let b = if a.ly >= 155 {
                PpuView { wly: 0, ..a }.with_ly(0).with_mode(PpuMode::OamSearch)
            } else {
                a
            };
            b.after_check_stat(iif)
        } else {
            (self, iif)
        }
    }

    /// The objects OAM search selects into `buf`: none while objects are
    /// off, else those of `scan` (at most ten) ordered by x and OAM index.
    pub open spec fn buffer_ok(self, buf: Seq<OamObject>) -> bool {
        if self.lcdc.enable_obj {
            &&& buf.to_multiset() == scan(self.oam, self.ly, obj_height(self.lcdc) as u8).to_multiset()
            &&& buf.len() == scan(self.oam, self.ly, obj_height(self.lcdc) as u8).len()
            &&& sorted_by_key(buf)
        } else {
            buf.len() == 0
        }
    }

    /// OAM search: after 80 cycles, with the objects `buf` selected, the
    /// background fetcher starts the line (directly on the window when it
    /// begins at the left edge) and the pixel transfer begins.
    #[verifier::opaque]
    pub open spec fn oam_search_step(self, iif: u8, buf: Seq<OamObject>) -> (PpuView, u8) {
        if self.cycles >= 80 {
            let bg = BgFetcherView {
                queue: Seq::empty(),
                state: crate::ppu::fifo::FetcherState::ReadTileId,
                cycle: false,
                scx: self.scx,
                scy: self.scy,
                wly: self.wly,
                ly: self.ly,
                offset: 0,
                tile_idx: 0,
                layer: FetcherLayer::Background,
                sleep: 6,
                ..self.bg
            };
            let a = PpuView { oam_buffer: buf, to_discard: self.scx & 7, bg, ..self };
            let b = if a.window_in_ly() && a.wx <= 7 {
                PpuView { bg: BgFetcherView { layer: FetcherLayer::Window, ..a.bg }, ..a }
            } else {
                a
            };
            b.with_mode(PpuMode::PxTransfer).after_check_stat(iif)
        } else {
            (self, iif)
        }
    }

    /// The sprite fetcher's step: when idle, it takes the next selected
    /// object once the pixel position reaches it (the background fetcher
    /// restarts its tile and is suspended); a fetch in progress is clocked.
    pub open spec fn sprite_step(self) -> PpuView {
        let a = if !self.spr.fetching && self.fetched_sprites < self.oam_buffer.len()
            && self.oam_buffer[self.fetched_sprites as int].x <= self.lx + 8 {
            PpuView {
                bg: BgFetcherView {
                    cycle: false,
                    state: crate::ppu::fifo::FetcherState::ReadTileId,
                    ..self.bg
                },
                suspend_bg_fetcher: true,
                spr: SprFetcherView {
                    object: self.oam_buffer[self.fetched_sprites as int],
                    ly: self.ly,
                    cycle: false,
                    state: crate::ppu::fifo::FetcherState::ReadTileId,
                    fetching: true,
                    ..self.spr
                },
                fetched_sprites: (self.fetched_sprites + 1) as usize,
                ..self
            }
        } else {
            self
        };
        if a.spr.fetching {
            PpuView { spr: a.spr.after_tick(a.lcdc, a.vram), ..a }
        } else {
            a
        }
    }

    /// The sprite part of a transfer clock, when objects are on and some
    /// are selected: one sprite step, and when it ends a fetch, the
    /// background fetcher resumes and another sprite step follows.
    pub open spec fn sprite_phase(self) -> PpuView {
        if self.oam_buffer.len() != 0 && self.lcdc.enable_obj {
            let a = self.sprite_step();
            if a.suspend_bg_fetcher && !a.spr.fetching {
                PpuView { suspend_bg_fetcher: false, ..a }.sprite_step()
            } else {
                a
            }
        } else {
            self
        }
    }

    /// The background part of a transfer clock, unless suspended: the
    /// fetcher takes the scroll registers, switches to the window when
    /// the pixel position reaches it, is clocked, and hands out a pixel
    /// if it has one. The pixel is dropped while scrolling discards pixels
    /// on the background layer, and reads as color 0 while the background
    /// is off.
    pub open spec fn bg_phase(self) -> (PpuView, Option<u8>) {
        if !self.suspend_bg_fetcher {
            self.bg_prepared().bg_fetched()
        } else {
            (self, None)
        }
    }

    /// The fetcher takes the scroll registers and switches to the window
    /// when the pixel position reaches it.
    pub open spec fn bg_prepared(self) -> PpuView {
        let a = PpuView { bg: BgFetcherView { scx: self.scx, scy: self.scy, ..self.bg }, ..self };
        if a.bg.layer == FetcherLayer::Background && a.window_in_ly() && a.lx + 7 >= a.wx {
            PpuView {
                bg: BgFetcherView {
                    queue: Seq::empty(),
                    layer: FetcherLayer::Window,
                    cycle: false,
                    tile_idx: 0,
                    offset: 0,
                    state: crate::ppu::fifo::FetcherState::ReadTileId,
                    ..a.bg
                },
                ..a
            }
        } else {
            a
        }
    }

    /// The fetcher is clocked and hands out its front pixel, if any.
    pub open spec fn bg_fetched(self) -> (PpuView, Option<u8>) {
        let (bg, to_discard, push) = bg_fetch_spec(self.bg, self.lcdc, self.vram, self.to_discard);
        (PpuView { bg, to_discard, ..self }, push)
    }

    /// Sprite mixing: when a background pixel is out and the sprite queue
    /// has one, the sprite pixel is taken; it wins when it is not
    /// transparent and either has no background priority or the
    /// background pixel is color 0.
    pub open spec fn mix_phase(self, push: Option<u8>) -> (PpuView, Option<FifoPixel>, Option<u8>) {
        if self.spr.queue.len() > 0 && push is Some {
            let p = self.spr.queue[0];
            let a = PpuView { spr: SprFetcherView { queue: self.spr.queue.drop_first(), ..self.spr }, ..self };
            if p.color > 0 && (!p.priority || push->0 == 0) {
                (a, Some(p), Some(p.color))
            } else {
                (a, None, push)
            }
        } else {
            (self, None, push)
        }
    }

    /// The shade of color index `color` through the palette: BGP for the
    /// background, OBP0/OBP1 (with index 0 mapped to shade 0) for a sprite.
    pub open spec fn shade(self, sprite: Option<FifoPixel>, color: u8) -> u8 {
        let pal = match sprite {
            Some(p) => (if !p.pal { self.obp.0 } else { self.obp.1 }) & 0xFC,
            None => self.bgp,
        };
        (pal >> (color << 1u8)) & 3
    }

    /// A shade is written at the pixel position, which moves right; after
    /// the last pixel of the line the sprite fetcher is reset, HBlank
    /// takes the rest of the 376 cycles, and the window line advances if
    /// the window was on this line.
    pub open spec fn output_step(self, shade: u8, iif: u8) -> (PpuView, u8) {
        let a = PpuView {
            display: self.display.update(self.ly * 160 + self.lx, shade),
            lx: (self.lx + 1) as u8,
            ..self
        };
        if a.lx >= 160 {
            a.line_end(iif)
        } else {
            (a, iif)
        }
    }

    /// The end of a line's transfer: the sprite fetcher is reset, HBlank
    /// takes the rest of the 376 cycles, and the window line advances if
    /// the window was on this line.
    pub open spec fn line_end(self, iif: u8) -> (PpuView, u8) {
        let b = PpuView {
            fetched_sprites: 0,
            spr: SprFetcherView {
                queue: Seq::empty(),
                fetching: false,
                cycle: false,
                state: crate::ppu::fifo::FetcherState::ReadTileId,
                ..self.spr
            },
            lx: 0,
            hblank_len: (376 - self.cycles) as usize,
            ..self
        };
        let c = if b.window_in_ly() {
            PpuView { wly: (b.wly + 1) as u8, ..b }
        } else {
            b
        };
        c.with_mode(PpuMode::HBlank).after_check_stat(iif)
    }

    /// One clock of the pixel transfer.
    #[verifier::opaque]
    pub open spec fn px_transfer_step(self, iif: u8) -> (PpuView, u8) {
        let a = self.sprite_phase();
        let (b, push) = a.bg_phase();
        let (c, sprite, push2) = b.mix_phase(push);
        match push2 {
            Some(color) => c.output_step(c.shade(sprite, color), iif),
            None => (c, iif),
        }
    }
}

/// One step of the PPU on the state `v` with IF at `iif`, giving `new`
/// and IF at `new_iif`. With the display off the screen is cleared once;
/// with it on, LY=LYC is latched and the mode's step runs.
pub open spec fn inner_step(v: PpuView, iif: u8, new: PpuView, new_iif: u8) -> bool {
    if !v.lcdc.enable_display {
        new == v.after_disabled() && new_iif == iif
    } else {
        let a = v.enabled_prefix();
        match a.mode {
            PpuMode::HBlank => (new, new_iif) == a.hblank_step(iif),
            PpuMode::VBlank => (new, new_iif) == a.vblank_step(iif),
            PpuMode::OamSearch => {
                &&& (new, new_iif) == a.oam_search_step(iif, new.oam_buffer)
                &&& a.cycles >= 80 ==> a.buffer_ok(new.oam_buffer)
            },
            PpuMode::PxTransfer => (new, new_iif) == a.px_transfer_step(iif),
        }
    }
}

/// In the trace `t`, entry `k + 1` follows from entry `k` by one step
/// after `unit` cycles are counted.
pub open spec fn step_at(t: Seq<(PpuView, u8)>, k: int, unit: usize) -> bool {
    inner_step(
        PpuView { cycles: (t[k].0.cycles + unit) as usize, ..t[k].0 },
        t[k].1,
        t[k + 1].0,
        t[k + 1].1,
    )
}

/// Each entry of `t` follows from the one before by one step.
pub open spec fn is_trace(t: Seq<(PpuView, u8)>, unit: usize) -> bool {
    forall|k: int| 0 <= k < t.len() - 1 ==> #[trigger] step_at(t, k, unit)
}

/// `n` steps, each after `unit` cycles are counted, lead from `v` (IF at
/// `iif`) to `new` (IF at `new_iif`).
pub open spec fn steps(v: PpuView, iif: u8, n: nat, unit: usize, new: PpuView, new_iif: u8) -> bool {
    exists|t: Seq<(PpuView, u8)>|
        #![trigger is_trace(t, unit)]
        is_trace(t, unit) && t.len() == n + 1 && t[0] == (v, iif) && t[n as int] == (new, new_iif)
}

/// Every object `scan` picks is on the line.
pub proof fn lemma_scan_on_line(s: Seq<OamObject>, ly: u8, size: u8)
    ensures
        forall|i: int|
            0 <= i < scan(s, ly, size).len() ==> crate::ppu::oam::on_line(
                #[trigger] scan(s, ly, size)[i],
                ly,
                size,
            ),
    decreases s.len(),
{
    if s.len() > 0 {
        lemma_scan_on_line(s.drop_last(), ly, size);
        let r = scan(s.drop_last(), ly, size);
        assert forall|i: int| 0 <= i < scan(s, ly, size).len() implies crate::ppu::oam::on_line(
            #[trigger] scan(s, ly, size)[i],
            ly,
            size,
        ) by {
            if i < r.len() {
                assert(scan(s, ly, size)[i] == r[i]);
            }
        }
    }
}

pub struct Ppu {
    pub display: Vec<u8>,
    pub frame_ready: bool,
    pub bgp: u8,
    pub obp: (u8, u8),
    pub lyc: u8,
    pub scy: u8,
    pub scx: u8,
    pub wy: u8,
    pub wx: u8,
    pub wly: u8,
    pub ly: u8,
    pub mmio_ly: u8,
    pub compare_ly: u8,
    pub lx: u8,
    pub hblank_len: usize,
    pub cycles: usize,
    pub mode: PpuMode,
    pub vram: Vec<u8>,
    pub oam: OamMemory,
    pub lcdc: Lcdc,
    pub display_cleared: bool,
    pub bg_fetcher: BackgroundFetcher,
    pub spr_fetcher: SpriteFetcher,
    pub to_discard: u8,
    pub stat_intr: StatInterrupts,
    pub stat_prev: bool,
    pub oam_buffer: OamBuffer,
    pub suspend_bg_fetcher: bool,
    pub fetched_sprites: usize,
    pub mmu_oam_locked: bool,
    pub stat_r_lyc_eq: bool,
}

impl Ppu {
    pub open spec fn view(&self) -> PpuView {
        PpuView {
            display: self.display@,
            frame_ready: self.frame_ready,
            bgp: self.bgp,
            obp: self.obp,
            lyc: self.lyc,
            scy: self.scy,
            scx: self.scx,
            wy: self.wy,
            wx: self.wx,
            wly: self.wly,
            ly: self.ly,
            mmio_ly: self.mmio_ly,
            compare_ly: self.compare_ly,
            lx: self.lx,
            hblank_len: self.hblank_len,
            cycles: self.cycles,
            mode: self.mode,
            vram: self.vram@,
            oam: self.oam.objects@,
            lcdc: self.lcdc,
            display_cleared: self.display_cleared,
            bg: self.bg_fetcher.view(),
            spr: self.spr_fetcher.view(),
            to_discard: self.to_discard,
            stat_intr: self.stat_intr,
            stat_prev: self.stat_prev,
            oam_buffer: self.oam_buffer.view(),
            suspend_bg_fetcher: self.suspend_bg_fetcher,
            fetched_sprites: self.fetched_sprites,
            mmu_oam_locked: self.mmu_oam_locked,
            stat_r_lyc_eq: self.stat_r_lyc_eq,
        }
    }

    /// The state invariant: buffer sizes, the line and pixel counters in
    /// range for their mode, and, during the pixel transfer, the bound
    /// that keeps the background fetcher within its tile map row.
    pub open spec fn wf(&self) -> bool {
        &&& self.core_ok()
        &&& self.mode == PpuMode::PxTransfer ==> self.offset_ok(0)
    }

    /// The part of the invariant that holds between the steps of a clock.
    pub open spec fn core_ok(&self) -> bool {
        let v = self.view();
        &&& self.display.len() == FB_SIZE
        &&& self.vram.len() == VRAM_SIZE
        &&& self.oam.wf()
        &&& self.bg_fetcher.wf()
        &&& self.spr_fetcher.wf()
        &&& v.ly < 155
        &&& v.lx < 160
        &&& v.wly <= v.ly + 1
        &&& v.mode != PpuMode::HBlank ==> v.wly <= v.ly
        &&& v.mode != PpuMode::PxTransfer ==> v.lx == 0
        &&& (v.mode == PpuMode::HBlank || v.mode == PpuMode::OamSearch || v.mode
            == PpuMode::PxTransfer) ==> v.ly < 144
        &&& v.hblank_len <= 376
        &&& v.oam_buffer.len() <= OBJECTS_PER_LINE
    }

    /// Each queued background tile was paid for by pixels shown or
    /// discarded: eight per tile row fetched, give or take `extra` pixels
    /// in flight.
    pub open spec fn offset_ok(&self, extra: int) -> bool {
        let v = self.view();
        &&& v.to_discard <= 7
        &&& 8 * v.bg.offset + v.to_discard <= v.bg.queue.len() + v.lx + 7 + extra
    }

    /// The sprite fetch in progress, and during the pixel transfer every
    /// selected object, cover the current line at the current object
    /// height. A change of LCDC's object height in the middle of a line
    /// can break this; a row fetch outside the object would fail.
    pub open spec fn sprites_fit(&self) -> bool {
        sprites_fit_in(
            self.spr_fetcher.view(),
            self.mode,
            self.oam_buffer.view(),
            self.ly,
            self.lcdc,
        )
    }

    /// The state at power-on: the display shows the boot pattern, VRAM is
    /// zero, OAM holds forty blank entries, the palettes are the identity
    /// 0b11_10_01_00, the line starts in OAM search with an HBlank length of
    /// 204, every register, counter and flag is zero or off, and both
    /// fetchers are new.
    pub open spec fn power_on() -> PpuView {
        PpuView {
            display: Seq::new(FB_SIZE as nat, |i: int| boot_pattern(i)),
            frame_ready: false,
            bgp: 0b11_10_01_00,
            obp: (0b11_10_01_00u8, 0b11_10_01_00u8),
            lyc: 0,
            scy: 0,
            scx: 0,
            wy: 0,
            wx: 0,
            wly: 0,
            ly: 0,
            mmio_ly: 0,
            compare_ly: 0,
            lx: 0,
            hblank_len: 204,
            cycles: 0,
            mode: PpuMode::OamSearch,
            vram: Seq::new(VRAM_SIZE as nat, |i: int| 0u8),
            oam: Seq::new(40, |i: int| OamObject::blank(i as u8)),
            lcdc: lcdc_of(0),
            display_cleared: false,
            bg: BgFetcherView {
                queue: Seq::empty(),
                state: FetcherState::ReadTileId,
                cycle: false,
                scx: 0,
                scy: 0,
                wly: 0,
                ly: 0,
                offset: 0,
                tile_idx: 0,
                tile_data: (0, 0),
                layer: FetcherLayer::Background,
                sleep: 6,
            },
            spr: SprFetcherView {
                queue: Seq::empty(),
                state: FetcherState::ReadTileId,
                cycle: false,
                object: OamObject::blank(0),
                tile_idx: 0,
                tile_data: (0, 0),
                ly: 0,
                fetching: false,
            },
            to_discard: 0,
            stat_intr: stat_interrupts_of(0),
            stat_prev: false,
            oam_buffer: Seq::empty(),
            suspend_bg_fetcher: false,
            fetched_sprites: 0,
            mmu_oam_locked: false,
            stat_r_lyc_eq: false,
        }
    }

    pub fn new() -> (r: Self)
        ensures
            r.wf(),
            r.sprites_fit(),
            r.view() == Ppu::power_on(),
    {
        let mut display: Vec<u8> = Vec::new();
        let mut i: usize = 0;
        while i < FB_SIZE
            invariant
                i <= FB_SIZE,
                display@ == Seq::new(i as nat, |k: int| boot_pattern(k)),
            decreases FB_SIZE - i,
        {
            let sum: usize = i + (i / WIDTH);
            let parity: usize = sum & 1;
            assert(parity == sum % 2 && parity < 2) by (bit_vector)
                requires
                    parity == sum & 1,
            ;
            let shade = 1 + (i % 3) as u8;
            display.push(if parity == 1 { shade } else { 0 });
            assert(display@ =~= Seq::new((i + 1) as nat, |k: int| boot_pattern(k)));
            i += 1;
        }
        let mut vram: Vec<u8> = Vec::new();
        let mut j: usize = 0;
        while j < VRAM_SIZE
            invariant
                j <= VRAM_SIZE,
                vram@ == Seq::new(j as nat, |k: int| 0u8),
            decreases VRAM_SIZE - j,
        {
            vram.push(0);
            assert(vram@ =~= Seq::new((j + 1) as nat, |k: int| 0u8));
            j += 1;
        }
        let r = Ppu {
            display,
            frame_ready: false,
            bgp: 0b11_10_01_00,
            obp: (0b11_10_01_00, 0b11_10_01_00),
            lyc: 0,
            scy: 0,
            scx: 0,
            wy: 0,
            wx: 0,
            wly: 0,
            ly: 0,
            mmio_ly: 0,
            compare_ly: 0,
            lx: 0,
            hblank_len: 204,
            cycles: 0,
            mode: PpuMode::OamSearch,
            vram,
            oam: OamMemory::new(),
            lcdc: Lcdc::from_u8(0),
            display_cleared: false,
            bg_fetcher: BackgroundFetcher::new(),
            spr_fetcher: SpriteFetcher::new(),
            to_discard: 0,
            stat_intr: StatInterrupts::from_u8(0),
            stat_prev: false,
            oam_buffer: OamBuffer::new(),
            suspend_bg_fetcher: false,
            fetched_sprites: 0,
            mmu_oam_locked: false,
            stat_r_lyc_eq: false,
        };
        assert(r.oam.objects@ =~= Seq::new(40, |i: int| OamObject::blank(i as u8)));
        assert(r.oam_buffer.view() =~= Seq::empty());
        r
    }

    pub fn set_lcdc(&mut self, value: u8)
        requires
            old(self).wf(),
        ensures
            final(self).wf(),
            final(self).view() == (PpuView { lcdc: lcdc_of(value), ..old(self).view() }),
    {
        self.lcdc.set_from_u8(value);
    }

    pub fn get_lcdc(&self) -> (r: u8)
        ensures
            r == self.lcdc.to_u8_spec(),
    {
        self.lcdc.into_u8()
    }

    pub fn get_stat(&self) -> (r: u8)
        ensures
            r == self.view().stat_value(),
    {
        let m = mode_number(self.mode);
        let shown: u8 = bool_to_u8(self.lcdc.enable_display) * m;
        shown | (bool_to_u8(self.stat_r_lyc_eq) << 2u8) | (self.stat_intr.into_u8() << 3u8) | 0x80
    }

    /// Sets the interrupt sources from bits 3-6 of `value`.
    pub fn set_stat(&mut self, value: u8)
        requires
            old(self).wf(),
        ensures
            final(self).wf(),
            final(self).view() == (PpuView {
                stat_intr: stat_interrupts_of(value >> 3u8),
                ..old(self).view()
            }),
    {
        self.stat_intr.set_from_u8(value >> 3u8);
    }

    fn oam_blocked(&self) -> (r: bool)
        ensures
            r == self.view().oam_blocked(),
    {
        if !self.lcdc.enable_display {
            return false;
        }
        if self.mmu_oam_locked {
            return true;
        }
        match self.mode {
            PpuMode::OamSearch | PpuMode::PxTransfer => true,
            _ => false,
        }
    }

    fn vram_blocked(&self) -> (r: bool)
        ensures
            r == (self.mode == PpuMode::PxTransfer),
    {
        match self.mode {
            PpuMode::PxTransfer => true,
            _ => false,
        }
    }

    /// A read of OAM at `addr` (0xFE00-0xFE9F); 0xFF while OAM is blocked
    /// and `blocking` is set.
    pub fn read_oam(&self, addr: u16, blocking: bool) -> (r: u8)
        requires
            self.wf(),
            0xFE00 <= addr < 0xFEA0,
        ensures
            r == if blocking && self.view().oam_blocked() {
                0xFFu8
            } else {
                self.view().oam[(addr - 0xFE00) / 4].byte_spec(((addr - 0xFE00) % 4) as u8)
            },
    {
        if blocking && self.oam_blocked() {
            return 0xff;
        }
        self.oam.read_oam(addr - 0xFE00)
    }

    /// A write to OAM at `addr` (0xFE00-0xFE9F), dropped while OAM is
    /// blocked and `blocking` is set.
    pub fn write_oam(&mut self, addr: u16, value: u8, blocking: bool)
        requires
            old(self).wf(),
            0xFE00 <= addr < 0xFEA0,
        ensures
            final(self).wf(),
            final(self).sprites_fit() == old(self).sprites_fit(),
            final(self).view() == if blocking && old(self).view().oam_blocked() {
                old(self).view()
            } else {
                let k = (addr - 0xFE00) / 4;
                PpuView {
                    oam: old(self).view().oam.update(
                        k,
                        old(self).view().oam[k].with_byte(((addr - 0xFE00) % 4) as u8, value),
                    ),
                    ..old(self).view()
                }
            },
    {
        if blocking && self.oam_blocked() {
            return ;
        }
        self.oam.write_oam(addr - 0xFE00, value);
    }

    /// A read of VRAM at `addr` (0x8000-0x9FFF); 0xFF during the pixel
    /// transfer when `blocking` is set.
    pub fn read_vram(&self, addr: u16, blocking: bool) -> (r: u8)
        requires
            self.wf(),
            0x8000 <= addr < 0xA000,
        ensures
            r == if blocking && self.mode == PpuMode::PxTransfer {
                0xFFu8
            } else {
                self.view().vram[addr - 0x8000]
            },
    {
        if blocking && self.vram_blocked() {
            return 0xFF;
        }
        self.vram[(addr - 0x8000) as usize]
    }

    /// A write to VRAM at `addr` (0x8000-0x9FFF), dropped during the pixel
    /// transfer when `blocking` is set.
    pub fn write_vram(&mut self, addr: u16, value: u8, blocking: bool)
        requires
            old(self).wf(),
            0x8000 <= addr < 0xA000,
        ensures
            final(self).wf(),
            final(self).sprites_fit() == old(self).sprites_fit(),
            final(self).view() == if blocking && old(self).mode == PpuMode::PxTransfer {
                old(self).view()
            } else {
                PpuView {
                    vram: old(self).view().vram.update(addr - 0x8000, value),
                    ..old(self).view()
                }
            },
    {
        if blocking && self.vram_blocked() {
            return ;
        }
        self.vram.set((addr - 0x8000) as usize, value);
    }

    /// Enters `mode`, restarting the cycle count.
    fn mode(&mut self, mode: PpuMode)
        ensures
            final(self).view() == old(self).view().with_mode(mode),
    {
        self.cycles = 0;
        self.mode = mode;
    }

    fn check_stat(&mut self, iif: &mut u8)
        ensures
            (final(self).view(), *final(iif)) == old(self).view().after_check_stat(*old(iif)),
    {
        let stat = (self.stat_intr.lyc_eq && (self.ly == self.lyc)) || (self.stat_intr.mode_0
            && (self.mode == PpuMode::HBlank)) || (self.stat_intr.mode_1 && (self.mode
            == PpuMode::VBlank)) || (self.stat_intr.mode_2 && (self.mode == PpuMode::OamSearch));
        if stat && !self.stat_prev {
            Cpu::set_interrupt(iif, Interrupt::Stat);
        }
        self.stat_prev = stat;
    }

    fn window_in_ly(&self) -> (r: bool)
        ensures
            r == self.view().window_in_ly(),
    {
        self.lcdc.enable_win && (self.ly >= self.wy) && (self.wx < (WIDTH + 7) as u8) || (self.wx
            == 166)
    }

    fn set_ly_and_update(&mut self, ly: u8)
        ensures
            final(self).view() == old(self).view().with_ly(ly),
    {
        self.ly = ly;
        self.mmio_ly = ly;
        self.compare_ly = ly;
    }

    fn do_sprite_fetcher_stuff(&mut self)
        requires
            old(self).core_ok(),
            old(self).sprites_fit(),
            old(self).mode == PpuMode::PxTransfer,
        ensures
            final(self).core_ok(),
            final(self).sprites_fit(),
            final(self).view() == old(self).view().sprite_step(),
            final(self).mode == PpuMode::PxTransfer,
    {
        if !self.spr_fetcher.fetching {
            if let Some(sprite) = self.oam_buffer.get(self.fetched_sprites) {
                if sprite.x <= (self.lx + 8) {
                    self.bg_fetcher.spr_reset();
                    self.suspend_bg_fetcher = true;
                    self.spr_fetcher.start(sprite, self.ly);
                    self.fetched_sprites += 1;
                }
            }
        }
        if self.spr_fetcher.fetching {
            self.spr_fetcher.tick(&self.lcdc, &self.vram);
        }
    }

    fn sprite_phase(&mut self)
        requires
            old(self).core_ok(),
            old(self).sprites_fit(),
            old(self).mode == PpuMode::PxTransfer,
        ensures
            final(self).core_ok(),
            final(self).sprites_fit(),
            final(self).view() == old(self).view().sprite_phase(),
            final(self).mode == PpuMode::PxTransfer,
            final(self).offset_ok(0) == old(self).offset_ok(0),
    {
        if (self.oam_buffer.len() != 0) && self.lcdc.enable_obj {
            self.do_sprite_fetcher_stuff();
            if self.suspend_bg_fetcher && !self.spr_fetcher.fetching {
                self.suspend_bg_fetcher = false;
                self.do_sprite_fetcher_stuff();
            }
        }
    }

    fn bg_prepare(&mut self)
        requires
            old(self).core_ok(),
            old(self).mode == PpuMode::PxTransfer,
            old(self).offset_ok(0),
        ensures
            final(self).core_ok(),
            final(self).view() == old(self).view().bg_prepared(),
            final(self).mode == PpuMode::PxTransfer,
            final(self).offset_ok(0),
            final(self).sprites_fit() == old(self).sprites_fit(),
    {
        self.bg_fetcher.update_values(self.scx, self.scy);
        if !self.bg_fetcher.is_window() && self.window_in_ly() && ((self.lx + 7) >= self.wx) {
            self.bg_fetcher.switch_to_window();
        }
    }

    fn bg_fetch(&mut self) -> (push: Option<u8>)
        requires
            old(self).core_ok(),
            old(self).mode == PpuMode::PxTransfer,
            old(self).offset_ok(0),
        ensures
            final(self).core_ok(),
            (final(self).view(), push) == old(self).view().bg_fetched(),
            final(self).mode == PpuMode::PxTransfer,
            push is None ==> final(self).offset_ok(0),
            push is Some ==> final(self).offset_ok(1) && push->0 < 4,
            final(self).sprites_fit() == old(self).sprites_fit(),
    {
        fetch_bg_pixel(
            &mut self.bg_fetcher,
            &self.lcdc,
            &self.vram,
            &mut self.to_discard,
            Ghost(self.lx as int),
        )
    }

    fn bg_phase(&mut self) -> (push: Option<u8>)
        requires
            old(self).core_ok(),
            old(self).sprites_fit(),
            old(self).mode == PpuMode::PxTransfer,
            old(self).offset_ok(0),
        ensures
            final(self).core_ok(),
            final(self).sprites_fit(),
            (final(self).view(), push) == old(self).view().bg_phase(),
            final(self).mode == PpuMode::PxTransfer,
            push is None ==> final(self).offset_ok(0),
            push is Some ==> final(self).offset_ok(1) && push->0 < 4,
    {
        if !self.suspend_bg_fetcher {
            self.bg_prepare();
            self.bg_fetch()
        } else {
            None
        }
    }

    fn mix_phase(&mut self, push: Option<u8>) -> (r: (Option<FifoPixel>, Option<u8>))
        requires
            old(self).core_ok(),
            old(self).sprites_fit(),
            old(self).mode == PpuMode::PxTransfer,
            push is Some ==> push->0 < 4,
        ensures
            final(self).core_ok(),
            final(self).sprites_fit(),
            (final(self).view(), r.0, r.1) == old(self).view().mix_phase(push),
            final(self).mode == PpuMode::PxTransfer,
            final(self).offset_ok(0) == old(self).offset_ok(0),
            final(self).offset_ok(1) == old(self).offset_ok(1),
            r.1 is Some <==> push is Some,
            r.1 is Some ==> r.1->0 < 4,
    {
        if (self.spr_fetcher.len() > 0) && push.is_some() {
            let spr_pixel = self.spr_fetcher.pop().unwrap();
            if (spr_pixel.color > 0) && (!spr_pixel.priority || (push.unwrap() == 0)) {
                (Some(spr_pixel), Some(spr_pixel.color))
            } else {
                (None, push)
            }
        } else {
            (None, push)
        }
    }

    fn shade(&self, sprite: Option<FifoPixel>, color: u8) -> (r: u8)
        requires
            color < 4,
        ensures
            r == self.view().shade(sprite, color),
    {
        let pal = if let Some(pixel) = sprite {
            let pal = if !pixel.pal {
                self.obp.0
            } else {
                self.obp.1
            };
            pal & 0b11111100
        } else {
            self.bgp
        };
        assert(color << 1u8 < 8) by {
            lemma_byte_shl(color);
        }
        (pal >> (color << 1u8)) & 0b11
    }

    /// The end of a line's pixel transfer, once the pixel position has
    /// reached 160.
    #[verifier::spinoff_prover]
    fn finish_line(&mut self, iif: &mut u8)
        requires
            old(self).display.len() == FB_SIZE,
            old(self).vram.len() == VRAM_SIZE,
            old(self).oam.wf(),
            old(self).bg_fetcher.wf(),
            old(self).spr_fetcher.wf(),
            old(self).ly < 144,
            old(self).lx == 160,
            old(self).wly <= old(self).ly,
            old(self).mode == PpuMode::PxTransfer,
            old(self).oam_buffer.view().len() <= OBJECTS_PER_LINE,
            old(self).cycles <= 376,
            old(self).sprites_fit(),
        ensures
            final(self).wf(),
            final(self).sprites_fit(),
            (final(self).view(), *final(iif)) == old(self).view().line_end(*old(iif)),
    {
        let ghost v0 = self.view();
        self.reset_for_hblank();
        self.enter_hblank();
        self.check_stat(iif);
    }

    /// Advances the window line if the window was on this line, and enters
    /// HBlank.
    fn enter_hblank(&mut self)
        requires
            old(self).display.len() == FB_SIZE,
            old(self).vram.len() == VRAM_SIZE,
            old(self).oam.wf(),
            old(self).bg_fetcher.wf(),
            old(self).spr_fetcher.wf(),
            old(self).ly < 144,
            old(self).lx == 0,
            old(self).wly <= old(self).ly,
            old(self).hblank_len <= 376,
            old(self).oam_buffer.view().len() <= OBJECTS_PER_LINE,
            !old(self).spr_fetcher.fetching,
        ensures
            final(self).wf(),
            final(self).sprites_fit(),
            final(self).view() == (if old(self).view().window_in_ly() {
                PpuView { wly: (old(self).wly + 1) as u8, ..old(self).view() }
            } else {
                old(self).view()
            }).with_mode(PpuMode::HBlank),
    {
        if self.window_in_ly() {
            self.wly += 1;
        }
        self.mode(PpuMode::HBlank);
    }

    fn reset_for_hblank(&mut self)
        requires
            old(self).cycles <= 376,
        ensures
            final(self).view() == (PpuView {
                fetched_sprites: 0,
                spr: SprFetcherView {
                    queue: Seq::empty(),
                    fetching: false,
                    cycle: false,
                    state: crate::ppu::fifo::FetcherState::ReadTileId,
                    ..old(self).view().spr
                },
                lx: 0,
                hblank_len: (376 - old(self).cycles) as usize,
                ..old(self).view()
            }),
            old(self).spr_fetcher.wf() ==> final(self).spr_fetcher.wf(),
            final(self).oam.wf() == old(self).oam.wf(),
            final(self).bg_fetcher.wf() == old(self).bg_fetcher.wf(),
            final(self).display.len() == old(self).display.len(),
            final(self).vram.len() == old(self).vram.len(),
    {
        self.fetched_sprites = 0;
        self.spr_fetcher.eol();
        self.lx = 0;
        self.hblank_len = 376 - self.cycles;
    }

    #[verifier::spinoff_prover]
    fn output_step(&mut self, shade: u8, iif: &mut u8)
        requires
            old(self).core_ok(),
            old(self).sprites_fit(),
            old(self).mode == PpuMode::PxTransfer,
            old(self).offset_ok(1),
            old(self).cycles <= 376,
        ensures
            final(self).wf(),
            final(self).sprites_fit(),
            (final(self).view(), *final(iif)) == old(self).view().output_step(shade, *old(iif)),
    {
        let ly = self.ly;
        let lx = self.lx;
        assert((ly as usize) * 160 + (lx as usize) < 23040) by (nonlinear_arith)
            requires
                ly < 144,
                lx < 160,
        ;
        let ghost v0 = self.view();
        let addr = (self.ly as usize * WIDTH) + self.lx as usize;
        self.display.set(addr, shade);
        self.lx += 1;
        let ghost a = PpuView {
            display: v0.display.update(v0.ly * 160 + v0.lx, shade),
            lx: (v0.lx + 1) as u8,
            ..v0
        };
        assert(self.view() == a);
        if self.lx >= WIDTH as u8 {
            self.finish_line(iif);
        } else {
            assert(self.offset_ok(0));
            assert(self.core_ok());
        }
    }

    fn px_transfer_step(&mut self, iif: &mut u8)
        requires
            old(self).wf(),
            old(self).sprites_fit(),
            old(self).mode == PpuMode::PxTransfer,
            old(self).cycles <= 376,
        ensures
            final(self).cycles == old(self).cycles || final(self).cycles == 0,
            final(self).mode == PpuMode::PxTransfer && final(self).cycles != 0 ==> old(self).mode
                == PpuMode::PxTransfer,
            final(self).wf(),
            final(self).sprites_fit(),
            (final(self).view(), *final(iif)) == old(self).view().px_transfer_step(*old(iif)),
    {
        proof {
            reveal(PpuView::px_transfer_step);
        }
        self.sprite_phase();
        let push_color = self.bg_phase();
        let (spr_pixel, push_color) = self.mix_phase(push_color);
        if let Some(color) = push_color {
            let shade = self.shade(spr_pixel, color);
            self.output_step(shade, iif);
        }
    }

    fn disabled_step(&mut self)
        requires
            old(self).wf(),
            old(self).sprites_fit(),
            !old(self).display_cleared,
        ensures
            final(self).cycles == old(self).cycles || final(self).cycles == 0,
            final(self).mode == PpuMode::PxTransfer && final(self).cycles != 0 ==> old(self).mode
                == PpuMode::PxTransfer,
            final(self).wf(),
            final(self).sprites_fit(),
            final(self).view() == old(self).view().after_disabled(),
    {
        proof {
            reveal(PpuView::after_disabled);
        }
        let mut i: usize = 0;
        while i < FB_SIZE
            invariant
                i <= FB_SIZE,
                self.display.len() == FB_SIZE,
                forall|k: int| 0 <= k < i ==> #[trigger] self.display@[k] == 0,
                self.view() == (PpuView { display: self.view().display, ..old(self).view() }),
                self.core_ok() == old(self).core_ok(),
                self.wf() == old(self).wf(),
                self.sprites_fit() == old(self).sprites_fit(),
            decreases FB_SIZE - i,
        {
            self.display.set(i, 0);
            i += 1;
        }
        assert(self.display@ =~= Seq::new(FB_SIZE as nat, |k: int| 0u8));
        self.set_ly_and_update(0);
        self.lx = 0;
        self.wly = 0;
        self.stat_prev = false;
        self.mode(PpuMode::HBlank);
        self.display_cleared = true;
    }

    fn hblank_step(&mut self, iif: &mut u8)
        requires
            old(self).wf(),
            old(self).sprites_fit(),
            old(self).mode == PpuMode::HBlank,
        ensures
            final(self).cycles == old(self).cycles || final(self).cycles == 0,
            final(self).mode == PpuMode::PxTransfer && final(self).cycles != 0 ==> old(self).mode
                == PpuMode::PxTransfer,
            final(self).wf(),
            final(self).sprites_fit(),
            (final(self).view(), *final(iif)) == old(self).view().hblank_step(*old(iif)),
    {
        proof {
            reveal(PpuView::hblank_step);
        }
        if self.cycles >= self.hblank_len {
            self.set_ly_and_update(self.ly + 1);
            if self.ly < 144 {
                self.mode(PpuMode::OamSearch);
            } else {
                self.mode(PpuMode::VBlank);
                self.frame_ready = true;
                Cpu::set_interrupt(iif, Interrupt::VBlank);
            }
            self.check_stat(iif);
        }
    }

    fn vblank_step(&mut self, iif: &mut u8)
        requires
            old(self).wf(),
            old(self).sprites_fit(),
            old(self).mode == PpuMode::VBlank,
        ensures
            final(self).cycles == old(self).cycles || final(self).cycles == 0,
            final(self).mode == PpuMode::PxTransfer && final(self).cycles != 0 ==> old(self).mode
                == PpuMode::PxTransfer,
            final(self).wf(),
            final(self).sprites_fit(),
            (final(self).view(), *final(iif)) == old(self).view().vblank_step(*old(iif)),
    {
        proof {
            reveal(PpuView::vblank_step);
        }
        if self.cycles >= 456 {
            self.cycles = 0;
            self.set_ly_and_update(self.ly + 1);
            if self.ly >= 155 {
                self.wly = 0;
                self.set_ly_and_update(0);
                self.mode(PpuMode::OamSearch);
            }
            self.check_stat(iif);
        }
    }

    /// OAM search proper: the objects on the current line, if objects are on.
    fn select_objects(&mut self)
        requires
            old(self).core_ok(),
            old(self).mode == PpuMode::OamSearch,
        ensures
            final(self).core_ok(),
            final(self).mode == PpuMode::OamSearch,
            final(self).view() == (PpuView { oam_buffer: final(self).view().oam_buffer, ..old(self).view() }),
            old(self).view().buffer_ok(final(self).view().oam_buffer),
            forall|i: int|
                0 <= i < final(self).view().oam_buffer.len() ==> fits(
                    #[trigger] final(self).view().oam_buffer[i],
                    old(self).ly,
                    obj_height(old(self).lcdc),
                ),
            final(self).sprites_fit() == old(self).sprites_fit(),
    {
        if self.lcdc.enable_obj {
            self.oam_buffer = self.oam.get_buffer(self.ly, &self.lcdc);
            proof {
                let size: u8 = if self.lcdc.obj_size { 16 } else { 8 };
                let sc = scan(self.oam.objects@, self.ly, size);
                let b = self.oam_buffer.view();
                lemma_scan_on_line(self.oam.objects@, self.ly, size);
                crate::ppu::oam::lemma_scan_at_most_ten(self.oam.objects@, self.ly, size);
                b.to_multiset_ensures();
                sc.to_multiset_ensures();
                assert forall|i: int| 0 <= i < b.len() implies fits(
                    #[trigger] b[i],
                    self.ly,
                    obj_height(self.lcdc),
                ) by {
                    assert(b.contains(b[i]));
                    assert(b.to_multiset().count(b[i]) > 0);
                    assert(sc.to_multiset().count(b[i]) > 0);
                    assert(sc.contains(b[i]));
                    let j = choose|j: int| 0 <= j < sc.len() && sc[j] == b[i];
                    assert(crate::ppu::oam::on_line(sc[j], self.ly, size));
                }
            }
        } else {
            self.oam_buffer = OamBuffer::default();
        }
    }

    fn oam_search_step(&mut self, iif: &mut u8)
        requires
            old(self).wf(),
            old(self).sprites_fit(),
            old(self).mode == PpuMode::OamSearch,
        ensures
            final(self).cycles == old(self).cycles || final(self).cycles == 0,
            final(self).mode == PpuMode::PxTransfer && final(self).cycles != 0 ==> old(self).mode
                == PpuMode::PxTransfer,
            final(self).wf(),
            final(self).sprites_fit(),
            (final(self).view(), *final(iif)) == old(self).view().oam_search_step(
                *old(iif),
                final(self).view().oam_buffer,
            ),
            old(self).cycles >= 80 ==> old(self).view().buffer_ok(final(self).view().oam_buffer),
    {
        proof {
            reveal(PpuView::oam_search_step);
        }
        if self.cycles >= 80 {
            self.select_objects();
            self.to_discard = self.scx & 7;
            assert(self.scx & 7 <= 7) by {
                lemma_byte(self.scx);
            }
            self.bg_fetcher.start(self.scx, self.scy, self.ly, self.wly);
            if !self.bg_fetcher.is_window() && self.window_in_ly() && self.wx <= 7 {
                self.bg_fetcher.switch_to_window();
            }
            self.mode(PpuMode::PxTransfer);
            self.check_stat(iif);
        }
    }

    /// One PPU step.
    fn tick_inner(&mut self, iif: &mut u8)
        requires
            old(self).wf(),
            old(self).sprites_fit(),
            old(self).mode == PpuMode::PxTransfer ==> old(self).cycles <= 376,
        ensures
            final(self).wf(),
            final(self).sprites_fit(),
            inner_step(old(self).view(), *old(iif), final(self).view(), *final(iif)),
            final(self).cycles == old(self).cycles || final(self).cycles == 0,
            final(self).mode == PpuMode::PxTransfer && final(self).cycles != 0 ==> old(self).mode
                == PpuMode::PxTransfer,
    {
        if !self.lcdc.enable_display {
            if !self.display_cleared {
                self.disabled_step();
            } else {
                proof {
                    reveal(PpuView::after_disabled);
                }
            }
            return ;
        } else {
            self.stat_r_lyc_eq = self.compare_ly == self.lyc;
            self.display_cleared = false;
        }
        assert(self.view() == old(self).view().enabled_prefix());
        match self.mode {
            PpuMode::HBlank => {
                self.hblank_step(iif);
            },
            PpuMode::VBlank => {
                self.vblank_step(iif);
            },
            PpuMode::OamSearch => {
                self.oam_search_step(iif);
            },
            PpuMode::PxTransfer => {
                self.px_transfer_step(iif);
            },
        }
    }

    /// Advances the PPU by one 4-cycle step: OAM search and VBlank lines
    /// other than 153 take the four cycles at once, other modes cycle by
    /// cycle. Requests VBlank and STAT interrupts in `iif`.
    pub fn tick(&mut self, iif: &mut u8)
        requires
            old(self).wf(),
            old(self).sprites_fit(),
            old(self).cycles + 4 <= usize::MAX,
            old(self).mode == PpuMode::PxTransfer ==> old(self).cycles + 4 <= 376,
        ensures
            final(self).wf(),
            final(self).sprites_fit(),
            final(self).cycles <= old(self).cycles + 4,
            if old(self).mode == PpuMode::OamSearch || (old(self).mode == PpuMode::VBlank && old(
                self,
            ).ly != 153) {
                steps(old(self).view(), *old(iif), 1, 4, final(self).view(), *final(iif))
            } else {
                steps(old(self).view(), *old(iif), 4, 1, final(self).view(), *final(iif))
            },
    {
        let ghost start = self.view();
        let ghost iif0 = *iif;
        let four_at_once = match self.mode {
            PpuMode::OamSearch => true,
            PpuMode::VBlank => self.ly != 153,
            _ => false,
        };
        if four_at_once {
            self.cycles += 4;
            assert(self.view() == (PpuView { cycles: (start.cycles + 4) as usize, ..start }));
            self.tick_inner(iif);
            let ghost t = seq![(start, iif0), (self.view(), *iif)];
            assert(step_at(t, 0, 4));
            assert(is_trace(t, 4));
        } else {
            let mut i: usize = 0;
            let ghost mut t = seq![(start, iif0)];
            while i < 4
                invariant
                    i <= 4,
                    self.wf(),
                    self.sprites_fit(),
                    is_trace(t, 1),
                    t.len() == i + 1,
                    t[0] == (start, iif0),
                    t[i as int] == (self.view(), *iif),
                    self.cycles + (4 - i) <= usize::MAX,
                    self.mode == PpuMode::PxTransfer ==> self.cycles + (4 - i) <= 376,
                    self.cycles <= start.cycles + i,
                decreases 4 - i,
            {
                let ghost m = self.view();
                self.cycles += 1;
                assert(self.view() == (PpuView { cycles: (m.cycles + 1) as usize, ..m }));
                self.tick_inner(iif);
                proof {
                    let t2 = t.push((self.view(), *iif));
                    assert forall|k: int| 0 <= k < t2.len() - 1 implies #[trigger] step_at(t2, k, 1) by {
                        if k < t.len() - 1 {
                            assert(step_at(t, k, 1));
                        }
                    }
                    t = t2;
                }
                i += 1;
            }
        }
    }
}

} // verus!
