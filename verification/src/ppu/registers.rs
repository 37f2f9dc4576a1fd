//! The PPU's mode and its control registers LCDC and STAT.
use vstd::prelude::*;
use crate::bitpack::{pack8, pack_byte, lemma_pack8, lemma_unpack8};

verus! {

#[derive(Clone, Copy, PartialEq, Eq, Debug, Structural)]
pub enum PpuMode {
    HBlank,
    VBlank,
    OamSearch,
    PxTransfer,
}

/// The mode number that STAT reports: 0 to 3.
pub open spec fn mode_number_spec(m: PpuMode) -> u8 {
    match m {
        PpuMode::HBlank => 0,
        PpuMode::VBlank => 1,
        PpuMode::OamSearch => 2,
        PpuMode::PxTransfer => 3,
    }
}

pub fn mode_number(m: PpuMode) -> (r: u8)
    ensures
        r == mode_number_spec(m),
{
    match m {
        PpuMode::HBlank => 0,
        PpuMode::VBlank => 1,
        PpuMode::OamSearch => 2,
        PpuMode::PxTransfer => 3,
    }
}

impl Default for PpuMode {
    /// A PPU starts a line in OAM search.
    fn default() -> (r: Self)
        ensures
            r == PpuMode::OamSearch,
    {
        PpuMode::OamSearch
    }
}

/// 1 for true, 0 for false.
pub open spec fn b2u(b: bool) -> u8 {
    if b {
        1
    } else {
        0
    }
}

pub fn bool_to_u8(b: bool) -> (r: u8)
    ensures
        r == b2u(b),
{
    if b {
        1
    } else {
        0
    }
}

/// The LCD control register (LCDC, 0xFF40), one flag per bit.
#[derive(Clone, Copy, PartialEq, Eq, Debug, Structural)]
pub struct Lcdc {
    /// Bit 0.
    pub enable_bg: bool,
    /// Bit 1.
    pub enable_obj: bool,
    /// Bit 2: objects are 8x16 rather than 8x8.
    pub obj_size: bool,
    /// Bit 3: the background map is at 0x9C00 rather than 0x9800.
    pub bg_tilemap_addr: bool,
    /// Bit 4: background and window tile data at 0x8000 (unsigned indices)
    /// rather than 0x8800 (signed indices).
    pub tiledata_addr: bool,
    /// Bit 5.
    pub enable_win: bool,
    /// Bit 6: the window map is at 0x9C00 rather than 0x9800.
    pub win_tilemap_addr: bool,
    /// Bit 7.
    pub enable_display: bool,
}

/// The LCDC flags that a register value encodes.
pub open spec fn lcdc_of(value: u8) -> Lcdc {
    Lcdc {
        enable_bg: value & 0x01 != 0,
        enable_obj: value & 0x02 != 0,
        obj_size: value & 0x04 != 0,
        bg_tilemap_addr: value & 0x08 != 0,
        tiledata_addr: value & 0x10 != 0,
        enable_win: value & 0x20 != 0,
        win_tilemap_addr: value & 0x40 != 0,
        enable_display: value & 0x80 != 0,
    }
}

impl Lcdc {
    /// The register value encoding these flags.
    pub open spec fn to_u8_spec(self) -> u8 {
        pack8(
            b2u(self.enable_bg),
            b2u(self.enable_obj),
            b2u(self.obj_size),
            b2u(self.bg_tilemap_addr),
            b2u(self.tiledata_addr),
            b2u(self.enable_win),
            b2u(self.win_tilemap_addr),
            b2u(self.enable_display),
        )
    }

    /// The tile index as an index into tile data: unchanged with bit 4 set;
    /// otherwise read as signed and offset by 256, so that 0-127 map to
    /// 256-383 and 128-255 stay.
    pub open spec fn transform_tile_index_spec(self, index: u8) -> u16 {
        if self.tiledata_addr || index >= 128 {
            index as u16
        } else {
            (index + 0x100) as u16
        }
    }

    pub fn from_u8(value: u8) -> (r: Self)
        ensures
            r == lcdc_of(value),
    {
        let mut new = Lcdc {
            enable_bg: false,
            enable_obj: false,
            obj_size: false,
            bg_tilemap_addr: false,
            tiledata_addr: false,
            enable_win: false,
            win_tilemap_addr: false,
            enable_display: false,
        };
        new.set_from_u8(value);
        new
    }

    pub fn set_from_u8(&mut self, value: u8)
        ensures
            *final(self) == lcdc_of(value),
    {
        self.enable_bg = (value & 0x01) != 0;
        self.enable_obj = (value & 0x02) != 0;
        self.obj_size = (value & 0x04) != 0;
        self.bg_tilemap_addr = (value & 0x08) != 0;
        self.tiledata_addr = (value & 0x10) != 0;
        self.enable_win = (value & 0x20) != 0;
        self.win_tilemap_addr = (value & 0x40) != 0;
        self.enable_display = (value & 0x80) != 0;
    }

    pub fn into_u8(self) -> (r: u8)
        ensures
            r == self.to_u8_spec(),
    {
        pack_byte(
            bool_to_u8(self.enable_bg),
            bool_to_u8(self.enable_obj),
            bool_to_u8(self.obj_size),
            bool_to_u8(self.bg_tilemap_addr),
            bool_to_u8(self.tiledata_addr),
            bool_to_u8(self.enable_win),
            bool_to_u8(self.win_tilemap_addr),
            bool_to_u8(self.enable_display),
        )
    }

    pub fn bg_tilemap_addr(&self) -> (r: u16)
        ensures
            r == (if self.bg_tilemap_addr {
                0x9C00u16
            } else {
                0x9800u16
            }),
    {
        if self.bg_tilemap_addr {
            0x9C00
        } else {
            0x9800
        }
    }

    pub fn win_tilemap_addr(&self) -> (r: u16)
        ensures
            r == (if self.win_tilemap_addr {
                0x9C00u16
            } else {
                0x9800u16
            }),
    {
        if self.win_tilemap_addr {
            0x9C00
        } else {
            0x9800
        }
    }

    /// The start of background and window tile data: 0x8000 with bit 4
    /// set, 0x8800 with it clear.
    pub fn bg_tiledata_addr(&self) -> (r: u16)
        ensures
            r == (if self.tiledata_addr {
                0x8000u16
            } else {
                0x8800u16
            }),
    {
        if self.tiledata_addr {
            0x8000
        } else {
            0x8800
        }
    }

    /// Object height in pixels.
    pub fn obj_size(&self) -> (r: u8)
        ensures
            r == (if self.obj_size {
                16u8
            } else {
                8u8
            }),
    {
        if self.obj_size {
            16
        } else {
            8
        }
    }

    pub fn transform_tile_index(&self, index: u8) -> (r: u16)
        ensures
            r == self.transform_tile_index_spec(index),
            r < 384,
    {
        if self.tiledata_addr {
            index as u16
        } else {
            let signed = #[verifier::truncate] (index as i8);
            let widened = #[verifier::truncate] (signed as u16);
            assert(((#[verifier::truncate] ((#[verifier::truncate] (index as i8)) as u16)) as int)
                == (if index >= 128 {
                index + 0xFF00
            } else {
                index as int
            })) by (bit_vector);
            widened.wrapping_add(0x100)
        }
    }
}

impl From<u8> for Lcdc {
    fn from(v: u8) -> (r: Self) {
        Self::from_u8(v)
    }
}

impl vstd::std_specs::convert::FromSpecImpl<u8> for Lcdc {
    open spec fn obeys_from_spec() -> bool {
        true
    }

    open spec fn from_spec(v: u8) -> Self {
        lcdc_of(v)
    }
}

/// The four STAT interrupt sources (STAT bits 3-6).
#[derive(Clone, Copy, PartialEq, Eq, Debug, Structural)]
pub struct StatInterrupts {
    pub lyc_eq: bool,
    pub mode_2: bool,
    pub mode_1: bool,
    pub mode_0: bool,
}

/// The sources that the low four bits of `value` select.
pub open spec fn stat_interrupts_of(value: u8) -> StatInterrupts {
    StatInterrupts {
        mode_0: value & 0x01 != 0,
        mode_1: value & 0x02 != 0,
        mode_2: value & 0x04 != 0,
        lyc_eq: value & 0x08 != 0,
    }
}

impl StatInterrupts {
    pub open spec fn to_u8_spec(self) -> u8 {
        pack8(b2u(self.mode_0), b2u(self.mode_1), b2u(self.mode_2), b2u(self.lyc_eq), 0, 0, 0, 0)
    }

    pub fn from_u8(value: u8) -> (r: Self)
        ensures
            r == stat_interrupts_of(value),
    {
        let mut new = StatInterrupts { lyc_eq: false, mode_2: false, mode_1: false, mode_0: false };
        new.set_from_u8(value);
        new
    }

    pub fn set_from_u8(&mut self, value: u8)
        ensures
            *final(self) == stat_interrupts_of(value),
    {
        self.mode_0 = (value & 0x01) != 0;
        self.mode_1 = (value & 0x02) != 0;
        self.mode_2 = (value & 0x04) != 0;
        self.lyc_eq = (value & 0x08) != 0;
    }

    pub fn into_u8(self) -> (r: u8)
        ensures
            r == self.to_u8_spec(),
    {
        pack_byte(
            bool_to_u8(self.mode_0),
            bool_to_u8(self.mode_1),
            bool_to_u8(self.mode_2),
            bool_to_u8(self.lyc_eq),
            0,
            0,
            0,
            0,
        )
    }
}

impl From<u8> for StatInterrupts {
    fn from(v: u8) -> (r: Self) {
        Self::from_u8(v)
    }
}

impl vstd::std_specs::convert::FromSpecImpl<u8> for StatInterrupts {
    open spec fn obeys_from_spec() -> bool {
        true
    }

    open spec fn from_spec(v: u8) -> Self {
        stat_interrupts_of(v)
    }
}

/// Encoding LCDC flags and decoding the value gives the flags back.
pub proof fn lemma_lcdc_roundtrip(l: Lcdc)
    ensures
        lcdc_of(l.to_u8_spec()) == l,
{
    lemma_pack8(
        b2u(l.enable_bg),
        b2u(l.enable_obj),
        b2u(l.obj_size),
        b2u(l.bg_tilemap_addr),
        b2u(l.tiledata_addr),
        b2u(l.enable_win),
        b2u(l.win_tilemap_addr),
        b2u(l.enable_display),
    );
}

/// Decoding a register value and encoding the flags gives the value back.
pub proof fn lemma_lcdc_value_roundtrip(value: u8)
    ensures
        lcdc_of(value).to_u8_spec() == value,
{
    lemma_unpack8(value);
}

/// Encoding STAT interrupt sources and decoding them gives them back, and a
/// decoded value encodes to its low four bits.
pub proof fn lemma_stat_interrupts_roundtrip(s: StatInterrupts, value: u8)
    ensures
        stat_interrupts_of(s.to_u8_spec()) == s,
        stat_interrupts_of(value).to_u8_spec() == value & 0x0F,
{
    lemma_pack8(b2u(s.mode_0), b2u(s.mode_1), b2u(s.mode_2), b2u(s.lyc_eq), 0, 0, 0, 0);
    lemma_unpack8(value);
}

} // verus!
