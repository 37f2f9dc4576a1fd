//! A cartridge with 32 KiB of ROM and no bank controller.
use vstd::prelude::*;
use crate::words::lemma_word;
use crate::errors::YargeError;
use crate::cartridge::CartridgeImpl;
use crate::cartridge::common::load_rom_static;

verus! {

pub const ROM_SIZE: usize = 0x8000;

pub struct CartridgeNone {
    pub rom: Vec<u8>,
}

impl CartridgeNone {
    /// A fresh cartridge: the whole ROM reads 0xFF.
    pub open spec fn is_blank(&self) -> bool {
        self.rom@ == Seq::new(ROM_SIZE as nat, |i: int| 0xFFu8)
    }

    pub fn new() -> (r: Self)
        ensures
            r.wf(),
            r.is_blank(),
    {
        let rom = vec![0xFFu8; ROM_SIZE];
        assert(rom@ =~= Seq::new(ROM_SIZE as nat, |i: int| 0xFFu8));
        Self { rom }
    }
}

impl CartridgeImpl for CartridgeNone {
    open spec fn wf(&self) -> bool {
        self.rom.len() == ROM_SIZE
    }

    open spec fn rom_readable(&self, addr: u16) -> bool {
        true
    }

    open spec fn eram_accessible(&self, addr: u16, blocking: bool) -> bool {
        true
    }

    fn name(&self) -> (r: &'static str)
        ensures
            r@ == "ROM ONLY"@,
    {
        "ROM ONLY"
    }

    /// The image must be exactly 32 KiB.
    fn load_rom(&mut self, rom: &[u8]) -> (r: Result<(), YargeError>)
        ensures
            rom@.len() == ROM_SIZE ==> r is Ok && final(self).rom@ == rom@,
            rom@.len() != ROM_SIZE ==> r == Err::<(), YargeError>(YargeError::InvalidRomSize(rom@.len() as usize))
                && final(self).rom@ == old(self).rom@,
    {
        load_rom_static(&mut self.rom, ROM_SIZE, rom)
    }

    /// The ROM is mirrored every 32 KiB.
    fn read_rom(&self, addr: u16) -> (r: u8)
        ensures
            r == self.rom@[(addr % 0x8000) as int],
    {
        let i = addr & 0x7FFF;
        proof {
            lemma_word(addr);
        }
        self.rom[i as usize]
    }
}

} // verus!
