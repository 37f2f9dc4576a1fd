//! The MBC1 bank controller: up to 2 MiB of ROM and 32 KiB of RAM.
use vstd::prelude::*;
use crate::bits::{lemma_byte, lemma_byte_arith};
use crate::errors::YargeError;
use crate::cartridge::CartridgeImpl;
use crate::cartridge::header::RomHeader;
use crate::cartridge::common::{
    rom_addr, eram_addr, rom_addr_spec, eram_addr_spec, rom_bank_mask, eram_bank_mask,
    rom_bank_mask_spec, eram_bank_mask_spec, load_rom_vec,
};

verus! {

/// Which MBC1 variant: without RAM, with RAM, with battery-backed RAM.
#[derive(Clone, Copy, PartialEq, Eq, Structural)]
pub enum Type {
    NoRam,
    Ram,
    RamBattery,
}

pub struct CartridgeMbc1 {
    pub mbc1_type: Type,
    pub rom: Vec<u8>,
    pub eram: Option<Vec<u8>>,
    pub rom_mask: u8,
    pub ram_mask: u8,
    pub rom_bank: u8,
    pub ram_bank: u8,
    pub ram_enable: bool,
    pub mode: bool,
}

impl CartridgeMbc1 {
    /// The state right after construction for `header`: empty ROM, zeroed RAM
    /// (at least 8 KiB) unless the variant has none, bank 1 mapped, RAM
    /// disabled, simple banking mode.
    /// Every part but the ROM as construction leaves it for a header
    /// declaring `rom_size` KiB of ROM and `ram_size` bytes of RAM.
    pub open spec fn fresh(&self, rom_size: usize, ram_size: usize) -> bool {
        &&& (self.mbc1_type == Type::NoRam <==> self.eram is None)
        &&& (self.eram matches Some(e) ==> e@ == Seq::new(
            (if ram_size > 8192 { ram_size } else { 8192 }) as nat,
            |i: int| 0u8,
        ))
        &&& self.rom_mask == rom_bank_mask_spec(rom_size)
        &&& self.ram_mask == eram_bank_mask_spec(ram_size)
        &&& self.rom_bank == 1
        &&& self.ram_bank == 0
        &&& !self.ram_enable
        &&& !self.mode
    }

    /// The state right after construction for `header`.
    pub open spec fn is_new_for(&self, header: RomHeader) -> bool {
        &&& self.rom@.len() == 0
        &&& self.fresh(header.rom_size, header.ram_size)
    }

    /// The ROM bank mapped at 0x4000-0x7FFF: the 5-bit bank register, plus the
    /// 2-bit register as bits 5-6 in advanced mode, masked to the ROM size.
    pub open spec fn mapped_rom_bank(&self) -> u8 {
        (if self.mode {
            (self.rom_bank + self.ram_bank * 32) as u8
        } else {
            self.rom_bank
        }) & self.rom_mask
    }

    /// The RAM bank mapped at 0xA000-0xBFFF: the 2-bit register in advanced
    /// mode (masked to the RAM size), bank 0 otherwise.
    pub open spec fn mapped_ram_bank(&self) -> u8 {
        if self.mode {
            self.ram_bank & self.ram_mask
        } else {
            0
        }
    }

    pub open spec fn rom_byte(&self, addr: u16) -> u8 {
        if addr < 0x4000 {
            self.rom@[addr as int]
        } else {
            self.rom@[rom_addr_spec(addr, self.mapped_rom_bank())]
        }
    }

    /// Whether a RAM access is ignored: no RAM, or RAM disabled on a blocking access.
    pub open spec fn eram_off(&self, blocking: bool) -> bool {
        self.mbc1_type == Type::NoRam || (blocking && !self.ram_enable)
    }

    pub open spec fn eram_byte(&self, addr: u16, blocking: bool) -> u8 {
        if self.eram_off(blocking) {
            0xFF
        } else {
            self.eram.unwrap()@[eram_addr_spec(addr, self.mapped_ram_bank())]
        }
    }

    /// The controller after a write of `value` to `addr` in 0x0000-0x7FFF.
    pub open spec fn after_rom_write(self, addr: u16, value: u8) -> CartridgeMbc1 {
        if addr <= 0x1FFF {
            CartridgeMbc1 { ram_enable: value % 16 == 0xA, ..self }
        } else if addr <= 0x3FFF {
            CartridgeMbc1 { rom_bank: if value % 32 == 0 { 1 } else { (value % 32) as u8 }, ..self }
        } else if addr <= 0x5FFF {
            CartridgeMbc1 { ram_bank: value % 4, ..self }
        } else {
            CartridgeMbc1 { mode: value % 2 == 1, ..self }
        }
    }

    pub fn new(mbc1_type: Type, header: &RomHeader) -> (r: Self)
        requires
            header.rom_size >= 16,
            header.ram_size <= 0x100_0000,
        ensures
            r.mbc1_type == mbc1_type,
            r.is_new_for(*header),
            r.wf(),
    {
        let eram = if mbc1_type != Type::NoRam {
            let size = if header.ram_size > 8192 {
                header.ram_size
            } else {
                8192
            };
            let v = vec![0u8; size];
            assert(v@ =~= Seq::new(size as nat, |i: int| 0u8));
            Some(v)
        } else {
            None
        };
        Self {
            mbc1_type,
            rom: Vec::with_capacity(0x8000),
            eram,
            rom_mask: rom_bank_mask(header),
            ram_mask: eram_bank_mask(header),
            rom_bank: 1,
            ram_bank: 0,
            ram_enable: false,
            mode: false,
        }
    }
}

impl CartridgeImpl for CartridgeMbc1 {
    /// Bank registers within their widths, and RAM present exactly when the variant has it.
    open spec fn wf(&self) -> bool {
        &&& self.rom_bank < 32
        &&& self.ram_bank < 4
        &&& (self.mbc1_type != Type::NoRam ==> self.eram is Some)
    }

    open spec fn rom_readable(&self, addr: u16) -> bool {
        if addr < 0x4000 {
            addr < self.rom@.len()
        } else {
            rom_addr_spec(addr, self.mapped_rom_bank()) < self.rom@.len()
        }
    }

    open spec fn eram_accessible(&self, addr: u16, blocking: bool) -> bool {
        self.eram_off(blocking) || (addr >= 0xA000 && eram_addr_spec(addr, self.mapped_ram_bank())
            < self.eram.unwrap()@.len())
    }

    fn name(&self) -> (r: &'static str)
        ensures
            r@ == "MBC1"@,
    {
        "MBC1"
    }

    /// Any image size is accepted.
    fn load_rom(&mut self, rom: &[u8]) -> (r: Result<(), YargeError>)
        ensures
            r is Ok,
            *final(self) == (CartridgeMbc1 { rom: final(self).rom, ..*old(self) }),
            final(self).rom@ == rom@,
    {
        load_rom_vec(&mut self.rom, rom)
    }

    fn read_rom(&self, addr: u16) -> (r: u8)
        ensures
            r == self.rom_byte(addr),
    {
        if addr < 0x4000 {
            return self.rom[addr as usize];
        }
        let mut bank = self.rom_bank;
        if self.mode {
            let rb = self.ram_bank;
            proof {
                lemma_byte_arith(rb);
            }
            bank = bank + (self.ram_bank << 5);
        }
        bank = bank & self.rom_mask;
        self.rom[rom_addr(addr, bank)]
    }

    /// 0x0000-0x1FFF enables RAM (low nibble 0xA), 0x2000-0x3FFF selects the
    /// ROM bank (5 bits, 0 reads as 1), 0x4000-0x5FFF the 2-bit upper/RAM
    /// bank, 0x6000 and up the banking mode.
    fn write_rom(&mut self, addr: u16, value: u8)
        ensures
            *final(self) == old(self).after_rom_write(addr, value),
    {
        proof {
            lemma_byte(value);
        }
        if addr <= 0x1FFF {
            self.ram_enable = (value & 0xF) == 0xA;
        } else if addr <= 0x3FFF {
            let b = value & 0x1F;
            self.rom_bank = if b > 1 {
                b
            } else {
                1
            };
        } else if addr <= 0x5FFF {
            self.ram_bank = value & 0b11;
        } else {
            self.mode = (value & 1) != 0;
        }
    }

    fn read_eram(&self, addr: u16, blocking: bool) -> (r: u8)
        ensures
            r == self.eram_byte(addr, blocking),
    {
        if self.mbc1_type == Type::NoRam {
            return 0xFF;
        }
        if blocking && !self.ram_enable {
            return 0xFF;
        }
        let bank = if self.mode {
            self.ram_bank & self.ram_mask
        } else {
            0x00
        };
        match &self.eram {
            Some(e) => e[eram_addr(addr, bank)],
            None => 0xFF,
        }
    }

    fn write_eram(&mut self, addr: u16, value: u8, blocking: bool)
        ensures
            old(self).eram_off(blocking) ==> *final(self) == *old(self),
            !old(self).eram_off(blocking) ==> *final(self) == (CartridgeMbc1 {
                eram: Some(final(self).eram.unwrap()),
                ..*old(self)
            }) && final(self).eram.unwrap()@ == old(self).eram.unwrap()@.update(
                eram_addr_spec(addr, old(self).mapped_ram_bank()),
                value,
            ),
    {
        if self.mbc1_type == Type::NoRam {
            return;
        }
        if blocking && !self.ram_enable {
            return;
        }
        let bank = if self.mode {
            self.ram_bank & self.ram_mask
        } else {
            0x00
        };
        let i = eram_addr(addr, bank);
        match &mut self.eram {
            Some(e) => {
                e.set(i, value);
            },
            None => {},
        }
    }

    /// RAM contents for the battery-backed variant only.
    fn save_data(&self) -> (r: Option<Vec<u8>>)
        ensures
            self.mbc1_type == Type::RamBattery ==> (r matches Some(v) && v@ == self.eram.unwrap()@),
            self.mbc1_type != Type::RamBattery ==> r is None,
    {
        match self.mbc1_type {
            Type::RamBattery => match &self.eram {
                Some(e) => {
                    let v = e.clone();
                    assert(v@ =~= e@);
                    Some(v)
                },
                None => None,
            },
            _ => None,
        }
    }

    /// Replaces the RAM with saved contents (no size check).
    fn load_data(&mut self, data: Vec<u8>)
        ensures
            *final(self) == (CartridgeMbc1 { eram: Some(data), ..*old(self) }),
    {
        self.eram = Some(data);
    }
}

/// Writing 0 to the ROM bank register maps bank 1, as 0 is never selected there.
pub proof fn lemma_bank_zero_maps_one(c: CartridgeMbc1, addr: u16)
    requires
        0x2000 <= addr <= 0x3FFF,
    ensures
        c.after_rom_write(addr, 0).rom_bank == 1,
{
}

/// With RAM enabled and the register writes in 0x0000-0x7FFF behind it,
/// a RAM byte reads back what was last written there.
pub proof fn lemma_eram_read_after_write(c: CartridgeMbc1, d: CartridgeMbc1, addr: u16, value: u8)
    requires
        !c.eram_off(true),
        c.eram is Some,
        d == (CartridgeMbc1 { eram: Some(d.eram.unwrap()), ..c }),
        d.eram.unwrap()@ == c.eram.unwrap()@.update(eram_addr_spec(addr, c.mapped_ram_bank()), value),
        addr >= 0xA000,
        eram_addr_spec(addr, c.mapped_ram_bank()) < c.eram.unwrap()@.len(),
    ensures
        d.eram_byte(addr, true) == value,
{
}

/// Disabled RAM reads 0xFF on a blocking access.
pub proof fn lemma_disabled_ram_reads_ff(c: CartridgeMbc1, addr: u16)
    requires
        !c.ram_enable,
    ensures
        c.eram_byte(addr, true) == 0xFF,
{
}

} // verus!
