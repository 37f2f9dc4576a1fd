//! The MBC3 bank controller (without the real-time clock): up to 2 MiB of
//! ROM and 32 KiB of RAM.
use vstd::prelude::*;
use crate::bits::lemma_byte;
use crate::errors::YargeError;
use crate::cartridge::CartridgeImpl;
use crate::cartridge::header::RomHeader;
use crate::cartridge::common::{
    rom_addr, eram_addr, rom_addr_spec, eram_addr_spec, rom_bank_mask, eram_bank_mask,
    rom_bank_mask_spec, eram_bank_mask_spec, load_rom_vec,
};

verus! {

/// Which MBC3 features the cartridge has.
#[derive(Clone, Copy, PartialEq, Eq, Structural)]
pub struct Configuration {
    pub timer: bool,
    pub ram: bool,
    pub battery: bool,
}

pub struct CartridgeMbc3 {
    pub config: Configuration,
    pub rom: Vec<u8>,
    pub eram: Option<Vec<u8>>,
    pub rom_mask: u8,
    pub ram_mask: u8,
    pub rom_bank: u8,
    pub ram_bank: u8,
    pub ram_enable: bool,
}

impl CartridgeMbc3 {
    /// Every part but the ROM as construction leaves it for a header
    /// declaring `rom_size` KiB of ROM and `ram_size` bytes of RAM.
    pub open spec fn fresh(&self, rom_size: usize, ram_size: usize) -> bool {
        &&& (self.config.ram <==> self.eram is Some)
        &&& (self.eram matches Some(e) ==> e@ == Seq::new(
            (if ram_size > 8192 { ram_size } else { 8192 }) as nat,
            |i: int| 0u8,
        ))
        &&& self.rom_mask == rom_bank_mask_spec(rom_size)
        &&& self.ram_mask == eram_bank_mask_spec(ram_size)
        &&& self.rom_bank == 1
        &&& self.ram_bank == 0
        &&& !self.ram_enable
    }

    /// The state right after construction for `header`.
    pub open spec fn is_new_for(&self, header: RomHeader) -> bool {
        &&& self.rom@.len() == 0
        &&& self.fresh(header.rom_size, header.ram_size)
    }

    pub open spec fn rom_byte(&self, addr: u16) -> u8 {
        if addr <= 0x3FFF {
            self.rom@[addr as int]
        } else {
            self.rom@[rom_addr_spec(addr, self.rom_bank)]
        }
    }

    pub open spec fn eram_off(&self, blocking: bool) -> bool {
        !self.config.ram || (blocking && !self.ram_enable)
    }

    pub open spec fn eram_byte(&self, addr: u16, blocking: bool) -> u8 {
        if self.eram_off(blocking) {
            0xFF
        } else {
            self.eram.unwrap()@[eram_addr_spec(addr, self.ram_bank)]
        }
    }

    /// The controller after a write of `value` to `addr` in 0x0000-0x7FFF:
    /// RAM enable, ROM bank (masked, 0 reads as 1), RAM bank (the clock
    /// register selects 0x08-0x0C are ignored), and nothing at 0x6000 and up.
    pub open spec fn after_rom_write(self, addr: u16, value: u8) -> CartridgeMbc3 {
        if addr <= 0x1FFF {
            CartridgeMbc3 { ram_enable: value % 16 == 0xA, ..self }
        } else if addr <= 0x3FFF {
            CartridgeMbc3 {
                rom_bank: if value & self.rom_mask == 0 { 1 } else { value & self.rom_mask },
                ..self
            }
        } else if addr <= 0x5FFF {
            if 0x08 <= value <= 0x0C {
                self
            } else {
                CartridgeMbc3 { ram_bank: value % 4, ..self }
            }
        } else {
            self
        }
    }

    pub fn new(config: Configuration, header: &RomHeader) -> (r: Self)
        requires
            header.rom_size >= 16,
            header.ram_size <= 0x100_0000,
        ensures
            r.config == config,
            r.is_new_for(*header),
            r.wf(),
    {
        let eram = if config.ram {
            let size = if header.ram_size > 8192 {
                header.ram_size
            } else {
                8192
            };
            let v = vec![0u8; size];
            assert(v@ =~= Seq::new(size as nat, |i: int| 0u8));
            Some(v)
        } else {
            None
        };
        Self {
            config,
            rom: Vec::with_capacity(0x8000),
            eram,
            rom_mask: rom_bank_mask(header),
            ram_mask: eram_bank_mask(header),
            rom_bank: 1,
            ram_bank: 0,
            ram_enable: false,
        }
    }
}

impl CartridgeImpl for CartridgeMbc3 {
    open spec fn wf(&self) -> bool {
        &&& self.ram_bank < 4
        &&& (self.config.ram ==> self.eram is Some)
    }

    open spec fn rom_readable(&self, addr: u16) -> bool {
        if addr <= 0x3FFF {
            addr < self.rom@.len()
        } else {
            rom_addr_spec(addr, self.rom_bank) < self.rom@.len()
        }
    }

    open spec fn eram_accessible(&self, addr: u16, blocking: bool) -> bool {
        self.eram_off(blocking) || (addr >= 0xA000 && eram_addr_spec(addr, self.ram_bank)
            < self.eram.unwrap()@.len())
    }

    fn name(&self) -> (r: &'static str)
        ensures
            r@ == "MBC3"@,
    {
        "MBC3"
    }

    fn load_rom(&mut self, rom: &[u8]) -> (r: Result<(), YargeError>)
        ensures
            r is Ok,
            *final(self) == (CartridgeMbc3 { rom: final(self).rom, ..*old(self) }),
            final(self).rom@ == rom@,
    {
        load_rom_vec(&mut self.rom, rom)
    }

    fn read_rom(&self, addr: u16) -> (r: u8)
        ensures
            r == self.rom_byte(addr),
    {
        if addr <= 0x3FFF {
            self.rom[addr as usize]
        } else {
            self.rom[rom_addr(addr, self.rom_bank)]
        }
    }

    fn write_rom(&mut self, addr: u16, value: u8)
        ensures
            *final(self) == old(self).after_rom_write(addr, value),
    {
        proof {
            lemma_byte(value);
        }
        if addr <= 0x1FFF {
            self.ram_enable = (value & 0xF) == 0xA;
        } else if addr <= 0x3FFF {
            let b = value & self.rom_mask;
            self.rom_bank = if b > 1 {
                b
            } else {
                1
            };
        } else if addr <= 0x5FFF {
            if !(0x08 <= value && value <= 0x0C) {
                self.ram_bank = value & 0b11;
            }
        }
    }

    fn read_eram(&self, addr: u16, blocking: bool) -> (r: u8)
        ensures
            r == self.eram_byte(addr, blocking),
    {
        if !self.config.ram {
            return 0xFF;
        }
        if blocking && !self.ram_enable {
            return 0xFF;
        }
        match &self.eram {
            Some(e) => e[eram_addr(addr, self.ram_bank)],
            None => 0xFF,
        }
    }

    fn write_eram(&mut self, addr: u16, value: u8, blocking: bool)
        ensures
            old(self).eram_off(blocking) ==> *final(self) == *old(self),
            !old(self).eram_off(blocking) ==> *final(self) == (CartridgeMbc3 {
                eram: Some(final(self).eram.unwrap()),
                ..*old(self)
            }) && final(self).eram.unwrap()@ == old(self).eram.unwrap()@.update(
                eram_addr_spec(addr, old(self).ram_bank),
                value,
            ),
    {
        if !self.config.ram {
            return;
        }
        if blocking && !self.ram_enable {
            return;
        }
        let i = eram_addr(addr, self.ram_bank);
        match &mut self.eram {
            Some(e) => {
                e.set(i, value);
            },
            None => {},
        }
    }

    /// RAM contents when the cartridge has battery-backed RAM.
    fn save_data(&self) -> (r: Option<Vec<u8>>)
        ensures
            self.config.battery && self.config.ram ==> (r matches Some(v) && v@ == self.eram.unwrap()@),
            !(self.config.battery && self.config.ram) ==> r is None,
    {
        if self.config.battery && self.config.ram {
            match &self.eram {
                Some(e) => {
                    let v = e.clone();
                    assert(v@ =~= e@);
                    Some(v)
                },
                None => None,
            }
        } else {
            None
        }
    }

    fn load_data(&mut self, data: Vec<u8>)
        ensures
            *final(self) == (CartridgeMbc3 { eram: Some(data), ..*old(self) }),
    {
        self.eram = Some(data);
    }
}

/// Selecting a clock register (0x08-0x0C) leaves the RAM bank as it was.
pub proof fn lemma_rtc_select_keeps_ram_bank(c: CartridgeMbc3, addr: u16, value: u8)
    requires
        0x4000 <= addr <= 0x5FFF,
        0x08 <= value <= 0x0C,
    ensures
        c.after_rom_write(addr, value) == c,
{
}

/// ROM bank 0 is never mapped at 0x4000-0x7FFF.
pub proof fn lemma_rom_bank_never_zero(c: CartridgeMbc3, addr: u16, value: u8)
    requires
        0x2000 <= addr <= 0x3FFF,
    ensures
        c.after_rom_write(addr, value).rom_bank != 0,
{
}

/// Disabled RAM reads 0xFF on a blocking access.
pub proof fn lemma_disabled_ram_reads_ff(c: CartridgeMbc3, addr: u16)
    requires
        !c.ram_enable,
    ensures
        c.eram_byte(addr, true) == 0xFF,
{
}

/// A write of `value` to 0x4000-0x5FFF other than a clock register select
/// maps RAM bank `value & 3` at 0xA000-0xBFFF: byte `k` of that window is
/// byte `(value & 3) * 0x2000 + k` of the cartridge RAM. The ROM bank and the
/// RAM enable flag stay as they were.
pub proof fn lemma_ram_bank_select(
    c: CartridgeMbc3,
    addr: u16,
    value: u8,
    k: u16,
    blocking: bool,
)
    requires
        0x4000 <= addr <= 0x5FFF,
        !(0x08 <= value <= 0x0C),
        c.config.ram,
        c.eram is Some,
        !blocking || c.ram_enable,
        k < 0x2000,
    ensures
        c.after_rom_write(addr, value).rom_bank == c.rom_bank,
        c.after_rom_write(addr, value).ram_enable == c.ram_enable,
        c.after_rom_write(addr, value).eram_byte((0xA000 + k) as u16, blocking)
            == c.eram.unwrap()@[(value & 3) * 0x2000 + k],
{
    assert(value & 3 == value % 4) by (bit_vector);
}

} // verus!
