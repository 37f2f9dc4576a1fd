//! Cartridges and their memory bank controllers.
pub mod common;
pub mod header;
pub mod none;
pub mod mbc1;
pub mod mbc3;

use vstd::prelude::*;
use crate::errors::YargeError;
use crate::cartridge::header::RomHeader;
use crate::cartridge::common::eram_addr_spec;
use crate::cartridge::none::{CartridgeNone, ROM_SIZE};
use crate::cartridge::mbc1::{CartridgeMbc1, Type as Mbc1Type};
use crate::cartridge::mbc3::{CartridgeMbc3, Configuration as Mbc3Config};

verus! {

/// The interface of a cartridge as the memory bus sees it.
pub trait CartridgeImpl: Sized {
    /// The controller's internal consistency.
    spec fn wf(&self) -> bool;

    /// Whether a ROM read of `addr` stays inside the loaded image.
    spec fn rom_readable(&self, addr: u16) -> bool;

    /// Whether an external RAM access at `addr` stays inside the RAM.
    spec fn eram_accessible(&self, addr: u16, blocking: bool) -> bool;

    fn name(&self) -> &'static str;

    /// By default a cartridge takes any image and keeps nothing of it.
    fn load_rom(&mut self, data: &[u8]) -> (r: Result<(), YargeError>)
        requires
            old(self).wf(),
        ensures
            final(self).wf(),
        default_ensures
            r is Ok,
            *final(self) == *old(self),
    {
        Ok(())
    }

    fn read_rom(&self, addr: u16) -> u8
        requires
            self.wf(),
            self.rom_readable(addr),
    ;

    /// By default a write to ROM changes nothing.
    fn write_rom(&mut self, addr: u16, value: u8)
        requires
            old(self).wf(),
        ensures
            final(self).wf(),
        default_ensures
            *final(self) == *old(self),
    {
    }

    /// By default there is no external RAM and every read gives 0xFF.
    fn read_eram(&self, addr: u16, blocking: bool) -> (r: u8)
        requires
            self.wf(),
            self.eram_accessible(addr, blocking),
        default_ensures
            r == 0xff,
    {
        0xff
    }

    fn write_eram(&mut self, addr: u16, value: u8, blocking: bool)
        requires
            old(self).wf(),
            old(self).eram_accessible(addr, blocking),
        ensures
            final(self).wf(),
        default_ensures
            *final(self) == *old(self),
    {
    }

    /// By default a cartridge has nothing to save.
    fn has_save_data(&self) -> (r: bool)
        default_ensures
            !r,
    {
        false
    }

    /// By default there is no save data.
    fn save_data(&self) -> (r: Option<Vec<u8>>)
        requires
            self.wf(),
        default_ensures
            r is None,
    {
        None
    }

    /// By default there is nowhere to load save data into.
    fn load_data(&mut self, data: Vec<u8>)
        requires
            old(self).wf(),
        ensures
            final(self).wf(),
        default_ensures
            *final(self) == *old(self),
    {
    }
}

/// A cartridge of any supported kind.
#[non_exhaustive]
pub enum Cartridge {
    CartridgeNone(CartridgeNone),
    CartridgeMbc1(CartridgeMbc1),
    CartridgeMbc3(CartridgeMbc3),
}

/// The kind of cartridge a header's MBC type byte selects, if it is supported.
pub open spec fn cartridge_kind(mbc_type: u8) -> Option<u8> {
    if mbc_type == 0x00 || mbc_type == 0x01 || mbc_type == 0x02 || mbc_type == 0x03 || mbc_type
        == 0x0F || mbc_type == 0x10 || mbc_type == 0x11 || mbc_type == 0x12 || mbc_type == 0x13 {
        Some(mbc_type)
    } else {
        None
    }
}

/// The MBC3 configuration a type byte in 0x0F-0x13 selects.
pub open spec fn mbc3_config(mbc_type: u8) -> Mbc3Config {
    if mbc_type == 0x0F {
        Mbc3Config { timer: true, ram: false, battery: true }
    } else if mbc_type == 0x10 {
        Mbc3Config { timer: true, ram: true, battery: true }
    } else if mbc_type == 0x11 {
        Mbc3Config { timer: false, ram: false, battery: false }
    } else if mbc_type == 0x12 {
        Mbc3Config { timer: false, ram: true, battery: false }
    } else {
        Mbc3Config { timer: false, ram: true, battery: true }
    }
}

impl Cartridge {
    pub open spec fn wf_spec(&self) -> bool {
        match self {
            Cartridge::CartridgeNone(c) => c.wf(),
            Cartridge::CartridgeMbc1(c) => c.wf(),
            Cartridge::CartridgeMbc3(c) => c.wf(),
        }
    }
}

/// Each operation goes to the controller the cartridge holds.
impl CartridgeImpl for Cartridge {
    open spec fn wf(&self) -> bool {
        self.wf_spec()
    }

    open spec fn rom_readable(&self, addr: u16) -> bool {
        match self {
            Cartridge::CartridgeNone(c) => c.rom_readable(addr),
            Cartridge::CartridgeMbc1(c) => c.rom_readable(addr),
            Cartridge::CartridgeMbc3(c) => c.rom_readable(addr),
        }
    }

    open spec fn eram_accessible(&self, addr: u16, blocking: bool) -> bool {
        match self {
            Cartridge::CartridgeNone(c) => c.eram_accessible(addr, blocking),
            Cartridge::CartridgeMbc1(c) => c.eram_accessible(addr, blocking),
            Cartridge::CartridgeMbc3(c) => c.eram_accessible(addr, blocking),
        }
    }

    fn name(&self) -> (r: &'static str)
        ensures
            r@ == (match self {
                Cartridge::CartridgeNone(_) => "ROM ONLY"@,
                Cartridge::CartridgeMbc1(_) => "MBC1"@,
                Cartridge::CartridgeMbc3(_) => "MBC3"@,
            }),
    {
        match self {
            Cartridge::CartridgeNone(c) => c.name(),
            Cartridge::CartridgeMbc1(c) => c.name(),
            Cartridge::CartridgeMbc3(c) => c.name(),
        }
    }

    /// Without a controller the image must be exactly 32 KiB; MBC1 and
    /// MBC3 take any image.
    fn load_rom(&mut self, data: &[u8]) -> (r: Result<(), YargeError>)
        ensures
            match *old(self) {
                Cartridge::CartridgeNone(c) => *final(self) matches Cartridge::CartridgeNone(d) && (
                data@.len() == ROM_SIZE ==> r is Ok && d.rom@ == data@) && (data@.len() != ROM_SIZE
                    ==> r == Err::<(), YargeError>(YargeError::InvalidRomSize(data@.len() as usize))
                    && d.rom@ == c.rom@),
                Cartridge::CartridgeMbc1(c) => *final(self) matches Cartridge::CartridgeMbc1(d) && r is Ok
                    && d == (CartridgeMbc1 { rom: d.rom, ..c }) && d.rom@ == data@,
                Cartridge::CartridgeMbc3(c) => *final(self) matches Cartridge::CartridgeMbc3(d) && r is Ok
                    && d == (CartridgeMbc3 { rom: d.rom, ..c }) && d.rom@ == data@,
            },
    {
        match self {
            Cartridge::CartridgeNone(c) => c.load_rom(data),
            Cartridge::CartridgeMbc1(c) => c.load_rom(data),
            Cartridge::CartridgeMbc3(c) => c.load_rom(data),
        }
    }

    fn read_rom(&self, addr: u16) -> (r: u8)
        ensures
            r == (match self {
                Cartridge::CartridgeNone(c) => c.rom@[(addr % 0x8000) as int],
                Cartridge::CartridgeMbc1(c) => c.rom_byte(addr),
                Cartridge::CartridgeMbc3(c) => c.rom_byte(addr),
            }),
    {
        match self {
            Cartridge::CartridgeNone(c) => c.read_rom(addr),
            Cartridge::CartridgeMbc1(c) => c.read_rom(addr),
            Cartridge::CartridgeMbc3(c) => c.read_rom(addr),
        }
    }

    /// Without a controller a write to ROM changes nothing.
    fn write_rom(&mut self, addr: u16, value: u8)
        ensures
            *final(self) == (match *old(self) {
                Cartridge::CartridgeNone(c) => Cartridge::CartridgeNone(c),
                Cartridge::CartridgeMbc1(c) => Cartridge::CartridgeMbc1(c.after_rom_write(addr, value)),
                Cartridge::CartridgeMbc3(c) => Cartridge::CartridgeMbc3(c.after_rom_write(addr, value)),
            }),
    {
        match self {
            Cartridge::CartridgeNone(c) => c.write_rom(addr, value),
            Cartridge::CartridgeMbc1(c) => c.write_rom(addr, value),
            Cartridge::CartridgeMbc3(c) => c.write_rom(addr, value),
        }
    }

    /// Without a controller there is no RAM and reads give 0xFF.
    fn read_eram(&self, addr: u16, blocking: bool) -> (r: u8)
        ensures
            r == (match self {
                Cartridge::CartridgeNone(_) => 0xFFu8,
                Cartridge::CartridgeMbc1(c) => c.eram_byte(addr, blocking),
                Cartridge::CartridgeMbc3(c) => c.eram_byte(addr, blocking),
            }),
    {
        match self {
            Cartridge::CartridgeNone(c) => c.read_eram(addr, blocking),
            Cartridge::CartridgeMbc1(c) => c.read_eram(addr, blocking),
            Cartridge::CartridgeMbc3(c) => c.read_eram(addr, blocking),
        }
    }

    /// A write to RAM that is switched off (or missing) changes nothing;
    /// otherwise the byte at the mapped address takes `value`.
    fn write_eram(&mut self, addr: u16, value: u8, blocking: bool)
        ensures
            match *old(self) {
                Cartridge::CartridgeNone(c) => *final(self) == *old(self),
                Cartridge::CartridgeMbc1(c) => *final(self) matches Cartridge::CartridgeMbc1(d) && (
                c.eram_off(blocking) ==> d == c) && (!c.eram_off(blocking) ==> d == (CartridgeMbc1 {
                    eram: Some(d.eram.unwrap()),
                    ..c
                }) && d.eram.unwrap()@ == c.eram.unwrap()@.update(
                    eram_addr_spec(addr, c.mapped_ram_bank()),
                    value,
                )),
                Cartridge::CartridgeMbc3(c) => *final(self) matches Cartridge::CartridgeMbc3(d) && (
                c.eram_off(blocking) ==> d == c) && (!c.eram_off(blocking) ==> d == (CartridgeMbc3 {
                    eram: Some(d.eram.unwrap()),
                    ..c
                }) && d.eram.unwrap()@ == c.eram.unwrap()@.update(
                    eram_addr_spec(addr, c.ram_bank),
                    value,
                )),
            },
    {
        match self {
            Cartridge::CartridgeNone(c) => c.write_eram(addr, value, blocking),
            Cartridge::CartridgeMbc1(c) => c.write_eram(addr, value, blocking),
            Cartridge::CartridgeMbc3(c) => c.write_eram(addr, value, blocking),
        }
    }

    /// Save data is the RAM of a battery-backed cartridge with RAM.
    fn save_data(&self) -> (r: Option<Vec<u8>>)
        ensures
            match self {
                Cartridge::CartridgeNone(_) => r is None,
                Cartridge::CartridgeMbc1(c) => if c.mbc1_type == Mbc1Type::RamBattery {
                    r matches Some(v) && v@ == c.eram.unwrap()@
                } else {
                    r is None
                },
                Cartridge::CartridgeMbc3(c) => if c.config.battery && c.config.ram {
                    r matches Some(v) && v@ == c.eram.unwrap()@
                } else {
                    r is None
                },
            },
    {
        match self {
            Cartridge::CartridgeNone(c) => c.save_data(),
            Cartridge::CartridgeMbc1(c) => c.save_data(),
            Cartridge::CartridgeMbc3(c) => c.save_data(),
        }
    }

    /// Loading save data replaces the RAM of a cartridge with a controller;
    /// without one nothing changes.
    fn load_data(&mut self, data: Vec<u8>)
        ensures
            *final(self) == (match *old(self) {
                Cartridge::CartridgeNone(c) => Cartridge::CartridgeNone(c),
                Cartridge::CartridgeMbc1(c) => Cartridge::CartridgeMbc1(CartridgeMbc1 { eram: Some(data), ..c }),
                Cartridge::CartridgeMbc3(c) => Cartridge::CartridgeMbc3(CartridgeMbc3 { eram: Some(data), ..c }),
            }),
    {
        match self {
            Cartridge::CartridgeNone(c) => c.load_data(data),
            Cartridge::CartridgeMbc1(c) => c.load_data(data),
            Cartridge::CartridgeMbc3(c) => c.load_data(data),
        }
    }
}

/// Builds the cartridge for a header: no MBC (0x00), MBC1 without RAM, with
/// RAM, with RAM and battery (0x01-0x03), or MBC3 in its five
/// configurations (0x0F-0x13); any other type byte is an error.
pub fn get_cartridge(header: RomHeader) -> (r: Result<Cartridge, YargeError>)
    requires
        cartridge_kind(header.mbc_type) is Some && header.mbc_type != 0 ==> header.rom_size >= 16
            && header.ram_size <= 0x100_0000,
    ensures
        cartridge_kind(header.mbc_type) is None <==> r == Err::<Cartridge, YargeError>(
            YargeError::InvalidMbcType(header.mbc_type),
        ),
        r matches Ok(c) ==> c.wf_spec(),
        header.mbc_type == 0x00 ==> (r matches Ok(Cartridge::CartridgeNone(c)) && c.is_blank()),
        0x01 <= header.mbc_type <= 0x03 ==> (r matches Ok(Cartridge::CartridgeMbc1(c))
            && c.mbc1_type == (if header.mbc_type == 1 {
            Mbc1Type::NoRam
        } else if header.mbc_type == 2 {
            Mbc1Type::Ram
        } else {
            Mbc1Type::RamBattery
        }) && c.is_new_for(header)),
        0x0F <= header.mbc_type <= 0x13 ==> (r matches Ok(Cartridge::CartridgeMbc3(c))
            && c.config == mbc3_config(header.mbc_type) && c.is_new_for(header)),
{
    let mbc_type = header.mbc_type;
    match mbc_type {
        0x00 => Ok(Cartridge::CartridgeNone(CartridgeNone::new())),
        0x01 => Ok(Cartridge::CartridgeMbc1(CartridgeMbc1::new(Mbc1Type::NoRam, &header))),
        0x02 => Ok(Cartridge::CartridgeMbc1(CartridgeMbc1::new(Mbc1Type::Ram, &header))),
        0x03 => Ok(Cartridge::CartridgeMbc1(CartridgeMbc1::new(Mbc1Type::RamBattery, &header))),
        0x0F => Ok(
            Cartridge::CartridgeMbc3(
                CartridgeMbc3::new(Mbc3Config { timer: true, ram: false, battery: true }, &header),
            ),
        ),
        0x10 => Ok(
            Cartridge::CartridgeMbc3(
                CartridgeMbc3::new(Mbc3Config { timer: true, ram: true, battery: true }, &header),
            ),
        ),
        0x11 => Ok(
            Cartridge::CartridgeMbc3(
                CartridgeMbc3::new(Mbc3Config { timer: false, ram: false, battery: false }, &header),
            ),
        ),
        0x12 => Ok(
            Cartridge::CartridgeMbc3(
                CartridgeMbc3::new(Mbc3Config { timer: false, ram: true, battery: false }, &header),
            ),
        ),
        0x13 => Ok(
            Cartridge::CartridgeMbc3(
                CartridgeMbc3::new(Mbc3Config { timer: false, ram: true, battery: true }, &header),
            ),
        ),
        _ => Err(YargeError::InvalidMbcType(mbc_type)),
    }
}

} // verus!
