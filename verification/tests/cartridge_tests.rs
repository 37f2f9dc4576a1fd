use yarge_core::cartridge::header::RomHeader;
use yarge_core::cartridge::mbc1::{CartridgeMbc1, Type};
use yarge_core::cartridge::none::CartridgeNone;
use yarge_core::cartridge::{get_cartridge, Cartridge, CartridgeImpl};
use yarge_core::errors::YargeError;

fn header_bytes(title: &[u8], mbc: u8, rom_code: u8, ram_code: u8) -> Vec<u8> {
    let mut rom = vec![0u8; 0x150];
    rom[0x134..0x134 + title.len()].copy_from_slice(title);
    rom[0x147] = mbc;
    rom[0x148] = rom_code;
    rom[0x149] = ram_code;
    rom
}

#[test]
fn header_parse_reads_title_and_sizes() {
    let rom = header_bytes(b"TETRIS", 0x01, 0x01, 0x02);
    let h = RomHeader::parse(&rom);
    assert_eq!(h.name.as_str(), "TETRIS");
    assert_eq!(h.mbc_type, 0x01);
    assert_eq!(h.rom_size, 64);
    assert_eq!(h.ram_size, 8192);
}

#[test]
fn header_parse_full_title_and_unknown_ram_code() {
    let rom = header_bytes(b"ABCDEFGHIJKLMNO", 0x00, 0x00, 0x07);
    let h = RomHeader::parse(&rom);
    assert_eq!(h.name.as_str(), "ABCDEFGHIJKLMNO");
    assert_eq!(h.rom_size, 32);
    assert_eq!(h.ram_size, 0);
}

#[test]
fn unsupported_controller_is_refused() {
    let rom = header_bytes(b"X", 0x20, 0x00, 0x00);
    let h = RomHeader::parse(&rom);
    assert!(matches!(get_cartridge(h), Err(YargeError::InvalidMbcType(0x20))));
}

#[test]
fn supported_controllers_are_built() {
    let h = RomHeader::parse(&header_bytes(b"A", 0x00, 0x00, 0x00));
    assert!(matches!(get_cartridge(h), Ok(Cartridge::CartridgeNone(_))));
    let h = RomHeader::parse(&header_bytes(b"A", 0x03, 0x01, 0x02));
    assert!(matches!(get_cartridge(h), Ok(Cartridge::CartridgeMbc1(_))));
    let h = RomHeader::parse(&header_bytes(b"A", 0x13, 0x01, 0x03));
    assert!(matches!(get_cartridge(h), Ok(Cartridge::CartridgeMbc3(_))));
}

#[test]
fn rom_only_cartridge_requires_32k_image() {
    let mut c = CartridgeNone::new();
    assert_eq!(c.load_rom(&[0u8; 100]), Err(YargeError::InvalidRomSize(100)));
    assert_eq!(c.read_rom(0x0000), 0xFF);
    let mut image = vec![0u8; 0x8000];
    image[0x1234] = 0x77;
    assert_eq!(c.load_rom(&image), Ok(()));
    assert_eq!(c.read_rom(0x1234), 0x77);
    assert_eq!(c.name(), "ROM ONLY");
}

#[test]
fn mbc1_switches_rom_banks() {
    let h = RomHeader::parse(&header_bytes(b"A", 0x01, 0x01, 0x00));
    let mut c = CartridgeMbc1::new(Type::NoRam, &h);
    let image: Vec<u8> = (0..0x10000usize).map(|i| (i / 0x4000) as u8).collect();
    assert_eq!(c.load_rom(&image), Ok(()));
    assert_eq!(c.read_rom(0x0000), 0);
    assert_eq!(c.read_rom(0x4000), 1);
    c.write_rom(0x2000, 2);
    assert_eq!(c.read_rom(0x4000), 2);
    c.write_rom(0x2000, 0);
    assert_eq!(c.read_rom(0x4000), 1);
    c.write_rom(0x2000, 3);
    assert_eq!(c.read_rom(0x7FFF), 3);
}

#[test]
fn mbc1_ram_needs_enabling() {
    let h = RomHeader::parse(&header_bytes(b"A", 0x03, 0x01, 0x02));
    let mut c = CartridgeMbc1::new(Type::RamBattery, &h);
    assert_eq!(c.read_eram(0xA000, true), 0xFF);
    c.write_eram(0xA000, 0x12, true);
    assert_eq!(c.read_eram(0xA000, false), 0x00);
    c.write_rom(0x0000, 0x0A);
    c.write_eram(0xA000, 0x12, true);
    assert_eq!(c.read_eram(0xA000, true), 0x12);
    c.write_rom(0x0000, 0x00);
    assert_eq!(c.read_eram(0xA000, true), 0xFF);
}

#[test]
fn cartridge_dispatches_to_its_controller() {
    let h = RomHeader::parse(&header_bytes(b"A", 0x00, 0x00, 0x00));
    let mut c = get_cartridge(h).unwrap();
    assert_eq!(c.name(), "ROM ONLY");
    assert_eq!(c.read_eram(0xA000, true), 0xFF);
    assert!(c.save_data().is_none());
    assert!(!c.has_save_data());
    let mut image = vec![0u8; 0x8000];
    image[0x4001] = 0x12;
    assert_eq!(c.load_rom(&image), Ok(()));
    assert_eq!(c.read_rom(0x4001), 0x12);
    let h = RomHeader::parse(&header_bytes(b"A", 0x03, 0x01, 0x02));
    let mut c = get_cartridge(h).unwrap();
    assert_eq!(c.name(), "MBC1");
    let mut image = vec![0u8; 0x10000];
    image[0x4000] = 0x01;
    image[0x8000 + 2] = 0x33;
    assert_eq!(c.load_rom(&image), Ok(()));
    c.write_rom(0x2000, 2);
    assert_eq!(c.read_rom(0x4002), 0x33);
    c.write_rom(0x0000, 0x0A);
    c.write_eram(0xA010, 0x5A, true);
    assert_eq!(c.read_eram(0xA010, true), 0x5A);
    assert_eq!(c.save_data().map(|v| v[0x10]), Some(0x5A));
}
