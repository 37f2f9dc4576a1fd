//! Address arithmetic and ROM loading shared by the memory bank controllers.
use vstd::prelude::*;
use crate::errors::YargeError;
use crate::cartridge::header::RomHeader;

verus! {

/// Index into ROM of `addr` (in the switchable area 0x4000-0x7FFF) with `bank` mapped.
pub open spec fn rom_addr_spec(addr: u16, bank: u8) -> int {
    bank * 0x4000 + (addr - 0x4000)
}

/// Index into external RAM of `addr` (in 0xA000-0xBFFF) with `bank` mapped.
pub open spec fn eram_addr_spec(addr: u16, bank: u8) -> int {
    (addr - 0xA000) + bank * 0x2000
}

pub fn rom_addr(addr: u16, bank: u8) -> (r: usize)
    requires
        addr >= 0x4000,
    ensures
        r == rom_addr_spec(addr, bank),
{
    (bank as usize * 0x4000) + (addr as usize - 0x4000)
}

pub fn eram_addr(addr: u16, bank: u8) -> (r: usize)
    requires
        addr >= 0xA000,
    ensures
        r == eram_addr_spec(addr, bank),
{
    (addr as usize - 0xA000) + (bank as usize * 0x2000)
}

/// The mask of ROM bank numbers: one less than the number of 16 KiB banks
/// (the ROM size is in KiB), truncated to a byte.
pub open spec fn rom_bank_mask_spec(rom_size: usize) -> u8 {
    (rom_size / 16 - 1) as u8
}

/// The mask of external RAM bank numbers: one less than the number of
/// 8 KiB banks, rounding up, and zero when there is no RAM.
pub open spec fn eram_bank_mask_spec(ram_size: usize) -> u8 {
    let banks = (ram_size + 8191) / 8192;
    if banks == 0 {
        0
    } else {
        (banks - 1) as u8
    }
}

pub fn rom_bank_mask(header: &RomHeader) -> (r: u8)
    requires
        header.rom_size >= 16,
    ensures
        r == rom_bank_mask_spec(header.rom_size),
{
    #[verifier::truncate] ((header.rom_size / 16 - 1) as u8)
}

/// Computed on integers; this equals the single-precision computation
/// `ceil(ram_size / 8192) - 1` (saturating at zero) for every size up to
/// 16 MiB, which covers every RAM size a header can declare.
pub fn eram_bank_mask(header: &RomHeader) -> (r: u8)
    requires
        header.ram_size <= 0x100_0000,
    ensures
        r == eram_bank_mask_spec(header.ram_size),
{
    let banks = (header.ram_size + 8191) / 8192;
    if banks == 0 {
        0
    } else {
        (banks - 1) as u8
    }
}

/// Copies a ROM image into a fixed-size ROM; the image must have exactly that size.
pub fn load_rom_static(arr: &mut Vec<u8>, size: usize, source: &[u8]) -> (r: Result<(), YargeError>)
    requires
        old(arr).len() == size,
    ensures
        source@.len() == size ==> r is Ok && final(arr)@ == source@,
        source@.len() != size ==> r == Err::<(), YargeError>(YargeError::InvalidRomSize(source@.len() as usize))
            && final(arr)@ == old(arr)@,
{
    if source.len() != size {
        return Err(YargeError::InvalidRomSize(source.len()));
    }
    arr.clear();
    arr.extend_from_slice(source);
    Ok(())
}

/// Replaces a growable ROM with the image; any size is accepted.
pub fn load_rom_vec(vec: &mut Vec<u8>, source: &[u8]) -> (r: Result<(), YargeError>)
    ensures
        r is Ok,
        final(vec)@ == source@,
{
    vec.clear();
    vec.extend_from_slice(source);
    vec_shrink_to_fit(vec);
    Ok(())
}

/// Calls `Vec::shrink_to_fit`, which per its documentation only lowers the
/// capacity and leaves the contents as they are.
#[verifier::external_body]
fn vec_shrink_to_fit(vec: &mut Vec<u8>)
    ensures
        final(vec)@ == old(vec)@,
{
    vec.shrink_to_fit();
}

} // verus!
