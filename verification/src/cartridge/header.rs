//! The cartridge header at 0x0100-0x014F of the ROM.
use vstd::prelude::*;
use arrayvec::ArrayString;

verus! {

#[verifier::external_type_specification]
#[verifier::external_body]
pub struct ExArrayString<const CAP: usize>(ArrayString<CAP>);

/// The characters an `ArrayString<16>` holds.
pub uninterp spec fn array_string_chars(s: ArrayString<16>) -> Seq<char>;

/// The length in bytes (UTF-8) of what an `ArrayString<16>` holds.
pub uninterp spec fn array_string_len(s: ArrayString<16>) -> usize;

/// Calls `ArrayString::<16>::new`, which returns an empty string.
#[verifier::external_body]
fn array_string_new() -> (s: ArrayString<16>)
    ensures
        array_string_chars(s) == Seq::<char>::empty(),
        array_string_len(s) == 0,
{
    ArrayString::new()
}

/// Calls `ArrayString::<16>::push`, which appends `c` encoded in UTF-8; it
/// panics when the remaining capacity is smaller than the encoding, which
/// the precondition excludes.
#[verifier::external_body]
fn array_string_push(s: &mut ArrayString<16>, c: char)
    requires
        array_string_len(*old(s)) + utf8_len(c) <= 16,
    ensures
        array_string_chars(*final(s)) == array_string_chars(*old(s)).push(c),
        array_string_len(*final(s)) == array_string_len(*old(s)) + utf8_len(c),
{
    s.push(c)
}

/// The number of bytes of the UTF-8 encoding of `c`.
pub open spec fn utf8_len(c: char) -> nat {
    if (c as u32) < 0x80 {
        1
    } else if (c as u32) < 0x800 {
        2
    } else if (c as u32) < 0x10000 {
        3
    } else {
        4
    }
}

/// The title characters of `s` (each byte read as a code point), up to the first zero byte.
pub open spec fn title_chars(s: Seq<u8>) -> Seq<char>
    decreases s.len(),
{
    if s.len() == 0 || s[0] == 0 {
        Seq::empty()
    } else {
        seq![s[0] as char] + title_chars(s.drop_first())
    }
}

/// The UTF-8 length of the title in `s`.
pub open spec fn title_utf8_len(s: Seq<u8>) -> nat
    decreases s.len(),
{
    if s.len() == 0 || s[0] == 0 {
        0
    } else {
        utf8_len(s[0] as char) + title_utf8_len(s.drop_first())
    }
}

/// The title field: 15 bytes from 0x0134.
pub open spec fn title_field(rom: Seq<u8>) -> Seq<u8> {
    rom.subrange(0x134, 0x143)
}

/// The ROM size in KiB: 32 KiB shifted left by the size code, as a machine
/// word (high bits lost), and 32 when the shift is wider than the word.
pub open spec fn rom_size_spec(code: u8) -> usize {
    if (code as u32) < usize::BITS {
        32usize << (code as u32)
    } else {
        32
    }
}

/// The external RAM size in bytes for a RAM size code; unknown codes mean none.
pub open spec fn ram_size_spec(code: u8) -> usize {
    if code == 1 {
        2048
    } else if code == 2 {
        8192
    } else if code == 3 {
        32768
    } else if code == 4 {
        131072
    } else if code == 5 {
        65536
    } else {
        0
    }
}

#[derive(Clone, Copy)]
pub struct RomHeader {
    pub name: ArrayString<16>,
    pub mbc_type: u8,
    /// In KiB.
    pub rom_size: usize,
    /// In bytes.
    pub ram_size: usize,
}

impl RomHeader {
    /// Reads the header of a ROM image. The title must fit the 16-byte string
    /// it is stored in (bytes of 0x80 and above take two bytes each).
    pub fn parse(rom: &[u8]) -> (h: Self)
        requires
            rom@.len() > 0x149,
            title_utf8_len(title_field(rom@)) <= 16,
        ensures
            h.mbc_type == rom@[0x147],
            array_string_chars(h.name) == title_chars(title_field(rom@)),
            h.rom_size == rom_size_spec(rom@[0x148]),
            h.ram_size == ram_size_spec(rom@[0x149]),
    {
        let mut name = array_string_new();
        let ghost field = title_field(rom@);
        let mut i: usize = 0;
        assert(field.skip(0) =~= field);
        assert(Seq::<char>::empty() + title_chars(field) =~= title_chars(field));
        while i < 15
            invariant
                0 <= i <= 15,
                rom@.len() > 0x149,
                field == title_field(rom@),
                field.len() == 15,
                title_chars(field) == array_string_chars(name) + title_chars(field.skip(i as int)),
                title_utf8_len(field) == array_string_len(name) + title_utf8_len(field.skip(i as int)),
                title_utf8_len(field) <= 16,
            ensures
                i == 15 || (i < 15 && field[i as int] == 0),
                title_chars(field) == array_string_chars(name) + title_chars(field.skip(i as int)),
            decreases 15 - i,
        {
            let byte = rom[0x134 + i];
            let ghost rest = field.skip(i as int);
            assert(rest[0] == byte);
            if byte == 0 {
                break;
            }
            assert(rest.drop_first() == field.skip(i + 1));
            let c = byte as char;
            array_string_push(&mut name, c);
            i = i + 1;
        }
        proof {
            if i == 15 {
                assert(field.skip(15).len() == 0);
            } else {
                assert(field.skip(i as int)[0] == 0);
            }
            assert(title_chars(field.skip(i as int)) == Seq::<char>::empty());
        }
        let code = rom[0x148] as u32;
        let rom_size = if code < usize::BITS {
            32usize << code
        } else {
            32
        };
        let ram_size: usize = match rom[0x149] {
            0 => 0,
            1 => 2 * 1024,
            2 => 8 * 1024,
            3 => 32 * 1024,
            4 => 128 * 1024,
            5 => 64 * 1024,
            _ => 0,
        };
        RomHeader { mbc_type: rom[0x147], name, rom_size, ram_size }
    }
}

/// The RAM size codes of the header: code 1 is a single 2 KiB chip; codes 2,
/// 3, 4 and 5 are one, four, sixteen and eight whole banks of 8 KiB; every
/// other code means no RAM.
pub proof fn lemma_ram_size_banks(code: u8)
    ensures
        code == 1 ==> ram_size_spec(code) == 2 * 1024,
        2 <= code <= 5 ==> ram_size_spec(code) % 8192 == 0,
        code == 2 ==> ram_size_spec(code) / 8192 == 1,
        code == 3 ==> ram_size_spec(code) / 8192 == 4,
        code == 4 ==> ram_size_spec(code) / 8192 == 16,
        code == 5 ==> ram_size_spec(code) / 8192 == 8,
        code == 0 || code > 5 ==> ram_size_spec(code) == 0,
{
}

} // verus!
