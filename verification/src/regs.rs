use vstd::prelude::*;
use crate::bits::{lemma_byte, lemma_byte_arith};

verus! {

/// Mask of the zero flag in F.
pub const FLAG_Z: u8 = 0x80;
/// Mask of the subtract flag in F.
pub const FLAG_N: u8 = 0x40;
/// Mask of the half-carry flag in F.
pub const FLAG_H: u8 = 0x20;
/// Mask of the carry flag in F.
pub const FLAG_C: u8 = 0x10;

/// Whether the flag selected by `mask` (one of the four flag masks) is set in `f`.
pub open spec fn flag(f: u8, mask: u8) -> bool {
    (f / mask) % 2 == 1
}

/// `f` with the flag selected by `mask` set to `v`, the other bits unchanged.
pub open spec fn with_flag(f: u8, mask: u8, v: bool) -> u8 {
    if flag(f, mask) == v {
        f
    } else if v {
        (f + mask) as u8
    } else {
        (f - mask) as u8
    }
}

/// The F byte holding the four given flags and zeroes in its low nibble.
pub open spec fn flags_byte(z: bool, n: bool, h: bool, c: bool) -> u8 {
    ((if z { 128int } else { 0 }) + (if n { 64int } else { 0 }) + (if h { 32int } else { 0 }) + (
    if c { 16int } else { 0 })) as u8
}

/// The high byte of a 16-bit value.
pub open spec fn hi(v: u16) -> u8 {
    (v / 256) as u8
}

/// The low byte of a 16-bit value.
pub open spec fn lo(v: u16) -> u8 {
    (v % 256) as u8
}

/// The 16-bit value made of a high and a low byte.
pub open spec fn join(h: u8, l: u8) -> u16 {
    (h * 256 + l) as u16
}

pub open spec fn add16(a: u16, b: int) -> u16 {
    ((a + b) % 65536) as u16
}

/// The eight 8-bit registers of the CPU.
#[derive(Clone, Copy, PartialEq, Eq)]
pub enum Reg8 {
    B,
    C,
    D,
    E,
    H,
    L,
    A,
    F,
}

/// The 16-bit register pairs and the stack pointer.
#[derive(Clone, Copy, PartialEq, Eq)]
pub enum Reg16 {
    BC,
    DE,
    HL,
    SP,
    AF,
}

/// Branch conditions over the flags.
#[derive(Clone, Copy, PartialEq, Eq)]
pub enum Cond {
    NZ,
    Z,
    NC,
    C,
}

/// The register file of the SM83 CPU.
#[derive(Clone, Copy)]
pub struct Registers {
    pub a: u8,
    pub f: u8,
    pub b: u8,
    pub c: u8,
    pub d: u8,
    pub e: u8,
    pub h: u8,
    pub l: u8,
    pub sp: u16,
    pub pc: u16,
}

impl Registers {
    pub open spec fn r8(self, r: Reg8) -> u8 {
        match r {
            Reg8::B => self.b,
            Reg8::C => self.c,
            Reg8::D => self.d,
            Reg8::E => self.e,
            Reg8::H => self.h,
            Reg8::L => self.l,
            Reg8::A => self.a,
            Reg8::F => self.f,
        }
    }

    pub open spec fn with_r8(self, r: Reg8, v: u8) -> Registers {
        match r {
            Reg8::B => Registers { b: v, ..self },
            Reg8::C => Registers { c: v, ..self },
            Reg8::D => Registers { d: v, ..self },
            Reg8::E => Registers { e: v, ..self },
            Reg8::H => Registers { h: v, ..self },
            Reg8::L => Registers { l: v, ..self },
            Reg8::A => Registers { a: v, ..self },
            Reg8::F => Registers { f: v, ..self },
        }
    }

    /// The value of a register pair; AF reads F with its low nibble as stored.
    pub open spec fn r16(self, r: Reg16) -> u16 {
        match r {
            Reg16::BC => join(self.b, self.c),
            Reg16::DE => join(self.d, self.e),
            Reg16::HL => join(self.h, self.l),
            Reg16::SP => self.sp,
            Reg16::AF => join(self.a, self.f),
        }
    }

    /// The registers after writing a pair; writing AF clears the low nibble of F.
    pub open spec fn with_r16(self, r: Reg16, v: u16) -> Registers {
        match r {
            Reg16::BC => Registers { b: hi(v), c: lo(v), ..self },
            Reg16::DE => Registers { d: hi(v), e: lo(v), ..self },
            Reg16::HL => Registers { h: hi(v), l: lo(v), ..self },
            Reg16::SP => Registers { sp: v, ..self },
            Reg16::AF => Registers { a: hi(v), f: (lo(v) / 16 * 16) as u8, ..self },
        }
    }

    pub open spec fn with_flags(self, z: bool, n: bool, h: bool, c: bool) -> Registers {
        Registers { f: flags_byte(z, n, h, c), ..self }
    }

    pub open spec fn fz(self) -> bool {
        flag(self.f, FLAG_Z)
    }

    pub open spec fn fn_(self) -> bool {
        flag(self.f, FLAG_N)
    }

    pub open spec fn fh(self) -> bool {
        flag(self.f, FLAG_H)
    }

    pub open spec fn fc(self) -> bool {
        flag(self.f, FLAG_C)
    }

    pub open spec fn cond(self, c: Cond) -> bool {
        match c {
            Cond::NZ => !self.fz(),
            Cond::Z => self.fz(),
            Cond::NC => !self.fc(),
            Cond::C => self.fc(),
        }
    }

    pub open spec fn new_spec() -> Registers {
        Registers { a: 0, f: 0, b: 0, c: 0, d: 0, e: 0, h: 0, l: 0, sp: 0, pc: 0 }
    }

    /// Registers at power-on, before the boot ROM runs: all zero.
    pub fn new() -> (r: Self)
        ensures
            r == Registers::new_spec(),
    {
        Registers { a: 0, f: 0, b: 0, c: 0, d: 0, e: 0, h: 0, l: 0, sp: 0, pc: 0 }
    }

    pub fn get8(&self, r: Reg8) -> (v: u8)
        ensures
            v == self.r8(r),
    {
        match r {
            Reg8::B => self.b,
            Reg8::C => self.c,
            Reg8::D => self.d,
            Reg8::E => self.e,
            Reg8::H => self.h,
            Reg8::L => self.l,
            Reg8::A => self.a,
            Reg8::F => self.f,
        }
    }

    pub fn set8(&mut self, r: Reg8, v: u8)
        ensures
            *final(self) == old(self).with_r8(r, v),
    {
        match r {
            Reg8::B => self.b = v,
            Reg8::C => self.c = v,
            Reg8::D => self.d = v,
            Reg8::E => self.e = v,
            Reg8::H => self.h = v,
            Reg8::L => self.l = v,
            Reg8::A => self.a = v,
            Reg8::F => self.f = v,
        }
    }

    pub fn get16(&self, r: Reg16) -> (v: u16)
        ensures
            v == self.r16(r),
    {
        match r {
            Reg16::BC => pair(self.b, self.c),
            Reg16::DE => pair(self.d, self.e),
            Reg16::HL => pair(self.h, self.l),
            Reg16::SP => self.sp,
            Reg16::AF => pair(self.a, self.f),
        }
    }

    pub fn set16(&mut self, r: Reg16, v: u16)
        ensures
            *final(self) == old(self).with_r16(r, v),
    {
        let h = high_byte(v);
        let l = low_byte(v);
        match r {
            Reg16::BC => {
                self.b = h;
                self.c = l;
            },
            Reg16::DE => {
                self.d = h;
                self.e = l;
            },
            Reg16::HL => {
                self.h = h;
                self.l = l;
            },
            Reg16::SP => self.sp = v,
            Reg16::AF => {
                self.a = h;
                self.f = l / 16 * 16;
            },
        }
    }

    pub fn hl(&self) -> (v: u16)
        ensures
            v == join(self.h, self.l),
    {
        pair(self.h, self.l)
    }

    pub fn set_hl(&mut self, v: u16)
        ensures
            *final(self) == old(self).with_r16(Reg16::HL, v),
    {
        self.h = high_byte(v);
        self.l = low_byte(v);
    }

    pub fn f_z(&self) -> (b: bool)
        ensures
            b == self.fz(),
    {
        self.f / FLAG_Z % 2 == 1
    }

    pub fn f_n(&self) -> (b: bool)
        ensures
            b == self.fn_(),
    {
        self.f / FLAG_N % 2 == 1
    }

    pub fn f_h(&self) -> (b: bool)
        ensures
            b == self.fh(),
    {
        self.f / FLAG_H % 2 == 1
    }

    pub fn f_c(&self) -> (b: bool)
        ensures
            b == self.fc(),
    {
        self.f / FLAG_C % 2 == 1
    }

    pub fn check(&self, c: Cond) -> (b: bool)
        ensures
            b == self.cond(c),
    {
        match c {
            Cond::NZ => !self.f_z(),
            Cond::Z => self.f_z(),
            Cond::NC => !self.f_c(),
            Cond::C => self.f_c(),
        }
    }

    fn set_flag(&mut self, mask: u8, v: bool)
        requires
            mask == FLAG_Z || mask == FLAG_N || mask == FLAG_H || mask == FLAG_C,
        ensures
            *final(self) == (Registers { f: with_flag(old(self).f, mask, v), ..*old(self) }),
    {
        let is_set = self.f / mask % 2 == 1;
        if is_set != v {
            if v {
                let f = self.f;
                assert(f + mask <= 255) by {
                    lemma_byte_arith(f);
                }
                self.f = self.f + mask;
            } else {
                let f = self.f;
                assert(f >= mask) by {
                    lemma_byte(f);
                }
                self.f = self.f - mask;
            }
        }
    }

    pub fn set_f_z(&mut self, v: bool)
        ensures
            *final(self) == (Registers { f: with_flag(old(self).f, FLAG_Z, v), ..*old(self) }),
    {
        self.set_flag(FLAG_Z, v)
    }

    pub fn set_f_n(&mut self, v: bool)
        ensures
            *final(self) == (Registers { f: with_flag(old(self).f, FLAG_N, v), ..*old(self) }),
    {
        self.set_flag(FLAG_N, v)
    }

    pub fn set_f_h(&mut self, v: bool)
        ensures
            *final(self) == (Registers { f: with_flag(old(self).f, FLAG_H, v), ..*old(self) }),
    {
        self.set_flag(FLAG_H, v)
    }

    pub fn set_f_c(&mut self, v: bool)
        ensures
            *final(self) == (Registers { f: with_flag(old(self).f, FLAG_C, v), ..*old(self) }),
    {
        self.set_flag(FLAG_C, v)
    }

    /// Sets all four flags at once and clears the low nibble of F.
    pub fn set_f_znhc(&mut self, z: bool, n: bool, h: bool, c: bool)
        ensures
            *final(self) == old(self).with_flags(z, n, h, c),
    {
        let mut f: u8 = 0;
        if z {
            f = f + FLAG_Z;
        }
        if n {
            f = f + FLAG_N;
        }
        if h {
            f = f + FLAG_H;
        }
        if c {
            f = f + FLAG_C;
        }
        self.f = f;
    }

    pub fn inc_pc(&mut self, by: u16)
        ensures
            *final(self) == (Registers { pc: add16(old(self).pc, by as int), ..*old(self) }),
    {
        self.pc = self.pc.wrapping_add(by);
    }

    pub fn inc_sp(&mut self, by: u16)
        ensures
            *final(self) == (Registers { sp: add16(old(self).sp, by as int), ..*old(self) }),
    {
        self.sp = self.sp.wrapping_add(by);
    }

    pub fn dec_sp(&mut self, by: u16)
        ensures
            *final(self) == (Registers { sp: add16(old(self).sp, 65536 - by), ..*old(self) }),
    {
        self.sp = self.sp.wrapping_sub(by);
    }
}

/// Joins two bytes into a 16-bit value, high byte first.
pub fn pair(h: u8, l: u8) -> (v: u16)
    ensures
        v == join(h, l),
{
    h as u16 * 256 + l as u16
}

pub fn high_byte(v: u16) -> (r: u8)
    ensures
        r == hi(v),
{
    (v / 256) as u8
}

pub fn low_byte(v: u16) -> (r: u8)
    ensures
        r == lo(v),
{
    (v % 256) as u8
}

} // verus!
