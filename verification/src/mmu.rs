//! The memory bus seen by the CPU: 64 KiB of memory with the joypad
//! register, the interrupt registers, the timers and the serial port mapped
//! at their I/O addresses.
use vstd::prelude::*;
use crate::bits::lemma_byte;
use crate::timers::Timers;
use crate::serial::Serial;
use crate::regs::{add16, hi, lo, high_byte, low_byte};

verus! {

pub const MEM_SIZE: usize = 0x10000;

pub const R_P1: u16 = 0xFF00;
pub const R_SB: u16 = 0xFF01;
pub const R_SC: u16 = 0xFF02;
pub const R_DIV: u16 = 0xFF04;
pub const R_TIMA: u16 = 0xFF05;
pub const R_TMA: u16 = 0xFF06;
pub const R_TAC: u16 = 0xFF07;
pub const R_IF: u16 = 0xFF0F;
pub const R_IE: u16 = 0xFFFF;

pub struct Mmu {
    pub mem: Vec<u8>,
    pub iie: u8,
    pub iif: u8,
    pub timers: Timers,
    pub serial: Serial,
    /// The buttons held, one bit each: right, left, up, down in bits 0-3,
    /// A, B, Select, Start in bits 4-7.
    pub keys: u8,
    /// The group selection written to P1 (bits 4 and 5; 0 selects).
    pub p1_select: u8,
}

/// The abstract state of the bus.
pub struct MmuView {
    pub mem: Seq<u8>,
    pub iie: u8,
    pub iif: u8,
    pub timers: Timers,
    pub serial: Serial,
    pub keys: u8,
    pub p1_select: u8,
}

/// What P1 reads: bits 6-7 set, the selection in bits 4-5, and in bits
/// 0-3 a zero for each held button of a selected group (directions when
/// bit 4 is clear, the other buttons when bit 5 is clear).
#[verifier::opaque]
pub open spec fn p1_value(keys: u8, select: u8) -> u8 {
    let dirs: u8 = if select & 0x10 == 0 { keys & 0x0F } else { 0 };
    let buttons: u8 = if select & 0x20 == 0 { keys >> 4u8 } else { 0 };
    0xC0 | select | (!(dirs | buttons) & 0x0F)
}

impl MmuView {
    /// What a read of `addr` returns.
    pub open spec fn read(self, addr: u16) -> u8 {
        if addr == R_P1 {
            p1_value(self.keys, self.p1_select)
        } else if addr == R_SB {
            self.serial.data
        } else if addr == R_SC {
            self.serial.sc_spec()
        } else if addr == R_DIV {
            self.timers.div_spec()
        } else if addr == R_TIMA {
            self.timers.tima_spec()
        } else if addr == R_TMA {
            self.timers.tma
        } else if addr == R_TAC {
            (self.timers.tac_spec() + 0xF8) as u8
        } else if addr == R_IF {
            (self.iif % 32 + 0xE0) as u8
        } else if addr == R_IE {
            self.iie
        } else {
            self.mem[addr as int]
        }
    }

    /// The bus after a write of `value` to `addr`.
    pub open spec fn write(self, addr: u16, value: u8) -> MmuView {
        if addr == R_P1 {
            MmuView { p1_select: value & 0x30, ..self }
        } else if addr == R_SB {
            MmuView { serial: Serial { data: value, ..self.serial }, ..self }
        } else if addr == R_SC {
            MmuView { serial: self.serial.with_sc(value), ..self }
        } else if addr == R_DIV {
            MmuView { timers: self.timers.with_div_reset(), ..self }
        } else if addr == R_TIMA {
            MmuView { timers: self.timers.with_tima(value), ..self }
        } else if addr == R_TMA {
            MmuView { timers: Timers { tma: value, ..self.timers }, ..self }
        } else if addr == R_TAC {
            MmuView { timers: self.timers.with_tac(value), ..self }
        } else if addr == R_IF {
            MmuView { iif: (value % 32) as u8, ..self }
        } else if addr == R_IE {
            MmuView { iie: value, ..self }
        } else {
            MmuView { mem: self.mem.update(addr as int, value), ..self }
        }
    }

    /// The bus after a 16-bit little-endian write.
    pub open spec fn write16(self, addr: u16, value: u16) -> MmuView {
        self.write(addr, lo(value)).write(add16(addr, 1), hi(value))
    }

    /// One machine cycle of the components on the bus.
    pub open spec fn tick(self) -> MmuView {
        let (timers, iif) = self.timers.tick_spec(self.iif);
        MmuView { timers, iif, serial: self.serial.tick_spec(), ..self }
    }

    /// Well-formedness: the memory covers the whole address space.
    pub open spec fn wf(self) -> bool {
        &&& self.mem.len() == MEM_SIZE
        &&& self.timers.wf()
    }

    /// The bus with `keys` held.
    pub open spec fn with_keys(self, keys: u8) -> MmuView {
        MmuView { keys, ..self }
    }
}

impl View for Mmu {
    type V = MmuView;

    open spec fn view(&self) -> MmuView {
        MmuView {
            mem: self.mem@,
            iie: self.iie,
            iif: self.iif,
            timers: self.timers,
            serial: self.serial,
            keys: self.keys,
            p1_select: self.p1_select,
        }
    }
}

impl MmuView {
    /// The bus at power-on: memory zero, no interrupt enabled or requested,
    /// the timers zero and the serial port idle with 0xFF in SB.
    pub open spec fn power_on() -> MmuView {
        MmuView {
            mem: Seq::new(MEM_SIZE as nat, |i: int| 0u8),
            iie: 0,
            iif: 0,
            timers: Timers {
                tma: 0,
                div: 0,
                tima: 0,
                tima_reset_pending: false,
                enable: false,
                rate: 0,
                tima_inc: false,
            },
            serial: Serial { transfer: false, ext_clock: false, data: 0xff },
            keys: 0,
            p1_select: 0,
        }
    }
}

impl Mmu {
    pub fn new() -> (r: Self)
        ensures
            r@.wf(),
            r@ == MmuView::power_on(),
            r@.mem == Seq::new(MEM_SIZE as nat, |i: int| 0u8),
            r.iie == 0,
            r.iif == 0,
    {
        let mem = vec![0u8; MEM_SIZE];
        assert(mem@ =~= Seq::new(MEM_SIZE as nat, |i: int| 0u8));
        Self { mem, iie: 0, iif: 0, timers: Timers::new(), serial: Serial::new(), keys: 0, p1_select: 0 }
    }

    pub fn rb(&self, addr: u16) -> (r: u8)
        requires
            self@.wf(),
        ensures
            r == self@.read(addr),
    {
        if addr == R_P1 {
            proof {
                reveal(p1_value);
            }
            let dirs: u8 = if self.p1_select & 0x10 == 0 { self.keys & 0x0F } else { 0 };
            let buttons: u8 = if self.p1_select & 0x20 == 0 { self.keys >> 4u8 } else { 0 };
            0xC0 | self.p1_select | (!(dirs | buttons) & 0x0F)
        } else if addr == R_SB {
            self.serial.read_sb()
        } else if addr == R_SC {
            self.serial.read_sc()
        } else if addr == R_DIV {
            self.timers.get_div()
        } else if addr == R_TIMA {
            self.timers.get_tima()
        } else if addr == R_TMA {
            self.timers.tma
        } else if addr == R_TAC {
            self.timers.get_tac() + 0xF8
        } else if addr == R_IF {
            self.iif % 32 + 0xE0
        } else if addr == R_IE {
            self.iie
        } else {
            self.mem[addr as usize]
        }
    }

    pub fn wb(&mut self, addr: u16, value: u8)
        requires
            old(self)@.wf(),
        ensures
            final(self)@ == old(self)@.write(addr, value),
            final(self)@.wf(),
    {
        if addr == R_P1 {
            self.p1_select = value & 0x30;
        } else if addr == R_SB {
            self.serial.write_sb(value);
        } else if addr == R_SC {
            self.serial.write_sc(value);
        } else if addr == R_DIV {
            self.timers.reset_div();
        } else if addr == R_TIMA {
            self.timers.set_tima(value);
        } else if addr == R_TMA {
            self.timers.tma = value;
        } else if addr == R_TAC {
            self.timers.set_tac(value);
        } else if addr == R_IF {
            self.iif = value % 32;
        } else if addr == R_IE {
            self.iie = value;
        } else {
            self.mem.set(addr as usize, value);
        }
    }

    /// Writes a 16-bit value, low byte first, without advancing time.
    pub fn ww(&mut self, addr: u16, value: u16)
        requires
            old(self)@.wf(),
        ensures
            final(self)@ == old(self)@.write16(addr, value),
            final(self)@.wf(),
    {
        self.wb(addr, low_byte(value));
        self.wb(addr.wrapping_add(1), high_byte(value));
    }

    /// Sets the buttons held.
    pub fn set_keys(&mut self, keys: u8)
        ensures
            final(self)@ == old(self)@.with_keys(keys),
    {
        self.keys = keys;
    }

    /// Ticks every component on the bus by one machine cycle.
    pub fn tick_components(&mut self)
        requires
            old(self)@.wf(),
        ensures
            final(self)@ == old(self)@.tick(),
            final(self)@.wf(),
    {
        self.timers.tick(&mut self.iif);
        self.serial.tick(&mut self.iif);
    }
}

/// Whether `addr` is plain memory rather than one of the mapped registers.
pub open spec fn is_plain(addr: u16) -> bool {
    addr != R_P1 && addr != R_SB && addr != R_SC && addr != R_DIV && addr != R_TIMA && addr != R_TMA && addr
        != R_TAC && addr != R_IF && addr != R_IE
}

/// P1 reports the held buttons of the selected group as cleared bits:
/// with 0x20 written the directions, with 0x10 written the others.
pub proof fn lemma_p1_reads_keys(m: MmuView, keys: u8)
    ensures
        m.with_keys(keys).write(R_P1, 0x20).read(R_P1) == 0xE0 | (!keys & 0x0F),
        m.with_keys(keys).write(R_P1, 0x10).read(R_P1) == 0xD0 | (!(keys >> 4u8) & 0x0F),
{
    reveal(p1_value);
    assert(0x20u8 & 0x30 == 0x20 && 0x10u8 & 0x30 == 0x10) by (bit_vector);
    assert(0xC0u8 | 0x20u8 | (!(keys & 0x0F | 0u8) & 0x0F) == 0xE0 | (!keys & 0x0F)) by (bit_vector);
    assert(0xC0u8 | 0x10u8 | (!(0u8 | (keys >> 4u8)) & 0x0F) == 0xD0 | (!(keys >> 4u8) & 0x0F)) by (bit_vector);
    assert(0x20u8 & 0x10 == 0 && 0x20u8 & 0x20 != 0 && 0x10u8 & 0x10 != 0 && 0x10u8 & 0x20 == 0) by (bit_vector);
}

/// A read of plain memory returns the last value written there.
pub proof fn lemma_read_after_write(m: MmuView, addr: u16, value: u8)
    requires
        m.wf(),
        is_plain(addr),
    ensures
        m.write(addr, value).read(addr) == value,
        m.write(addr, value).wf(),
{
}

/// A write to one address leaves what every other address reads unchanged.
pub proof fn lemma_write_other_address(m: MmuView, addr: u16, other: u16, value: u8)
    requires
        m.wf(),
        addr != other,
    ensures
        m.write(addr, value).read(other) == m.read(other),
        m.write(addr, value).wf(),
{
    lemma_byte(value);
}

/// Ticking the bus changes no plain memory.
pub proof fn lemma_tick_keeps_memory(m: MmuView, addr: u16)
    requires
        is_plain(addr),
    ensures
        m.tick().read(addr) == m.read(addr),
        m.tick().mem == m.mem,
        m.wf() ==> m.tick().wf(),
{
}

} // verus!
