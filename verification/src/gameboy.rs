//! The emulated console as a whole.
use vstd::prelude::*;
use crate::cpu::{Cpu, CpuView, step_spec};
use crate::errors::YargeError;
use crate::regs::{Registers, Reg16};
use crate::mmu::MEM_SIZE;
use crate::cartridge::{Cartridge, CartridgeImpl, cartridge_kind, get_cartridge, mbc3_config};
use crate::cartridge::mbc1::Type as Mbc1Type;
use crate::mmu::MmuView;
use crate::cartridge::header::{RomHeader, title_field, title_utf8_len, rom_size_spec, ram_size_spec};

verus! {

pub struct Gameboy {
    pub cpu: Cpu,
    /// The boot ROM has been left (or skipped).
    pub bios_disabled: bool,
    /// The cartridge of the loaded ROM, if any.
    pub cartridge: Option<Cartridge>,
}

/// The size of the ROM window at 0x0000-0x7FFF.
pub const ROM_WINDOW: usize = 0x8000;

/// A ROM image whose header can be read: longer than the header, with a
/// title that fits the header's name, and, for a cartridge with a
/// controller, at least 16 KiB declared.
pub open spec fn header_readable(data: Seq<u8>) -> bool {
    &&& data.len() > 0x149
    &&& title_utf8_len(title_field(data)) <= 16
    &&& (cartridge_kind(data[0x147]) is Some && data[0x147] != 0) ==> rom_size_spec(data[0x148]) >= 16
}

/// The cartridge that loading `data` builds: the kind its header names,
/// holding the image, with the rest as construction leaves it for the
/// header's ROM and RAM sizes.
pub open spec fn loaded_cartridge(c: Cartridge, data: Seq<u8>) -> bool {
    let t = data[0x147];
    let rom_size = rom_size_spec(data[0x148]);
    let ram_size = ram_size_spec(data[0x149]);
    match c {
        Cartridge::CartridgeNone(n) => t == 0 && n.rom@ == data,
        Cartridge::CartridgeMbc1(m) => {
            &&& 0x01 <= t <= 0x03
            &&& m.mbc1_type == (if t == 1 {
                Mbc1Type::NoRam
            } else if t == 2 {
                Mbc1Type::Ram
            } else {
                Mbc1Type::RamBattery
            })
            &&& m.rom@ == data
            &&& m.fresh(rom_size, ram_size)
        },
        Cartridge::CartridgeMbc3(m) => {
            &&& 0x0F <= t <= 0x13
            &&& m.config == mbc3_config(t)
            &&& m.rom@ == data
            &&& m.fresh(rom_size, ram_size)
        },
    }
}

/// `mem` with the first 32 KiB of `data` (as much as there is) in the ROM
/// window.
pub open spec fn with_rom_window(mem: Seq<u8>, data: Seq<u8>) -> Seq<u8> {
    Seq::new(
        mem.len(),
        |i: int|
            if i < ROM_WINDOW && i < data.len() {
                data[i]
            } else {
                mem[i]
            },
    )
}

/// The console at power-on with `data` loaded.
pub open spec fn booted_with(data: Seq<u8>) -> CpuView {
    let p = CpuView::power_on();
    CpuView { mmu: MmuView { mem: with_rom_window(p.mmu.mem, data), ..p.mmu }, ..p }
}

/// How loading an image ends: an unsupported controller type is an error;
/// without a controller the image must be exactly 32 KiB.
pub open spec fn load_result(data: Seq<u8>) -> Result<(), YargeError> {
    if cartridge_kind(data[0x147]) is None {
        Err(YargeError::InvalidMbcType(data[0x147]))
    } else if data[0x147] == 0 && data.len() != ROM_WINDOW {
        Err(YargeError::InvalidRomSize(data.len() as usize))
    } else {
        Ok(())
    }
}

/// The registers the boot ROM leaves behind on a DMG.
/// One step with its clock count dropped.
#[verifier::opaque]
pub open spec fn stepped(c: CpuView) -> (CpuView, Result<(), YargeError>) {
    match step_spec(c) {
        (c2, Ok(_)) => (c2, Ok(())),
        (c2, Err(e)) => (c2, Err(e)),
    }
}

/// Up to `n` steps from `c`, stopping at the first error: the state
/// reached, and the error if one came.
pub open spec fn steps_spec(c: CpuView, n: nat) -> (CpuView, Result<(), YargeError>)
    decreases n,
{
    if n == 0 {
        (c, Ok(()))
    } else {
        let (c1, r1) = steps_spec(c, (n - 1) as nat);
        match r1 {
            Err(e) => (c1, Err(e)),
            Ok(_) => stepped(c1),
        }
    }
}

/// One more step after `n` steps that all succeeded.
proof fn lemma_steps_next(c: CpuView, n: nat)
    requires
        steps_spec(c, n).1 is Ok,
    ensures
        steps_spec(c, n + 1) == stepped(steps_spec(c, n).0),
{
    reveal_with_fuel(steps_spec, 2);
}

/// Once a step fails, the further steps change nothing.
proof fn lemma_steps_stop(c: CpuView, n: nat, m: nat)
    requires
        steps_spec(c, n).1 is Err,
        n <= m,
    ensures
        steps_spec(c, m) == steps_spec(c, n),
    decreases m - n,
{
    if m > n {
        lemma_steps_stop(c, n, (m - 1) as nat);
        reveal_with_fuel(steps_spec, 2);
    }
}

pub open spec fn post_boot_registers(r: Registers) -> Registers {
    Registers {
        pc: 0x0100,
        sp: 0xFFFE,
        ..r.with_r16(Reg16::AF, 0x01B0).with_r16(Reg16::BC, 0x0013).with_r16(Reg16::DE, 0x00D8)
            .with_r16(Reg16::HL, 0x014D)
    }
}

impl Gameboy {
    pub fn new() -> (r: Self)
        ensures
            r.cpu@.wf(),
            r.cpu@ == CpuView::power_on(),
            r.cpu.reg == Registers::new_spec(),
            !r.bios_disabled,
            r.cartridge is None,
    {
        Gameboy { cpu: Cpu::new(), bios_disabled: false, cartridge: None }
    }

    /// Sets the registers as the boot ROM leaves them and leaves the boot
    /// ROM; it must not have been left already.
    pub fn skip_bootrom(&mut self)
        requires
            !old(self).bios_disabled,
        ensures
            final(self).bios_disabled,
            final(self).cpu.reg == post_boot_registers(old(self).cpu.reg),
            final(self).cpu@ == (CpuView { reg: final(self).cpu.reg, ..old(self).cpu@ }),
            final(self).cartridge == old(self).cartridge,
    {
        self.cpu.reg.pc = 0x0100;
        self.cpu.reg.sp = 0xFFFE;
        self.cpu.reg.set16(Reg16::AF, 0x01B0);
        self.cpu.reg.set16(Reg16::BC, 0x0013);
        self.cpu.reg.set16(Reg16::DE, 0x00D8);
        self.cpu.reg.set16(Reg16::HL, 0x014D);
        self.bios_disabled = true;
    }

    /// Power-cycles the console, back into the boot ROM.
    pub fn reset(&mut self)
        ensures
            final(self).cpu@.wf(),
            final(self).cpu@ == CpuView::power_on(),
            final(self).cpu.reg == Registers::new_spec(),
            !final(self).bios_disabled,
            final(self).cartridge is None,
    {
        self.cpu = Cpu::new();
        self.bios_disabled = false;
        self.cartridge = None;
    }

    /// Sets the buttons held (see `joypad_state` for the bits).
    pub fn set_key_state_all(&mut self, state: u8)
        ensures
            final(self).cpu@ == (CpuView { mmu: old(self).cpu@.mmu.with_keys(state), ..old(self).cpu@ }),
            final(self).bios_disabled == old(self).bios_disabled,
            final(self).cartridge == old(self).cartridge,
    {
        self.cpu.mmu.set_keys(state);
    }

    /// Loads a ROM image: reads its header, builds the cartridge it names
    /// and loads the image into it. The bus holds flat memory, so the first
    /// 32 KiB of the image (banks 0 and 1, as mapped at power-on) are copied
    /// into the ROM window. On an error nothing changes.
    pub fn load_rom(&mut self, data: &[u8]) -> (r: Result<(), YargeError>)
        requires
            old(self).cpu@.wf(),
            header_readable(data@),
        ensures
            r == load_result(data@),
            final(self).cpu@.wf(),
            final(self).bios_disabled == old(self).bios_disabled,
            r is Err ==> final(self).cpu@ == old(self).cpu@ && final(self).cartridge == old(self).cartridge,
            r is Ok ==> (final(self).cartridge matches Some(c) && loaded_cartridge(c, data@)),
            r is Ok ==> final(self).cpu@ == (CpuView {
                mmu: MmuView { mem: with_rom_window(old(self).cpu@.mmu.mem, data@), ..old(self).cpu@.mmu },
                ..old(self).cpu@
            }),
    {
        let header = RomHeader::parse(data);
        assert(header.ram_size <= 0x100_0000);
        let mut cartridge = match get_cartridge(header) {
            Ok(c) => c,
            Err(e) => {
                return Err(e);
            },
        };
        match cartridge.load_rom(data) {
            Ok(_) => {},
            Err(e) => {
                return Err(e);
            },
        }
        let n = if data.len() < ROM_WINDOW {
            data.len()
        } else {
            ROM_WINDOW
        };
        let ghost before = self.cpu@;
        let mut i: usize = 0;
        while i < n
            invariant
                i <= n,
                n <= ROM_WINDOW,
                n <= data@.len(),
                n == ROM_WINDOW || n == data@.len(),
                self.cpu@ == (CpuView {
                    mmu: crate::mmu::MmuView { mem: self.cpu@.mmu.mem, ..before.mmu },
                    ..before
                }),
                self.cpu@.mmu.mem.len() == MEM_SIZE,
                self.bios_disabled == old(self).bios_disabled,
                forall|k: int| 0 <= k < i ==> #[trigger] self.cpu@.mmu.mem[k] == data@[k],
                forall|k: int| i <= k < MEM_SIZE ==> #[trigger] self.cpu@.mmu.mem[k] == before.mmu.mem[k],
                before.wf(),
            decreases n - i,
        {
            self.cpu.mmu.mem.set(i, data[i]);
            i += 1;
        }
        assert(self.cpu@.mmu.mem =~= with_rom_window(before.mmu.mem, data@));
        self.cartridge = Some(cartridge);
        Ok(())
    }

    /// Runs one instruction (or one idle cycle) and returns the cycles it
    /// took.
    pub fn step(&mut self) -> (r: Result<usize, YargeError>)
        requires
            old(self).cpu@.wf(),
        ensures
            (final(self).cpu@, r) == step_spec(old(self).cpu@),
            final(self).cpu@.wf(),
            r matches Ok(n) ==> n % 4 == 0 && n >= 4,
            final(self).bios_disabled == old(self).bios_disabled,
            final(self).cartridge == old(self).cartridge,
    {
        self.cpu.step()
    }

    fn step_unit(&mut self) -> (r: Result<(), YargeError>)
        requires
            old(self).cpu@.wf(),
        ensures
            (final(self).cpu@, r) == stepped(old(self).cpu@),
            final(self).cpu@.wf(),
            final(self).bios_disabled == old(self).bios_disabled,
            final(self).cartridge == old(self).cartridge,
    {
        proof {
            reveal(stepped);
        }
        match self.step() {
            Ok(_) => Ok(()),
            Err(e) => Err(e),
        }
    }

    /// Runs `count` steps, stopping at the first error, which is returned.
    pub fn run_steps(&mut self, count: usize) -> (r: Result<(), YargeError>)
        requires
            old(self).cpu@.wf(),
        ensures
            final(self).cpu@ == steps_spec(old(self).cpu@, count as nat).0,
            r == steps_spec(old(self).cpu@, count as nat).1,
            final(self).cpu@.wf(),
            final(self).bios_disabled == old(self).bios_disabled,
            final(self).cartridge == old(self).cartridge,
    {
        let ghost start = self.cpu@;
        proof {
            reveal_with_fuel(steps_spec, 1);
        }
        let mut i: usize = 0;
        while i < count
            invariant
                i <= count,
                start == old(self).cpu@,
                self.cpu@.wf(),
                self.bios_disabled == old(self).bios_disabled,
                self.cartridge == old(self).cartridge,
                self.cpu@ == steps_spec(start, i as nat).0,
                steps_spec(start, i as nat).1 == Ok::<(), YargeError>(()),
            decreases count - i,
        {
            proof {
                lemma_steps_next(start, i as nat);
            }
            let r = self.step_unit();
            i += 1;
            assert(self.cpu@ == steps_spec(start, i as nat).0);
            assert(r == steps_spec(start, i as nat).1);
            match r {
                Ok(u) => {
                    assert(u == ());
                    assert(r == Ok::<(), YargeError>(()));
                },
                Err(e) => {
                    proof {
                        lemma_steps_stop(start, i as nat, count as nat);
                    }
                    return Err(e);
                },
            }
        }
        Ok(())
    }
}

} // verus!
