use yarge_core::frontend::debugger::{joypad_state, key_bit, u16_edit_result, EditEvent, HostKey, Key};

#[test]
fn joypad_combines_held_keys() {
    assert_eq!(joypad_state(&[]), 0);
    assert_eq!(joypad_state(&[HostKey::Z]), key_bit(Key::A));
    assert_eq!(joypad_state(&[HostKey::Q, HostKey::J]), 0x10);
    assert_eq!(
        joypad_state(&[HostKey::W, HostKey::Right, HostKey::Return, HostKey::Space, HostKey::K]),
        0x04 | 0x01 | 0x80 | 0x40 | 0x20
    );
    assert_eq!(joypad_state(&[HostKey::S, HostKey::Left, HostKey::Down]), 0x08 | 0x02);
}

#[test]
fn register_editor_results() {
    assert_eq!(u16_edit_result(0x10, false, 1, EditEvent::Increment), None);
    assert_eq!(u16_edit_result(0x10, true, 0x100, EditEvent::Increment), Some(0x110));
    assert_eq!(u16_edit_result(0x10, true, 0x100, EditEvent::Decrement), Some(0xFF10));
    assert_eq!(u16_edit_result(0xFFFF, true, 1, EditEvent::Increment), Some(0));
    let edit = |s: &str| EditEvent::Edited(String::from(s));
    assert_eq!(u16_edit_result(0x12, true, 1, edit(" 1f ")), Some(0x1F));
    assert_eq!(u16_edit_result(0x12, true, 1, edit("ABCD")), Some(0xABCD));
    assert_eq!(u16_edit_result(0x12, true, 1, edit("")), Some(0));
    assert_eq!(u16_edit_result(0x12, true, 1, edit("12345")), None);
    assert_eq!(u16_edit_result(0x12, true, 1, edit("g")), None);
    assert_eq!(u16_edit_result(0x12, true, 1, edit("+1")), None);
    assert_eq!(u16_edit_result(0, true, 1, edit("05")), Some(5));
    assert_eq!(u16_edit_result(0, true, 1, edit("50")), Some(5));
    assert_eq!(u16_edit_result(0x12, false, 1, edit("5")), None);
}

use yarge_core::errors::YargeError;
use yarge_core::frontend::debugger::{af_from_edit, EditedRegister, GuiClick, GuiState};
use yarge_core::gameboy::Gameboy;
use yarge_core::cartridge::Cartridge;

#[test]
fn run_steps_stops_at_error() {
    let mut gb = Gameboy::new();
    assert_eq!(gb.run_steps(10), Ok(()));
    assert_eq!(gb.cpu.reg.pc, 10);
    gb.cpu.mmu.mem[12] = 0xD3;
    let r = gb.run_steps(10);
    assert!(matches!(r, Err(YargeError::InvalidInstruction { instr: 0xD3, .. })));
    assert_eq!(gb.run_steps(0), Ok(()));
}

#[test]
fn debugger_controls() {
    assert_eq!(af_from_edit(0xA), 0xA0);
    assert_eq!(af_from_edit(0x10), 0x10);
    let mut g = GuiState {
        gb: Gameboy::new(),
        gb_running: false,
        gb_result: Err(YargeError::InvalidInstruction { instr: 0xD3, addr: 0 }),
        enable_gui: true,
        step_amount: 1,
    };
    assert!(!g.can_step());
    // Continue is not offered for an error that is not recoverable.
    assert!(!g.gui(&[GuiClick::ErrorContinue]));
    assert!(g.gb_result.is_err());
    assert!(g.gui(&[GuiClick::ErrorExit]));
    g.gb_result = Err(YargeError::PcBreakpoint { addr: 1, instr: 0 });
    g.gb_running = true;
    assert!(!g.gui(&[GuiClick::ErrorContinue]));
    assert!(g.gb_result.is_ok() && !g.gb_running);
    assert!(g.can_step());
    // The panel's buttons do nothing without an error.
    assert!(!g.gui(&[GuiClick::ErrorExit]));
    g.gb.cpu.reg.pc = 0x1234;
    g.gb_running = true;
    assert!(!g.gui(&[GuiClick::FileReset]));
    assert_eq!(g.gb.cpu.reg.pc, 0);
    assert!(!g.gb_running);
    assert!(g.gui(&[GuiClick::FileExit]));
    g.enable_gui = false;
    assert!(!g.gui(&[GuiClick::FileExit, GuiClick::FileReset]));
}

fn rom_image(mbc: u8, len: usize) -> Vec<u8> {
    let mut rom = vec![0u8; len];
    rom[0x134] = b'T';
    rom[0x147] = mbc;
    rom[0x148] = 0x01;
    rom[0x200] = 0x77;
    rom
}

#[test]
fn dropped_files_and_joypad() {
    let mut g = GuiState { gb: Gameboy::new(), gb_running: false, gb_result: Ok(()), enable_gui: true, step_amount: 1 };
    assert!(!g.load_dropped(&rom_image(0x20, 0x8000)));
    assert!(!g.gb_running);
    assert!(!g.load_dropped(&rom_image(0x00, 0x4000)));
    assert!(g.load_dropped(&rom_image(0x00, 0x8000)));
    assert!(g.gb_running);
    assert_eq!(g.gb.cpu.mmu.mem[0x200], 0x77);
    assert!(g.gb.cartridge.is_some());
    g.gb_running = false;
    assert!(g.load_dropped(&rom_image(0x01, 0x10000)));
    assert!(g.gb_running);
    g.handle_input(&[HostKey::Z, HostKey::Up], true, None);
    assert!(!g.enable_gui);
    assert_eq!(g.gb.cpu.mmu.keys, 0x14);
    // Select the directions on P1: Up reads as a cleared bit 2.
    g.gb.cpu.mmu.wb(0xFF00, 0x20);
    assert_eq!(g.gb.cpu.mmu.rb(0xFF00), 0xE0 | 0x0B);
    g.gb.cpu.mmu.wb(0xFF00, 0x10);
    assert_eq!(g.gb.cpu.mmu.rb(0xFF00), 0xD0 | 0x0E);
    g.handle_input(&[], true, Some(&rom_image(0x00, 0x8000)));
    assert!(g.enable_gui);
    assert_eq!(g.gb.cpu.mmu.keys, 0);
}

#[test]
fn debugger_run_edit_and_breakpoints() {
    let mut g = GuiState { gb: Gameboy::new(), gb_running: false, gb_result: Ok(()), enable_gui: true, step_amount: 5 };
    g.run_for();
    assert_eq!(g.gb.cpu.reg.pc, 5);
    g.gb_running = true;
    g.run_for();
    assert_eq!(g.gb.cpu.reg.pc, 5);
    g.gb_running = false;
    g.edit_register(EditedRegister::PC, EditEvent::Edited(String::from("40")));
    assert_eq!(g.gb.cpu.reg.pc, 0x40);
    g.edit_register(EditedRegister::AF, EditEvent::Edited(String::from("0012")));
    assert_eq!(g.gb.cpu.reg.get16(yarge_core::regs::Reg16::AF), 0x0010);
    g.edit_register(EditedRegister::AF, EditEvent::Edited(String::from("5")));
    assert_eq!(g.gb.cpu.reg.get16(yarge_core::regs::Reg16::AF), 0x0050);
    g.edit_register(EditedRegister::SP, EditEvent::Increment);
    assert_eq!(g.gb.cpu.reg.sp, 1);
    g.gb_running = true;
    g.edit_register(EditedRegister::SP, EditEvent::Increment);
    assert_eq!(g.gb.cpu.reg.sp, 1);
    g.gb_running = false;
    g.set_pc_breakpoint(0x42, true);
    g.step_amount = 10;
    g.run_for();
    assert!(matches!(g.gb_result, Err(YargeError::PcBreakpoint { addr: 0x42, .. })));
    g.gb_result = Ok(());
    g.set_pc_breakpoint(0x42, false);
    g.gb.cpu.mmu.mem[0x43] = 0x40;
    g.set_ld_breakpoint(true);
    g.step_amount = 1;
    g.run_for();
    assert!(matches!(g.gb_result, Err(YargeError::LdBreakpoint { addr: 0x43 })));
    g.skip_bootrom();
    assert_eq!(g.gb.cpu.reg.pc, 0x100);
    assert!(g.gb.bios_disabled);
    g.skip_bootrom();
    assert_eq!(g.gb.cpu.reg.pc, 0x100);
    g.corrupt(&[(0xC000, 0x12), (0xC001, 0x34), (0xFF0F, 0xFF)]);
    assert_eq!(g.gb.cpu.mmu.mem[0xC000], 0x12);
    assert_eq!(g.gb.cpu.mmu.mem[0xC001], 0x34);
    assert_eq!(g.gb.cpu.mmu.iif, 0x1F);
}

#[test]
fn dropping_a_file_restarts_the_console() {
    let mut g = GuiState { gb: Gameboy::new(), gb_running: false, gb_result: Ok(()), enable_gui: true, step_amount: 1 };
    g.gb.cpu.reg.pc = 0x1234;
    g.gb.cpu.mmu.mem[0xC000] = 0x55;
    g.gb.skip_bootrom();
    g.handle_input(&[], false, Some(&rom_image(0x01, 0x10000)));
    assert_eq!(g.gb.cpu.reg.pc, 0);
    assert_eq!(g.gb.cpu.mmu.mem[0xC000], 0);
    assert!(!g.gb.bios_disabled);
    assert!(matches!(&g.gb.cartridge, Some(Cartridge::CartridgeMbc1(c)) if c.rom.len() == 0x10000));
    g.handle_input(&[], false, Some(&rom_image(0x00, 0x8000)));
    assert!(matches!(&g.gb.cartridge, Some(Cartridge::CartridgeNone(c)) if c.rom[0x200] == 0x77));
}
