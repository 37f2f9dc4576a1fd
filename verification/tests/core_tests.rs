use yarge_core::alu::{
    alu_add, alu_add16, alu_bit, alu_daa, alu_dec, alu_inc, alu_res, alu_rl, alu_rlc, alu_rr,
    alu_rrc, alu_set, alu_sla, alu_sp_offset, alu_sra, alu_srl, alu_sub, alu_swap,
};
use yarge_core::cpu::Cpu;
use yarge_core::errors::YargeError;
use yarge_core::gameboy::Gameboy;
use yarge_core::mmu::Mmu;
use yarge_core::regs::{Reg16, Reg8, Registers};
use yarge_core::serial::Serial;
use yarge_core::timers::Timers;
use yarge_core::union::U16Union;

#[test]
fn union_byte_writes_read_back() {
    let mut u = U16Union::new(0x1234);
    assert_eq!(u.get_a(), 0x12);
    assert_eq!(u.get_b(), 0x34);
    u.set_a(0xAB);
    assert_eq!(u.get(), 0xAB34);
    u.set_b(0xCD);
    assert_eq!(u.get(), 0xABCD);
    assert_eq!(u.get_a(), 0xAB);
    u.set(0x0001);
    assert_eq!(u.get_b(), 0x01);
}

#[test]
fn af_write_clears_low_flag_bits() {
    let mut r = Registers::new();
    r.set16(Reg16::AF, 0x12FF);
    assert_eq!(r.get16(Reg16::AF), 0x12F0);
    r.set16(Reg16::HL, 0xBEEF);
    assert_eq!(r.get8(Reg8::H), 0xBE);
    assert_eq!(r.get8(Reg8::L), 0xEF);
}

#[test]
fn add_sets_half_carry_and_carry() {
    let o = alu_add(0x3A, 0xC6, false);
    assert_eq!((o.r, o.h, o.c), (0x00, true, true));
    let o = alu_add(0x01, 0x01, true);
    assert_eq!((o.r, o.h, o.c), (0x03, false, false));
}

#[test]
fn sub_undoes_add() {
    for (a, b) in [(0u8, 0u8), (0x12, 0xF0), (0xFF, 0x01), (0x80, 0x80)] {
        let s = alu_add(a, b, false);
        assert_eq!(alu_sub(s.r, b, false).r, a);
    }
    let o = alu_sub(0x3E, 0x0F, false);
    assert_eq!((o.r, o.h, o.c), (0x2F, true, false));
    let o = alu_sub(0x00, 0x01, false);
    assert_eq!((o.r, o.h, o.c), (0xFF, true, true));
}

#[test]
fn inc_dec_half_carry() {
    let o = alu_inc(0x0F);
    assert_eq!((o.r, o.h), (0x10, true));
    let o = alu_inc(0xFF);
    assert_eq!((o.r, o.h, o.c), (0x00, true, false));
    let o = alu_dec(0x10);
    assert_eq!((o.r, o.h), (0x0F, true));
    let o = alu_dec(0x01);
    assert_eq!((o.r, o.h), (0x00, false));
}

#[test]
fn rotations_and_shifts() {
    let o = alu_rlc(0x85);
    assert_eq!((o.r, o.c), (0x0B, true));
    let o = alu_rrc(0x01);
    assert_eq!((o.r, o.c), (0x80, true));
    let o = alu_rl(0x80, false);
    assert_eq!((o.r, o.c), (0x00, true));
    let o = alu_rr(0x01, true);
    assert_eq!((o.r, o.c), (0x80, true));
    let o = alu_sla(0x80);
    assert_eq!((o.r, o.c), (0x00, true));
    let o = alu_sra(0x8A);
    assert_eq!((o.r, o.c), (0xC5, false));
    let o = alu_srl(0x01);
    assert_eq!((o.r, o.c), (0x00, true));
    assert_eq!(alu_swap(0xAB), 0xBA);
    assert_eq!(alu_swap(alu_swap(0x5C)), 0x5C);
    assert_eq!(alu_rrc(alu_rlc(0x93).r).r, 0x93);
    let l = alu_rl(0x93, true);
    let back = alu_rr(l.r, l.c);
    assert_eq!((back.r, back.c), (0x93, true));
}

#[test]
fn bit_set_res() {
    assert!(alu_bit(0x80, 7));
    assert!(!alu_bit(0x7F, 7));
    assert_eq!(alu_res(0xFF, 0), 0xFE);
    assert_eq!(alu_set(0x00, 3), 0x08);
    assert!(alu_bit(alu_set(0x12, 5), 5));
    assert!(!alu_bit(alu_res(0x12, 4), 4));
    assert_eq!(alu_res(alu_set(0x12, 6), 6), alu_res(0x12, 6));
}

#[test]
fn daa_adjusts_bcd_sum() {
    let sum = alu_add(0x15, 0x27, false);
    let o = alu_daa(sum.r, false, sum.h, sum.c);
    assert_eq!((o.r, o.c), (0x42, false));
    let sum = alu_add(0x99, 0x01, false);
    let o = alu_daa(sum.r, false, sum.h, sum.c);
    assert_eq!((o.r, o.c), (0x00, true));
}

#[test]
fn sixteen_bit_arithmetic() {
    let o = alu_add16(0x8A23, 0x0605);
    assert_eq!((o.r, o.h, o.c), (0x9028, true, false));
    let o = alu_add16(0xFFFF, 0x0001);
    assert_eq!((o.r, o.h, o.c), (0x0000, true, true));
    let o = alu_sp_offset(0xFFF8, 2);
    assert_eq!((o.r, o.h, o.c), (0xFFFA, false, false));
    let o = alu_sp_offset(0x0005, 0xFF);
    assert_eq!((o.r, o.h, o.c), (0x0004, true, true));
}

#[test]
fn timers_div_and_overflow() {
    let mut t = Timers::new();
    let mut iif = 0u8;
    for _ in 0..64 {
        t.tick(&mut iif);
    }
    assert_eq!(t.get_div(), 1);
    t.reset_div();
    assert_eq!(t.get_div(), 0);
    t.set_tac(0x05);
    assert_eq!(t.get_tac(), 0x05);
    t.set_tima(0xFF);
    assert_eq!(t.get_tima(), 0xFF);
    for _ in 0..8 {
        t.tick(&mut iif);
    }
    assert_ne!(iif & 0x04, 0);
}

#[test]
fn serial_control_and_transfer() {
    let mut s = Serial::new();
    let mut iif = 0u8;
    s.write_sb(0x42);
    assert_eq!(s.read_sb(), 0x42);
    s.write_sc(0x81);
    assert_eq!(s.read_sc(), 0xFF);
    s.tick(&mut iif);
    assert_eq!(s.read_sb(), 0xFF);
    assert_eq!(s.read_sc(), 0x7F);
    assert_eq!(iif, 0);
}

#[test]
fn mmu_reads_back_writes() {
    let mut m = Mmu::new();
    m.wb(0xC000, 0x42);
    assert_eq!(m.rb(0xC000), 0x42);
    m.wb(0xC001, 0x43);
    assert_eq!(m.rb(0xC000), 0x42);
    m.wb(0xFF0F, 0x01);
    assert_eq!(m.rb(0xFF0F), 0xE1);
    m.wb(0xFF07, 0x05);
    assert_eq!(m.rb(0xFF07), 0xFD);
    m.ww(0xD000, 0xBEEF);
    assert_eq!(m.rb(0xD000), 0xEF);
    assert_eq!(m.rb(0xD001), 0xBE);
}

#[test]
fn cpu_runs_a_program() {
    let mut cpu = Cpu::new();
    cpu.mmu.wb(0x0000, 0x00);
    cpu.mmu.wb(0x0001, 0x3E);
    cpu.mmu.wb(0x0002, 0x42);
    cpu.mmu.wb(0x0003, 0xD3);
    assert_eq!(cpu.step(), Ok(4));
    assert_eq!(cpu.reg.pc, 1);
    assert_eq!(cpu.step(), Ok(8));
    assert_eq!(cpu.reg.a, 0x42);
    assert_eq!(cpu.step(), Err(YargeError::InvalidInstruction { instr: 0xD3, addr: 3 }));
}

#[test]
fn cpu_stops_at_breakpoint() {
    let mut cpu = Cpu::new();
    cpu.pc_breakpoints[0] = true;
    let r = cpu.step();
    assert_eq!(r, Err(YargeError::PcBreakpoint { addr: 0, instr: 0 }));
    assert!(r.unwrap_err().is_recoverable());
}

#[test]
fn errors_recoverability() {
    assert!(YargeError::LdBreakpoint { addr: 1 }.is_recoverable());
    assert!(YargeError::PcBreakpoint { addr: 1, instr: 0 }.is_recoverable());
    assert!(!YargeError::InvalidMbcType(0x20).is_recoverable());
    assert!(!YargeError::InvalidRomSize(1).is_recoverable());
    assert!(!YargeError::InvalidInstruction { instr: 0xD3, addr: 0 }.is_recoverable());
}

#[test]
fn skip_bootrom_sets_post_boot_registers() {
    let mut gb = Gameboy::new();
    gb.skip_bootrom();
    assert!(gb.bios_disabled);
    assert_eq!(gb.cpu.reg.pc, 0x0100);
    assert_eq!(gb.cpu.reg.sp, 0xFFFE);
    assert_eq!(gb.cpu.reg.get16(Reg16::AF), 0x01B0);
    assert_eq!(gb.cpu.reg.get16(Reg16::BC), 0x0013);
    assert_eq!(gb.cpu.reg.get16(Reg16::DE), 0x00D8);
    assert_eq!(gb.cpu.reg.get16(Reg16::HL), 0x014D);
    gb.reset();
    assert!(!gb.bios_disabled);
    assert_eq!(gb.cpu.reg.pc, 0);
    assert_eq!(gb.step(), Ok(4));
}

#[test]
fn tima_overflow_reloads_one_cycle_late() {
    let mut t = Timers::new();
    t.tma = 0x42;
    t.set_tac(0x05);
    t.set_tima(0xFF);
    let mut iif: u8 = 0;
    let mut ticks = 0;
    while t.get_tima() == 0xFF {
        t.tick(&mut iif);
        ticks += 1;
        assert!(ticks < 100);
    }
    assert_eq!(t.get_tima(), 0);
    assert_eq!(iif & 0x04, 0);
    t.tick(&mut iif);
    assert_eq!(t.get_tima(), 0x42);
    assert_ne!(iif & 0x04, 0);
}
