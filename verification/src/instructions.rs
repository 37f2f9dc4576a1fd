//! Execution of single instructions, one function per instruction form,
//! dispatched from the two 256-entry opcode tables.
use vstd::prelude::*;
use vstd::pervasive::unreached;
use crate::alu::{
    AluOut, alu_add, alu_sub, alu_inc, alu_dec, alu_rlc, alu_rrc, alu_rl, alu_rr, alu_sla, alu_sra,
    alu_srl, alu_swap, alu_bit, alu_res, alu_set, alu_daa, alu_add16, alu_sp_offset, signed,
};
use crate::cpu::{Cpu, CpuState};
use crate::errors::YargeError;
use crate::isa::{
    AluOp, RotOp, bit_flags, add_hl_rr_spec, add_sp_i8_spec, alu_a_mhl_spec, alu_a_r_spec,
    alu_a_spec, alu_a_u8_spec, bit_mhl_spec, bit_r_spec, call_body_spec, call_u16_cond_spec,
    call_u16_spec, ccf_spec, cond_jp_u16_spec, cpl_spec, daa_instr_spec, dec_mhl_spec,
    dec_r_spec, di_spec, ei_spec, execute_cb_spec, execute_spec, halt_spec, inc_mhl_spec,
    inc_r_spec, incdec_rr_spec, jp_body_spec, jp_hl_spec, jp_u16_spec, jr_i8_cond_spec,
    jr_i8_spec, jr_spec, ld_a_m_ff00_add_c_spec, ld_a_m_ff00_add_u8_spec, ld_a_mhli_spec,
    ld_a_mrr_spec, ld_a_mu16_spec, ld_hl_sp_i8_spec, ld_m_ff00_add_c_a_spec,
    ld_m_ff00_add_u8_a_spec, ld_mhl_r_spec, ld_mhl_u8_spec, ld_mhli_a_spec, ld_mrr_a_spec,
    ld_mu16_a_spec, ld_mu16_sp_spec, ld_r_mhl_spec, ld_r_r_spec, ld_r_u8_spec, ld_rr_u16_spec,
    ld_sp_hl_spec, pop_rr_spec, push_rr_spec, ret_body_spec, ret_cond_spec, ret_spec, reti_spec,
    rot_a_spec, rot_mhl_spec, rot_r_spec, rot_value_spec, rst_spec, scf_spec, setres_mhl_spec,
    setres_r_spec, stop_spec,
};
use crate::regs::{Registers, Reg8, Reg16, Cond};

verus! {

fn alu_a(cpu: &mut Cpu, op: AluOp, b: u8)
    ensures
        final(cpu)@ == alu_a_spec(old(cpu)@, op, b),
        final(cpu).mmu == old(cpu).mmu,
        final(cpu).pc_breakpoints == old(cpu).pc_breakpoints,
{
    let a = cpu.reg.a;
    match op {
        AluOp::Add => {
            let o = alu_add(a, b, false);
            cpu.reg.set_f_znhc(o.r == 0, false, o.h, o.c);
            cpu.reg.a = o.r;
        },
        AluOp::Adc => {
            let o = alu_add(a, b, cpu.reg.f_c());
            cpu.reg.set_f_znhc(o.r == 0, false, o.h, o.c);
            cpu.reg.a = o.r;
        },
        AluOp::Sub => {
            let o = alu_sub(a, b, false);
            cpu.reg.set_f_znhc(o.r == 0, true, o.h, o.c);
            cpu.reg.a = o.r;
        },
        AluOp::Sbc => {
            let o = alu_sub(a, b, cpu.reg.f_c());
            cpu.reg.set_f_znhc(o.r == 0, true, o.h, o.c);
            cpu.reg.a = o.r;
        },
        AluOp::And => {
            let r = a & b;
            cpu.reg.a = r;
            cpu.reg.set_f_znhc(r == 0, false, true, false);
        },
        AluOp::Xor => {
            let r = a ^ b;
            cpu.reg.a = r;
            cpu.reg.set_f_znhc(r == 0, false, false, false);
        },
        AluOp::Or => {
            let r = a | b;
            cpu.reg.a = r;
            cpu.reg.set_f_znhc(r == 0, false, false, false);
        },
        AluOp::Cp => {
            let o = alu_sub(a, b, false);
            cpu.reg.set_f_znhc(o.r == 0, true, o.h, o.c);
        },
    }
}

fn alu_a_r(cpu: &mut Cpu, op: AluOp, src: Reg8)
    requires
        old(cpu)@.wf(),
    ensures
        final(cpu)@ == alu_a_r_spec(old(cpu)@, op, src),
        final(cpu)@.wf(),
        final(cpu)@.t >= old(cpu)@.t,
{
    proof {
        reveal(alu_a_r_spec);
    }
    let b = cpu.reg.get8(src);
    alu_a(cpu, op, b);
}

fn alu_a_mhl(cpu: &mut Cpu, op: AluOp)
    requires
        old(cpu)@.wf(),
        old(cpu)@.has_time(4),
    ensures
        final(cpu)@ == alu_a_mhl_spec(old(cpu)@, op),
        final(cpu)@.wf(),
        final(cpu)@.t >= old(cpu)@.t,
{
    proof {
        reveal(alu_a_mhl_spec);
    }
    let b = cpu.rb(cpu.reg.hl());
    alu_a(cpu, op, b);
}

fn alu_a_u8(cpu: &mut Cpu, op: AluOp)
    requires
        old(cpu)@.wf(),
        old(cpu)@.has_time(4),
    ensures
        final(cpu)@ == alu_a_u8_spec(old(cpu)@, op),
        final(cpu)@.wf(),
        final(cpu)@.t >= old(cpu)@.t,
{
    proof {
        reveal(alu_a_u8_spec);
    }
    let b = cpu.fetch();
    alu_a(cpu, op, b);
}

fn rot_value(op: RotOp, v: u8, carry: bool) -> (o: AluOut)
    ensures
        o == rot_value_spec(op, v, carry),
{
    match op {
        RotOp::Rlc => alu_rlc(v),
        RotOp::Rrc => alu_rrc(v),
        RotOp::Rl => alu_rl(v, carry),
        RotOp::Rr => alu_rr(v, carry),
        RotOp::Sla => alu_sla(v),
        RotOp::Sra => alu_sra(v),
        RotOp::Swap => AluOut { r: alu_swap(v), h: false, c: false },
        RotOp::Srl => alu_srl(v),
    }
}

fn rot_r(cpu: &mut Cpu, op: RotOp, r: Reg8)
    requires
        old(cpu)@.wf(),
    ensures
        final(cpu)@ == rot_r_spec(old(cpu)@, op, r),
        final(cpu)@.wf(),
        final(cpu)@.t >= old(cpu)@.t,
{
    proof {
        reveal(rot_r_spec);
    }
    let v = cpu.reg.get8(r);
    let o = rot_value(op, v, cpu.reg.f_c());
    cpu.reg.set8(r, o.r);
    cpu.reg.set_f_znhc(o.r == 0, false, false, o.c);
}

fn rot_mhl(cpu: &mut Cpu, op: RotOp)
    requires
        old(cpu)@.wf(),
        old(cpu)@.has_time(8),
    ensures
        final(cpu)@ == rot_mhl_spec(old(cpu)@, op),
        final(cpu)@.wf(),
        final(cpu)@.t >= old(cpu)@.t,
{
    proof {
        reveal(rot_mhl_spec);
    }
    let hl = cpu.reg.hl();
    let v = cpu.rb(hl);
    let o = rot_value(op, v, cpu.reg.f_c());
    cpu.reg.set_f_znhc(o.r == 0, false, false, o.c);
    cpu.wb(hl, o.r);
}

fn bit_flags_exec(reg: &mut Registers, v: u8, n: u8)
    requires
        n < 8,
    ensures
        *final(reg) == (Registers { f: bit_flags(old(reg).f, v, n), ..*old(reg) }),
{
    reg.set_f_z(!alu_bit(v, n));
    reg.set_f_n(false);
    reg.set_f_h(true);
}

fn bit_r(cpu: &mut Cpu, n: u8, r: Reg8)
    requires
        old(cpu)@.wf(),
        n < 8,
    ensures
        final(cpu)@ == bit_r_spec(old(cpu)@, n, r),
        final(cpu)@.wf(),
        final(cpu)@.t >= old(cpu)@.t,
{
    proof {
        reveal(bit_r_spec);
    }
    let v = cpu.reg.get8(r);
    bit_flags_exec(&mut cpu.reg, v, n);
}

fn bit_mhl(cpu: &mut Cpu, n: u8)
    requires
        old(cpu)@.wf(),
        old(cpu)@.has_time(4),
        n < 8,
    ensures
        final(cpu)@ == bit_mhl_spec(old(cpu)@, n),
        final(cpu)@.wf(),
        final(cpu)@.t >= old(cpu)@.t,
{
    proof {
        reveal(bit_mhl_spec);
    }
    let v = cpu.rb(cpu.reg.hl());
    bit_flags_exec(&mut cpu.reg, v, n);
}

fn setres_r(cpu: &mut Cpu, n: u8, r: Reg8, set: bool)
    requires
        old(cpu)@.wf(),
        n < 8,
    ensures
        final(cpu)@ == setres_r_spec(old(cpu)@, n, r, set),
        final(cpu)@.wf(),
        final(cpu)@.t >= old(cpu)@.t,
{
    proof {
        reveal(setres_r_spec);
    }
    let v = cpu.reg.get8(r);
    if set {
        cpu.reg.set8(r, alu_set(v, n));
    } else {
        cpu.reg.set8(r, alu_res(v, n));
    }
}

fn setres_mhl(cpu: &mut Cpu, n: u8, set: bool)
    requires
        old(cpu)@.wf(),
        old(cpu)@.has_time(8),
        n < 8,
    ensures
        final(cpu)@ == setres_mhl_spec(old(cpu)@, n, set),
        final(cpu)@.wf(),
        final(cpu)@.t >= old(cpu)@.t,
{
    proof {
        reveal(setres_mhl_spec);
    }
    let hl = cpu.reg.hl();
    let v = cpu.rb(hl);
    if set {
        cpu.wb(hl, alu_set(v, n));
    } else {
        cpu.wb(hl, alu_res(v, n));
    }
}

fn ld_rr_u16(cpu: &mut Cpu, rr: Reg16)
    requires
        old(cpu)@.wf(),
        old(cpu)@.has_time(8),
    ensures
        final(cpu)@ == ld_rr_u16_spec(old(cpu)@, rr),
        final(cpu)@.wf(),
        final(cpu)@.t >= old(cpu)@.t,
{
    proof {
        reveal(ld_rr_u16_spec);
    }
    let v = cpu.fetch_word();
    cpu.reg.set16(rr, v);
}

fn ld_mrr_a(cpu: &mut Cpu, rr: Reg16)
    requires
        old(cpu)@.wf(),
        old(cpu)@.has_time(4),
    ensures
        final(cpu)@ == ld_mrr_a_spec(old(cpu)@, rr),
        final(cpu)@.wf(),
        final(cpu)@.t >= old(cpu)@.t,
{
    proof {
        reveal(ld_mrr_a_spec);
    }
    let v = cpu.reg.get16(rr);
    cpu.wb(v, cpu.reg.a);
}

fn ld_a_mrr(cpu: &mut Cpu, rr: Reg16)
    requires
        old(cpu)@.wf(),
        old(cpu)@.has_time(4),
    ensures
        final(cpu)@ == ld_a_mrr_spec(old(cpu)@, rr),
        final(cpu)@.wf(),
        final(cpu)@.t >= old(cpu)@.t,
{
    proof {
        reveal(ld_a_mrr_spec);
    }
    let v = cpu.rb(cpu.reg.get16(rr));
    cpu.reg.a = v;
}

#[verifier::rlimit(30)]
fn incdec_rr(cpu: &mut Cpu, rr: Reg16, inc: bool)
    requires
        old(cpu)@.wf(),
        old(cpu)@.has_time(4),
    ensures
        final(cpu)@ == incdec_rr_spec(old(cpu)@, rr, inc),
        final(cpu)@.wf(),
        final(cpu)@.t >= old(cpu)@.t,
{
    proof {
        reveal(incdec_rr_spec);
    }
    let v = cpu.reg.get16(rr);
    if inc {
        cpu.reg.set16(rr, v.wrapping_add(1));
    } else {
        cpu.reg.set16(rr, v.wrapping_sub(1));
    }
    cpu.cycle();
}

fn inc_r(cpu: &mut Cpu, r: Reg8)
    requires
        old(cpu)@.wf(),
    ensures
        final(cpu)@ == inc_r_spec(old(cpu)@, r),
        final(cpu)@.wf(),
        final(cpu)@.t >= old(cpu)@.t,
{
    proof {
        reveal(inc_r_spec);
    }
    let v = cpu.reg.get8(r);
    let o = alu_inc(v);
    cpu.reg.set_f_z(o.r == 0);
    cpu.reg.set_f_n(false);
    cpu.reg.set_f_h(o.h);
    cpu.reg.set8(r, o.r);
}

fn dec_r(cpu: &mut Cpu, r: Reg8)
    requires
        old(cpu)@.wf(),
    ensures
        final(cpu)@ == dec_r_spec(old(cpu)@, r),
        final(cpu)@.wf(),
        final(cpu)@.t >= old(cpu)@.t,
{
    proof {
        reveal(dec_r_spec);
    }
    let v = cpu.reg.get8(r);
    let o = alu_dec(v);
    cpu.reg.set_f_z(o.r == 0);
    cpu.reg.set_f_n(true);
    cpu.reg.set_f_h(o.h);
    cpu.reg.set8(r, o.r);
}

fn inc_mhl(cpu: &mut Cpu)
    requires
        old(cpu)@.wf(),
        old(cpu)@.has_time(8),
    ensures
        final(cpu)@ == inc_mhl_spec(old(cpu)@),
        final(cpu)@.wf(),
        final(cpu)@.t >= old(cpu)@.t,
{
    proof {
        reveal(inc_mhl_spec);
    }
    let hl = cpu.reg.hl();
    let v = cpu.rb(hl);
    let o = alu_inc(v);
    cpu.reg.set_f_z(o.r == 0);
    cpu.reg.set_f_n(false);
    cpu.reg.set_f_h(o.h);
    cpu.wb(hl, o.r);
}

fn dec_mhl(cpu: &mut Cpu)
    requires
        old(cpu)@.wf(),
        old(cpu)@.has_time(8),
    ensures
        final(cpu)@ == dec_mhl_spec(old(cpu)@),
        final(cpu)@.wf(),
        final(cpu)@.t >= old(cpu)@.t,
{
    proof {
        reveal(dec_mhl_spec);
    }
    let hl = cpu.reg.hl();
    let v = cpu.rb(hl);
    let o = alu_dec(v);
    cpu.reg.set_f_z(o.r == 0);
    cpu.reg.set_f_n(true);
    cpu.reg.set_f_h(o.h);
    cpu.wb(hl, o.r);
}

fn ld_r_u8(cpu: &mut Cpu, r: Reg8)
    requires
        old(cpu)@.wf(),
        old(cpu)@.has_time(4),
    ensures
        final(cpu)@ == ld_r_u8_spec(old(cpu)@, r),
        final(cpu)@.wf(),
        final(cpu)@.t >= old(cpu)@.t,
{
    proof {
        reveal(ld_r_u8_spec);
    }
    let v = cpu.fetch();
    cpu.reg.set8(r, v);
}

fn ld_mhl_u8(cpu: &mut Cpu)
    requires
        old(cpu)@.wf(),
        old(cpu)@.has_time(8),
    ensures
        final(cpu)@ == ld_mhl_u8_spec(old(cpu)@),
        final(cpu)@.wf(),
        final(cpu)@.t >= old(cpu)@.t,
{
    proof {
        reveal(ld_mhl_u8_spec);
    }
    let v = cpu.fetch();
    cpu.wb(cpu.reg.hl(), v);
}

fn rot_a(cpu: &mut Cpu, op: RotOp)
    requires
        old(cpu)@.wf(),
    ensures
        final(cpu)@ == rot_a_spec(old(cpu)@, op),
        final(cpu)@.wf(),
        final(cpu)@.t >= old(cpu)@.t,
{
    proof {
        reveal(rot_a_spec);
    }
    let o = rot_value(op, cpu.reg.a, cpu.reg.f_c());
    cpu.reg.a = o.r;
    cpu.reg.set_f_znhc(false, false, false, o.c);
}

fn ld_mu16_sp(cpu: &mut Cpu)
    requires
        old(cpu)@.wf(),
        old(cpu)@.has_time(16),
    ensures
        final(cpu)@ == ld_mu16_sp_spec(old(cpu)@),
        final(cpu)@.wf(),
        final(cpu)@.t >= old(cpu)@.t,
{
    proof {
        reveal(ld_mu16_sp_spec);
    }
    let a = cpu.fetch_word();
    cpu.ww(a, cpu.reg.sp);
}

fn add_hl_rr(cpu: &mut Cpu, rr: Reg16)
    requires
        old(cpu)@.wf(),
        old(cpu)@.has_time(4),
    ensures
        final(cpu)@ == add_hl_rr_spec(old(cpu)@, rr),
        final(cpu)@.wf(),
        final(cpu)@.t >= old(cpu)@.t,
{
    proof {
        reveal(add_hl_rr_spec);
    }
    let v = cpu.reg.get16(rr);
    let hl = cpu.reg.hl();
    let o = alu_add16(hl, v);
    cpu.reg.set_f_n(false);
    cpu.reg.set_f_h(o.h);
    cpu.reg.set_f_c(o.c);
    cpu.reg.set_hl(o.r);
    cpu.cycle();
}

fn cpu_stop(cpu: &mut Cpu)
    requires
        old(cpu)@.wf(),
    ensures
        final(cpu)@ == stop_spec(old(cpu)@),
        final(cpu)@.wf(),
        final(cpu)@.t >= old(cpu)@.t,
{
    proof {
        reveal(stop_spec);
    }
    cpu.state = CpuState::Stop;
    cpu.reg.inc_pc(1);
}

fn cpu_halt(cpu: &mut Cpu)
    requires
        old(cpu)@.wf(),
    ensures
        final(cpu)@ == halt_spec(old(cpu)@),
        final(cpu)@.wf(),
        final(cpu)@.t >= old(cpu)@.t,
{
    proof {
        reveal(halt_spec);
    }
    cpu.state = CpuState::Halt;
}

/// Sign-extends the offset byte to 16 bits.
fn offset16(v: u8) -> (e: u16)
    ensures
        e == ((signed(v) + 65536) % 65536),
{
    if v < 128 {
        v as u16
    } else {
        v as u16 + 0xFF00
    }
}

fn jr_body(cpu: &mut Cpu)
    requires
        old(cpu)@.wf(),
        old(cpu)@.has_time(8),
    ensures
        final(cpu)@ == jr_spec(old(cpu)@),
        final(cpu)@.wf(),
        final(cpu)@.t >= old(cpu)@.t,
{
    let v = cpu.fetch();
    cpu.reg.inc_pc(offset16(v));
    cpu.cycle();
}

fn jr_i8(cpu: &mut Cpu)
    requires
        old(cpu)@.wf(),
        old(cpu)@.has_time(8),
    ensures
        final(cpu)@ == jr_i8_spec(old(cpu)@),
        final(cpu)@.wf(),
        final(cpu)@.t >= old(cpu)@.t,
{
    proof {
        reveal(jr_i8_spec);
    }
    jr_body(cpu);
}

fn jr_i8_cond(cpu: &mut Cpu, cc: Cond)
    requires
        old(cpu)@.wf(),
        old(cpu)@.has_time(8),
    ensures
        final(cpu)@ == jr_i8_cond_spec(old(cpu)@, cc),
        final(cpu)@.wf(),
        final(cpu)@.t >= old(cpu)@.t,
{
    proof {
        reveal(jr_i8_cond_spec);
    }
    if cpu.reg.check(cc) {
        jr_body(cpu);
    } else {
        cpu.cycle();
        cpu.reg.inc_pc(1);
    }
}

#[verifier::rlimit(30)]
fn ld_mhli_a(cpu: &mut Cpu, inc: bool)
    requires
        old(cpu)@.wf(),
        old(cpu)@.has_time(4),
    ensures
        final(cpu)@ == ld_mhli_a_spec(old(cpu)@, inc),
        final(cpu)@.wf(),
        final(cpu)@.t >= old(cpu)@.t,
{
    proof {
        reveal(ld_mhli_a_spec);
    }
    let v = cpu.reg.hl();
    if inc {
        cpu.reg.set_hl(v.wrapping_add(1));
    } else {
        cpu.reg.set_hl(v.wrapping_sub(1));
    }
    cpu.wb(v, cpu.reg.a);
}

#[verifier::rlimit(30)]
fn ld_a_mhli(cpu: &mut Cpu, inc: bool)
    requires
        old(cpu)@.wf(),
        old(cpu)@.has_time(4),
    ensures
        final(cpu)@ == ld_a_mhli_spec(old(cpu)@, inc),
        final(cpu)@.wf(),
        final(cpu)@.t >= old(cpu)@.t,
{
    proof {
        reveal(ld_a_mhli_spec);
    }
    let v = cpu.reg.hl();
    if inc {
        cpu.reg.set_hl(v.wrapping_add(1));
    } else {
        cpu.reg.set_hl(v.wrapping_sub(1));
    }
    let x = cpu.rb(v);
    cpu.reg.a = x;
}

fn daa(cpu: &mut Cpu)
    requires
        old(cpu)@.wf(),
    ensures
        final(cpu)@ == daa_instr_spec(old(cpu)@),
        final(cpu)@.wf(),
        final(cpu)@.t >= old(cpu)@.t,
{
    proof {
        reveal(daa_instr_spec);
    }
    let n = cpu.reg.f_n();
    let h = cpu.reg.f_h();
    let c = cpu.reg.f_c();
    let o = alu_daa(cpu.reg.a, n, h, c);
    cpu.reg.set_f_znhc(o.r == 0, n, false, o.c);
    cpu.reg.a = o.r;
}

fn cpl(cpu: &mut Cpu)
    requires
        old(cpu)@.wf(),
    ensures
        final(cpu)@ == cpl_spec(old(cpu)@),
        final(cpu)@.wf(),
        final(cpu)@.t >= old(cpu)@.t,
{
    proof {
        reveal(cpl_spec);
    }
    cpu.reg.a = 255 - cpu.reg.a;
    cpu.reg.set_f_n(true);
    cpu.reg.set_f_h(true);
}

fn scf(cpu: &mut Cpu)
    requires
        old(cpu)@.wf(),
    ensures
        final(cpu)@ == scf_spec(old(cpu)@),
        final(cpu)@.wf(),
        final(cpu)@.t >= old(cpu)@.t,
{
    proof {
        reveal(scf_spec);
    }
    cpu.reg.set_f_c(true);
    cpu.reg.set_f_n(false);
    cpu.reg.set_f_h(false);
}

fn ccf(cpu: &mut Cpu)
    requires
        old(cpu)@.wf(),
    ensures
        final(cpu)@ == ccf_spec(old(cpu)@),
        final(cpu)@.wf(),
        final(cpu)@.t >= old(cpu)@.t,
{
    proof {
        reveal(ccf_spec);
    }
    let c = cpu.reg.f_c();
    cpu.reg.set_f_c(!c);
    cpu.reg.set_f_n(false);
    cpu.reg.set_f_h(false);
}

fn ld_r_r(cpu: &mut Cpu, dst: Reg8, src: Reg8)
    requires
        old(cpu)@.wf(),
    ensures
        final(cpu)@ == ld_r_r_spec(old(cpu)@, dst, src),
        final(cpu)@.wf(),
        final(cpu)@.t >= old(cpu)@.t,
{
    proof {
        reveal(ld_r_r_spec);
    }
    let v = cpu.reg.get8(src);
    cpu.reg.set8(dst, v);
}

fn ld_r_mhl(cpu: &mut Cpu, r: Reg8)
    requires
        old(cpu)@.wf(),
        old(cpu)@.has_time(4),
    ensures
        final(cpu)@ == ld_r_mhl_spec(old(cpu)@, r),
        final(cpu)@.wf(),
        final(cpu)@.t >= old(cpu)@.t,
{
    proof {
        reveal(ld_r_mhl_spec);
    }
    let v = cpu.rb(cpu.reg.hl());
    cpu.reg.set8(r, v);
}

fn ld_mhl_r(cpu: &mut Cpu, r: Reg8)
    requires
        old(cpu)@.wf(),
        old(cpu)@.has_time(4),
    ensures
        final(cpu)@ == ld_mhl_r_spec(old(cpu)@, r),
        final(cpu)@.wf(),
        final(cpu)@.t >= old(cpu)@.t,
{
    proof {
        reveal(ld_mhl_r_spec);
    }
    let v = cpu.reg.get8(r);
    cpu.wb(cpu.reg.hl(), v);
}

fn ret_body(cpu: &mut Cpu)
    requires
        old(cpu)@.wf(),
        old(cpu)@.has_time(12),
    ensures
        final(cpu)@ == ret_body_spec(old(cpu)@),
        final(cpu)@.wf(),
        final(cpu)@.t >= old(cpu)@.t,
{
    cpu.reg.pc = cpu.pop();
    cpu.cycle();
}

fn ret(cpu: &mut Cpu)
    requires
        old(cpu)@.wf(),
        old(cpu)@.has_time(12),
    ensures
        final(cpu)@ == ret_spec(old(cpu)@),
        final(cpu)@.wf(),
        final(cpu)@.t >= old(cpu)@.t,
{
    proof {
        reveal(ret_spec);
    }
    ret_body(cpu);
}

fn ret_cond(cpu: &mut Cpu, cc: Cond)
    requires
        old(cpu)@.wf(),
        old(cpu)@.has_time(16),
    ensures
        final(cpu)@ == ret_cond_spec(old(cpu)@, cc),
        final(cpu)@.wf(),
        final(cpu)@.t >= old(cpu)@.t,
{
    proof {
        reveal(ret_cond_spec);
    }
    cpu.cycle();
    if cpu.reg.check(cc) {
        ret_body(cpu);
    }
}

fn reti(cpu: &mut Cpu)
    requires
        old(cpu)@.wf(),
        old(cpu)@.has_time(12),
    ensures
        final(cpu)@ == reti_spec(old(cpu)@),
        final(cpu)@.wf(),
        final(cpu)@.t >= old(cpu)@.t,
{
    proof {
        reveal(reti_spec);
    }
    ret_body(cpu);
    cpu.enable_ime();
}

fn pop_rr(cpu: &mut Cpu, rr: Reg16)
    requires
        old(cpu)@.wf(),
        old(cpu)@.has_time(8),
    ensures
        final(cpu)@ == pop_rr_spec(old(cpu)@, rr),
        final(cpu)@.wf(),
        final(cpu)@.t >= old(cpu)@.t,
{
    proof {
        reveal(pop_rr_spec);
    }
    let v = cpu.pop();
    cpu.reg.set16(rr, v);
}

fn push_rr(cpu: &mut Cpu, rr: Reg16)
    requires
        old(cpu)@.wf(),
        old(cpu)@.has_time(12),
    ensures
        final(cpu)@ == push_rr_spec(old(cpu)@, rr),
        final(cpu)@.wf(),
        final(cpu)@.t >= old(cpu)@.t,
{
    proof {
        reveal(push_rr_spec);
    }
    cpu.cycle();
    let v = cpu.reg.get16(rr);
    cpu.push(v);
}

fn jp_body(cpu: &mut Cpu)
    requires
        old(cpu)@.wf(),
        old(cpu)@.has_time(12),
    ensures
        final(cpu)@ == jp_body_spec(old(cpu)@),
        final(cpu)@.wf(),
        final(cpu)@.t >= old(cpu)@.t,
{
    let to = cpu.rw(cpu.reg.pc);
    cpu.reg.pc = to;
    cpu.cycle();
}

fn jp_u16(cpu: &mut Cpu)
    requires
        old(cpu)@.wf(),
        old(cpu)@.has_time(12),
    ensures
        final(cpu)@ == jp_u16_spec(old(cpu)@),
        final(cpu)@.wf(),
        final(cpu)@.t >= old(cpu)@.t,
{
    proof {
        reveal(jp_u16_spec);
    }
    jp_body(cpu);
}

fn cond_jp_u16(cpu: &mut Cpu, cc: Cond)
    requires
        old(cpu)@.wf(),
        old(cpu)@.has_time(12),
    ensures
        final(cpu)@ == cond_jp_u16_spec(old(cpu)@, cc),
        final(cpu)@.wf(),
        final(cpu)@.t >= old(cpu)@.t,
{
    proof {
        reveal(cond_jp_u16_spec);
    }
    if cpu.reg.check(cc) {
        jp_body(cpu);
    } else {
        cpu.cycle();
        cpu.cycle();
        cpu.reg.inc_pc(2);
    }
}

fn jp_hl(cpu: &mut Cpu)
    requires
        old(cpu)@.wf(),
    ensures
        final(cpu)@ == jp_hl_spec(old(cpu)@),
        final(cpu)@.wf(),
        final(cpu)@.t >= old(cpu)@.t,
{
    proof {
        reveal(jp_hl_spec);
    }
    cpu.reg.pc = cpu.reg.hl();
}

fn call_body(cpu: &mut Cpu)
    requires
        old(cpu)@.wf(),
        old(cpu)@.has_time(20),
    ensures
        final(cpu)@ == call_body_spec(old(cpu)@),
        final(cpu)@.wf(),
        final(cpu)@.t >= old(cpu)@.t,
{
    let to = cpu.fetch_word();
    cpu.cycle();
    cpu.push(cpu.reg.pc);
    cpu.reg.pc = to;
}

fn call_u16(cpu: &mut Cpu)
    requires
        old(cpu)@.wf(),
        old(cpu)@.has_time(20),
    ensures
        final(cpu)@ == call_u16_spec(old(cpu)@),
        final(cpu)@.wf(),
        final(cpu)@.t >= old(cpu)@.t,
{
    proof {
        reveal(call_u16_spec);
    }
    call_body(cpu);
}

fn call_u16_cond(cpu: &mut Cpu, cc: Cond)
    requires
        old(cpu)@.wf(),
        old(cpu)@.has_time(20),
    ensures
        final(cpu)@ == call_u16_cond_spec(old(cpu)@, cc),
        final(cpu)@.wf(),
        final(cpu)@.t >= old(cpu)@.t,
{
    proof {
        reveal(call_u16_cond_spec);
    }
    if cpu.reg.check(cc) {
        call_body(cpu);
    } else {
        cpu.cycle();
        cpu.cycle();
        cpu.reg.inc_pc(2);
    }
}

fn rst(cpu: &mut Cpu, addr: u16)
    requires
        old(cpu)@.wf(),
        old(cpu)@.has_time(12),
    ensures
        final(cpu)@ == rst_spec(old(cpu)@, addr),
        final(cpu)@.wf(),
        final(cpu)@.t >= old(cpu)@.t,
{
    proof {
        reveal(rst_spec);
    }
    cpu.cycle();
    cpu.push(cpu.reg.pc);
    cpu.reg.pc = addr;
}

fn ld_m_ff00_add_u8_a(cpu: &mut Cpu)
    requires
        old(cpu)@.wf(),
        old(cpu)@.has_time(8),
    ensures
        final(cpu)@ == ld_m_ff00_add_u8_a_spec(old(cpu)@),
        final(cpu)@.wf(),
        final(cpu)@.t >= old(cpu)@.t,
{
    proof {
        reveal(ld_m_ff00_add_u8_a_spec);
    }
    let f = cpu.fetch() as u16;
    cpu.wb(0xFF00 + f, cpu.reg.a);
}

fn ld_m_ff00_add_c_a(cpu: &mut Cpu)
    requires
        old(cpu)@.wf(),
        old(cpu)@.has_time(4),
    ensures
        final(cpu)@ == ld_m_ff00_add_c_a_spec(old(cpu)@),
        final(cpu)@.wf(),
        final(cpu)@.t >= old(cpu)@.t,
{
    proof {
        reveal(ld_m_ff00_add_c_a_spec);
    }
    cpu.wb(0xFF00 + cpu.reg.c as u16, cpu.reg.a);
}

fn ld_a_m_ff00_add_u8(cpu: &mut Cpu)
    requires
        old(cpu)@.wf(),
        old(cpu)@.has_time(8),
    ensures
        final(cpu)@ == ld_a_m_ff00_add_u8_spec(old(cpu)@),
        final(cpu)@.wf(),
        final(cpu)@.t >= old(cpu)@.t,
{
    proof {
        reveal(ld_a_m_ff00_add_u8_spec);
    }
    let f = cpu.fetch() as u16;
    let v = cpu.rb(0xFF00 + f);
    cpu.reg.a = v;
}

fn ld_a_m_ff00_add_c(cpu: &mut Cpu)
    requires
        old(cpu)@.wf(),
        old(cpu)@.has_time(4),
    ensures
        final(cpu)@ == ld_a_m_ff00_add_c_spec(old(cpu)@),
        final(cpu)@.wf(),
        final(cpu)@.t >= old(cpu)@.t,
{
    proof {
        reveal(ld_a_m_ff00_add_c_spec);
    }
    let v = cpu.rb(0xFF00 + cpu.reg.c as u16);
    cpu.reg.a = v;
}

fn add_sp_i8(cpu: &mut Cpu)
    requires
        old(cpu)@.wf(),
        old(cpu)@.has_time(12),
    ensures
        final(cpu)@ == add_sp_i8_spec(old(cpu)@),
        final(cpu)@.wf(),
        final(cpu)@.t >= old(cpu)@.t,
{
    proof {
        reveal(add_sp_i8_spec);
    }
    let sp = cpu.reg.sp;
    let n = cpu.fetch();
    let o = alu_sp_offset(sp, n);
    cpu.reg.set_f_znhc(false, false, o.h, o.c);
    cpu.reg.sp = o.r;
    cpu.cycle();
    cpu.cycle();
}

fn ld_hl_sp_i8(cpu: &mut Cpu)
    requires
        old(cpu)@.wf(),
        old(cpu)@.has_time(8),
    ensures
        final(cpu)@ == ld_hl_sp_i8_spec(old(cpu)@),
        final(cpu)@.wf(),
        final(cpu)@.t >= old(cpu)@.t,
{
    proof {
        reveal(ld_hl_sp_i8_spec);
    }
    let sp = cpu.reg.sp;
    let n = cpu.fetch();
    let o = alu_sp_offset(sp, n);
    cpu.reg.set_f_znhc(false, false, o.h, o.c);
    cpu.reg.set_hl(o.r);
    cpu.cycle();
}

fn ld_sp_hl(cpu: &mut Cpu)
    requires
        old(cpu)@.wf(),
        old(cpu)@.has_time(4),
    ensures
        final(cpu)@ == ld_sp_hl_spec(old(cpu)@),
        final(cpu)@.wf(),
        final(cpu)@.t >= old(cpu)@.t,
{
    proof {
        reveal(ld_sp_hl_spec);
    }
    cpu.reg.sp = cpu.reg.hl();
    cpu.cycle();
}

fn ld_mu16_a(cpu: &mut Cpu)
    requires
        old(cpu)@.wf(),
        old(cpu)@.has_time(12),
    ensures
        final(cpu)@ == ld_mu16_a_spec(old(cpu)@),
        final(cpu)@.wf(),
        final(cpu)@.t >= old(cpu)@.t,
{
    proof {
        reveal(ld_mu16_a_spec);
    }
    let a = cpu.fetch_word();
    cpu.wb(a, cpu.reg.a);
}

fn ld_a_mu16(cpu: &mut Cpu)
    requires
        old(cpu)@.wf(),
        old(cpu)@.has_time(12),
    ensures
        final(cpu)@ == ld_a_mu16_spec(old(cpu)@),
        final(cpu)@.wf(),
        final(cpu)@.t >= old(cpu)@.t,
{
    proof {
        reveal(ld_a_mu16_spec);
    }
    let a = cpu.fetch_word();
    let v = cpu.rb(a);
    cpu.reg.a = v;
}

fn di(cpu: &mut Cpu)
    requires
        old(cpu)@.wf(),
    ensures
        final(cpu)@ == di_spec(old(cpu)@),
        final(cpu)@.wf(),
        final(cpu)@.t >= old(cpu)@.t,
{
    proof {
        reveal(di_spec);
    }
    cpu.disable_ime();
}

fn ei(cpu: &mut Cpu)
    requires
        old(cpu)@.wf(),
    ensures
        final(cpu)@ == ei_spec(old(cpu)@),
        final(cpu)@.wf(),
        final(cpu)@.t >= old(cpu)@.t,
{
    proof {
        reveal(ei_spec);
    }
    cpu.enable_ime();
}

/// Executes an unprefixed opcode whose byte has just been fetched; an
/// opcode with no instruction is an error and leaves the CPU as it is.
/// The opcode table is split in rows of sixteen.
pub fn cpu_instructions(cpu: &mut Cpu, instr: u8) -> (r: Result<(), YargeError>)
    requires
        old(cpu)@.wf(),
        old(cpu)@.has_time(24),
    ensures
        (final(cpu)@, r) == execute_spec(old(cpu)@, instr),
        final(cpu)@.wf(),
        final(cpu)@.t >= old(cpu)@.t,
{
    match instr / 16 {
        0 => cpu_instructions_0(cpu, instr),
        1 => cpu_instructions_1(cpu, instr),
        2 => cpu_instructions_2(cpu, instr),
        3 => cpu_instructions_3(cpu, instr),
        4 => cpu_instructions_4(cpu, instr),
        5 => cpu_instructions_5(cpu, instr),
        6 => cpu_instructions_6(cpu, instr),
        7 => cpu_instructions_7(cpu, instr),
        8 => cpu_instructions_8(cpu, instr),
        9 => cpu_instructions_9(cpu, instr),
        10 => cpu_instructions_a(cpu, instr),
        11 => cpu_instructions_b(cpu, instr),
        12 => cpu_instructions_c(cpu, instr),
        13 => cpu_instructions_d(cpu, instr),
        14 => cpu_instructions_e(cpu, instr),
        _ => cpu_instructions_f(cpu, instr),
    }
}

#[verifier::rlimit(60)]
fn cpu_instructions_0(cpu: &mut Cpu, instr: u8) -> (r: Result<(), YargeError>)
    requires
        old(cpu)@.wf(),
        old(cpu)@.has_time(24),
        0x00 <= instr <= 0x0F,
    ensures
        (final(cpu)@, r) == execute_spec(old(cpu)@, instr),
        final(cpu)@.wf(),
        final(cpu)@.t >= old(cpu)@.t,
{
    match instr {
        0x00 => Ok(()),
        0x01 => {
            ld_rr_u16(cpu, Reg16::BC);
            Ok(())
        },
        0x02 => {
            ld_mrr_a(cpu, Reg16::BC);
            Ok(())
        },
        0x03 => {
            incdec_rr(cpu, Reg16::BC, true);
            Ok(())
        },
        0x04 => {
            inc_r(cpu, Reg8::B);
            Ok(())
        },
        0x05 => {
            dec_r(cpu, Reg8::B);
            Ok(())
        },
        0x06 => {
            ld_r_u8(cpu, Reg8::B);
            Ok(())
        },
        0x07 => {
            rot_a(cpu, RotOp::Rlc);
            Ok(())
        },
        0x08 => {
            ld_mu16_sp(cpu);
            Ok(())
        },
        0x09 => {
            add_hl_rr(cpu, Reg16::BC);
            Ok(())
        },
        0x0A => {
            ld_a_mrr(cpu, Reg16::BC);
            Ok(())
        },
        0x0B => {
            incdec_rr(cpu, Reg16::BC, false);
            Ok(())
        },
        0x0C => {
            inc_r(cpu, Reg8::C);
            Ok(())
        },
        0x0D => {
            dec_r(cpu, Reg8::C);
            Ok(())
        },
        0x0E => {
            ld_r_u8(cpu, Reg8::C);
            Ok(())
        },
        0x0F => {
            rot_a(cpu, RotOp::Rrc);
            Ok(())
        },
        _ => unreached(),
    }
}

#[verifier::rlimit(60)]
fn cpu_instructions_1(cpu: &mut Cpu, instr: u8) -> (r: Result<(), YargeError>)
    requires
        old(cpu)@.wf(),
        old(cpu)@.has_time(24),
        0x10 <= instr <= 0x1F,
    ensures
        (final(cpu)@, r) == execute_spec(old(cpu)@, instr),
        final(cpu)@.wf(),
        final(cpu)@.t >= old(cpu)@.t,
{
    match instr {
        0x10 => {
            cpu_stop(cpu);
            Ok(())
        },
        0x11 => {
            ld_rr_u16(cpu, Reg16::DE);
            Ok(())
        },
        0x12 => {
            ld_mrr_a(cpu, Reg16::DE);
            Ok(())
        },
        0x13 => {
            incdec_rr(cpu, Reg16::DE, true);
            Ok(())
        },
        0x14 => {
            inc_r(cpu, Reg8::D);
            Ok(())
        },
        0x15 => {
            dec_r(cpu, Reg8::D);
            Ok(())
        },
        0x16 => {
            ld_r_u8(cpu, Reg8::D);
            Ok(())
        },
        0x17 => {
            rot_a(cpu, RotOp::Rl);
            Ok(())
        },
        0x18 => {
            jr_i8(cpu);
            Ok(())
        },
        0x19 => {
            add_hl_rr(cpu, Reg16::DE);
            Ok(())
        },
        0x1A => {
            ld_a_mrr(cpu, Reg16::DE);
            Ok(())
        },
        0x1B => {
            incdec_rr(cpu, Reg16::DE, false);
            Ok(())
        },
        0x1C => {
            inc_r(cpu, Reg8::E);
            Ok(())
        },
        0x1D => {
            dec_r(cpu, Reg8::E);
            Ok(())
        },
        0x1E => {
            ld_r_u8(cpu, Reg8::E);
            Ok(())
        },
        0x1F => {
            rot_a(cpu, RotOp::Rr);
            Ok(())
        },
        _ => unreached(),
    }
}

#[verifier::rlimit(60)]
fn cpu_instructions_2(cpu: &mut Cpu, instr: u8) -> (r: Result<(), YargeError>)
    requires
        old(cpu)@.wf(),
        old(cpu)@.has_time(24),
        0x20 <= instr <= 0x2F,
    ensures
        (final(cpu)@, r) == execute_spec(old(cpu)@, instr),
        final(cpu)@.wf(),
        final(cpu)@.t >= old(cpu)@.t,
{
    match instr {
        0x20 => {
            jr_i8_cond(cpu, Cond::NZ);
            Ok(())
        },
        0x21 => {
            ld_rr_u16(cpu, Reg16::HL);
            Ok(())
        },
        0x22 => {
            ld_mhli_a(cpu, true);
            Ok(())
        },
        0x23 => {
            incdec_rr(cpu, Reg16::HL, true);
            Ok(())
        },
        0x24 => {
            inc_r(cpu, Reg8::H);
            Ok(())
        },
        0x25 => {
            dec_r(cpu, Reg8::H);
            Ok(())
        },
        0x26 => {
            ld_r_u8(cpu, Reg8::H);
            Ok(())
        },
        0x27 => {
            daa(cpu);
            Ok(())
        },
        0x28 => {
            jr_i8_cond(cpu, Cond::Z);
            Ok(())
        },
        0x29 => {
            add_hl_rr(cpu, Reg16::HL);
            Ok(())
        },
        0x2A => {
            ld_a_mhli(cpu, true);
            Ok(())
        },
        0x2B => {
            incdec_rr(cpu, Reg16::HL, false);
            Ok(())
        },
        0x2C => {
            inc_r(cpu, Reg8::L);
            Ok(())
        },
        0x2D => {
            dec_r(cpu, Reg8::L);
            Ok(())
        },
        0x2E => {
            ld_r_u8(cpu, Reg8::L);
            Ok(())
        },
        0x2F => {
            cpl(cpu);
            Ok(())
        },
        _ => unreached(),
    }
}

#[verifier::rlimit(60)]
fn cpu_instructions_3(cpu: &mut Cpu, instr: u8) -> (r: Result<(), YargeError>)
    requires
        old(cpu)@.wf(),
        old(cpu)@.has_time(24),
        0x30 <= instr <= 0x3F,
    ensures
        (final(cpu)@, r) == execute_spec(old(cpu)@, instr),
        final(cpu)@.wf(),
        final(cpu)@.t >= old(cpu)@.t,
{
    match instr {
        0x30 => {
            jr_i8_cond(cpu, Cond::NC);
            Ok(())
        },
        0x31 => {
            ld_rr_u16(cpu, Reg16::SP);
            Ok(())
        },
        0x32 => {
            ld_mhli_a(cpu, false);
            Ok(())
        },
        0x33 => {
            incdec_rr(cpu, Reg16::SP, true);
            Ok(())
        },
        0x34 => {
            inc_mhl(cpu);
            Ok(())
        },
        0x35 => {
            dec_mhl(cpu);
            Ok(())
        },
        0x36 => {
            ld_mhl_u8(cpu);
            Ok(())
        },
        0x37 => {
            scf(cpu);
            Ok(())
        },
        0x38 => {
            jr_i8_cond(cpu, Cond::C);
            Ok(())
        },
        0x39 => {
            add_hl_rr(cpu, Reg16::SP);
            Ok(())
        },
        0x3A => {
            ld_a_mhli(cpu, false);
            Ok(())
        },
        0x3B => {
            incdec_rr(cpu, Reg16::SP, false);
            Ok(())
        },
        0x3C => {
            inc_r(cpu, Reg8::A);
            Ok(())
        },
        0x3D => {
            dec_r(cpu, Reg8::A);
            Ok(())
        },
        0x3E => {
            ld_r_u8(cpu, Reg8::A);
            Ok(())
        },
        0x3F => {
            ccf(cpu);
            Ok(())
        },
        _ => unreached(),
    }
}

#[verifier::rlimit(60)]
fn cpu_instructions_4(cpu: &mut Cpu, instr: u8) -> (r: Result<(), YargeError>)
    requires
        old(cpu)@.wf(),
        old(cpu)@.has_time(24),
        0x40 <= instr <= 0x4F,
    ensures
        (final(cpu)@, r) == execute_spec(old(cpu)@, instr),
        final(cpu)@.wf(),
        final(cpu)@.t >= old(cpu)@.t,
{
    match instr {
        0x40 => {
            if cpu.ld_breakpoint {
                return Err(YargeError::LdBreakpoint { addr: cpu.reg.pc.wrapping_sub(1) });
            }
            ld_r_r(cpu, Reg8::B, Reg8::B);
            Ok(())
        },
        0x41 => {
            ld_r_r(cpu, Reg8::B, Reg8::C);
            Ok(())
        },
        0x42 => {
            ld_r_r(cpu, Reg8::B, Reg8::D);
            Ok(())
        },
        0x43 => {
            ld_r_r(cpu, Reg8::B, Reg8::E);
            Ok(())
        },
        0x44 => {
            ld_r_r(cpu, Reg8::B, Reg8::H);
            Ok(())
        },
        0x45 => {
            ld_r_r(cpu, Reg8::B, Reg8::L);
            Ok(())
        },
        0x46 => {
            ld_r_mhl(cpu, Reg8::B);
            Ok(())
        },
        0x47 => {
            ld_r_r(cpu, Reg8::B, Reg8::A);
            Ok(())
        },
        0x48 => {
            ld_r_r(cpu, Reg8::C, Reg8::B);
            Ok(())
        },
        0x49 => {
            ld_r_r(cpu, Reg8::C, Reg8::C);
            Ok(())
        },
        0x4A => {
            ld_r_r(cpu, Reg8::C, Reg8::D);
            Ok(())
        },
        0x4B => {
            ld_r_r(cpu, Reg8::C, Reg8::E);
            Ok(())
        },
        0x4C => {
            ld_r_r(cpu, Reg8::C, Reg8::H);
            Ok(())
        },
        0x4D => {
            ld_r_r(cpu, Reg8::C, Reg8::L);
            Ok(())
        },
        0x4E => {
            ld_r_mhl(cpu, Reg8::C);
            Ok(())
        },
        0x4F => {
            ld_r_r(cpu, Reg8::C, Reg8::A);
            Ok(())
        },
        _ => unreached(),
    }
}

#[verifier::rlimit(60)]
fn cpu_instructions_5(cpu: &mut Cpu, instr: u8) -> (r: Result<(), YargeError>)
    requires
        old(cpu)@.wf(),
        old(cpu)@.has_time(24),
        0x50 <= instr <= 0x5F,
    ensures
        (final(cpu)@, r) == execute_spec(old(cpu)@, instr),
        final(cpu)@.wf(),
        final(cpu)@.t >= old(cpu)@.t,
{
    match instr {
        0x50 => {
            ld_r_r(cpu, Reg8::D, Reg8::B);
            Ok(())
        },
        0x51 => {
            ld_r_r(cpu, Reg8::D, Reg8::C);
            Ok(())
        },
        0x52 => {
            ld_r_r(cpu, Reg8::D, Reg8::D);
            Ok(())
        },
        0x53 => {
            ld_r_r(cpu, Reg8::D, Reg8::E);
            Ok(())
        },
        0x54 => {
            ld_r_r(cpu, Reg8::D, Reg8::H);
            Ok(())
        },
        0x55 => {
            ld_r_r(cpu, Reg8::D, Reg8::L);
            Ok(())
        },
        0x56 => {
            ld_r_mhl(cpu, Reg8::D);
            Ok(())
        },
        0x57 => {
            ld_r_r(cpu, Reg8::D, Reg8::A);
            Ok(())
        },
        0x58 => {
            ld_r_r(cpu, Reg8::E, Reg8::B);
            Ok(())
        },
        0x59 => {
            ld_r_r(cpu, Reg8::E, Reg8::C);
            Ok(())
        },
        0x5A => {
            ld_r_r(cpu, Reg8::E, Reg8::D);
            Ok(())
        },
        0x5B => {
            ld_r_r(cpu, Reg8::E, Reg8::E);
            Ok(())
        },
        0x5C => {
            ld_r_r(cpu, Reg8::E, Reg8::H);
            Ok(())
        },
        0x5D => {
            ld_r_r(cpu, Reg8::E, Reg8::L);
            Ok(())
        },
        0x5E => {
            ld_r_mhl(cpu, Reg8::E);
            Ok(())
        },
        0x5F => {
            ld_r_r(cpu, Reg8::E, Reg8::A);
            Ok(())
        },
        _ => unreached(),
    }
}

#[verifier::rlimit(60)]
fn cpu_instructions_6(cpu: &mut Cpu, instr: u8) -> (r: Result<(), YargeError>)
    requires
        old(cpu)@.wf(),
        old(cpu)@.has_time(24),
        0x60 <= instr <= 0x6F,
    ensures
        (final(cpu)@, r) == execute_spec(old(cpu)@, instr),
        final(cpu)@.wf(),
        final(cpu)@.t >= old(cpu)@.t,
{
    match instr {
        0x60 => {
            ld_r_r(cpu, Reg8::H, Reg8::B);
            Ok(())
        },
        0x61 => {
            ld_r_r(cpu, Reg8::H, Reg8::C);
            Ok(())
        },
        0x62 => {
            ld_r_r(cpu, Reg8::H, Reg8::D);
            Ok(())
        },
        0x63 => {
            ld_r_r(cpu, Reg8::H, Reg8::E);
            Ok(())
        },
        0x64 => {
            ld_r_r(cpu, Reg8::H, Reg8::H);
            Ok(())
        },
        0x65 => {
            ld_r_r(cpu, Reg8::H, Reg8::L);
            Ok(())
        },
        0x66 => {
            ld_r_mhl(cpu, Reg8::H);
            Ok(())
        },
        0x67 => {
            ld_r_r(cpu, Reg8::H, Reg8::A);
            Ok(())
        },
        0x68 => {
            ld_r_r(cpu, Reg8::L, Reg8::B);
            Ok(())
        },
        0x69 => {
            ld_r_r(cpu, Reg8::L, Reg8::C);
            Ok(())
        },
        0x6A => {
            ld_r_r(cpu, Reg8::L, Reg8::D);
            Ok(())
        },
        0x6B => {
            ld_r_r(cpu, Reg8::L, Reg8::E);
            Ok(())
        },
        0x6C => {
            ld_r_r(cpu, Reg8::L, Reg8::H);
            Ok(())
        },
        0x6D => {
            ld_r_r(cpu, Reg8::L, Reg8::L);
            Ok(())
        },
        0x6E => {
            ld_r_mhl(cpu, Reg8::L);
            Ok(())
        },
        0x6F => {
            ld_r_r(cpu, Reg8::L, Reg8::A);
            Ok(())
        },
        _ => unreached(),
    }
}

#[verifier::rlimit(60)]
fn cpu_instructions_7(cpu: &mut Cpu, instr: u8) -> (r: Result<(), YargeError>)
    requires
        old(cpu)@.wf(),
        old(cpu)@.has_time(24),
        0x70 <= instr <= 0x7F,
    ensures
        (final(cpu)@, r) == execute_spec(old(cpu)@, instr),
        final(cpu)@.wf(),
        final(cpu)@.t >= old(cpu)@.t,
{
    match instr {
        0x70 => {
            ld_mhl_r(cpu, Reg8::B);
            Ok(())
        },
        0x71 => {
            ld_mhl_r(cpu, Reg8::C);
            Ok(())
        },
        0x72 => {
            ld_mhl_r(cpu, Reg8::D);
            Ok(())
        },
        0x73 => {
            ld_mhl_r(cpu, Reg8::E);
            Ok(())
        },
        0x74 => {
            ld_mhl_r(cpu, Reg8::H);
            Ok(())
        },
        0x75 => {
            ld_mhl_r(cpu, Reg8::L);
            Ok(())
        },
        0x76 => {
            cpu_halt(cpu);
            Ok(())
        },
        0x77 => {
            ld_mhl_r(cpu, Reg8::A);
            Ok(())
        },
        0x78 => {
            ld_r_r(cpu, Reg8::A, Reg8::B);
            Ok(())
        },
        0x79 => {
            ld_r_r(cpu, Reg8::A, Reg8::C);
            Ok(())
        },
        0x7A => {
            ld_r_r(cpu, Reg8::A, Reg8::D);
            Ok(())
        },
        0x7B => {
            ld_r_r(cpu, Reg8::A, Reg8::E);
            Ok(())
        },
        0x7C => {
            ld_r_r(cpu, Reg8::A, Reg8::H);
            Ok(())
        },
        0x7D => {
            ld_r_r(cpu, Reg8::A, Reg8::L);
            Ok(())
        },
        0x7E => {
            ld_r_mhl(cpu, Reg8::A);
            Ok(())
        },
        0x7F => {
            ld_r_r(cpu, Reg8::A, Reg8::A);
            Ok(())
        },
        _ => unreached(),
    }
}

#[verifier::rlimit(60)]
fn cpu_instructions_8(cpu: &mut Cpu, instr: u8) -> (r: Result<(), YargeError>)
    requires
        old(cpu)@.wf(),
        old(cpu)@.has_time(24),
        0x80 <= instr <= 0x8F,
    ensures
        (final(cpu)@, r) == execute_spec(old(cpu)@, instr),
        final(cpu)@.wf(),
        final(cpu)@.t >= old(cpu)@.t,
{
    match instr {
        0x80 => {
            alu_a_r(cpu, AluOp::Add, Reg8::B);
            Ok(())
        },
        0x81 => {
            alu_a_r(cpu, AluOp::Add, Reg8::C);
            Ok(())
        },
        0x82 => {
            alu_a_r(cpu, AluOp::Add, Reg8::D);
            Ok(())
        },
        0x83 => {
            alu_a_r(cpu, AluOp::Add, Reg8::E);
            Ok(())
        },
        0x84 => {
            alu_a_r(cpu, AluOp::Add, Reg8::H);
            Ok(())
        },
        0x85 => {
            alu_a_r(cpu, AluOp::Add, Reg8::L);
            Ok(())
        },
        0x86 => {
            alu_a_mhl(cpu, AluOp::Add);
            Ok(())
        },
        0x87 => {
            alu_a_r(cpu, AluOp::Add, Reg8::A);
            Ok(())
        },
        0x88 => {
            alu_a_r(cpu, AluOp::Adc, Reg8::B);
            Ok(())
        },
        0x89 => {
            alu_a_r(cpu, AluOp::Adc, Reg8::C);
            Ok(())
        },
        0x8A => {
            alu_a_r(cpu, AluOp::Adc, Reg8::D);
            Ok(())
        },
        0x8B => {
            alu_a_r(cpu, AluOp::Adc, Reg8::E);
            Ok(())
        },
        0x8C => {
            alu_a_r(cpu, AluOp::Adc, Reg8::H);
            Ok(())
        },
        0x8D => {
            alu_a_r(cpu, AluOp::Adc, Reg8::L);
            Ok(())
        },
        0x8E => {
            alu_a_mhl(cpu, AluOp::Adc);
            Ok(())
        },
        0x8F => {
            alu_a_r(cpu, AluOp::Adc, Reg8::A);
            Ok(())
        },
        _ => unreached(),
    }
}

#[verifier::rlimit(60)]
fn cpu_instructions_9(cpu: &mut Cpu, instr: u8) -> (r: Result<(), YargeError>)
    requires
        old(cpu)@.wf(),
        old(cpu)@.has_time(24),
        0x90 <= instr <= 0x9F,
    ensures
        (final(cpu)@, r) == execute_spec(old(cpu)@, instr),
        final(cpu)@.wf(),
        final(cpu)@.t >= old(cpu)@.t,
{
    match instr {
        0x90 => {
            alu_a_r(cpu, AluOp::Sub, Reg8::B);
            Ok(())
        },
        0x91 => {
            alu_a_r(cpu, AluOp::Sub, Reg8::C);
            Ok(())
        },
        0x92 => {
            alu_a_r(cpu, AluOp::Sub, Reg8::D);
            Ok(())
        },
        0x93 => {
            alu_a_r(cpu, AluOp::Sub, Reg8::E);
            Ok(())
        },
        0x94 => {
            alu_a_r(cpu, AluOp::Sub, Reg8::H);
            Ok(())
        },
        0x95 => {
            alu_a_r(cpu, AluOp::Sub, Reg8::L);
            Ok(())
        },
        0x96 => {
            alu_a_mhl(cpu, AluOp::Sub);
            Ok(())
        },
        0x97 => {
            alu_a_r(cpu, AluOp::Sub, Reg8::A);
            Ok(())
        },
        0x98 => {
            alu_a_r(cpu, AluOp::Sbc, Reg8::B);
            Ok(())
        },
        0x99 => {
            alu_a_r(cpu, AluOp::Sbc, Reg8::C);
            Ok(())
        },
        0x9A => {
            alu_a_r(cpu, AluOp::Sbc, Reg8::D);
            Ok(())
        },
        0x9B => {
            alu_a_r(cpu, AluOp::Sbc, Reg8::E);
            Ok(())
        },
        0x9C => {
            alu_a_r(cpu, AluOp::Sbc, Reg8::H);
            Ok(())
        },
        0x9D => {
            alu_a_r(cpu, AluOp::Sbc, Reg8::L);
            Ok(())
        },
        0x9E => {
            alu_a_mhl(cpu, AluOp::Sbc);
            Ok(())
        },
        0x9F => {
            alu_a_r(cpu, AluOp::Sbc, Reg8::A);
            Ok(())
        },
        _ => unreached(),
    }
}

#[verifier::rlimit(60)]
fn cpu_instructions_a(cpu: &mut Cpu, instr: u8) -> (r: Result<(), YargeError>)
    requires
        old(cpu)@.wf(),
        old(cpu)@.has_time(24),
        0xA0 <= instr <= 0xAF,
    ensures
        (final(cpu)@, r) == execute_spec(old(cpu)@, instr),
        final(cpu)@.wf(),
        final(cpu)@.t >= old(cpu)@.t,
{
    match instr {
        0xA0 => {
            alu_a_r(cpu, AluOp::And, Reg8::B);
            Ok(())
        },
        0xA1 => {
            alu_a_r(cpu, AluOp::And, Reg8::C);
            Ok(())
        },
        0xA2 => {
            alu_a_r(cpu, AluOp::And, Reg8::D);
            Ok(())
        },
        0xA3 => {
            alu_a_r(cpu, AluOp::And, Reg8::E);
            Ok(())
        },
        0xA4 => {
            alu_a_r(cpu, AluOp::And, Reg8::H);
            Ok(())
        },
        0xA5 => {
            alu_a_r(cpu, AluOp::And, Reg8::L);
            Ok(())
        },
        0xA6 => {
            alu_a_mhl(cpu, AluOp::And);
            Ok(())
        },
        0xA7 => {
            alu_a_r(cpu, AluOp::And, Reg8::A);
            Ok(())
        },
        0xA8 => {
            alu_a_r(cpu, AluOp::Xor, Reg8::B);
            Ok(())
        },
        0xA9 => {
            alu_a_r(cpu, AluOp::Xor, Reg8::C);
            Ok(())
        },
        0xAA => {
            alu_a_r(cpu, AluOp::Xor, Reg8::D);
            Ok(())
        },
        0xAB => {
            alu_a_r(cpu, AluOp::Xor, Reg8::E);
            Ok(())
        },
        0xAC => {
            alu_a_r(cpu, AluOp::Xor, Reg8::H);
            Ok(())
        },
        0xAD => {
            alu_a_r(cpu, AluOp::Xor, Reg8::L);
            Ok(())
        },
        0xAE => {
            alu_a_mhl(cpu, AluOp::Xor);
            Ok(())
        },
        0xAF => {
            alu_a_r(cpu, AluOp::Xor, Reg8::A);
            Ok(())
        },
        _ => unreached(),
    }
}

#[verifier::rlimit(60)]
fn cpu_instructions_b(cpu: &mut Cpu, instr: u8) -> (r: Result<(), YargeError>)
    requires
        old(cpu)@.wf(),
        old(cpu)@.has_time(24),
        0xB0 <= instr <= 0xBF,
    ensures
        (final(cpu)@, r) == execute_spec(old(cpu)@, instr),
        final(cpu)@.wf(),
        final(cpu)@.t >= old(cpu)@.t,
{
    match instr {
        0xB0 => {
            alu_a_r(cpu, AluOp::Or, Reg8::B);
            Ok(())
        },
        0xB1 => {
            alu_a_r(cpu, AluOp::Or, Reg8::C);
            Ok(())
        },
        0xB2 => {
            alu_a_r(cpu, AluOp::Or, Reg8::D);
            Ok(())
        },
        0xB3 => {
            alu_a_r(cpu, AluOp::Or, Reg8::E);
            Ok(())
        },
        0xB4 => {
            alu_a_r(cpu, AluOp::Or, Reg8::H);
            Ok(())
        },
        0xB5 => {
            alu_a_r(cpu, AluOp::Or, Reg8::L);
            Ok(())
        },
        0xB6 => {
            alu_a_mhl(cpu, AluOp::Or);
            Ok(())
        },
        0xB7 => {
            alu_a_r(cpu, AluOp::Or, Reg8::A);
            Ok(())
        },
        0xB8 => {
            alu_a_r(cpu, AluOp::Cp, Reg8::B);
            Ok(())
        },
        0xB9 => {
            alu_a_r(cpu, AluOp::Cp, Reg8::C);
            Ok(())
        },
        0xBA => {
            alu_a_r(cpu, AluOp::Cp, Reg8::D);
            Ok(())
        },
        0xBB => {
            alu_a_r(cpu, AluOp::Cp, Reg8::E);
            Ok(())
        },
        0xBC => {
            alu_a_r(cpu, AluOp::Cp, Reg8::H);
            Ok(())
        },
        0xBD => {
            alu_a_r(cpu, AluOp::Cp, Reg8::L);
            Ok(())
        },
        0xBE => {
            alu_a_mhl(cpu, AluOp::Cp);
            Ok(())
        },
        0xBF => {
            alu_a_r(cpu, AluOp::Cp, Reg8::A);
            Ok(())
        },
        _ => unreached(),
    }
}

#[verifier::rlimit(60)]
fn cpu_instructions_c(cpu: &mut Cpu, instr: u8) -> (r: Result<(), YargeError>)
    requires
        old(cpu)@.wf(),
        old(cpu)@.has_time(24),
        0xC0 <= instr <= 0xCF,
    ensures
        (final(cpu)@, r) == execute_spec(old(cpu)@, instr),
        final(cpu)@.wf(),
        final(cpu)@.t >= old(cpu)@.t,
{
    match instr {
        0xC0 => {
            ret_cond(cpu, Cond::NZ);
            Ok(())
        },
        0xC1 => {
            pop_rr(cpu, Reg16::BC);
            Ok(())
        },
        0xC2 => {
            cond_jp_u16(cpu, Cond::NZ);
            Ok(())
        },
        0xC3 => {
            jp_u16(cpu);
            Ok(())
        },
        0xC4 => {
            call_u16_cond(cpu, Cond::NZ);
            Ok(())
        },
        0xC5 => {
            push_rr(cpu, Reg16::BC);
            Ok(())
        },
        0xC6 => {
            alu_a_u8(cpu, AluOp::Add);
            Ok(())
        },
        0xC7 => {
            rst(cpu, 0x00);
            Ok(())
        },
        0xC8 => {
            ret_cond(cpu, Cond::Z);
            Ok(())
        },
        0xC9 => {
            ret(cpu);
            Ok(())
        },
        0xCA => {
            cond_jp_u16(cpu, Cond::Z);
            Ok(())
        },
        0xCC => {
            call_u16_cond(cpu, Cond::Z);
            Ok(())
        },
        0xCD => {
            call_u16(cpu);
            Ok(())
        },
        0xCE => {
            alu_a_u8(cpu, AluOp::Adc);
            Ok(())
        },
        0xCF => {
            rst(cpu, 0x08);
            Ok(())
        },
        _ => Err(YargeError::InvalidInstruction { addr: cpu.reg.pc.wrapping_sub(1), instr }),
    }
}

#[verifier::rlimit(60)]
fn cpu_instructions_d(cpu: &mut Cpu, instr: u8) -> (r: Result<(), YargeError>)
    requires
        old(cpu)@.wf(),
        old(cpu)@.has_time(24),
        0xD0 <= instr <= 0xDF,
    ensures
        (final(cpu)@, r) == execute_spec(old(cpu)@, instr),
        final(cpu)@.wf(),
        final(cpu)@.t >= old(cpu)@.t,
{
    match instr {
        0xD0 => {
            ret_cond(cpu, Cond::NC);
            Ok(())
        },
        0xD1 => {
            pop_rr(cpu, Reg16::DE);
            Ok(())
        },
        0xD2 => {
            cond_jp_u16(cpu, Cond::NC);
            Ok(())
        },
        0xD4 => {
            call_u16_cond(cpu, Cond::NC);
            Ok(())
        },
        0xD5 => {
            push_rr(cpu, Reg16::DE);
            Ok(())
        },
        0xD6 => {
            alu_a_u8(cpu, AluOp::Sub);
            Ok(())
        },
        0xD7 => {
            rst(cpu, 0x10);
            Ok(())
        },
        0xD8 => {
            ret_cond(cpu, Cond::C);
            Ok(())
        },
        0xD9 => {
            reti(cpu);
            Ok(())
        },
        0xDA => {
            cond_jp_u16(cpu, Cond::C);
            Ok(())
        },
        0xDC => {
            call_u16_cond(cpu, Cond::C);
            Ok(())
        },
        0xDE => {
            alu_a_u8(cpu, AluOp::Sbc);
            Ok(())
        },
        0xDF => {
            rst(cpu, 0x18);
            Ok(())
        },
        _ => Err(YargeError::InvalidInstruction { addr: cpu.reg.pc.wrapping_sub(1), instr }),
    }
}

#[verifier::rlimit(60)]
fn cpu_instructions_e(cpu: &mut Cpu, instr: u8) -> (r: Result<(), YargeError>)
    requires
        old(cpu)@.wf(),
        old(cpu)@.has_time(24),
        0xE0 <= instr <= 0xEF,
    ensures
        (final(cpu)@, r) == execute_spec(old(cpu)@, instr),
        final(cpu)@.wf(),
        final(cpu)@.t >= old(cpu)@.t,
{
    match instr {
        0xE0 => {
            ld_m_ff00_add_u8_a(cpu);
            Ok(())
        },
        0xE1 => {
            pop_rr(cpu, Reg16::HL);
            Ok(())
        },
        0xE2 => {
            ld_m_ff00_add_c_a(cpu);
            Ok(())
        },
        0xE5 => {
            push_rr(cpu, Reg16::HL);
            Ok(())
        },
        0xE6 => {
            alu_a_u8(cpu, AluOp::And);
            Ok(())
        },
        0xE7 => {
            rst(cpu, 0x20);
            Ok(())
        },
        0xE8 => {
            add_sp_i8(cpu);
            Ok(())
        },
        0xE9 => {
            jp_hl(cpu);
            Ok(())
        },
        0xEA => {
            ld_mu16_a(cpu);
            Ok(())
        },
        0xEE => {
            alu_a_u8(cpu, AluOp::Xor);
            Ok(())
        },
        0xEF => {
            rst(cpu, 0x28);
            Ok(())
        },
        _ => Err(YargeError::InvalidInstruction { addr: cpu.reg.pc.wrapping_sub(1), instr }),
    }
}

#[verifier::rlimit(60)]
fn cpu_instructions_f(cpu: &mut Cpu, instr: u8) -> (r: Result<(), YargeError>)
    requires
        old(cpu)@.wf(),
        old(cpu)@.has_time(24),
        0xF0 <= instr <= 0xFF,
    ensures
        (final(cpu)@, r) == execute_spec(old(cpu)@, instr),
        final(cpu)@.wf(),
        final(cpu)@.t >= old(cpu)@.t,
{
    match instr {
        0xF0 => {
            ld_a_m_ff00_add_u8(cpu);
            Ok(())
        },
        0xF1 => {
            pop_rr(cpu, Reg16::AF);
            Ok(())
        },
        0xF2 => {
            ld_a_m_ff00_add_c(cpu);
            Ok(())
        },
        0xF3 => {
            di(cpu);
            Ok(())
        },
        0xF5 => {
            push_rr(cpu, Reg16::AF);
            Ok(())
        },
        0xF6 => {
            alu_a_u8(cpu, AluOp::Or);
            Ok(())
        },
        0xF7 => {
            rst(cpu, 0x30);
            Ok(())
        },
        0xF8 => {
            ld_hl_sp_i8(cpu);
            Ok(())
        },
        0xF9 => {
            ld_sp_hl(cpu);
            Ok(())
        },
        0xFA => {
            ld_a_mu16(cpu);
            Ok(())
        },
        0xFB => {
            ei(cpu);
            Ok(())
        },
        0xFE => {
            alu_a_u8(cpu, AluOp::Cp);
            Ok(())
        },
        0xFF => {
            rst(cpu, 0x38);
            Ok(())
        },
        _ => Err(YargeError::InvalidInstruction { addr: cpu.reg.pc.wrapping_sub(1), instr }),
    }
}

/// Executes a CB-prefixed opcode whose second byte has just been fetched.
/// The opcode table is split in rows of sixteen.
pub fn cpu_instructions_cb(cpu: &mut Cpu, instr: u8) -> (r: Result<(), YargeError>)
    requires
        old(cpu)@.wf(),
        old(cpu)@.has_time(24),
    ensures
        (final(cpu)@, r) == execute_cb_spec(old(cpu)@, instr),
        final(cpu)@.wf(),
        final(cpu)@.t >= old(cpu)@.t,
{
    match instr / 16 {
        0 => cpu_instructions_cb_0(cpu, instr),
        1 => cpu_instructions_cb_1(cpu, instr),
        2 => cpu_instructions_cb_2(cpu, instr),
        3 => cpu_instructions_cb_3(cpu, instr),
        4 => cpu_instructions_cb_4(cpu, instr),
        5 => cpu_instructions_cb_5(cpu, instr),
        6 => cpu_instructions_cb_6(cpu, instr),
        7 => cpu_instructions_cb_7(cpu, instr),
        8 => cpu_instructions_cb_8(cpu, instr),
        9 => cpu_instructions_cb_9(cpu, instr),
        10 => cpu_instructions_cb_a(cpu, instr),
        11 => cpu_instructions_cb_b(cpu, instr),
        12 => cpu_instructions_cb_c(cpu, instr),
        13 => cpu_instructions_cb_d(cpu, instr),
        14 => cpu_instructions_cb_e(cpu, instr),
        _ => cpu_instructions_cb_f(cpu, instr),
    }
}

fn cpu_instructions_cb_0(cpu: &mut Cpu, instr: u8) -> (r: Result<(), YargeError>)
    requires
        old(cpu)@.wf(),
        old(cpu)@.has_time(24),
        0x00 <= instr <= 0x0F,
    ensures
        (final(cpu)@, r) == execute_cb_spec(old(cpu)@, instr),
        final(cpu)@.wf(),
        final(cpu)@.t >= old(cpu)@.t,
{
    match instr {
        0x00 => {
            rot_r(cpu, RotOp::Rlc, Reg8::B);
            Ok(())
        },
        0x01 => {
            rot_r(cpu, RotOp::Rlc, Reg8::C);
            Ok(())
        },
        0x02 => {
            rot_r(cpu, RotOp::Rlc, Reg8::D);
            Ok(())
        },
        0x03 => {
            rot_r(cpu, RotOp::Rlc, Reg8::E);
            Ok(())
        },
        0x04 => {
            rot_r(cpu, RotOp::Rlc, Reg8::H);
            Ok(())
        },
        0x05 => {
            rot_r(cpu, RotOp::Rlc, Reg8::L);
            Ok(())
        },
        0x06 => {
            rot_mhl(cpu, RotOp::Rlc);
            Ok(())
        },
        0x07 => {
            rot_r(cpu, RotOp::Rlc, Reg8::A);
            Ok(())
        },
        0x08 => {
            rot_r(cpu, RotOp::Rrc, Reg8::B);
            Ok(())
        },
        0x09 => {
            rot_r(cpu, RotOp::Rrc, Reg8::C);
            Ok(())
        },
        0x0A => {
            rot_r(cpu, RotOp::Rrc, Reg8::D);
            Ok(())
        },
        0x0B => {
            rot_r(cpu, RotOp::Rrc, Reg8::E);
            Ok(())
        },
        0x0C => {
            rot_r(cpu, RotOp::Rrc, Reg8::H);
            Ok(())
        },
        0x0D => {
            rot_r(cpu, RotOp::Rrc, Reg8::L);
            Ok(())
        },
        0x0E => {
            rot_mhl(cpu, RotOp::Rrc);
            Ok(())
        },
        0x0F => {
            rot_r(cpu, RotOp::Rrc, Reg8::A);
            Ok(())
        },
        _ => unreached(),
    }
}

fn cpu_instructions_cb_1(cpu: &mut Cpu, instr: u8) -> (r: Result<(), YargeError>)
    requires
        old(cpu)@.wf(),
        old(cpu)@.has_time(24),
        0x10 <= instr <= 0x1F,
    ensures
        (final(cpu)@, r) == execute_cb_spec(old(cpu)@, instr),
        final(cpu)@.wf(),
        final(cpu)@.t >= old(cpu)@.t,
{
    match instr {
        0x10 => {
            rot_r(cpu, RotOp::Rl, Reg8::B);
            Ok(())
        },
        0x11 => {
            rot_r(cpu, RotOp::Rl, Reg8::C);
            Ok(())
        },
        0x12 => {
            rot_r(cpu, RotOp::Rl, Reg8::D);
            Ok(())
        },
        0x13 => {
            rot_r(cpu, RotOp::Rl, Reg8::E);
            Ok(())
        },
        0x14 => {
            rot_r(cpu, RotOp::Rl, Reg8::H);
            Ok(())
        },
        0x15 => {
            rot_r(cpu, RotOp::Rl, Reg8::L);
            Ok(())
        },
        0x16 => {
            rot_mhl(cpu, RotOp::Rl);
            Ok(())
        },
        0x17 => {
            rot_r(cpu, RotOp::Rl, Reg8::A);
            Ok(())
        },
        0x18 => {
            rot_r(cpu, RotOp::Rr, Reg8::B);
            Ok(())
        },
        0x19 => {
            rot_r(cpu, RotOp::Rr, Reg8::C);
            Ok(())
        },
        0x1A => {
            rot_r(cpu, RotOp::Rr, Reg8::D);
            Ok(())
        },
        0x1B => {
            rot_r(cpu, RotOp::Rr, Reg8::E);
            Ok(())
        },
        0x1C => {
            rot_r(cpu, RotOp::Rr, Reg8::H);
            Ok(())
        },
        0x1D => {
            rot_r(cpu, RotOp::Rr, Reg8::L);
            Ok(())
        },
        0x1E => {
            rot_mhl(cpu, RotOp::Rr);
            Ok(())
        },
        0x1F => {
            rot_r(cpu, RotOp::Rr, Reg8::A);
            Ok(())
        },
        _ => unreached(),
    }
}

fn cpu_instructions_cb_2(cpu: &mut Cpu, instr: u8) -> (r: Result<(), YargeError>)
    requires
        old(cpu)@.wf(),
        old(cpu)@.has_time(24),
        0x20 <= instr <= 0x2F,
    ensures
        (final(cpu)@, r) == execute_cb_spec(old(cpu)@, instr),
        final(cpu)@.wf(),
        final(cpu)@.t >= old(cpu)@.t,
{
    match instr {
        0x20 => {
            rot_r(cpu, RotOp::Sla, Reg8::B);
            Ok(())
        },
        0x21 => {
            rot_r(cpu, RotOp::Sla, Reg8::C);
            Ok(())
        },
        0x22 => {
            rot_r(cpu, RotOp::Sla, Reg8::D);
            Ok(())
        },
        0x23 => {
            rot_r(cpu, RotOp::Sla, Reg8::E);
            Ok(())
        },
        0x24 => {
            rot_r(cpu, RotOp::Sla, Reg8::H);
            Ok(())
        },
        0x25 => {
            rot_r(cpu, RotOp::Sla, Reg8::L);
            Ok(())
        },
        0x26 => {
            rot_mhl(cpu, RotOp::Sla);
            Ok(())
        },
        0x27 => {
            rot_r(cpu, RotOp::Sla, Reg8::A);
            Ok(())
        },
        0x28 => {
            rot_r(cpu, RotOp::Sra, Reg8::B);
            Ok(())
        },
        0x29 => {
            rot_r(cpu, RotOp::Sra, Reg8::C);
            Ok(())
        },
        0x2A => {
            rot_r(cpu, RotOp::Sra, Reg8::D);
            Ok(())
        },
        0x2B => {
            rot_r(cpu, RotOp::Sra, Reg8::E);
            Ok(())
        },
        0x2C => {
            rot_r(cpu, RotOp::Sra, Reg8::H);
            Ok(())
        },
        0x2D => {
            rot_r(cpu, RotOp::Sra, Reg8::L);
            Ok(())
        },
        0x2E => {
            rot_mhl(cpu, RotOp::Sra);
            Ok(())
        },
        0x2F => {
            rot_r(cpu, RotOp::Sra, Reg8::A);
            Ok(())
        },
        _ => unreached(),
    }
}

fn cpu_instructions_cb_3(cpu: &mut Cpu, instr: u8) -> (r: Result<(), YargeError>)
    requires
        old(cpu)@.wf(),
        old(cpu)@.has_time(24),
        0x30 <= instr <= 0x3F,
    ensures
        (final(cpu)@, r) == execute_cb_spec(old(cpu)@, instr),
        final(cpu)@.wf(),
        final(cpu)@.t >= old(cpu)@.t,
{
    match instr {
        0x30 => {
            rot_r(cpu, RotOp::Swap, Reg8::B);
            Ok(())
        },
        0x31 => {
            rot_r(cpu, RotOp::Swap, Reg8::C);
            Ok(())
        },
        0x32 => {
            rot_r(cpu, RotOp::Swap, Reg8::D);
            Ok(())
        },
        0x33 => {
            rot_r(cpu, RotOp::Swap, Reg8::E);
            Ok(())
        },
        0x34 => {
            rot_r(cpu, RotOp::Swap, Reg8::H);
            Ok(())
        },
        0x35 => {
            rot_r(cpu, RotOp::Swap, Reg8::L);
            Ok(())
        },
        0x36 => {
            rot_mhl(cpu, RotOp::Swap);
            Ok(())
        },
        0x37 => {
            rot_r(cpu, RotOp::Swap, Reg8::A);
            Ok(())
        },
        0x38 => {
            rot_r(cpu, RotOp::Srl, Reg8::B);
            Ok(())
        },
        0x39 => {
            rot_r(cpu, RotOp::Srl, Reg8::C);
            Ok(())
        },
        0x3A => {
            rot_r(cpu, RotOp::Srl, Reg8::D);
            Ok(())
        },
        0x3B => {
            rot_r(cpu, RotOp::Srl, Reg8::E);
            Ok(())
        },
        0x3C => {
            rot_r(cpu, RotOp::Srl, Reg8::H);
            Ok(())
        },
        0x3D => {
            rot_r(cpu, RotOp::Srl, Reg8::L);
            Ok(())
        },
        0x3E => {
            rot_mhl(cpu, RotOp::Srl);
            Ok(())
        },
        0x3F => {
            rot_r(cpu, RotOp::Srl, Reg8::A);
            Ok(())
        },
        _ => unreached(),
    }
}

fn cpu_instructions_cb_4(cpu: &mut Cpu, instr: u8) -> (r: Result<(), YargeError>)
    requires
        old(cpu)@.wf(),
        old(cpu)@.has_time(24),
        0x40 <= instr <= 0x4F,
    ensures
        (final(cpu)@, r) == execute_cb_spec(old(cpu)@, instr),
        final(cpu)@.wf(),
        final(cpu)@.t >= old(cpu)@.t,
{
    match instr {
        0x40 => {
            bit_r(cpu, 0, Reg8::B);
            Ok(())
        },
        0x41 => {
            bit_r(cpu, 0, Reg8::C);
            Ok(())
        },
        0x42 => {
            bit_r(cpu, 0, Reg8::D);
            Ok(())
        },
        0x43 => {
            bit_r(cpu, 0, Reg8::E);
            Ok(())
        },
        0x44 => {
            bit_r(cpu, 0, Reg8::H);
            Ok(())
        },
        0x45 => {
            bit_r(cpu, 0, Reg8::L);
            Ok(())
        },
        0x46 => {
            bit_mhl(cpu, 0);
            Ok(())
        },
        0x47 => {
            bit_r(cpu, 0, Reg8::A);
            Ok(())
        },
        0x48 => {
            bit_r(cpu, 1, Reg8::B);
            Ok(())
        },
        0x49 => {
            bit_r(cpu, 1, Reg8::C);
            Ok(())
        },
        0x4A => {
            bit_r(cpu, 1, Reg8::D);
            Ok(())
        },
        0x4B => {
            bit_r(cpu, 1, Reg8::E);
            Ok(())
        },
        0x4C => {
            bit_r(cpu, 1, Reg8::H);
            Ok(())
        },
        0x4D => {
            bit_r(cpu, 1, Reg8::L);
            Ok(())
        },
        0x4E => {
            bit_mhl(cpu, 1);
            Ok(())
        },
        0x4F => {
            bit_r(cpu, 1, Reg8::A);
            Ok(())
        },
        _ => unreached(),
    }
}

fn cpu_instructions_cb_5(cpu: &mut Cpu, instr: u8) -> (r: Result<(), YargeError>)
    requires
        old(cpu)@.wf(),
        old(cpu)@.has_time(24),
        0x50 <= instr <= 0x5F,
    ensures
        (final(cpu)@, r) == execute_cb_spec(old(cpu)@, instr),
        final(cpu)@.wf(),
        final(cpu)@.t >= old(cpu)@.t,
{
    match instr {
        0x50 => {
            bit_r(cpu, 2, Reg8::B);
            Ok(())
        },
        0x51 => {
            bit_r(cpu, 2, Reg8::C);
            Ok(())
        },
        0x52 => {
            bit_r(cpu, 2, Reg8::D);
            Ok(())
        },
        0x53 => {
            bit_r(cpu, 2, Reg8::E);
            Ok(())
        },
        0x54 => {
            bit_r(cpu, 2, Reg8::H);
            Ok(())
        },
        0x55 => {
            bit_r(cpu, 2, Reg8::L);
            Ok(())
        },
        0x56 => {
            bit_mhl(cpu, 2);
            Ok(())
        },
        0x57 => {
            bit_r(cpu, 2, Reg8::A);
            Ok(())
        },
        0x58 => {
            bit_r(cpu, 3, Reg8::B);
            Ok(())
        },
        0x59 => {
            bit_r(cpu, 3, Reg8::C);
            Ok(())
        },
        0x5A => {
            bit_r(cpu, 3, Reg8::D);
            Ok(())
        },
        0x5B => {
            bit_r(cpu, 3, Reg8::E);
            Ok(())
        },
        0x5C => {
            bit_r(cpu, 3, Reg8::H);
            Ok(())
        },
        0x5D => {
            bit_r(cpu, 3, Reg8::L);
            Ok(())
        },
        0x5E => {
            bit_mhl(cpu, 3);
            Ok(())
        },
        0x5F => {
            bit_r(cpu, 3, Reg8::A);
            Ok(())
        },
        _ => unreached(),
    }
}

fn cpu_instructions_cb_6(cpu: &mut Cpu, instr: u8) -> (r: Result<(), YargeError>)
    requires
        old(cpu)@.wf(),
        old(cpu)@.has_time(24),
        0x60 <= instr <= 0x6F,
    ensures
        (final(cpu)@, r) == execute_cb_spec(old(cpu)@, instr),
        final(cpu)@.wf(),
        final(cpu)@.t >= old(cpu)@.t,
{
    match instr {
        0x60 => {
            bit_r(cpu, 4, Reg8::B);
            Ok(())
        },
        0x61 => {
            bit_r(cpu, 4, Reg8::C);
            Ok(())
        },
        0x62 => {
            bit_r(cpu, 4, Reg8::D);
            Ok(())
        },
        0x63 => {
            bit_r(cpu, 4, Reg8::E);
            Ok(())
        },
        0x64 => {
            bit_r(cpu, 4, Reg8::H);
            Ok(())
        },
        0x65 => {
            bit_r(cpu, 4, Reg8::L);
            Ok(())
        },
        0x66 => {
            bit_mhl(cpu, 4);
            Ok(())
        },
        0x67 => {
            bit_r(cpu, 4, Reg8::A);
            Ok(())
        },
        0x68 => {
            bit_r(cpu, 5, Reg8::B);
            Ok(())
        },
        0x69 => {
            bit_r(cpu, 5, Reg8::C);
            Ok(())
        },
        0x6A => {
            bit_r(cpu, 5, Reg8::D);
            Ok(())
        },
        0x6B => {
            bit_r(cpu, 5, Reg8::E);
            Ok(())
        },
        0x6C => {
            bit_r(cpu, 5, Reg8::H);
            Ok(())
        },
        0x6D => {
            bit_r(cpu, 5, Reg8::L);
            Ok(())
        },
        0x6E => {
            bit_mhl(cpu, 5);
            Ok(())
        },
        0x6F => {
            bit_r(cpu, 5, Reg8::A);
            Ok(())
        },
        _ => unreached(),
    }
}

fn cpu_instructions_cb_7(cpu: &mut Cpu, instr: u8) -> (r: Result<(), YargeError>)
    requires
        old(cpu)@.wf(),
        old(cpu)@.has_time(24),
        0x70 <= instr <= 0x7F,
    ensures
        (final(cpu)@, r) == execute_cb_spec(old(cpu)@, instr),
        final(cpu)@.wf(),
        final(cpu)@.t >= old(cpu)@.t,
{
    match instr {
        0x70 => {
            bit_r(cpu, 6, Reg8::B);
            Ok(())
        },
        0x71 => {
            bit_r(cpu, 6, Reg8::C);
            Ok(())
        },
        0x72 => {
            bit_r(cpu, 6, Reg8::D);
            Ok(())
        },
        0x73 => {
            bit_r(cpu, 6, Reg8::E);
            Ok(())
        },
        0x74 => {
            bit_r(cpu, 6, Reg8::H);
            Ok(())
        },
        0x75 => {
            bit_r(cpu, 6, Reg8::L);
            Ok(())
        },
        0x76 => {
            bit_mhl(cpu, 6);
            Ok(())
        },
        0x77 => {
            bit_r(cpu, 6, Reg8::A);
            Ok(())
        },
        0x78 => {
            bit_r(cpu, 7, Reg8::B);
            Ok(())
        },
        0x79 => {
            bit_r(cpu, 7, Reg8::C);
            Ok(())
        },
        0x7A => {
            bit_r(cpu, 7, Reg8::D);
            Ok(())
        },
        0x7B => {
            bit_r(cpu, 7, Reg8::E);
            Ok(())
        },
        0x7C => {
            bit_r(cpu, 7, Reg8::H);
            Ok(())
        },
        0x7D => {
            bit_r(cpu, 7, Reg8::L);
            Ok(())
        },
        0x7E => {
            bit_mhl(cpu, 7);
            Ok(())
        },
        0x7F => {
            bit_r(cpu, 7, Reg8::A);
            Ok(())
        },
        _ => unreached(),
    }
}

fn cpu_instructions_cb_8(cpu: &mut Cpu, instr: u8) -> (r: Result<(), YargeError>)
    requires
        old(cpu)@.wf(),
        old(cpu)@.has_time(24),
        0x80 <= instr <= 0x8F,
    ensures
        (final(cpu)@, r) == execute_cb_spec(old(cpu)@, instr),
        final(cpu)@.wf(),
        final(cpu)@.t >= old(cpu)@.t,
{
    match instr {
        0x80 => {
            setres_r(cpu, 0, Reg8::B, false);
            Ok(())
        },
        0x81 => {
            setres_r(cpu, 0, Reg8::C, false);
            Ok(())
        },
        0x82 => {
            setres_r(cpu, 0, Reg8::D, false);
            Ok(())
        },
        0x83 => {
            setres_r(cpu, 0, Reg8::E, false);
            Ok(())
        },
        0x84 => {
            setres_r(cpu, 0, Reg8::H, false);
            Ok(())
        },
        0x85 => {
            setres_r(cpu, 0, Reg8::L, false);
            Ok(())
        },
        0x86 => {
            setres_mhl(cpu, 0, false);
            Ok(())
        },
        0x87 => {
            setres_r(cpu, 0, Reg8::A, false);
            Ok(())
        },
        0x88 => {
            setres_r(cpu, 1, Reg8::B, false);
            Ok(())
        },
        0x89 => {
            setres_r(cpu, 1, Reg8::C, false);
            Ok(())
        },
        0x8A => {
            setres_r(cpu, 1, Reg8::D, false);
            Ok(())
        },
        0x8B => {
            setres_r(cpu, 1, Reg8::E, false);
            Ok(())
        },
        0x8C => {
            setres_r(cpu, 1, Reg8::H, false);
            Ok(())
        },
        0x8D => {
            setres_r(cpu, 1, Reg8::L, false);
            Ok(())
        },
        0x8E => {
            setres_mhl(cpu, 1, false);
            Ok(())
        },
        0x8F => {
            setres_r(cpu, 1, Reg8::A, false);
            Ok(())
        },
        _ => unreached(),
    }
}

fn cpu_instructions_cb_9(cpu: &mut Cpu, instr: u8) -> (r: Result<(), YargeError>)
    requires
        old(cpu)@.wf(),
        old(cpu)@.has_time(24),
        0x90 <= instr <= 0x9F,
    ensures
        (final(cpu)@, r) == execute_cb_spec(old(cpu)@, instr),
        final(cpu)@.wf(),
        final(cpu)@.t >= old(cpu)@.t,
{
    match instr {
        0x90 => {
            setres_r(cpu, 2, Reg8::B, false);
            Ok(())
        },
        0x91 => {
            setres_r(cpu, 2, Reg8::C, false);
            Ok(())
        },
        0x92 => {
            setres_r(cpu, 2, Reg8::D, false);
            Ok(())
        },
        0x93 => {
            setres_r(cpu, 2, Reg8::E, false);
            Ok(())
        },
        0x94 => {
            setres_r(cpu, 2, Reg8::H, false);
            Ok(())
        },
        0x95 => {
            setres_r(cpu, 2, Reg8::L, false);
            Ok(())
        },
        0x96 => {
            setres_mhl(cpu, 2, false);
            Ok(())
        },
        0x97 => {
            setres_r(cpu, 2, Reg8::A, false);
            Ok(())
        },
        0x98 => {
            setres_r(cpu, 3, Reg8::B, false);
            Ok(())
        },
        0x99 => {
            setres_r(cpu, 3, Reg8::C, false);
            Ok(())
        },
        0x9A => {
            setres_r(cpu, 3, Reg8::D, false);
            Ok(())
        },
        0x9B => {
            setres_r(cpu, 3, Reg8::E, false);
            Ok(())
        },
        0x9C => {
            setres_r(cpu, 3, Reg8::H, false);
            Ok(())
        },
        0x9D => {
            setres_r(cpu, 3, Reg8::L, false);
            Ok(())
        },
        0x9E => {
            setres_mhl(cpu, 3, false);
            Ok(())
        },
        0x9F => {
            setres_r(cpu, 3, Reg8::A, false);
            Ok(())
        },
        _ => unreached(),
    }
}

fn cpu_instructions_cb_a(cpu: &mut Cpu, instr: u8) -> (r: Result<(), YargeError>)
    requires
        old(cpu)@.wf(),
        old(cpu)@.has_time(24),
        0xA0 <= instr <= 0xAF,
    ensures
        (final(cpu)@, r) == execute_cb_spec(old(cpu)@, instr),
        final(cpu)@.wf(),
        final(cpu)@.t >= old(cpu)@.t,
{
    match instr {
        0xA0 => {
            setres_r(cpu, 4, Reg8::B, false);
            Ok(())
        },
        0xA1 => {
            setres_r(cpu, 4, Reg8::C, false);
            Ok(())
        },
        0xA2 => {
            setres_r(cpu, 4, Reg8::D, false);
            Ok(())
        },
        0xA3 => {
            setres_r(cpu, 4, Reg8::E, false);
            Ok(())
        },
        0xA4 => {
            setres_r(cpu, 4, Reg8::H, false);
            Ok(())
        },
        0xA5 => {
            setres_r(cpu, 4, Reg8::L, false);
            Ok(())
        },
        0xA6 => {
            setres_mhl(cpu, 4, false);
            Ok(())
        },
        0xA7 => {
            setres_r(cpu, 4, Reg8::A, false);
            Ok(())
        },
        0xA8 => {
            setres_r(cpu, 5, Reg8::B, false);
            Ok(())
        },
        0xA9 => {
            setres_r(cpu, 5, Reg8::C, false);
            Ok(())
        },
        0xAA => {
            setres_r(cpu, 5, Reg8::D, false);
            Ok(())
        },
        0xAB => {
            setres_r(cpu, 5, Reg8::E, false);
            Ok(())
        },
        0xAC => {
            setres_r(cpu, 5, Reg8::H, false);
            Ok(())
        },
        0xAD => {
            setres_r(cpu, 5, Reg8::L, false);
            Ok(())
        },
        0xAE => {
            setres_mhl(cpu, 5, false);
            Ok(())
        },
        0xAF => {
            setres_r(cpu, 5, Reg8::A, false);
            Ok(())
        },
        _ => unreached(),
    }
}

fn cpu_instructions_cb_b(cpu: &mut Cpu, instr: u8) -> (r: Result<(), YargeError>)
    requires
        old(cpu)@.wf(),
        old(cpu)@.has_time(24),
        0xB0 <= instr <= 0xBF,
    ensures
        (final(cpu)@, r) == execute_cb_spec(old(cpu)@, instr),
        final(cpu)@.wf(),
        final(cpu)@.t >= old(cpu)@.t,
{
    match instr {
        0xB0 => {
            setres_r(cpu, 6, Reg8::B, false);
            Ok(())
        },
        0xB1 => {
            setres_r(cpu, 6, Reg8::C, false);
            Ok(())
        },
        0xB2 => {
            setres_r(cpu, 6, Reg8::D, false);
            Ok(())
        },
        0xB3 => {
            setres_r(cpu, 6, Reg8::E, false);
            Ok(())
        },
        0xB4 => {
            setres_r(cpu, 6, Reg8::H, false);
            Ok(())
        },
        0xB5 => {
            setres_r(cpu, 6, Reg8::L, false);
            Ok(())
        },
        0xB6 => {
            setres_mhl(cpu, 6, false);
            Ok(())
        },
        0xB7 => {
            setres_r(cpu, 6, Reg8::A, false);
            Ok(())
        },
        0xB8 => {
            setres_r(cpu, 7, Reg8::B, false);
            Ok(())
        },
        0xB9 => {
            setres_r(cpu, 7, Reg8::C, false);
            Ok(())
        },
        0xBA => {
            setres_r(cpu, 7, Reg8::D, false);
            Ok(())
        },
        0xBB => {
            setres_r(cpu, 7, Reg8::E, false);
            Ok(())
        },
        0xBC => {
            setres_r(cpu, 7, Reg8::H, false);
            Ok(())
        },
        0xBD => {
            setres_r(cpu, 7, Reg8::L, false);
            Ok(())
        },
        0xBE => {
            setres_mhl(cpu, 7, false);
            Ok(())
        },
        0xBF => {
            setres_r(cpu, 7, Reg8::A, false);
            Ok(())
        },
        _ => unreached(),
    }
}

fn cpu_instructions_cb_c(cpu: &mut Cpu, instr: u8) -> (r: Result<(), YargeError>)
    requires
        old(cpu)@.wf(),
        old(cpu)@.has_time(24),
        0xC0 <= instr <= 0xCF,
    ensures
        (final(cpu)@, r) == execute_cb_spec(old(cpu)@, instr),
        final(cpu)@.wf(),
        final(cpu)@.t >= old(cpu)@.t,
{
    match instr {
        0xC0 => {
            setres_r(cpu, 0, Reg8::B, true);
            Ok(())
        },
        0xC1 => {
            setres_r(cpu, 0, Reg8::C, true);
            Ok(())
        },
        0xC2 => {
            setres_r(cpu, 0, Reg8::D, true);
            Ok(())
        },
        0xC3 => {
            setres_r(cpu, 0, Reg8::E, true);
            Ok(())
        },
        0xC4 => {
            setres_r(cpu, 0, Reg8::H, true);
            Ok(())
        },
        0xC5 => {
            setres_r(cpu, 0, Reg8::L, true);
            Ok(())
        },
        0xC6 => {
            setres_mhl(cpu, 0, true);
            Ok(())
        },
        0xC7 => {
            setres_r(cpu, 0, Reg8::A, true);
            Ok(())
        },
        0xC8 => {
            setres_r(cpu, 1, Reg8::B, true);
            Ok(())
        },
        0xC9 => {
            setres_r(cpu, 1, Reg8::C, true);
            Ok(())
        },
        0xCA => {
            setres_r(cpu, 1, Reg8::D, true);
            Ok(())
        },
        0xCB => {
            setres_r(cpu, 1, Reg8::E, true);
            Ok(())
        },
        0xCC => {
            setres_r(cpu, 1, Reg8::H, true);
            Ok(())
        },
        0xCD => {
            setres_r(cpu, 1, Reg8::L, true);
            Ok(())
        },
        0xCE => {
            setres_mhl(cpu, 1, true);
            Ok(())
        },
        0xCF => {
            setres_r(cpu, 1, Reg8::A, true);
            Ok(())
        },
        _ => unreached(),
    }
}

fn cpu_instructions_cb_d(cpu: &mut Cpu, instr: u8) -> (r: Result<(), YargeError>)
    requires
        old(cpu)@.wf(),
        old(cpu)@.has_time(24),
        0xD0 <= instr <= 0xDF,
    ensures
        (final(cpu)@, r) == execute_cb_spec(old(cpu)@, instr),
        final(cpu)@.wf(),
        final(cpu)@.t >= old(cpu)@.t,
{
    match instr {
        0xD0 => {
            setres_r(cpu, 2, Reg8::B, true);
            Ok(())
        },
        0xD1 => {
            setres_r(cpu, 2, Reg8::C, true);
            Ok(())
        },
        0xD2 => {
            setres_r(cpu, 2, Reg8::D, true);
            Ok(())
        },
        0xD3 => {
            setres_r(cpu, 2, Reg8::E, true);
            Ok(())
        },
        0xD4 => {
            setres_r(cpu, 2, Reg8::H, true);
            Ok(())
        },
        0xD5 => {
            setres_r(cpu, 2, Reg8::L, true);
            Ok(())
        },
        0xD6 => {
            setres_mhl(cpu, 2, true);
            Ok(())
        },
        0xD7 => {
            setres_r(cpu, 2, Reg8::A, true);
            Ok(())
        },
        0xD8 => {
            setres_r(cpu, 3, Reg8::B, true);
            Ok(())
        },
        0xD9 => {
            setres_r(cpu, 3, Reg8::C, true);
            Ok(())
        },
        0xDA => {
            setres_r(cpu, 3, Reg8::D, true);
            Ok(())
        },
        0xDB => {
            setres_r(cpu, 3, Reg8::E, true);
            Ok(())
        },
        0xDC => {
            setres_r(cpu, 3, Reg8::H, true);
            Ok(())
        },
        0xDD => {
            setres_r(cpu, 3, Reg8::L, true);
            Ok(())
        },
        0xDE => {
            setres_mhl(cpu, 3, true);
            Ok(())
        },
        0xDF => {
            setres_r(cpu, 3, Reg8::A, true);
            Ok(())
        },
        _ => unreached(),
    }
}

fn cpu_instructions_cb_e(cpu: &mut Cpu, instr: u8) -> (r: Result<(), YargeError>)
    requires
        old(cpu)@.wf(),
        old(cpu)@.has_time(24),
        0xE0 <= instr <= 0xEF,
    ensures
        (final(cpu)@, r) == execute_cb_spec(old(cpu)@, instr),
        final(cpu)@.wf(),
        final(cpu)@.t >= old(cpu)@.t,
{
    match instr {
        0xE0 => {
            setres_r(cpu, 4, Reg8::B, true);
            Ok(())
        },
        0xE1 => {
            setres_r(cpu, 4, Reg8::C, true);
            Ok(())
        },
        0xE2 => {
            setres_r(cpu, 4, Reg8::D, true);
            Ok(())
        },
        0xE3 => {
            setres_r(cpu, 4, Reg8::E, true);
            Ok(())
        },
        0xE4 => {
            setres_r(cpu, 4, Reg8::H, true);
            Ok(())
        },
        0xE5 => {
            setres_r(cpu, 4, Reg8::L, true);
            Ok(())
        },
        0xE6 => {
            setres_mhl(cpu, 4, true);
            Ok(())
        },
        0xE7 => {
            setres_r(cpu, 4, Reg8::A, true);
            Ok(())
        },
        0xE8 => {
            setres_r(cpu, 5, Reg8::B, true);
            Ok(())
        },
        0xE9 => {
            setres_r(cpu, 5, Reg8::C, true);
            Ok(())
        },
        0xEA => {
            setres_r(cpu, 5, Reg8::D, true);
            Ok(())
        },
        0xEB => {
            setres_r(cpu, 5, Reg8::E, true);
            Ok(())
        },
        0xEC => {
            setres_r(cpu, 5, Reg8::H, true);
            Ok(())
        },
        0xED => {
            setres_r(cpu, 5, Reg8::L, true);
            Ok(())
        },
        0xEE => {
            setres_mhl(cpu, 5, true);
            Ok(())
        },
        0xEF => {
            setres_r(cpu, 5, Reg8::A, true);
            Ok(())
        },
        _ => unreached(),
    }
}

fn cpu_instructions_cb_f(cpu: &mut Cpu, instr: u8) -> (r: Result<(), YargeError>)
    requires
        old(cpu)@.wf(),
        old(cpu)@.has_time(24),
        0xF0 <= instr <= 0xFF,
    ensures
        (final(cpu)@, r) == execute_cb_spec(old(cpu)@, instr),
        final(cpu)@.wf(),
        final(cpu)@.t >= old(cpu)@.t,
{
    match instr {
        0xF0 => {
            setres_r(cpu, 6, Reg8::B, true);
            Ok(())
        },
        0xF1 => {
            setres_r(cpu, 6, Reg8::C, true);
            Ok(())
        },
        0xF2 => {
            setres_r(cpu, 6, Reg8::D, true);
            Ok(())
        },
        0xF3 => {
            setres_r(cpu, 6, Reg8::E, true);
            Ok(())
        },
        0xF4 => {
            setres_r(cpu, 6, Reg8::H, true);
            Ok(())
        },
        0xF5 => {
            setres_r(cpu, 6, Reg8::L, true);
            Ok(())
        },
        0xF6 => {
            setres_mhl(cpu, 6, true);
            Ok(())
        },
        0xF7 => {
            setres_r(cpu, 6, Reg8::A, true);
            Ok(())
        },
        0xF8 => {
            setres_r(cpu, 7, Reg8::B, true);
            Ok(())
        },
        0xF9 => {
            setres_r(cpu, 7, Reg8::C, true);
            Ok(())
        },
        0xFA => {
            setres_r(cpu, 7, Reg8::D, true);
            Ok(())
        },
        0xFB => {
            setres_r(cpu, 7, Reg8::E, true);
            Ok(())
        },
        0xFC => {
            setres_r(cpu, 7, Reg8::H, true);
            Ok(())
        },
        0xFD => {
            setres_r(cpu, 7, Reg8::L, true);
            Ok(())
        },
        0xFE => {
            setres_mhl(cpu, 7, true);
            Ok(())
        },
        0xFF => {
            setres_r(cpu, 7, Reg8::A, true);
            Ok(())
        },
        _ => unreached(),
    }
}

} // verus!
