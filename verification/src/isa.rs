//! The instruction set, stated as the effect of each instruction on the
//! abstract CPU state, with every bus access and idle cycle in its order.
use vstd::prelude::*;
use crate::alu::{
    AluOut, add_spec, sub_spec, inc_spec, dec_spec, rlc_spec, rrc_spec, rl_spec, rr_spec, sla_spec,
    sra_spec, srl_spec, swap_spec, res_spec, set_spec, daa_spec, signed, add16_spec,
    sp_offset_spec, bit_of,
};
use crate::cpu::{
    CpuView, CpuState, cycled, rb_spec, wb_spec, rw_spec, ww_spec, fetch_spec, fetch_word_spec,
    push_spec, pop_spec,
};
use crate::errors::YargeError;
use crate::regs::{Registers, Reg8, Reg16, Cond, with_flag, add16, FLAG_Z, FLAG_N, FLAG_H, FLAG_C};

verus! {

/// The eight accumulator operations of the ALU.
#[derive(Clone, Copy, PartialEq, Eq)]
pub enum AluOp {
    Add,
    Adc,
    Sub,
    Sbc,
    And,
    Xor,
    Or,
    Cp,
}

/// The eight rotate and shift operations of the CB-prefixed instructions.
#[derive(Clone, Copy, PartialEq, Eq)]
pub enum RotOp {
    Rlc,
    Rrc,
    Rl,
    Rr,
    Sla,
    Sra,
    Swap,
    Srl,
}

/// F after INC or DEC: Z and H from the result, N as given, C kept.
pub open spec fn incdec_flags(f: u8, o: AluOut, n: bool) -> u8 {
    with_flag(with_flag(with_flag(f, FLAG_Z, o.r == 0), FLAG_N, n), FLAG_H, o.h)
}

/// A accumulator operation of `op` with operand `b`.
pub open spec fn alu_a_spec(c: CpuView, op: AluOp, b: u8) -> CpuView {
    let r = c.reg;
    let a = r.a;
    match op {
        AluOp::Add => {
            let o = add_spec(a, b, false);
            c.with_reg(Registers { a: o.r, ..r }.with_flags(o.r == 0, false, o.h, o.c))
        },
        AluOp::Adc => {
            let o = add_spec(a, b, r.fc());
            c.with_reg(Registers { a: o.r, ..r }.with_flags(o.r == 0, false, o.h, o.c))
        },
        AluOp::Sub => {
            let o = sub_spec(a, b, false);
            c.with_reg(Registers { a: o.r, ..r }.with_flags(o.r == 0, true, o.h, o.c))
        },
        AluOp::Sbc => {
            let o = sub_spec(a, b, r.fc());
            c.with_reg(Registers { a: o.r, ..r }.with_flags(o.r == 0, true, o.h, o.c))
        },
        AluOp::And => c.with_reg(Registers { a: a & b, ..r }.with_flags((a & b) == 0, false, true, false)),
        AluOp::Xor => c.with_reg(Registers { a: a ^ b, ..r }.with_flags((a ^ b) == 0, false, false, false)),
        AluOp::Or => c.with_reg(Registers { a: a | b, ..r }.with_flags((a | b) == 0, false, false, false)),
        AluOp::Cp => {
            let o = sub_spec(a, b, false);
            c.with_reg(r.with_flags(o.r == 0, true, o.h, o.c))
        },
    }
}

/// `op` applied to register `src`.
#[verifier::opaque]
pub open spec fn alu_a_r_spec(c: CpuView, op: AluOp, src: Reg8) -> CpuView {
    alu_a_spec(c, op, c.reg.r8(src))
}

/// `op` applied to the byte at HL.
#[verifier::opaque]
pub open spec fn alu_a_mhl_spec(c: CpuView, op: AluOp) -> CpuView {
    let (c1, b) = rb_spec(c, c.reg.r16(Reg16::HL));
    alu_a_spec(c1, op, b)
}

/// `op` applied to the immediate byte.
#[verifier::opaque]
pub open spec fn alu_a_u8_spec(c: CpuView, op: AluOp) -> CpuView {
    let (c1, b) = fetch_spec(c);
    alu_a_spec(c1, op, b)
}

pub open spec fn rot_value_spec(op: RotOp, v: u8, carry: bool) -> AluOut {
    match op {
        RotOp::Rlc => rlc_spec(v),
        RotOp::Rrc => rrc_spec(v),
        RotOp::Rl => rl_spec(v, carry),
        RotOp::Rr => rr_spec(v, carry),
        RotOp::Sla => sla_spec(v),
        RotOp::Sra => sra_spec(v),
        RotOp::Swap => AluOut { r: swap_spec(v), h: false, c: false },
        RotOp::Srl => srl_spec(v),
    }
}

/// A CB rotate or shift of a register: Z from the result, N and H clear, C out.
#[verifier::opaque]
pub open spec fn rot_r_spec(c: CpuView, op: RotOp, r: Reg8) -> CpuView {
    let o = rot_value_spec(op, c.reg.r8(r), c.reg.fc());
    c.with_reg(c.reg.with_r8(r, o.r).with_flags(o.r == 0, false, false, o.c))
}

/// A CB rotate or shift of the byte at HL: read, then write back.
#[verifier::opaque]
pub open spec fn rot_mhl_spec(c: CpuView, op: RotOp) -> CpuView {
    let hl = c.reg.r16(Reg16::HL);
    let (c1, v) = rb_spec(c, hl);
    let o = rot_value_spec(op, v, c1.reg.fc());
    wb_spec(c1.with_reg(c1.reg.with_flags(o.r == 0, false, false, o.c)), hl, o.r)
}

/// F after BIT: Z set when the bit is clear, N clear, H set, C kept.
pub open spec fn bit_flags(f: u8, v: u8, n: u8) -> u8 {
    with_flag(with_flag(with_flag(f, FLAG_Z, !bit_of(v, n)), FLAG_N, false), FLAG_H, true)
}

#[verifier::opaque]
pub open spec fn bit_r_spec(c: CpuView, n: u8, r: Reg8) -> CpuView {
    c.with_reg(Registers { f: bit_flags(c.reg.f, c.reg.r8(r), n), ..c.reg })
}

#[verifier::opaque]
pub open spec fn bit_mhl_spec(c: CpuView, n: u8) -> CpuView {
    let (c1, v) = rb_spec(c, c.reg.r16(Reg16::HL));
    c1.with_reg(Registers { f: bit_flags(c1.reg.f, v, n), ..c1.reg })
}

/// RES (`set` false) or SET (`set` true) of bit `n` of a register.
#[verifier::opaque]
pub open spec fn setres_r_spec(c: CpuView, n: u8, r: Reg8, set: bool) -> CpuView {
    let v = c.reg.r8(r);
    c.with_reg(c.reg.with_r8(r, if set { set_spec(v, n) } else { res_spec(v, n) }))
}

/// RES or SET of bit `n` of the byte at HL.
#[verifier::opaque]
pub open spec fn setres_mhl_spec(c: CpuView, n: u8, set: bool) -> CpuView {
    let hl = c.reg.r16(Reg16::HL);
    let (c1, v) = rb_spec(c, hl);
    wb_spec(c1, hl, if set { set_spec(v, n) } else { res_spec(v, n) })
}

#[verifier::opaque]
pub open spec fn ld_rr_u16_spec(c: CpuView, rr: Reg16) -> CpuView {
    let (c1, v) = fetch_word_spec(c);
    c1.with_reg(c1.reg.with_r16(rr, v))
}

/// LD (rr),A.
#[verifier::opaque]
pub open spec fn ld_mrr_a_spec(c: CpuView, rr: Reg16) -> CpuView {
    wb_spec(c, c.reg.r16(rr), c.reg.a)
}

/// LD A,(rr).
#[verifier::opaque]
pub open spec fn ld_a_mrr_spec(c: CpuView, rr: Reg16) -> CpuView {
    let (c1, v) = rb_spec(c, c.reg.r16(rr));
    c1.with_reg(Registers { a: v, ..c1.reg })
}

/// INC rr (`inc` true) or DEC rr: no flags change; one idle cycle.
#[verifier::opaque]
pub open spec fn incdec_rr_spec(c: CpuView, rr: Reg16, inc: bool) -> CpuView {
    let v = add16(c.reg.r16(rr), if inc { 1 } else { 65535 });
    cycled(c.with_reg(c.reg.with_r16(rr, v)))
}

#[verifier::opaque]
pub open spec fn inc_r_spec(c: CpuView, r: Reg8) -> CpuView {
    let o = inc_spec(c.reg.r8(r));
    let f = incdec_flags(c.reg.f, o, false);
    c.with_reg(Registers { f, ..c.reg }.with_r8(r, o.r))
}

#[verifier::opaque]
pub open spec fn dec_r_spec(c: CpuView, r: Reg8) -> CpuView {
    let o = dec_spec(c.reg.r8(r));
    let f = incdec_flags(c.reg.f, o, true);
    c.with_reg(Registers { f, ..c.reg }.with_r8(r, o.r))
}

#[verifier::opaque]
pub open spec fn inc_mhl_spec(c: CpuView) -> CpuView {
    let hl = c.reg.r16(Reg16::HL);
    let (c1, v) = rb_spec(c, hl);
    let o = inc_spec(v);
    wb_spec(c1.with_reg(Registers { f: incdec_flags(c1.reg.f, o, false), ..c1.reg }), hl, o.r)
}

#[verifier::opaque]
pub open spec fn dec_mhl_spec(c: CpuView) -> CpuView {
    let hl = c.reg.r16(Reg16::HL);
    let (c1, v) = rb_spec(c, hl);
    let o = dec_spec(v);
    wb_spec(c1.with_reg(Registers { f: incdec_flags(c1.reg.f, o, true), ..c1.reg }), hl, o.r)
}

#[verifier::opaque]
pub open spec fn ld_r_u8_spec(c: CpuView, r: Reg8) -> CpuView {
    let (c1, v) = fetch_spec(c);
    c1.with_reg(c1.reg.with_r8(r, v))
}

#[verifier::opaque]
pub open spec fn ld_mhl_u8_spec(c: CpuView) -> CpuView {
    let (c1, v) = fetch_spec(c);
    wb_spec(c1, c1.reg.r16(Reg16::HL), v)
}

/// RLCA, RRCA, RLA and RRA: like the CB forms on A, but Z is always clear.
#[verifier::opaque]
pub open spec fn rot_a_spec(c: CpuView, op: RotOp) -> CpuView {
    let o = rot_value_spec(op, c.reg.a, c.reg.fc());
    c.with_reg(Registers { a: o.r, ..c.reg }.with_flags(false, false, false, o.c))
}

/// LD (u16),SP.
#[verifier::opaque]
pub open spec fn ld_mu16_sp_spec(c: CpuView) -> CpuView {
    let (c1, a) = fetch_word_spec(c);
    ww_spec(c1, a, c1.reg.sp)
}

/// ADD HL,rr: N clear, H from bit 11, C from bit 15, Z kept; one idle cycle.
#[verifier::opaque]
pub open spec fn add_hl_rr_spec(c: CpuView, rr: Reg16) -> CpuView {
    let o = add16_spec(c.reg.r16(Reg16::HL), c.reg.r16(rr));
    let f = with_flag(with_flag(with_flag(c.reg.f, FLAG_N, false), FLAG_H, o.h), FLAG_C, o.c);
    cycled(c.with_reg(Registers { f, ..c.reg }.with_r16(Reg16::HL, o.r)))
}

#[verifier::opaque]
pub open spec fn stop_spec(c: CpuView) -> CpuView {
    CpuView { state: CpuState::Stop, ..c.with_reg(Registers { pc: add16(c.reg.pc, 1), ..c.reg }) }
}

#[verifier::opaque]
pub open spec fn halt_spec(c: CpuView) -> CpuView {
    CpuView { state: CpuState::Halt, ..c }
}

/// JR i8: PC moves by the signed offset after the operand; one idle cycle.
pub open spec fn jr_spec(c: CpuView) -> CpuView {
    let (c1, v) = fetch_spec(c);
    cycled(c1.with_reg(Registers { pc: add16(c1.reg.pc, signed(v) + 65536), ..c1.reg }))
}

#[verifier::opaque]
pub open spec fn jr_i8_spec(c: CpuView) -> CpuView {
    jr_spec(c)
}

/// JR cc,i8: a taken jump as JR; otherwise one cycle and the operand is skipped.
#[verifier::opaque]
pub open spec fn jr_i8_cond_spec(c: CpuView, cc: Cond) -> CpuView {
    if c.reg.cond(cc) {
        jr_spec(c)
    } else {
        let c1 = cycled(c);
        c1.with_reg(Registers { pc: add16(c1.reg.pc, 1), ..c1.reg })
    }
}

/// LD (HL+),A (`inc` true) or LD (HL-),A.
#[verifier::opaque]
pub open spec fn ld_mhli_a_spec(c: CpuView, inc: bool) -> CpuView {
    let hl = c.reg.r16(Reg16::HL);
    let c1 = c.with_reg(c.reg.with_r16(Reg16::HL, add16(hl, if inc { 1 } else { 65535 })));
    wb_spec(c1, hl, c1.reg.a)
}

/// LD A,(HL+) (`inc` true) or LD A,(HL-).
#[verifier::opaque]
pub open spec fn ld_a_mhli_spec(c: CpuView, inc: bool) -> CpuView {
    let hl = c.reg.r16(Reg16::HL);
    let c1 = c.with_reg(c.reg.with_r16(Reg16::HL, add16(hl, if inc { 1 } else { 65535 })));
    let (c2, v) = rb_spec(c1, hl);
    c2.with_reg(Registers { a: v, ..c2.reg })
}

#[verifier::opaque]
pub open spec fn daa_instr_spec(c: CpuView) -> CpuView {
    let r = c.reg;
    let o = daa_spec(r.a, r.fn_(), r.fh(), r.fc());
    c.with_reg(Registers { a: o.r, ..r }.with_flags(o.r == 0, r.fn_(), false, o.c))
}

/// CPL: A is complemented, N and H set.
#[verifier::opaque]
pub open spec fn cpl_spec(c: CpuView) -> CpuView {
    let r = c.reg;
    c.with_reg(Registers { a: (255 - r.a) as u8, f: with_flag(with_flag(r.f, FLAG_N, true), FLAG_H, true), ..r })
}

/// SCF: C set, N and H clear, Z kept.
#[verifier::opaque]
pub open spec fn scf_spec(c: CpuView) -> CpuView {
    let f = with_flag(with_flag(with_flag(c.reg.f, FLAG_C, true), FLAG_N, false), FLAG_H, false);
    c.with_reg(Registers { f, ..c.reg })
}

/// CCF: C complemented, N and H clear, Z kept.
#[verifier::opaque]
pub open spec fn ccf_spec(c: CpuView) -> CpuView {
    let f = with_flag(with_flag(with_flag(c.reg.f, FLAG_C, !c.reg.fc()), FLAG_N, false), FLAG_H, false);
    c.with_reg(Registers { f, ..c.reg })
}

#[verifier::opaque]
pub open spec fn ld_r_r_spec(c: CpuView, dst: Reg8, src: Reg8) -> CpuView {
    c.with_reg(c.reg.with_r8(dst, c.reg.r8(src)))
}

#[verifier::opaque]
pub open spec fn ld_r_mhl_spec(c: CpuView, r: Reg8) -> CpuView {
    let (c1, v) = rb_spec(c, c.reg.r16(Reg16::HL));
    c1.with_reg(c1.reg.with_r8(r, v))
}

#[verifier::opaque]
pub open spec fn ld_mhl_r_spec(c: CpuView, r: Reg8) -> CpuView {
    wb_spec(c, c.reg.r16(Reg16::HL), c.reg.r8(r))
}

/// RET: PC is popped; one idle cycle.
pub open spec fn ret_body_spec(c: CpuView) -> CpuView {
    let (c1, v) = pop_spec(c);
    cycled(c1.with_reg(Registers { pc: v, ..c1.reg }))
}

#[verifier::opaque]
pub open spec fn ret_spec(c: CpuView) -> CpuView {
    ret_body_spec(c)
}

/// RET cc: one cycle to test the condition, then RET if it holds.
#[verifier::opaque]
pub open spec fn ret_cond_spec(c: CpuView, cc: Cond) -> CpuView {
    let c1 = cycled(c);
    if c1.reg.cond(cc) {
        ret_body_spec(c1)
    } else {
        c1
    }
}

/// RETI: RET, then interrupts are enabled as by EI.
#[verifier::opaque]
pub open spec fn reti_spec(c: CpuView) -> CpuView {
    CpuView { ime_pending: true, ..ret_body_spec(c) }
}

#[verifier::opaque]
pub open spec fn pop_rr_spec(c: CpuView, rr: Reg16) -> CpuView {
    let (c1, v) = pop_spec(c);
    c1.with_reg(c1.reg.with_r16(rr, v))
}

/// PUSH rr: one idle cycle, then the push.
#[verifier::opaque]
pub open spec fn push_rr_spec(c: CpuView, rr: Reg16) -> CpuView {
    let c1 = cycled(c);
    push_spec(c1, c1.reg.r16(rr))
}

/// JP u16: the target is read at PC; one idle cycle.
pub open spec fn jp_body_spec(c: CpuView) -> CpuView {
    let (c1, to) = rw_spec(c, c.reg.pc);
    cycled(c1.with_reg(Registers { pc: to, ..c1.reg }))
}

#[verifier::opaque]
pub open spec fn jp_u16_spec(c: CpuView) -> CpuView {
    jp_body_spec(c)
}

/// JP cc,u16: a taken jump as JP; otherwise two cycles and the operand is skipped.
#[verifier::opaque]
pub open spec fn cond_jp_u16_spec(c: CpuView, cc: Cond) -> CpuView {
    if c.reg.cond(cc) {
        jp_body_spec(c)
    } else {
        let c1 = cycled(cycled(c));
        c1.with_reg(Registers { pc: add16(c1.reg.pc, 2), ..c1.reg })
    }
}

#[verifier::opaque]
pub open spec fn jp_hl_spec(c: CpuView) -> CpuView {
    c.with_reg(Registers { pc: c.reg.r16(Reg16::HL), ..c.reg })
}

/// CALL u16: the target is fetched, one idle cycle, PC (past the operand) is pushed.
pub open spec fn call_body_spec(c: CpuView) -> CpuView {
    let (c1, to) = fetch_word_spec(c);
    let c2 = cycled(c1);
    let c3 = push_spec(c2, c2.reg.pc);
    c3.with_reg(Registers { pc: to, ..c3.reg })
}

#[verifier::opaque]
pub open spec fn call_u16_spec(c: CpuView) -> CpuView {
    call_body_spec(c)
}

/// CALL cc,u16: a taken call as CALL; otherwise two cycles and the operand is skipped.
#[verifier::opaque]
pub open spec fn call_u16_cond_spec(c: CpuView, cc: Cond) -> CpuView {
    if c.reg.cond(cc) {
        call_body_spec(c)
    } else {
        let c1 = cycled(cycled(c));
        c1.with_reg(Registers { pc: add16(c1.reg.pc, 2), ..c1.reg })
    }
}

/// RST: one idle cycle, PC is pushed and jumps to the fixed address.
#[verifier::opaque]
pub open spec fn rst_spec(c: CpuView, addr: u16) -> CpuView {
    let c1 = cycled(c);
    let c2 = push_spec(c1, c1.reg.pc);
    c2.with_reg(Registers { pc: addr, ..c2.reg })
}

/// LD (FF00+u8),A.
#[verifier::opaque]
pub open spec fn ld_m_ff00_add_u8_a_spec(c: CpuView) -> CpuView {
    let (c1, n) = fetch_spec(c);
    wb_spec(c1, (0xFF00 + n) as u16, c1.reg.a)
}

/// LD (FF00+C),A.
#[verifier::opaque]
pub open spec fn ld_m_ff00_add_c_a_spec(c: CpuView) -> CpuView {
    wb_spec(c, (0xFF00 + c.reg.c) as u16, c.reg.a)
}

/// LD A,(FF00+u8).
#[verifier::opaque]
pub open spec fn ld_a_m_ff00_add_u8_spec(c: CpuView) -> CpuView {
    let (c1, n) = fetch_spec(c);
    let (c2, v) = rb_spec(c1, (0xFF00 + n) as u16);
    c2.with_reg(Registers { a: v, ..c2.reg })
}

/// LD A,(FF00+C).
#[verifier::opaque]
pub open spec fn ld_a_m_ff00_add_c_spec(c: CpuView) -> CpuView {
    let (c1, v) = rb_spec(c, (0xFF00 + c.reg.c) as u16);
    c1.with_reg(Registers { a: v, ..c1.reg })
}

/// ADD SP,i8: Z and N clear, H and C from the low byte; two idle cycles.
#[verifier::opaque]
pub open spec fn add_sp_i8_spec(c: CpuView) -> CpuView {
    let sp = c.reg.sp;
    let (c1, n) = fetch_spec(c);
    let o = sp_offset_spec(sp, n);
    cycled(cycled(c1.with_reg(Registers { sp: o.r, ..c1.reg }.with_flags(false, false, o.h, o.c))))
}

/// LD HL,SP+i8: flags as ADD SP,i8; one idle cycle.
#[verifier::opaque]
pub open spec fn ld_hl_sp_i8_spec(c: CpuView) -> CpuView {
    let sp = c.reg.sp;
    let (c1, n) = fetch_spec(c);
    let o = sp_offset_spec(sp, n);
    cycled(c1.with_reg(c1.reg.with_flags(false, false, o.h, o.c).with_r16(Reg16::HL, o.r)))
}

/// LD SP,HL; one idle cycle.
#[verifier::opaque]
pub open spec fn ld_sp_hl_spec(c: CpuView) -> CpuView {
    cycled(c.with_reg(Registers { sp: c.reg.r16(Reg16::HL), ..c.reg }))
}

/// LD (u16),A.
#[verifier::opaque]
pub open spec fn ld_mu16_a_spec(c: CpuView) -> CpuView {
    let (c1, a) = fetch_word_spec(c);
    wb_spec(c1, a, c1.reg.a)
}

/// LD A,(u16).
#[verifier::opaque]
pub open spec fn ld_a_mu16_spec(c: CpuView) -> CpuView {
    let (c1, a) = fetch_word_spec(c);
    let (c2, v) = rb_spec(c1, a);
    c2.with_reg(Registers { a: v, ..c2.reg })
}

#[verifier::opaque]
pub open spec fn di_spec(c: CpuView) -> CpuView {
    CpuView { ime_pending: false, ime: false, ..c }
}

#[verifier::opaque]
pub open spec fn ei_spec(c: CpuView) -> CpuView {
    CpuView { ime_pending: true, ..c }
}

/// The register selected by a 3-bit operand field (6, the (HL) operand, excluded).
pub open spec fn reg_field(i: u8) -> Reg8 {
    if i == 0 {
        Reg8::B
    } else if i == 1 {
        Reg8::C
    } else if i == 2 {
        Reg8::D
    } else if i == 3 {
        Reg8::E
    } else if i == 4 {
        Reg8::H
    } else if i == 5 {
        Reg8::L
    } else {
        Reg8::A
    }
}

/// The register pair selected by a 2-bit field, with SP as the fourth.
pub open spec fn rp_field(p: u8) -> Reg16 {
    if p == 0 {
        Reg16::BC
    } else if p == 1 {
        Reg16::DE
    } else if p == 2 {
        Reg16::HL
    } else {
        Reg16::SP
    }
}

/// The register pair selected by a 2-bit field, with AF as the fourth (PUSH and POP).
pub open spec fn rp2_field(p: u8) -> Reg16 {
    if p == 3 {
        Reg16::AF
    } else {
        rp_field(p)
    }
}

pub open spec fn cond_field(y: u8) -> Cond {
    if y == 0 {
        Cond::NZ
    } else if y == 1 {
        Cond::Z
    } else if y == 2 {
        Cond::NC
    } else {
        Cond::C
    }
}

pub open spec fn alu_field(y: u8) -> AluOp {
    if y == 0 {
        AluOp::Add
    } else if y == 1 {
        AluOp::Adc
    } else if y == 2 {
        AluOp::Sub
    } else if y == 3 {
        AluOp::Sbc
    } else if y == 4 {
        AluOp::And
    } else if y == 5 {
        AluOp::Xor
    } else if y == 6 {
        AluOp::Or
    } else {
        AluOp::Cp
    }
}

pub open spec fn rot_field(y: u8) -> RotOp {
    if y == 0 {
        RotOp::Rlc
    } else if y == 1 {
        RotOp::Rrc
    } else if y == 2 {
        RotOp::Rl
    } else if y == 3 {
        RotOp::Rr
    } else if y == 4 {
        RotOp::Sla
    } else if y == 5 {
        RotOp::Sra
    } else if y == 6 {
        RotOp::Swap
    } else {
        RotOp::Srl
    }
}

/// The error for an opcode with no instruction; PC already points past it.
pub open spec fn invalid(c: CpuView, op: u8) -> (CpuView, Result<(), YargeError>) {
    (c, Err(YargeError::InvalidInstruction { instr: op, addr: add16(c.reg.pc, 65535) }))
}

pub open spec fn ok(c: CpuView) -> (CpuView, Result<(), YargeError>) {
    (c, Ok(()))
}

/// The block of opcodes 0x00-0x3F.
pub open spec fn execute_x0_spec(c: CpuView, op: u8) -> CpuView {
    let y = (op / 8) % 8;
    let z = op % 8;
    let p = y / 2;
    let q = y % 2;
    if z == 0 {
        if y == 0 {
            c
        } else if y == 1 {
            ld_mu16_sp_spec(c)
        } else if y == 2 {
            stop_spec(c)
        } else if y == 3 {
            jr_i8_spec(c)
        } else {
            jr_i8_cond_spec(c, cond_field((y - 4) as u8))
        }
    } else if z == 1 {
        if q == 0 {
            ld_rr_u16_spec(c, rp_field(p))
        } else {
            add_hl_rr_spec(c, rp_field(p))
        }
    } else if z == 2 {
        if p < 2 {
            if q == 0 {
                ld_mrr_a_spec(c, rp_field(p))
            } else {
                ld_a_mrr_spec(c, rp_field(p))
            }
        } else if q == 0 {
            ld_mhli_a_spec(c, p == 2)
        } else {
            ld_a_mhli_spec(c, p == 2)
        }
    } else if z == 3 {
        incdec_rr_spec(c, rp_field(p), q == 0)
    } else if z == 4 {
        if y == 6 {
            inc_mhl_spec(c)
        } else {
            inc_r_spec(c, reg_field(y))
        }
    } else if z == 5 {
        if y == 6 {
            dec_mhl_spec(c)
        } else {
            dec_r_spec(c, reg_field(y))
        }
    } else if z == 6 {
        if y == 6 {
            ld_mhl_u8_spec(c)
        } else {
            ld_r_u8_spec(c, reg_field(y))
        }
    } else {
        if y < 4 {
            rot_a_spec(c, rot_field(y))
        } else if y == 4 {
            daa_instr_spec(c)
        } else if y == 5 {
            cpl_spec(c)
        } else if y == 6 {
            scf_spec(c)
        } else {
            ccf_spec(c)
        }
    }
}

/// The block of opcodes 0xC0-0xFF.
pub open spec fn execute_x3_spec(c: CpuView, op: u8) -> (CpuView, Result<(), YargeError>) {
    let y = (op / 8) % 8;
    let z = op % 8;
    let p = y / 2;
    let q = y % 2;
    if z == 0 {
        if y < 4 {
            ok(ret_cond_spec(c, cond_field(y)))
        } else if y == 4 {
            ok(ld_m_ff00_add_u8_a_spec(c))
        } else if y == 5 {
            ok(add_sp_i8_spec(c))
        } else if y == 6 {
            ok(ld_a_m_ff00_add_u8_spec(c))
        } else {
            ok(ld_hl_sp_i8_spec(c))
        }
    } else if z == 1 {
        if q == 0 {
            ok(pop_rr_spec(c, rp2_field(p)))
        } else if p == 0 {
            ok(ret_spec(c))
        } else if p == 1 {
            ok(reti_spec(c))
        } else if p == 2 {
            ok(jp_hl_spec(c))
        } else {
            ok(ld_sp_hl_spec(c))
        }
    } else if z == 2 {
        if y < 4 {
            ok(cond_jp_u16_spec(c, cond_field(y)))
        } else if y == 4 {
            ok(ld_m_ff00_add_c_a_spec(c))
        } else if y == 5 {
            ok(ld_mu16_a_spec(c))
        } else if y == 6 {
            ok(ld_a_m_ff00_add_c_spec(c))
        } else {
            ok(ld_a_mu16_spec(c))
        }
    } else if z == 3 {
        if y == 0 {
            ok(jp_u16_spec(c))
        } else if y == 6 {
            ok(di_spec(c))
        } else if y == 7 {
            ok(ei_spec(c))
        } else {
            invalid(c, op)
        }
    } else if z == 4 {
        if y < 4 {
            ok(call_u16_cond_spec(c, cond_field(y)))
        } else {
            invalid(c, op)
        }
    } else if z == 5 {
        if q == 0 {
            ok(push_rr_spec(c, rp2_field(p)))
        } else if p == 0 {
            ok(call_u16_spec(c))
        } else {
            invalid(c, op)
        }
    } else if z == 6 {
        ok(alu_a_u8_spec(c, alu_field(y)))
    } else {
        ok(rst_spec(c, (y * 8) as u16))
    }
}

/// Executes the unprefixed opcode `op` whose byte has just been fetched.
/// Opcodes 0x40-0x7F load register to register (HALT at 0x76), 0x80-0xBF
/// are the ALU operations on A; 0xCB and eleven unused opcodes are errors.
pub open spec fn execute_spec(c: CpuView, op: u8) -> (CpuView, Result<(), YargeError>) {
    let x = op / 64;
    let y = (op / 8) % 8;
    let z = op % 8;
    if x == 0 {
        ok(execute_x0_spec(c, op))
    } else if x == 1 {
        if op == 0x40 && c.ld_breakpoint {
            (c, Err(YargeError::LdBreakpoint { addr: add16(c.reg.pc, 0xFFFF) }))
        } else if op == 0x76 {
            ok(halt_spec(c))
        } else if y == 6 {
            ok(ld_mhl_r_spec(c, reg_field(z)))
        } else if z == 6 {
            ok(ld_r_mhl_spec(c, reg_field(y)))
        } else {
            ok(ld_r_r_spec(c, reg_field(y), reg_field(z)))
        }
    } else if x == 2 {
        if z == 6 {
            ok(alu_a_mhl_spec(c, alu_field(y)))
        } else {
            ok(alu_a_r_spec(c, alu_field(y), reg_field(z)))
        }
    } else {
        execute_x3_spec(c, op)
    }
}

/// Executes the CB-prefixed opcode `op`: rotates and shifts (0x00-0x3F),
/// BIT (0x40-0x7F), RES (0x80-0xBF) and SET (0xC0-0xFF), on a register or
/// on the byte at HL. Every CB opcode is valid.
pub open spec fn execute_cb_spec(c: CpuView, op: u8) -> (CpuView, Result<(), YargeError>) {
    let x = op / 64;
    let y = (op / 8) % 8;
    let z = op % 8;
    if x == 0 {
        if z == 6 {
            ok(rot_mhl_spec(c, rot_field(y)))
        } else {
            ok(rot_r_spec(c, rot_field(y), reg_field(z)))
        }
    } else if x == 1 {
        if z == 6 {
            ok(bit_mhl_spec(c, y))
        } else {
            ok(bit_r_spec(c, y, reg_field(z)))
        }
    } else if z == 6 {
        ok(setres_mhl_spec(c, y, x == 3))
    } else {
        ok(setres_r_spec(c, y, reg_field(z), x == 3))
    }
}

} // verus!
