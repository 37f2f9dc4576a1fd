//! The arithmetic and logic unit: pure functions on bytes that compute a
//! result together with the flags the instruction sets from it.
use vstd::prelude::*;
use crate::bits::{lemma_byte, lemma_byte_shl, lemma_byte_arith};
use crate::bitpack::lemma_byte_bit;
use crate::words::lemma_word;

verus! {

/// The outcome of an 8-bit ALU operation: result and the half-carry and carry flags.
pub struct AluOut {
    pub r: u8,
    pub h: bool,
    pub c: bool,
}

pub open spec fn out(r: int, h: bool, c: bool) -> AluOut {
    AluOut { r: r as u8, h, c }
}

pub open spec fn bit_value(b: bool) -> int {
    if b {
        1
    } else {
        0
    }
}

/// 2 to the power of `n`, for bit positions 0 to 7.
pub open spec fn pow2_8(n: u8) -> int {
    if n == 0 {
        1
    } else if n == 1 {
        2
    } else if n == 2 {
        4
    } else if n == 3 {
        8
    } else if n == 4 {
        16
    } else if n == 5 {
        32
    } else if n == 6 {
        64
    } else {
        128
    }
}

/// Whether bit `n` of `v` is set.
pub open spec fn bit_of(v: u8, n: u8) -> bool {
    (v as int / pow2_8(n)) % 2 == 1
}

pub open spec fn add_spec(a: u8, b: u8, carry: bool) -> AluOut {
    let ci = bit_value(carry);
    out((a + b + ci) % 256, a % 16 + b % 16 + ci > 15, a + b + ci > 255)
}

pub open spec fn sub_spec(a: u8, b: u8, carry: bool) -> AluOut {
    let ci = bit_value(carry);
    out((a - b - ci + 512) % 256, a % 16 < b % 16 + ci, a < b + ci)
}

pub open spec fn inc_spec(v: u8) -> AluOut {
    out((v + 1) % 256, v % 16 == 15, false)
}

pub open spec fn dec_spec(v: u8) -> AluOut {
    out((v + 255) % 256, v % 16 == 0, false)
}

pub open spec fn rlc_spec(v: u8) -> AluOut {
    out((v * 2) % 256 + v / 128, false, v >= 128)
}

pub open spec fn rrc_spec(v: u8) -> AluOut {
    out(v / 2 + (v % 2) * 128, false, v % 2 == 1)
}

pub open spec fn rl_spec(v: u8, carry: bool) -> AluOut {
    out((v * 2) % 256 + bit_value(carry), false, v >= 128)
}

pub open spec fn rr_spec(v: u8, carry: bool) -> AluOut {
    out(v / 2 + bit_value(carry) * 128, false, v % 2 == 1)
}

pub open spec fn sla_spec(v: u8) -> AluOut {
    out((v * 2) % 256, false, v >= 128)
}

pub open spec fn sra_spec(v: u8) -> AluOut {
    out(v / 2 + (v / 128) * 128, false, v % 2 == 1)
}

pub open spec fn srl_spec(v: u8) -> AluOut {
    out(v as int / 2, false, v % 2 == 1)
}

pub open spec fn swap_spec(v: u8) -> u8 {
    ((v % 16) * 16 + v / 16) as u8
}

pub open spec fn res_spec(v: u8, n: u8) -> u8 {
    if bit_of(v, n) {
        (v - pow2_8(n)) as u8
    } else {
        v
    }
}

pub open spec fn set_spec(v: u8, n: u8) -> u8 {
    if bit_of(v, n) {
        v
    } else {
        (v + pow2_8(n)) as u8
    }
}

/// Decimal adjustment of A after a BCD addition (`n` clear) or subtraction (`n` set).
pub open spec fn daa_spec(a: u8, n: bool, h: bool, c: bool) -> AluOut {
    let low = if h || (!n && a % 16 > 9) {
        6int
    } else {
        0
    };
    let high = if c || (!n && a > 0x99) {
        0x60int
    } else {
        0
    };
    let m = low + high;
    let r = if n {
        (a - m + 256) % 256
    } else {
        (a + m) % 256
    };
    out(r, false, m >= 0x60)
}

/// The signed value of a byte read as two's complement.
pub open spec fn signed(v: u8) -> int {
    if v < 128 {
        v as int
    } else {
        v - 256
    }
}

/// The result of a 16-bit addition with its half-carry (bit 11) and carry flags.
pub struct Alu16Out {
    pub r: u16,
    pub h: bool,
    pub c: bool,
}

pub open spec fn add16_spec(a: u16, b: u16) -> Alu16Out {
    Alu16Out { r: ((a + b) % 65536) as u16, h: a % 4096 + b % 4096 > 4095, c: a + b > 65535 }
}

/// SP plus a signed byte; the flags come from the unsigned addition of the low bytes.
pub open spec fn sp_offset_spec(sp: u16, n: u8) -> Alu16Out {
    Alu16Out {
        r: ((sp + signed(n) + 65536) % 65536) as u16,
        h: sp % 16 + n % 16 > 15,
        c: sp % 256 + n > 255,
    }
}

fn carry_in(c: bool) -> (r: u16)
    ensures
        r == bit_value(c),
{
    if c {
        1
    } else {
        0
    }
}

/// ADD and ADC.
pub fn alu_add(a: u8, b: u8, carry: bool) -> (o: AluOut)
    ensures
        o == add_spec(a, b, carry),
{
    let ci = carry_in(carry);
    let sum = a as u16 + b as u16 + ci;
    let half = (a & 0xF) as u16 + (b & 0xF) as u16 + ci;
    proof {
        lemma_byte(a);
        lemma_byte(b);
    }
    AluOut { r: (sum % 256) as u8, h: half > 0xF, c: sum > 0xFF }
}

/// SUB and SBC.
pub fn alu_sub(a: u8, b: u8, carry: bool) -> (o: AluOut)
    ensures
        o == sub_spec(a, b, carry),
{
    let ci = carry_in(carry);
    let r = ((a as u16 + 512 - b as u16 - ci) % 256) as u8;
    let h = ((a & 0xF) as u16) < ((b & 0xF) as u16) + ci;
    proof {
        lemma_byte(a);
        lemma_byte(b);
    }
    AluOut { r, h, c: (a as u16) < b as u16 + ci }
}

pub fn alu_inc(v: u8) -> (o: AluOut)
    ensures
        o == inc_spec(v),
{
    let r = v.wrapping_add(1);
    proof {
        lemma_byte(v);
    }
    AluOut { r, h: (v & 0x0F) + 1 > 0x0F, c: false }
}

pub fn alu_dec(v: u8) -> (o: AluOut)
    ensures
        o == dec_spec(v),
{
    let r = v.wrapping_sub(1);
    proof {
        lemma_byte(v);
    }
    AluOut { r, h: (v & 0x0F) == 0, c: false }
}

pub fn alu_rlc(v: u8) -> (o: AluOut)
    ensures
        o == rlc_spec(v),
{
    let r = (v << 1) | (v >> 7);
    proof {
        lemma_byte_shl(v);
        lemma_byte(v);
    }
    AluOut { r, h: false, c: v & 0x80 != 0 }
}

pub fn alu_rrc(v: u8) -> (o: AluOut)
    ensures
        o == rrc_spec(v),
{
    let r = (v >> 1) | (v << 7);
    proof {
        lemma_byte_arith(v);
        lemma_byte(v);
    }
    AluOut { r, h: false, c: v & 1 != 0 }
}

pub fn alu_rl(v: u8, carry: bool) -> (o: AluOut)
    ensures
        o == rl_spec(v, carry),
{
    let ci: u8 = if carry {
        1
    } else {
        0
    };
    let r = (v << 1) | ci;
    assert(ci <= 1 ==> (v << 1) | ci == (v * 2) % 256 + ci) by (bit_vector);
    proof {
        lemma_byte(v);
    }
    AluOut { r, h: false, c: v & 0x80 != 0 }
}

pub fn alu_rr(v: u8, carry: bool) -> (o: AluOut)
    ensures
        o == rr_spec(v, carry),
{
    let ci: u8 = if carry {
        1
    } else {
        0
    };
    let r = (v >> 1) | (ci << 7);
    assert(ci <= 1 ==> (v >> 1) | (ci << 7) == v / 2 + ci * 128) by (bit_vector);
    proof {
        lemma_byte(v);
    }
    AluOut { r, h: false, c: v & 1 != 0 }
}

pub fn alu_sla(v: u8) -> (o: AluOut)
    ensures
        o == sla_spec(v),
{
    let r = v << 1;
    proof {
        lemma_byte_shl(v);
        lemma_byte(v);
    }
    AluOut { r, h: false, c: v & 0x80 != 0 }
}

pub fn alu_sra(v: u8) -> (o: AluOut)
    ensures
        o == sra_spec(v),
{
    let mut r = v >> 1;
    if r & 0x40 != 0 {
        r = r | 0x80;
    }
    proof {
        lemma_byte_arith(v);
        lemma_byte(v);
    }
    AluOut { r, h: false, c: v & 1 != 0 }
}

pub fn alu_srl(v: u8) -> (o: AluOut)
    ensures
        o == srl_spec(v),
{
    proof {
        lemma_byte(v);
    }
    AluOut { r: v >> 1, h: false, c: v & 1 != 0 }
}

pub fn alu_swap(v: u8) -> (r: u8)
    ensures
        r == swap_spec(v),
{
    let r = (v << 4) | (v >> 4);
    proof {
        lemma_byte_arith(v);
    }
    r
}

fn mask_of(n: u8) -> (m: u8)
    requires
        n < 8,
    ensures
        m == pow2_8(n),
        m == 1u8 << n,
{
    let m = 1u8 << n;
    proof {
        lemma_byte_bit(0, n);
    }
    m
}

pub fn alu_bit(v: u8, n: u8) -> (b: bool)
    requires
        n < 8,
    ensures
        b == bit_of(v, n),
{
    let m = mask_of(n);
    proof {
        lemma_byte_bit(v, n);
    }
    (v & m) != 0
}

pub fn alu_res(v: u8, n: u8) -> (r: u8)
    requires
        n < 8,
    ensures
        r == res_spec(v, n),
{
    let m = mask_of(n);
    let r = v & !m;
    proof {
        lemma_byte_bit(v, n);
    }
    r
}

pub fn alu_set(v: u8, n: u8) -> (r: u8)
    requires
        n < 8,
    ensures
        r == set_spec(v, n),
{
    let m = mask_of(n);
    let r = v | m;
    proof {
        lemma_byte_bit(v, n);
    }
    r
}

pub fn alu_daa(a: u8, n: bool, h: bool, c: bool) -> (o: AluOut)
    ensures
        o == daa_spec(a, n, h, c),
{
    let mut m: u8 = 0;
    if h || (!n && (a & 0xF) > 9) {
        m = m | 0x06;
    }
    if c || (!n && a > 0x99) {
        m = m | 0x60;
    }
    assert(a & 0xF == a % 16 && (0u8 | 0x06u8) == 6u8 && (0u8 | 0x60u8) == 0x60u8 && (6u8
        | 0x60u8) == 0x66u8) by {
        lemma_byte(a);
    }
    let r = if n {
        a.wrapping_sub(m)
    } else {
        a.wrapping_add(m)
    };
    AluOut { r, h: false, c: m >= 0x60 }
}

pub fn alu_add16(a: u16, b: u16) -> (o: Alu16Out)
    ensures
        o == add16_spec(a, b),
{
    proof {
        lemma_word(a);
        lemma_word(b);
    }
    let h = (a & 0xFFF) + (b & 0xFFF) > 0xFFF;
    let sum = a as u32 + b as u32;
    Alu16Out { r: (sum % 65536) as u16, h, c: sum > 0xFFFF }
}

pub fn alu_sp_offset(sp: u16, n: u8) -> (o: Alu16Out)
    ensures
        o == sp_offset_spec(sp, n),
{
    let e = #[verifier::truncate] (#[verifier::truncate] (n as i8) as i16 as u16);
    let result = sp.wrapping_add(e);
    let op = sp ^ e ^ result;
    assert(e == (if n < 128 {
        n as u16
    } else {
        (n as u16 + 0xFF00) as u16
    })) by (bit_vector)
        requires
            e == n as i8 as i16 as u16,
    ;
    assert(((sp ^ e ^ ((sp + e) as u16)) & 0x10 != 0) == (sp % 16 + n % 16 > 15) && ((sp ^ e ^ ((
    sp + e) as u16)) & 0x100 != 0) == (sp % 256 + n > 255)) by (bit_vector)
        requires
            e == (if n < 128 {
                n as u16
            } else {
                (n as u16 + 0xFF00) as u16
            }),
    ;
    assert(result == (sp + e) as u16) by (bit_vector)
        requires
            result == (if sp + e > u16::MAX {
                (sp + e - 65536) as u16
            } else {
                (sp + e) as u16
            }),
    ;
    assert(result == ((sp + signed(n) + 65536) % 65536) as u16);
    Alu16Out { r: result, h: op & 0x10 != 0, c: op & 0x100 != 0 }
}

/// Subtracting what was added gives back the original byte (modulo 256).
pub proof fn lemma_sub_undoes_add(a: u8, b: u8)
    ensures
        sub_spec(add_spec(a, b, false).r, b, false).r == a,
{
}

/// SWAP is its own inverse.
pub proof fn lemma_swap_involution(v: u8)
    ensures
        swap_spec(swap_spec(v)) == v,
{
}

/// RRC undoes RLC, and RR with the carry that RL produced undoes RL.
pub proof fn lemma_rotations_invert(v: u8, carry: bool)
    ensures
        rrc_spec(rlc_spec(v).r).r == v,
        rr_spec(rl_spec(v, carry).r, rl_spec(v, carry).c).r == v,
        rr_spec(rl_spec(v, carry).r, rl_spec(v, carry).c).c == carry,
{
}

/// SET then BIT reads the bit as set; RES then BIT reads it as clear; other bits stay.
pub proof fn lemma_set_res_bit(v: u8, n: u8)
    requires
        n < 8,
    ensures
        bit_of(set_spec(v, n), n),
        !bit_of(res_spec(v, n), n),
        res_spec(set_spec(v, n), n) == res_spec(v, n),
{
    let k = pow2_8(n);
    assert(k > 0);
    lemma_byte_arith(v);
    assert(!bit_of(v, n) ==> v + k < 256);
    assert(((v + k) / k) == v as int / k + 1) by (nonlinear_arith)
        requires
            k > 0,
    ;
    if bit_of(v, n) {
        assert(v as int >= k) by (nonlinear_arith)
            requires
                (v as int / k) % 2 == 1,
                k > 0,
                v >= 0,
        ;
        assert(((v - k) / k) == v as int / k - 1) by (nonlinear_arith)
            requires
                k > 0,
        ;
    }
}

/// A byte holding two binary-coded decimal digits, each 0 to 9.
pub open spec fn is_bcd(x: u8) -> bool {
    x / 16 <= 9 && x % 16 <= 9
}

/// The number 0 to 99 that a BCD byte stands for.
pub open spec fn bcd_value(x: u8) -> int {
    (x / 16) * 10 + x % 16
}

proof fn lemma_nibbles(r: u8, hi: int, lo: int)
    requires
        r == 16 * hi + lo,
        0 <= lo < 16,
    ensures
        r / 16 == hi,
        r % 16 == lo,
{
}

/// DAA after SUB or SBC of two BCD bytes gives the BCD digits of the decimal
/// difference modulo 100, with carry set exactly when the subtraction borrowed.
pub proof fn lemma_daa_after_sub(x: u8, y: u8, carry: bool)
    requires
        is_bcd(x),
        is_bcd(y),
    ensures
        ({
            let s = sub_spec(x, y, carry);
            let d = daa_spec(s.r, true, s.h, s.c);
            let v = bcd_value(x) - bcd_value(y) - bit_value(carry);
            &&& is_bcd(d.r)
            &&& bcd_value(d.r) == (v + 100) % 100
            &&& d.c == (v < 0)
        }),
{
    let ci = bit_value(carry);
    let xh = x / 16;
    let xl = x % 16;
    let yh = y / 16;
    let yl = y % 16;
    assert(x == 16 * xh + xl && y == 16 * yh + yl);
    let s = sub_spec(x, y, carry);
    let raw = x - y - ci;
    let lo = xl - yl - ci;
    let v = bcd_value(x) - bcd_value(y) - ci;
    assert(raw == 16 * (xh - yh) + lo && v == 10 * (xh - yh) + lo);
    assert(s.c == (raw < 0) && s.c == (v < 0));
    assert(s.h == (lo < 0));
    assert(s.r == (raw + 256) % 256);
    let d = daa_spec(s.r, true, s.h, s.c);
    if !s.h && !s.c {
        assert(s.r == raw);
        lemma_nibbles(d.r, xh - yh, lo);
    } else if !s.h && s.c {
        assert(s.r == raw + 256);
        lemma_nibbles(d.r, xh - yh + 10, lo);
    } else if s.h && !s.c {
        assert(s.r == raw);
        lemma_nibbles(d.r, xh - yh - 1, lo + 10);
    } else {
        assert(s.r == raw + 256);
        lemma_nibbles(d.r, xh - yh + 9, lo + 10);
    }
}

proof fn lemma_daa_add_digits(r: u8, h: bool, c: bool, hi: int, lo: int)
    requires
        0 <= hi <= 18,
        0 <= lo <= 19,
        r == (16 * hi + lo) % 256,
        h == (lo > 15),
        c == (16 * hi + lo > 255),
    ensures
        ({
            let t = if lo > 9 {
                hi + 1
            } else {
                hi
            };
            let d = daa_spec(r, false, h, c);
            &&& d.r == 16 * (if t > 9 {
                t - 10
            } else {
                t
            }) + (if lo > 9 {
                lo - 10
            } else {
                lo
            })
            &&& d.c == (t > 9)
        }),
{
    if lo > 15 {
        if hi + 1 > 15 {
            assert(r == 16 * hi + lo - 256);
            lemma_nibbles(r, hi + 1 - 16, lo - 16);
        } else {
            assert(r == 16 * hi + lo);
            lemma_nibbles(r, hi + 1, lo - 16);
        }
    } else if hi > 15 {
        assert(r == 16 * hi + lo - 256);
        lemma_nibbles(r, hi - 16, lo);
    } else {
        assert(r == 16 * hi + lo);
        lemma_nibbles(r, hi, lo);
    }
}

/// DAA after ADD or ADC of two BCD bytes gives the BCD digits of the decimal
/// sum modulo 100, with carry set exactly when the sum reached 100.
pub proof fn lemma_daa_after_add(x: u8, y: u8, carry: bool)
    requires
        is_bcd(x),
        is_bcd(y),
    ensures
        ({
            let s = add_spec(x, y, carry);
            let d = daa_spec(s.r, false, s.h, s.c);
            let v = bcd_value(x) + bcd_value(y) + bit_value(carry);
            &&& is_bcd(d.r)
            &&& bcd_value(d.r) == v % 100
            &&& d.c == (v >= 100)
        }),
{
    let ci = bit_value(carry);
    let xh = x / 16;
    let xl = x % 16;
    let yh = y / 16;
    let yl = y % 16;
    assert(x == 16 * xh + xl && y == 16 * yh + yl);
    let s = add_spec(x, y, carry);
    let lo = xl + yl + ci;
    let hi = xh + yh;
    assert(s.r == (16 * hi + lo) % 256);
    lemma_daa_add_digits(s.r, s.h, s.c, hi, lo);
    let d = daa_spec(s.r, false, s.h, s.c);
    let t = if lo > 9 {
        hi + 1
    } else {
        hi
    };
    let dl = if lo > 9 {
        lo - 10
    } else {
        lo
    };
    let dh = if t > 9 {
        t - 10
    } else {
        t
    };
    lemma_nibbles(d.r, dh, dl);
    let v = bcd_value(x) + bcd_value(y) + ci;
    assert(v == 10 * hi + lo);
    assert(v == 10 * dh + dl + (if t > 9 {
        100int
    } else {
        0
    }));
    assert(0 <= 10 * dh + dl < 100);
}

} // verus!
