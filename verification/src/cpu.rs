//! The SM83 CPU core: memory access with cycle accounting, the stack,
//! interrupt handling and the fetch/execute step.
use vstd::prelude::*;
use vstd::std_specs::bits::u8_trailing_zeros;
use crate::errors::YargeError;
use crate::mmu::{
    Mmu, MmuView, MEM_SIZE, is_plain, lemma_read_after_write, lemma_write_other_address,
    lemma_tick_keeps_memory,
};
use crate::regs::{Registers, add16, join, lo, hi};
use crate::instructions::{cpu_instructions, cpu_instructions_cb};
use crate::isa::{execute_spec, execute_cb_spec};

verus! {

/// The interrupt sources, by their bit in IE and IF.
#[derive(Clone, Copy, PartialEq, Eq)]
pub enum Interrupt {
    VBlank,
    Stat,
    Timer,
    Joypad,
}

/// The bit of an interrupt in IE and IF.
pub open spec fn interrupt_bit(interrupt: Interrupt) -> u8 {
    match interrupt {
        Interrupt::VBlank => 0,
        Interrupt::Stat => 1,
        Interrupt::Timer => 2,
        Interrupt::Joypad => 4,
    }
}

/// `iif` with the request bit of `interrupt` set.
pub open spec fn with_interrupt(iif: u8, interrupt: Interrupt) -> u8 {
    iif | (1u8 << interrupt_bit(interrupt))
}

/// Whether the CPU executes instructions or waits.
#[derive(Clone, Copy, PartialEq, Eq, Structural)]
pub enum CpuState {
    Running,
    Halt,
    Stop,
}

pub struct Cpu {
    pub reg: Registers,
    pub mmu: Mmu,
    pub state: CpuState,
    /// EI takes effect after the next instruction.
    pub ime_pending: bool,
    /// The interrupt master enable.
    pub ime: bool,
    /// Clocks spent in the current step.
    pub t: usize,
    /// Addresses at which execution stops with a breakpoint error.
    pub pc_breakpoints: Vec<bool>,
    /// Whether `LD B,B` stops execution with a breakpoint error.
    pub ld_breakpoint: bool,
}

/// The abstract state of the CPU and its bus.
#[verifier::ext_equal]
pub struct CpuView {
    pub reg: Registers,
    pub mmu: MmuView,
    pub state: CpuState,
    pub ime_pending: bool,
    pub ime: bool,
    pub t: nat,
    pub breakpoints: Seq<bool>,
    pub ld_breakpoint: bool,
}

impl View for Cpu {
    type V = CpuView;

    open spec fn view(&self) -> CpuView {
        CpuView {
            reg: self.reg,
            mmu: self.mmu@,
            state: self.state,
            ime_pending: self.ime_pending,
            ime: self.ime,
            t: self.t as nat,
            breakpoints: self.pc_breakpoints@,
            ld_breakpoint: self.ld_breakpoint,
        }
    }
}

impl CpuView {
    /// The CPU at power-on: registers as after reset, running, interrupts
    /// off and none pending, no clocks spent, no breakpoints, and the bus at
    /// power-on.
    pub open spec fn power_on() -> CpuView {
        CpuView {
            reg: Registers::new_spec(),
            mmu: MmuView::power_on(),
            state: CpuState::Running,
            ime_pending: false,
            ime: false,
            t: 0,
            breakpoints: Seq::new(MEM_SIZE as nat, |i: int| false),
            ld_breakpoint: false,
        }
    }

    /// The bus is well formed, every address has a breakpoint flag, and
    /// the clocks spent are whole machine cycles.
    pub open spec fn wf(self) -> bool {
        &&& self.mmu.wf()
        &&& self.breakpoints.len() == MEM_SIZE
        &&& self.t % 4 == 0
    }

    pub open spec fn with_reg(self, reg: Registers) -> CpuView {
        CpuView { reg, ..self }
    }

    /// Room left in the cycle counter for `clocks` more clocks.
    pub open spec fn has_time(self, clocks: nat) -> bool {
        self.t + clocks <= usize::MAX
    }
}

/// One machine cycle: four clocks pass and every component on the bus ticks.
pub open spec fn cycled(c: CpuView) -> CpuView {
    CpuView { t: c.t + 4, mmu: c.mmu.tick(), ..c }
}

/// `n` machine cycles.
pub open spec fn cycled_n(c: CpuView, n: nat) -> CpuView
    decreases n,
{
    if n == 0 {
        c
    } else {
        cycled(cycled_n(c, (n - 1) as nat))
    }
}

/// A timed read: one cycle passes, then the bus is read.
pub open spec fn rb_spec(c: CpuView, addr: u16) -> (CpuView, u8) {
    let c1 = cycled(c);
    (c1, c1.mmu.read(addr))
}

/// A timed write: one cycle passes, then the bus is written.
pub open spec fn wb_spec(c: CpuView, addr: u16, value: u8) -> CpuView {
    let c1 = cycled(c);
    CpuView { mmu: c1.mmu.write(addr, value), ..c1 }
}

/// A timed 16-bit little-endian read.
pub open spec fn rw_spec(c: CpuView, addr: u16) -> (CpuView, u16) {
    let (c1, l) = rb_spec(c, addr);
    let (c2, h) = rb_spec(c1, add16(addr, 1));
    (c2, join(h, l))
}

/// A timed 16-bit little-endian write.
pub open spec fn ww_spec(c: CpuView, addr: u16, value: u16) -> CpuView {
    wb_spec(wb_spec(c, addr, lo(value)), add16(addr, 1), hi(value))
}

/// Reads the byte at PC and advances PC.
pub open spec fn fetch_spec(c: CpuView) -> (CpuView, u8) {
    let (c1, v) = rb_spec(c, c.reg.pc);
    (c1.with_reg(Registers { pc: add16(c.reg.pc, 1), ..c1.reg }), v)
}

/// Reads the word at PC and advances PC by two.
pub open spec fn fetch_word_spec(c: CpuView) -> (CpuView, u16) {
    let (c1, v) = rw_spec(c, c.reg.pc);
    (c1.with_reg(Registers { pc: add16(c.reg.pc, 2), ..c1.reg }), v)
}

/// Pushes a word: SP drops by two, then the word is written at SP.
pub open spec fn push_spec(c: CpuView, value: u16) -> CpuView {
    let c1 = c.with_reg(Registers { sp: add16(c.reg.sp, 65534), ..c.reg });
    ww_spec(c1, c1.reg.sp, value)
}

/// Pops a word: it is read at SP, then SP rises by two.
pub open spec fn pop_spec(c: CpuView) -> (CpuView, u16) {
    let (c1, v) = rw_spec(c, c.reg.sp);
    (c1.with_reg(Registers { sp: add16(c.reg.sp, 2), ..c1.reg }), v)
}

/// The address of the handler of interrupt number `i`.
pub open spec fn interrupt_vector(i: u8) -> u16 {
    (0x40 + 8 * i) as u16
}

/// Calls the handler of interrupt `i`: PC is pushed (without bus cycles of
/// its own), PC jumps to the vector, the request bit is cleared, interrupts
/// are disabled and five machine cycles pass.
pub open spec fn dispatch_spec(c: CpuView, i: u8) -> CpuView {
    let sp = add16(c.reg.sp, 65534);
    let mmu = c.mmu.write16(sp, c.reg.pc);
    let c1 = CpuView {
        reg: Registers { sp, pc: interrupt_vector(i), ..c.reg },
        mmu: MmuView { iif: mmu.iif & !(1u8 << i), ..mmu },
        ime_pending: false,
        ime: false,
        ..c
    };
    cycled_n(c1, 5)
}

pub open spec fn update_ime_spec(c: CpuView) -> CpuView {
    if c.ime_pending {
        CpuView { ime: true, ime_pending: false, ..c }
    } else {
        c
    }
}

/// A requested and enabled interrupt wakes a halted CPU; if the master
/// enable is set, the lowest-numbered one among the five sources is served.
pub open spec fn check_interrupts_spec(c: CpuView) -> CpuView {
    let check = c.mmu.iie & c.mmu.iif;
    if check != 0 {
        let c1 = if c.state == CpuState::Halt {
            CpuView { state: CpuState::Running, ..c }
        } else {
            c
        };
        let i = u8_trailing_zeros(check);
        if c1.ime && i < 5 {
            dispatch_spec(c1, i as u8)
        } else {
            c1
        }
    } else {
        c
    }
}

/// The breakpoint check after an instruction that started at `addr`.
pub open spec fn breakpoint_spec(c: CpuView, addr: u16) -> Result<(), YargeError> {
    if c.breakpoints[addr as int] {
        Err(YargeError::PcBreakpoint { addr, instr: c.mmu.read(addr) })
    } else {
        Ok(())
    }
}

/// One step of the CPU: pending EI takes effect, interrupts are checked,
/// then a waiting CPU idles for one cycle while a running one fetches and
/// executes one instruction (two opcode bytes for the CB prefix). The result
/// is the number of clocks spent, or the error that stopped execution.
pub open spec fn step_spec(c: CpuView) -> (CpuView, Result<usize, YargeError>) {
    let c0 = check_interrupts_spec(update_ime_spec(CpuView { t: 0, ..c }));
    if c0.state != CpuState::Running {
        let c1 = cycled(c0);
        (c1, Ok(c1.t as usize))
    } else {
        let pc = c0.reg.pc;
        let (c1, op) = fetch_spec(c0);
        let (c2, r) = if op != 0xCB {
            execute_spec(c1, op)
        } else {
            let (c1b, op2) = fetch_spec(c1);
            execute_cb_spec(c1b, op2)
        };
        match r {
            Err(e) => (c2, Err(e)),
            Ok(_) => match breakpoint_spec(c2, pc) {
                Err(e) => (c2, Err(e)),
                Ok(_) => (c2, Ok(c2.t as usize)),
            },
        }
    }
}

impl Cpu {
    pub fn new() -> (r: Self)
        ensures
            r@.wf(),
            r@ == CpuView::power_on(),
            r.reg == Registers::new_spec(),
            r.state == CpuState::Running,
            !r.ime,
            !r.ime_pending,
            r.t == 0,
            forall|i: int| 0 <= i < MEM_SIZE ==> !r@.breakpoints[i],
    {
        let pc_breakpoints = vec![false; MEM_SIZE];
        assert(pc_breakpoints@ =~= Seq::new(MEM_SIZE as nat, |i: int| false));
        Self {
            reg: Registers::new(),
            mmu: Mmu::new(),
            state: CpuState::Running,
            ime_pending: false,
            ime: false,
            t: 0,
            pc_breakpoints,
            ld_breakpoint: false,
        }
    }

    /// Stops with a breakpoint error if `addr` is marked as a breakpoint.
    pub fn check_pc_breakpoints(&mut self, addr: u16) -> (r: Result<(), YargeError>)
        requires
            old(self)@.wf(),
        ensures
            *final(self) == *old(self),
            r == breakpoint_spec(old(self)@, addr),
    {
        if self.pc_breakpoints[addr as usize] {
            let instr = self.mmu.rb(addr);
            Err(YargeError::PcBreakpoint { instr, addr })
        } else {
            Ok(())
        }
    }

    pub fn cycle(&mut self)
        requires
            old(self)@.wf(),
            old(self)@.has_time(4),
        ensures
            final(self)@ == cycled(old(self)@),
            final(self)@.wf(),
            final(self)@.t == old(self)@.t + 4,
    {
        self.t = self.t + 4;
        self.mmu.tick_components();
    }

    pub fn rb(&mut self, addr: u16) -> (r: u8)
        requires
            old(self)@.wf(),
            old(self)@.has_time(4),
        ensures
            (final(self)@, r) == rb_spec(old(self)@, addr),
            final(self)@.wf(),
            final(self)@.t == old(self)@.t + 4,
    {
        self.cycle();
        self.mmu.rb(addr)
    }

    pub fn wb(&mut self, addr: u16, value: u8)
        requires
            old(self)@.wf(),
            old(self)@.has_time(4),
        ensures
            final(self)@ == wb_spec(old(self)@, addr, value),
            final(self)@.wf(),
            final(self)@.t >= old(self)@.t,
    {
        self.cycle();
        self.mmu.wb(addr, value);
    }

    pub fn rw(&mut self, addr: u16) -> (r: u16)
        requires
            old(self)@.wf(),
            old(self)@.has_time(8),
        ensures
            (final(self)@, r) == rw_spec(old(self)@, addr),
            final(self)@.wf(),
            final(self)@.t >= old(self)@.t,
    {
        let l = self.rb(addr);
        let h = self.rb(addr.wrapping_add(1));
        crate::regs::pair(h, l)
    }

    pub fn ww(&mut self, addr: u16, value: u16)
        requires
            old(self)@.wf(),
            old(self)@.has_time(8),
        ensures
            final(self)@ == ww_spec(old(self)@, addr, value),
            final(self)@.wf(),
            final(self)@.t >= old(self)@.t,
    {
        self.wb(addr, crate::regs::low_byte(value));
        self.wb(addr.wrapping_add(1), crate::regs::high_byte(value));
    }

    pub fn fetch(&mut self) -> (r: u8)
        requires
            old(self)@.wf(),
            old(self)@.has_time(4),
        ensures
            (final(self)@, r) == fetch_spec(old(self)@),
            final(self)@.wf(),
            final(self)@.t == old(self)@.t + 4,
    {
        let op = self.rb(self.reg.pc);
        self.reg.inc_pc(1);
        op
    }

    pub fn fetch_word(&mut self) -> (r: u16)
        requires
            old(self)@.wf(),
            old(self)@.has_time(8),
        ensures
            (final(self)@, r) == fetch_word_spec(old(self)@),
            final(self)@.wf(),
            final(self)@.t >= old(self)@.t,
    {
        let op = self.rw(self.reg.pc);
        self.reg.inc_pc(2);
        op
    }

    pub fn push(&mut self, value: u16)
        requires
            old(self)@.wf(),
            old(self)@.has_time(8),
        ensures
            final(self)@ == push_spec(old(self)@, value),
            final(self)@.wf(),
            final(self)@.t >= old(self)@.t,
    {
        self.reg.dec_sp(2);
        self.ww(self.reg.sp, value);
    }

    pub fn pop(&mut self) -> (r: u16)
        requires
            old(self)@.wf(),
            old(self)@.has_time(8),
        ensures
            (final(self)@, r) == pop_spec(old(self)@),
            final(self)@.wf(),
            final(self)@.t >= old(self)@.t,
    {
        let value = self.rw(self.reg.sp);
        self.reg.inc_sp(2);
        value
    }

    /// DI: interrupts are disabled at once, cancelling a pending EI.
    pub fn disable_ime(&mut self)
        ensures
            *final(self) == (Cpu { ime_pending: false, ime: false, ..*old(self) }),
    {
        self.ime_pending = false;
        self.ime = false;
    }

    /// EI: interrupts become enabled after the next instruction.
    pub fn enable_ime(&mut self)
        ensures
            *final(self) == (Cpu { ime_pending: true, ..*old(self) }),
    {
        self.ime_pending = true;
    }

    /// Requests an interrupt by setting its bit in the IF register.
    pub fn set_interrupt(iif: &mut u8, interrupt: Interrupt)
        ensures
            *final(iif) == with_interrupt(*old(iif), interrupt),
    {
        let bit: u8 = match interrupt {
            Interrupt::VBlank => 0,
            Interrupt::Stat => 1,
            Interrupt::Timer => 2,
            Interrupt::Joypad => 4,
        };
        *iif = *iif | (1u8 << bit);
    }

    pub fn dispatch_interrupt(&mut self, i: u8)
        requires
            old(self)@.wf(),
            old(self)@.has_time(20),
            i < 5,
        ensures
            final(self)@ == dispatch_spec(old(self)@, i),
            final(self)@.wf(),
            final(self)@.t >= old(self)@.t,
            final(self)@.t == old(self)@.t + 20,
    {
        self.reg.dec_sp(2);
        self.mmu.ww(self.reg.sp, self.reg.pc);
        self.reg.pc = 0x40 + 8 * i as u16;
        self.mmu.iif = self.mmu.iif & !(1u8 << i);
        self.disable_ime();
        let ghost start = self@;
        let mut n: u8 = 0;
        while n < 5
            invariant
                0 <= n <= 5,
                self@ == cycled_n(start, n as nat),
                self@.t == start.t + 4 * n,
                start.wf(),
                start.has_time(20),
                self@.wf(),
            decreases 5 - n,
        {
            self.cycle();
            n = n + 1;
        }
    }

    pub fn update_ime(&mut self)
        ensures
            final(self)@ == update_ime_spec(old(self)@),
            final(self).mmu == old(self).mmu,
            final(self).pc_breakpoints == old(self).pc_breakpoints,
    {
        if self.ime_pending {
            self.ime = true;
            self.ime_pending = false;
        }
    }

    pub fn check_interrupts(&mut self)
        requires
            old(self)@.wf(),
            old(self)@.has_time(20),
        ensures
            final(self)@ == check_interrupts_spec(old(self)@),
            final(self)@.wf(),
            final(self)@.t >= old(self)@.t,
            final(self)@.t <= old(self)@.t + 20,
    {
        let check = self.mmu.iie & self.mmu.iif;
        if check != 0 {
            if self.state == CpuState::Halt {
                self.state = CpuState::Running;
            }
            if self.ime {
                let int_type = check.trailing_zeros();
                if int_type < 5 {
                    self.dispatch_interrupt(int_type as u8);
                }
            }
        }
    }

    /// Runs one step (see [`step_spec`]) and returns the clocks it took:
    /// at least one machine cycle, and whole machine cycles of four clocks.
    pub fn step(&mut self) -> (r: Result<usize, YargeError>)
        requires
            old(self)@.wf(),
        ensures
            (final(self)@, r) == step_spec(old(self)@),
            final(self)@.wf(),
            r matches Ok(n) ==> n % 4 == 0 && n >= 4,
    {
        self.t = 0;
        self.update_ime();
        self.check_interrupts();
        if self.state != CpuState::Running {
            self.cycle();
            return Ok(self.t);
        }
        let pc_value = self.reg.pc;
        let mut op = self.fetch();
        if op != 0xCB {
            cpu_instructions(self, op)?;
        } else {
            op = self.fetch();
            cpu_instructions_cb(self, op)?;
        }
        self.check_pc_breakpoints(pc_value)?;
        Ok(self.t)
    }
}

/// `n` machine cycles add `4 * n` clocks and leave the registers, the CPU
/// state, the interrupt enables and the breakpoints as they were.
pub proof fn lemma_cycled_n(c: CpuView, n: nat)
    ensures
        cycled_n(c, n).t == c.t + 4 * n,
        cycled_n(c, n).reg == c.reg,
        cycled_n(c, n).state == c.state,
        cycled_n(c, n).ime == c.ime,
        cycled_n(c, n).ime_pending == c.ime_pending,
        cycled_n(c, n).breakpoints == c.breakpoints,
        cycled_n(c, n).mmu.mem == c.mmu.mem,
    decreases n,
{
    if n > 0 {
        lemma_cycled_n(c, (n - 1) as nat);
    }
}

/// Two bytes written with one cycle in between read back unchanged after a
/// further cycle, when both addresses are plain memory.
proof fn lemma_write16_then_read(m: MmuView, a: u16, b: u16, l: u8, h: u8)
    requires
        m.wf(),
        is_plain(a),
        is_plain(b),
        a != b,
    ensures
        ({
            let m2 = m.tick().write(a, l).tick().write(b, h);
            &&& m2.tick().read(a) == l
            &&& m2.tick().tick().read(b) == h
        }),
{
    let m1 = m.tick();
    lemma_tick_keeps_memory(m, a);
    let w1 = m1.write(a, l);
    lemma_read_after_write(m1, a, l);
    let t1 = w1.tick();
    lemma_tick_keeps_memory(w1, a);
    let m2 = t1.write(b, h);
    lemma_write_other_address(t1, b, a, h);
    lemma_read_after_write(t1, b, h);
    lemma_tick_keeps_memory(m2, a);
    lemma_tick_keeps_memory(m2, b);
    lemma_tick_keeps_memory(m2.tick(), b);
}

/// Popping right after a push gives back the pushed word and restores SP,
/// provided both stack bytes are plain memory; the pair takes four cycles.
#[verifier::rlimit(60)]
pub proof fn lemma_push_then_pop(c: CpuView, value: u16)
    requires
        c.wf(),
        is_plain(add16(c.reg.sp, 65534)),
        is_plain(add16(c.reg.sp, 65535)),
    ensures
        pop_spec(push_spec(c, value)).1 == value,
        pop_spec(push_spec(c, value)).0.reg == c.reg,
        pop_spec(push_spec(c, value)).0.t == c.t + 16,
{
    let sp1 = add16(c.reg.sp, 65534);
    let sp2 = add16(sp1, 1);
    assert(sp2 == add16(c.reg.sp, 65535));
    lemma_write16_then_read(c.mmu, sp1, sp2, lo(value), hi(value));
    assert(join(hi(value), lo(value)) == value);
    assert(add16(sp1, 2) == c.reg.sp);
}

/// A 16-bit write to two plain addresses stores the low byte first, then the high byte.
proof fn lemma_write16_bytes(m: MmuView, a: u16, v: u16)
    requires
        m.wf(),
        is_plain(a),
        is_plain(add16(a, 1)),
    ensures
        m.write16(a, v).mem[a as int] == lo(v),
        m.write16(a, v).mem[add16(a, 1) as int] == hi(v),
        m.write16(a, v).wf(),
{
    let w1 = m.write(a, lo(v));
    lemma_read_after_write(m, a, lo(v));
    lemma_write_other_address(w1, add16(a, 1), a, hi(v));
    lemma_read_after_write(w1, add16(a, 1), hi(v));
}

/// Popping reads back two plain bytes that no write has touched since.
proof fn lemma_pop_plain(d: CpuView)
    requires
        d.wf(),
        is_plain(d.reg.sp),
        is_plain(add16(d.reg.sp, 1)),
    ensures
        pop_spec(d).1 == join(d.mmu.mem[add16(d.reg.sp, 1) as int], d.mmu.mem[d.reg.sp as int]),
        pop_spec(d).0.reg.sp == add16(d.reg.sp, 2),
{
    lemma_tick_keeps_memory(d.mmu, d.reg.sp);
    lemma_tick_keeps_memory(d.mmu.tick(), add16(d.reg.sp, 1));
    lemma_tick_keeps_memory(d.mmu, add16(d.reg.sp, 1));
}

/// Serving an interrupt pushes the interrupted PC and jumps to the handler
/// with interrupts disabled; popping in the handler (as RETI does) returns
/// that PC and restores SP, when both stack bytes are plain memory.
#[verifier::rlimit(60)]
pub proof fn lemma_dispatch_then_reti(c: CpuView, i: u8)
    requires
        c.wf(),
        i < 5,
        is_plain(add16(c.reg.sp, 65534)),
        is_plain(add16(c.reg.sp, 65535)),
    ensures
        dispatch_spec(c, i).reg.pc == interrupt_vector(i),
        !dispatch_spec(c, i).ime,
        !dispatch_spec(c, i).ime_pending,
        dispatch_spec(c, i).t == c.t + 20,
        pop_spec(dispatch_spec(c, i)).1 == c.reg.pc,
        pop_spec(dispatch_spec(c, i)).0.reg.sp == c.reg.sp,
{
    let sp1 = add16(c.reg.sp, 65534);
    assert(add16(sp1, 1) == add16(c.reg.sp, 65535));
    lemma_write16_bytes(c.mmu, sp1, c.reg.pc);
    let m = c.mmu.write16(sp1, c.reg.pc);
    let c1 = CpuView {
        reg: Registers { sp: sp1, pc: interrupt_vector(i), ..c.reg },
        mmu: MmuView { iif: m.iif & !(1u8 << i), ..m },
        ime_pending: false,
        ime: false,
        ..c
    };
    lemma_cycled_n(c1, 5);
    lemma_cycled_wf(c1, 5);
    lemma_pop_plain(cycled_n(c1, 5));
    assert(join(hi(c.reg.pc), lo(c.reg.pc)) == c.reg.pc);
    assert(add16(sp1, 2) == c.reg.sp);
}

/// A step that serves interrupt `i` into a handler starting with NOP takes
/// 24 clocks (20 for the dispatch, 4 for the NOP): the interrupted PC is on
/// the stack, PC is just past the NOP and interrupts are off. The stack
/// bytes must be plain memory, away from the handler's first byte, and no
/// breakpoint may sit there.
#[verifier::rlimit(60)]
pub proof fn lemma_dispatch_then_nop(c: CpuView, i: u8)
    requires
        c.wf(),
        c.ime,
        c.state == CpuState::Running,
        c.mmu.iie & c.mmu.iif != 0,
        u8_trailing_zeros(c.mmu.iie & c.mmu.iif) == i,
        i < 5,
        is_plain(add16(c.reg.sp, 65534)),
        is_plain(add16(c.reg.sp, 65535)),
        add16(c.reg.sp, 65534) != interrupt_vector(i),
        add16(c.reg.sp, 65535) != interrupt_vector(i),
        c.mmu.mem[interrupt_vector(i) as int] == 0,
        !c.breakpoints[interrupt_vector(i) as int],
    ensures
        step_spec(c).1 == Ok::<usize, YargeError>(24),
        step_spec(c).0.reg.pc == interrupt_vector(i) + 1,
        step_spec(c).0.reg.sp == add16(c.reg.sp, 65534),
        step_spec(c).0.mmu.mem[add16(c.reg.sp, 65534) as int] == lo(c.reg.pc),
        step_spec(c).0.mmu.mem[add16(c.reg.sp, 65535) as int] == hi(c.reg.pc),
        !step_spec(c).0.ime,
{
    let c0 = update_ime_spec(CpuView { t: 0, ..c });
    assert(c0.ime && c0.state == CpuState::Running);
    let sp1 = add16(c.reg.sp, 65534);
    assert(add16(sp1, 1) == add16(c.reg.sp, 65535));
    lemma_write16_bytes(c0.mmu, sp1, c0.reg.pc);
    let m = c0.mmu.write16(sp1, c0.reg.pc);
    lemma_write_other_address(c0.mmu, sp1, interrupt_vector(i), lo(c0.reg.pc));
    lemma_write_other_address(c0.mmu.write(sp1, lo(c0.reg.pc)), add16(sp1, 1), interrupt_vector(i), hi(c0.reg.pc));
    let c1 = CpuView {
        reg: Registers { sp: sp1, pc: interrupt_vector(i), ..c0.reg },
        mmu: MmuView { iif: m.iif & !(1u8 << i), ..m },
        ime_pending: false,
        ime: false,
        ..c0
    };
    lemma_cycled_n(c1, 5);
    lemma_cycled_wf(c1, 5);
    let d = cycled_n(c1, 5);
    assert(d == dispatch_spec(c0, i));
    assert(check_interrupts_spec(c0) == d);
    assert(is_plain(interrupt_vector(i)));
    lemma_tick_keeps_memory(d.mmu, interrupt_vector(i));
    assert(d.mmu.mem[interrupt_vector(i) as int] == 0);
    let (e, op) = fetch_spec(d);
    assert(op == 0);
    assert(execute_spec(e, 0) == (e, Ok::<(), YargeError>(())));
    assert(e.t == 24);
}

/// Cycling keeps the bus well-formed.
proof fn lemma_cycled_wf(c: CpuView, n: nat)
    requires
        c.mmu.wf(),
    ensures
        cycled_n(c, n).mmu.wf(),
    decreases n,
{
    if n > 0 {
        lemma_cycled_wf(c, (n - 1) as nat);
        lemma_tick_keeps_memory(cycled_n(c, (n - 1) as nat).mmu, 0);
    }
}

/// EI takes effect one step later: the flag is pending after EI and is
/// turned into the master enable at the start of the next step.
pub proof fn lemma_ei_delayed(c: CpuView)
    requires
        c.ime_pending,
    ensures
        update_ime_spec(c).ime,
        !update_ime_spec(c).ime_pending,
{
}

} // verus!
