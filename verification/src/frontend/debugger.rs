//! Input decisions of the desktop debugger: the joypad state from the host
//! keys held, and the value a register editor produces.
use vstd::prelude::*;
use vstd::string::StrSliceExecFns;
use vstd::string::StringExecFns;
use crate::frontend::saves::string_push;
use crate::errors::YargeError;
use crate::cpu::CpuView;
use crate::gameboy::{Gameboy, header_readable, load_result, loaded_cartridge, booted_with, steps_spec, post_boot_registers};
use crate::regs::{Registers, Reg16};
use crate::mmu::{MmuView, MEM_SIZE};

verus! {

/// A Game Boy button, with its bit in the joypad state.
#[derive(Clone, Copy, PartialEq, Eq, Debug, Structural)]
pub enum Key {
    Right,
    Left,
    Up,
    Down,
    A,
    B,
    Select,
    Start,
}

/// The bit of a button: the directions in bits 0-3 (right, left, up,
/// down), then A, B, Select and Start in bits 4-7.
pub open spec fn key_bit_spec(k: Key) -> u8 {
    match k {
        Key::Right => 0x01,
        Key::Left => 0x02,
        Key::Up => 0x04,
        Key::Down => 0x08,
        Key::A => 0x10,
        Key::B => 0x20,
        Key::Select => 0x40,
        Key::Start => 0x80,
    }
}

pub fn key_bit(k: Key) -> (r: u8)
    ensures
        r == key_bit_spec(k),
{
    match k {
        Key::Right => 0x01,
        Key::Left => 0x02,
        Key::Up => 0x04,
        Key::Down => 0x08,
        Key::A => 0x10,
        Key::B => 0x20,
        Key::Select => 0x40,
        Key::Start => 0x80,
    }
}

/// A key of the host keyboard that the debugger maps to a button.
#[derive(Clone, Copy, PartialEq, Eq, Debug, Structural)]
pub enum HostKey {
    Q,
    Z,
    J,
    E,
    X,
    K,
    LShift,
    RShift,
    Space,
    LControl,
    Return,
    W,
    A,
    S,
    D,
    Up,
    Left,
    Down,
    Right,
}

/// The button a host key presses: Q, Z and J are A; E, X and K are B; the
/// shift keys and space are Select; left control and return are Start;
/// WASD and the arrow keys are the directions.
pub open spec fn button_of(h: HostKey) -> Key {
    match h {
        HostKey::Q | HostKey::Z | HostKey::J => Key::A,
        HostKey::E | HostKey::X | HostKey::K => Key::B,
        HostKey::LShift | HostKey::RShift | HostKey::Space => Key::Select,
        HostKey::LControl | HostKey::Return => Key::Start,
        HostKey::W | HostKey::Up => Key::Up,
        HostKey::A | HostKey::Left => Key::Left,
        HostKey::S | HostKey::Down => Key::Down,
        HostKey::D | HostKey::Right => Key::Right,
    }
}

fn button(h: HostKey) -> (r: Key)
    ensures
        r == button_of(h),
{
    match h {
        HostKey::Q | HostKey::Z | HostKey::J => Key::A,
        HostKey::E | HostKey::X | HostKey::K => Key::B,
        HostKey::LShift | HostKey::RShift | HostKey::Space => Key::Select,
        HostKey::LControl | HostKey::Return => Key::Start,
        HostKey::W | HostKey::Up => Key::Up,
        HostKey::A | HostKey::Left => Key::Left,
        HostKey::S | HostKey::Down => Key::Down,
        HostKey::D | HostKey::Right => Key::Right,
    }
}

/// The joypad state for the host keys held: the bits of their buttons.
pub open spec fn joypad_spec(held: Seq<HostKey>) -> u8
    decreases held.len(),
{
    if held.len() == 0 {
        0
    } else {
        joypad_spec(held.drop_last()) | key_bit_spec(button_of(held.last()))
    }
}

/// The joypad state for the host keys held.
pub fn joypad_state(held: &[HostKey]) -> (r: u8)
    ensures
        r == joypad_spec(held@),
{
    let mut state: u8 = 0;
    let mut i: usize = 0;
    while i < held.len()
        invariant
            i <= held@.len(),
            state == joypad_spec(held@.take(i as int)),
        decreases held@.len() - i,
    {
        assert(held@.take(i + 1).drop_last() =~= held@.take(i as int));
        state = state | key_bit(button(held[i]));
        i += 1;
    }
    assert(held@.take(held@.len() as int) =~= held@);
    state
}

/// A button of a held key is pressed in the joypad state, and a button no
/// held key maps to is not.
pub proof fn lemma_joypad_bits(held: Seq<HostKey>, k: Key)
    ensures
        (joypad_spec(held) & key_bit_spec(k) != 0) <==> exists|i: int|
            0 <= i < held.len() && button_of(#[trigger] held[i]) == k,
    decreases held.len(),
{
    let m = key_bit_spec(k);
    if held.len() == 0 {
        assert(0u8 & m == 0) by (bit_vector);
    } else {
        let rest = held.drop_last();
        lemma_joypad_bits(rest, k);
        let a = joypad_spec(rest);
        let b = key_bit_spec(button_of(held.last()));
        assert((a | b) & m != 0 <==> (a & m != 0 || b & m != 0)) by (bit_vector);
        lemma_key_bits_distinct(button_of(held.last()), k);
        if exists|i: int| 0 <= i < rest.len() && button_of(#[trigger] rest[i]) == k {
            let i = choose|i: int| 0 <= i < rest.len() && button_of(#[trigger] rest[i]) == k;
            assert(held[i] == rest[i]);
        }
        if exists|i: int| 0 <= i < held.len() && button_of(#[trigger] held[i]) == k {
            let i = choose|i: int| 0 <= i < held.len() && button_of(#[trigger] held[i]) == k;
            if i < rest.len() {
                assert(rest[i] == held[i]);
            }
        }
    }
}

proof fn lemma_key_bits_distinct(a: Key, b: Key)
    ensures
        (key_bit_spec(a) & key_bit_spec(b) != 0) <==> a == b,
{
    let x = key_bit_spec(a);
    let y = key_bit_spec(b);
    assert((x == 1 || x == 2 || x == 4 || x == 8 || x == 16 || x == 32 || x == 64 || x == 128) && (
    y == 1 || y == 2 || y == 4 || y == 8 || y == 16 || y == 32 || y == 64 || y == 128) ==> ((x & y
        != 0) <==> x == y)) by (bit_vector);
}

/// Unicode White_Space: tab to carriage return, space, next line,
/// no-break space, ogham space mark, the spaces U+2000-U+200A, the line
/// and paragraph separators, narrow no-break space, medium mathematical
/// space and ideographic space.
pub open spec fn white_space(c: char) -> bool {
    let u = c as u32;
    ||| 0x09 <= u <= 0x0D
    ||| u == 0x20 || u == 0x85 || u == 0xA0 || u == 0x1680
    ||| 0x2000 <= u <= 0x200A
    ||| u == 0x2028 || u == 0x2029 || u == 0x202F || u == 0x205F || u == 0x3000
}

/// `s` without its leading white space.
pub open spec fn trim_start_spec(s: Seq<char>) -> Seq<char>
    decreases s.len(),
{
    if s.len() > 0 && white_space(s[0]) {
        trim_start_spec(s.drop_first())
    } else {
        s
    }
}

/// `s` without its trailing white space.
pub open spec fn trim_end_spec(s: Seq<char>) -> Seq<char>
    decreases s.len(),
{
    if s.len() > 0 && white_space(s.last()) {
        trim_end_spec(s.drop_last())
    } else {
        s
    }
}

/// `s` without leading and trailing white space.
pub open spec fn trim_spec(s: Seq<char>) -> Seq<char> {
    trim_end_spec(trim_start_spec(s))
}

/// Calls `str::trim`, which per its documentation removes leading and
/// trailing characters with the Unicode White_Space property.
#[verifier::external_body]
fn str_trim(s: &str) -> (r: &str)
    ensures
        r@ == trim_spec(s@),
{
    s.trim()
}

/// The value of a hexadecimal digit (0-9, a-f, A-F).
pub open spec fn hex_digit(c: char) -> Option<nat> {
    if '0' <= c && c <= '9' {
        Some((c as u32 - '0' as u32) as nat)
    } else if 'a' <= c && c <= 'f' {
        Some((c as u32 - 'a' as u32 + 10) as nat)
    } else if 'A' <= c && c <= 'F' {
        Some((c as u32 - 'A' as u32 + 10) as nat)
    } else {
        None
    }
}

/// The value of a string of hexadecimal digits, or `None` if a character
/// is not one.
pub open spec fn hex_value(s: Seq<char>) -> Option<nat>
    decreases s.len(),
{
    if s.len() == 0 {
        Some(0)
    } else {
        match (hex_value(s.drop_last()), hex_digit(s.last())) {
            (Some(v), Some(d)) => Some(v * 16 + d),
            _ => None,
        }
    }
}

/// What `u16::from_str_radix(s, 16)` gives, per its documentation: an
/// optional '+' followed by at least one hexadecimal digit, whose value
/// must fit in 16 bits.
pub open spec fn parse_hex_spec(s: Seq<char>) -> Option<u16> {
    let digits = if s.len() > 0 && s[0] == '+' {
        s.drop_first()
    } else {
        s
    };
    if digits.len() == 0 {
        None
    } else {
        match hex_value(digits) {
            Some(v) => if v <= 0xFFFF {
                Some(v as u16)
            } else {
                None
            },
            None => None,
        }
    }
}

/// Calls `u16::from_str_radix` with radix 16, keeping the value when it
/// parses.
#[verifier::external_body]
fn parse_hex_u16(s: &str) -> (r: Option<u16>)
    ensures
        r == parse_hex_spec(s@),
{
    u16::from_str_radix(s, 16).ok()
}

/// `s` with every '0' removed.
pub open spec fn without_zeros(s: Seq<char>) -> Seq<char>
    decreases s.len(),
{
    if s.len() == 0 {
        Seq::empty()
    } else if s.last() == '0' {
        without_zeros(s.drop_last())
    } else {
        without_zeros(s.drop_last()).push(s.last())
    }
}

/// What happened to a register editor this frame.
pub enum EditEvent {
    /// The "-" button was clicked.
    Decrement,
    /// The "+" button was clicked.
    Increment,
    /// The text field was changed to this text.
    Edited(String),
}

/// The value a register editor produces: none while editing is not
/// allowed; the value minus or plus the step (wrapping) for the buttons;
/// for an edit, the text read as hexadecimal, with a leading zero added and
/// white space trimmed, after the zeros are dropped when the old value was
/// zero (so typing into "0" replaces it); none if that does not parse.
pub open spec fn edit_result_spec(value: u16, allow_edit: bool, step: u16, event: EditEvent) -> Option<u16> {
    if !allow_edit {
        None
    } else {
        match event {
            EditEvent::Decrement => Some(((value - step) % 0x10000) as u16),
            EditEvent::Increment => Some(((value + step) % 0x10000) as u16),
            EditEvent::Edited(text) => {
                let t = if value == 0 {
                    without_zeros(text@)
                } else {
                    text@
                };
                parse_hex_spec(seq!['0'] + trim_spec(t))
            },
        }
    }
}

/// The value a register editor produces (see [`edit_result_spec`]).
pub fn u16_edit_result(value: u16, allow_edit: bool, step: u16, event: EditEvent) -> (r: Option<u16>)
    ensures
        r == edit_result_spec(value, allow_edit, step, event),
{
    if !allow_edit {
        return None;
    }
    match event {
        EditEvent::Decrement => Some(value.wrapping_sub(step)),
        EditEvent::Increment => Some(value.wrapping_add(step)),
        EditEvent::Edited(text) => {
            let t = if value == 0 {
                remove_zeros(text.as_str())
            } else {
                text
            };
            let mut s = String::new();
            string_push(&mut s, '0');
            s.append(str_trim(t.as_str()));
            parse_hex_u16(s.as_str())
        },
    }
}

fn remove_zeros(text: &str) -> (r: String)
    ensures
        r@ == without_zeros(text@),
{
    let mut r = String::new();
    let n = text.unicode_len();
    let mut i: usize = 0;
    while i < n
        invariant
            i <= n,
            n == text@.len(),
            r@ == without_zeros(text@.take(i as int)),
        decreases n - i,
    {
        let c = text.get_char(i);
        assert(text@.take(i + 1).drop_last() =~= text@.take(i as int));
        if c != '0' {
            string_push(&mut r, c);
        }
        i += 1;
    }
    assert(text@.take(n as int) =~= text@);
    r
}

/// The value written to AF from its editor: a single hex digit is taken
/// as the flags nibble (shifted into the high half of F), anything larger
/// as it is.
pub fn af_from_edit(v: u16) -> (r: u16)
    ensures
        r == (if v <= 0xF {
            v * 16
        } else {
            v as int
        }),
{
    if v <= 0xF {
        assert(v <= 0xF ==> v << 4u16 == v * 16) by (bit_vector);
        v << 4u16
    } else {
        v
    }
}

/// A click in the debugger window that the emulation reacts to.
#[derive(Clone, Copy, PartialEq, Eq, Debug, Structural)]
pub enum GuiClick {
    /// File > Exit.
    FileExit,
    /// File > Reset.
    FileReset,
    /// Exit on the error panel.
    ErrorExit,
    /// Reset on the error panel.
    ErrorReset,
    /// Continue on the error panel.
    ErrorContinue,
}

fn has_click(clicks: &[GuiClick], c: GuiClick) -> (r: bool)
    ensures
        r == clicks@.contains(c),
{
    let mut i: usize = 0;
    while i < clicks.len()
        invariant
            i <= clicks@.len(),
            forall|k: int| 0 <= k < i ==> clicks@[k] != c,
        decreases clicks@.len() - i,
    {
        if clicks[i] == c {
            return true;
        }
        i += 1;
    }
    false
}

/// The debugger's state that its window decides on: the console, whether
/// it runs on its own, how the last run ended, and whether the window is
/// shown.
pub struct GuiState {
    pub gb: Gameboy,
    pub gb_running: bool,
    pub gb_result: Result<(), YargeError>,
    pub enable_gui: bool,
    /// How many steps "Run for" runs.
    pub step_amount: usize,
}

/// A register the debugger window edits.
#[derive(Clone, Copy, PartialEq, Eq, Debug, Structural)]
pub enum EditedRegister {
    AF,
    BC,
    DE,
    HL,
    SP,
    PC,
}

/// The value of an edited register.
pub open spec fn register_value(r: Registers, reg: EditedRegister) -> u16 {
    match reg {
        EditedRegister::AF => r.r16(Reg16::AF),
        EditedRegister::BC => r.r16(Reg16::BC),
        EditedRegister::DE => r.r16(Reg16::DE),
        EditedRegister::HL => r.r16(Reg16::HL),
        EditedRegister::SP => r.sp,
        EditedRegister::PC => r.pc,
    }
}

/// The registers with `reg` set to `v`; a value written to AF goes through
/// `af_from_edit`.
pub open spec fn with_register(r: Registers, reg: EditedRegister, v: u16) -> Registers {
    match reg {
        EditedRegister::AF => r.with_r16(Reg16::AF, (if v <= 0xF { v * 16 } else { v as int }) as u16),
        EditedRegister::BC => r.with_r16(Reg16::BC, v),
        EditedRegister::DE => r.with_r16(Reg16::DE, v),
        EditedRegister::HL => r.with_r16(Reg16::HL, v),
        EditedRegister::SP => Registers { sp: v, ..r },
        EditedRegister::PC => Registers { pc: v, ..r },
    }
}

/// The step of the "-" and "+" buttons: 0x10 for AF (one flag nibble),
/// 1 for the others.
pub open spec fn register_step(reg: EditedRegister) -> u16 {
    if reg == EditedRegister::AF {
        0x10
    } else {
        1
    }
}

/// The bus after each write of `writes` in turn.
pub open spec fn writes_applied(m: MmuView, writes: Seq<(u16, u8)>) -> MmuView
    decreases writes.len(),
{
    if writes.len() == 0 {
        m
    } else {
        writes_applied(m, writes.drop_last()).write(writes.last().0, writes.last().1)
    }
}

/// Whether the last run ended in an error the panel offers to continue
/// from.
pub open spec fn recoverable_error(r: Result<(), YargeError>) -> bool {
    match r {
        Err(e) => e.recoverable(),
        Ok(_) => false,
    }
}

impl GuiState {
    /// The step buttons work only while paused and without an error.
    pub fn can_step(&self) -> (r: bool)
        ensures
            r == (!self.gb_running && self.gb_result is Ok),
    {
        !self.gb_running && self.gb_result.is_ok()
    }

    /// Acts on the clicks of one frame of the window and returns whether to
    /// exit. With the window hidden nothing happens. Otherwise: File > Exit
    /// exits, and so does the error panel's Exit while an error is shown;
    /// File > Reset, or the panel's Reset while an error is shown, resets
    /// the console, pauses and clears the error; the panel's Continue,
    /// offered only for a recoverable error, pauses and clears the error.
    pub fn gui(&mut self, clicks: &[GuiClick]) -> (exit: bool)
        ensures
            !old(self).enable_gui ==> !exit && final(self).gb == old(self).gb && final(self).gb_running
                == old(self).gb_running && final(self).gb_result == old(self).gb_result,
            old(self).enable_gui ==> ({
                let shown = old(self).gb_result is Err;
                let reset = clicks@.contains(GuiClick::FileReset) || (shown && clicks@.contains(
                    GuiClick::ErrorReset,
                ));
                let cont = recoverable_error(old(self).gb_result) && clicks@.contains(
                    GuiClick::ErrorContinue,
                );
                &&& exit == (clicks@.contains(GuiClick::FileExit) || (shown && clicks@.contains(
                    GuiClick::ErrorExit,
                )))
                &&& reset ==> final(self).gb.cpu@ == CpuView::power_on()
                    && !final(self).gb.bios_disabled && final(self).gb.cartridge is None
                &&& !reset ==> final(self).gb == old(self).gb
                &&& final(self).gb_running == (if reset || cont {
                    false
                } else {
                    old(self).gb_running
                })
                &&& final(self).gb_result == (if reset || cont {
                    Ok(())
                } else {
                    old(self).gb_result
                })
            }),
            final(self).enable_gui == old(self).enable_gui,
    {
        if !self.enable_gui {
            return false;
        }
        let shown = self.gb_result.is_err();
        let recoverable = match &self.gb_result {
            Err(e) => e.is_recoverable(),
            Ok(_) => false,
        };
        let exit = has_click(clicks, GuiClick::FileExit) || (shown && has_click(
            clicks,
            GuiClick::ErrorExit,
        ));
        let reset = has_click(clicks, GuiClick::FileReset) || (shown && has_click(
            clicks,
            GuiClick::ErrorReset,
        ));
        let cont = recoverable && has_click(clicks, GuiClick::ErrorContinue);
        if reset {
            self.gb.reset();
        }
        if reset || cont {
            self.gb_running = false;
            self.gb_result = Ok(());
        }
        exit
    }

    /// "Run for": while paused and without an error, runs `step_amount`
    /// steps and keeps how they ended; otherwise nothing happens.
    pub fn run_for(&mut self)
        requires
            old(self).gb.cpu@.wf(),
        ensures
            final(self).gb.cpu@.wf(),
            !old(self).gb_running && old(self).gb_result is Ok ==> final(self).gb.cpu@ == steps_spec(
                old(self).gb.cpu@,
                old(self).step_amount as nat,
            ).0 && final(self).gb_result == steps_spec(old(self).gb.cpu@, old(self).step_amount as nat).1,
            !(!old(self).gb_running && old(self).gb_result is Ok) ==> final(self).gb.cpu@ == old(
                self,
            ).gb.cpu@ && final(self).gb_result == old(self).gb_result,
            final(self).gb.bios_disabled == old(self).gb.bios_disabled,
            final(self).gb.cartridge == old(self).gb.cartridge,
            final(self).gb_running == old(self).gb_running,
            final(self).step_amount == old(self).step_amount,
            final(self).enable_gui == old(self).enable_gui,
    {
        if self.can_step() {
            self.gb_result = self.gb.run_steps(self.step_amount);
        }
    }

    /// Emulation > Skip bootrom, offered only while the boot ROM runs.
    pub fn skip_bootrom(&mut self)
        ensures
            !old(self).gb.bios_disabled ==> final(self).gb.bios_disabled && final(self).gb.cpu@ == (
            CpuView { reg: post_boot_registers(old(self).gb.cpu.reg), ..old(self).gb.cpu@ }),
            old(self).gb.bios_disabled ==> final(self).gb.cpu@ == old(self).gb.cpu@
                && final(self).gb.bios_disabled,
            final(self).gb.cartridge == old(self).gb.cartridge,
            final(self).gb_running == old(self).gb_running,
            final(self).gb_result == old(self).gb_result,
    {
        if !self.gb.bios_disabled {
            self.gb.skip_bootrom();
        }
    }

    /// A register editor of the window (editable only while paused): the
    /// value it produces (see `u16_edit_result`) is written to the register.
    pub fn edit_register(&mut self, reg: EditedRegister, event: EditEvent)
        ensures
            ({
                let old_regs = old(self).gb.cpu.reg;
                let v = edit_result_spec(
                    register_value(old_regs, reg),
                    !old(self).gb_running,
                    register_step(reg),
                    event,
                );
                final(self).gb.cpu.reg == (match v {
                    Some(x) => with_register(old_regs, reg, x),
                    None => old_regs,
                })
            }),
            final(self).gb.cpu@ == (CpuView { reg: final(self).gb.cpu.reg, ..old(self).gb.cpu@ }),
            final(self).gb.bios_disabled == old(self).gb.bios_disabled,
            final(self).gb.cartridge == old(self).gb.cartridge,
            final(self).gb_running == old(self).gb_running,
            final(self).gb_result == old(self).gb_result,
    {
        let value = match reg {
            EditedRegister::AF => self.gb.cpu.reg.get16(Reg16::AF),
            EditedRegister::BC => self.gb.cpu.reg.get16(Reg16::BC),
            EditedRegister::DE => self.gb.cpu.reg.get16(Reg16::DE),
            EditedRegister::HL => self.gb.cpu.reg.get16(Reg16::HL),
            EditedRegister::SP => self.gb.cpu.reg.sp,
            EditedRegister::PC => self.gb.cpu.reg.pc,
        };
        let step: u16 = if reg == EditedRegister::AF {
            0x10
        } else {
            1
        };
        match u16_edit_result(value, !self.gb_running, step, event) {
            Some(v) => match reg {
                EditedRegister::AF => self.gb.cpu.reg.set16(Reg16::AF, af_from_edit(v)),
                EditedRegister::BC => self.gb.cpu.reg.set16(Reg16::BC, v),
                EditedRegister::DE => self.gb.cpu.reg.set16(Reg16::DE, v),
                EditedRegister::HL => self.gb.cpu.reg.set16(Reg16::HL, v),
                EditedRegister::SP => self.gb.cpu.reg.sp = v,
                EditedRegister::PC => self.gb.cpu.reg.pc = v,
            },
            None => {},
        }
    }

    /// Sets or clears the PC breakpoint at `addr`.
    pub fn set_pc_breakpoint(&mut self, addr: u16, on: bool)
        requires
            old(self).gb.cpu@.wf(),
        ensures
            final(self).gb.cpu@ == (CpuView {
                breakpoints: old(self).gb.cpu@.breakpoints.update(addr as int, on),
                ..old(self).gb.cpu@
            }),
            final(self).gb.cpu@.wf(),
            final(self).gb.bios_disabled == old(self).gb.bios_disabled,
            final(self).gb_running == old(self).gb_running,
            final(self).gb_result == old(self).gb_result,
    {
        self.gb.cpu.pc_breakpoints.set(addr as usize, on);
    }

    /// Turns the LD B,B breakpoint on or off.
    pub fn set_ld_breakpoint(&mut self, on: bool)
        ensures
            final(self).gb.cpu@ == (CpuView { ld_breakpoint: on, ..old(self).gb.cpu@ }),
            final(self).gb.bios_disabled == old(self).gb.bios_disabled,
            final(self).gb_running == old(self).gb_running,
            final(self).gb_result == old(self).gb_result,
    {
        self.gb.cpu.ld_breakpoint = on;
    }

    /// The "Fun" menu's memory corruption: each (address, value) pair, drawn
    /// at random by the caller within the chosen area, is written through the
    /// bus in turn.
    pub fn corrupt(&mut self, writes: &[(u16, u8)])
        requires
            old(self).gb.cpu@.wf(),
        ensures
            final(self).gb.cpu@ == (CpuView {
                mmu: writes_applied(old(self).gb.cpu@.mmu, writes@),
                ..old(self).gb.cpu@
            }),
            final(self).gb.cpu@.wf(),
            final(self).gb_running == old(self).gb_running,
            final(self).gb_result == old(self).gb_result,
    {
        let ghost start = self.gb.cpu@;
        let mut i: usize = 0;
        while i < writes.len()
            invariant
                i <= writes@.len(),
                start == old(self).gb.cpu@,
                start.wf(),
                self.gb.cpu@.wf(),
                self.gb.cpu@ == (CpuView { mmu: writes_applied(start.mmu, writes@.take(i as int)), ..start }),
                self.gb_running == old(self).gb_running,
                self.gb_result == old(self).gb_result,
            decreases writes@.len() - i,
        {
            let (addr, value) = writes[i];
            assert(writes@.take(i + 1).drop_last() =~= writes@.take(i as int));
            self.gb.cpu.mmu.wb(addr, value);
            i += 1;
        }
        assert(writes@.take(writes@.len() as int) =~= writes@);
    }

    /// A ROM file was dropped on the window: the console is reset and the
    /// image loaded; the emulation starts running if the load succeeds.
    pub fn load_dropped(&mut self, data: &[u8]) -> (ok: bool)
        requires
            header_readable(data@),
        ensures
            ok <==> load_result(data@) is Ok,
            ok ==> final(self).gb_running,
            !ok ==> final(self).gb_running == old(self).gb_running,
            ok ==> final(self).gb.cpu@ == booted_with(data@),
            ok ==> (final(self).gb.cartridge matches Some(c) && loaded_cartridge(c, data@)),
            !ok ==> final(self).gb.cpu@ == CpuView::power_on() && final(self).gb.cartridge is None,
            !final(self).gb.bios_disabled,
            final(self).gb.cpu@.wf(),
            final(self).gb_result == old(self).gb_result,
            final(self).enable_gui == old(self).enable_gui,
    {
        self.gb.reset();
        let ok = self.gb.load_rom(data).is_ok();
        if ok {
            self.gb_running = true;
        }
        ok
    }

    /// One frame of input: a dropped file is loaded (see `load_dropped`),
    /// Ctrl+G shows or hides the window, and the buttons of the held keys
    /// become the console's joypad state.
    pub fn handle_input(&mut self, held: &[HostKey], toggle_gui: bool, dropped: Option<&[u8]>)
        requires
            dropped matches Some(d) ==> header_readable(d@),
            old(self).gb.cpu@.wf(),
        ensures
            final(self).enable_gui == (old(self).enable_gui != toggle_gui),
            final(self).gb.cpu@.mmu.keys == joypad_spec(held@),
            final(self).gb.cpu@.wf(),
            dropped is None ==> final(self).gb.cpu@ == (CpuView {
                mmu: old(self).gb.cpu@.mmu.with_keys(joypad_spec(held@)),
                ..old(self).gb.cpu@
            }) && final(self).gb_running == old(self).gb_running,
            dropped matches Some(d) ==> (final(self).gb_running <==> (old(self).gb_running
                || load_result(d@) is Ok)),
            dropped matches Some(d) ==> final(self).gb.cpu@ == (CpuView {
                mmu: (if load_result(d@) is Ok {
                    booted_with(d@)
                } else {
                    CpuView::power_on()
                }).mmu.with_keys(joypad_spec(held@)),
                ..(if load_result(d@) is Ok {
                    booted_with(d@)
                } else {
                    CpuView::power_on()
                })
            }),
            dropped matches Some(d) ==> !final(self).gb.bios_disabled && (if load_result(d@) is Ok {
                final(self).gb.cartridge matches Some(c) && loaded_cartridge(c, d@)
            } else {
                final(self).gb.cartridge is None
            }),
            dropped is None ==> final(self).gb.bios_disabled == old(self).gb.bios_disabled
                && final(self).gb.cartridge == old(self).gb.cartridge,
            final(self).gb_result == old(self).gb_result,
    {
        match dropped {
            Some(d) => {
                self.load_dropped(d);
            },
            None => {},
        }
        if toggle_gui {
            self.enable_gui = !self.enable_gui;
        }
        let state = joypad_state(held);
        self.gb.set_key_state_all(state);
    }
}

} // verus!
