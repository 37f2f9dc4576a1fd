use vstd::prelude::*;

verus! {

/// Errors raised while emulating.
#[derive(Clone, Copy, Debug, PartialEq, Eq)]
pub enum YargeError {
    /// An opcode the CPU does not implement, with the address it was fetched from.
    InvalidInstruction { instr: u8, addr: u16 },
    /// A cartridge header names a memory bank controller that is not supported.
    InvalidMbcType(u8),
    /// A ROM image whose size does not match the cartridge.
    InvalidRomSize(usize),
    /// Execution reached an address marked as a breakpoint.
    PcBreakpoint { addr: u16, instr: u8 },
    /// The `LD B,B` software breakpoint was executed.
    LdBreakpoint { addr: u16 },
}

impl YargeError {
    pub open spec fn recoverable(self) -> bool {
        match self {
            YargeError::PcBreakpoint { .. } | YargeError::LdBreakpoint { .. } => true,
            _ => false,
        }
    }

    /// Breakpoint stops can be resumed; every other error ends emulation.
    pub fn is_recoverable(&self) -> (r: bool)
        ensures
            r == self.recoverable(),
    {
        match self {
            YargeError::PcBreakpoint { .. } | YargeError::LdBreakpoint { .. } => true,
            _ => false,
        }
    }
}

} // verus!
