//! Events the PPU can report for debugging.
use vstd::prelude::*;

verus! {

#[derive(Clone, Copy, PartialEq, Eq, Debug, Structural)]
pub enum Event {
    /// The pixel position advanced on line `ly` after `cycles` cycles.
    PpuLxInc { lx: u8, ly: u8, cycles: u16 },
}

/// A list of recorded events.
pub struct EventRecorder {
    pub list: Vec<Event>,
}

} // verus!
