//! A 512 Hz frame sequencer counted in CPU cycles.
use vstd::prelude::*;

verus! {

pub const FRAME_SEQUENCER_MAX_CYCLES: u16 = 8192;
pub const FRAME_SEQUENCER_STEPS: u8 = 8;

#[derive(Clone, Copy)]
pub struct FrameSequencer {
    pub cycles: u16,
    pub step: u8,
}

impl FrameSequencer {
    pub fn new() -> (r: Self)
        ensures
            r == (FrameSequencer { cycles: 0, step: 0 }),
    {
        FrameSequencer { cycles: 0, step: 0 }
    }

    /// Counts one cycle; every 8192 cycles the counter restarts and the step
    /// advances through the eight steps 0-7, and the new step is returned.
    pub fn tick(&mut self) -> (r: Option<u8>)
        requires
            old(self).cycles < 0xFFFF,
        ensures
            old(self).cycles + 1 >= FRAME_SEQUENCER_MAX_CYCLES ==> *final(self) == (FrameSequencer {
                cycles: 0,
                step: ((old(self).step + 1) % 8) as u8,
            }) && r == Some(final(self).step),
            old(self).cycles + 1 < FRAME_SEQUENCER_MAX_CYCLES ==> *final(self) == (FrameSequencer {
                cycles: (old(self).cycles + 1) as u16,
                ..*old(self)
            }) && r is None,
            final(self).cycles < FRAME_SEQUENCER_MAX_CYCLES,
            old(self).step < FRAME_SEQUENCER_STEPS ==> final(self).step < FRAME_SEQUENCER_STEPS,
    {
        self.cycles += 1;
        if self.cycles >= FRAME_SEQUENCER_MAX_CYCLES {
            self.cycles = 0;
            self.step = (self.step % FRAME_SEQUENCER_STEPS + 1) % FRAME_SEQUENCER_STEPS;
            Some(self.step)
        } else {
            None
        }
    }
}

} // verus!
