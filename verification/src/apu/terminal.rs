//! An output terminal (left or right) of the sound mixer.
use vstd::prelude::*;

verus! {

#[derive(Clone, Copy)]
pub struct Terminal {
    pub vin: bool,
    pub volume: u8,
    pub enabled_channels: (bool, bool, bool, bool),
}

impl Terminal {
    /// Silent, with no channel routed to it.
    pub open spec fn new_spec() -> Terminal {
        Terminal { vin: false, volume: 0, enabled_channels: (false, false, false, false) }
    }

    pub fn new() -> (r: Self)
        ensures
            r == Terminal::new_spec(),
    {
        Terminal { vin: false, volume: 0, enabled_channels: (false, false, false, false) }
    }
}

} // verus!
