use vstd::prelude::*;

verus! {

/// PPU phase of the current scanline.
#[derive(Debug, Clone, Copy, PartialEq, Eq, Structural)]
pub enum State {
    OamScan,
    Drawing,
    HBlank,
    VBlank,
}

impl State {
    pub open spec fn mode_bits(self) -> u8 {
        match self {
            State::OamScan => 2,
            State::Drawing => 3,
            State::HBlank => 0,
            State::VBlank => 1,
        }
    }

    /// The STAT mode number of this phase.
    pub fn as_u8(&self) -> (r: u8)
        ensures
            r == self.mode_bits(),
    {
        match self {
            State::OamScan => 2,
            State::Drawing => 3,
            State::HBlank => 0,
            State::VBlank => 1,
        }
    }
}

} // verus!
