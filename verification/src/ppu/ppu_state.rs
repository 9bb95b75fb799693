use vstd::prelude::*;

verus! {

/// The mode of the PPU, as bits 0 and 1 of the STAT register report it.
#[derive(Clone, Copy, PartialEq, Eq, Structural, Debug)]
pub enum PpuState {
    Hblank,
    Vblank,
    OamSearch,
    PixelTransfer,
}

/// The number the STAT register shows for each mode.
pub open spec fn state_number(state: PpuState) -> u8 {
    match state {
        PpuState::Hblank => 0b00,
        PpuState::Vblank => 0b01,
        PpuState::OamSearch => 0b10,
        PpuState::PixelTransfer => 0b11,
    }
}

impl PpuState {
    /// The number the STAT register shows for this mode.
    pub fn number(self) -> (r: u8)
        ensures
            r == state_number(self),
    {
        match self {
            PpuState::Hblank => 0b00,
            PpuState::Vblank => 0b01,
            PpuState::OamSearch => 0b10,
            PpuState::PixelTransfer => 0b11,
        }
    }
}

} // verus!
