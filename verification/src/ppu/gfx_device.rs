use vstd::prelude::*;

verus! {

pub const SCREEN_HEIGHT: usize = 144;

pub const SCREEN_WIDTH: usize = 160;

/// The pixels of one frame.
pub const FRAME_SIZE: usize = 23040;

/// A pixel in RGB565: red in the high 5 bits, green in the middle 6, blue in the low 5.
pub type Pixel = u16;

/// Shows the frames the PPU draws.
pub trait GfxDevice {
    fn swap_buffer(&mut self, buffer: &[Pixel; FRAME_SIZE]);
}

} // verus!
