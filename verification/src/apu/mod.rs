pub mod audio_device;
pub mod timer;
pub mod sound_terminal;
pub mod sample_producer;
pub mod channel;

use vstd::prelude::*;

verus! {

/// Two square channels, the wave channel and the noise channel.
pub const NUMBER_OF_CHANNELS: usize = 4;

} // verus!
