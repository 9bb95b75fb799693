pub mod bit_masks;
pub mod wrapping;
pub mod memory_registers;
pub mod fixed_size_queue;
pub mod fixed_size_set;
pub mod stack_string;
pub mod static_allocator;
pub mod vec2;

use vstd::prelude::*;

verus! {

/// The clock frequency in m-cycles (one m-cycle is 4 t-cycles).
pub const GB_FREQUENCY: u32 = 1_048_576;

} // verus!
