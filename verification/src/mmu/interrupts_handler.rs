use vstd::prelude::*;

verus! {

/// What the interrupt controller asks of the CPU.
#[derive(Clone, Copy, PartialEq, Eq, Structural)]
pub enum InterruptRequest {
    Unhalt,
    Interrupt(u16),
    NoInterrupt,
}

} // verus!
