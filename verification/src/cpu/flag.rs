use vstd::prelude::*;

verus! {

/// The flags of the F register, each one a bit of its high nibble.
#[derive(Clone, Copy, PartialEq, Eq, Structural)]
pub enum Flag {
    Zero,
    Subtraction,
    HalfCarry,
    Carry,
}

/// The bit of the F register that stands for the flag.
pub open spec fn flag_mask(flag: Flag) -> u8 {
    match flag {
        Flag::Zero => 0x80,
        Flag::Subtraction => 0x40,
        Flag::HalfCarry => 0x20,
        Flag::Carry => 0x10,
    }
}

impl Flag {
    pub fn mask(self) -> (r: u8)
        ensures
            r == flag_mask(self),
    {
        match self {
            Flag::Zero => 0x80,
            Flag::Subtraction => 0x40,
            Flag::HalfCarry => 0x20,
            Flag::Carry => 0x10,
        }
    }
}

} // verus!
