use vstd::prelude::*;

verus! {

/// `x` reduced to 16 bits, as two's complement hardware computes it.
pub open spec fn wrap16(x: int) -> u16 {
    (x % 0x1_0000) as u16
}

/// `x` reduced to 8 bits.
pub open spec fn wrap8(x: int) -> u8 {
    (x % 0x100) as u8
}

pub fn wrapping_add16(x: u16, y: u16) -> (r: u16)
    ensures
        r == wrap16(x + y),
{
    x.wrapping_add(y)
}

pub fn wrapping_sub16(x: u16, y: u16) -> (r: u16)
    ensures
        r == wrap16(x - y),
{
    x.wrapping_sub(y)
}

pub fn wrapping_add8(x: u8, y: u8) -> (r: u8)
    ensures
        r == wrap8(x + y),
{
    x.wrapping_add(y)
}

pub fn wrapping_sub8(x: u8, y: u8) -> (r: u8)
    ensures
        r == wrap8(x - y),
{
    x.wrapping_sub(y)
}

/// A signed byte widened to 16 bits: negative values wrap around 0x10000.
pub proof fn lemma_sign_extend(x: i8)
    by (bit_vector)
    ensures
        x < 0 ==> (x as u16) as int == x as int + 0x1_0000,
        x >= 0 ==> (x as u16) as int == x as int,
{
}

} // verus!
