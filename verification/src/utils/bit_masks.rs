use vstd::prelude::*;

verus! {

pub const BIT_0_MASK: u8 = 0b0000_0001;
pub const BIT_1_MASK: u8 = 0b0000_0010;
pub const BIT_2_MASK: u8 = 0b0000_0100;
pub const BIT_3_MASK: u8 = 0b0000_1000;
pub const BIT_4_MASK: u8 = 0b0001_0000;
pub const BIT_5_MASK: u8 = 0b0010_0000;
pub const BIT_6_MASK: u8 = 0b0100_0000;
pub const BIT_7_MASK: u8 = 0b1000_0000;

/// Whether bit `bit` of `value` is set.
pub open spec fn bit_set(value: u8, bit: u8) -> bool {
    (value >> bit) & 1 == 1
}

/// Sets bit `bit_number` of `value` when `state` holds, clears it otherwise.
pub fn flip_bit_u8(value: &mut u8, bit_number: u8, state: bool)
    requires
        bit_number < 8,
    ensures
        bit_set(*final(value), bit_number) == state,
        forall|i: u8| i < 8 && i != bit_number ==> bit_set(*final(value), i) == bit_set(*old(value), i),
        *final(value) == (if state { *old(value) | (1u8 << bit_number) } else { *old(value) & !(1u8 << bit_number) }),
{
    let old_value = *value;
    if state {
        *value = old_value | (1u8 << bit_number);
    } else {
        *value = old_value & !(1u8 << bit_number);
    }
    let new_value = *value;
    assert(bit_set(new_value, bit_number) == state) by (bit_vector)
        requires
            bit_number < 8,
            new_value == (if state { old_value | (1u8 << bit_number) } else { old_value & !(1u8 << bit_number) }),
    ;
    assert(forall|i: u8| i < 8 && i != bit_number ==> bit_set(new_value, i) == bit_set(old_value, i)) by (bit_vector)
        requires
            bit_number < 8,
            new_value == (if state { old_value | (1u8 << bit_number) } else { old_value & !(1u8 << bit_number) }),
    ;
}

} // verus!
