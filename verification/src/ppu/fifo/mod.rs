pub mod fetching_state;
pub mod background_fetcher;
pub mod sprite_fetcher;

use vstd::prelude::*;

verus! {

pub const FIFO_SIZE: usize = 8;

pub const SPRITE_WIDTH: u8 = 8;

/// The color index of pixel `index` of a tile row: bit `index` of the low byte, with bit
/// `index` of the high byte above it.
pub open spec fn decoded_pixel(index: u8, low_data: u8, high_data: u8) -> u8 {
    ((low_data >> index) & 1) | (((high_data >> index) & 1) << 1u8)
}

pub fn get_decoded_pixel(index: u8, low_data: u8, high_data: u8) -> (r: u8)
    requires
        index < 8,
    ensures
        r == decoded_pixel(index, low_data, high_data),
        r < 4,
{
    let mask: u8 = 1 << index;
    let mut pixel = (low_data & mask) >> index;
    pixel = pixel | (((high_data & mask) >> index) << 1);
    proof {
        lemma_decode_bits(index, low_data, high_data, mask, pixel);
    }
    pixel
}

/// 2 to the power `bit`, for the bits of a byte.
pub open spec fn bit_place(bit: u8) -> u8 {
    if bit == 0 {
        1
    } else if bit == 1 {
        2
    } else if bit == 2 {
        4
    } else if bit == 3 {
        8
    } else if bit == 4 {
        16
    } else if bit == 5 {
        32
    } else if bit == 6 {
        64
    } else {
        128
    }
}

/// The bit facts of a decoded pixel: the masks and shifts pick bit `index` of each byte, which
/// is the byte divided by 2 to the power `index`, modulo 2.
proof fn lemma_decode_bits(index: u8, low_data: u8, high_data: u8, mask: u8, pixel: u8)
    by (bit_vector)
    requires
        index < 8,
    ensures
        mask == 1u8 << index && pixel == ((low_data & mask) >> index) | (((high_data & mask) >> index) << 1u8)
            ==> pixel == decoded_pixel(index, low_data, high_data) && pixel < 4,
        decoded_pixel(index, low_data, high_data) == (low_data / bit_place(index)) % 2 + 2 * ((high_data
            / bit_place(index)) % 2),
{
}

/// The color index of pixel `index` of a tile row is bit `index` of the low byte plus twice bit
/// `index` of the high byte, the bits taken as the byte divided by 2 to the power `index`,
/// modulo 2.
pub proof fn lemma_decoded_pixel(index: u8, low_data: u8, high_data: u8)
    requires
        index < 8,
    ensures
        decoded_pixel(index, low_data, high_data) == (low_data / bit_place(index)) % 2 + 2 * ((high_data
            / bit_place(index)) % 2),
{
    lemma_decode_bits(index, low_data, high_data, 0, 0);
}

} // verus!
