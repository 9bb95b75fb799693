use vstd::prelude::*;
use crate::utils::bit_masks::bit_set;

verus! {

/// The flags of a CGB tile attribute byte.
#[derive(Clone, Copy, PartialEq, Eq, Structural, Debug)]
pub struct Attributes {
    /// Bit 7: the background is drawn over the objects.
    pub bg_priority: bool,
    /// Bit 6: the tile is mirrored vertically.
    pub flip_y: bool,
    /// Bit 5: the tile is mirrored horizontally.
    pub flip_x: bool,
    /// Bit 3: the tile data comes from VRAM bank 1.
    pub gbc_bank: bool,
}

/// The attributes of a background tile on the CGB: its flags and its palette (bits 0 to 2).
#[derive(Clone, Copy, PartialEq, Eq, Structural, Debug)]
pub struct GbcBackgroundAttributes {
    pub attribute: Attributes,
    pub cgb_pallete_number: u8,
}

/// The attributes an attribute byte encodes.
pub open spec fn decode_attributes(value: u8) -> GbcBackgroundAttributes {
    GbcBackgroundAttributes {
        attribute: Attributes {
            bg_priority: bit_set(value, 7),
            flip_y: bit_set(value, 6),
            flip_x: bit_set(value, 5),
            gbc_bank: bit_set(value, 3),
        },
        cgb_pallete_number: value & 0b111,
    }
}

impl GbcBackgroundAttributes {
    pub fn new(value: u8) -> (r: Self)
        ensures
            r == decode_attributes(value),
            r.cgb_pallete_number < 8,
    {
        let r = GbcBackgroundAttributes {
            attribute: Attributes {
                bg_priority: value & 0x80 != 0,
                flip_y: value & 0x40 != 0,
                flip_x: value & 0x20 != 0,
                gbc_bank: value & 0x08 != 0,
            },
            cgb_pallete_number: value & 0b111,
        };
        proof {
            lemma_attribute_bits(value);
        }
        r
    }
}

/// An object (sprite) of the OAM: its position (bottom right corner offset by 16 and 8),
/// its tile, its flags, its palettes (DMG bit 4, CGB bits 0 to 2), and the columns of it that
/// show (from `visibility_start` up to, not including, `visibility_end`).
#[derive(Clone, Copy, PartialEq, Eq, Structural, Debug)]
pub struct SpriteAttributes {
    pub y: u8,
    pub x: u8,
    pub tile_number: u8,
    pub attributes: Attributes,
    pub gb_palette_number: bool,
    pub gbc_palette_number: u8,
    pub visibility_start: u8,
    pub visibility_end: u8,
}

/// The object that an OAM entry and a visible range describe.
pub open spec fn decode_sprite(y: u8, x: u8, tile_number: u8, attributes: u8, visibility_start: u8, visibility_end: u8) -> SpriteAttributes {
    SpriteAttributes {
        y,
        x,
        tile_number,
        attributes: decode_attributes(attributes).attribute,
        gb_palette_number: bit_set(attributes, 4),
        gbc_palette_number: attributes & 0b111,
        visibility_start,
        visibility_end,
    }
}

impl SpriteAttributes {
    pub fn new(y: u8, x: u8, tile_number: u8, attributes: u8, visibility_start: u8, visibility_end: u8) -> (r: Self)
        ensures
            r == decode_sprite(y, x, tile_number, attributes, visibility_start, visibility_end),
            r.gbc_palette_number < 8,
    {
        let flags = GbcBackgroundAttributes::new(attributes);
        let gb_palette_number = attributes & 0x10 != 0;
        proof {
            lemma_attribute_bits(attributes);
        }
        SpriteAttributes {
            y,
            x,
            tile_number,
            attributes: flags.attribute,
            gb_palette_number,
            gbc_palette_number: flags.cgb_pallete_number,
            visibility_start,
            visibility_end,
        }
    }
}

/// The flags of an attribute byte are its bits, and its palette is below 8.
proof fn lemma_attribute_bits(value: u8)
    by (bit_vector)
    ensures
        (value & 0x80 != 0) == bit_set(value, 7),
        (value & 0x40 != 0) == bit_set(value, 6),
        (value & 0x20 != 0) == bit_set(value, 5),
        (value & 0x10 != 0) == bit_set(value, 4),
        (value & 0x08 != 0) == bit_set(value, 3),
        value & 0b111 < 8,
{
}

} // verus!
