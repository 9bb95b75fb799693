use vstd::prelude::*;
use super::gfx_device::Pixel;

verus! {

#[derive(Clone, Copy, PartialEq, Eq, Structural, Debug)]
pub struct Color {
    pub r: u8,
    pub g: u8,
    pub b: u8,
}

/// The four shades of the DMG: 0 is white, then light gray, dark gray and black.
pub open spec fn shade(number: u8) -> Color {
    if number == 0 {
        Color { r: 255, g: 255, b: 255 }
    } else if number == 1 {
        Color { r: 160, g: 160, b: 160 }
    } else if number == 2 {
        Color { r: 64, g: 64, b: 64 }
    } else {
        Color { r: 0, g: 0, b: 0 }
    }
}

/// The DMG shade with the given number (0 to 3).
pub fn shade_color(number: u8) -> (c: Color)
    requires
        number < 4,
    ensures
        c == shade(number),
{
    match number {
        0 => Color { r: 255, g: 255, b: 255 },
        1 => Color { r: 160, g: 160, b: 160 },
        2 => Color { r: 64, g: 64, b: 64 },
        _ => Color { r: 0, g: 0, b: 0 },
    }
}

impl Default for Color {
    fn default() -> (c: Color)
        ensures
            c == (Color { r: 0, g: 0, b: 0 }),
    {
        Color { r: 0, g: 0, b: 0 }
    }
}

/// The RGB565 pixel of a color: red in the high 5 bits, green in the middle 6, blue in the
/// low 5.
pub open spec fn pixel_of(color: Color) -> Pixel {
    ((((color.r >> 3u8) as u16) << 11u16) | (((color.g >> 2u8) as u16) << 5u16) | ((color.b >> 3u8) as u16)) as u16
}

/// The color of a BGR555 value: red in the low 5 bits, then green, then blue, each widened
/// to 8 bits.
pub open spec fn color_of_bgr555(color: u16) -> Color {
    Color {
        r: (((color & 0x1F) as u8) << 3u8) as u8,
        g: ((((color >> 5u16) & 0x1F) as u8) << 3u8) as u8,
        b: ((((color >> 10u16) & 0x1F) as u8) << 3u8) as u8,
    }
}

/// The color of an RGB888 value: red in bits 16 to 23, green in 8 to 15, blue in 0 to 7.
pub open spec fn color_of_rgb888(color: u32) -> Color {
    Color {
        r: ((color >> 16u32) & 0xFF) as u8,
        g: ((color >> 8u32) & 0xFF) as u8,
        b: (color & 0xFF) as u8,
    }
}

impl From<Color> for u16 {
    fn from(color: Color) -> (p: u16) {
        (((color.r >> 3) as u16) << 11) | (((color.g >> 2) as u16) << 5) | ((color.b >> 3) as u16)
    }
}

impl vstd::std_specs::convert::FromSpecImpl<Color> for u16 {
    open spec fn obeys_from_spec() -> bool {
        true
    }

    open spec fn from_spec(color: Color) -> u16 {
        pixel_of(color)
    }
}

impl From<u16> for Color {
    fn from(color: u16) -> (c: Color) {
        Color {
            r: ((color & 0b1_1111) as u8) << 3,
            g: (((color >> 5) & 0b1_1111) as u8) << 3,
            b: (((color >> 10) & 0b1_1111) as u8) << 3,
        }
    }
}

impl vstd::std_specs::convert::FromSpecImpl<u16> for Color {
    open spec fn obeys_from_spec() -> bool {
        true
    }

    open spec fn from_spec(color: u16) -> Color {
        color_of_bgr555(color)
    }
}

impl From<u32> for Color {
    fn from(color: u32) -> (c: Color) {
        Color { r: ((color >> 16) & 0xFF) as u8, g: ((color >> 8) & 0xFF) as u8, b: (color & 0xFF) as u8 }
    }
}

impl vstd::std_specs::convert::FromSpecImpl<u32> for Color {
    open spec fn obeys_from_spec() -> bool {
        true
    }

    open spec fn from_spec(color: u32) -> Color {
        color_of_rgb888(color)
    }
}

} // verus!
