use vstd::prelude::*;
use crate::utils::bit_masks::{BIT_0_MASK, BIT_3_MASK, BIT_4_MASK, BIT_5_MASK, BIT_6_MASK, BIT_7_MASK};
use super::color::{Color, shade, shade_color};
use super::gb_ppu::GbPpu;
use super::gfx_device::GfxDevice;
use super::ppu_state::PpuState;

verus! {

/// WX holds the window's left edge plus 7.
pub const WX_OFFSET: u8 = 7;

/// Writes LCDC; clearing bit 7 turns the PPU off and setting it turns the PPU on.
pub fn handle_lcdcontrol_register<GFX: GfxDevice>(register: u8, ppu: &mut GbPpu<GFX>)
    requires
        old(ppu).wf(),
    ensures
        final(ppu).wf(),
        final(ppu).lcd_control == register,
        old(ppu).lcd_control & 0x80 != 0 && register & 0x80 == 0 ==> final(ppu).state == PpuState::Hblank
            && final(ppu).ly_register == 0,
        old(ppu).lcd_control & 0x80 == 0 && register & 0x80 != 0 ==> final(ppu).state == PpuState::OamSearch
            && final(ppu).ly_register == old(ppu).ly_register,
        (old(ppu).lcd_control & 0x80 == 0) == (register & 0x80 == 0) ==> *final(ppu) == (GbPpu {
            lcd_control: register,
            ..*old(ppu)
        }),
{
    if ppu.lcd_control & BIT_7_MASK != 0 && register & BIT_7_MASK == 0 {
        ppu.turn_off();
    } else if ppu.lcd_control & BIT_7_MASK == 0 && register & BIT_7_MASK != 0 {
        ppu.turn_on();
    }
    ppu.lcd_control = register;
}

/// Writes STAT: bits 3 to 6 choose the sources of the STAT interrupt; the other bits are
/// read only.
pub fn update_stat_register<GFX: GfxDevice>(register: u8, ppu: &mut GbPpu<GFX>)
    ensures
        *final(ppu) == (GbPpu {
            h_blank_interrupt_request: register & 0x08 != 0,
            v_blank_interrupt_request: register & 0x10 != 0,
            oam_search_interrupt_request: register & 0x20 != 0,
            coincidence_interrupt_request: register & 0x40 != 0,
            stat_register: (old(ppu).stat_register & 0b1000_0111) | (register & 0b111_1000),
            ..*old(ppu)
        }),
{
    ppu.h_blank_interrupt_request = register & BIT_3_MASK != 0;
    ppu.v_blank_interrupt_request = register & BIT_4_MASK != 0;
    ppu.oam_search_interrupt_request = register & BIT_5_MASK != 0;
    ppu.coincidence_interrupt_request = register & BIT_6_MASK != 0;
    ppu.stat_register = ppu.stat_register & 0b1000_0111;
    ppu.stat_register = ppu.stat_register | (register & 0b111_1000);
}

pub fn set_scx<GFX: GfxDevice>(ppu: &mut GbPpu<GFX>, value: u8)
    ensures
        *final(ppu) == (GbPpu { bg_pos: crate::utils::vec2::Vec2 { x: value, y: old(ppu).bg_pos.y }, ..*old(ppu) }),
{
    ppu.bg_pos.x = value;
}

pub fn set_scy<GFX: GfxDevice>(ppu: &mut GbPpu<GFX>, value: u8)
    ensures
        *final(ppu) == (GbPpu { bg_pos: crate::utils::vec2::Vec2 { x: old(ppu).bg_pos.x, y: value }, ..*old(ppu) }),
{
    ppu.bg_pos.y = value;
}

/// The shade a palette register gives color `index` (bits `2 * index` and `2 * index + 1`).
pub open spec fn palette_shade(register: u8, index: int) -> Color {
    shade(((register >> (2 * index) as u8) & 0b11) as u8)
}

/// Writes BGP: each pair of bits picks the shade of one background color.
pub fn handle_bg_pallet_register(register: u8, pallet: &mut [Color; 4], palette_register: &mut u8)
    ensures
        forall|i: int| 0 <= i < 4 ==> final(pallet)@[i] == palette_shade(register, i),
        *final(palette_register) == register,
{
    proof {
        lemma_palette_fields(register);
    }
    pallet[0] = get_matching_color(register & 0b00000011);
    pallet[1] = get_matching_color((register & 0b00001100) >> 2);
    pallet[2] = get_matching_color((register & 0b00110000) >> 4);
    pallet[3] = get_matching_color((register & 0b11000000) >> 6);
    *palette_register = register;
}

/// Writes OBP0 or OBP1: color 0 of an object is transparent, each other pair of bits picks
/// the shade of one object color.
pub fn handle_obp_pallet_register(register: u8, pallet: &mut [Option<Color>; 4], palette_register: &mut u8)
    ensures
        final(pallet)@[0] == None::<Color>,
        forall|i: int| 1 <= i < 4 ==> final(pallet)@[i] == Some(palette_shade(register, i)),
        *final(palette_register) == register,
{
    proof {
        lemma_palette_fields(register);
    }
    pallet[0] = None;
    pallet[1] = Some(get_matching_color((register & 0b00001100) >> 2));
    pallet[2] = Some(get_matching_color((register & 0b00110000) >> 4));
    pallet[3] = Some(get_matching_color((register & 0b11000000) >> 6));
    *palette_register = register;
}

proof fn lemma_palette_fields(register: u8)
    by (bit_vector)
    ensures
        register & 0b00000011 == (register >> 0u8) & 0b11,
        (register & 0b00001100) >> 2u8 == (register >> 2u8) & 0b11,
        (register & 0b00110000) >> 4u8 == (register >> 4u8) & 0b11,
        (register & 0b11000000) >> 6u8 == (register >> 6u8) & 0b11,
        register & 0b00000011 < 4,
        (register & 0b00001100) >> 2u8 < 4,
        (register & 0b00110000) >> 4u8 < 4,
        (register & 0b11000000) >> 6u8 < 4,
        register & 0b11_1111 < 64,
{
}

proof fn lemma_color_index_bound(index: u8)
    ensures
        index & 0b11_1111 < 64,
{
    lemma_palette_fields(index);
}

fn get_matching_color(number: u8) -> (c: Color)
    requires
        number < 4,
    ensures
        c == shade(number),
{
    shade_color(number)
}

pub fn handle_wy_register<GFX: GfxDevice>(register: u8, ppu: &mut GbPpu<GFX>)
    ensures
        *final(ppu) == (GbPpu {
            window_pos: crate::utils::vec2::Vec2 { x: old(ppu).window_pos.x, y: register },
            ..*old(ppu)
        }),
{
    ppu.window_pos.y = register;
}

/// The window's left edge for a WX value: WX minus 7, and 0 for the values below 7.
pub open spec fn window_x_of(register: u8) -> u8 {
    if register < WX_OFFSET {
        0
    } else {
        (register - WX_OFFSET) as u8
    }
}

pub fn handle_wx_register<GFX: GfxDevice>(register: u8, ppu: &mut GbPpu<GFX>)
    ensures
        *final(ppu) == (GbPpu {
            window_pos: crate::utils::vec2::Vec2 { x: window_x_of(register), y: old(ppu).window_pos.y },
            ..*old(ppu)
        }),
{
    if register < WX_OFFSET {
        ppu.window_pos.x = 0;
    } else {
        ppu.window_pos.x = register - WX_OFFSET;
    }
}

/// WX as the window's left edge plus 7; a value from 0 to 6 written reads back as 7.
pub fn get_wx_register<GFX: GfxDevice>(ppu: &GbPpu<GFX>) -> (r: u8)
    requires
        ppu.wf(),
    ensures
        r == ppu.window_pos.x + WX_OFFSET,
{
    ppu.window_pos.x + WX_OFFSET
}

pub fn get_stat<GFX: GfxDevice>(ppu: &GbPpu<GFX>) -> (r: u8)
    ensures
        r == ppu.stat_register,
{
    ppu.stat_register
}

pub fn set_lyc<GFX: GfxDevice>(ppu: &mut GbPpu<GFX>, value: u8)
    ensures
        *final(ppu) == (GbPpu { lyc_register: value, ..*old(ppu) }),
{
    ppu.lyc_register = value;
}

pub fn set_bgpi<GFX: GfxDevice>(ppu: &mut GbPpu<GFX>, value: u8)
    ensures
        *final(ppu) == (GbPpu { bg_color_pallete_index: value, ..*old(ppu) }),
{
    ppu.bg_color_pallete_index = value;
}

pub fn get_bgpi<GFX: GfxDevice>(ppu: &GbPpu<GFX>) -> (r: u8)
    ensures
        r == ppu.bg_color_pallete_index,
{
    ppu.bg_color_pallete_index
}

/// The color RAM after a write through an index register, and the index register after it:
/// the write is dropped during pixel transfer; when bit 7 of the index is set the index
/// (bits 0 to 5) moves to the next byte, wrapping from 63 to 0.
pub open spec fn color_ram_written(state: PpuState, color_ram: Seq<u8>, index: u8, value: u8) -> Seq<u8> {
    if state != PpuState::PixelTransfer {
        color_ram.update((index & 0b11_1111) as int, value)
    } else {
        color_ram
    }
}

pub open spec fn next_color_index(index: u8) -> u8 {
    if index & 0x80 != 0 {
        ((index + 1) as u8) & 0b1011_1111
    } else {
        index
    }
}

pub fn set_bgpd<GFX: GfxDevice>(ppu: &mut GbPpu<GFX>, value: u8)
    requires
        old(ppu).bg_color_pallete_index != 0xFF,
    ensures
        final(ppu).bg_color_ram@ == color_ram_written(old(ppu).state, old(ppu).bg_color_ram@, old(ppu).bg_color_pallete_index, value),
        *final(ppu) == (GbPpu {
            bg_color_ram: final(ppu).bg_color_ram,
            bg_color_pallete_index: next_color_index(old(ppu).bg_color_pallete_index),
            ..*old(ppu)
        }),
{
    set_cgb_color_data_register(ppu.state, &mut ppu.bg_color_ram, &mut ppu.bg_color_pallete_index, value);
}

pub fn get_bgpd<GFX: GfxDevice>(ppu: &GbPpu<GFX>) -> (r: u8)
    ensures
        r == ppu.bg_color_ram@[(ppu.bg_color_pallete_index & 0b11_1111) as int],
{
    let index = ppu.bg_color_pallete_index & 0b11_1111;
    proof {
        lemma_color_index_bound(ppu.bg_color_pallete_index);
    }
    ppu.bg_color_ram[index as usize]
}

/// Writes OCPS; bit 6 does not exist and reads as 0.
pub fn set_obpi<GFX: GfxDevice>(ppu: &mut GbPpu<GFX>, value: u8)
    ensures
        *final(ppu) == (GbPpu { obj_color_pallete_index: value & 0b1011_1111, ..*old(ppu) }),
{
    ppu.obj_color_pallete_index = value & 0b1011_1111;
}

pub fn get_obpi<GFX: GfxDevice>(ppu: &GbPpu<GFX>) -> (r: u8)
    ensures
        r == ppu.obj_color_pallete_index,
{
    ppu.obj_color_pallete_index
}

pub fn set_obpd<GFX: GfxDevice>(ppu: &mut GbPpu<GFX>, value: u8)
    requires
        old(ppu).obj_color_pallete_index != 0xFF,
    ensures
        final(ppu).obj_color_ram@ == color_ram_written(old(ppu).state, old(ppu).obj_color_ram@, old(ppu).obj_color_pallete_index, value),
        *final(ppu) == (GbPpu {
            obj_color_ram: final(ppu).obj_color_ram,
            obj_color_pallete_index: next_color_index(old(ppu).obj_color_pallete_index),
            ..*old(ppu)
        }),
{
    set_cgb_color_data_register(ppu.state, &mut ppu.obj_color_ram, &mut ppu.obj_color_pallete_index, value);
}

pub fn get_obpd<GFX: GfxDevice>(ppu: &GbPpu<GFX>) -> (r: u8)
    ensures
        r == ppu.obj_color_ram@[(ppu.obj_color_pallete_index & 0b11_1111) as int],
{
    let index = ppu.obj_color_pallete_index & 0b11_1111;
    proof {
        lemma_color_index_bound(ppu.obj_color_pallete_index);
    }
    ppu.obj_color_ram[index as usize]
}

/// Writes OPRI: bit 0 clear selects the CGB object priority (by OAM position).
pub fn set_orpi<GFX: GfxDevice>(ppu: &mut GbPpu<GFX>, value: u8)
    ensures
        *final(ppu) == (GbPpu { cgb_priority_mode: value & 1 == 0, ..*old(ppu) }),
{
    ppu.cgb_priority_mode = value & BIT_0_MASK == 0;
}

pub fn get_orpi<GFX: GfxDevice>(ppu: &GbPpu<GFX>) -> (r: u8)
    ensures
        r == if ppu.cgb_priority_mode { 1u8 } else { 0u8 },
{
    if ppu.cgb_priority_mode { 1 } else { 0 }
}

fn set_cgb_color_data_register(ppu_state: PpuState, color_ram: &mut [u8; 64], pallete_index_register: &mut u8, value: u8)
    requires
        *old(pallete_index_register) != 0xFF,
    ensures
        final(color_ram)@ == color_ram_written(ppu_state, old(color_ram)@, *old(pallete_index_register), value),
        *final(pallete_index_register) == next_color_index(*old(pallete_index_register)),
{
    // The color RAM cannot be written during pixel transfer; the index still moves on.
    if ppu_state != PpuState::PixelTransfer {
        let index = *pallete_index_register & 0b11_1111;
        proof {
            lemma_color_index_bound(*pallete_index_register);
        }
        color_ram[index as usize] = value;
    }
    // With bit 7 set the index moves to the next byte; clearing bit 6 wraps it.
    if (*pallete_index_register & BIT_7_MASK) != 0 {
        *pallete_index_register = (*pallete_index_register + 1) & 0b1011_1111;
    }
}

/// Writing WX and reading it back gives the value written, except that 0 to 6 read as 7.
pub proof fn lemma_wx_roundtrip(register: u8)
    ensures
        window_x_of(register) <= 248,
        window_x_of(register) + WX_OFFSET == if register < WX_OFFSET { WX_OFFSET } else { register },
{
}

/// Writing through an auto-incrementing index register walks the 64 bytes of color RAM in
/// order and wraps from the last to the first, keeping bit 7 set.
pub proof fn lemma_color_index_walk(index: u8)
    requires
        index & 0x80 != 0,
        index & 0x40 == 0,
    ensures
        next_color_index(index) & 0x80 != 0,
        next_color_index(index) & 0x40 == 0,
        (next_color_index(index) & 0b11_1111) as int == ((index & 0b11_1111) + 1) % 64,
{
    assert(next_color_index(index) == ((index + 1) as u8) & 0b1011_1111);
    assert(((((index + 1) as u8) & 0b1011_1111) & 0x80 != 0) && ((((index + 1) as u8) & 0b1011_1111) & 0x40 == 0)
        && ((((index + 1) as u8) & 0b1011_1111) & 0b11_1111) as int == ((index & 0b11_1111) + 1) % 64) by (bit_vector)
        requires
            index & 0x80 != 0,
            index & 0x40 == 0,
    ;
}

} // verus!
