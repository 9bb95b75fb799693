use vstd::prelude::*;
use crate::ppu::color::{Color, color_of_rgb888};
use crate::ppu::gb_ppu::GbPpu;
use crate::ppu::gfx_device::GfxDevice;
use crate::ppu::ppu_state::PpuState;
use crate::ppu::ppu_register_updater::{
    set_bgpd, set_bgpi, set_obpd, set_obpi, set_orpi, get_stat, get_wx_register, get_bgpi, get_bgpd, get_obpi,
    get_obpd, get_orpi, handle_lcdcontrol_register, update_stat_register, set_scy, set_scx, set_lyc,
    handle_bg_pallet_register, handle_obp_pallet_register, handle_wy_register, handle_wx_register, palette_shade,
    window_x_of, color_ram_written, next_color_index,
};
use crate::utils::vec2::Vec2;
use crate::utils::memory_registers::{
    LCDC_REGISTER_ADDRESS, STAT_REGISTER_ADDRESS, SCY_REGISTER_ADDRESS, SCX_REGISTER_ADDRESS, LY_REGISTER_ADDRESS,
    LYC_REGISTER_ADDRESS, BGP_REGISTER_ADDRESS, OBP0_REGISTER_ADDRESS, OBP1_REGISTER_ADDRESS, WY_REGISTER_ADDRESS,
    WX_REGISTER_ADDRESS, VBK_REGISTER_ADDRESS, BGPI_REGISTER_ADDRESS, BGPD_REGISTER_ADDRESS, OBPI_REGISTER_ADDRESS,
    OBPD_REGISTER_ADDRESS, OPRI_REGISTER_ADDRESS, DMA_REGISTER_ADDRESS,
};

verus! {

/// A write to KEY0, the CGB compatibility register: the register takes the value, and while
/// the boot sequence runs, bit 2 picks the DMG compatibility mode (set) or the CGB mode
/// (clear). After the boot the mode no longer changes.
pub fn write_key0(key0: &mut u8, boot_finished: bool, cgb_enabled: &mut bool, value: u8)
    ensures
        *final(key0) == value,
        !boot_finished ==> *final(cgb_enabled) == (value & 0b100 == 0),
        boot_finished ==> *final(cgb_enabled) == *old(cgb_enabled),
{
    *key0 = value;
    if !boot_finished {
        *cgb_enabled = *key0 & 0b100 == 0;
    }
}

/// What a read of a PPU register gives: the LCD registers in both modes, and in CGB mode the
/// VRAM bank, the color RAM index and data registers and the object priority register.
/// `None` for any other address, which the rest of the I/O bus answers.
pub open spec fn ppu_register_value<GFX: GfxDevice>(ppu: &GbPpu<GFX>, address: u16, cgb_mode: bool) -> Option<u8> {
    if address == LCDC_REGISTER_ADDRESS {
        Some(ppu.lcd_control)
    } else if address == STAT_REGISTER_ADDRESS {
        Some(ppu.stat_register)
    } else if address == SCY_REGISTER_ADDRESS {
        Some(ppu.bg_pos.y)
    } else if address == SCX_REGISTER_ADDRESS {
        Some(ppu.bg_pos.x)
    } else if address == LY_REGISTER_ADDRESS {
        Some(ppu.ly_register)
    } else if address == LYC_REGISTER_ADDRESS {
        Some(ppu.lyc_register)
    } else if address == BGP_REGISTER_ADDRESS {
        Some(ppu.bg_palette_register)
    } else if address == OBP0_REGISTER_ADDRESS {
        Some(ppu.obj_pallete_0_register)
    } else if address == OBP1_REGISTER_ADDRESS {
        Some(ppu.obj_pallete_1_register)
    } else if address == WY_REGISTER_ADDRESS {
        Some(ppu.window_pos.y)
    } else if address == WX_REGISTER_ADDRESS {
        Some((ppu.window_pos.x + 7) as u8)
    } else if !cgb_mode {
        None
    } else if address == VBK_REGISTER_ADDRESS {
        Some(ppu.vram.current_bank)
    } else if address == OPRI_REGISTER_ADDRESS {
        Some(if ppu.cgb_priority_mode { 1u8 } else { 0u8 })
    } else if address == BGPI_REGISTER_ADDRESS {
        Some(ppu.bg_color_pallete_index)
    } else if address == BGPD_REGISTER_ADDRESS {
        Some(ppu.bg_color_ram@[(ppu.bg_color_pallete_index & 0b11_1111) as int])
    } else if address == OBPI_REGISTER_ADDRESS {
        Some(ppu.obj_color_pallete_index)
    } else if address == OBPD_REGISTER_ADDRESS {
        Some(ppu.obj_color_ram@[(ppu.obj_color_pallete_index & 0b11_1111) as int])
    } else {
        None
    }
}

/// The I/O bus's read of the PPU's registers (see `ppu_register_value`). The bus lets the
/// PPU catch up with the CPU before it reads the LCD registers; that is the caller's part.
pub fn read_ppu_register<GFX: GfxDevice>(ppu: &GbPpu<GFX>, address: u16, cgb_mode: bool) -> (r: Option<u8>)
    requires
        ppu.wf(),
    ensures
        r == ppu_register_value(ppu, address, cgb_mode),
{
    if address == LCDC_REGISTER_ADDRESS {
        Some(ppu.lcd_control)
    } else if address == STAT_REGISTER_ADDRESS {
        Some(get_stat(ppu))
    } else if address == SCY_REGISTER_ADDRESS {
        Some(ppu.bg_pos.y)
    } else if address == SCX_REGISTER_ADDRESS {
        Some(ppu.bg_pos.x)
    } else if address == LY_REGISTER_ADDRESS {
        Some(ppu.ly_register)
    } else if address == LYC_REGISTER_ADDRESS {
        Some(ppu.lyc_register)
    } else if address == BGP_REGISTER_ADDRESS {
        Some(ppu.bg_palette_register)
    } else if address == OBP0_REGISTER_ADDRESS {
        Some(ppu.obj_pallete_0_register)
    } else if address == OBP1_REGISTER_ADDRESS {
        Some(ppu.obj_pallete_1_register)
    } else if address == WY_REGISTER_ADDRESS {
        Some(ppu.window_pos.y)
    } else if address == WX_REGISTER_ADDRESS {
        Some(get_wx_register(ppu))
    } else if !cgb_mode {
        None
    } else if address == VBK_REGISTER_ADDRESS {
        Some(ppu.vram.get_bank_reg())
    } else if address == OPRI_REGISTER_ADDRESS {
        Some(get_orpi(ppu))
    } else if address == BGPI_REGISTER_ADDRESS {
        Some(get_bgpi(ppu))
    } else if address == BGPD_REGISTER_ADDRESS {
        Some(get_bgpd(ppu))
    } else if address == OBPI_REGISTER_ADDRESS {
        Some(get_obpi(ppu))
    } else if address == OBPD_REGISTER_ADDRESS {
        Some(get_obpd(ppu))
    } else {
        None
    }
}

/// The LCD registers that take writes: LCDC to WX but LY (read only) and DMA (the OAM DMA
/// controller's).
pub open spec fn lcd_register_writable(address: u16) -> bool {
    LCDC_REGISTER_ADDRESS <= address <= WX_REGISTER_ADDRESS && address != LY_REGISTER_ADDRESS && address
        != DMA_REGISTER_ADDRESS
}

/// The CGB registers of the PPU that take writes: the VRAM bank, the color RAM index and data
/// registers and the object priority register.
pub open spec fn cgb_video_register_writable(address: u16) -> bool {
    address == VBK_REGISTER_ADDRESS || (BGPI_REGISTER_ADDRESS <= address <= OPRI_REGISTER_ADDRESS)
}

/// The PPU `b` that a write of `value` to the LCD register at `address` leaves of `a`: LCDC
/// is set, and clearing its bit 7 turns the PPU off (line 0, horizontal blank), setting it
/// turns the PPU on (OAM search); STAT selects the sources of its interrupt; SCY, SCX, LYC,
/// WY and WX (as the window's left edge, see `window_x_of`) are set; BGP, OBP0 and OBP1 set
/// the shades of their palettes. Any other address leaves the PPU as it was.
pub open spec fn lcd_register_written<GFX: GfxDevice>(a: &GbPpu<GFX>, b: &GbPpu<GFX>, address: u16, value: u8) -> bool {
    if address == LCDC_REGISTER_ADDRESS {
        &&& b.lcd_control == value
        &&& a.lcd_control & 0x80 != 0 && value & 0x80 == 0 ==> b.state == PpuState::Hblank && b.ly_register == 0
        &&& a.lcd_control & 0x80 == 0 && value & 0x80 != 0 ==> b.state == PpuState::OamSearch && b.ly_register
            == a.ly_register
        &&& (a.lcd_control & 0x80 == 0) == (value & 0x80 == 0) ==> *b == (GbPpu { lcd_control: value, ..*a })
    } else if address == STAT_REGISTER_ADDRESS {
        *b == (GbPpu {
            h_blank_interrupt_request: value & 0x08 != 0,
            v_blank_interrupt_request: value & 0x10 != 0,
            oam_search_interrupt_request: value & 0x20 != 0,
            coincidence_interrupt_request: value & 0x40 != 0,
            stat_register: (a.stat_register & 0b1000_0111) | (value & 0b111_1000),
            ..*a
        })
    } else if address == SCY_REGISTER_ADDRESS {
        *b == (GbPpu { bg_pos: Vec2 { x: a.bg_pos.x, y: value }, ..*a })
    } else if address == SCX_REGISTER_ADDRESS {
        *b == (GbPpu { bg_pos: Vec2 { x: value, y: a.bg_pos.y }, ..*a })
    } else if address == LYC_REGISTER_ADDRESS {
        *b == (GbPpu { lyc_register: value, ..*a })
    } else if address == BGP_REGISTER_ADDRESS {
        &&& forall|i: int| 0 <= i < 4 ==> b.bg_color_mapping@[i] == palette_shade(value, i)
        &&& *b == (GbPpu { bg_palette_register: value, bg_color_mapping: b.bg_color_mapping, ..*a })
    } else if address == OBP0_REGISTER_ADDRESS {
        &&& b.obj_color_mapping0@[0] == None::<Color>
        &&& forall|i: int| 1 <= i < 4 ==> b.obj_color_mapping0@[i] == Some(palette_shade(value, i))
        &&& *b == (GbPpu { obj_pallete_0_register: value, obj_color_mapping0: b.obj_color_mapping0, ..*a })
    } else if address == OBP1_REGISTER_ADDRESS {
        &&& b.obj_color_mapping1@[0] == None::<Color>
        &&& forall|i: int| 1 <= i < 4 ==> b.obj_color_mapping1@[i] == Some(palette_shade(value, i))
        &&& *b == (GbPpu { obj_pallete_1_register: value, obj_color_mapping1: b.obj_color_mapping1, ..*a })
    } else if address == WY_REGISTER_ADDRESS {
        *b == (GbPpu { window_pos: Vec2 { x: a.window_pos.x, y: value }, ..*a })
    } else if address == WX_REGISTER_ADDRESS {
        *b == (GbPpu { window_pos: Vec2 { x: window_x_of(value), y: a.window_pos.y }, ..*a })
    } else {
        *b == *a
    }
}

/// The PPU `b` that a write of `value` to the CGB register of the PPU at `address` leaves of
/// `a`: VBK selects the VRAM bank (bit 0); OPRI bit 0 clear selects the CGB object priority;
/// BCPS and OCPS set the color RAM indexes (OCPS without bit 6); BCPD and OCPD write the color
/// RAM (not during the pixel transfer) and move the index on when its bit 7 is set. Any other
/// address leaves the PPU as it was.
pub open spec fn cgb_video_register_written<GFX: GfxDevice>(a: &GbPpu<GFX>, b: &GbPpu<GFX>, address: u16, value: u8) -> bool {
    if address == VBK_REGISTER_ADDRESS {
        &&& b.vram.current_bank == value & 1
        &&& b.vram.memory@ == a.vram.memory@
        &&& *b == (GbPpu { vram: b.vram, ..*a })
    } else if address == OPRI_REGISTER_ADDRESS {
        *b == (GbPpu { cgb_priority_mode: value & 1 == 0, ..*a })
    } else if address == BGPI_REGISTER_ADDRESS {
        *b == (GbPpu { bg_color_pallete_index: value, ..*a })
    } else if address == BGPD_REGISTER_ADDRESS {
        &&& b.bg_color_ram@ == color_ram_written(a.state, a.bg_color_ram@, a.bg_color_pallete_index, value)
        &&& *b == (GbPpu {
            bg_color_ram: b.bg_color_ram,
            bg_color_pallete_index: next_color_index(a.bg_color_pallete_index),
            ..*a
        })
    } else if address == OBPI_REGISTER_ADDRESS {
        *b == (GbPpu { obj_color_pallete_index: value & 0b1011_1111, ..*a })
    } else if address == OBPD_REGISTER_ADDRESS {
        &&& b.obj_color_ram@ == color_ram_written(a.state, a.obj_color_ram@, a.obj_color_pallete_index, value)
        &&& *b == (GbPpu {
            obj_color_ram: b.obj_color_ram,
            obj_color_pallete_index: next_color_index(a.obj_color_pallete_index),
            ..*a
        })
    } else {
        *b == *a
    }
}

/// The I/O bus's write of LCDC, STAT, SCY, SCX or LYC (see `lcd_register_written`); tells
/// whether the address is one of them, and any other address leaves the PPU as it was.
#[verifier::rlimit(100)]
#[verifier::spinoff_prover]
fn write_lcd_control_register<GFX: GfxDevice>(ppu: &mut GbPpu<GFX>, address: u16, value: u8) -> (handled: bool)
    requires
        old(ppu).wf(),
    ensures
        final(ppu).wf(),
        handled == (LCDC_REGISTER_ADDRESS <= address <= LYC_REGISTER_ADDRESS && address != LY_REGISTER_ADDRESS),
        handled ==> lcd_register_written(old(ppu), final(ppu), address, value),
        !handled ==> *final(ppu) == *old(ppu),
{
    if address == LCDC_REGISTER_ADDRESS {
        handle_lcdcontrol_register(value, ppu);
    } else if address == STAT_REGISTER_ADDRESS {
        update_stat_register(value, ppu);
    } else if address == SCY_REGISTER_ADDRESS {
        set_scy(ppu, value);
    } else if address == SCX_REGISTER_ADDRESS {
        set_scx(ppu, value);
    } else if address == LYC_REGISTER_ADDRESS {
        set_lyc(ppu, value);
    } else {
        return false;
    }
    true
}

/// The I/O bus's write of BGP, OBP0, OBP1, WY or WX (see `lcd_register_written`); tells
/// whether the address is one of them, and any other address leaves the PPU as it was.
#[verifier::rlimit(100)]
#[verifier::spinoff_prover]
fn write_lcd_view_register<GFX: GfxDevice>(ppu: &mut GbPpu<GFX>, address: u16, value: u8) -> (handled: bool)
    requires
        old(ppu).wf(),
    ensures
        final(ppu).wf(),
        handled == (BGP_REGISTER_ADDRESS <= address <= WX_REGISTER_ADDRESS),
        handled ==> lcd_register_written(old(ppu), final(ppu), address, value),
        !handled ==> *final(ppu) == *old(ppu),
{
    if address == BGP_REGISTER_ADDRESS {
        handle_bg_pallet_register(value, &mut ppu.bg_color_mapping, &mut ppu.bg_palette_register);
    } else if address == OBP0_REGISTER_ADDRESS {
        handle_obp_pallet_register(value, &mut ppu.obj_color_mapping0, &mut ppu.obj_pallete_0_register);
    } else if address == OBP1_REGISTER_ADDRESS {
        handle_obp_pallet_register(value, &mut ppu.obj_color_mapping1, &mut ppu.obj_pallete_1_register);
    } else if address == WY_REGISTER_ADDRESS {
        handle_wy_register(value, ppu);
    } else if address == WX_REGISTER_ADDRESS {
        handle_wx_register(value, ppu);
    } else {
        return false;
    }
    true
}

/// The I/O bus's write of an LCD register (see `lcd_register_written`); tells whether the
/// address is one that takes the write.
pub fn write_lcd_register<GFX: GfxDevice>(ppu: &mut GbPpu<GFX>, address: u16, value: u8) -> (handled: bool)
    requires
        old(ppu).wf(),
    ensures
        final(ppu).wf(),
        handled == lcd_register_writable(address),
        lcd_register_written(old(ppu), final(ppu), address, value),
{
    if write_lcd_control_register(ppu, address, value) {
        return true;
    }
    write_lcd_view_register(ppu, address, value)
}

/// The I/O bus's write of a CGB register of the PPU (see `cgb_video_register_written`);
/// tells whether the address is one that takes the write. A write of a color data register
/// needs an index that can move on.
#[verifier::rlimit(60)]
#[verifier::spinoff_prover]
pub fn write_cgb_video_register<GFX: GfxDevice>(ppu: &mut GbPpu<GFX>, address: u16, value: u8) -> (handled: bool)
    requires
        old(ppu).wf(),
        address == BGPD_REGISTER_ADDRESS ==> old(ppu).bg_color_pallete_index != 0xFF,
        address == OBPD_REGISTER_ADDRESS ==> old(ppu).obj_color_pallete_index != 0xFF,
    ensures
        final(ppu).wf(),
        handled == cgb_video_register_writable(address),
        cgb_video_register_written(old(ppu), final(ppu), address, value),
{
    if address == VBK_REGISTER_ADDRESS {
        ppu.vram.set_bank_reg(value);
    } else if address == OPRI_REGISTER_ADDRESS {
        set_orpi(ppu, value);
    } else if address == BGPI_REGISTER_ADDRESS {
        set_bgpi(ppu, value);
    } else if address == BGPD_REGISTER_ADDRESS {
        set_bgpd(ppu, value);
    } else if address == OBPI_REGISTER_ADDRESS {
        set_obpi(ppu, value);
    } else if address == OBPD_REGISTER_ADDRESS {
        set_obpd(ppu, value);
    } else {
        return false;
    }
    true
}

/// The I/O bus's write of the PPU's registers: the LCD registers in both modes (see
/// `write_lcd_register`), the CGB ones in CGB mode (see `write_cgb_video_register`); tells
/// whether the PPU took the write, and any other address leaves it as it was.
pub fn write_ppu_register<GFX: GfxDevice>(ppu: &mut GbPpu<GFX>, address: u16, value: u8, cgb_mode: bool) -> (handled: bool)
    requires
        old(ppu).wf(),
        cgb_mode && address == BGPD_REGISTER_ADDRESS ==> old(ppu).bg_color_pallete_index != 0xFF,
        cgb_mode && address == OBPD_REGISTER_ADDRESS ==> old(ppu).obj_color_pallete_index != 0xFF,
    ensures
        final(ppu).wf(),
        handled == (lcd_register_writable(address) || (cgb_mode && cgb_video_register_writable(address))),
        lcd_register_writable(address) ==> lcd_register_written(old(ppu), final(ppu), address, value),
        !lcd_register_writable(address) && cgb_mode ==> cgb_video_register_written(old(ppu), final(ppu), address, value),
        !handled ==> *final(ppu) == *old(ppu),
{
    if write_lcd_register(ppu, address, value) {
        return true;
    }
    if cgb_mode {
        return write_cgb_video_register(ppu, address, value);
    }
    false
}

/// A read of a plain LCD register after a write gives the value written: SCY, SCX, LYC, BGP,
/// OBP0, OBP1 and WY; WX gives back the value, or 7 for a value below 7.
pub proof fn lemma_lcd_register_read_back<GFX: GfxDevice>(
    a: &GbPpu<GFX>,
    b: &GbPpu<GFX>,
    address: u16,
    value: u8,
    cgb_mode: bool,
)
    requires
        lcd_register_written(a, b, address, value),
        address == SCY_REGISTER_ADDRESS || address == SCX_REGISTER_ADDRESS || address == LYC_REGISTER_ADDRESS
            || address == BGP_REGISTER_ADDRESS || address == OBP0_REGISTER_ADDRESS || address == OBP1_REGISTER_ADDRESS
            || address == WY_REGISTER_ADDRESS || address == WX_REGISTER_ADDRESS,
    ensures
        ppu_register_value(b, address, cgb_mode) == Some(if address == WX_REGISTER_ADDRESS && value < 7 {
            7u8
        } else {
            value
        }),
{
}

/// A color as the CGB color RAM holds it: 5 bits of red, green and blue (BGR555).
pub open spec fn bgr555(c: Color) -> u16 {
    ((c.r >> 3u8) as u16 & 0b1_1111) | ((((c.g >> 3u8) as u16) & 0b1_1111) << 5u16) | ((((c.b >> 3u8) as u16)
        & 0b1_1111) << 10u16)
}

/// The two bytes, low first, that a 24 bit RGB color takes in a CGB color RAM.
pub open spec fn rgb_bytes(rgb: u32) -> Seq<u8> {
    let v = bgr555(color_of_rgb888(rgb));
    seq![(v & 0xFF) as u8, ((v >> 8u16) & 0xFF) as u8]
}

/// The background palette that the CGB boot ROM sets for a DMG game: white, light green,
/// blue, black.
pub open spec fn dmg_compatibility_bg_palette() -> Seq<u8> {
    rgb_bytes(0xFFFFFF) + rgb_bytes(0x7BFF31) + rgb_bytes(0x0063C5) + rgb_bytes(0x000000)
}

/// The object palette that the CGB boot ROM sets for a DMG game: white, light red, dark red,
/// black.
pub open spec fn dmg_compatibility_obj_palette() -> Seq<u8> {
    rgb_bytes(0xFFFFFF) + rgb_bytes(0xFF8484) + rgb_bytes(0x943A3A) + rgb_bytes(0x000000)
}

/// An auto-incrementing index below the last byte addresses byte `index - 0x80` and moves on
/// by one.
proof fn lemma_auto_increment(index: u8)
    by (bit_vector)
    requires
        0x80 <= index < 0xBF,
    ensures
        index & 0b11_1111 == index - 0x80,
        index & 0x80 != 0,
        ((index + 1) as u8) & 0b1011_1111 == index + 1,
        0x80u8 & 0b1011_1111u8 == 0x80u8,
        0b100u8 & 0b100u8 != 0,
        1u8 & 1u8 != 0,
{
}

fn color_bytes(rgb: u32) -> (r: (u8, u8))
    ensures
        seq![r.0, r.1] == rgb_bytes(rgb),
{
    let color = Color::from(rgb);
    let v: u16 = ((color.r >> 3u8) as u16 & 0b1_1111) | ((((color.g >> 3u8) as u16) & 0b1_1111) << 5u16) | ((((
    color.b >> 3u8) as u16) & 0b1_1111) << 10u16);
    ((v & 0xFF) as u8, ((v >> 8u16) & 0xFF) as u8)
}

/// Writes a color through BGPD, the auto-incrementing background palette data register.
fn write_bg_color<GFX: GfxDevice>(ppu: &mut GbPpu<GFX>, rgb: u32)
    requires
        old(ppu).state != PpuState::PixelTransfer,
        0x80 <= old(ppu).bg_color_pallete_index < 0xBE,
    ensures
        ({
            let k = old(ppu).bg_color_pallete_index - 0x80;
            final(ppu).bg_color_ram@ == old(ppu).bg_color_ram@.update(k, rgb_bytes(rgb)[0]).update(k + 1, rgb_bytes(rgb)[1])
        }),
        *final(ppu) == (GbPpu {
            bg_color_ram: final(ppu).bg_color_ram,
            bg_color_pallete_index: (old(ppu).bg_color_pallete_index + 2) as u8,
            ..*old(ppu)
        }),
{
    let (low, high) = color_bytes(rgb);
    proof {
        lemma_auto_increment(ppu.bg_color_pallete_index);
        lemma_auto_increment((ppu.bg_color_pallete_index + 1) as u8);
        assert(seq![low, high][0] == low && seq![low, high][1] == high);
    }
    set_bgpd(ppu, low);
    set_bgpd(ppu, high);
}

/// Writes a color through OBPD, the auto-incrementing object palette data register.
fn write_obj_color<GFX: GfxDevice>(ppu: &mut GbPpu<GFX>, rgb: u32)
    requires
        old(ppu).state != PpuState::PixelTransfer,
        0x80 <= old(ppu).obj_color_pallete_index < 0xBE,
    ensures
        ({
            let k = old(ppu).obj_color_pallete_index - 0x80;
            final(ppu).obj_color_ram@ == old(ppu).obj_color_ram@.update(k, rgb_bytes(rgb)[0]).update(k + 1, rgb_bytes(rgb)[1])
        }),
        *final(ppu) == (GbPpu {
            obj_color_ram: final(ppu).obj_color_ram,
            obj_color_pallete_index: (old(ppu).obj_color_pallete_index + 2) as u8,
            ..*old(ppu)
        }),
{
    let (low, high) = color_bytes(rgb);
    proof {
        lemma_auto_increment(ppu.obj_color_pallete_index);
        lemma_auto_increment((ppu.obj_color_pallete_index + 1) as u8);
        assert(seq![low, high][0] == low && seq![low, high][1] == high);
    }
    set_obpd(ppu, low);
    set_obpd(ppu, high);
}

/// A CGB started without its boot ROM does what the boot ROM would leave done: KEY0 takes the
/// cartridge's CGB flag when it marks a CGB game; for a DMG game, KEY0 selects the DMG
/// compatibility mode, the objects get DMG priority (OPRI), and background palette 0 and
/// object palettes 0 and 1 get the boot ROM's colors. (Ending the boot, by the boot register
/// of the memory bus, is left to the caller.) No write may fall in a pixel transfer, where
/// the color RAM is locked.
pub fn start_cgb_without_bootrom<GFX: GfxDevice>(
    ppu: &mut GbPpu<GFX>,
    key0: &mut u8,
    cgb_enabled: &mut bool,
    cgb_reg: u8,
)
    requires
        old(ppu).state != PpuState::PixelTransfer,
    ensures
        cgb_reg & 0x80 != 0 ==> *final(key0) == cgb_reg && *final(cgb_enabled) == (cgb_reg & 0b100 == 0)
            && *final(ppu) == *old(ppu),
        cgb_reg & 0x80 == 0 ==> {
            &&& *final(key0) == 0b100
            &&& !*final(cgb_enabled)
            &&& final(ppu).bg_color_ram@.subrange(0, 8) == dmg_compatibility_bg_palette()
            &&& final(ppu).bg_color_ram@.subrange(8, 64) == old(ppu).bg_color_ram@.subrange(8, 64)
            &&& final(ppu).obj_color_ram@.subrange(0, 16) == dmg_compatibility_obj_palette()
                + dmg_compatibility_obj_palette()
            &&& final(ppu).obj_color_ram@.subrange(16, 64) == old(ppu).obj_color_ram@.subrange(16, 64)
            &&& *final(ppu) == (GbPpu {
                bg_color_ram: final(ppu).bg_color_ram,
                obj_color_ram: final(ppu).obj_color_ram,
                bg_color_pallete_index: 0x88,
                obj_color_pallete_index: 0x90,
                cgb_priority_mode: false,
                ..*old(ppu)
            })
        },
{
    if cgb_reg & 0x80 != 0 {
        write_key0(key0, false, cgb_enabled, cgb_reg);
    } else {
        proof {
            lemma_auto_increment(0x80);
        }
        // Bit 2 marks the DMG compatibility mode.
        write_key0(key0, false, cgb_enabled, 0b100);
        set_orpi(ppu, 1);
        let ghost bg0 = ppu.bg_color_ram@;
        set_bgpi(ppu, 0x80);
        write_bg_color(ppu, 0xFFFFFF);
        write_bg_color(ppu, 0x7BFF31);
        write_bg_color(ppu, 0x0063C5);
        write_bg_color(ppu, 0x000000);
        assert(ppu.bg_color_ram@.subrange(0, 8) =~= dmg_compatibility_bg_palette());
        assert(ppu.bg_color_ram@.subrange(8, 64) =~= bg0.subrange(8, 64));
        let ghost obj0 = ppu.obj_color_ram@;
        proof {
            lemma_auto_increment(0x80);
        }
        set_obpi(ppu, 0x80);
        // The first two object palettes get the same colors.
        write_obj_color(ppu, 0xFFFFFF);
        write_obj_color(ppu, 0xFF8484);
        write_obj_color(ppu, 0x943A3A);
        write_obj_color(ppu, 0x000000);
        write_obj_color(ppu, 0xFFFFFF);
        write_obj_color(ppu, 0xFF8484);
        write_obj_color(ppu, 0x943A3A);
        write_obj_color(ppu, 0x000000);
        assert(ppu.obj_color_ram@.subrange(0, 16) =~= dmg_compatibility_obj_palette() + dmg_compatibility_obj_palette());
        assert(ppu.obj_color_ram@.subrange(16, 64) =~= obj0.subrange(16, 64));
    }
}

} // verus!
