use vstd::prelude::*;
use crate::machine::Mode;
use crate::utils::vec2::Vec2;
use super::vram::VRam;
use super::color::{Color, shade, shade_color, color_of_bgr555, pixel_of};
use super::gfx_device::{GfxDevice, Pixel, FRAME_SIZE};
use super::ppu_state::{PpuState, state_number};
use super::fifo::background_fetcher::{BackgroundFetcher, BackgroundPixel};
use super::fifo::sprite_fetcher::{SpriteFetcher, SpritePixel, MAX_SPRITES_PER_LINE, NORMAL_SPRITE_HIGHT, EXTENDED_SPRITE_HIGHT};
use super::fifo::FIFO_SIZE;
use super::attributes::{SpriteAttributes, decode_sprite, decode_attributes};
use super::sprite_selection::{entry_on_line, selected, sorted_by_x, lemma_selected_full, sort_by_x, add_line_sprite};

verus! {

pub const BUFFERS_NUMBER: usize = 2;

pub const OAM_MEMORY_SIZE: usize = 0xA0;

/// The m-cycles of a scanline (456 t-cycles).
pub const HBLANK_M_CYCLES_LENGTH: u16 = 114;

/// The m-cycles of the 10 lines of the vertical blank.
pub const VBLANK_M_CYCLES_LENGTH: u16 = 1140;

/// The PPU's registers, its palettes and color RAM, its video memory and OAM, and the
/// state of its pixel pipeline.
pub struct GbPpu<GFX: GfxDevice> {
    pub vram: VRam,
    pub oam: [u8; OAM_MEMORY_SIZE],
    pub state: PpuState,
    pub lcd_control: u8,
    pub stat_register: u8,
    pub lyc_register: u8,
    pub ly_register: u8,
    pub window_pos: Vec2<u8>,
    pub bg_pos: Vec2<u8>,
    pub bg_palette_register: u8,
    pub bg_color_mapping: [Color; 4],
    pub obj_pallete_0_register: u8,
    pub obj_color_mapping0: [Option<Color>; 4],
    pub obj_pallete_1_register: u8,
    pub obj_color_mapping1: [Option<Color>; 4],
    // CGB
    pub bg_color_ram: [u8; 64],
    pub bg_color_pallete_index: u8,
    pub obj_color_ram: [u8; 64],
    pub obj_color_pallete_index: u8,
    pub cgb_priority_mode: bool,
    // STAT interrupt sources
    pub v_blank_interrupt_request: bool,
    pub h_blank_interrupt_request: bool,
    pub oam_search_interrupt_request: bool,
    pub coincidence_interrupt_request: bool,
    /// Tells the rest of the system a vertical blank started.
    pub vblank_occurred: bool,
    pub gfx_device: GFX,
    pub m_cycles_passed: u16,
    pub screen_buffers: [[Pixel; FRAME_SIZE]; BUFFERS_NUMBER],
    pub current_screen_buffer_index: usize,
    pub screen_buffer_index: usize,
    pub pixel_x_pos: u8,
    pub scanline_started: bool,
    pub bg_fetcher: BackgroundFetcher,
    pub sprite_fetcher: SpriteFetcher,
    pub stat_triggered: bool,
    pub trigger_stat_interrupt: bool,
    pub next_state: PpuState,
    pub mode: Mode,
}

/// The DMG object palette after reset: color 0 is transparent.
pub open spec fn default_object_mapping() -> Seq<Option<Color>> {
    seq![None, Some(shade(1)), Some(shade(2)), Some(shade(3))]
}

/// The color stored at color `pixel` of palette `pallete` of a CGB color RAM: a BGR555
/// value, low byte first.
pub open spec fn color_ram_color(color_ram: Seq<u8>, pallete: u8, pixel: u8) -> Color {
    let index = pallete * 8 + pixel * 2;
    color_of_bgr555((color_ram[index] as u16 | ((color_ram[index + 1] as u16) << 8u16)) as u16)
}

/// `a - b`, or 0 when `b` is larger.
pub open spec fn saturating_diff(a: int, b: int) -> int {
    if a >= b { a - b } else { 0 }
}

/// The frame buffers of `b` differ from those of `a` only in the frame being drawn, from
/// `a`'s drawing position up to `b`'s: the pixels pushed in between. The drawing position
/// does not go back.
pub open spec fn pushed_only<GFX: GfxDevice>(a: &GbPpu<GFX>, b: &GbPpu<GFX>) -> bool {
    &&& b.current_screen_buffer_index == a.current_screen_buffer_index
    &&& a.screen_buffer_index <= b.screen_buffer_index
    &&& forall|buf: int, i: int|
        0 <= buf < BUFFERS_NUMBER && 0 <= i < FRAME_SIZE && !(buf == a.current_screen_buffer_index
            && a.screen_buffer_index <= i < b.screen_buffer_index) ==> #[trigger] b.screen_buffers[buf]@[i]
            == a.screen_buffers[buf]@[i]
}

/// With the frame buffers and the drawing position as they were, no pixel was pushed.
pub proof fn lemma_pushed_none<GFX: GfxDevice>(a: &GbPpu<GFX>, b: &GbPpu<GFX>)
    requires
        b.screen_buffers == a.screen_buffers,
        b.screen_buffer_index == a.screen_buffer_index,
        b.current_screen_buffer_index == a.current_screen_buffer_index,
    ensures
        pushed_only(a, b),
{
}

/// Pixels pushed in two runs are the pixels pushed in the run that joins them.
pub proof fn lemma_pushed_only_trans<GFX: GfxDevice>(a: &GbPpu<GFX>, b: &GbPpu<GFX>, c: &GbPpu<GFX>)
    requires
        pushed_only(a, b),
        pushed_only(b, c),
    ensures
        pushed_only(a, c),
{
    assert forall|buf: int, i: int|
        0 <= buf < BUFFERS_NUMBER && 0 <= i < FRAME_SIZE && !(buf == a.current_screen_buffer_index
            && a.screen_buffer_index <= i < c.screen_buffer_index) implies #[trigger] c.screen_buffers[buf]@[i]
        == a.screen_buffers[buf]@[i] by {
        assert(c.screen_buffers[buf]@[i] == b.screen_buffers[buf]@[i]);
        assert(b.screen_buffers[buf]@[i] == a.screen_buffers[buf]@[i]);
    }
}

/// What `try_push_to_lcd` does, from `a` to `b`: with the background FIFO empty nothing;
/// at the start of a line, while the fine scroll (SCX, or WX for the window) still hides
/// pixels, the next background pixel is dropped; else the next background pixel, mixed with
/// the next object pixel when there is one (both leave their FIFOs), is written in its color
/// at the drawing position of the frame being drawn, and the drawing position and the x
/// position move on.
#[verifier::opaque]
pub open spec fn pushed_to_lcd<GFX: GfxDevice>(a: &GbPpu<GFX>, b: &GbPpu<GFX>) -> bool {
    let fifo = a.bg_fetcher.fifo@;
    let scroll = if a.bg_fetcher.rendering_window { a.window_pos.x } else { a.bg_pos.x };
    let discards = !a.scanline_started && FIFO_SIZE - fifo.len() < scroll % 8;
    if fifo.len() == 0 {
        *b == *a
    } else if discards {
        &&& b.bg_fetcher.fifo@ == fifo.drop_first()
        &&& b.bg_fetcher == (BackgroundFetcher { fifo: b.bg_fetcher.fifo, ..a.bg_fetcher })
        &&& *b == (GbPpu { bg_fetcher: b.bg_fetcher, ..*a })
    } else {
        pixel_pushed(a, b)
    }
}

/// The next background pixel, mixed with the next object pixel when there is one (both
/// leave their FIFOs), written in its color at the drawing position of the frame being
/// drawn; the drawing position and the x position move on, and the line has started.
#[verifier::opaque]
pub open spec fn pixel_pushed<GFX: GfxDevice>(a: &GbPpu<GFX>, b: &GbPpu<GFX>) -> bool {
    let fifo = a.bg_fetcher.fifo@;
    let sprites = a.sprite_fetcher.fifo@;
    let c = if sprites.len() == 0 { a.bg_color(fifo[0]) } else { a.mixed_color(fifo[0], sprites[0]) };
    &&& b.bg_fetcher.fifo@ == fifo.drop_first()
    &&& b.bg_fetcher == (BackgroundFetcher { fifo: b.bg_fetcher.fifo, ..a.bg_fetcher })
    &&& b.sprite_fetcher.fifo@ == (if sprites.len() > 0 { sprites.drop_first() } else { sprites })
    &&& b.screen_buffers[a.current_screen_buffer_index as int]@ == a.screen_buffers[a.current_screen_buffer_index as int]@.update(
        a.screen_buffer_index as int,
        pixel_of(c),
    )
    &&& forall|k: int|
        0 <= k < BUFFERS_NUMBER && k != a.current_screen_buffer_index ==> #[trigger] b.screen_buffers[k]
            == a.screen_buffers[k]
    &&& *b == (GbPpu {
        bg_fetcher: b.bg_fetcher,
        sprite_fetcher: SpriteFetcher { fifo: b.sprite_fetcher.fifo, ..a.sprite_fetcher },
        pixel_x_pos: (a.pixel_x_pos + 1) as u8,
        screen_buffer_index: (a.screen_buffer_index + 1) as usize,
        screen_buffers: b.screen_buffers,
        scanline_started: true,
        ..*a
    })
}

/// A push does not look at whether the line had started.
pub proof fn lemma_pixel_pushed_started<GFX: GfxDevice>(a: &GbPpu<GFX>, m: &GbPpu<GFX>, b: &GbPpu<GFX>)
    requires
        *m == (GbPpu { scanline_started: true, ..*a }),
        pixel_pushed(m, b),
    ensures
        pixel_pushed(a, b),
{
    reveal(pixel_pushed);
    assert(a.bg_color(a.bg_fetcher.fifo@[0]) == m.bg_color(a.bg_fetcher.fifo@[0]));
    assert(a.sprite_fetcher.fifo@.len() > 0 ==> a.mixed_color(a.bg_fetcher.fifo@[0], a.sprite_fetcher.fifo@[0])
        == m.mixed_color(a.bg_fetcher.fifo@[0], a.sprite_fetcher.fifo@[0]));
}

/// A background pixel that the palettes can color: color 0 to 3, CGB palette 0 to 7.
pub open spec fn valid_bg_pixel(pixel: BackgroundPixel) -> bool {
    pixel.color_index < 4 && pixel.attributes.cgb_pallete_number < 8
}

impl<GFX: GfxDevice> GbPpu<GFX> {
    /// The color of a background pixel: from the CGB color RAM in CGB mode, else from the
    /// background palette.
    pub open spec fn bg_color(&self, bg_pixel: BackgroundPixel) -> Color {
        if self.mode == Mode::CGB {
            color_ram_color(self.bg_color_ram@, bg_pixel.attributes.cgb_pallete_number, bg_pixel.color_index)
        } else {
            self.bg_color_mapping@[bg_pixel.color_index as int]
        }
    }

    /// The DMG palette (OBP0 or OBP1, by the object's palette bit) color of an object pixel.
    pub open spec fn dmg_sprite_color(&self, attributes: SpriteAttributes, pixel: SpritePixel) -> Color {
        (if attributes.gb_palette_number {
            self.obj_color_mapping1@[pixel.color_index as int]
        } else {
            self.obj_color_mapping0@[pixel.color_index as int]
        })->0
    }

    /// The color shown where a background pixel and an object pixel meet. Object color 0 is
    /// transparent. On the CGB the object wins when the background color is 0, when LCDC
    /// bit 0 is clear, or when neither the object nor the tile asks for background priority;
    /// on the DMG the background wins only when the object asks for it and its color is not 0.
    pub open spec fn mixed_color(&self, bg_pixel: BackgroundPixel, sprite_pixel: SpritePixel) -> Color {
        if sprite_pixel.color_index == 0 {
            self.bg_color(bg_pixel)
        } else {
            let attributes = self.sprite_fetcher.oam_entries@[sprite_pixel.oam_entry as int];
            if self.mode == Mode::CGB {
                if bg_pixel.color_index == 0 || self.lcd_control & 1 == 0 || (!attributes.attributes.bg_priority
                    && !bg_pixel.attributes.attribute.bg_priority) {
                    color_ram_color(self.obj_color_ram@, attributes.gbc_palette_number, sprite_pixel.color_index)
                } else {
                    color_ram_color(self.bg_color_ram@, bg_pixel.attributes.cgb_pallete_number, bg_pixel.color_index)
                }
            } else if attributes.attributes.bg_priority && bg_pixel.color_index != 0 {
                self.bg_color_mapping@[bg_pixel.color_index as int]
            } else {
                self.dmg_sprite_color(attributes, sprite_pixel)
            }
        }
    }

    /// An object pixel that the palettes can color: color 0 to 3 of one of the line's
    /// objects, and on the DMG a palette entry that is not transparent.
    pub open spec fn valid_sprite_pixel(&self, pixel: SpritePixel) -> bool {
        &&& pixel.color_index < 4
        &&& pixel.oam_entry < MAX_SPRITES_PER_LINE
        &&& self.sprite_fetcher.oam_entries@[pixel.oam_entry as int].gbc_palette_number < 8
        &&& (pixel.color_index != 0 ==> self.obj_color_mapping0@[pixel.color_index as int] is Some
            && self.obj_color_mapping1@[pixel.color_index as int] is Some)
    }

    pub open spec fn wf(&self) -> bool {
        &&& self.vram.wf()
        &&& self.bg_fetcher.wf()
        &&& self.sprite_fetcher.wf()
        &&& self.current_screen_buffer_index < BUFFERS_NUMBER
        &&& self.screen_buffer_index <= FRAME_SIZE
        &&& self.window_pos.x <= 248
    }

    pub fn new(device: GFX, mode: Mode) -> (r: Self)
        ensures
            r.wf(),
            r.timing_ok(),
            r.pixels_consistent(),
            r.frame_position() == 0,
            r.state == PpuState::Hblank,
            r.next_state == PpuState::OamSearch,
            r.lcd_control == 0,
            r.stat_register == 0,
            r.ly_register == 0,
            r.lyc_register == 0,
            r.bg_color_mapping@ == seq![shade(0), shade(1), shade(2), shade(3)],
            r.obj_color_mapping0@ == default_object_mapping(),
            r.obj_color_mapping1@ == default_object_mapping(),
            r.cgb_priority_mode == (mode == Mode::CGB),
            r.mode == mode,
            r.m_cycles_passed == 0,
            r.pixel_x_pos == 0,
            !r.vblank_occurred,
            r.vram.current_bank == 0,
            r.oam@ == Seq::new(OAM_MEMORY_SIZE as nat, |i: int| 0u8),
            r.bg_pos.x == 0 && r.bg_pos.y == 0,
            r.window_pos.x == 0 && r.window_pos.y == 0,
            r.bg_palette_register == 0 && r.obj_pallete_0_register == 0 && r.obj_pallete_1_register == 0,
            r.bg_color_ram@ == Seq::new(64, |i: int| 0u8),
            r.obj_color_ram@ == Seq::new(64, |i: int| 0u8),
            r.bg_color_pallete_index == 0 && r.obj_color_pallete_index == 0,
            !r.v_blank_interrupt_request && !r.h_blank_interrupt_request,
            !r.oam_search_interrupt_request && !r.coincidence_interrupt_request,
            !r.stat_triggered && !r.trigger_stat_interrupt,
            !r.scanline_started,
            r.screen_buffer_index == 0 && r.current_screen_buffer_index == 0,
            forall|b: int, i: int| 0 <= b < BUFFERS_NUMBER && 0 <= i < FRAME_SIZE ==> r.screen_buffers[b]@[i] == 0,
            r.bg_fetcher.fifo@.len() == 0,
            r.bg_fetcher.window_line_counter == 0,
            !r.bg_fetcher.has_wy_reached_ly,
            !r.bg_fetcher.rendering_window,
            r.bg_fetcher.current_x_pos == 0,
            r.bg_fetcher.fetcher_state_machine.state == 0,
            r.bg_fetcher.fetcher_state_machine.data.is_clear(),
            !r.bg_fetcher.scanline_rendering_started,
            r.bg_fetcher.cgb_attribute == decode_attributes(0),
            r.sprite_fetcher.fifo@.len() == 0,
            r.sprite_fetcher.oam_entries_len == 0,
            !r.sprite_fetcher.rendering,
            r.sprite_fetcher.oam_entries@ == Seq::new(MAX_SPRITES_PER_LINE as nat, |i: int| decode_sprite(0, 0, 0, 0, 0, 0)),
    {
        let r = Self {
            gfx_device: device,
            vram: VRam::new(),
            oam: [0; OAM_MEMORY_SIZE],
            stat_register: 0,
            lyc_register: 0,
            lcd_control: 0,
            bg_pos: Vec2::<u8> { x: 0, y: 0 },
            window_pos: Vec2::<u8> { x: 0, y: 0 },
            screen_buffers: [[0; FRAME_SIZE]; BUFFERS_NUMBER],
            current_screen_buffer_index: 0,
            bg_palette_register: 0,
            bg_color_mapping: [shade_color(0), shade_color(1), shade_color(2), shade_color(3)],
            obj_pallete_0_register: 0,
            obj_color_mapping0: [None, Some(shade_color(1)), Some(shade_color(2)), Some(shade_color(3))],
            obj_pallete_1_register: 0,
            obj_color_mapping1: [None, Some(shade_color(1)), Some(shade_color(2)), Some(shade_color(3))],
            ly_register: 0,
            state: PpuState::Hblank,
            bg_color_ram: [0; 64],
            bg_color_pallete_index: 0,
            obj_color_ram: [0; 64],
            obj_color_pallete_index: 0,
            // CGB priority is used by default on the CGB
            cgb_priority_mode: mode == Mode::CGB,
            v_blank_interrupt_request: false,
            h_blank_interrupt_request: false,
            oam_search_interrupt_request: false,
            coincidence_interrupt_request: false,
            vblank_occurred: false,
            screen_buffer_index: 0,
            m_cycles_passed: 0,
            stat_triggered: false,
            trigger_stat_interrupt: false,
            bg_fetcher: BackgroundFetcher::new(),
            sprite_fetcher: SpriteFetcher::new(),
            pixel_x_pos: 0,
            scanline_started: false,
            next_state: PpuState::OamSearch,
            mode,
        };
        assert(r.bg_color_mapping@ =~= seq![shade(0), shade(1), shade(2), shade(3)]);
        assert(r.obj_color_mapping0@ =~= default_object_mapping());
        assert(r.obj_color_mapping1@ =~= default_object_mapping());
        assert(r.oam@ =~= Seq::new(OAM_MEMORY_SIZE as nat, |i: int| 0u8));
        assert(r.bg_color_ram@ =~= Seq::new(64, |i: int| 0u8));
        assert(r.obj_color_ram@ =~= Seq::new(64, |i: int| 0u8));
        r
    }

    /// Starts the PPU again with an OAM search.
    pub fn turn_on(&mut self)
        ensures
            *final(self) == (GbPpu { state: PpuState::OamSearch, ..*old(self) }),
    {
        self.state = PpuState::OamSearch;
    }

    /// Tells whether a vertical blank started since the last call, and forgets it.
    pub fn consume_vblank_event(&mut self) -> (r: bool)
        ensures
            r == old(self).vblank_occurred,
            *final(self) == (GbPpu { vblank_occurred: false, ..*old(self) }),
    {
        let last_vblank_state: bool = self.vblank_occurred;
        self.vblank_occurred = false;
        last_vblank_state
    }

    /// The color `pixel` of palette `pallete` in a CGB color RAM.
    pub fn get_color_from_color_ram(color_ram: &[u8; 64], pallete: u8, pixel: u8) -> (c: Color)
        requires
            pallete < 8,
            pixel < 4,
        ensures
            c == color_ram_color(color_ram@, pallete, pixel),
    {
        let pixel_color_index = (pallete * 8) + (pixel * 2);
        let mut color: u16 = color_ram[pixel_color_index as usize] as u16;
        color = color | ((color_ram[pixel_color_index as usize + 1] as u16) << 8);
        Color::from(color)
    }

    /// The color of a background pixel: from the CGB color RAM in CGB mode, else from the
    /// background palette.
    pub fn get_bg_pixel(&self, bg_pixel: BackgroundPixel) -> (c: Color)
        requires
            bg_pixel.color_index < 4,
            bg_pixel.attributes.cgb_pallete_number < 8,
        ensures
            c == if self.mode == Mode::CGB {
                color_ram_color(self.bg_color_ram@, bg_pixel.attributes.cgb_pallete_number, bg_pixel.color_index)
            } else {
                self.bg_color_mapping@[bg_pixel.color_index as int]
            },
    {
        if self.mode == Mode::CGB {
            Self::get_color_from_color_ram(&self.bg_color_ram, bg_pixel.attributes.cgb_pallete_number, bg_pixel.color_index)
        } else {
            self.bg_color_mapping[bg_pixel.color_index as usize]
        }
    }

    /// Hands the frame just drawn to the device and starts drawing the other buffer.
    pub(crate) fn swap_buffer(&mut self)
        requires
            old(self).wf(),
        ensures
            final(self).wf(),
            final(self).screen_buffer_index == 0,
            final(self).current_screen_buffer_index == (old(self).current_screen_buffer_index + 1) % (BUFFERS_NUMBER as int),
            final(self).screen_buffers == old(self).screen_buffers,
            *final(self) == (GbPpu {
                gfx_device: final(self).gfx_device,
                screen_buffer_index: 0,
                current_screen_buffer_index: final(self).current_screen_buffer_index,
                ..*old(self)
            }),
    {
        self.gfx_device.swap_buffer(&self.screen_buffers[self.current_screen_buffer_index]);
        self.screen_buffer_index = 0;
        self.current_screen_buffer_index = (self.current_screen_buffer_index + 1) % BUFFERS_NUMBER;
    }

    /// Stops the PPU: the frame being drawn turns white and is shown, and the PPU waits in
    /// the horizontal blank of line 0.
    pub fn turn_off(&mut self)
        requires
            old(self).wf(),
        ensures
            final(self).wf(),
            final(self).timing_ok(),
            final(self).m_cycles_passed == 0,
            final(self).state == PpuState::Hblank,
            final(self).ly_register == 0,
            !final(self).stat_triggered,
            !final(self).trigger_stat_interrupt,
            !final(self).bg_fetcher.has_wy_reached_ly,
            final(self).bg_fetcher.window_line_counter == 0,
            final(self).bg_fetcher.fifo@.len() == 0,
            final(self).sprite_fetcher.fifo@.len() == 0,
            final(self).sprite_fetcher.oam_entries_len == 0,
            final(self).pixel_x_pos == 0,
            final(self).screen_buffer_index == 0,
            final(self).current_screen_buffer_index == (old(self).current_screen_buffer_index + 1) % (BUFFERS_NUMBER as int),
            forall|i: int|
                0 <= i < FRAME_SIZE ==> final(self).screen_buffers[old(self).current_screen_buffer_index as int]@[i]
                    == 0xFFFF,
            final(self).lcd_control == old(self).lcd_control,
            final(self).lyc_register == old(self).lyc_register,
            final(self).stat_register == old(self).stat_register,
            final(self).window_pos == old(self).window_pos,
            final(self).bg_pos == old(self).bg_pos,
            final(self).mode == old(self).mode,
    {
        self.m_cycles_passed = 0;
        self.screen_buffers[self.current_screen_buffer_index] = [0xFFFF; FRAME_SIZE];
        self.swap_buffer();
        self.state = PpuState::Hblank;
        self.ly_register = 0;
        self.stat_triggered = false;
        self.trigger_stat_interrupt = false;
        self.bg_fetcher.has_wy_reached_ly = false;
        self.bg_fetcher.window_line_counter = 0;
        self.bg_fetcher.reset();
        self.sprite_fetcher.reset();
        self.pixel_x_pos = 0;
    }

    /// Refreshes the mode and LY=LYC bits of STAT, raises the STAT interrupt (bit 1 of IF)
    /// on a rising edge of its sources, and returns the m-cycles until LY next equals LYC
    /// (0 where the line count is already past it, as in the vertical blank when LYC is one
    /// of its lines before LY).
    pub(crate) fn update_stat_register(&mut self, if_register: &mut u8) -> (r: u32)
        ensures
            ({
                let coincidence = old(self).ly_register == old(self).lyc_register;
                let trigger = old(self).trigger_stat_interrupt || (coincidence && old(self).coincidence_interrupt_request);
                &&& final(self).stat_register == if coincidence {
                    ((old(self).stat_register & 0b1111_1100) | state_number(old(self).state)) | 0b100
                } else {
                    ((old(self).stat_register & 0b1111_1100) | state_number(old(self).state)) & !0b100u8
                }
                &&& *final(if_register) == if trigger && !old(self).stat_triggered {
                    *old(if_register) | 0b10
                } else {
                    *old(if_register)
                }
                &&& final(self).stat_triggered == trigger
                &&& !final(self).trigger_stat_interrupt
            }),
            r == if old(self).lyc_register < old(self).ly_register {
                saturating_diff((old(self).ly_register - old(self).lyc_register) * HBLANK_M_CYCLES_LENGTH, old(self).m_cycles_passed as int)
            } else if old(self).lyc_register == old(self).ly_register {
                saturating_diff(HBLANK_M_CYCLES_LENGTH * 154, old(self).m_cycles_passed as int)
            } else {
                (old(self).lyc_register - old(self).ly_register) * HBLANK_M_CYCLES_LENGTH - old(self).m_cycles_passed
                    % HBLANK_M_CYCLES_LENGTH
            },
            *final(self) == (GbPpu {
                stat_register: final(self).stat_register,
                stat_triggered: final(self).stat_triggered,
                trigger_stat_interrupt: false,
                ..*old(self)
            }),
    {
        self.stat_register = self.stat_register & 0b1111_1100;
        self.stat_register = self.stat_register | self.state.number();
        if self.ly_register == self.lyc_register {
            if self.coincidence_interrupt_request {
                self.trigger_stat_interrupt = true;
            }
            self.stat_register = self.stat_register | 0b100;
        } else {
            self.stat_register = self.stat_register & !0b100u8;
        }
        if self.trigger_stat_interrupt {
            if !self.stat_triggered {
                *if_register = *if_register | 0b10;
                self.stat_triggered = true;
            }
        } else {
            self.stat_triggered = false;
        }
        self.trigger_stat_interrupt = false;
        let line = HBLANK_M_CYCLES_LENGTH as u32;
        let passed = self.m_cycles_passed as u32;
        if self.lyc_register < self.ly_register {
            let until = (self.ly_register - self.lyc_register) as u32 * line;
            if until >= passed { until - passed } else { 0 }
        } else if self.lyc_register == self.ly_register {
            if line * 154 >= passed { (line * 154) - passed } else { 0 }
        } else {
            assert(passed % line < line);
            ((self.lyc_register - self.ly_register) as u32 * line) - (passed % line)
        }
    }

    /// The height of the objects: 16 when LCDC bit 2 is set, else 8.
    pub open spec fn sprite_height(&self) -> u8 {
        if self.lcd_control & 0x04 != 0 { 16 } else { 8 }
    }

    /// The objects that the OAM puts on the current line (see `selected`).
    pub open spec fn line_sprites(&self, cgb_enabled: bool) -> Seq<SpriteAttributes> {
        selected(
            self.oam@,
            self.ly_register,
            self.sprite_height(),
            cgb_enabled && self.cgb_priority_mode,
            self.sprite_fetcher.entries(),
            40,
        )
    }

    /// Collects the objects of the current line from the OAM, at most 10 in OAM order, each
    /// hiding the columns of the others it overlaps that it has priority over, and sorts
    /// them by x.
    pub fn read_sprites_from_oam(&mut self, cgb_enabled: bool)
        requires
            old(self).wf(),
            old(self).ly_register <= 223,
            forall|k: int| 0 <= k < old(self).sprite_fetcher.entries().len() ==> old(self).sprite_fetcher.entries()[k].x <= 247,
            old(self).sprite_fetcher.oam_entries_len < MAX_SPRITES_PER_LINE || forall|i: int|
                0 <= i < 40 ==> !#[trigger] entry_on_line(old(self).oam@, old(self).ly_register, old(self).sprite_height(), i),
        ensures
            final(self).wf(),
            final(self).sprite_fetcher.entries().len() == old(self).line_sprites(cgb_enabled).len(),
            final(self).sprite_fetcher.entries().to_multiset() == old(self).line_sprites(cgb_enabled).to_multiset(),
            sorted_by_x(final(self).sprite_fetcher.entries()),
            *final(self) == (GbPpu {
                sprite_fetcher: SpriteFetcher {
                    oam_entries: final(self).sprite_fetcher.oam_entries,
                    oam_entries_len: final(self).sprite_fetcher.oam_entries_len,
                    ..old(self).sprite_fetcher
                },
                ..*old(self)
            }),
    {
        let sprite_height: u8 = if (self.lcd_control & 0x04) != 0 { EXTENDED_SPRITE_HIGHT } else { NORMAL_SPRITE_HIGHT };
        let cgb_priority = cgb_enabled && self.cgb_priority_mode;
        let ly = self.ly_register;
        let ghost oam = self.oam@;
        let ghost init = self.sprite_fetcher.entries();
        let mut entries = self.sprite_fetcher.oam_entries;
        let mut len = self.sprite_fetcher.oam_entries_len as usize;
        let mut oam_index: u16 = 0;
        assert forall|k: int| 0 <= k < len implies entries@[k].x <= 247 by {
            assert(entries@[k] == init[k]);
        }
        assert(entries@.subrange(0, len as int) =~= init);
        while oam_index < 40 && len < MAX_SPRITES_PER_LINE
            invariant
                oam_index <= 40,
                oam == self.oam@,
                ly <= 223,
                sprite_height == old(self).sprite_height(),
                len <= MAX_SPRITES_PER_LINE,
                entries@.subrange(0, len as int) == selected(oam, ly, sprite_height, cgb_priority, init, oam_index as int),
                forall|k: int| 0 <= k < len ==> entries@[k].x <= 247,
            decreases 40 - oam_index,
        {
            let oam_entry_address = (oam_index * 4) as usize;
            let end_y = self.oam[oam_entry_address];
            let end_x = self.oam[oam_entry_address + 1];
            if end_x > 0 && end_x < 168 && ly + 16 >= end_y && ly + 16 < end_y + sprite_height {
                let tile_number = self.oam[oam_entry_address + 2];
                let attributes = self.oam[oam_entry_address + 3];
                add_line_sprite(&mut entries, len, end_y, end_x, tile_number, attributes, cgb_priority);
                len = len + 1;
            }
            oam_index = oam_index + 1;
        }
        proof {
            if oam_index < 40 {
                lemma_selected_full(oam, ly, sprite_height, cgb_priority, init, oam_index as int, 40);
            }
        }
        // Objects with a lower x are drawn first.
        sort_by_x(&mut entries, len);
        self.sprite_fetcher.oam_entries = entries;
        self.sprite_fetcher.oam_entries_len = len as u8;
    }

    /// The DMG color of an object pixel; its palette entry must not be the transparent one.
    pub fn get_dmg_sprite_pixel(&self, pixel_oam_attribute: &SpriteAttributes, sprite_pixel: SpritePixel) -> (c: Color)
        requires
            sprite_pixel.color_index < 4,
            (if pixel_oam_attribute.gb_palette_number {
                self.obj_color_mapping1@[sprite_pixel.color_index as int]
            } else {
                self.obj_color_mapping0@[sprite_pixel.color_index as int]
            }) is Some,
        ensures
            c == self.dmg_sprite_color(*pixel_oam_attribute, sprite_pixel),
    {
        let sprite_pixel = if pixel_oam_attribute.gb_palette_number {
            self.obj_color_mapping1[sprite_pixel.color_index as usize]
        } else {
            self.obj_color_mapping0[sprite_pixel.color_index as usize]
        };
        sprite_pixel.unwrap()
    }

    /// The color of the next pixel: takes the next object pixel, if any, and mixes it with
    /// the background pixel (see `mixed_color`).
    pub fn get_pixel_color(&mut self, bg_pixel: BackgroundPixel) -> (c: Color)
        requires
            old(self).wf(),
            valid_bg_pixel(bg_pixel),
            old(self).sprite_fetcher.fifo@.len() > 0 ==> old(self).valid_sprite_pixel(old(self).sprite_fetcher.fifo@[0]),
        ensures
            final(self).wf(),
            old(self).sprite_fetcher.fifo@.len() == 0 ==> c == old(self).bg_color(bg_pixel) && *final(self) == *old(self),
            old(self).sprite_fetcher.fifo@.len() > 0 ==> {
                &&& c == old(self).mixed_color(bg_pixel, old(self).sprite_fetcher.fifo@[0])
                &&& final(self).sprite_fetcher.fifo@ == old(self).sprite_fetcher.fifo@.drop_first()
                &&& *final(self) == (GbPpu {
                    sprite_fetcher: SpriteFetcher { fifo: final(self).sprite_fetcher.fifo, ..old(self).sprite_fetcher },
                    ..*old(self)
                })
            },
    {
        if self.sprite_fetcher.fifo.len() == 0 {
            return self.get_bg_pixel(bg_pixel);
        }
        let sprite_pixel = self.sprite_fetcher.fifo.remove();
        if sprite_pixel.color_index == 0 {
            return self.get_bg_pixel(bg_pixel);
        }
        let pixel_oam_attribute = self.sprite_fetcher.oam_entries[sprite_pixel.oam_entry as usize];
        if self.mode == Mode::CGB {
            // The object shows when the background color is 0, when the background is
            // switched off, or when neither the object nor the tile has background priority.
            if bg_pixel.color_index == 0 || self.lcd_control & 1 == 0 || (!pixel_oam_attribute.attributes.bg_priority
                && !bg_pixel.attributes.attribute.bg_priority) {
                Self::get_color_from_color_ram(&self.obj_color_ram, pixel_oam_attribute.gbc_palette_number, sprite_pixel.color_index)
            } else {
                Self::get_color_from_color_ram(&self.bg_color_ram, bg_pixel.attributes.cgb_pallete_number, bg_pixel.color_index)
            }
        } else {
            if pixel_oam_attribute.attributes.bg_priority && bg_pixel.color_index != 0 {
                self.bg_color_mapping[bg_pixel.color_index as usize]
            } else {
                self.get_dmg_sprite_pixel(&pixel_oam_attribute, sprite_pixel)
            }
        }
    }

    /// Moves the next background pixel to the screen, mixed with the next object pixel; at
    /// the start of a line it first drops the pixels that the fine scroll (SCX, or WX for the
    /// window) moves off the screen.
    #[verifier::rlimit(80)]
    pub fn try_push_to_lcd(&mut self)
        requires
            old(self).wf(),
            old(self).bg_fetcher.fifo@.len() > 0 ==> valid_bg_pixel(old(self).bg_fetcher.fifo@[0]),
            old(self).sprite_fetcher.fifo@.len() > 0 ==> old(self).valid_sprite_pixel(old(self).sprite_fetcher.fifo@[0]),
            old(self).screen_buffer_index < FRAME_SIZE,
            old(self).pixel_x_pos < 255,
        ensures
            final(self).wf(),
            pushed_only(old(self), final(self)),
            pushed_to_lcd(old(self), final(self)),
            final(self).pixel_x_pos == old(self).pixel_x_pos || final(self).pixel_x_pos == old(self).pixel_x_pos + 1,
            final(self).screen_buffer_index == old(self).screen_buffer_index + (final(self).pixel_x_pos - old(self).pixel_x_pos),
            *final(self) == (GbPpu {
                bg_fetcher: final(self).bg_fetcher,
                sprite_fetcher: SpriteFetcher { fifo: final(self).sprite_fetcher.fifo, ..old(self).sprite_fetcher },
                pixel_x_pos: final(self).pixel_x_pos,
                screen_buffer_index: final(self).screen_buffer_index,
                screen_buffers: final(self).screen_buffers,
                scanline_started: final(self).scanline_started,
                ..*old(self)
            }),
    {
        proof {
            reveal(pushed_to_lcd);
        }
        let ghost a = *self;
        if self.bg_fetcher.fifo.len() == 0 {
            return;
        }
        proof {
            self.bg_fetcher.fifo.lemma_len_at_most_size();
        }
        if !self.scanline_started {
            let screen_x_indicator = if self.bg_fetcher.rendering_window { self.window_pos.x } else { self.bg_pos.x };
            // The FIFO starts a line with 8 pixels and does not refill until it is empty:
            // the first pixels of the line are dropped until the fine scroll is met.
            if FIFO_SIZE - self.bg_fetcher.fifo.len() >= screen_x_indicator as usize % FIFO_SIZE {
                self.scanline_started = true;
            } else {
                self.bg_fetcher.fifo.remove();
                proof {
                    assert(self.bg_fetcher == (BackgroundFetcher { fifo: self.bg_fetcher.fifo, ..a.bg_fetcher }));
                }
                return;
            }
        }
        let ghost m = *self;
        self.push_front_pixel();
        proof {
            lemma_pixel_pushed_started(&a, &m, self);
        }
    }

    /// Moves the next background pixel, mixed with the next object pixel, to the screen (see
    /// `pixel_pushed`).
    fn push_front_pixel(&mut self)
        requires
            old(self).wf(),
            old(self).bg_fetcher.fifo@.len() > 0,
            valid_bg_pixel(old(self).bg_fetcher.fifo@[0]),
            old(self).scanline_started,
            old(self).sprite_fetcher.fifo@.len() > 0 ==> old(self).valid_sprite_pixel(old(self).sprite_fetcher.fifo@[0]),
            old(self).screen_buffer_index < FRAME_SIZE,
            old(self).pixel_x_pos < 255,
        ensures
            final(self).wf(),
            pushed_only(old(self), final(self)),
            pixel_pushed(old(self), final(self)),
            final(self).pixel_x_pos == old(self).pixel_x_pos || final(self).pixel_x_pos == old(self).pixel_x_pos + 1,
            final(self).screen_buffer_index == old(self).screen_buffer_index + (final(self).pixel_x_pos - old(self).pixel_x_pos),
            *final(self) == (GbPpu {
                bg_fetcher: final(self).bg_fetcher,
                sprite_fetcher: SpriteFetcher { fifo: final(self).sprite_fetcher.fifo, ..old(self).sprite_fetcher },
                pixel_x_pos: final(self).pixel_x_pos,
                screen_buffer_index: final(self).screen_buffer_index,
                screen_buffers: final(self).screen_buffers,
                scanline_started: final(self).scanline_started,
                ..*old(self)
            }),
    {
        let ghost a = *self;
        let bg_pixel = self.bg_fetcher.fifo.remove();
        let ghost m = *self;
        proof {
            assert(m.bg_fetcher == (BackgroundFetcher { fifo: m.bg_fetcher.fifo, ..a.bg_fetcher }));
        }
        let pixel = self.get_pixel_color(bg_pixel);
        self.push_pixel(u16::from(pixel));
        self.pixel_x_pos = self.pixel_x_pos + 1;
        proof {
            assert(self.bg_fetcher == m.bg_fetcher);
            assert(self.sprite_fetcher == (SpriteFetcher { fifo: self.sprite_fetcher.fifo, ..a.sprite_fetcher }));
            assert(m.bg_color(bg_pixel) == a.bg_color(bg_pixel));
            assert(a.sprite_fetcher.fifo@.len() > 0 ==> m.mixed_color(bg_pixel, a.sprite_fetcher.fifo@[0])
                == a.mixed_color(bg_pixel, a.sprite_fetcher.fifo@[0]));
            reveal(pixel_pushed);
        }
    }

    /// Writes the next pixel of the frame being drawn.
    pub fn push_pixel(&mut self, pixel: Pixel)
        requires
            old(self).wf(),
            old(self).screen_buffer_index < FRAME_SIZE,
        ensures
            final(self).wf(),
            final(self).screen_buffer_index == old(self).screen_buffer_index + 1,
            final(self).screen_buffers[old(self).current_screen_buffer_index as int]@ == old(self).screen_buffers[old(
            self).current_screen_buffer_index as int]@.update(old(self).screen_buffer_index as int, pixel),
            final(self).current_screen_buffer_index == old(self).current_screen_buffer_index,
            forall|b: int| 0 <= b < BUFFERS_NUMBER && b != old(self).current_screen_buffer_index ==> final(self).screen_buffers[b] == old(self).screen_buffers[b],
            *final(self) == (GbPpu {
                screen_buffers: final(self).screen_buffers,
                screen_buffer_index: final(self).screen_buffer_index,
                ..*old(self)
            }),
    {
        let current = self.current_screen_buffer_index;
        let index = self.screen_buffer_index;
        let mut buffer = self.screen_buffers[current];
        buffer[index] = pixel;
        self.screen_buffers[current] = buffer;
        self.screen_buffer_index = index + 1;
    }
}

} // verus!
