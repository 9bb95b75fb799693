use vstd::prelude::*;
use super::gb_ppu::{GbPpu, HBLANK_M_CYCLES_LENGTH, VBLANK_M_CYCLES_LENGTH, valid_bg_pixel, pushed_only, lemma_pushed_only_trans,
    lemma_pushed_none};
use crate::utils::vec2::Vec2;
use super::gfx_device::{GfxDevice, FRAME_SIZE};
use super::ppu_state::{PpuState, state_number};
use super::vram::VRam;
use super::fifo::sprite_fetcher::{SpriteFetcher, MAX_SPRITES_PER_LINE};
use super::fifo::background_fetcher::{BackgroundFetcher, fetch_step};
use super::gb_ppu::{pushed_to_lcd, BUFFERS_NUMBER};
use super::sprite_selection::sorted_by_x;

verus! {

/// The m-cycles of the OAM search at the start of a line.
pub const OAM_SEARCH_M_CYCLES_LENGTH: u16 = 20;

/// The pixels of a line.
pub const LINE_PIXELS: u8 = 160;

/// The first line of the vertical blank.
pub const VBLANK_START_LINE: u8 = 144;

/// What the step that fetches object pixels may do during the pixel transfer: it takes any
/// well formed fetcher (with the VRAM, LCDC, LY, the x position of the line, whether the CGB
/// features are on and whether the CGB object priority is used) and gives back a well formed
/// one.
pub open spec fn sprite_step_ok<F: Fn(SpriteFetcher, &VRam, u8, u8, u8, bool, bool) -> SpriteFetcher>(
    step: F,
) -> bool {
    &&& forall|f: SpriteFetcher, v: &VRam, lcdc: u8, ly: u8, x: u8, cgb: bool, prio: bool|
        f.wf() ==> #[trigger] call_requires(step, (f, v, lcdc, ly, x, cgb, prio))
    &&& forall|args: (SpriteFetcher, &VRam, u8, u8, u8, bool, bool), r: SpriteFetcher|
        #[trigger] call_ensures(step, args, r) && args.0.wf() ==> r.wf()
}

/// The rank of the next mode in the order the machine may change modes without time
/// passing: the horizontal blank, then the vertical blank, the OAM search, the pixel
/// transfer.
pub open spec fn mode_rank(state: PpuState) -> int {
    match state {
        PpuState::Hblank => 3,
        PpuState::Vblank => 2,
        PpuState::OamSearch => 1,
        PpuState::PixelTransfer => 0,
    }
}

/// The m-cycles of a frame: 154 lines of 114.
pub const FRAME_M_CYCLES: u32 = 17556;

/// A position in the frame (in m-cycles from its start) where a visible line starts with
/// its OAM search.
pub open spec fn is_line_start(position: int) -> bool {
    0 <= position < 144 * 114 && position % 114 == 0
}

impl<GFX: GfxDevice> GbPpu<GFX> {
    /// Where the mode machine is in the frame, in m-cycles from its start: LY lines of 114
    /// m-cycles and the m-cycles into the current line, or into the vertical blank, which
    /// starts at line 144.
    pub open spec fn frame_position(&self) -> int {
        if self.next_state == PpuState::Vblank {
            144 * 114 + self.m_cycles_passed
        } else {
            self.ly_register * 114 + self.m_cycles_passed
        }
    }

    /// The pixels pushed to the frame being drawn are those of the lines above LY and the
    /// first `pixel_x_pos` of line LY (none during the vertical blank); a line in its
    /// horizontal blank has all its 160 pixels.
    pub open spec fn pixels_consistent(&self) -> bool {
        &&& self.next_state != PpuState::Vblank ==> self.screen_buffer_index == self.ly_register * 160
            + self.pixel_x_pos
        &&& self.next_state == PpuState::Vblank ==> self.screen_buffer_index == 0
        &&& self.next_state == PpuState::Hblank ==> self.pixel_x_pos == LINE_PIXELS
    }

    /// The state of the mode machine is one it can run from: LY stays below 154 and below 144
    /// out of the vertical blank, the OAM search starts at the start of a line with no object
    /// read yet and lasts 20 m-cycles, the vertical blank lasts 1140, and the pixel transfer
    /// has pixels left to draw.
    pub open spec fn timing_ok(&self) -> bool {
        &&& self.wf()
        &&& self.ly_register <= 153
        &&& self.next_state != PpuState::Vblank ==> self.ly_register < VBLANK_START_LINE
        &&& self.next_state == PpuState::OamSearch ==> self.m_cycles_passed <= OAM_SEARCH_M_CYCLES_LENGTH
            && self.pixel_x_pos == 0
        &&& self.next_state == PpuState::Vblank ==> self.m_cycles_passed <= VBLANK_M_CYCLES_LENGTH
        &&& self.next_state == PpuState::PixelTransfer ==> self.pixel_x_pos < LINE_PIXELS
            && self.m_cycles_passed < HBLANK_M_CYCLES_LENGTH
        &&& (self.next_state == PpuState::PixelTransfer || self.next_state == PpuState::Hblank)
            ==> self.m_cycles_passed <= HBLANK_M_CYCLES_LENGTH
        &&& (self.next_state == PpuState::Hblank || self.next_state == PpuState::Vblank || (self.next_state
            == PpuState::OamSearch && self.m_cycles_passed == 0)) ==> self.sprite_fetcher.oam_entries_len == 0
        &&& self.pixel_x_pos <= LINE_PIXELS
    }

    /// The m-cycles until the mode machine next changes mode: 1 while the mode that STAT
    /// shows still has to catch up with the next one, else what is left of the current mode
    /// (of the current line in the vertical blank; for the pixel transfer, a quarter of the
    /// pixels left, about 4 being drawn each m-cycle).
    pub open spec fn m_cycles_to_next_mode(&self) -> int {
        let passed = self.m_cycles_passed as int;
        if self.next_state != self.state {
            1
        } else {
            match self.next_state {
                PpuState::Vblank => ((passed / 114) + 1) * 114 - passed,
                PpuState::Hblank => if passed <= 114 { 114 - passed } else { 0 },
                PpuState::OamSearch => 20 - passed,
                PpuState::PixelTransfer => (160 - self.pixel_x_pos) / 4,
            }
        }
    }

    /// The pixel pipeline can move a pixel to the screen: the next background pixel and the
    /// next object pixel are ones the palettes color, and the frame and the line have room.
    fn can_push_to_lcd(&self) -> (r: bool)
        requires
            self.wf(),
        ensures
            r == push_ready(*self),
    {
        if self.screen_buffer_index >= FRAME_SIZE || self.pixel_x_pos == 255 {
            return false;
        }
        if self.bg_fetcher.fifo.len() > 0 {
            let p = self.bg_fetcher.fifo.get(0);
            if p.color_index >= 4 || p.attributes.cgb_pallete_number >= 8 {
                return false;
            }
        }
        if self.sprite_fetcher.fifo.len() > 0 {
            let p = self.sprite_fetcher.fifo.get(0);
            if p.color_index >= 4 || p.oam_entry as usize >= MAX_SPRITES_PER_LINE {
                return false;
            }
            if self.sprite_fetcher.oam_entries[p.oam_entry as usize].gbc_palette_number >= 8 {
                return false;
            }
            if p.color_index != 0 && (self.obj_color_mapping0[p.color_index as usize].is_none()
                || self.obj_color_mapping1[p.color_index as usize].is_none()) {
                return false;
            }
        }
        true
    }

    /// Runs the sprite step on the object fetcher.
    fn fetch_sprite_pixels<F: Fn(SpriteFetcher, &VRam, u8, u8, u8, bool, bool) -> SpriteFetcher>(
        &mut self,
        sprite_step: &F,
        cgb_enabled: bool,
    )
        requires
            old(self).wf(),
            sprite_step_ok(*sprite_step),
        ensures
            final(self).wf(),
            *final(self) == (GbPpu { sprite_fetcher: final(self).sprite_fetcher, ..*old(self) }),
            call_ensures(
                *sprite_step,
                (
                    old(self).sprite_fetcher,
                    &old(self).vram,
                    old(self).lcd_control,
                    old(self).ly_register,
                    old(self).pixel_x_pos,
                    cgb_enabled,
                    old(self).cgb_priority_mode,
                ),
                final(self).sprite_fetcher,
            ),
    {
        let mut taken = SpriteFetcher::new();
        core::mem::swap(&mut taken, &mut self.sprite_fetcher);
        let fetched = sprite_step(
            taken,
            &self.vram,
            self.lcd_control,
            self.ly_register,
            self.pixel_x_pos,
            cgb_enabled,
            self.cgb_priority_mode,
        );
        self.sprite_fetcher = fetched;
    }
}


/// Bit 0 of the IF register, the vertical blank interrupt request.
pub open spec fn vblank_requested(if_register: u8) -> bool {
    if_register & 1 != 0
}

/// Setting bit 0 of IF requests the vertical blank interrupt; the mode bits and the LY=LYC
/// bit of STAT read back as written.
proof fn lemma_register_bits(a: u8, s: u8, n: u8)
    by (bit_vector)
    requires
        n < 4,
    ensures
        (a | 1) & 1 != 0,
        (a & 1 != 0) ==> ((a | 2) & 1 != 0),
        ((((s & 0b1111_1100) | n) | 0b100) & 3) == n,
        ((((s & 0b1111_1100) | n) | 0b100) & 0b100) != 0,
        ((((s & 0b1111_1100) | n) & !0b100u8) & 3) == n,
        ((((s & 0b1111_1100) | n) & !0b100u8) & 0b100) == 0,
{
}

/// Adding the same to two numbers equal modulo the frame keeps them equal.
proof fn lemma_frame_mod_add(a: int, b: int, k: int)
    requires
        a % (FRAME_M_CYCLES as int) == b % (FRAME_M_CYCLES as int),
    ensures
        (a + k) % (FRAME_M_CYCLES as int) == (b + k) % (FRAME_M_CYCLES as int),
{
    let f = FRAME_M_CYCLES as int;
    vstd::arithmetic::div_mod::lemma_add_mod_noop(a, k, f);
    vstd::arithmetic::div_mod::lemma_add_mod_noop(b, k, f);
}

/// Running the mode machine for `m_cycles` m-cycles moves it from frame position `from` to
/// `to` (modulo the frame): it advances by `m_cycles`, or by a little more when an OAM search
/// starts shortly before the end of the run, as the search then takes its full length out of
/// `m_cycles` (at most 20 m-cycles) whatever is left of the run.
pub open spec fn runs_for(from: int, to: int, m_cycles: int) -> bool {
    exists|t: int|
        #![trigger (from + t) % (FRAME_M_CYCLES as int)]
        m_cycles <= t < m_cycles + 20 && to % (FRAME_M_CYCLES as int) == (from + t) % (FRAME_M_CYCLES as int) && (t
            > m_cycles ==> t - oam_search_take(m_cycles) > 0 && is_line_start(
            (from + t - oam_search_take(m_cycles)) % (FRAME_M_CYCLES as int),
        ))
}

/// The m-cycles that an OAM search takes out of a run of `m_cycles`.
pub open spec fn oam_search_take(m_cycles: int) -> int {
    if m_cycles < 20 { m_cycles } else { 20 }
}

/// The registers and settings that the mode machine reads and does not change.
pub open spec fn same_settings<GFX: GfxDevice>(a: &GbPpu<GFX>, b: &GbPpu<GFX>) -> bool {
    &&& b.lcd_control == a.lcd_control
    &&& b.lyc_register == a.lyc_register
    &&& b.mode == a.mode
    &&& b.window_pos == a.window_pos
    &&& b.bg_pos == a.bg_pos
    &&& b.cgb_priority_mode == a.cgb_priority_mode
    &&& b.v_blank_interrupt_request == a.v_blank_interrupt_request
    &&& b.h_blank_interrupt_request == a.h_blank_interrupt_request
    &&& b.oam_search_interrupt_request == a.oam_search_interrupt_request
    &&& b.coincidence_interrupt_request == a.coincidence_interrupt_request
    &&& b.oam == a.oam
    &&& b.vram == a.vram
}

/// The pixel pipeline can move a pixel to the screen: the next background pixel and the
/// next object pixel are ones the palettes color, and the frame and the line have room.
pub open spec fn push_ready<GFX: GfxDevice>(a: GbPpu<GFX>) -> bool {
    &&& a.bg_fetcher.fifo@.len() > 0 ==> valid_bg_pixel(a.bg_fetcher.fifo@[0])
    &&& a.sprite_fetcher.fifo@.len() > 0 ==> a.valid_sprite_pixel(a.sprite_fetcher.fifo@[0])
    &&& a.screen_buffer_index < FRAME_SIZE
    &&& a.pixel_x_pos < 255
}

/// The object fetcher's part of a tick: when LCDC bit 1 shows the objects, the object
/// fetcher becomes one that `step` gives for it, with the VRAM, LCDC, LY, the x position of
/// the line, whether the CGB features are on and the CGB object priority; else nothing changes.
#[verifier::opaque]
pub open spec fn object_phase<GFX: GfxDevice, F: Fn(SpriteFetcher, &VRam, u8, u8, u8, bool, bool) -> SpriteFetcher>(
    a: GbPpu<GFX>,
    b: GbPpu<GFX>,
    cgb_enabled: bool,
    step: F,
) -> bool {
    if a.lcd_control & 0b10 != 0 {
        &&& call_ensures(
            step,
            (a.sprite_fetcher, &a.vram, a.lcd_control, a.ly_register, a.pixel_x_pos, cgb_enabled, a.cgb_priority_mode),
            b.sprite_fetcher,
        )
        &&& b == (GbPpu { sprite_fetcher: b.sprite_fetcher, ..a })
    } else {
        b == a
    }
}

/// The background fetcher going back to its first step, keeping its pixels and position.
pub open spec fn fetcher_paused(a: BackgroundFetcher, b: BackgroundFetcher) -> bool {
    &&& b.fetcher_state_machine.state == 0
    &&& b.fetcher_state_machine.data.is_clear()
    &&& b.fifo@ == a.fifo@
    &&& b.current_x_pos == a.current_x_pos
    &&& b.rendering_window == a.rendering_window
    &&& b.scanline_rendering_started == a.scanline_rendering_started
    &&& b.window_line_counter == a.window_line_counter
    &&& b.has_wy_reached_ly == a.has_wy_reached_ly
    &&& b.cgb_attribute == a.cgb_attribute
}

/// The background fetcher's part of a tick: it waits at its first step while the object
/// fetcher draws, takes its next step (see `fetch_step`) while its x position is at most 247,
/// and else does nothing.
#[verifier::opaque]
pub open spec fn background_phase<GFX: GfxDevice>(a: GbPpu<GFX>, b: GbPpu<GFX>, cgb_enabled: bool) -> bool {
    if a.sprite_fetcher.rendering {
        &&& fetcher_paused(a.bg_fetcher, b.bg_fetcher)
        &&& b == (GbPpu { bg_fetcher: b.bg_fetcher, ..a })
    } else if a.bg_fetcher.current_x_pos <= 247 {
        &&& fetch_step(a.bg_fetcher, b.bg_fetcher, a.vram, a.lcd_control, a.ly_register, a.window_pos, a.bg_pos, cgb_enabled)
        &&& b == (GbPpu { bg_fetcher: b.bg_fetcher, ..a })
    } else {
        b == a
    }
}

/// The end of a line's pixel transfer (see `finish_line`): the horizontal blank comes next
/// (with its STAT interrupt when selected), the window line counter counts a line that drew
/// the window (up to 255), and both fetchers start the next line empty.
#[verifier::opaque]
pub open spec fn line_finished<GFX: GfxDevice>(a: GbPpu<GFX>, b: GbPpu<GFX>) -> bool {
    let counts = a.bg_fetcher.rendering_window && a.ly_register >= a.window_pos.y && a.bg_fetcher.window_line_counter
        < 255;
    &&& b.bg_fetcher.fifo@.len() == 0
    &&& b.bg_fetcher.current_x_pos == 0
    &&& b.bg_fetcher.fetcher_state_machine.state == 0
    &&& b.bg_fetcher.fetcher_state_machine.data.is_clear()
    &&& !b.bg_fetcher.rendering_window
    &&& !b.bg_fetcher.scanline_rendering_started
    &&& b.bg_fetcher.window_line_counter == (if counts {
        a.bg_fetcher.window_line_counter + 1
    } else {
        a.bg_fetcher.window_line_counter as int
    })
    &&& b.bg_fetcher.has_wy_reached_ly == a.bg_fetcher.has_wy_reached_ly
    &&& b.bg_fetcher.cgb_attribute == a.bg_fetcher.cgb_attribute
    &&& b.sprite_fetcher.fifo@.len() == 0
    &&& b.sprite_fetcher.oam_entries_len == 0
    &&& !b.sprite_fetcher.rendering
    &&& b.sprite_fetcher.oam_entries == a.sprite_fetcher.oam_entries
    &&& b == (GbPpu {
        next_state: PpuState::Hblank,
        trigger_stat_interrupt: a.trigger_stat_interrupt || a.h_blank_interrupt_request,
        bg_fetcher: b.bg_fetcher,
        sprite_fetcher: b.sprite_fetcher,
        ..a
    })
}

/// A line cut at its end (see `cut_line`): the drawing position skips the pixels left, and
/// the line ends.
#[verifier::opaque]
pub open spec fn line_cut<GFX: GfxDevice>(a: GbPpu<GFX>, b: GbPpu<GFX>) -> bool {
    let skipped = LINE_PIXELS - a.pixel_x_pos;
    let index = if a.screen_buffer_index + skipped <= FRAME_SIZE {
        a.screen_buffer_index + skipped
    } else {
        a.screen_buffer_index as int
    };
    line_finished(GbPpu { screen_buffer_index: index as usize, pixel_x_pos: LINE_PIXELS, ..a }, b)
}

/// One tick of the pixel transfer, through the states `m1` (after the object fetcher's part),
/// `m2` (after the background fetcher's part) and `m3` (after the push): while the object
/// fetcher draws, that is all; else a pixel moves to the screen when it can (see
/// `pushed_to_lcd`), and after the 160th pixel the line ends (see `line_finished`).
pub open spec fn tick_parts<GFX: GfxDevice, F: Fn(SpriteFetcher, &VRam, u8, u8, u8, bool, bool) -> SpriteFetcher>(
    a: GbPpu<GFX>,
    m1: GbPpu<GFX>,
    m2: GbPpu<GFX>,
    m3: GbPpu<GFX>,
    b: GbPpu<GFX>,
    cgb_enabled: bool,
    step: F,
) -> bool {
    &&& object_phase(a, m1, cgb_enabled, step)
    &&& background_phase(m1, m2, cgb_enabled)
    &&& if m1.sprite_fetcher.rendering {
        b == m2
    } else {
        &&& (if push_ready(m2) {
            pushed_to_lcd(&m2, &m3)
        } else {
            m3 == m2
        })
        &&& (if m3.pixel_x_pos == LINE_PIXELS {
            line_finished(m3, b)
        } else {
            b == m3
        })
    }
}

/// One tick of the pixel transfer, from `a` to `b` (see `tick_parts`).
#[verifier::opaque]
pub open spec fn pixel_tick<GFX: GfxDevice, F: Fn(SpriteFetcher, &VRam, u8, u8, u8, bool, bool) -> SpriteFetcher>(
    a: GbPpu<GFX>,
    b: GbPpu<GFX>,
    cgb_enabled: bool,
    step: F,
) -> bool {
    exists|m1: GbPpu<GFX>, m2: GbPpu<GFX>, m3: GbPpu<GFX>| #[trigger] tick_parts(a, m1, m2, m3, b, cgb_enabled, step)
}

/// A step of the horizontal blank (see `hblank_step`), with IF before and after: time passes
/// within the line; or the line ends, and LY moves to the next line, which is the OAM search
/// of that line or, at line 144, the vertical blank, where the vertical blank interrupt is
/// requested, the frame is shown and the window line counter starts again. The STAT
/// interrupt of the next mode is raised when selected.
#[verifier::opaque]
pub open spec fn hblank_ran<GFX: GfxDevice>(a: GbPpu<GFX>, b: GbPpu<GFX>, if_a: u8, if_b: u8) -> bool {
    if b.next_state == PpuState::Hblank {
        &&& a.m_cycles_passed < b.m_cycles_passed < HBLANK_M_CYCLES_LENGTH
        &&& b == (GbPpu { state: PpuState::Hblank, m_cycles_passed: b.m_cycles_passed, ..a })
        &&& if_b == if_a
    } else if a.ly_register + 1 == VBLANK_START_LINE {
        &&& b.current_screen_buffer_index == (a.current_screen_buffer_index + 1) % (BUFFERS_NUMBER as int)
        &&& b == (GbPpu {
            state: PpuState::Hblank,
            pixel_x_pos: 0,
            m_cycles_passed: 0,
            ly_register: VBLANK_START_LINE,
            next_state: PpuState::Vblank,
            bg_fetcher: BackgroundFetcher { window_line_counter: 0, has_wy_reached_ly: false, ..a.bg_fetcher },
            trigger_stat_interrupt: a.trigger_stat_interrupt || a.v_blank_interrupt_request,
            vblank_occurred: true,
            gfx_device: b.gfx_device,
            screen_buffer_index: 0,
            current_screen_buffer_index: b.current_screen_buffer_index,
            ..a
        })
        &&& if_b == if_a | 1
    } else {
        &&& b == (GbPpu {
            state: PpuState::Hblank,
            pixel_x_pos: 0,
            m_cycles_passed: 0,
            ly_register: (a.ly_register + 1) as u8,
            next_state: PpuState::OamSearch,
            trigger_stat_interrupt: a.trigger_stat_interrupt || a.oam_search_interrupt_request,
            ..a
        })
        &&& if_b == if_a
    }
}

/// A step of the vertical blank (see `vblank_step`): time passes, LY counting its lines from
/// 144; or it ends, and line 0 starts with its OAM search (and its STAT interrupt when
/// selected).
#[verifier::opaque]
pub open spec fn vblank_ran<GFX: GfxDevice>(a: GbPpu<GFX>, b: GbPpu<GFX>) -> bool {
    if b.next_state == PpuState::Vblank {
        &&& a.m_cycles_passed < b.m_cycles_passed < VBLANK_M_CYCLES_LENGTH
        &&& b == (GbPpu {
            state: PpuState::Vblank,
            m_cycles_passed: b.m_cycles_passed,
            ly_register: (VBLANK_START_LINE + ((b.m_cycles_passed / HBLANK_M_CYCLES_LENGTH) as u8)) as u8,
            ..a
        })
    } else {
        b == (GbPpu {
            state: PpuState::Vblank,
            next_state: PpuState::OamSearch,
            trigger_stat_interrupt: a.trigger_stat_interrupt || a.oam_search_interrupt_request,
            pixel_x_pos: 0,
            m_cycles_passed: 0,
            ly_register: 0,
            ..a
        })
    }
}

/// A step of the OAM search (see `oam_search_step`): at its start the objects of the line
/// are read from the OAM (see `read_sprites_from_oam`); after 20 m-cycles the pixel
/// transfer comes next.
#[verifier::opaque]
pub open spec fn oam_searched<GFX: GfxDevice>(a: GbPpu<GFX>, b: GbPpu<GFX>, cgb_enabled: bool) -> bool {
    let done = b.m_cycles_passed == OAM_SEARCH_M_CYCLES_LENGTH;
    &&& a.m_cycles_passed <= b.m_cycles_passed <= OAM_SEARCH_M_CYCLES_LENGTH
    &&& a.m_cycles_passed == 0 ==> {
        &&& b.sprite_fetcher.entries().len() == a.line_sprites(cgb_enabled).len()
        &&& b.sprite_fetcher.entries().to_multiset() == a.line_sprites(cgb_enabled).to_multiset()
        &&& sorted_by_x(b.sprite_fetcher.entries())
        &&& b.sprite_fetcher == (SpriteFetcher {
            oam_entries: b.sprite_fetcher.oam_entries,
            oam_entries_len: b.sprite_fetcher.oam_entries_len,
            ..a.sprite_fetcher
        })
    }
    &&& a.m_cycles_passed != 0 ==> b.sprite_fetcher == a.sprite_fetcher
    &&& b == (GbPpu {
        state: PpuState::OamSearch,
        m_cycles_passed: b.m_cycles_passed,
        next_state: if done { PpuState::PixelTransfer } else { PpuState::OamSearch },
        scanline_started: if done { false } else { a.scanline_started },
        sprite_fetcher: b.sprite_fetcher,
        ..a
    })
}

/// Tick `i` of the ticks `ts` of the pixel transfer (see `pixel_tick`).
pub open spec fn tick_at<GFX: GfxDevice, F: Fn(SpriteFetcher, &VRam, u8, u8, u8, bool, bool) -> SpriteFetcher>(
    ts: Seq<GbPpu<GFX>>,
    i: int,
    cgb_enabled: bool,
    step: F,
) -> bool {
    &&& ts[i].state == PpuState::PixelTransfer
    &&& ts[i].next_state == PpuState::PixelTransfer
    &&& pixel_tick(ts[i], ts[i + 1], cgb_enabled, step)
}

/// An m-cycle of the pixel transfer from `a` to `b`, through the states `ts`: 4 ticks, or
/// fewer when the line ends, and then the m-cycle is counted.
pub open spec fn transfer_m_cycle<GFX: GfxDevice, F: Fn(SpriteFetcher, &VRam, u8, u8, u8, bool, bool) -> SpriteFetcher>(
    a: GbPpu<GFX>,
    b: GbPpu<GFX>,
    ts: Seq<GbPpu<GFX>>,
    cgb_enabled: bool,
    step: F,
) -> bool {
    &&& 2 <= ts.len() <= 5
    &&& ts[0] == a
    &&& forall|i: int| 0 <= i < ts.len() - 1 ==> #[trigger] tick_at(ts, i, cgb_enabled, step)
    &&& ts.len() == 5 || ts.last().next_state == PpuState::Hblank
    &&& b == (GbPpu { m_cycles_passed: (ts.last().m_cycles_passed + 1) as u16, ..ts.last() })
}

/// One step of the mode machine, on the PPU and the IF register: a step of the OAM search,
/// the horizontal or the vertical blank; the start of the pixel transfer; an m-cycle of it;
/// or the cut of a line whose 114 m-cycles ran out. The PPU after it is well formed.
pub open spec fn machine_step<GFX: GfxDevice, F: Fn(SpriteFetcher, &VRam, u8, u8, u8, bool, bool) -> SpriteFetcher>(
    a: (GbPpu<GFX>, u8),
    b: (GbPpu<GFX>, u8),
    cgb_enabled: bool,
    step: F,
) -> bool {
    &&& b.0.wf()
    &&& {
        ||| a.0.next_state == PpuState::OamSearch && oam_searched(a.0, b.0, cgb_enabled) && b.1 == a.1
        ||| a.0.next_state == PpuState::Hblank && hblank_ran(a.0, b.0, a.1, b.1)
        ||| a.0.next_state == PpuState::Vblank && vblank_ran(a.0, b.0) && b.1 == a.1
        ||| a.0.next_state == PpuState::PixelTransfer && b.0 == (GbPpu { state: PpuState::PixelTransfer, ..a.0 })
            && b.1 == a.1
        ||| a.0.state == PpuState::PixelTransfer && (exists|ts: Seq<GbPpu<GFX>>|
            #[trigger] transfer_m_cycle(a.0, b.0, ts, cgb_enabled, step)) && b.1 == a.1
        ||| a.0.state == PpuState::PixelTransfer && a.0.next_state == PpuState::PixelTransfer
            && a.0.m_cycles_passed == HBLANK_M_CYCLES_LENGTH && line_cut(a.0, b.0) && b.1 == a.1
    }
}

/// Step `i` of a run.
pub open spec fn step_at<GFX: GfxDevice, F: Fn(SpriteFetcher, &VRam, u8, u8, u8, bool, bool) -> SpriteFetcher>(
    run: Seq<(GbPpu<GFX>, u8)>,
    i: int,
    cgb_enabled: bool,
    step: F,
) -> bool {
    machine_step(run[i], run[i + 1], cgb_enabled, step)
}

/// A run of the mode machine from `from`: states each one step (see `machine_step`) from the
/// one before.
pub open spec fn run_from<GFX: GfxDevice, F: Fn(SpriteFetcher, &VRam, u8, u8, u8, bool, bool) -> SpriteFetcher>(
    run: Seq<(GbPpu<GFX>, u8)>,
    from: (GbPpu<GFX>, u8),
    cgb_enabled: bool,
    step: F,
) -> bool {
    &&& run.len() >= 1
    &&& run[0] == from
    &&& forall|i: int| 0 <= i < run.len() - 1 ==> #[trigger] step_at(run, i, cgb_enabled, step)
}

/// A run goes on by one more step.
pub proof fn lemma_run_push<GFX: GfxDevice, F: Fn(SpriteFetcher, &VRam, u8, u8, u8, bool, bool) -> SpriteFetcher>(
    run: Seq<(GbPpu<GFX>, u8)>,
    from: (GbPpu<GFX>, u8),
    next: (GbPpu<GFX>, u8),
    cgb_enabled: bool,
    step: F,
)
    requires
        run_from(run, from, cgb_enabled, step),
        machine_step(run.last(), next, cgb_enabled, step),
    ensures
        run_from(run.push(next), from, cgb_enabled, step),
        run.push(next).last() == next,
{
    let r = run.push(next);
    assert forall|i: int| 0 <= i < r.len() - 1 implies #[trigger] step_at(r, i, cgb_enabled, step) by {
        if i < run.len() - 1 {
            assert(step_at(run, i, cgb_enabled, step));
            assert(r[i] == run[i] && r[i + 1] == run[i + 1]);
        } else {
            assert(r[i] == run.last() && r[i + 1] == next);
        }
    }
}

/// Two runs, the second from where the first ends, make one run.
pub proof fn lemma_run_concat<GFX: GfxDevice, F: Fn(SpriteFetcher, &VRam, u8, u8, u8, bool, bool) -> SpriteFetcher>(
    first: Seq<(GbPpu<GFX>, u8)>,
    second: Seq<(GbPpu<GFX>, u8)>,
    from: (GbPpu<GFX>, u8),
    cgb_enabled: bool,
    step: F,
)
    requires
        run_from(first, from, cgb_enabled, step),
        run_from(second, first.last(), cgb_enabled, step),
    ensures
        run_from(first + second.drop_first(), from, cgb_enabled, step),
        (first + second.drop_first()).last() == second.last(),
{
    let r = first + second.drop_first();
    assert forall|i: int| 0 <= i < r.len() - 1 implies #[trigger] step_at(r, i, cgb_enabled, step) by {
        if i < first.len() - 1 {
            assert(step_at(first, i, cgb_enabled, step));
            assert(r[i] == first[i] && r[i + 1] == first[i + 1]);
        } else {
            let j = i - (first.len() - 1);
            assert(step_at(second, j, cgb_enabled, step));
            assert(r[i] == second[j] && r[i + 1] == second[j + 1]);
        }
    }
    if second.len() == 1 {
        assert(r =~= first);
    }
}

/// What `update_stat_register` does, from `a` and IF `if_a` to `b` and `if_b`: the mode bits
/// and the LY=LYC bit of STAT are set; a pending mode interrupt or LY meeting LYC (when
/// selected) raises the STAT interrupt (bit 1 of IF) on its rising edge.
pub open spec fn stat_updated<GFX: GfxDevice>(a: GbPpu<GFX>, if_a: u8, b: GbPpu<GFX>, if_b: u8) -> bool {
    let coincidence = a.ly_register == a.lyc_register;
    let trigger = a.trigger_stat_interrupt || (coincidence && a.coincidence_interrupt_request);
    &&& b == (GbPpu {
        stat_register: if coincidence {
            ((a.stat_register & 0b1111_1100) | state_number(a.state)) | 0b100
        } else {
            ((a.stat_register & 0b1111_1100) | state_number(a.state)) & !0b100u8
        },
        stat_triggered: trigger,
        trigger_stat_interrupt: false,
        ..a
    })
    &&& if_b == (if trigger && !a.stat_triggered {
        if_a | 0b10
    } else {
        if_a
    })
}

impl<GFX: GfxDevice> GbPpu<GFX> {
    /// The horizontal blank: it runs to the end of the line (114 m-cycles from its start);
    /// there LY moves to the next line, which is the OAM search of that line or, at line 144,
    /// the vertical blank, where the vertical blank interrupt is requested and the frame is
    /// shown. A line whose pixel transfer ran past the end of the line ends at once.
    #[verifier::rlimit(80)]
    fn hblank_step(&mut self, rest: u32, if_register: &mut u8) -> (added: u16)
        requires
            old(self).timing_ok(),
            old(self).next_state == PpuState::Hblank,
            1 <= rest <= 0xFFFF,
        ensures
            final(self).timing_ok(),
            same_settings(old(self), final(self)),
            added <= rest,
            added == 0 ==> mode_rank(final(self).next_state) < mode_rank(old(self).next_state),
            final(self).state == PpuState::Hblank,
            final(self).ly_register >= old(self).ly_register,
            vblank_requested(*old(if_register)) ==> vblank_requested(*final(if_register)),
            old(self).vblank_occurred ==> final(self).vblank_occurred,
            final(self).next_state == PpuState::Vblank ==> vblank_requested(*final(if_register))
                && final(self).vblank_occurred,
            final(self).frame_position() == old(self).frame_position() + added,
            old(self).pixels_consistent() ==> final(self).pixels_consistent(),
            final(self).next_state == PpuState::OamSearch ==> final(self).m_cycles_passed == 0,
            !final(self).vblank_occurred ==> pushed_only(old(self), final(self)),
            hblank_ran(*old(self), *final(self), *old(if_register), *final(if_register)),
    {
        proof {
            reveal(hblank_ran);
        }
        self.state = PpuState::Hblank;
        let left: u16 = if self.m_cycles_passed < HBLANK_M_CYCLES_LENGTH {
            HBLANK_M_CYCLES_LENGTH - self.m_cycles_passed
        } else {
            0
        };
        let m_cycles_to_add: u16 = if (rest as u16) < left { rest as u16 } else { left };
        self.m_cycles_passed = self.m_cycles_passed + m_cycles_to_add;
        if self.m_cycles_passed >= HBLANK_M_CYCLES_LENGTH {
            self.pixel_x_pos = 0;
            self.m_cycles_passed = 0;
            self.ly_register = self.ly_register + 1;
            if self.ly_register == VBLANK_START_LINE {
                self.next_state = PpuState::Vblank;
                // The window line counter starts again with the next frame.
                self.bg_fetcher.window_line_counter = 0;
                self.bg_fetcher.has_wy_reached_ly = false;
                proof {
                    lemma_register_bits(*if_register, 0, 0);
                }
                *if_register = *if_register | 1;
                if self.v_blank_interrupt_request {
                    self.trigger_stat_interrupt = true;
                }
                self.vblank_occurred = true;
                self.swap_buffer();
            } else {
                self.next_state = PpuState::OamSearch;
                if self.oam_search_interrupt_request {
                    self.trigger_stat_interrupt = true;
                }
            }
        }
        m_cycles_to_add
    }

    /// The vertical blank: 10 lines of 114 m-cycles, LY counting them from 144; after them the
    /// first line starts with its OAM search.
    fn vblank_step(&mut self, rest: u32) -> (added: u16)
        requires
            old(self).timing_ok(),
            old(self).next_state == PpuState::Vblank,
            1 <= rest <= 0xFFFF,
        ensures
            final(self).timing_ok(),
            same_settings(old(self), final(self)),
            added <= rest,
            added == 0 ==> mode_rank(final(self).next_state) < mode_rank(old(self).next_state),
            final(self).state == PpuState::Vblank,
            final(self).next_state == PpuState::Vblank || (final(self).next_state == PpuState::OamSearch
                && final(self).ly_register == 0 && final(self).m_cycles_passed == 0),
            final(self).vblank_occurred == old(self).vblank_occurred,
            final(self).frame_position() == old(self).frame_position() + added || (final(self).frame_position() == 0
                && old(self).frame_position() + added == FRAME_M_CYCLES),
            old(self).pixels_consistent() ==> final(self).pixels_consistent(),
            pushed_only(old(self), final(self)),
            vblank_ran(*old(self), *final(self)),
    {
        proof {
            reveal(vblank_ran);
        }
        self.state = PpuState::Vblank;
        let left: u16 = VBLANK_M_CYCLES_LENGTH - self.m_cycles_passed;
        let m_cycles_to_add: u16 = if (rest as u16) < left { rest as u16 } else { left };
        self.m_cycles_passed = self.m_cycles_passed + m_cycles_to_add;
        if self.m_cycles_passed == VBLANK_M_CYCLES_LENGTH {
            self.next_state = PpuState::OamSearch;
            if self.oam_search_interrupt_request {
                self.trigger_stat_interrupt = true;
            }
            self.pixel_x_pos = 0;
            self.m_cycles_passed = 0;
            self.ly_register = 0;
        } else {
            // The vertical blank counts its lines as 10 horizontal blanks.
            self.ly_register = VBLANK_START_LINE + (self.m_cycles_passed / HBLANK_M_CYCLES_LENGTH) as u8;
        }
        m_cycles_to_add
    }

    /// The OAM search: at its start the objects of the line are read from the OAM; after 20
    /// m-cycles the pixel transfer starts. (The time taken is counted against all of
    /// `m_cycles`, not what is left of it.)
    fn oam_search_step(&mut self, m_cycles: u32, cgb_enabled: bool) -> (added: u16)
        requires
            old(self).timing_ok(),
            old(self).next_state == PpuState::OamSearch,
            1 <= m_cycles <= 0xFFFF,
        ensures
            final(self).timing_ok(),
            same_settings(old(self), final(self)),
            added <= 20,
            added == 0 ==> mode_rank(final(self).next_state) < mode_rank(old(self).next_state),
            final(self).state == PpuState::OamSearch,
            final(self).next_state == PpuState::OamSearch || final(self).next_state == PpuState::PixelTransfer,
            final(self).ly_register == old(self).ly_register,
            final(self).vblank_occurred == old(self).vblank_occurred,
            final(self).frame_position() == old(self).frame_position() + added,
            old(self).m_cycles_passed == 0 ==> added == (if m_cycles < 20 { m_cycles } else { 20 }),
            added <= m_cycles,
            final(self).next_state == PpuState::OamSearch ==> added == m_cycles,
            old(self).pixels_consistent() ==> final(self).pixels_consistent(),
            pushed_only(old(self), final(self)),
            oam_searched(*old(self), *final(self), cgb_enabled),
    {
        proof {
            reveal(oam_searched);
        }
        self.state = PpuState::OamSearch;
        if self.m_cycles_passed == 0 {
            self.read_sprites_from_oam(cgb_enabled);
        }
        let left: u16 = OAM_SEARCH_M_CYCLES_LENGTH - self.m_cycles_passed;
        let scope_m_cycles_passed: u16 = if (m_cycles as u16) < left { m_cycles as u16 } else { left };
        self.m_cycles_passed = self.m_cycles_passed + scope_m_cycles_passed;
        if self.m_cycles_passed == OAM_SEARCH_M_CYCLES_LENGTH {
            self.next_state = PpuState::PixelTransfer;
            self.scanline_started = false;
        }
        scope_m_cycles_passed
    }
}


impl<GFX: GfxDevice> GbPpu<GFX> {
    /// The m-cycles until LY next equals LYC, as `update_stat_register` counts them.
    pub open spec fn m_cycles_to_lyc(&self) -> int {
        let passed = self.m_cycles_passed as int;
        let line = HBLANK_M_CYCLES_LENGTH as int;
        if self.lyc_register < self.ly_register {
            if (self.ly_register - self.lyc_register) * line >= passed {
                (self.ly_register - self.lyc_register) * line - passed
            } else {
                0
            }
        } else if self.lyc_register == self.ly_register {
            if line * 154 >= passed { line * 154 - passed } else { 0 }
        } else {
            (self.lyc_register - self.ly_register) * line - passed % line
        }
    }

    /// The fetchers' part of a tick of the pixel transfer: the object fetcher's step (when
    /// LCDC bit 1 shows the objects), then the background fetcher's (see `object_phase` and
    /// `background_phase`); gives the PPU between the two.
    #[verifier::rlimit(40)]
    fn tick_fetch<F: Fn(SpriteFetcher, &VRam, u8, u8, u8, bool, bool) -> SpriteFetcher>(
        &mut self,
        cgb_enabled: bool,
        sprite_step: &F,
    ) -> (m1: Ghost<GbPpu<GFX>>)
        requires
            old(self).timing_ok(),
            old(self).next_state == PpuState::PixelTransfer,
            sprite_step_ok(*sprite_step),
        ensures
            final(self).timing_ok(),
            *final(self) == (GbPpu {
                sprite_fetcher: final(self).sprite_fetcher,
                bg_fetcher: final(self).bg_fetcher,
                ..*old(self)
            }),
            final(self).sprite_fetcher == m1@.sprite_fetcher,
            object_phase(*old(self), m1@, cgb_enabled, *sprite_step),
            background_phase(m1@, *final(self), cgb_enabled),
    {
        let ghost start = *self;
        if self.lcd_control & 0b10 != 0 {
            self.fetch_sprite_pixels(sprite_step, cgb_enabled);
        }
        let ghost m1 = *self;
        assert(object_phase(start, m1, cgb_enabled, *sprite_step)) by {
            reveal(object_phase);
        }
        if self.sprite_fetcher.rendering {
            self.bg_fetcher.pause();
        } else if self.bg_fetcher.current_x_pos <= 247 {
            self.bg_fetcher.fetch_pixels(
                &self.vram,
                self.lcd_control,
                self.ly_register,
                &self.window_pos,
                &self.bg_pos,
                cgb_enabled,
            );
        }
        assert(background_phase(m1, *self, cgb_enabled)) by {
            reveal(background_phase);
        }
        Ghost(m1)
    }

    /// The screen's part of a tick of the pixel transfer: a pixel moves to the screen when it
    /// can (see `pushed_to_lcd`), and after the 160th pixel the line ends (see
    /// `line_finished`); gives the PPU between the two, and tells whether the line is done.
    #[verifier::rlimit(80)]
    fn tick_push(&mut self) -> (r: (bool, Ghost<GbPpu<GFX>>))
        requires
            old(self).timing_ok(),
            old(self).next_state == PpuState::PixelTransfer,
        ensures
            final(self).timing_ok(),
            same_settings(old(self), final(self)),
            final(self).state == old(self).state,
            !r.0 ==> final(self).next_state == PpuState::PixelTransfer,
            r.0 ==> final(self).next_state == PpuState::Hblank && final(self).pixel_x_pos == LINE_PIXELS,
            final(self).ly_register == old(self).ly_register,
            final(self).vblank_occurred == old(self).vblank_occurred,
            final(self).m_cycles_passed == old(self).m_cycles_passed,
            old(self).pixels_consistent() ==> final(self).pixels_consistent(),
            pushed_only(old(self), final(self)),
            if push_ready(*old(self)) {
                pushed_to_lcd(old(self), &r.1@)
            } else {
                r.1@ == *old(self)
            },
            if r.1@.pixel_x_pos == LINE_PIXELS {
                line_finished(r.1@, *final(self))
            } else {
                *final(self) == r.1@
            },
    {
        let ghost start = *self;
        if self.can_push_to_lcd() {
            self.try_push_to_lcd();
        } else {
            proof {
                lemma_pushed_none(&start, self);
            }
        }
        let ghost m3 = *self;
        if self.pixel_x_pos == LINE_PIXELS {
            self.finish_line();
            proof {
                lemma_pushed_none(&m3, self);
                lemma_pushed_only_trans(&start, &m3, self);
            }
            return (true, Ghost(m3));
        }
        (false, Ghost(m3))
    }

    /// One step of the pixel transfer (see `pixel_tick`); tells whether the line is done.
    #[verifier::rlimit(60)]
    fn pixel_transfer_tick<F: Fn(SpriteFetcher, &VRam, u8, u8, u8, bool, bool) -> SpriteFetcher>(
        &mut self,
        cgb_enabled: bool,
        sprite_step: &F,
    ) -> (done: bool)
        requires
            old(self).timing_ok(),
            old(self).next_state == PpuState::PixelTransfer,
            sprite_step_ok(*sprite_step),
        ensures
            final(self).timing_ok(),
            same_settings(old(self), final(self)),
            final(self).state == old(self).state,
            !done ==> final(self).next_state == PpuState::PixelTransfer,
            done ==> final(self).next_state == PpuState::Hblank && final(self).pixel_x_pos == LINE_PIXELS,
            final(self).ly_register == old(self).ly_register,
            final(self).vblank_occurred == old(self).vblank_occurred,
            final(self).m_cycles_passed == old(self).m_cycles_passed,
            old(self).pixels_consistent() ==> final(self).pixels_consistent(),
            pushed_only(old(self), final(self)),
            pixel_tick(*old(self), *final(self), cgb_enabled, *sprite_step),
    {
        let ghost start = *self;
        let m1 = self.tick_fetch(cgb_enabled, sprite_step);
        let ghost m2 = *self;
        proof {
            lemma_pushed_none(&start, &m2);
        }
        if self.sprite_fetcher.rendering {
            proof {
                reveal(pixel_tick);
                assert(tick_parts(start, m1@, m2, m2, m2, cgb_enabled, *sprite_step));
            }
            return false;
        }
        let (done, m3) = self.tick_push();
        proof {
            lemma_pushed_only_trans(&start, &m2, self);
            reveal(pixel_tick);
            assert(tick_parts(start, m1@, m2, m3@, *self, cgb_enabled, *sprite_step));
        }
        done
    }

    /// A pixel transfer still running at the end of its line (the object fetcher kept the
    /// background fetcher waiting) is cut there: the pixels left of the line are not drawn,
    /// and the line ends as usual.
    #[verifier::rlimit(60)]
    #[verifier::spinoff_prover]
    fn cut_line(&mut self)
        requires
            old(self).wf(),
            old(self).ly_register < VBLANK_START_LINE,
            old(self).pixel_x_pos < LINE_PIXELS,
            old(self).m_cycles_passed == HBLANK_M_CYCLES_LENGTH,
            old(self).screen_buffer_index <= FRAME_SIZE,
        ensures
            final(self).timing_ok(),
            same_settings(old(self), final(self)),
            final(self).state == old(self).state,
            final(self).next_state == PpuState::Hblank,
            final(self).pixel_x_pos == LINE_PIXELS,
            final(self).ly_register == old(self).ly_register,
            final(self).vblank_occurred == old(self).vblank_occurred,
            final(self).m_cycles_passed == old(self).m_cycles_passed,
            final(self).screen_buffer_index == if old(self).screen_buffer_index + (LINE_PIXELS - old(self).pixel_x_pos)
                <= FRAME_SIZE {
                old(self).screen_buffer_index + (LINE_PIXELS - old(self).pixel_x_pos)
            } else {
                old(self).screen_buffer_index as int
            },
            pushed_only(old(self), final(self)),
            line_cut(*old(self), *final(self)),
    {
        let ghost a = *self;
        let skipped = (LINE_PIXELS - self.pixel_x_pos) as usize;
        if self.screen_buffer_index <= FRAME_SIZE - skipped {
            self.screen_buffer_index = self.screen_buffer_index + skipped;
        }
        self.pixel_x_pos = LINE_PIXELS;
        let ghost m = *self;
        self.finish_line();
        proof {
            reveal(line_cut);
            let skip: int = LINE_PIXELS - a.pixel_x_pos;
            let index = if a.screen_buffer_index + skip <= FRAME_SIZE {
                a.screen_buffer_index + skip
            } else {
                a.screen_buffer_index as int
            };
            assert(m == (GbPpu { screen_buffer_index: index as usize, pixel_x_pos: LINE_PIXELS, ..a }));
        }
    }

    /// The end of the pixel transfer of a line: the horizontal blank comes next, the window
    /// line counter moves on when the window was drawn on this line, and both fetchers start
    /// again.
    #[verifier::rlimit(40)]
    fn finish_line(&mut self)
        requires
            old(self).wf(),
            old(self).ly_register < VBLANK_START_LINE,
            old(self).pixel_x_pos == LINE_PIXELS,
            old(self).m_cycles_passed <= HBLANK_M_CYCLES_LENGTH,
        ensures
            final(self).timing_ok(),
            same_settings(old(self), final(self)),
            final(self).state == old(self).state,
            final(self).next_state == PpuState::Hblank,
            final(self).pixel_x_pos == LINE_PIXELS,
            final(self).ly_register == old(self).ly_register,
            final(self).vblank_occurred == old(self).vblank_occurred,
            final(self).m_cycles_passed == old(self).m_cycles_passed,
            final(self).screen_buffer_index == old(self).screen_buffer_index,
            final(self).screen_buffers == old(self).screen_buffers,
            final(self).current_screen_buffer_index == old(self).current_screen_buffer_index,
            line_finished(*old(self), *final(self)),
    {
        proof {
            reveal(line_finished);
        }
        self.next_state = PpuState::Hblank;
        if self.h_blank_interrupt_request {
            self.trigger_stat_interrupt = true;
        }
        if !(self.bg_fetcher.rendering_window && self.ly_register >= self.window_pos.y)
            || self.bg_fetcher.window_line_counter < 255 {
            self.bg_fetcher.try_increment_window_counter(self.ly_register, self.window_pos.y);
        }
        self.bg_fetcher.reset();
        self.sprite_fetcher.reset();
    }

    /// The pixel transfer: each m-cycle the object fetcher (when LCDC bit 1 shows the
    /// objects) and then, unless it is busy drawing an object, the background fetcher take 4
    /// steps, each followed by an attempt to move a pixel to the screen. After the 160th pixel
    /// of the line the horizontal blank starts, the window line counter moves on and both
    /// fetchers start again. Steps that the state would make overflow or read out of range are
    /// left out: the background fetcher past x 247, a pixel the palettes cannot color or
    /// that the frame has no room for, and the window counter past 255.
    fn pixel_transfer_step<F: Fn(SpriteFetcher, &VRam, u8, u8, u8, bool, bool) -> SpriteFetcher>(
        &mut self,
        m_cycles: u32,
        counter: u32,
        cgb_enabled: bool,
        sprite_step: &F,
        if_value: Ghost<u8>,
    ) -> (r: (u32, Ghost<Seq<(GbPpu<GFX>, u8)>>))
        requires
            old(self).timing_ok(),
            old(self).next_state == PpuState::PixelTransfer,
            counter < m_cycles <= 0xFFFF,
            sprite_step_ok(*sprite_step),
        ensures
            final(self).timing_ok(),
            same_settings(old(self), final(self)),
            counter < r.0 <= m_cycles,
            run_from(r.1@, (*old(self), if_value@), cgb_enabled, *sprite_step),
            r.1@.last() == (*final(self), if_value@),
            final(self).state == PpuState::PixelTransfer,
            final(self).next_state == PpuState::PixelTransfer || final(self).next_state == PpuState::Hblank,
            final(self).ly_register == old(self).ly_register,
            final(self).vblank_occurred == old(self).vblank_occurred,
            final(self).frame_position() == old(self).frame_position() + (r.0 - counter),
            old(self).pixels_consistent() ==> final(self).pixels_consistent(),
            pushed_only(old(self), final(self)),
    {
        let ghost origin = *self;
        let ghost iv = if_value@;
        self.state = PpuState::PixelTransfer;
        let ghost start = *self;
        let ghost mut run: Seq<(GbPpu<GFX>, u8)> = seq![(origin, iv)];
        proof {
            lemma_run_push(run, (origin, iv), (*self, iv), cgb_enabled, *sprite_step);
            run = run.push((*self, iv));
        }
        let ghost first = counter;
        let mut counter = counter;
        while counter < m_cycles && self.pixel_x_pos < LINE_PIXELS
            invariant
                self.timing_ok(),
                same_settings(&start, self),
                counter <= m_cycles <= 0xFFFF,
                counter > first || (counter == first && self.pixel_x_pos < LINE_PIXELS),
                self.state == PpuState::PixelTransfer,
                self.next_state == PpuState::PixelTransfer || self.next_state == PpuState::Hblank,
                self.next_state == PpuState::Hblank ==> self.pixel_x_pos == LINE_PIXELS,
                self.ly_register == start.ly_register,
                self.vblank_occurred == start.vblank_occurred,
                sprite_step_ok(*sprite_step),
                self.frame_position() == start.frame_position() + (counter - first),
                start.pixels_consistent() ==> self.pixels_consistent(),
                pushed_only(&start, self),
                run_from(run, (origin, iv), cgb_enabled, *sprite_step),
                run.last() == (*self, iv),
            decreases m_cycles - counter,
        {
            let ghost passed_before = self.m_cycles_passed;
            let ghost mut ts: Seq<GbPpu<GFX>> = seq![*self];
            let mut k: u8 = 0;
            let mut done = false;
            while k < 4 && !done
                invariant
                    self.timing_ok(),
                    same_settings(&start, self),
                    self.state == PpuState::PixelTransfer,
                    !done ==> self.next_state == PpuState::PixelTransfer,
                    done ==> self.next_state == PpuState::Hblank && self.pixel_x_pos == LINE_PIXELS,
                    self.ly_register == start.ly_register,
                    self.vblank_occurred == start.vblank_occurred,
                    sprite_step_ok(*sprite_step),
                    k <= 4,
                    self.m_cycles_passed == passed_before,
                    start.pixels_consistent() ==> self.pixels_consistent(),
                    pushed_only(&start, self),
                    run_from(run, (origin, iv), cgb_enabled, *sprite_step),
                    ts.len() == k + 1,
                    k == 0 ==> !done,
                    run.last().1 == iv,
                    ts[0] == run.last().0,
                    ts.last() == *self,
                    forall|i: int| 0 <= i < ts.len() - 1 ==> #[trigger] tick_at(ts, i, cgb_enabled, *sprite_step),
                decreases 4 - k,
            {
                let ghost before_tick = *self;
                done = self.pixel_transfer_tick(cgb_enabled, sprite_step);
                proof {
                    lemma_pushed_only_trans(&start, &before_tick, self);
                    let ts2 = ts.push(*self);
                    assert forall|i: int| 0 <= i < ts2.len() - 1 implies #[trigger] tick_at(ts2, i, cgb_enabled, *sprite_step) by {
                        if i < ts.len() - 1 {
                            assert(tick_at(ts, i, cgb_enabled, *sprite_step));
                            assert(ts2[i] == ts[i] && ts2[i + 1] == ts[i + 1]);
                        } else {
                            assert(ts2[i] == before_tick && ts2[i + 1] == *self);
                        }
                    }
                    ts = ts2;
                }
                k = k + 1;
            }
            self.m_cycles_passed = self.m_cycles_passed + 1;
            proof {
                assert(transfer_m_cycle(run.last().0, *self, ts, cgb_enabled, *sprite_step));
                lemma_run_push(run, (origin, iv), (*self, iv), cgb_enabled, *sprite_step);
                run = run.push((*self, iv));
            }
            counter = counter + 1;
            if self.next_state == PpuState::PixelTransfer && self.m_cycles_passed == HBLANK_M_CYCLES_LENGTH {
                let ghost before_cut = *self;
                self.cut_line();
                proof {
                    lemma_pushed_only_trans(&start, &before_cut, self);
                    lemma_run_push(run, (origin, iv), (*self, iv), cgb_enabled, *sprite_step);
                    run = run.push((*self, iv));
                }
            }
        }
        (counter, Ghost(run))
    }
}


impl<GFX: GfxDevice> GbPpu<GFX> {
    /// Runs the mode machine for `m_cycles` m-cycles: the OAM search, the pixel transfer
    /// (with `sprite_step` as the object fetcher's step) and the horizontal blank of each
    /// visible line, then the vertical blank, requesting the vertical blank interrupt in IF
    /// when line 144 is reached. Returns the m-cycles until the next change of mode. The
    /// position in the frame moves on by `m_cycles` (see `runs_for`), the pixels pushed keep
    /// to LY and the x position (see `pixels_consistent`), and while no frame is shown
    /// (`vblank_occurred` stays clear) the frame buffers change only in the pixels pushed.
    /// Step by step, the PPU and IF go through a run of the mode machine (see `run_from` and
    /// `machine_step`): each pixel written is the one a tick pushes (see `pixel_tick`).
    /// (`m_cycles` is at most 0xFFFF: the blanks and the OAM search cut it to 16 bits.)
    fn cycle_fetcher<F: Fn(SpriteFetcher, &VRam, u8, u8, u8, bool, bool) -> SpriteFetcher>(
        &mut self,
        m_cycles: u32,
        if_register: &mut u8,
        cgb_enabled: bool,
        sprite_step: &F,
    ) -> (r: u16)
        requires
            old(self).timing_ok(),
            m_cycles <= 0xFFFF,
            sprite_step_ok(*sprite_step),
        ensures
            final(self).timing_ok(),
            same_settings(old(self), final(self)),
            r == final(self).m_cycles_to_next_mode(),
            vblank_requested(*old(if_register)) ==> vblank_requested(*final(if_register)),
            old(self).vblank_occurred ==> final(self).vblank_occurred,
            old(self).ly_register < VBLANK_START_LINE && old(self).next_state != PpuState::Vblank && (final(self).next_state == PpuState::Vblank || final(self).ly_register < old(self).ly_register)
                ==> vblank_requested(*final(if_register)) && final(self).vblank_occurred,
            runs_for(old(self).frame_position(), final(self).frame_position(), m_cycles as int),
            old(self).pixels_consistent() ==> final(self).pixels_consistent(),
            !final(self).vblank_occurred ==> pushed_only(old(self), final(self)),
            exists|run: Seq<(GbPpu<GFX>, u8)>|
                #[trigger] run_from(run, (*old(self), *old(if_register)), cgb_enabled, *sprite_step) && run.last() == (
                *final(self),
                *final(if_register),
            ),
    {
        let ghost old_ly = self.ly_register;
        let ghost old_if = *if_register;
        let ghost old_vb = self.vblank_occurred;
        let ghost start = *self;
        let ghost mut run: Seq<(GbPpu<GFX>, u8)> = seq![(start, old_if)];
        let mut m_cycles_counter: u32 = 0;
        while m_cycles_counter < m_cycles
            invariant
                self.timing_ok(),
                same_settings(&start, self),
                m_cycles <= 0xFFFF,
                m_cycles_counter <= m_cycles + 20,
                sprite_step_ok(*sprite_step),
                old_ly == start.ly_register,
                vblank_requested(old_if) ==> vblank_requested(*if_register),
                old_vb ==> self.vblank_occurred,
                old_ly < VBLANK_START_LINE && start.next_state != PpuState::Vblank && (self.next_state
                    == PpuState::Vblank || self.ly_register < old_ly) ==> vblank_requested(*if_register)
                    && self.vblank_occurred,
                self.frame_position() % (FRAME_M_CYCLES as int) == (start.frame_position() + m_cycles_counter) % (
                FRAME_M_CYCLES as int),
                m_cycles_counter > m_cycles ==> m_cycles_counter - oam_search_take(m_cycles as int) > 0
                    && is_line_start(
                    (start.frame_position() + m_cycles_counter - oam_search_take(m_cycles as int)) % (
                    FRAME_M_CYCLES as int),
                ),
                m_cycles_counter < m_cycles + 20,
                0 < m_cycles_counter < m_cycles && self.next_state == PpuState::OamSearch ==> self.m_cycles_passed
                    == 0,
                start.pixels_consistent() ==> self.pixels_consistent(),
                !self.vblank_occurred ==> pushed_only(&start, self),
                run_from(run, (start, old_if), cgb_enabled, *sprite_step),
                run.last() == (*self, *if_register),
            decreases (m_cycles + 20 - m_cycles_counter) as int, mode_rank(self.next_state),
        {
            let ghost before = *self;
            let ghost if_before = *if_register;
            let ghost counter_before = m_cycles_counter;
            match self.next_state {
                PpuState::OamSearch => {
                    let added = self.oam_search_step(m_cycles, cgb_enabled);
                    m_cycles_counter = m_cycles_counter + added as u32;
                    proof {
                        lemma_run_push(run, (start, old_if), (*self, *if_register), cgb_enabled, *sprite_step);
                        run = run.push((*self, *if_register));
                        if counter_before > 0 {
                            vstd::arithmetic::div_mod::lemma_mod_multiples_basic(before.ly_register as int, 114);
                            vstd::arithmetic::div_mod::lemma_small_mod(
                                before.frame_position() as nat,
                                FRAME_M_CYCLES as nat,
                            );
                            assert(is_line_start(before.frame_position()));
                        }
                    }
                },
                PpuState::Hblank => {
                    let added = self.hblank_step(m_cycles - m_cycles_counter, if_register);
                    m_cycles_counter = m_cycles_counter + added as u32;
                    proof {
                        lemma_run_push(run, (start, old_if), (*self, *if_register), cgb_enabled, *sprite_step);
                        run = run.push((*self, *if_register));
                    }
                },
                PpuState::Vblank => {
                    let added = self.vblank_step(m_cycles - m_cycles_counter);
                    m_cycles_counter = m_cycles_counter + added as u32;
                    proof {
                        lemma_run_push(run, (start, old_if), (*self, *if_register), cgb_enabled, *sprite_step);
                        run = run.push((*self, *if_register));
                        if self.frame_position() == 0 {
                            vstd::arithmetic::div_mod::lemma_mod_self_0(FRAME_M_CYCLES as int);
                            assert(self.frame_position() % (FRAME_M_CYCLES as int) == (before.frame_position()
                                + (m_cycles_counter - counter_before)) % (FRAME_M_CYCLES as int));
                        }
                    }
                },
                PpuState::PixelTransfer => {
                    let (counter, Ghost(part)) = self.pixel_transfer_step(
                        m_cycles,
                        m_cycles_counter,
                        cgb_enabled,
                        sprite_step,
                        Ghost(if_before),
                    );
                    m_cycles_counter = counter;
                    proof {
                        lemma_run_concat(run, part, (start, old_if), cgb_enabled, *sprite_step);
                        run = run + part.drop_first();
                    }
                },
            }
            proof {
                lemma_frame_mod_add(
                    before.frame_position(),
                    start.frame_position() + counter_before,
                    m_cycles_counter - counter_before,
                );
                if !self.vblank_occurred {
                    lemma_pushed_only_trans(&start, &before, self);
                }
            }
        }
        assert(run_from(run, (start, old_if), cgb_enabled, *sprite_step) && run.last() == (*self, *if_register));
        // After a change of mode the machine runs one more m-cycle, so that the mode that
        // STAT shows catches up with it.
        if self.next_state != self.state {
            return 1;
        }
        let passed = self.m_cycles_passed;
        match self.next_state {
            PpuState::Vblank => {
                assert((passed / HBLANK_M_CYCLES_LENGTH) * HBLANK_M_CYCLES_LENGTH <= passed) by (nonlinear_arith);
                ((passed / HBLANK_M_CYCLES_LENGTH) + 1) * HBLANK_M_CYCLES_LENGTH - passed
            },
            PpuState::Hblank => if passed <= HBLANK_M_CYCLES_LENGTH {
                HBLANK_M_CYCLES_LENGTH - passed
            } else {
                0
            },
            PpuState::OamSearch => OAM_SEARCH_M_CYCLES_LENGTH - passed,
            // About 4 pixels are drawn each m-cycle.
            PpuState::PixelTransfer => (LINE_PIXELS - self.pixel_x_pos) as u16 / 4,
        }
    }

    /// Runs the PPU for `m_cycles` m-cycles while the LCD is on (LCDC bit 7): the mode machine
    /// (see `cycle_fetcher`), then the STAT register and its interrupt (see
    /// `update_stat_register`). Returns the m-cycles until the next event, a change of mode or
    /// LY meeting LYC; with the LCD off nothing happens and there is no event. The PPU and IF
    /// after it are those a run of the mode machine reaches (see `run_from`), with STAT and
    /// its interrupt, bit 1 of IF, then updated (see `stat_updated`).
    pub fn cycle<F: Fn(SpriteFetcher, &VRam, u8, u8, u8, bool, bool) -> SpriteFetcher>(
        &mut self,
        m_cycles: u32,
        if_register: &mut u8,
        cgb_enabled: bool,
        sprite_step: &F,
    ) -> (r: Option<u32>)
        requires
            old(self).timing_ok(),
            m_cycles <= 0xFFFF,
            sprite_step_ok(*sprite_step),
        ensures
            old(self).lcd_control & 0x80 == 0 ==> r is None && *final(self) == *old(self) && *final(if_register)
                == *old(if_register),
            old(self).lcd_control & 0x80 != 0 ==> {
                &&& final(self).timing_ok()
                &&& same_settings(old(self), final(self))
                &&& final(self).stat_register & 0b11 == state_number(final(self).state)
                &&& (final(self).stat_register & 0b100 != 0) == (final(self).ly_register == final(self).lyc_register)
                &&& r == Some(
                    if final(self).m_cycles_to_next_mode() < final(self).m_cycles_to_lyc() {
                        final(self).m_cycles_to_next_mode() as u32
                    } else {
                        final(self).m_cycles_to_lyc() as u32
                    },
                )
                &&& vblank_requested(*old(if_register)) ==> vblank_requested(*final(if_register))
                &&& old(self).vblank_occurred ==> final(self).vblank_occurred
                &&& old(self).ly_register < VBLANK_START_LINE && old(self).next_state != PpuState::Vblank && (final(self).next_state == PpuState::Vblank || final(self).ly_register < old(self).ly_register)
                    ==> vblank_requested(*final(if_register)) && final(self).vblank_occurred
                &&& runs_for(old(self).frame_position(), final(self).frame_position(), m_cycles as int)
                &&& old(self).pixels_consistent() ==> final(self).pixels_consistent()
                &&& !final(self).vblank_occurred ==> pushed_only(old(self), final(self))
                &&& exists|run: Seq<(GbPpu<GFX>, u8)>|
                    #[trigger] run_from(run, (*old(self), *old(if_register)), cgb_enabled, *sprite_step)
                        && stat_updated(run.last().0, run.last().1, *final(self), *final(if_register))
            },
    {
        if self.lcd_control & 0x80 == 0 {
            return None;
        }
        let ghost first = *self;
        let ghost first_if = *if_register;
        let fetcher_m_cycles_to_next_event = self.cycle_fetcher(m_cycles, if_register, cgb_enabled, sprite_step) as u32;
        let ghost mid_if = *if_register;
        let ghost mid = *self;
        let stat_m_cycles_to_next_event = self.update_stat_register(if_register);
        proof {
            lemma_register_bits(mid_if, mid.stat_register, state_number(mid.state));
            let run = choose|run: Seq<(GbPpu<GFX>, u8)>|
                #[trigger] run_from(run, (first, first_if), cgb_enabled, *sprite_step) && run.last() == (mid, mid_if);
            assert(run_from(run, (first, first_if), cgb_enabled, *sprite_step) && stat_updated(
                run.last().0,
                run.last().1,
                *self,
                *if_register,
            ));
        }
        Some(
            if fetcher_m_cycles_to_next_event < stat_m_cycles_to_next_event {
                fetcher_m_cycles_to_next_event
            } else {
                stat_m_cycles_to_next_event
            },
        )
    }
}

} // verus!
