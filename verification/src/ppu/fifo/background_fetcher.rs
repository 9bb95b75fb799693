use vstd::prelude::*;
use crate::utils::fixed_size_queue::FixedSizeQueue;
use crate::utils::vec2::Vec2;
use crate::ppu::vram::VRam;
use crate::ppu::attributes::{GbcBackgroundAttributes, decode_attributes};
use super::{FIFO_SIZE, SPRITE_WIDTH, decoded_pixel, get_decoded_pixel, bit_place, lemma_decoded_pixel};
use super::fetching_state::{FetchingState, FetcherStateMachine};

verus! {

/// A background or window pixel waiting in the FIFO: its color index and its tile's
/// attributes.
#[derive(Clone, Copy)]
pub struct BackgroundPixel {
    pub color_index: u8,
    pub attributes: GbcBackgroundAttributes,
}

/// Color 0 with the attributes of an attribute byte of 0.
pub open spec fn blank_pixel() -> BackgroundPixel {
    BackgroundPixel { color_index: 0, attributes: decode_attributes(0) }
}

impl Default for BackgroundPixel {
    fn default() -> (r: Self)
        ensures
            r == blank_pixel(),
    {
        BackgroundPixel { color_index: 0, attributes: GbcBackgroundAttributes::new(0) }
    }
}

const TILES_IN_VRAM_ROW: u16 = 32;

/// The steps of the background fetcher, each real step padded by a sleep.
pub open spec fn background_steps() -> Seq<FetchingState> {
    seq![
        FetchingState::Sleep,
        FetchingState::FetchTileNumber,
        FetchingState::Sleep,
        FetchingState::FetchLowTile,
        FetchingState::Sleep,
        FetchingState::FetchHighTile,
        FetchingState::Push,
        FetchingState::Sleep,
    ]
}

/// Whether the pixel at `x` is in the window: the window is enabled (LCDC bit 5), its top
/// line was reached and `x` is at or right of its left edge.
pub open spec fn in_window(lcd_control: u8, window_x: u8, x: int, has_wy_reached_ly: bool) -> bool {
    window_x <= x && has_wy_reached_ly && lcd_control & 0x20 != 0
}

/// The VRAM address of the tile number the fetcher reads at `x`.
pub open spec fn tile_map_address(
    lcd_control: u8,
    ly_register: u8,
    window_pos: Vec2<u8>,
    bg_pos: Vec2<u8>,
    x: u8,
    window_line_counter: u8,
    window: bool,
) -> int {
    if window {
        (if lcd_control & 0x40 == 0 { 0x1800int } else { 0x1C00int }) + 32 * (window_line_counter / 8) + (x
            - window_pos.x) / 8
    } else {
        (if lcd_control & 0x08 == 0 { 0x1800int } else { 0x1C00int }) + 32 * (((bg_pos.y + ly_register) % 256)
            / 8) + ((bg_pos.x + x) / 8) % 32
    }
}

/// The VRAM address of the low byte of the tile row the fetcher reads.
pub open spec fn tile_data_address(
    lcd_control: u8,
    scy: u8,
    ly_register: u8,
    tile_num: u8,
    cgb_enabled: bool,
    attributes: GbcBackgroundAttributes,
    window: bool,
    window_line_counter: u8,
) -> int {
    let base = if lcd_control & 0x10 == 0 && tile_num & 0x80 == 0 { 0x1000int } else { 0int };
    let line: int = if window { (window_line_counter % 8) as int } else { (scy + ly_register) % 8 };
    base + tile_num * 16 + 2 * (if cgb_enabled && attributes.attribute.flip_y { 7 - line } else { line })
}

/// The color indices of a tile row, left to right; mirrored when `flip`.
pub open spec fn tile_row(low_data: u8, high_data: u8, flip: bool) -> Seq<u8> {
    Seq::new(8, |i: int| decoded_pixel((if flip { i } else { 7 - i }) as u8, low_data, high_data))
}

/// How many pixels a push puts in the FIFO: all 8, unless the window starts within them;
/// then the pixels up to its left edge.
pub open spec fn pushed_count(lcd_control: u8, window_x: u8, x: u8, has_wy_reached_ly: bool, window: bool) -> int {
    if !window && has_wy_reached_ly && lcd_control & 0x20 != 0 && window_x <= x + 8 {
        window_x - x
    } else {
        8
    }
}

/// Whether a push hands over to the window: the window starts within the 8 pixels.
pub open spec fn window_starts(lcd_control: u8, window_x: u8, x: u8, has_wy_reached_ly: bool, window: bool) -> bool {
    !window && has_wy_reached_ly && lcd_control & 0x20 != 0 && window_x <= x + 8
}

/// The first `n` pixels of a tile row, with the tile's attributes.
pub open spec fn row_pixels(
    low_data: u8,
    high_data: u8,
    flip: bool,
    attributes: GbcBackgroundAttributes,
    n: int,
) -> Seq<BackgroundPixel> {
    Seq::new(n as nat, |j: int| BackgroundPixel { color_index: tile_row(low_data, high_data, flip)[j], attributes })
}

/// What one step of the fetcher does, from `old` to `new`, at the step `old` is at.
pub open spec fn fetch_step(
    old: BackgroundFetcher,
    new: BackgroundFetcher,
    vram: VRam,
    lcd_control: u8,
    ly_register: u8,
    window_pos: Vec2<u8>,
    bg_pos: Vec2<u8>,
    cgb_enabled: bool,
) -> bool {
    let has_wy = old.has_wy_reached_ly || ly_register == window_pos.y;
    let window = in_window(lcd_control, window_pos.x, old.current_x_pos as int, has_wy);
    let data = old.fetcher_state_machine.data;
    let new_data = new.fetcher_state_machine.data;
    let advanced = (old.fetcher_state_machine.state + 1) % 8;
    let bank: u8 = if cgb_enabled && old.cgb_attribute.attribute.gbc_bank { 1 } else { 0 };
    &&& new.has_wy_reached_ly == has_wy
    &&& new.window_line_counter == old.window_line_counter
    &&& match old.step() {
        FetchingState::Sleep => {
            &&& new.fifo@ == old.fifo@
            &&& new.current_x_pos == old.current_x_pos
            &&& new.rendering_window == window
            &&& new.fetcher_state_machine.state == advanced
            &&& new_data == data
            &&& new.cgb_attribute == old.cgb_attribute
            &&& new.scanline_rendering_started == old.scanline_rendering_started
        },
        FetchingState::FetchTileNumber => {
            let address = tile_map_address(
                lcd_control,
                ly_register,
                window_pos,
                bg_pos,
                old.current_x_pos,
                old.window_line_counter,
                window,
            );
            let attributes = if cgb_enabled {
                decode_attributes(vram.byte(1, address as u16))
            } else {
                decode_attributes(0)
            };
            let tile = vram.byte(0, address as u16);
            &&& new.fifo@ == old.fifo@
            &&& new.current_x_pos == old.current_x_pos
            &&& new.rendering_window == window
            &&& new.fetcher_state_machine.state == advanced
            &&& new.cgb_attribute == attributes
            &&& new_data.tile_data == tile
            &&& new_data.tile_data_address == tile_data_address(
                lcd_control,
                bg_pos.y,
                ly_register,
                tile,
                cgb_enabled,
                attributes,
                window,
                old.window_line_counter,
            )
            &&& new_data.low_tile_data == 0
            &&& new_data.high_tile_data == 0
            &&& new.scanline_rendering_started == old.scanline_rendering_started
        },
        FetchingState::FetchLowTile => {
            &&& new.fifo@ == old.fifo@
            &&& new.current_x_pos == old.current_x_pos
            &&& new.rendering_window == window
            &&& new.fetcher_state_machine.state == advanced
            &&& new.cgb_attribute == old.cgb_attribute
            &&& new_data.low_tile_data == vram.byte(bank, data.tile_data_address)
            &&& new_data.tile_data == data.tile_data
            &&& new_data.tile_data_address == data.tile_data_address
            &&& new_data.high_tile_data == data.high_tile_data
            &&& new.scanline_rendering_started == old.scanline_rendering_started
        },
        FetchingState::FetchHighTile => {
            &&& new.cgb_attribute == old.cgb_attribute
            &&& new.scanline_rendering_started
            &&& if old.scanline_rendering_started {
                &&& new.fifo@ == old.fifo@
                &&& new.current_x_pos == old.current_x_pos
                &&& new.rendering_window == window
                &&& new.fetcher_state_machine.state == advanced
                &&& new_data.high_tile_data == vram.byte(bank, (data.tile_data_address + 1) as u16)
                &&& new_data.tile_data == data.tile_data
                &&& new_data.tile_data_address == data.tile_data_address
                &&& new_data.low_tile_data == data.low_tile_data
            } else {
                &&& new.fifo@.len() == 0
                &&& new.current_x_pos == 0
                &&& !new.rendering_window
                &&& new.fetcher_state_machine.state == 1
                &&& new_data.is_clear()
            }
        },
        FetchingState::Push => {
            &&& new.cgb_attribute == old.cgb_attribute
            &&& new.scanline_rendering_started == old.scanline_rendering_started
            &&& if old.fifo@.len() != 0 {
                &&& new.fifo@ == old.fifo@
                &&& new.current_x_pos == old.current_x_pos
                &&& new.rendering_window == window
                &&& new.fetcher_state_machine.state == old.fetcher_state_machine.state
                &&& new_data == data
            } else if lcd_control & 1 == 0 && !cgb_enabled {
                &&& new.fifo@ == Seq::new(8, |j: int| blank_pixel())
                &&& new.current_x_pos == old.current_x_pos + 8
                &&& new.rendering_window == window
                &&& new.fetcher_state_machine.state == advanced
                &&& new_data == data
            } else {
                let n = pushed_count(lcd_control, window_pos.x, old.current_x_pos, has_wy, window);
                let flip = cgb_enabled && old.cgb_attribute.attribute.flip_x;
                &&& new.fifo@ == row_pixels(data.low_tile_data, data.high_tile_data, flip, old.cgb_attribute, n)
                &&& new.current_x_pos == old.current_x_pos + n
                &&& new.rendering_window == in_window(
                    lcd_control,
                    window_pos.x,
                    old.current_x_pos + n,
                    has_wy,
                )
                &&& if window_starts(lcd_control, window_pos.x, old.current_x_pos, has_wy, window) {
                    &&& new.fetcher_state_machine.state == 0
                    &&& new_data.is_clear()
                } else {
                    &&& new.fetcher_state_machine.state == advanced
                    &&& new_data == data
                }
            }
        },
    }
}

/// Fetches background and window tiles and pushes their pixels to the FIFO, one step per
/// call.
pub struct BackgroundFetcher {
    pub fifo: FixedSizeQueue<BackgroundPixel, FIFO_SIZE>,
    pub window_line_counter: u8,
    pub has_wy_reached_ly: bool,
    pub rendering_window: bool,
    pub current_x_pos: u8,
    pub fetcher_state_machine: FetcherStateMachine,
    pub scanline_rendering_started: bool,
    pub cgb_attribute: GbcBackgroundAttributes,
}

impl BackgroundFetcher {
    pub open spec fn wf(&self) -> bool {
        &&& self.fifo.wf()
        &&& self.fetcher_state_machine.wf()
        &&& self.fetcher_state_machine.state_machine@ == background_steps()
        &&& self.fetcher_state_machine.data.tile_data_address < 0x1FFF
    }

    /// The step the fetcher is at.
    pub open spec fn step(&self) -> FetchingState {
        self.fetcher_state_machine.current()
    }

    pub fn new() -> (r: Self)
        ensures
            r.wf(),
            r.fifo@.len() == 0,
            r.window_line_counter == 0,
            !r.has_wy_reached_ly,
            !r.rendering_window,
            r.current_x_pos == 0,
            r.fetcher_state_machine.state == 0,
            r.fetcher_state_machine.data.is_clear(),
            !r.scanline_rendering_started,
            r.cgb_attribute == decode_attributes(0),
    {
        let state_machine = [
            FetchingState::Sleep,
            FetchingState::FetchTileNumber,
            FetchingState::Sleep,
            FetchingState::FetchLowTile,
            FetchingState::Sleep,
            FetchingState::FetchHighTile,
            FetchingState::Push,
            FetchingState::Sleep,
        ];
        let r = BackgroundFetcher {
            fetcher_state_machine: FetcherStateMachine::new(state_machine),
            cgb_attribute: GbcBackgroundAttributes::new(0),
            current_x_pos: 0,
            fifo: FixedSizeQueue::<BackgroundPixel, FIFO_SIZE>::new(),
            window_line_counter: 0,
            rendering_window: false,
            has_wy_reached_ly: false,
            scanline_rendering_started: false,
        };
        assert(r.fetcher_state_machine.state_machine@ =~= background_steps());
        r
    }

    /// Starts a new scanline: empties the FIFO and goes back to the first step at x 0.
    pub fn reset(&mut self)
        requires
            old(self).wf(),
        ensures
            final(self).wf(),
            final(self).fifo@.len() == 0,
            final(self).current_x_pos == 0,
            final(self).fetcher_state_machine.state == 0,
            final(self).fetcher_state_machine.data.is_clear(),
            !final(self).rendering_window,
            !final(self).scanline_rendering_started,
            final(self).window_line_counter == old(self).window_line_counter,
            final(self).has_wy_reached_ly == old(self).has_wy_reached_ly,
            final(self).cgb_attribute == old(self).cgb_attribute,
    {
        self.fifo.clear();
        self.current_x_pos = 0;
        self.fetcher_state_machine.reset();
        self.rendering_window = false;
        self.scanline_rendering_started = false;
    }

    /// Goes back to the first step, keeping the FIFO and the position.
    pub fn pause(&mut self)
        requires
            old(self).wf(),
        ensures
            final(self).wf(),
            final(self).fetcher_state_machine.state == 0,
            final(self).fetcher_state_machine.data.is_clear(),
            final(self).fifo@ == old(self).fifo@,
            final(self).current_x_pos == old(self).current_x_pos,
            final(self).rendering_window == old(self).rendering_window,
            final(self).scanline_rendering_started == old(self).scanline_rendering_started,
            final(self).window_line_counter == old(self).window_line_counter,
            final(self).has_wy_reached_ly == old(self).has_wy_reached_ly,
            final(self).cgb_attribute == old(self).cgb_attribute,
    {
        self.fetcher_state_machine.reset();
    }

    /// Counts a line of the window when this line drew some of it.
    pub fn try_increment_window_counter(&mut self, ly_register: u8, wy_register: u8)
        requires
            old(self).rendering_window && ly_register >= wy_register ==> old(self).window_line_counter < 255,
        ensures
            final(self).window_line_counter == if old(self).rendering_window && ly_register >= wy_register {
                old(self).window_line_counter + 1
            } else {
                old(self).window_line_counter as int
            },
            final(self).fifo == old(self).fifo,
            final(self).has_wy_reached_ly == old(self).has_wy_reached_ly,
            final(self).rendering_window == old(self).rendering_window,
            final(self).current_x_pos == old(self).current_x_pos,
            final(self).fetcher_state_machine == old(self).fetcher_state_machine,
            final(self).scanline_rendering_started == old(self).scanline_rendering_started,
            final(self).cgb_attribute == old(self).cgb_attribute,
    {
        if self.rendering_window && ly_register >= wy_register {
            self.window_line_counter = self.window_line_counter + 1;
        }
    }

    /// One step of the fetcher (see `fetch_step`).
    pub fn fetch_pixels(
        &mut self,
        vram: &VRam,
        lcd_control: u8,
        ly_register: u8,
        window_pos: &Vec2<u8>,
        bg_pos: &Vec2<u8>,
        cgb_enabled: bool,
    )
        requires
            old(self).wf(),
            vram.wf(),
            old(self).current_x_pos <= 247,
        ensures
            final(self).wf(),
            fetch_step(*old(self), *final(self), *vram, lcd_control, ly_register, *window_pos, *bg_pos, cgb_enabled),
    {
        self.has_wy_reached_ly = self.has_wy_reached_ly || ly_register == window_pos.y;
        self.rendering_window = self.is_rendering_wnd(lcd_control, window_pos);
        let step = *self.fetcher_state_machine.current_state();
        match step {
            FetchingState::FetchTileNumber => {
                let address = self.tile_number_address(lcd_control, ly_register, window_pos, bg_pos);
                self.fetcher_state_machine.data.reset();
                self.cgb_attribute = if cgb_enabled {
                    GbcBackgroundAttributes::new(vram.read_bank(address, 1))
                } else {
                    GbcBackgroundAttributes::new(0)
                };
                self.fetcher_state_machine.data.tile_data = vram.read_bank(address, 0);
                self.fetcher_state_machine.data.tile_data_address = self.get_tila_data_address(
                    lcd_control,
                    bg_pos.y,
                    ly_register,
                    self.fetcher_state_machine.data.tile_data,
                    cgb_enabled,
                );
            },
            FetchingState::FetchLowTile => {
                let bank: u8 = if cgb_enabled && self.cgb_attribute.attribute.gbc_bank { 1 } else { 0 };
                let low_data = vram.read_bank(self.fetcher_state_machine.data.tile_data_address, bank);
                self.fetcher_state_machine.data.low_tile_data = low_data;
            },
            FetchingState::FetchHighTile => {
                let bank: u8 = if cgb_enabled && self.cgb_attribute.attribute.gbc_bank { 1 } else { 0 };
                let high_data = vram.read_bank(self.fetcher_state_machine.data.tile_data_address + 1, bank);
                self.fetcher_state_machine.data.high_tile_data = high_data;
                // The first fetch of a scanline starts over once it reaches this step.
                if !self.scanline_rendering_started {
                    self.reset();
                    self.scanline_rendering_started = true;
                }
            },
            FetchingState::Push => {
                if self.fifo.len() != 0 {
                    // Waits for the FIFO to empty, without moving to the next step.
                    return;
                }
                // On the DMG a cleared LCDC bit 0 turns the background white, not on the CGB.
                if lcd_control & 1 == 0 && !cgb_enabled {
                    let blank = BackgroundPixel::default();
                    self.fifo.fill(&[blank; FIFO_SIZE]);
                    self.current_x_pos = self.current_x_pos + SPRITE_WIDTH;
                    assert(self.fifo@ =~= Seq::new(8, |j: int| blank_pixel()));
                } else {
                    if self.push_row(lcd_control, window_pos, cgb_enabled) {
                        return;
                    }
                }
            },
            FetchingState::Sleep => {},
        }
        self.fetcher_state_machine.advance();
    }

    fn tile_number_address(&self, lcd_control: u8, ly_register: u8, window_pos: &Vec2<u8>, bg_pos: &Vec2<u8>) -> (r: u16)
        requires
            self.rendering_window ==> window_pos.x <= self.current_x_pos,
        ensures
            r == tile_map_address(
                lcd_control,
                ly_register,
                *window_pos,
                *bg_pos,
                self.current_x_pos,
                self.window_line_counter,
                self.rendering_window,
            ),
            r < 0x2000,
    {
        if self.rendering_window {
            let tile_map_address: u16 = if (lcd_control & 0x40) == 0 { 0x1800 } else { 0x1C00 };
            tile_map_address + (TILES_IN_VRAM_ROW * (self.window_line_counter as u16 / SPRITE_WIDTH as u16)) + ((
            self.current_x_pos - window_pos.x) as u16 / SPRITE_WIDTH as u16)
        } else {
            let tile_map_address: u16 = if (lcd_control & 0x08) == 0 { 0x1800 } else { 0x1C00 };
            let column: u16 = (bg_pos.x as u16 + self.current_x_pos as u16) / SPRITE_WIDTH as u16;
            let scx_offset: u16 = column & 31;
            let row: u16 = bg_pos.y as u16 + ly_register as u16;
            let wrapped_row: u16 = row & 0xFF;
            assert(scx_offset == column % 32 && wrapped_row == row % 256) by (bit_vector)
                requires
                    scx_offset == column & 31,
                    wrapped_row == row & 0xFF,
            ;
            let scy_offset: u16 = wrapped_row / SPRITE_WIDTH as u16;
            tile_map_address + ((TILES_IN_VRAM_ROW * scy_offset) + scx_offset)
        }
    }

    fn get_tila_data_address(&self, lcd_control: u8, scy: u8, ly_register: u8, tile_num: u8, cgb_enabled: bool) -> (r: u16)
        ensures
            r == tile_data_address(
                lcd_control,
                scy,
                ly_register,
                tile_num,
                cgb_enabled,
                self.cgb_attribute,
                self.rendering_window,
                self.window_line_counter,
            ),
            r < 0x1FFF,
    {
        let current_tile_base_data_address: u16 = if (lcd_control & 0x10) == 0 && (tile_num & 0x80) == 0 {
            0x1000
        } else {
            0
        };
        let current_tile_data_address = current_tile_base_data_address + (tile_num as u16 * 16);
        let sprite_line_number: u16 = if self.rendering_window {
            (self.window_line_counter % SPRITE_WIDTH) as u16
        } else {
            (scy as u16 + ly_register as u16) % SPRITE_WIDTH as u16
        };
        assert(current_tile_base_data_address == 0x1000 ==> tile_num < 0x80) by (bit_vector)
            requires
                current_tile_base_data_address == (if (lcd_control & 0x10) == 0 && (tile_num & 0x80) == 0 {
                    0x1000u16
                } else {
                    0u16
                }),
        ;
        // A vertically mirrored tile is read from its last row up.
        current_tile_data_address + 2 * if cgb_enabled && self.cgb_attribute.attribute.flip_y {
            7 - sprite_line_number
        } else {
            sprite_line_number
        }
    }

    /// Pushes the decoded tile row to the empty FIFO, stopping after the pixel where the
    /// window starts; tells whether it stopped there (the fetcher then starts over).
    fn push_row(&mut self, lcd_control: u8, window_pos: &Vec2<u8>, cgb_enabled: bool) -> (switched: bool)
        requires
            old(self).wf(),
            old(self).fifo@.len() == 0,
            old(self).current_x_pos <= 247,
            old(self).rendering_window == in_window(
                lcd_control,
                window_pos.x,
                old(self).current_x_pos as int,
                old(self).has_wy_reached_ly,
            ),
        ensures
            final(self).wf(),
            ({
                let data = old(self).fetcher_state_machine.data;
                let n = pushed_count(
                    lcd_control,
                    window_pos.x,
                    old(self).current_x_pos,
                    old(self).has_wy_reached_ly,
                    old(self).rendering_window,
                );
                let flip = cgb_enabled && old(self).cgb_attribute.attribute.flip_x;
                &&& final(self).fifo@ == row_pixels(data.low_tile_data, data.high_tile_data, flip, old(self).cgb_attribute, n)
                &&& final(self).current_x_pos == old(self).current_x_pos + n
                &&& final(self).rendering_window == in_window(
                    lcd_control,
                    window_pos.x,
                    old(self).current_x_pos + n,
                    old(self).has_wy_reached_ly,
                )
            }),
            switched == window_starts(
                lcd_control,
                window_pos.x,
                old(self).current_x_pos,
                old(self).has_wy_reached_ly,
                old(self).rendering_window,
            ),
            switched ==> final(self).fetcher_state_machine.state == 0 && final(self).fetcher_state_machine.data.is_clear(),
            !switched ==> final(self).fetcher_state_machine == old(self).fetcher_state_machine,
            final(self).has_wy_reached_ly == old(self).has_wy_reached_ly,
            final(self).window_line_counter == old(self).window_line_counter,
            final(self).cgb_attribute == old(self).cgb_attribute,
            final(self).scanline_rendering_started == old(self).scanline_rendering_started,
    {
        let low_data = self.fetcher_state_machine.data.low_tile_data;
        let high_data = self.fetcher_state_machine.data.high_tile_data;
        let flip = cgb_enabled && self.cgb_attribute.attribute.flip_x;
        let attributes = self.cgb_attribute;
        let ghost x0 = old(self).current_x_pos;
        let ghost has_wy = old(self).has_wy_reached_ly;
        let ghost window = old(self).rendering_window;
        let ghost n = pushed_count(lcd_control, window_pos.x, x0, has_wy, window);
        let ghost starts = window_starts(lcd_control, window_pos.x, x0, has_wy, window);
        let mut i: u8 = 0;
        let mut switched = false;
        while i < SPRITE_WIDTH && !switched
            invariant
                self.wf(),
                i <= 8,
                x0 <= 247,
                switched ==> starts && i == n,
                !switched ==> (starts ==> i < n),
                n == pushed_count(lcd_control, window_pos.x, x0, has_wy, window),
                starts == window_starts(lcd_control, window_pos.x, x0, has_wy, window),
                window == in_window(lcd_control, window_pos.x, x0 as int, has_wy),
                low_data == old(self).fetcher_state_machine.data.low_tile_data,
                high_data == old(self).fetcher_state_machine.data.high_tile_data,
                flip == (cgb_enabled && old(self).cgb_attribute.attribute.flip_x),
                attributes == old(self).cgb_attribute,
                self.current_x_pos == x0 + i,
                self.fifo@ == row_pixels(low_data, high_data, flip, attributes, i as int),
                self.rendering_window == in_window(lcd_control, window_pos.x, x0 + i, has_wy),
                self.fetcher_state_machine == old(self).fetcher_state_machine,
                self.has_wy_reached_ly == has_wy,
                self.window_line_counter == old(self).window_line_counter,
                self.cgb_attribute == old(self).cgb_attribute,
                self.scanline_rendering_started == old(self).scanline_rendering_started,
            decreases 8 - i,
        {
            let index: u8 = if flip { i } else { 7 - i };
            let color_index = get_decoded_pixel(index, low_data, high_data);
            self.fifo.push(BackgroundPixel { color_index, attributes });
            self.current_x_pos = self.current_x_pos + 1;
            assert(self.fifo@ =~= row_pixels(low_data, high_data, flip, attributes, i + 1));
            let last_rendering_status = self.rendering_window;
            self.rendering_window = self.is_rendering_wnd(lcd_control, window_pos);
            // The window starts here: the fetcher starts over for it.
            switched = self.rendering_window && !last_rendering_status;
            i = i + 1;
        }
        if switched {
            self.fetcher_state_machine.reset();
        }
        switched
    }

    fn is_rendering_wnd(&self, lcd_control: u8, window_pos: &Vec2<u8>) -> (r: bool)
        ensures
            r == in_window(lcd_control, window_pos.x, self.current_x_pos as int, self.has_wy_reached_ly),
    {
        window_pos.x <= self.current_x_pos && self.has_wy_reached_ly && (lcd_control & 0x20) != 0
    }
}

/// While the fetcher draws the window, the tile number of its FetchTileNumber step comes
/// from the window's tile map: the one at VRAM 0x1C00 (0x9C00) when LCDC bit 6 is set, else
/// the one at 0x1800 (0x9800), at the row of the window line counter and the column of x
/// within the window. LCDC bit 3, which picks the background's map, plays no part: two LCDC
/// values that agree on bit 6 give the window the same tile map address.
pub proof fn lemma_window_tile_map(
    old: BackgroundFetcher,
    new: BackgroundFetcher,
    vram: VRam,
    lcd_control: u8,
    other_lcd_control: u8,
    ly_register: u8,
    window_pos: Vec2<u8>,
    bg_pos: Vec2<u8>,
    cgb_enabled: bool,
)
    requires
        fetch_step(old, new, vram, lcd_control, ly_register, window_pos, bg_pos, cgb_enabled),
        old.step() == FetchingState::FetchTileNumber,
        new.rendering_window,
    ensures
        new.fetcher_state_machine.data.tile_data == vram.byte(
            0,
            ((if lcd_control & 0x40 != 0 { 0x1C00int } else { 0x1800int }) + 32 * (old.window_line_counter / 8) + (
            old.current_x_pos - window_pos.x) / 8) as u16,
        ),
        other_lcd_control & 0x40 == lcd_control & 0x40 ==> tile_map_address(
            other_lcd_control,
            ly_register,
            window_pos,
            bg_pos,
            old.current_x_pos,
            old.window_line_counter,
            true,
        ) == tile_map_address(
            lcd_control,
            ly_register,
            window_pos,
            bg_pos,
            old.current_x_pos,
            old.window_line_counter,
            true,
        ),
{
}

/// Outside the window, the tile number of the FetchTileNumber step comes from the
/// background's tile map: the one at VRAM 0x1C00 (0x9C00) when LCDC bit 3 is set, else the one
/// at 0x1800 (0x9800), at the row of line LY + SCY (wrapping at 256) and the column of x + SCX
/// (wrapping at 32 tiles). LCDC bit 6, the window's map, plays no part.
pub proof fn lemma_background_tile_map(
    old: BackgroundFetcher,
    new: BackgroundFetcher,
    vram: VRam,
    lcd_control: u8,
    other_lcd_control: u8,
    ly_register: u8,
    window_pos: Vec2<u8>,
    bg_pos: Vec2<u8>,
    cgb_enabled: bool,
)
    requires
        fetch_step(old, new, vram, lcd_control, ly_register, window_pos, bg_pos, cgb_enabled),
        old.step() == FetchingState::FetchTileNumber,
        !new.rendering_window,
    ensures
        new.fetcher_state_machine.data.tile_data == vram.byte(
            0,
            ((if lcd_control & 0x08 != 0 { 0x1C00int } else { 0x1800int }) + 32 * (((bg_pos.y + ly_register)
                % 256) / 8) + ((bg_pos.x + old.current_x_pos) / 8) % 32) as u16,
        ),
        other_lcd_control & 0x08 == lcd_control & 0x08 ==> tile_map_address(
            other_lcd_control,
            ly_register,
            window_pos,
            bg_pos,
            old.current_x_pos,
            old.window_line_counter,
            false,
        ) == tile_map_address(
            lcd_control,
            ly_register,
            window_pos,
            bg_pos,
            old.current_x_pos,
            old.window_line_counter,
            false,
        ),
{
}

/// Where the row of a tile lies in VRAM: with LCDC bit 4 set the tile numbers count from 0 at
/// 0x0000 (0x8000); with it clear they are signed and count from 0x1000 (0x9000), so 128 to 255
/// lie from 0x0800 on. Each tile takes 16 bytes, two per row; the row is the line within the
/// tile (of the window line counter for the window, of LY + SCY for the background), counted
/// from the bottom when a CGB tile is flipped vertically.
pub proof fn lemma_tile_data_address(
    lcd_control: u8,
    scy: u8,
    ly_register: u8,
    tile_num: u8,
    cgb_enabled: bool,
    attributes: GbcBackgroundAttributes,
    window: bool,
    window_line_counter: u8,
)
    ensures
        ({
            let line: int = if window { (window_line_counter % 8) as int } else { (scy + ly_register) % 8 };
            let row: int = if cgb_enabled && attributes.attribute.flip_y { 7 - line } else { line };
            let signed: int = if tile_num < 128 { tile_num as int } else { tile_num - 256 };
            tile_data_address(lcd_control, scy, ly_register, tile_num, cgb_enabled, attributes, window, window_line_counter)
                == if lcd_control & 0x10 != 0 {
                tile_num * 16 + 2 * row
            } else {
                0x1000 + signed * 16 + 2 * row
            }
        }),
{
    crate::cpu::opcodes::arithmetic_8bit_instructions::lemma_alu_bits(tile_num, 0, 0, false, false, false, false);
}

/// The pixels of a tile row from the left: pixel `j` takes bit 7 - `j` of the two bytes (bit
/// `j` when the tile is mirrored), the low byte giving bit 0 of the color index and the high
/// byte bit 1.
pub proof fn lemma_tile_row_pixels(low_data: u8, high_data: u8, flip: bool, j: int)
    requires
        0 <= j < 8,
    ensures
        ({
            let bit = (if flip { j } else { 7 - j }) as u8;
            tile_row(low_data, high_data, flip)[j] == (low_data / bit_place(bit)) % 2 + 2 * ((high_data / bit_place(
                bit,
            )) % 2)
        }),
{
    lemma_decoded_pixel((if flip { j } else { 7 - j }) as u8, low_data, high_data);
}

} // verus!
