use lib::debugger::{PpuLayer, PPU_BUFFER_SIZE};
use lib::machine::Mode;
use lib::ppu::attributes::GbcBackgroundAttributes;
use lib::ppu::color::Color;
use lib::ppu::fifo::background_fetcher::BackgroundPixel;
use lib::ppu::fifo::sprite_fetcher::SpritePixel;
use lib::ppu::fifo::background_fetcher::BackgroundFetcher;
use lib::ppu::fifo::fetching_state::{FetcherStateMachine, FetchingState};
use lib::ppu::fifo::get_decoded_pixel;
use lib::ppu::gb_ppu::GbPpu;
use lib::ppu::gfx_device::{GfxDevice, Pixel, FRAME_SIZE};
use lib::ppu::ppu_register_updater::{
    get_bgpd, get_bgpi, get_obpd, get_obpi, get_orpi, get_stat, get_wx_register, handle_bg_pallet_register,
    handle_lcdcontrol_register, handle_obp_pallet_register, handle_wx_register, handle_wy_register, set_bgpd, set_bgpi,
    set_lyc, set_obpd, set_obpi, set_orpi, set_scx, set_scy, update_stat_register,
};
use lib::ppu::ppu_state::PpuState;
use lib::ppu::vram::VRam;
use lib::utils::vec2::Vec2;

struct Screen {
    frames: u32,
}

impl GfxDevice for Screen {
    fn swap_buffer(&mut self, _buffer: &[Pixel; FRAME_SIZE]) {
        self.frames += 1;
    }
}

const WHITE: Color = Color { r: 255, g: 255, b: 255 };
const LIGHT_GRAY: Color = Color { r: 160, g: 160, b: 160 };
const DARK_GRAY: Color = Color { r: 64, g: 64, b: 64 };
const BLACK: Color = Color { r: 0, g: 0, b: 0 };

#[test]
fn color_conversions() {
    assert_eq!(u16::from(WHITE), 0xFFFF);
    assert_eq!(u16::from(Color { r: 0xF8, g: 0, b: 0 }), 0xF800);
    assert_eq!(u16::from(Color { r: 0, g: 0xFC, b: 0 }), 0x07E0);
    assert_eq!(Color::from(0x001Fu16), Color { r: 0xF8, g: 0, b: 0 });
    assert_eq!(Color::from(0x7C00u16), Color { r: 0, g: 0, b: 0xF8 });
    assert_eq!(Color::from(0x123456u32), Color { r: 0x12, g: 0x34, b: 0x56 });
}

#[test]
fn decoded_pixels_take_one_bit_of_each_byte() {
    assert_eq!(get_decoded_pixel(7, 0b1000_0000, 0b1000_0000), 3);
    assert_eq!(get_decoded_pixel(0, 0b0000_0001, 0), 1);
    assert_eq!(get_decoded_pixel(0, 0, 0b0000_0001), 2);
    assert_eq!(get_decoded_pixel(3, 0xF7, 0xF7), 0);
}

#[test]
fn palettes_map_pairs_of_bits_to_shades() {
    let mut pallet = [WHITE; 4];
    let mut reg = 0;
    handle_bg_pallet_register(0b00_01_10_11, &mut pallet, &mut reg);
    assert_eq!(pallet, [BLACK, DARK_GRAY, LIGHT_GRAY, WHITE]);
    assert_eq!(reg, 0b00_01_10_11);
    let mut obj = [Some(WHITE); 4];
    handle_obp_pallet_register(0b11_10_01_00, &mut obj, &mut reg);
    assert_eq!(obj, [None, Some(LIGHT_GRAY), Some(DARK_GRAY), Some(BLACK)]);
}

#[test]
fn new_ppu_is_in_hblank_with_default_palettes() {
    let ppu = GbPpu::new(Screen { frames: 0 }, Mode::CGB);
    assert!(ppu.state == PpuState::Hblank);
    assert_eq!(ppu.bg_color_mapping, [WHITE, LIGHT_GRAY, DARK_GRAY, BLACK]);
    assert!(ppu.cgb_priority_mode);
    assert!(!GbPpu::new(Screen { frames: 0 }, Mode::DMG).cgb_priority_mode);
}

#[test]
fn wx_reads_back_with_the_offset() {
    let mut ppu = GbPpu::new(Screen { frames: 0 }, Mode::DMG);
    handle_wx_register(100, &mut ppu);
    assert_eq!(ppu.window_pos.x, 93);
    assert_eq!(get_wx_register(&ppu), 100);
    handle_wx_register(3, &mut ppu);
    assert_eq!(get_wx_register(&ppu), 7);
    handle_wy_register(40, &mut ppu);
    assert_eq!(ppu.window_pos.y, 40);
}

#[test]
fn color_ram_auto_increments_and_wraps() {
    let mut ppu = GbPpu::new(Screen { frames: 0 }, Mode::CGB);
    set_bgpi(&mut ppu, 0x80 | 62);
    set_bgpd(&mut ppu, 0x11);
    set_bgpd(&mut ppu, 0x22);
    assert_eq!(ppu.bg_color_ram[62], 0x11);
    assert_eq!(ppu.bg_color_ram[63], 0x22);
    assert_eq!(get_bgpi(&ppu), 0x80);
    set_bgpd(&mut ppu, 0x1F);
    set_bgpi(&mut ppu, 0);
    assert_eq!(get_bgpd(&ppu), 0x1F);
    assert_eq!(GbPpu::<Screen>::get_color_from_color_ram(&ppu.bg_color_ram, 0, 0), Color { r: 0xF8, g: 0, b: 0 });
    set_obpi(&mut ppu, 0xFF);
    assert_eq!(get_obpi(&ppu), 0xBF);
    set_obpi(&mut ppu, 0x81);
    set_obpd(&mut ppu, 0x33);
    assert_eq!(ppu.obj_color_ram[1], 0x33);
    set_obpi(&mut ppu, 1);
    assert_eq!(get_obpd(&ppu), 0x33);
}

#[test]
fn color_ram_is_not_written_during_pixel_transfer() {
    let mut ppu = GbPpu::new(Screen { frames: 0 }, Mode::CGB);
    ppu.state = PpuState::PixelTransfer;
    set_bgpi(&mut ppu, 0x80);
    set_bgpd(&mut ppu, 0x55);
    assert_eq!(ppu.bg_color_ram[0], 0);
    assert_eq!(get_bgpi(&ppu), 0x81);
}

#[test]
fn lcd_control_turns_the_ppu_on_and_off() {
    let mut ppu = GbPpu::new(Screen { frames: 0 }, Mode::DMG);
    handle_lcdcontrol_register(0x91, &mut ppu);
    assert!(ppu.state == PpuState::OamSearch);
    assert_eq!(ppu.lcd_control, 0x91);
    ppu.ly_register = 50;
    handle_lcdcontrol_register(0x11, &mut ppu);
    assert!(ppu.state == PpuState::Hblank);
    assert_eq!(ppu.ly_register, 0);
    assert_eq!(ppu.gfx_device.frames, 1);
    assert_eq!(ppu.current_screen_buffer_index, 1);
    assert!(ppu.screen_buffers[0].iter().all(|p| *p == 0xFFFF));
}

#[test]
fn stat_writes_select_interrupt_sources() {
    let mut ppu = GbPpu::new(Screen { frames: 0 }, Mode::DMG);
    ppu.stat_register = 0b0000_0110;
    update_stat_register(0b0100_1011, &mut ppu);
    assert!(ppu.h_blank_interrupt_request);
    assert!(!ppu.v_blank_interrupt_request);
    assert!(ppu.coincidence_interrupt_request);
    assert_eq!(get_stat(&ppu), 0b0100_1110);
    set_lyc(&mut ppu, 9);
    assert_eq!(ppu.lyc_register, 9);
    set_scx(&mut ppu, 3);
    set_scy(&mut ppu, 4);
    assert_eq!((ppu.bg_pos.x, ppu.bg_pos.y), (3, 4));
    set_orpi(&mut ppu, 1);
    assert_eq!(get_orpi(&ppu), 0);
    set_orpi(&mut ppu, 0);
    assert_eq!(get_orpi(&ppu), 1);
}

#[test]
fn vblank_event_is_consumed_once() {
    let mut ppu = GbPpu::new(Screen { frames: 0 }, Mode::DMG);
    ppu.vblank_occurred = true;
    assert!(ppu.consume_vblank_event());
    assert!(!ppu.consume_vblank_event());
}

#[test]
fn fetcher_state_machine_cycles_through_8_steps() {
    let steps = [
        FetchingState::Sleep,
        FetchingState::FetchTileNumber,
        FetchingState::Sleep,
        FetchingState::FetchLowTile,
        FetchingState::Sleep,
        FetchingState::FetchHighTile,
        FetchingState::Push,
        FetchingState::Sleep,
    ];
    let mut machine = FetcherStateMachine::new(steps);
    for i in 0..8 {
        assert!(*machine.current_state() == steps[i]);
        machine.advance();
    }
    assert!(*machine.current_state() == FetchingState::Sleep);
    machine.data.low_tile_data = 5;
    machine.reset();
    assert_eq!(machine.data.low_tile_data, 0);
}

#[test]
fn background_fetcher_pushes_a_decoded_tile_row() {
    let mut vram = VRam::new();
    vram.write_current_bank(0x1800, 1);
    // Line 1 of tile 1: the low byte, then the high byte.
    vram.write_current_bank(0x0012, 0b1010_1010);
    vram.write_current_bank(0x0013, 0b1100_1100);
    let mut fetcher = BackgroundFetcher::new();
    let window = Vec2 { x: 0, y: 0xFF };
    let bg = Vec2 { x: 0, y: 0 };
    // The first fetch of a scanline starts over at its high tile step.
    for _ in 0..12 {
        fetcher.fetch_pixels(&vram, 0x91, 1, &window, &bg, false);
    }
    assert_eq!(fetcher.fifo.len(), 8);
    let row: Vec<u8> = (0..8).map(|i| fetcher.fifo[i].color_index).collect();
    assert_eq!(row, vec![3, 2, 1, 0, 3, 2, 1, 0]);
    assert_eq!(fetcher.current_x_pos, 8);
    // A full FIFO makes the push step wait.
    fetcher.fetch_pixels(&vram, 0x91, 1, &window, &bg, false);
    assert_eq!(fetcher.fifo.len(), 8);
}

#[test]
fn background_disabled_on_dmg_pushes_color_0() {
    let mut vram = VRam::new();
    vram.write_current_bank(0x1800, 1);
    vram.write_current_bank(0x0010, 0xFF);
    let mut fetcher = BackgroundFetcher::new();
    let window = Vec2 { x: 0, y: 0xFF };
    let bg = Vec2 { x: 0, y: 0 };
    for _ in 0..12 {
        fetcher.fetch_pixels(&vram, 0x90, 0, &window, &bg, false);
    }
    assert_eq!(fetcher.fifo.len(), 8);
    assert!((0..8).all(|i| fetcher.fifo[i].color_index == 0));
}

#[test]
fn window_counter_counts_window_lines() {
    let mut fetcher = BackgroundFetcher::new();
    fetcher.try_increment_window_counter(10, 5);
    assert_eq!(fetcher.window_line_counter, 0);
    fetcher.rendering_window = true;
    fetcher.try_increment_window_counter(10, 5);
    assert_eq!(fetcher.window_line_counter, 1);
    fetcher.try_increment_window_counter(4, 5);
    assert_eq!(fetcher.window_line_counter, 1);
    fetcher.reset();
    assert!(!fetcher.rendering_window);
}

fn ppu_with_sprites(corners: &[(u8, u8)]) -> GbPpu<Screen> {
    let mut ppu = GbPpu::new(Screen { frames: 0 }, Mode::DMG);
    for (i, (end_y, end_x)) in corners.iter().enumerate() {
        ppu.oam[i * 4] = *end_y;
        ppu.oam[i * 4 + 1] = *end_x;
        ppu.oam[i * 4 + 2] = i as u8;
    }
    ppu
}

fn line_xs(ppu: &GbPpu<Screen>) -> Vec<(u8, u8, u8, u8)> {
    (0..ppu.sprite_fetcher.oam_entries_len as usize)
        .map(|i| {
            let e = ppu.sprite_fetcher.oam_entries[i];
            (e.x, e.tile_number, e.visibility_start, e.visibility_end)
        })
        .collect()
}

#[test]
fn sprites_of_the_line_are_sorted_by_x() {
    // Object 0 at x 20, object 1 at x 16 overlapping it from the left, object 2 off the line.
    let mut ppu = ppu_with_sprites(&[(16, 20), (16, 16), (40, 50)]);
    ppu.read_sprites_from_oam(false);
    // On the DMG the object with the lower x wins the shared columns: the first 4 columns of
    // the one at x 20 are hidden.
    assert_eq!(line_xs(&ppu), vec![(16, 1, 0, 8), (20, 0, 4, 8)]);
}

// With CGB priority the earlier object in OAM wins: the last 4 columns of the later one are
// hidden.
#[test]
fn cgb_priority_cuts_the_later_object() {
    let mut ppu = ppu_with_sprites(&[(16, 20), (16, 16)]);
    ppu.cgb_priority_mode = true;
    ppu.read_sprites_from_oam(true);
    assert_eq!(line_xs(&ppu), vec![(16, 1, 0, 4), (20, 0, 0, 8)]);
}

#[test]
fn screen_edges_hide_columns_and_a_line_holds_ten_objects() {
    let mut ppu = ppu_with_sprites(&[(16, 4), (16, 164)]);
    ppu.read_sprites_from_oam(false);
    assert_eq!(line_xs(&ppu), vec![(4, 0, 4, 8), (164, 1, 0, 4)]);

    let corners: Vec<(u8, u8)> = (0..12).map(|i| (16, 8 + 10 * i as u8)).collect();
    let mut ppu = ppu_with_sprites(&corners);
    ppu.read_sprites_from_oam(false);
    assert_eq!(ppu.sprite_fetcher.oam_entries_len, 10);
    assert_eq!(ppu.sprite_fetcher.oam_entries[9].tile_number, 9);
}

#[test]
fn tall_objects_show_on_16_lines() {
    let mut ppu = ppu_with_sprites(&[(16, 20)]);
    ppu.ly_register = 12;
    ppu.read_sprites_from_oam(false);
    assert_eq!(ppu.sprite_fetcher.oam_entries_len, 0);
    ppu.lcd_control = 0x04;
    ppu.read_sprites_from_oam(false);
    assert_eq!(ppu.sprite_fetcher.oam_entries_len, 1);
}

#[test]
fn fine_scroll_drops_the_first_pixels() {
    let mut ppu = GbPpu::new(Screen { frames: 0 }, Mode::DMG);
    ppu.bg_pos.x = 3;
    for i in 0..8 {
        ppu.bg_fetcher.fifo.push(BackgroundPixel { color_index: i % 4, attributes: GbcBackgroundAttributes::new(0) });
    }
    for _ in 0..3 {
        ppu.try_push_to_lcd();
    }
    assert_eq!(ppu.pixel_x_pos, 0);
    assert_eq!(ppu.bg_fetcher.fifo.len(), 5);
    ppu.try_push_to_lcd();
    assert_eq!(ppu.pixel_x_pos, 1);
    // pixel 3 has color 3: black
    assert_eq!(ppu.screen_buffers[0][0], 0);
    ppu.try_push_to_lcd();
    // pixel 4 has color 0: white
    assert_eq!(ppu.screen_buffers[0][1], 0xFFFF);
}

#[test]
fn object_pixels_mix_with_the_background() {
    let mut ppu = ppu_with_sprites(&[(16, 20)]);
    ppu.oam[3] = 0x80; // background priority
    ppu.read_sprites_from_oam(false);
    let bg = |c| BackgroundPixel { color_index: c, attributes: GbcBackgroundAttributes::new(0) };
    ppu.sprite_fetcher.fifo.push(SpritePixel { color_index: 3, oam_entry: 0 });
    ppu.sprite_fetcher.fifo.push(SpritePixel { color_index: 3, oam_entry: 0 });
    ppu.sprite_fetcher.fifo.push(SpritePixel { color_index: 0, oam_entry: 0 });
    // Background color 0 lets the object show, another color hides it.
    assert_eq!(ppu.get_pixel_color(bg(0)), BLACK);
    assert_eq!(ppu.get_pixel_color(bg(1)), LIGHT_GRAY);
    // Object color 0 is transparent.
    assert_eq!(ppu.get_pixel_color(bg(2)), DARK_GRAY);
    // No object pixel left.
    assert_eq!(ppu.get_pixel_color(bg(0)), WHITE);
}

#[test]
fn background_layer_view_shows_the_whole_map() {
    let mut ppu = GbPpu::new(Screen { frames: 0 }, Mode::DMG);
    // Every map entry names tile 0, whose data sits at 0x1000 with LCDC bit 4 clear;
    // its first row has only the high bits set: color 2 on all 8 pixels.
    ppu.vram.write_current_bank(0x1000, 0xFF);
    ppu.vram.write_current_bank(0x1001, 0x00);
    let view = ppu.get_layer(PpuLayer::Background);
    assert_eq!(view.len(), PPU_BUFFER_SIZE);
    assert_eq!(view[0], u16::from(DARK_GRAY));
    assert_eq!(view[255], u16::from(DARK_GRAY));
    assert_eq!(view[8 * 256 + 3], u16::from(DARK_GRAY));
    assert_eq!(view[256], u16::from(WHITE));
    assert_eq!(view[7 * 256 + 100], u16::from(WHITE));
}

#[test]
fn sprite_layer_view_draws_objects_on_white() {
    let mut ppu = GbPpu::new(Screen { frames: 0 }, Mode::DMG);
    ppu.oam[0] = 10;
    ppu.oam[1] = 20;
    ppu.oam[2] = 1;
    // Tile 1 of the objects: the leftmost pixel of its first row has color 3.
    ppu.vram.write_current_bank(0x0010, 0x80);
    ppu.vram.write_current_bank(0x0011, 0x80);
    let view = ppu.get_layer(PpuLayer::Sprites);
    assert_eq!(view[10 * 256 + 20], u16::from(BLACK));
    assert_eq!(view[10 * 256 + 21], u16::from(WHITE));
    assert_eq!(view[11 * 256 + 20], u16::from(WHITE));
    assert_eq!(view[0], u16::from(WHITE));
}

fn no_objects(
    f: lib::ppu::fifo::sprite_fetcher::SpriteFetcher,
    _vram: &VRam,
    _lcdc: u8,
    _ly: u8,
    _x: u8,
    _cgb: bool,
    _priority: bool,
) -> lib::ppu::fifo::sprite_fetcher::SpriteFetcher {
    f
}

#[test]
fn a_frame_runs_the_modes_and_requests_the_vblank_interrupt() {
    let mut ppu = GbPpu::new(Screen { frames: 0 }, Mode::DMG);
    ppu.lcd_control = 0x91;
    let mut if_register = 0u8;
    // The first m-cycle starts the OAM search of line 0.
    assert_eq!(ppu.cycle(1, &mut if_register, false, &no_objects), Some(19));
    assert_eq!(ppu.state, PpuState::OamSearch);
    assert_eq!(ppu.stat_register & 0b111, 0b110);
    let mut m_cycles = 1u32;
    let mut saw_transfer = false;
    while !ppu.vblank_occurred {
        ppu.cycle(1, &mut if_register, false, &no_objects).unwrap();
        m_cycles += 1;
        if ppu.state == PpuState::PixelTransfer {
            saw_transfer = true;
            assert_eq!(ppu.stat_register & 0b11, 0b11);
        }
        assert!(m_cycles <= 144 * 114 + 1);
    }
    assert!(saw_transfer);
    assert_eq!(ppu.ly_register, 144);
    assert_eq!(m_cycles, 144 * 114);
    assert_eq!(if_register & 1, 1);
    assert_eq!(ppu.gfx_device.frames, 1);
    assert!(ppu.consume_vblank_event());
}

#[test]
fn the_vertical_blank_counts_lines_and_ends_at_line_0() {
    let mut ppu = GbPpu::new(Screen { frames: 0 }, Mode::DMG);
    ppu.lcd_control = 0x91;
    let mut if_register = 0u8;
    while !ppu.vblank_occurred {
        ppu.cycle(1, &mut if_register, false, &no_objects).unwrap();
    }
    ppu.cycle(114, &mut if_register, false, &no_objects).unwrap();
    assert_eq!(ppu.state, PpuState::Vblank);
    assert!(ppu.ly_register >= 145);
    for _ in 0..9 {
        ppu.cycle(114, &mut if_register, false, &no_objects).unwrap();
    }
    assert_eq!(ppu.ly_register, 0);
    assert_eq!(ppu.next_state, PpuState::OamSearch);
}

#[test]
fn with_the_lcd_off_nothing_runs() {
    let mut ppu = GbPpu::new(Screen { frames: 0 }, Mode::DMG);
    let mut if_register = 0u8;
    assert_eq!(ppu.cycle(100, &mut if_register, false, &no_objects), None);
    assert_eq!(ppu.state, PpuState::Hblank);
    assert_eq!(ppu.m_cycles_passed, 0);
    assert_eq!(if_register, 0);
}

#[test]
fn a_line_pushes_its_160_pixels_and_nothing_else() {
    let mut ppu = GbPpu::new(Screen { frames: 0 }, Mode::DMG);
    ppu.lcd_control = 0x91;
    let mut if_register = 0u8;
    // The first m-cycle starts the OAM search of line 0; the rest of the line follows.
    ppu.cycle(1, &mut if_register, false, &no_objects).unwrap();
    ppu.cycle(100, &mut if_register, false, &no_objects).unwrap();
    assert_eq!(ppu.ly_register, 0);
    assert_eq!(ppu.next_state, PpuState::Hblank);
    assert_eq!(ppu.pixel_x_pos, 160);
    assert_eq!(ppu.screen_buffer_index, 160);
    let buffer = ppu.current_screen_buffer_index;
    // An empty tile map and tile data draw color 0, white with the default palette.
    for i in 0..160 {
        assert_eq!(ppu.screen_buffers[buffer][i], u16::from(WHITE));
    }
    for i in 160..FRAME_SIZE {
        assert_eq!(ppu.screen_buffers[buffer][i], 0);
    }
    assert!(ppu.screen_buffers[1 - buffer].iter().all(|p| *p == 0));
    // The next line starts at index 160.
    ppu.cycle(13, &mut if_register, false, &no_objects).unwrap();
    assert_eq!(ppu.ly_register, 1);
    assert_eq!(ppu.screen_buffer_index, 160);
}

#[test]
fn cgb_tile_attributes_pick_the_background_palette() {
    let mut ppu = GbPpu::new(Screen { frames: 0 }, Mode::CGB);
    ppu.lcd_control = 0x91;
    // Tile map entry 0 uses CGB palette 1, entry 1 palette 0.
    ppu.vram.set_bank_reg(1);
    ppu.vram.write_current_bank(0x1800, 0x01);
    ppu.vram.set_bank_reg(0);
    // Color 0 of palette 1 is white (BGR555 0x7FFF); palette 0 stays black.
    ppu.bg_color_ram[8] = 0xFF;
    ppu.bg_color_ram[9] = 0x7F;
    let mut if_register = 0u8;
    ppu.cycle(1, &mut if_register, true, &no_objects).unwrap();
    ppu.cycle(100, &mut if_register, true, &no_objects).unwrap();
    assert_eq!(ppu.pixel_x_pos, 160);
    let buffer = ppu.current_screen_buffer_index;
    let first = ppu.screen_buffers[buffer][0];
    let second = ppu.screen_buffers[buffer][8];
    assert!((0..8).all(|i| ppu.screen_buffers[buffer][i] == first));
    assert!((8..16).all(|i| ppu.screen_buffers[buffer][i] == second));
    assert_ne!(first, second);
    assert_eq!(second, ppu.screen_buffers[buffer][159]);
}

#[test]
fn a_selected_mode_interrupt_raises_the_stat_bit_of_if() {
    let mut ppu = GbPpu::new(Screen { frames: 0 }, Mode::DMG);
    ppu.lcd_control = 0x91;
    // STAT bit 5 selects the OAM search interrupt.
    update_stat_register(0x20, &mut ppu);
    let mut if_register = 0u8;
    // Line 0 ends, and the OAM search of line 1 raises the STAT interrupt.
    ppu.cycle(1, &mut if_register, false, &no_objects).unwrap();
    ppu.cycle(113, &mut if_register, false, &no_objects).unwrap();
    assert_eq!(ppu.ly_register, 1);
    assert_eq!(if_register & 0b10, 0b10);
    // Without a source selected nothing is raised.
    let mut quiet = GbPpu::new(Screen { frames: 0 }, Mode::DMG);
    quiet.lcd_control = 0x91;
    let mut if_quiet = 0u8;
    quiet.cycle(1, &mut if_quiet, false, &no_objects).unwrap();
    quiet.cycle(113, &mut if_quiet, false, &no_objects).unwrap();
    assert_eq!(if_quiet & 0b10, 0);
}
