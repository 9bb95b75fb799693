use lib::mmu::io_bus::{read_ppu_register, start_cgb_without_bootrom, write_key0, write_ppu_register};
use lib::mmu::flat_memory::FlatMemory;
use lib::mmu::vram_dma_controller::VramDmaController;
use lib::machine::Mode;
use lib::mmu::Memory;
use lib::mmu::video_access::{read_video, write_video, is_oam_ready_for_io, is_vram_ready_for_io};
use lib::ppu::gb_ppu::GbPpu;
use lib::ppu::gfx_device::{GfxDevice, Pixel, FRAME_SIZE};
use lib::ppu::ppu_state::PpuState;

struct Screen;

impl GfxDevice for Screen {
    fn swap_buffer(&mut self, _buffer: &[Pixel; FRAME_SIZE]) {}
}

fn bus_with_counting_bytes() -> FlatMemory {
    let bytes: Vec<u8> = (0..0x10000usize).map(|i| (i & 0xFF) as u8).collect();
    FlatMemory::new(bytes)
}

#[test]
fn dma_addresses_drop_their_low_bits() {
    let mut dma = VramDmaController::new();
    dma.set_source_high(0xC1);
    dma.set_source_low(0x2F);
    dma.set_dest_high(0xFF);
    dma.set_dest_low(0x1F);
    assert_eq!(dma.get_mode_length(), 0xFF);
    assert!(!dma.should_block_cpu());
}

#[test]
fn dma_length_reads_back() {
    let mut dma = VramDmaController::new();
    dma.set_mode_length(0x05);
    assert!(dma.should_block_cpu());
    assert_eq!(dma.get_mode_length(), 0x05);

    let mut dma = VramDmaController::new();
    dma.set_mode_length(0x80 | 0x10);
    assert!(!dma.should_block_cpu());
    assert_eq!(dma.get_mode_length(), 0x10);
    // A write with bit 7 clear stops an hblank transfer.
    dma.set_mode_length(0x00);
    assert!(!dma.should_block_cpu());
    dma.set_mode_length(0x01);
    assert!(dma.should_block_cpu());
}

#[test]
fn flat_memory_reads_what_was_written() {
    let mut memory = FlatMemory::new(vec![0; 0x100]);
    memory.write(0x10, 0xAB, 1);
    assert_eq!(memory.read(0x10, 1), 0xAB);
    assert_eq!(memory.read(0x200, 1), 0xFF);
    memory.write(0x200, 1, 1);
    assert_eq!(memory.peek(0x200), 0xFF);
    memory.set_halt(true);
    assert!(memory.is_halted());
    memory.set_double_speed_mode(true);
    assert!(memory.is_double_speed());
}

#[test]
fn general_purpose_transfer_copies_blocks_to_vram() {
    let mut bus = bus_with_counting_bytes();
    let mut ppu = GbPpu::new(Screen, Mode::CGB);
    let mut dma = VramDmaController::new();
    dma.set_source_high(0xC1);
    dma.set_source_low(0x20);
    dma.set_dest_high(0x80);
    dma.set_dest_low(0x40);
    dma.set_mode_length(0x01);
    // Two blocks: 0x20 bytes, 2 bytes per m-cycle.
    dma.cycle(10, &mut bus, &mut ppu);
    assert!(dma.should_block_cpu());
    assert_eq!(ppu.vram.read_bank(0x40, 0), 0x20);
    assert_eq!(ppu.vram.read_bank(0x53, 0), 0x33);
    assert_eq!(ppu.vram.read_bank(0x54, 0), 0);
    dma.cycle(100, &mut bus, &mut ppu);
    assert!(!dma.should_block_cpu());
    assert_eq!(dma.get_mode_length(), 0xFF);
    assert_eq!(ppu.vram.read_bank(0x5F, 0), 0x3F);
    assert_eq!(ppu.vram.read_bank(0x60, 0), 0);
}

#[test]
fn hblank_transfer_copies_one_block_per_line() {
    let mut bus = bus_with_counting_bytes();
    let mut ppu = GbPpu::new(Screen, Mode::CGB);
    let mut dma = VramDmaController::new();
    dma.set_source_high(0xD0);
    dma.set_source_low(0x00);
    dma.set_dest_high(0x01);
    dma.set_dest_low(0x00);
    dma.set_mode_length(0x80 | 0x01);
    ppu.state = PpuState::OamSearch;
    dma.cycle(50, &mut bus, &mut ppu);
    assert_eq!(ppu.vram.read_bank(0x100, 0), 0);
    ppu.state = PpuState::Hblank;
    ppu.ly_register = 5;
    dma.cycle(50, &mut bus, &mut ppu);
    assert_eq!(ppu.vram.read_bank(0x10F, 0), 0x0F);
    assert_eq!(ppu.vram.read_bank(0x110, 0), 0);
    assert_eq!(dma.get_mode_length(), 0);
    // The same line gets no second block.
    dma.cycle(50, &mut bus, &mut ppu);
    assert_eq!(ppu.vram.read_bank(0x110, 0), 0);
    ppu.ly_register = 6;
    dma.cycle(3, &mut bus, &mut ppu);
    assert_eq!(ppu.vram.read_bank(0x115, 0), 0x15);
    assert_eq!(ppu.vram.read_bank(0x116, 0), 0);
    dma.cycle(50, &mut bus, &mut ppu);
    assert_eq!(ppu.vram.read_bank(0x11F, 0), 0x1F);
    assert_eq!(dma.get_mode_length(), 0xFF);
}

#[test]
fn key0_picks_the_mode_only_during_boot() {
    let mut key0 = 0u8;
    let mut cgb = true;
    write_key0(&mut key0, false, &mut cgb, 0x04);
    assert_eq!(key0, 0x04);
    assert!(!cgb);
    write_key0(&mut key0, false, &mut cgb, 0x80);
    assert!(cgb);
    write_key0(&mut key0, true, &mut cgb, 0x04);
    assert_eq!(key0, 0x04);
    assert!(cgb);
}

#[test]
fn a_cgb_without_boot_rom_sets_the_dmg_compatibility_palettes() {
    let mut ppu = GbPpu::new(Screen, Mode::CGB);
    let mut key0 = 0u8;
    let mut cgb = true;
    start_cgb_without_bootrom(&mut ppu, &mut key0, &mut cgb, 0x00);
    assert_eq!(key0, 0x04);
    assert!(!cgb);
    assert!(!ppu.cgb_priority_mode);
    assert_eq!(&ppu.bg_color_ram[0..4], &[0xFF, 0x7F, 0xEF, 0x1B]);
    assert_eq!(&ppu.bg_color_ram[6..8], &[0x00, 0x00]);
    assert_eq!(&ppu.obj_color_ram[0..2], &[0xFF, 0x7F]);
    assert_eq!(ppu.obj_color_ram[0..8], ppu.obj_color_ram[8..16]);
    assert_eq!(ppu.obj_color_ram[16], 0);
    assert_eq!(ppu.bg_color_pallete_index, 0x88);
    assert_eq!(ppu.obj_color_pallete_index, 0x90);
}

#[test]
fn a_cgb_game_without_boot_rom_keeps_the_cgb_mode() {
    let mut ppu = GbPpu::new(Screen, Mode::CGB);
    let mut key0 = 0u8;
    let mut cgb = false;
    start_cgb_without_bootrom(&mut ppu, &mut key0, &mut cgb, 0x80);
    assert_eq!(key0, 0x80);
    assert!(cgb);
    assert!(ppu.cgb_priority_mode);
    assert_eq!(ppu.bg_color_ram[0], 0);
}

#[test]
fn vram_is_locked_during_the_pixel_transfer() {
    let mut ppu = GbPpu::new(Screen, Mode::CGB);
    ppu.state = PpuState::OamSearch;
    write_video(&mut ppu, 0x8010, 0x5A);
    assert_eq!(read_video(&ppu, 0x8010), 0x5A);
    ppu.vram.set_bank_reg(1);
    assert_eq!(read_video(&ppu, 0x8010), 0);
    write_video(&mut ppu, 0x9FFF, 0x11);
    assert_eq!(ppu.vram.read_bank(0x1FFF, 1), 0x11);
    ppu.state = PpuState::PixelTransfer;
    assert_eq!(read_video(&ppu, 0x9FFF), 0xFF);
    write_video(&mut ppu, 0x9FFF, 0x22);
    assert_eq!(ppu.vram.read_bank(0x1FFF, 1), 0x11);
    ppu.state = PpuState::Hblank;
    assert_eq!(read_video(&ppu, 0x9FFF), 0x11);
}

#[test]
fn oam_is_locked_during_the_oam_search_and_the_pixel_transfer() {
    let mut ppu = GbPpu::new(Screen, Mode::DMG);
    ppu.state = PpuState::Vblank;
    write_video(&mut ppu, 0xFE9F, 0x77);
    assert_eq!(ppu.oam[0x9F], 0x77);
    assert_eq!(read_video(&ppu, 0xFE9F), 0x77);
    for state in [PpuState::OamSearch, PpuState::PixelTransfer] {
        ppu.state = state;
        assert_eq!(read_video(&ppu, 0xFE9F), 0xFF);
        write_video(&mut ppu, 0xFE9F, 0x01);
        assert_eq!(ppu.oam[0x9F], 0x77);
    }
    ppu.state = PpuState::Hblank;
    assert_eq!(read_video(&ppu, 0xFE00), 0);
    assert_eq!(read_video(&ppu, 0xFE9F), 0x77);
}

#[test]
fn the_unusable_area_reads_0_and_drops_writes() {
    let mut ppu = GbPpu::new(Screen, Mode::DMG);
    write_video(&mut ppu, 0xFEA0, 0x33);
    assert_eq!(read_video(&ppu, 0xFEA0), 0);
    assert_eq!(read_video(&ppu, 0xFEFF), 0);
    assert!(ppu.oam.iter().all(|b| *b == 0));
    assert!(is_vram_ready_for_io(PpuState::OamSearch));
    assert!(!is_oam_ready_for_io(PpuState::OamSearch));
    assert!(!is_vram_ready_for_io(PpuState::PixelTransfer));
    assert!(is_oam_ready_for_io(PpuState::Vblank));
}

#[test]
fn ppu_registers_read_through_the_io_bus() {
    let mut ppu = GbPpu::new(Screen, Mode::CGB);
    ppu.lcd_control = 0x91;
    ppu.stat_register = 0x45;
    ppu.bg_pos.y = 3;
    ppu.bg_pos.x = 4;
    ppu.ly_register = 5;
    ppu.lyc_register = 6;
    ppu.bg_palette_register = 0xE4;
    ppu.window_pos.y = 9;
    ppu.window_pos.x = 10;
    let reads: Vec<Option<u8>> = (0xFF40u16..=0xFF4B).map(|a| read_ppu_register(&ppu, a, false)).collect();
    assert_eq!(
        reads,
        vec![Some(0x91), Some(0x45), Some(3), Some(4), Some(5), Some(6), None, Some(0xE4), Some(0), Some(0), Some(9), Some(17)]
    );
    // The CGB registers answer only in CGB mode.
    ppu.bg_color_ram[5] = 0x66;
    ppu.bg_color_pallete_index = 0x85;
    ppu.vram.set_bank_reg(1);
    assert_eq!(read_ppu_register(&ppu, 0xFF69, false), None);
    assert_eq!(read_ppu_register(&ppu, 0xFF69, true), Some(0x66));
    assert_eq!(read_ppu_register(&ppu, 0xFF68, true), Some(0x85));
    assert_eq!(read_ppu_register(&ppu, 0xFF4F, true), Some(1));
    assert_eq!(read_ppu_register(&ppu, 0xFF6C, true), Some(1));
    assert_eq!(read_ppu_register(&ppu, 0xFF00, true), None);
}

#[test]
fn ppu_registers_read_back_what_the_io_bus_wrote() {
    let mut ppu = GbPpu::new(Screen, Mode::DMG);
    for (address, value, expected) in [
        (0xFF42u16, 0x12u8, 0x12u8),
        (0xFF43, 0x34, 0x34),
        (0xFF45, 0x56, 0x56),
        (0xFF47, 0xE4, 0xE4),
        (0xFF48, 0x1B, 0x1B),
        (0xFF49, 0x6C, 0x6C),
        (0xFF4A, 0x20, 0x20),
        (0xFF4B, 0x30, 0x30),
        (0xFF4B, 0x03, 0x07),
    ] {
        assert!(write_ppu_register(&mut ppu, address, value, false));
        assert_eq!(read_ppu_register(&ppu, address, false), Some(expected));
    }
    // LY is read only, DMA is not the PPU's, and the CGB registers answer only in CGB mode.
    assert!(!write_ppu_register(&mut ppu, 0xFF44, 9, false));
    assert_eq!(ppu.ly_register, 0);
    assert!(!write_ppu_register(&mut ppu, 0xFF46, 9, false));
    assert!(!write_ppu_register(&mut ppu, 0xFF68, 0x80, false));
    assert_eq!(ppu.bg_color_pallete_index, 0);
    // STAT keeps its read only bits.
    ppu.stat_register = 0b0000_0110;
    assert!(write_ppu_register(&mut ppu, 0xFF41, 0xFF, false));
    assert_eq!(ppu.stat_register, 0b0111_1110);
    assert!(ppu.oam_search_interrupt_request && ppu.coincidence_interrupt_request);
}

#[test]
fn cgb_color_data_writes_move_the_index_on() {
    let mut ppu = GbPpu::new(Screen, Mode::CGB);
    ppu.state = PpuState::Hblank;
    assert!(write_ppu_register(&mut ppu, 0xFF68, 0x80 | 0x3F, true));
    assert!(write_ppu_register(&mut ppu, 0xFF69, 0x42, true));
    assert_eq!(ppu.bg_color_ram[0x3F], 0x42);
    // The index wraps from 63 to 0 and keeps bit 7.
    assert_eq!(read_ppu_register(&ppu, 0xFF68, true), Some(0x80));
    assert!(write_ppu_register(&mut ppu, 0xFF4F, 0xFF, true));
    assert_eq!(read_ppu_register(&ppu, 0xFF4F, true), Some(1));
    assert!(write_ppu_register(&mut ppu, 0xFF6C, 0x01, true));
    assert_eq!(read_ppu_register(&ppu, 0xFF6C, true), Some(0));
    assert!(!write_ppu_register(&mut ppu, 0xFF70, 0x01, true));
}
