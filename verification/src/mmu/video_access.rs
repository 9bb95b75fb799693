use vstd::prelude::*;
use crate::ppu::gb_ppu::GbPpu;
use crate::ppu::gfx_device::GfxDevice;
use crate::ppu::ppu_state::PpuState;
use crate::ppu::vram::vram_index;

verus! {

/// What the CPU reads from memory that the PPU holds.
pub const BAD_READ_VALUE: u8 = 0xFF;

/// The CPU can reach the OAM unless the PPU is searching it or drawing.
pub fn is_oam_ready_for_io(state: PpuState) -> (r: bool)
    ensures
        r == (state != PpuState::OamSearch && state != PpuState::PixelTransfer),
{
    state != PpuState::OamSearch && state != PpuState::PixelTransfer
}

/// The CPU can reach the VRAM unless the PPU is drawing.
pub fn is_vram_ready_for_io(state: PpuState) -> (r: bool)
    ensures
        r == (state != PpuState::PixelTransfer),
{
    state != PpuState::PixelTransfer
}

/// The addresses whose access depends on the PPU's mode: the VRAM (0x8000 to 0x9FFF), the OAM
/// (0xFE00 to 0xFE9F) and the unusable area above it (0xFEA0 to 0xFEFF).
pub open spec fn video_address(address: u16) -> bool {
    (0x8000 <= address <= 0x9FFF) || (0xFE00 <= address <= 0xFEFF)
}

/// What a CPU read of a video address gives: the byte of the selected VRAM bank unless the
/// pixel transfer runs, the OAM byte unless the OAM search or the pixel transfer runs, 0xFF
/// while locked, and 0 in the unusable area.
pub open spec fn video_read_value<GFX: GfxDevice>(ppu: &GbPpu<GFX>, address: u16) -> u8 {
    if 0x8000 <= address <= 0x9FFF {
        if ppu.state != PpuState::PixelTransfer {
            ppu.vram.byte(ppu.vram.current_bank, (address - 0x8000) as u16)
        } else {
            BAD_READ_VALUE
        }
    } else if address <= 0xFE9F {
        if ppu.state != PpuState::OamSearch && ppu.state != PpuState::PixelTransfer {
            ppu.oam@[address - 0xFE00]
        } else {
            BAD_READ_VALUE
        }
    } else {
        0
    }
}

/// A CPU read of a video address while no DMA holds the bus (see `video_read_value`).
pub fn read_video<GFX: GfxDevice>(ppu: &GbPpu<GFX>, address: u16) -> (r: u8)
    requires
        ppu.wf(),
        video_address(address),
    ensures
        r == video_read_value(ppu, address),
{
    if address <= 0x9FFF {
        if is_vram_ready_for_io(ppu.state) {
            ppu.vram.read_current_bank(address - 0x8000)
        } else {
            BAD_READ_VALUE
        }
    } else if address <= 0xFE9F {
        if is_oam_ready_for_io(ppu.state) {
            ppu.oam[(address - 0xFE00) as usize]
        } else {
            BAD_READ_VALUE
        }
    } else {
        0
    }
}

/// A CPU write of a video address while no DMA holds the bus: it reaches the selected VRAM
/// bank unless the pixel transfer runs, and the OAM unless the OAM search or the pixel
/// transfer runs; otherwise, and in the unusable area, it is dropped.
pub fn write_video<GFX: GfxDevice>(ppu: &mut GbPpu<GFX>, address: u16, value: u8)
    requires
        old(ppu).wf(),
        video_address(address),
    ensures
        final(ppu).wf(),
        (0x8000 <= address <= 0x9FFF && old(ppu).state != PpuState::PixelTransfer) ==> final(ppu).vram.memory@
            == old(ppu).vram.memory@.update(
            vram_index(old(ppu).vram.current_bank, (address - 0x8000) as u16),
            value,
        ),
        !(0x8000 <= address <= 0x9FFF && old(ppu).state != PpuState::PixelTransfer) ==> final(ppu).vram
            == old(ppu).vram,
        (0xFE00 <= address <= 0xFE9F && old(ppu).state != PpuState::OamSearch && old(ppu).state
            != PpuState::PixelTransfer) ==> final(ppu).oam@ == old(ppu).oam@.update(address - 0xFE00, value),
        !(0xFE00 <= address <= 0xFE9F && old(ppu).state != PpuState::OamSearch && old(ppu).state
            != PpuState::PixelTransfer) ==> final(ppu).oam == old(ppu).oam,
        *final(ppu) == (GbPpu { vram: final(ppu).vram, oam: final(ppu).oam, ..*old(ppu) }),
{
    if address <= 0x9FFF {
        if is_vram_ready_for_io(ppu.state) {
            ppu.vram.write_current_bank(address - 0x8000, value);
        }
    } else if address <= 0xFE9F {
        if is_oam_ready_for_io(ppu.state) {
            ppu.oam[(address - 0xFE00) as usize] = value;
        }
    }
}

} // verus!
