pub mod ppu_state;
pub mod color;
pub mod gfx_device;
pub mod attributes;
pub mod vram;
pub mod fifo;
pub mod gb_ppu;
pub mod ppu_register_updater;
pub mod sprite_selection;
pub mod layers;
pub mod timing;
