use vstd::prelude::*;
use crate::debugger::{PpuLayer, PPU_BUFFER_SIZE, PPU_BUFFER_WIDTH};
use crate::machine::Mode;
use super::attributes::{GbcBackgroundAttributes, SpriteAttributes, decode_attributes, decode_sprite};
use super::color::{Color, pixel_of};
use super::fifo::background_fetcher::BackgroundPixel;
use super::fifo::sprite_fetcher::SpritePixel;
use super::gb_ppu::{GbPpu, color_ram_color};
use super::gfx_device::{GfxDevice, Pixel};

verus! {

/// The color index of bit `k` of a tile row as the layer views read it: the first byte of
/// the row gives the high bit.
pub open spec fn layer_color_index(first: u8, second: u8, k: int) -> u8 {
    ((((first >> k as u8) & 1) << 1u8) | ((second >> k as u8) & 1)) as u8
}

/// The white of an empty layer view.
pub open spec fn white_pixel() -> Pixel {
    0xFFFF
}

impl<GFX: GfxDevice> GbPpu<GFX> {
    /// Pixel `i` of the view of the whole background map (or window map): 32 by 32 tiles
    /// of 8 by 8 pixels, 256 pixels a row.
    pub open spec fn map_pixel(&self, bg_layer: bool, i: int) -> Pixel {
        let py = i / 256;
        let px = i % 256;
        let layer_mask: u8 = if bg_layer { 0x08 } else { 0x40 };
        let map_address = (if self.lcd_control & layer_mask == 0 { 0x1800int } else { 0x1C00int }) + (py / 8) * 32 + px
            / 8;
        let tile_index = self.vram.byte(0, map_address as u16);
        let tile_address = (if self.lcd_control & 0x10 == 0 && tile_index & 0x80 == 0 {
            0x1000int
        } else {
            0int
        }) + tile_index * 16;
        let first = self.vram.byte(0, (tile_address + 2 * (py % 8)) as u16);
        let second = self.vram.byte(0, (tile_address + 2 * (py % 8) + 1) as u16);
        let attributes: u8 = if self.mode == Mode::CGB { self.vram.byte(1, map_address as u16) } else { 0 };
        pixel_of(
            self.bg_color(
                BackgroundPixel {
                    color_index: layer_color_index(first, second, 7 - px % 8),
                    attributes: decode_attributes(attributes),
                },
            ),
        )
    }

    /// OAM entry `s` as an object.
    pub open spec fn oam_sprite(&self, s: int) -> SpriteAttributes {
        decode_sprite(self.oam@[4 * s], self.oam@[4 * s + 1], self.oam@[4 * s + 2], self.oam@[4 * s + 3], 0, 0)
    }

    /// The bytes of a tile of the objects: 16, or 32 when LCDC bit 2 is set.
    pub open spec fn sprite_tile_size(&self) -> int {
        if self.lcd_control & 0x04 != 0 { 32 } else { 16 }
    }

    /// The color index that object `s` puts at pixel `i` of the objects view, when `i` is in
    /// the object (its x and y taken as the view's coordinates; a row may run on into the
    /// next one).
    pub open spec fn sprite_color_index(&self, s: int, i: int) -> Option<u8> {
        let sprite = self.oam_sprite(s);
        let d = i - (sprite.y * 256 + sprite.x);
        let size = self.sprite_tile_size();
        if 0 <= d && d / 256 < size / 2 && d % 256 < 8 {
            let bank: u8 = if self.mode == Mode::CGB && sprite.attributes.gbc_bank { 1 } else { 0 };
            let tile_address = sprite.tile_number * size;
            let j = d / 256;
            let first = self.vram.byte(bank, (tile_address + 2 * j) as u16);
            let second = self.vram.byte(bank, (tile_address + 2 * j + 1) as u16);
            Some(layer_color_index(first, second, 7 - d % 256))
        } else {
            None
        }
    }

    /// The color of color index `color_index` of object `s`.
    pub open spec fn sprite_view_color(&self, s: int, color_index: u8) -> Color {
        let sprite = self.oam_sprite(s);
        if self.mode == Mode::DMG {
            self.dmg_sprite_color(sprite, SpritePixel { color_index, oam_entry: s as u8 })
        } else {
            color_ram_color(self.obj_color_ram@, sprite.gbc_palette_number, color_index)
        }
    }

    /// The objects view after drawing the first `n` objects of the OAM over `buffer`: each
    /// object's pixels that are not color 0 cover what was there.
    pub open spec fn sprites_drawn(&self, buffer: Seq<Pixel>, n: int) -> Seq<Pixel>
        decreases n,
    {
        if n <= 0 {
            buffer
        } else {
            let before = self.sprites_drawn(buffer, n - 1);
            Seq::new(
                before.len(),
                |i: int|
                    match self.sprite_color_index(n - 1, i) {
                        Some(c) => if c != 0 {
                            pixel_of(self.sprite_view_color(n - 1, c))
                        } else {
                            before[i]
                        },
                        None => before[i],
                    },
            )
        }
    }

    /// The object palettes give a color to every object color but 0.
    pub open spec fn object_palettes_set(&self) -> bool {
        forall|c: int| 1 <= c < 4 ==> self.obj_color_mapping0@[c] is Some && self.obj_color_mapping1@[c] is Some
    }

    /// A view of a layer for the debugger: the background map, the window map, or the
    /// objects drawn on white.
    pub fn get_layer(&self, layer: PpuLayer) -> (r: Box<[Pixel; PPU_BUFFER_SIZE]>)
        requires
            self.wf(),
            layer is Sprites && self.mode == Mode::DMG ==> self.object_palettes_set(),
        ensures
            r@.len() == PPU_BUFFER_SIZE,
            match layer {
                PpuLayer::Background => forall|i: int| 0 <= i < PPU_BUFFER_SIZE ==> r@[i] == self.map_pixel(true, i),
                PpuLayer::Window => forall|i: int| 0 <= i < PPU_BUFFER_SIZE ==> r@[i] == self.map_pixel(false, i),
                PpuLayer::Sprites => r@ == self.sprites_drawn(Seq::new(PPU_BUFFER_SIZE as nat, |i: int| white_pixel()), 40),
            },
    {
        let mut buffer: [Pixel; PPU_BUFFER_SIZE] = [0xFFFF; PPU_BUFFER_SIZE];
        match layer {
            PpuLayer::Background => self.get_bg_or_window_layer(&mut buffer, true),
            PpuLayer::Window => self.get_bg_or_window_layer(&mut buffer, false),
            PpuLayer::Sprites => {
                assert(buffer@ =~= Seq::new(PPU_BUFFER_SIZE as nat, |i: int| white_pixel()));
                self.get_sprite_layer(&mut buffer)
            },
        }
        Box::new(buffer)
    }

    fn get_bg_or_window_layer(&self, buffer: &mut [Pixel; PPU_BUFFER_SIZE], bg_layer: bool)
        requires
            self.wf(),
        ensures
            forall|i: int| 0 <= i < PPU_BUFFER_SIZE ==> final(buffer)@[i] == self.map_pixel(bg_layer, i),
    {
        let layer_mask: u8 = if bg_layer { 0x08 } else { 0x40 };
        let bg_tile_map_addr: usize = if self.lcd_control & layer_mask == 0 { 0x1800 } else { 0x1C00 };
        let mut i: usize = 0;
        while i < PPU_BUFFER_SIZE
            invariant
                self.wf(),
                layer_mask == (if bg_layer { 0x08u8 } else { 0x40u8 }),
                bg_tile_map_addr == (if self.lcd_control & layer_mask == 0 { 0x1800usize } else { 0x1C00usize }),
                i <= PPU_BUFFER_SIZE,
                forall|p: int| 0 <= p < i ==> buffer@[p] == self.map_pixel(bg_layer, p),
            decreases PPU_BUFFER_SIZE - i,
        {
            let py = i / PPU_BUFFER_WIDTH;
            let px = i % PPU_BUFFER_WIDTH;
            let map_address = bg_tile_map_addr + (py / 8) * 32 + px / 8;
            let tile_index = self.vram.read_bank(map_address as u16, 0);
            let bg_tile_data_addr: usize = if self.lcd_control & 0x10 == 0 && tile_index & 0x80 == 0 { 0x1000 } else { 0 };
            let tile_addr = bg_tile_data_addr + tile_index as usize * 16;
            let j = py % 8;
            let k = (7 - px % 8) as u8;
            let first = self.vram.read_bank((tile_addr + j * 2) as u16, 0);
            let second = self.vram.read_bank((tile_addr + j * 2 + 1) as u16, 0);
            let color_index = (((first >> k) & 1) << 1) | ((second >> k) & 1);
            let attributes = if self.mode == Mode::CGB { self.vram.read_bank(map_address as u16, 1) } else { 0 };
            proof {
                lemma_color_index_bound(first, second, k);
            }
            let pixel = BackgroundPixel { color_index, attributes: GbcBackgroundAttributes::new(attributes) };
            let color = self.get_bg_pixel(pixel);
            buffer[i] = u16::from(color);
            i = i + 1;
        }
    }

    fn get_sprite_layer(&self, buffer: &mut [Pixel; PPU_BUFFER_SIZE])
        requires
            self.wf(),
            self.mode == Mode::DMG ==> self.object_palettes_set(),
        ensures
            final(buffer)@ == self.sprites_drawn(old(buffer)@, 40),
    {
        let size: usize = if self.lcd_control & 0x04 != 0 { 32 } else { 16 };
        let mut oam_entry: u8 = 0;
        while oam_entry < 40
            invariant
                self.wf(),
                self.mode == Mode::DMG ==> self.object_palettes_set(),
                size == self.sprite_tile_size(),
                oam_entry <= 40,
                buffer@ == self.sprites_drawn(old(buffer)@, oam_entry as int),
            decreases 40 - oam_entry,
        {
            let base = oam_entry as usize * 4;
            let sprite = SpriteAttributes::new(self.oam[base], self.oam[base + 1], self.oam[base + 2], self.oam[base + 3], 0, 0);
            let tile_address = sprite.tile_number as usize * size;
            let bank: u8 = if self.mode == Mode::CGB && sprite.attributes.gbc_bank { 1 } else { 0 };
            let index_prefix = sprite.y as usize * PPU_BUFFER_WIDTH + sprite.x as usize;
            let ghost before = buffer@;
            let mut j: usize = 0;
            while j < size / 2
                invariant
                    self.wf(),
                    self.mode == Mode::DMG ==> self.object_palettes_set(),
                    size == self.sprite_tile_size(),
                    oam_entry < 40,
                    sprite == self.oam_sprite(oam_entry as int),
                    sprite.gbc_palette_number < 8,
                    tile_address == sprite.tile_number * size,
                    bank == (if self.mode == Mode::CGB && sprite.attributes.gbc_bank { 1u8 } else { 0u8 }),
                    index_prefix == sprite.y * 256 + sprite.x,
                    before == self.sprites_drawn(old(buffer)@, oam_entry as int),
                    before.len() == PPU_BUFFER_SIZE,
                    j <= size / 2,
                    buffer@.len() == PPU_BUFFER_SIZE,
                    forall|i: int| 0 <= i < PPU_BUFFER_SIZE ==> buffer@[i] == (match self.sprite_color_index(oam_entry as int, i) {
                        Some(c) => if c != 0 && (i - index_prefix) / 256 < j {
                            pixel_of(self.sprite_view_color(oam_entry as int, c))
                        } else {
                            before[i]
                        },
                        None => before[i],
                    }),
                decreases size / 2 - j,
            {
                let first = self.vram.read_bank((tile_address + j * 2) as u16, bank);
                let second = self.vram.read_bank((tile_address + j * 2 + 1) as u16, bank);
                let row = index_prefix + j * PPU_BUFFER_WIDTH;
                let mut k: u8 = 0;
                while k < 8
                    invariant
                        self.wf(),
                        self.mode == Mode::DMG ==> self.object_palettes_set(),
                        size == self.sprite_tile_size(),
                        oam_entry < 40,
                        sprite == self.oam_sprite(oam_entry as int),
                        sprite.gbc_palette_number < 8,
                        tile_address == sprite.tile_number * size,
                        bank == (if self.mode == Mode::CGB && sprite.attributes.gbc_bank { 1u8 } else { 0u8 }),
                        index_prefix == sprite.y * 256 + sprite.x,
                        row == index_prefix + j * 256,
                        j < size / 2,
                        first == self.vram.byte(bank, (tile_address + 2 * j) as u16),
                        second == self.vram.byte(bank, (tile_address + 2 * j + 1) as u16),
                        before == self.sprites_drawn(old(buffer)@, oam_entry as int),
                        before.len() == PPU_BUFFER_SIZE,
                        k <= 8,
                        buffer@.len() == PPU_BUFFER_SIZE,
                        forall|i: int| 0 <= i < PPU_BUFFER_SIZE ==> buffer@[i] == (match self.sprite_color_index(oam_entry as int, i) {
                            Some(c) => if c != 0 && ((i - index_prefix) / 256 < j || ((i - index_prefix) / 256 == j && 7 - (i - index_prefix) % 256 < k)) {
                                pixel_of(self.sprite_view_color(oam_entry as int, c))
                            } else {
                                before[i]
                            },
                            None => before[i],
                        }),
                    decreases 8 - k,
                {
                    let color_index = (((first >> k) & 1) << 1) | ((second >> k) & 1);
                    proof {
                        lemma_color_index_bound(first, second, k);
                    }
                    let index = row + (7 - k as usize);
                    if color_index != 0 && index < PPU_BUFFER_SIZE {
                        let sprite_pixel = SpritePixel { color_index, oam_entry };
                        let color = match self.mode {
                            Mode::DMG => self.get_dmg_sprite_pixel(&sprite, sprite_pixel),
                            Mode::CGB => Self::get_color_from_color_ram(&self.obj_color_ram, sprite.gbc_palette_number, color_index),
                        };
                        buffer[index] = u16::from(color);
                    }
                    k = k + 1;
                }
                j = j + 1;
            }
            proof {
                assert(buffer@ =~= self.sprites_drawn(old(buffer)@, oam_entry + 1));
            }
            oam_entry = oam_entry + 1;
        }
    }
}

/// A color index made of one bit of each byte of a tile row is below 4.
proof fn lemma_color_index_bound(first: u8, second: u8, k: u8)
    by (bit_vector)
    ensures
        (((first >> k) & 1) << 1u8) | ((second >> k) & 1) < 4,
{
}

} // verus!
