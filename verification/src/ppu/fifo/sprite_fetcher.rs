use vstd::prelude::*;
use crate::utils::fixed_size_queue::FixedSizeQueue;
use crate::ppu::attributes::{SpriteAttributes, decode_sprite};
use super::FIFO_SIZE;

verus! {

pub const NORMAL_SPRITE_HIGHT: u8 = 8;

pub const EXTENDED_SPRITE_HIGHT: u8 = 16;

pub const MAX_SPRITES_PER_LINE: usize = 10;

/// An object pixel waiting in the FIFO: its color index and the object it belongs to.
#[derive(Clone, Copy)]
pub struct SpritePixel {
    pub color_index: u8,
    pub oam_entry: u8,
}

impl Default for SpritePixel {
    fn default() -> (r: Self)
        ensures
            r.color_index == 0,
            r.oam_entry == 0,
    {
        SpritePixel { color_index: 0, oam_entry: 0 }
    }
}

/// The objects of the current line, in the order they are drawn, and the FIFO of their
/// pixels.
pub struct SpriteFetcher {
    pub fifo: FixedSizeQueue<SpritePixel, FIFO_SIZE>,
    pub oam_entries: [SpriteAttributes; MAX_SPRITES_PER_LINE],
    pub oam_entries_len: u8,
    pub rendering: bool,
}

impl SpriteFetcher {
    pub open spec fn wf(&self) -> bool {
        &&& self.fifo.wf()
        &&& self.oam_entries_len <= MAX_SPRITES_PER_LINE
    }

    /// The objects of the current line.
    pub open spec fn entries(&self) -> Seq<SpriteAttributes> {
        self.oam_entries@.subrange(0, self.oam_entries_len as int)
    }

    pub fn new() -> (r: Self)
        ensures
            r.wf(),
            r.fifo@.len() == 0,
            r.oam_entries_len == 0,
            !r.rendering,
            r.oam_entries@ == Seq::new(MAX_SPRITES_PER_LINE as nat, |i: int| decode_sprite(0, 0, 0, 0, 0, 0)),
    {
        let blank = SpriteAttributes::new(0, 0, 0, 0, 0, 0);
        let r = SpriteFetcher {
            fifo: FixedSizeQueue::new(),
            oam_entries: [blank; MAX_SPRITES_PER_LINE],
            oam_entries_len: 0,
            rendering: false,
        };
        assert(r.oam_entries@ =~= Seq::new(MAX_SPRITES_PER_LINE as nat, |i: int| decode_sprite(0, 0, 0, 0, 0, 0)));
        r
    }

    /// Forgets the objects of the line and their pixels.
    pub fn reset(&mut self)
        requires
            old(self).wf(),
        ensures
            final(self).wf(),
            final(self).fifo@.len() == 0,
            final(self).oam_entries_len == 0,
            !final(self).rendering,
            final(self).oam_entries == old(self).oam_entries,
    {
        self.fifo.clear();
        self.oam_entries_len = 0;
        self.rendering = false;
    }
}

} // verus!
