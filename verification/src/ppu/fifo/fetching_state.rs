use vstd::prelude::*;

verus! {

/// The steps of a pixel fetcher; each takes 2 t-cycles, so the real steps alternate with
/// sleeps.
#[derive(Clone, Copy, PartialEq, Eq, Structural, Debug)]
pub enum FetchingState {
    FetchTileNumber,
    FetchLowTile,
    FetchHighTile,
    Push,
    Sleep,
}

/// What the fetcher has read of the current tile.
#[derive(Clone, Copy)]
pub struct FetchingStateData {
    pub tile_data_address: u16,
    pub tile_data: u8,
    pub low_tile_data: u8,
    pub high_tile_data: u8,
}

impl FetchingStateData {
    pub open spec fn is_clear(&self) -> bool {
        &&& self.tile_data_address == 0
        &&& self.tile_data == 0
        &&& self.low_tile_data == 0
        &&& self.high_tile_data == 0
    }

    pub fn reset(&mut self)
        ensures
            final(self).is_clear(),
    {
        self.tile_data_address = 0;
        self.high_tile_data = 0;
        self.low_tile_data = 0;
        self.tile_data = 0;
    }
}

/// A cycle of 8 fetcher steps and the data read so far.
pub struct FetcherStateMachine {
    pub data: FetchingStateData,
    pub state: usize,
    pub state_machine: [FetchingState; 8],
}

impl FetcherStateMachine {
    pub open spec fn wf(&self) -> bool {
        self.state < 8
    }

    /// The step the fetcher is at.
    pub open spec fn current(&self) -> FetchingState {
        self.state_machine@[self.state as int]
    }

    /// Moves on to the next step, back to the first after the last.
    pub fn advance(&mut self)
        requires
            old(self).wf(),
        ensures
            final(self).wf(),
            final(self).state == (old(self).state + 1) % 8,
            final(self).state_machine == old(self).state_machine,
            final(self).data == old(self).data,
    {
        self.state = (self.state + 1) % 8;
    }

    pub fn new(state_machine: [FetchingState; 8]) -> (r: Self)
        ensures
            r.wf(),
            r.state == 0,
            r.state_machine == state_machine,
            r.data.is_clear(),
    {
        Self {
            data: FetchingStateData { tile_data_address: 0, high_tile_data: 0, low_tile_data: 0, tile_data: 0 },
            state: 0,
            state_machine,
        }
    }

    /// Back to the first step, with nothing read.
    pub fn reset(&mut self)
        ensures
            final(self).wf(),
            final(self).state == 0,
            final(self).state_machine == old(self).state_machine,
            final(self).data.is_clear(),
    {
        self.state = 0;
        self.data.reset();
    }

    pub fn current_state(&self) -> (r: &FetchingState)
        requires
            self.wf(),
        ensures
            *r == self.current(),
    {
        &self.state_machine[self.state]
    }
}

} // verus!
