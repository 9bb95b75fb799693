use vstd::prelude::*;

verus! {

/// Max value for a digital sample, according to the Pan Docs.
pub const MAX_DIGITAL_SAMPLE: u8 = 0xF;

/// The sound generator of a channel.
pub trait SampleProducer {
    /// The digital sample that the producer gives next.
    spec fn next_sample(&self) -> u8;

    /// The period, in t-cycles, between two samples at frequency register value `freq`.
    spec fn frequency_ticks(&self, freq: u16) -> u16;

    /// Produces a digital sample, in the range 0 to `MAX_DIGITAL_SAMPLE`.
    fn produce(&mut self) -> (r: u8)
        ensures
            r == old(self).next_sample(),
    ;

    /// The period, in t-cycles, between two samples at the given frequency register value.
    fn get_updated_frequency_ticks(&self, freq: u16) -> (r: u16)
        ensures
            r == self.frequency_ticks(freq),
    ;

    fn reset(&mut self);
}

} // verus!
