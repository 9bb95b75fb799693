use vstd::prelude::*;
use super::audio_device::{DEFAULT_SAPMPLE, Sample};
use super::NUMBER_OF_CHANNELS;

verus! {

pub type ChannelMask = u16;

pub const ENABLE_MASK: ChannelMask = 0xFFFF;

pub const DISABLE_MASK: ChannelMask = 0x0;

/// One output side of the mixer: which channels it plays, and its master volume.
pub struct SoundTerminal {
    pub volume: u8,
    pub channel_masks: [ChannelMask; NUMBER_OF_CHANNELS],
}

impl Default for SoundTerminal {
    fn default() -> (r: Self)
        ensures
            r.wf(),
            r.volume == 0,
            forall|i: int| 0 <= i < NUMBER_OF_CHANNELS ==> !r.enabled(i),
    {
        SoundTerminal { channel_masks: [DISABLE_MASK; NUMBER_OF_CHANNELS], volume: 0 }
    }
}

/// The sample of channel `i` as the terminal hears it: itself when enabled, else silence.
pub open spec fn heard(terminal: SoundTerminal, samples: Seq<Sample>, i: int) -> int {
    if terminal.enabled(i) {
        samples[i] as int
    } else {
        0
    }
}

/// The sum of what the terminal hears of the first `n` channels.
pub open spec fn heard_sum(terminal: SoundTerminal, samples: Seq<Sample>, n: int) -> int
    decreases n,
{
    if n <= 0 {
        0
    } else {
        heard_sum(terminal, samples, n - 1) + heard(terminal, samples, n - 1)
    }
}

/// No partial sum of the heard samples leaves the range of a sample.
pub open spec fn sums_fit(terminal: SoundTerminal, samples: Seq<Sample>) -> bool {
    forall|n: int| 1 <= n <= NUMBER_OF_CHANNELS ==> i16::MIN <= #[trigger] heard_sum(terminal, samples, n) <= i16::MAX
}

/// The mixed sample: the heard sum divided by 4 (rounding down), times the volume plus one.
pub open spec fn mixed(terminal: SoundTerminal, samples: Seq<Sample>) -> int {
    (heard_sum(terminal, samples, 4) / 4) * (terminal.volume + 1)
}

impl SoundTerminal {
    /// Whether channel `i` is played on this terminal.
    pub open spec fn enabled(&self, i: int) -> bool {
        self.channel_masks@[i] == ENABLE_MASK
    }

    pub open spec fn wf(&self) -> bool {
        forall|i: int| 0 <= i < NUMBER_OF_CHANNELS ==> #[trigger] self.channel_masks@[i] == ENABLE_MASK
            || self.channel_masks@[i] == DISABLE_MASK
    }

    /// Plays channel `channel` on this terminal or not.
    pub fn set_channel_state(&mut self, channel: usize, state: bool)
        requires
            old(self).wf(),
            channel < NUMBER_OF_CHANNELS,
        ensures
            final(self).wf(),
            final(self).volume == old(self).volume,
            final(self).enabled(channel as int) == state,
            forall|i: int| 0 <= i < NUMBER_OF_CHANNELS && i != channel ==> final(self).enabled(i) == old(self).enabled(i),
    {
        self.channel_masks[channel] = if state { ENABLE_MASK } else { DISABLE_MASK };
    }

    fn heard_sample(sample: Sample, mask: ChannelMask) -> (r: Sample)
        requires
            mask == ENABLE_MASK || mask == DISABLE_MASK,
        ensures
            r == if mask == ENABLE_MASK { sample } else { 0 },
    {
        let m = #[verifier::truncate] (mask as i16);
        assert((mask == 0xFFFFu16 ==> m == -1) && (mask == 0u16 ==> m == 0)) by (bit_vector)
            requires
                mask == 0xFFFFu16 || mask == 0u16,
                m == mask as i16,
        ;
        let r = sample & m;
        assert(r == if m == -1 { sample } else { 0 }) by (bit_vector)
            requires
                m == -1i16 || m == 0i16,
                r == sample & m,
        ;
        r
    }

    /// Mixes the channels' samples the terminal plays.
    pub fn mix_terminal_samples(&self, samples: &[Sample; NUMBER_OF_CHANNELS]) -> (r: Sample)
        requires
            self.wf(),
            self.volume < 255,
            sums_fit(*self, samples@),
            i16::MIN <= mixed(*self, samples@) <= i16::MAX,
        ensures
            r == mixed(*self, samples@),
    {
        proof {
            reveal_with_fuel(heard_sum, 5);
            assert(i16::MIN <= heard_sum(*self, samples@, 2) <= i16::MAX);
            assert(i16::MIN <= heard_sum(*self, samples@, 3) <= i16::MAX);
            assert(i16::MIN <= heard_sum(*self, samples@, 4) <= i16::MAX);
            assert(self.channel_masks@[0] == ENABLE_MASK || self.channel_masks@[0] == DISABLE_MASK);
            assert(self.channel_masks@[1] == ENABLE_MASK || self.channel_masks@[1] == DISABLE_MASK);
            assert(self.channel_masks@[2] == ENABLE_MASK || self.channel_masks@[2] == DISABLE_MASK);
            assert(self.channel_masks@[3] == ENABLE_MASK || self.channel_masks@[3] == DISABLE_MASK);
        }
        let mut mixed_sample: Sample = DEFAULT_SAPMPLE;
        mixed_sample = mixed_sample + Self::heard_sample(samples[0], self.channel_masks[0]);
        mixed_sample = mixed_sample + Self::heard_sample(samples[1], self.channel_masks[1]);
        mixed_sample = mixed_sample + Self::heard_sample(samples[2], self.channel_masks[2]);
        mixed_sample = mixed_sample + Self::heard_sample(samples[3], self.channel_masks[3]);
        let total = mixed_sample;
        mixed_sample = mixed_sample >> 2;
        assert(mixed_sample == total / 4) by (bit_vector)
            requires
                mixed_sample == total >> 2,
        ;
        let factor = (self.volume + 1) as Sample;
        mixed_sample * factor
    }
}

/// What a terminal does not play does not matter: two sample sets that differ only on
/// channels the terminal has off mix to the same sample.
pub proof fn lemma_disabled_channels_are_silent(terminal: SoundTerminal, a: Seq<Sample>, b: Seq<Sample>, n: int)
    requires
        0 <= n <= NUMBER_OF_CHANNELS,
        a.len() == NUMBER_OF_CHANNELS,
        b.len() == NUMBER_OF_CHANNELS,
        forall|i: int| 0 <= i < NUMBER_OF_CHANNELS && terminal.enabled(i) ==> a[i] == b[i],
    ensures
        heard_sum(terminal, a, n) == heard_sum(terminal, b, n),
        n == NUMBER_OF_CHANNELS ==> mixed(terminal, a) == mixed(terminal, b),
    decreases n,
{
    if n > 0 {
        lemma_disabled_channels_are_silent(terminal, a, b, n - 1);
    }
}

} // verus!
