use vstd::prelude::*;
use super::audio_device::{Sample, DEFAULT_SAPMPLE, SAMPLE_MAX};
use super::sample_producer::{SampleProducer, MAX_DIGITAL_SAMPLE};
use super::timer::Timer;

verus! {

/// The analog value of a digital sample: centered on zero and spread over the sample range.
pub open spec fn analog(digital_sample: u8) -> int {
    (digital_sample - MAX_DIGITAL_SAMPLE / 2) * (SAMPLE_MAX / MAX_DIGITAL_SAMPLE as i16)
}

/// A sound channel: a sample producer clocked by a timer, with a length counter.
pub struct Channel<Procuder: SampleProducer> {
    pub enabled: bool,
    pub frequency: u16,
    pub sound_length: u16,
    pub length_enable: bool,
    pub sample_producer: Procuder,
    pub timer: Timer,
    pub last_sample: Sample,
}

impl<Procuder: SampleProducer> Channel<Procuder> {
    /// The sample the channel last output.
    pub open spec fn last_sample(&self) -> Sample {
        self.last_sample
    }

    pub open spec fn wf(&self) -> bool {
        self.timer.wf()
    }

    pub fn new(sample_producer: Procuder) -> (r: Self)
        ensures
            r.wf(),
            !r.enabled,
            r.frequency == 0,
            r.sound_length == 0,
            !r.length_enable,
            r.last_sample() == DEFAULT_SAPMPLE,
            r.timer.counter() == 0,
            r.timer.period() == sample_producer.frequency_ticks(0) >> 2,
            r.sample_producer == sample_producer,
    {
        let ticks = sample_producer.get_updated_frequency_ticks(0);
        Channel {
            enabled: false,
            frequency: 0,
            sound_length: 0,
            length_enable: false,
            timer: Timer::new(ticks),
            sample_producer,
            last_sample: DEFAULT_SAPMPLE,
        }
    }

    /// One step of the length counter: while it is enabled it counts down, and the channel
    /// turns off when it reaches zero.
    pub fn update_length_register(&mut self)
        ensures
            final(self).length_enable == old(self).length_enable,
            final(self).frequency == old(self).frequency,
            final(self).timer == old(self).timer,
            final(self).last_sample() == old(self).last_sample(),
            final(self).sample_producer == old(self).sample_producer,
            !old(self).length_enable ==> final(self).sound_length == old(self).sound_length
                && final(self).enabled == old(self).enabled,
            old(self).length_enable ==> final(self).sound_length == (if old(self).sound_length > 0 {
                old(self).sound_length - 1
            } else {
                0
            }),
            old(self).length_enable ==> final(self).enabled == (old(self).enabled
                && final(self).sound_length != 0),
    {
        if self.length_enable {
            if self.sound_length > 0 {
                self.sound_length = self.sound_length - 1;
            }
            if self.sound_length == 0 {
                self.enabled = false;
            }
        }
    }

    /// Turns the channel off and clears its registers and its producer.
    pub fn reset(&mut self)
        ensures
            final(self).wf(),
            !final(self).enabled,
            final(self).frequency == 0,
            !final(self).length_enable,
            final(self).sound_length == 0,
            final(self).timer.counter() == 0,
            final(self).timer.period() == old(self).sample_producer.frequency_ticks(0) >> 2,
            final(self).last_sample() == DEFAULT_SAPMPLE,
    {
        self.enabled = false;
        self.frequency = 0;
        self.length_enable = false;
        self.sound_length = 0;
        let ticks = self.sample_producer.get_updated_frequency_ticks(self.frequency);
        self.timer.update_cycles_to_tick(ticks);
        self.sample_producer.reset();
        self.last_sample = DEFAULT_SAPMPLE;
    }

    /// The channel's sample for this m-cycle: silence when it is off; otherwise a new
    /// sample from the producer when the timer ticks, else the last one again.
    pub fn get_audio_sample(&mut self) -> (r: Sample)
        requires
            old(self).wf(),
        ensures
            final(self).wf(),
            r == final(self).last_sample(),
            final(self).enabled == old(self).enabled,
            final(self).frequency == old(self).frequency,
            final(self).sound_length == old(self).sound_length,
            final(self).length_enable == old(self).length_enable,
            !old(self).enabled ==> r == DEFAULT_SAPMPLE && final(self).timer == old(self).timer,
            old(self).enabled && old(self).timer.period() != 0 && (old(self).timer.counter() + 1)
                % (old(self).timer.period() as int) != 0 ==> r == old(self).last_sample()
                && final(self).timer.counter() == (old(self).timer.counter() + 1) % (
            old(self).timer.period() as int) && final(self).timer.period() == old(self).timer.period(),
            old(self).enabled && (old(self).timer.period() == 0) ==> r == old(self).last_sample(),
            old(self).enabled && old(self).timer.period() != 0 && (old(self).timer.counter() + 1)
                % (old(self).timer.period() as int) == 0 ==> {
                &&& r == analog(old(self).sample_producer.next_sample())
                &&& final(self).timer.period() == old(self).sample_producer.frequency_ticks(old(self).frequency) >> 2
                &&& final(self).timer.counter() == 0
            },
            !(old(self).enabled && old(self).timer.period() != 0 && (old(self).timer.counter() + 1)
                % (old(self).timer.period() as int) == 0) ==> final(self).sample_producer == old(self).sample_producer,
    {
        if self.enabled {
            if self.timer.cycle() {
                let ticks = self.sample_producer.get_updated_frequency_ticks(self.frequency);
                self.timer.update_cycles_to_tick(ticks);
                let digital_sample = self.sample_producer.produce();
                self.last_sample = Self::convert_digital_to_analog(digital_sample);
            }
        } else {
            self.last_sample = DEFAULT_SAPMPLE;
        }
        self.last_sample
    }

    fn convert_digital_to_analog(digital_sample: u8) -> (r: Sample)
        ensures
            r == analog(digital_sample),
    {
        let ratio: Sample = SAMPLE_MAX / (MAX_DIGITAL_SAMPLE as Sample);
        assert(ratio == 68);
        (digital_sample as Sample - (MAX_DIGITAL_SAMPLE as Sample / 2)) * ratio
    }
}

} // verus!
