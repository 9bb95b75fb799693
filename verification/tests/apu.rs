use lib::apu::audio_device::{StereoSample, SAMPLE_MAX};
use lib::apu::channel::Channel;
use lib::apu::sample_producer::SampleProducer;
use lib::apu::sound_terminal::SoundTerminal;

#[test]
fn interpolate_averages_each_side_toward_zero() {
    let samples = [
        StereoSample { left_sample: 10, right_sample: -10 },
        StereoSample { left_sample: 5, right_sample: -5 },
    ];
    let avg = StereoSample::interpolate(&samples);
    assert_eq!(avg.left_sample, 7);
    assert_eq!(avg.right_sample, -7);
}

#[test]
fn interpolate_of_extreme_samples_does_not_overflow() {
    let samples = [StereoSample { left_sample: i16::MAX, right_sample: i16::MIN }; 3];
    let avg = StereoSample::interpolate(&samples);
    assert_eq!(avg.left_sample, i16::MAX);
    assert_eq!(avg.right_sample, i16::MIN);
}

#[test]
fn silent_sample_is_zero() {
    let s = StereoSample::const_defualt();
    assert_eq!(s.left_sample, 0);
    assert_eq!(s.right_sample, 0);
}

#[test]
fn terminal_mixes_only_enabled_channels() {
    let mut terminal = SoundTerminal::default();
    terminal.set_channel_state(0, true);
    terminal.set_channel_state(2, true);
    terminal.volume = 3;
    // (100 + 300) / 4 = 100, times volume + 1 = 400
    assert_eq!(terminal.mix_terminal_samples(&[100, 200, 300, 400]), 400);
    terminal.set_channel_state(0, false);
    assert_eq!(terminal.mix_terminal_samples(&[100, 200, 300, 400]), 300);
}

#[test]
fn terminal_mix_rounds_down() {
    let mut terminal = SoundTerminal::default();
    terminal.set_channel_state(1, true);
    assert_eq!(terminal.mix_terminal_samples(&[0, -5, 0, 0]), -2);
    assert_eq!(terminal.mix_terminal_samples(&[0, 5, 0, 0]), 1);
}

struct Counter {
    next: u8,
    resets: u32,
}

impl SampleProducer for Counter {
    fn next_sample(&self) -> u8 {
        self.next
    }

    fn frequency_ticks(&self, _freq: u16) -> u16 {
        8
    }

    fn produce(&mut self) -> u8 {
        let v = self.next;
        self.next = (self.next + 1) % 16;
        v
    }

    fn get_updated_frequency_ticks(&self, _freq: u16) -> u16 {
        8
    }

    fn reset(&mut self) {
        self.resets += 1;
        self.next = 0;
    }
}

#[test]
fn channel_samples_on_timer_ticks() {
    let mut channel = Channel::new(Counter { next: 15, resets: 0 });
    assert_eq!(channel.get_audio_sample(), 0);
    channel.enabled = true;
    // the period is 8 t-cycles: 2 m-cycles
    assert_eq!(channel.get_audio_sample(), 0);
    let sample = channel.get_audio_sample();
    // digital 15 is (15 - 7) * (SAMPLE_MAX / 15)
    assert_eq!(sample, 8 * (SAMPLE_MAX / 15));
    assert_eq!(channel.get_audio_sample(), sample);
    assert_eq!(channel.get_audio_sample(), -7 * (SAMPLE_MAX / 15));
}

#[test]
fn channel_length_counter_turns_it_off() {
    let mut channel = Channel::new(Counter { next: 0, resets: 0 });
    channel.enabled = true;
    channel.length_enable = true;
    channel.sound_length = 2;
    channel.update_length_register();
    assert!(channel.enabled);
    channel.update_length_register();
    assert!(!channel.enabled);
    assert_eq!(channel.sound_length, 0);
}

#[test]
fn channel_reset_clears_it() {
    let mut channel = Channel::new(Counter { next: 3, resets: 0 });
    channel.enabled = true;
    channel.frequency = 100;
    channel.reset();
    assert!(!channel.enabled);
    assert_eq!(channel.frequency, 0);
    assert_eq!(channel.sample_producer.resets, 1);
    assert_eq!(channel.get_audio_sample(), 0);
}
