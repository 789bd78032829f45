use macloop::config::AudioProcessingConfig;
use macloop::config::SampleFormat;
use macloop::frame::AudioFrame;
use macloop::frame::AudioSourceType;
use macloop::ns::NoiseSuppressionProcessor;

fn config(enable_ns: bool) -> AudioProcessingConfig {
    AudioProcessingConfig {
        sample_rate: 16_000,
        channels: 1,
        enable_aec: false,
        enable_ns,
        sample_format: SampleFormat::Float,
        aec_stream_delay_ms: 0,
        aec_auto_delay_tuning: false,
        aec_max_delay_ms: 140,
    }
}

fn frame(samples: usize, rate: u32, ch: u16) -> AudioFrame {
    AudioFrame {
        source: AudioSourceType::Microphone,
        samples: vec![100_000; samples],
        sample_rate: rate,
        channels: ch,
        timestamp: 0,
    }
}

#[test]
fn disabled_ns_passes_audio_through() {
    let mut ns = NoiseSuppressionProcessor::new(config(false));
    let input = frame(100, 16_000, 1);
    let out = ns.process(input.clone()).unwrap();
    assert_eq!(out.samples, input.samples);
    assert_eq!(out.sample_rate, input.sample_rate);
    assert!(!ns.accepts_frame(&out));
}

#[test]
fn enabled_ns_keeps_frame_on_invalid_format() {
    let mut ns = NoiseSuppressionProcessor::new(config(true));
    let input = frame(160, 16_000, 1);
    assert!(!ns.accepts_frame(&input));
    let out = ns.process(input.clone()).unwrap();
    assert_eq!(out.samples.len(), input.samples.len());
    assert_eq!(out.sample_rate, input.sample_rate);
    assert_eq!(out.channels, input.channels);
}

#[test]
fn enabled_ns_accepts_native_frames() {
    let ns = NoiseSuppressionProcessor::new(config(true));
    assert!(ns.accepts_frame(&frame(480, 48_000, 1)));
    assert!(!ns.accepts_frame(&frame(480, 48_000, 2)));
    assert!(!ns.accepts_frame(&frame(479, 48_000, 1)));
}

#[test]
fn reset_recreates_processor_state() {
    let mut ns = NoiseSuppressionProcessor::new(config(true));
    assert!(ns.is_enabled());
    ns.reset();
    assert!(ns.is_enabled());

    let mut ns_disabled = NoiseSuppressionProcessor::new(config(false));
    assert!(!ns_disabled.is_enabled());
    ns_disabled.reset();
    assert!(!ns_disabled.is_enabled());
}
