use macloop::config::AudioProcessingConfig;
use macloop::config::SampleFormat;
use macloop::frame::AudioFrame;
use macloop::frame::AudioSourceType;
use macloop::resample::ResampleProcessor;

fn frame(source: AudioSourceType, samples: Vec<i32>, channels: u16, ts: u64) -> AudioFrame {
    AudioFrame {
        source,
        samples,
        sample_rate: 48_000,
        channels,
        timestamp: ts,
    }
}

#[test]
fn passthrough_when_sample_rate_matches() {
    let mut p = ResampleProcessor::new(48_000, 48_000, 1, AudioSourceType::Microphone);
    let input = frame(AudioSourceType::Microphone, vec![100_000, 200_000, 300_000], 1, 123);
    let out = p.process(input).unwrap();

    assert_eq!(out.sample_rate, 48_000);
    assert_eq!(out.channels, 1);
    assert_eq!(out.timestamp, 123);
    assert_eq!(out.samples, vec![100_000, 200_000, 300_000]);
}

#[test]
fn downmixes_stereo_to_mono() {
    let mut p = ResampleProcessor::new(48_000, 48_000, 1, AudioSourceType::Microphone);
    let input = frame(
        AudioSourceType::Microphone,
        vec![1_000_000, 0, 500_000, -500_000],
        2,
        77,
    );
    let out = p.process(input).unwrap();

    assert_eq!(out.samples, vec![500_000, 0]);
    assert_eq!(out.channels, 1);
}

#[test]
fn downmixes_three_channels_by_arithmetic_mean() {
    let mut p = ResampleProcessor::new(48_000, 48_000, 1, AudioSourceType::Microphone);
    let input = AudioFrame {
        source: AudioSourceType::Microphone,
        samples: vec![3_000_000, 0, 0, 300_000, 300_000, 300_000],
        sample_rate: 48_000,
        channels: 3,
        timestamp: 5,
    };
    let out = p.process(input).unwrap();
    assert_eq!(out.samples, vec![1_000_000, 300_000]);
    assert_eq!(out.channels, 1);
}

#[test]
fn upmixes_mono_to_stereo() {
    let mut p = ResampleProcessor::new(48_000, 48_000, 2, AudioSourceType::Microphone);
    let input = frame(AudioSourceType::Microphone, vec![250_000, -250_000], 1, 33);
    let out = p.process(input).unwrap();

    assert_eq!(out.samples, vec![250_000, 250_000, -250_000, -250_000]);
    assert_eq!(out.channels, 2);
}

#[test]
fn keeps_sources_isolated() {
    let mut p = ResampleProcessor::new(48_000, 48_000, 1, AudioSourceType::System);
    let sys = p
        .process(frame(AudioSourceType::System, vec![1_000_000; 4], 1, 1))
        .unwrap();
    let mic = p
        .process(frame(AudioSourceType::Microphone, vec![2_000_000; 4], 1, 2))
        .unwrap();

    assert_eq!(sys.source, AudioSourceType::System);
    assert_eq!(mic.source, AudioSourceType::Microphone);
    assert_eq!(sys.samples, vec![1_000_000; 4]);
    assert_eq!(mic.samples, vec![2_000_000; 4]);
}

#[test]
fn pop_native_frame_converts_stereo_queue_to_mono() {
    let mut p = ResampleProcessor::new(48_000, 48_000, 2, AudioSourceType::System);
    p.extend_output_queue(AudioSourceType::System, &vec![1_000_000; 960]);
    let f = p.pop_native_frame().unwrap();

    assert_eq!(f.source, AudioSourceType::System);
    assert_eq!(f.sample_rate, 48_000);
    assert_eq!(f.channels, 1);
    assert_eq!(f.samples.len(), 480);
    assert!(f.samples.iter().all(|&s| s == 1_000_000));
}

#[test]
fn from_config_applies_target_format() {
    let cfg = AudioProcessingConfig {
        sample_rate: 16_000,
        channels: 2,
        enable_aec: false,
        enable_ns: false,
        sample_format: SampleFormat::Float,
        aec_stream_delay_ms: 0,
        aec_auto_delay_tuning: false,
        aec_max_delay_ms: 140,
    };
    let p = ResampleProcessor::from_config(&cfg, AudioSourceType::Microphone);
    assert_eq!(p.target_rate(), 16_000);
    assert_eq!(p.target_channels(), 2);
}

#[test]
fn pop_10ms_frame_uses_selected_source_queue() {
    let mut p = ResampleProcessor::new(48_000, 48_000, 1, AudioSourceType::Microphone);
    p.extend_output_queue(AudioSourceType::Microphone, &vec![500_000; 480]);
    let f = p.pop_10ms_frame().unwrap();
    assert_eq!(f.source, AudioSourceType::Microphone);
    assert_eq!(f.samples.len(), 480);
}

#[test]
fn flush_drains_ready_queues_for_both_sources() {
    let mut p = ResampleProcessor::new(48_000, 48_000, 1, AudioSourceType::Microphone);
    p.push_resampler_output(AudioSourceType::Microphone, vec![1_000_000]);
    p.push_resampler_output(AudioSourceType::System, vec![2_000_000]);
    let mut out = p.flush();
    out.sort_by_key(|f| match f.source {
        AudioSourceType::System => 0,
        AudioSourceType::Microphone => 1,
    });
    assert_eq!(out.len(), 2);
    assert_eq!(out[0].source, AudioSourceType::System);
    assert_eq!(out[1].source, AudioSourceType::Microphone);
}

#[test]
fn reset_clears_internal_buffers() {
    let mut p = ResampleProcessor::new(48_000, 48_000, 1, AudioSourceType::System);
    let _ = p.process(frame(AudioSourceType::Microphone, vec![1_000_000], 1, 5));
    p.extend_output_queue(AudioSourceType::Microphone, &vec![1, 2, 3]);
    p.extend_output_queue(AudioSourceType::System, &vec![4, 5]);
    assert_eq!(p.last_source(), AudioSourceType::Microphone);
    p.reset();
    assert_eq!(p.output_queue_len(AudioSourceType::Microphone), 0);
    assert_eq!(p.output_queue_len(AudioSourceType::System), 0);
    assert_eq!(p.last_source(), AudioSourceType::System);
}

#[test]
fn resampler_streams_stage_chunks_for_the_embedding() {
    let mut p = ResampleProcessor::new(16_000, 48_000, 1, AudioSourceType::Microphone);
    assert!(p.needs_resampler(AudioSourceType::Microphone));

    let mut big = AudioFrame {
        source: AudioSourceType::Microphone,
        samples: vec![7; 2048],
        sample_rate: 16_000,
        channels: 1,
        timestamp: 10,
    };
    big.samples[0] = 42;
    assert!(p.process(big).is_none());

    let chunk = p.take_resampler_chunk(AudioSourceType::Microphone).unwrap();
    assert_eq!(chunk.len(), 1024);
    assert_eq!(chunk[0], 42);
    assert_eq!(chunk[1], 7);

    let resampled = vec![9; 3072];
    p.push_resampler_output(AudioSourceType::Microphone, resampled);
    let out = p.drain_ready().unwrap();
    assert_eq!(out.sample_rate, 48_000);
    assert_eq!(out.samples.len(), 3072);
    assert_eq!(out.timestamp, 10);
}
