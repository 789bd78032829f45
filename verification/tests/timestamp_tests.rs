use macloop::frame::AudioFrame;
use macloop::frame::AudioSourceType;
use macloop::timestamp::TimestampNormalizer;
use macloop::timestamp::cm_time_to_ns;

fn frame(source: AudioSourceType, timestamp: u64) -> AudioFrame {
    AudioFrame {
        source,
        samples: vec![0; 4],
        sample_rate: 48_000,
        channels: 1,
        timestamp,
    }
}

#[test]
fn normalizes_each_source_with_independent_baseline() {
    let mut p = TimestampNormalizer::new();
    let sys0 = p.process(frame(AudioSourceType::System, 1_000)).unwrap();
    let sys1 = p.process(frame(AudioSourceType::System, 1_500)).unwrap();
    let mic0 = p.process(frame(AudioSourceType::Microphone, 5_000)).unwrap();
    let mic1 = p.process(frame(AudioSourceType::Microphone, 5_700)).unwrap();

    assert_eq!(sys1.timestamp.saturating_sub(sys0.timestamp), 500);
    assert_eq!(mic1.timestamp.saturating_sub(mic0.timestamp), 700);
    assert_eq!(sys0.timestamp, mic0.timestamp);
}

#[test]
fn reset_restarts_normalization_epoch() {
    let mut p = TimestampNormalizer::new();
    let before_reset = p.process(frame(AudioSourceType::System, 10_000)).unwrap();
    p.reset();
    let after_reset = p.process(frame(AudioSourceType::System, 20_000)).unwrap();

    assert!(after_reset.timestamp >= before_reset.timestamp);
}

#[test]
fn clock_regressions_saturate_at_the_epoch() {
    let mut p = TimestampNormalizer::new();
    let first = p.process(frame(AudioSourceType::System, 1_000)).unwrap();
    let regressed = p.process(frame(AudioSourceType::System, 500)).unwrap();
    assert_eq!(regressed.timestamp, first.timestamp);
}

#[test]
fn cm_time_to_ns_converts_basic_values() {
    assert_eq!(cm_time_to_ns(1, 1), 1_000_000_000);
    assert_eq!(cm_time_to_ns(480, 48_000), 10_000_000);
}

#[test]
fn cm_time_to_ns_rejects_invalid_input() {
    assert_eq!(cm_time_to_ns(-1, 1), 0);
    assert_eq!(cm_time_to_ns(1, 0), 0);
    assert_eq!(cm_time_to_ns(1, -1), 0);
}

#[test]
fn cm_time_to_ns_handles_large_values_without_overflow() {
    let large = i64::MAX;
    let out = cm_time_to_ns(large, 48_000);
    assert!(out > 0);
}
