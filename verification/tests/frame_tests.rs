use macloop::frame::ACTIVITY_THRESHOLD;
use macloop::frame::AudioFrame;
use macloop::frame::AudioSourceType;
use macloop::frame::FULL_SCALE;
use macloop::frame::frame_is_active;
use macloop::frame::sample_to_i16;
use macloop::frame::samples_to_i16;

#[test]
fn audio_frame_clone_preserves_fields() {
    let f = AudioFrame {
        source: AudioSourceType::System,
        samples: vec![100_000, -200_000],
        sample_rate: 48_000,
        channels: 2,
        timestamp: 123,
    };
    let c = f.clone();
    assert_eq!(c.source, AudioSourceType::System);
    assert_eq!(c.samples, vec![100_000, -200_000]);
    assert_eq!(c.sample_rate, 48_000);
    assert_eq!(c.channels, 2);
    assert_eq!(c.timestamp, 123);
}

#[test]
fn activity_detection_uses_threshold() {
    assert!(!frame_is_active(&vec![0, ACTIVITY_THRESHOLD - 1, -(ACTIVITY_THRESHOLD - 1)]));
    assert!(frame_is_active(&vec![0, ACTIVITY_THRESHOLD]));
    assert!(frame_is_active(&vec![-ACTIVITY_THRESHOLD, 0]));
    assert!(!frame_is_active(&vec![]));
}

#[test]
fn i16_conversion_clamps_and_scales() {
    assert_eq!(sample_to_i16(0), 0);
    assert_eq!(sample_to_i16(FULL_SCALE), 32_767);
    assert_eq!(sample_to_i16(-FULL_SCALE), -32_767);
    assert_eq!(sample_to_i16(2 * FULL_SCALE), 32_767);
    assert_eq!(sample_to_i16(-2 * FULL_SCALE), -32_767);
    assert_eq!(sample_to_i16(FULL_SCALE / 2), 16_383);
}

#[test]
fn i16_conversion_maps_whole_buffers() {
    let out = samples_to_i16(&vec![0, FULL_SCALE, -FULL_SCALE, FULL_SCALE / 2]);
    assert_eq!(out, vec![0, 32_767, -32_767, 16_383]);
}
