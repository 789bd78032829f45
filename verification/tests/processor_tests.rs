use macloop::frame::AudioFrame;
use macloop::frame::AudioSourceType;
use macloop::processor::AudioProcessor;
use macloop::processor::PassthroughProcessor;

fn frame() -> AudioFrame {
    AudioFrame {
        source: AudioSourceType::Microphone,
        samples: vec![100_000, 200_000],
        sample_rate: 48_000,
        channels: 1,
        timestamp: 1,
    }
}

#[test]
fn passthrough_returns_same_frame() {
    let mut p = PassthroughProcessor;
    let input = frame();
    let out = p.process(input.clone()).unwrap();
    assert_eq!(out.samples, input.samples);
    assert_eq!(out.timestamp, input.timestamp);
}

#[test]
fn default_drain_ready_is_none() {
    let mut p = PassthroughProcessor;
    assert!(AudioProcessor::drain_ready(&mut p).is_none());
}
