use macloop::frame::AudioFrame;
use macloop::frame::AudioSourceType;
use macloop::frame::FULL_SCALE;
use macloop::quantizer::FrameQuantizer;

fn frame(source: AudioSourceType, samples: usize, ts: u64, rate: u32, ch: u16) -> AudioFrame {
    AudioFrame {
        source,
        samples: vec![FULL_SCALE; samples],
        sample_rate: rate,
        channels: ch,
        timestamp: ts,
    }
}

#[test]
fn rejects_unexpected_format() {
    let mut q = FrameQuantizer::for_webrtc();
    let bad_rate = q.process(frame(AudioSourceType::Microphone, 480, 0, 16_000, 1));
    let bad_ch = q.process(frame(AudioSourceType::Microphone, 480, 0, 48_000, 2));

    assert!(bad_rate.is_none());
    assert!(bad_ch.is_none());
}

#[test]
fn emits_quantized_frames_and_drain_ready() {
    let mut q = FrameQuantizer::for_webrtc();
    let first = q
        .process(frame(AudioSourceType::Microphone, 960, 1_000_000, 48_000, 1))
        .unwrap();
    let second = q.drain_ready().unwrap();
    let none = q.drain_ready();

    assert_eq!(first.samples.len(), 480);
    assert_eq!(second.samples.len(), 480);
    assert_eq!(second.timestamp.saturating_sub(first.timestamp), 10_000_000);
    assert!(none.is_none());
}

#[test]
fn keeps_mic_and_system_streams_independent() {
    let mut q = FrameQuantizer::for_webrtc();
    let mic = q.process(frame(AudioSourceType::Microphone, 480, 10_000, 48_000, 1));
    let sys = q.process(frame(AudioSourceType::System, 480, 20_000, 48_000, 1));

    assert_eq!(mic.unwrap().source, AudioSourceType::Microphone);
    assert_eq!(sys.unwrap().source, AudioSourceType::System);
}

#[test]
fn flush_outputs_padded_tail() {
    let mut q = FrameQuantizer::with_quantum_size(8, 48_000, 1);
    let _ = q.process(frame(AudioSourceType::Microphone, 3, 0, 48_000, 1));
    let flushed = q.flush();

    assert_eq!(flushed.len(), 1);
    assert_eq!(flushed[0].samples.len(), 8);
    assert_eq!(flushed[0].samples[0], FULL_SCALE);
    assert_eq!(flushed[0].samples[7], 0);
}

#[test]
fn batch_input_emits_every_quantum_in_order() {
    let mut q = FrameQuantizer::with_quantum_size(4, 48_000, 1);
    let input = AudioFrame {
        source: AudioSourceType::Microphone,
        samples: vec![1, 2, 3, 4, 5, 6, 7, 8, 9, 10, 11, 12, 13],
        sample_rate: 48_000,
        channels: 1,
        timestamp: 0,
    };
    let first = q.process(input).unwrap();
    let second = q.drain_ready().unwrap();
    let third = q.drain_ready().unwrap();
    assert!(q.drain_ready().is_none());

    assert_eq!(first.samples, vec![1, 2, 3, 4]);
    assert_eq!(second.samples, vec![5, 6, 7, 8]);
    assert_eq!(third.samples, vec![9, 10, 11, 12]);

    let flushed = q.flush();
    assert_eq!(flushed.len(), 1);
    assert_eq!(flushed[0].samples, vec![13, 0, 0, 0]);
}
