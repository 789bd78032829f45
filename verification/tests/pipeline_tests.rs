use macloop::config::AudioProcessingConfig;
use macloop::config::SampleFormat;
use macloop::frame::AudioFrame;
use macloop::frame::AudioSourceType;
use macloop::pipeline::ModularPipeline;

fn config(enable_aec: bool, enable_ns: bool) -> AudioProcessingConfig {
    AudioProcessingConfig {
        sample_rate: 48_000,
        channels: 1,
        enable_aec,
        enable_ns,
        sample_format: SampleFormat::Float,
        aec_stream_delay_ms: 0,
        aec_auto_delay_tuning: false,
        aec_max_delay_ms: 140,
    }
}

fn frame(source: AudioSourceType, samples: usize, ts: u64) -> AudioFrame {
    AudioFrame {
        source,
        samples: vec![500_000; samples],
        sample_rate: 48_000,
        channels: 1,
        timestamp: ts,
    }
}

#[test]
fn total_pipeline_delay_prefers_timestamp_when_plausible() {
    let d = ModularPipeline::select_total_pipeline_delay(1_000, 2_000, 777);
    assert_eq!(d, 1_000);
}

#[test]
fn total_pipeline_delay_falls_back_on_implausible_values() {
    let d_zero = ModularPipeline::select_total_pipeline_delay(1_000, 1_000, 777);
    let d_huge = ModularPipeline::select_total_pipeline_delay(0, 11_000_000_000, 888);
    assert_eq!(d_zero, 777);
    assert_eq!(d_huge, 888);
}

#[test]
fn stage_mapping_matches_configuration() {
    assert_eq!(
        ModularPipeline::stage_key(0, false, false, false),
        Some("timestamp_processor")
    );
    assert_eq!(
        ModularPipeline::stage_key(1, true, false, false),
        Some("webrtc_resample_processor")
    );
    assert_eq!(
        ModularPipeline::stage_key(2, true, false, false),
        Some("quantizer_processor")
    );
    assert_eq!(
        ModularPipeline::stage_key(3, true, true, false),
        Some("aec_processor")
    );
    assert_eq!(
        ModularPipeline::stage_key(4, true, true, true),
        Some("ns_processor")
    );
    assert_eq!(ModularPipeline::stage_key(3, true, false, true), None);
}

#[test]
fn plain_pipeline_passes_mic_frames_through() {
    let mut p = ModularPipeline::new(config(false, false));
    let (out, wants) = p.handle_frame(frame(AudioSourceType::Microphone, 4, 1_000));
    assert_eq!(out.len(), 1);
    assert_eq!(out[0].source, AudioSourceType::Microphone);
    assert_eq!(out[0].samples, vec![500_000; 4]);
    assert!(!wants);
    assert_eq!(p.stats().frames_in_mic, 1);
    assert_eq!(p.stats().frames_in_system, 0);
}

#[test]
fn aec_pipeline_consumes_the_system_reference_clone() {
    let mut p = ModularPipeline::new(config(true, false));
    let (out, wants) = p.handle_frame(frame(AudioSourceType::System, 480, 1_000));
    assert!(!wants);
    assert_eq!(out.len(), 1);
    assert_eq!(out[0].source, AudioSourceType::System);
    assert_eq!(p.stats().frames_in_system, 1);

    let (mic_out, _) = p.handle_frame(frame(AudioSourceType::Microphone, 480, 2_000));
    assert_eq!(mic_out.len(), 1);
    assert_eq!(mic_out[0].source, AudioSourceType::Microphone);
    assert_eq!(mic_out[0].samples.len(), 480);
    assert_eq!(p.stats().frames_in_mic, 1);
}

#[test]
fn mic_only_traffic_leaves_system_counters_alone() {
    let mut p = ModularPipeline::new(config(true, true));
    for i in 0..10u64 {
        let _ = p.handle_frame(frame(AudioSourceType::Microphone, 480, 1_000 + i));
    }
    assert_eq!(p.stats().frames_in_mic, 10);
    assert_eq!(p.stats().frames_in_system, 0);
    assert_eq!(p.stats().frames_out_system, 0);
}

#[test]
fn quantizer_stage_splits_oversized_mic_frames() {
    let mut p = ModularPipeline::new(config(true, false));
    let (out, _) = p.handle_frame(frame(AudioSourceType::Microphone, 960, 1_000));
    assert_eq!(out.len(), 2);
    assert!(out.iter().all(|f| f.samples.len() == 480));
    assert!(out.iter().all(|f| f.source == AudioSourceType::Microphone));
}

#[test]
fn delivery_notes_feed_the_counters() {
    let mut p = ModularPipeline::new(config(false, false));
    p.note_delivery(AudioSourceType::Microphone, true);
    p.note_delivery(AudioSourceType::System, true);
    p.note_delivery(AudioSourceType::System, false);
    p.note_lock_failure();
    assert_eq!(p.stats().frames_out_mic, 1);
    assert_eq!(p.stats().frames_out_system, 1);
    assert_eq!(p.stats().callback_errors, 1);
    assert_eq!(p.stats().gil_acquire_failures, 1);
}

#[test]
fn tuning_through_the_pipeline_updates_the_snapshot() {
    let mut cfg = config(true, false);
    cfg.aec_stream_delay_ms = 10;
    cfg.aec_auto_delay_tuning = true;
    let mut p = ModularPipeline::new(cfg);
    let changed = p.tune_aec(2_000, Some(10));
    assert!(changed);
    assert_eq!(p.stats().aec_tuner.applied_delay_ms, 15);
    assert_eq!(p.stats().aec_tuner.tune_events, 1);
    assert_eq!(p.applied_aec_delay_ms(), Some(15));
}

#[test]
fn flush_empties_partial_quanta() {
    let mut p = ModularPipeline::new(config(true, false));
    let (out, _) = p.handle_frame(frame(AudioSourceType::Microphone, 100, 1_000));
    assert_eq!(out.len(), 0);
    let flushed = p.flush_all();
    assert_eq!(flushed.len(), 1);
    assert_eq!(flushed[0].source, AudioSourceType::Microphone);
    assert_eq!(flushed[0].samples.len(), 480);
}
