use macloop::aec::AecProcessor;
use macloop::config::AudioProcessingConfig;
use macloop::config::SampleFormat;
use macloop::frame::AudioFrame;
use macloop::frame::AudioSourceType;

fn config(enable_aec: bool, auto_tune: bool) -> AudioProcessingConfig {
    AudioProcessingConfig {
        sample_rate: 16_000,
        channels: 1,
        enable_aec,
        enable_ns: false,
        sample_format: SampleFormat::Float,
        aec_stream_delay_ms: 10,
        aec_auto_delay_tuning: auto_tune,
        aec_max_delay_ms: 140,
    }
}

fn frame(source: AudioSourceType, amp: i32) -> AudioFrame {
    AudioFrame {
        source,
        samples: vec![amp; 480],
        sample_rate: 48_000,
        channels: 1,
        timestamp: 0,
    }
}

#[test]
fn inactive_streams_increment_skip_counters() {
    let mut aec = AecProcessor::new(config(true, true));

    for _ in 0..50 {
        let _ = aec.process_frame(frame(AudioSourceType::Microphone, 0));
    }

    let snap = aec.tuner_stats(None, None);
    assert!(snap.skipped_inactive_mic >= 1);
    assert!(snap.skipped_inactive_system >= 1);
    assert_eq!(snap.applied_delay_ms, 10);
}

#[test]
fn tune_updates_delay_and_stats() {
    let mut aec = AecProcessor::new(config(false, true));
    let before = aec.tuner_stats(None, None).applied_delay_ms;
    let tuned = aec.tune_delay_on_the_fly(2_000, Some(10));
    let snap = aec.tuner_stats(None, None);

    assert!(tuned);
    assert_ne!(snap.applied_delay_ms, before);
    assert_eq!(snap.applied_delay_ms, 15);
    assert_eq!(snap.tune_events, 1);
}

#[test]
fn reset_restores_tuner_baseline() {
    let mut aec = AecProcessor::new(config(false, true));
    let _ = aec.tune_delay_on_the_fly(3_000, Some(10));
    aec.reset();

    let snap = aec.tuner_stats(None, None);
    assert_eq!(snap.applied_delay_ms, 10);
    assert_eq!(snap.step_ms, 5);
    assert!(!snap.frozen);
}

#[test]
fn system_frames_are_consumed_and_not_forwarded() {
    let mut aec = AecProcessor::new(config(false, false));
    let (out, wants) = aec.process_frame(frame(AudioSourceType::System, 500_000));
    assert!(out.is_none());
    assert!(!wants);
}

#[test]
fn stable_high_quality_freezes_the_applied_delay() {
    let mut aec = AecProcessor::new(config(true, true));
    let mut froze = false;
    for _ in 0..8 {
        let _ = aec.tune_delay_on_the_fly(4_000, None);
        froze = aec.tuner_stats(None, None).frozen;
    }
    let snap = aec.tuner_stats(None, None);
    assert!(froze);
    assert!(snap.frozen);
    assert_eq!(snap.applied_delay_ms, snap.best_delay_ms);
    assert_eq!(snap.freeze_events, 1);
    assert!(snap.applied_delay_ms >= 0 && snap.applied_delay_ms <= snap.max_delay_ms);

    for _ in 0..100 {
        let (_, wants) = aec.process_frame(frame(AudioSourceType::Microphone, 500_000));
        assert!(!wants);
    }
    assert_eq!(aec.tuner_stats(None, None).applied_delay_ms, snap.applied_delay_ms);
}

#[test]
fn quality_collapse_rolls_back_to_best_delay() {
    let mut aec = AecProcessor::new(config(true, true));
    let _ = aec.tune_delay_on_the_fly(4_000, None);
    let best = aec.tuner_stats(None, None).best_delay_ms;
    assert_ne!(aec.tuner_stats(None, None).applied_delay_ms, best);

    let changed = aec.tune_delay_on_the_fly(0, None);
    let snap = aec.tuner_stats(None, None);
    assert!(changed);
    assert_eq!(snap.applied_delay_ms, best);
    assert_eq!(snap.rollback_events, 1);
}

#[test]
fn unstable_snapshots_are_rejected() {
    let mut aec = AecProcessor::new(config(true, true));
    let changed = aec.tune_delay_on_the_fly(500, Some(300));
    let snap = aec.tuner_stats(None, None);
    assert!(!changed);
    assert_eq!(snap.applied_delay_ms, 10);
    assert_eq!(snap.tune_events, 0);
}
