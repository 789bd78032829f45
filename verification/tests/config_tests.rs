use macloop::config::AudioProcessingConfig;
use macloop::config::SampleFormat;

#[test]
fn constructor_sets_fields() {
    let c = AudioProcessingConfig::new(
        48_000,
        2,
        true,
        false,
        SampleFormat::Int16,
        12,
        false,
        250,
    );

    assert_eq!(c.sample_rate, 48_000);
    assert_eq!(c.channels, 2);
    assert!(c.enable_aec);
    assert!(!c.enable_ns);
    assert_eq!(c.sample_format, SampleFormat::Int16);
    assert_eq!(c.aec_stream_delay_ms, 12);
    assert!(!c.aec_auto_delay_tuning);
    assert_eq!(c.aec_max_delay_ms, 250);
}

#[test]
fn default_is_plain_stereo_capture() {
    let c = AudioProcessingConfig::default();
    assert_eq!(c.sample_rate, 48_000);
    assert_eq!(c.channels, 2);
    assert!(!c.enable_aec);
    assert!(!c.enable_ns);
    assert_eq!(c.sample_format, SampleFormat::Float);
    assert_eq!(c.aec_stream_delay_ms, 0);
    assert!(!c.aec_auto_delay_tuning);
    assert_eq!(c.aec_max_delay_ms, 140);
}
