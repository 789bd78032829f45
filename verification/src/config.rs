//! Pipeline configuration.

use vstd::prelude::*;

verus! {

/// How emitted sample buffers are encoded for the consumer.
#[derive(Clone, Copy, Debug, PartialEq, Eq, Structural)]
pub enum SampleFormat {
    /// Fixed-point samples handed out unchanged.
    Float,
    /// Samples clamped to full scale and rescaled to signed 16-bit PCM.
    Int16,
}

/// Settings for one pipeline run.
#[derive(Clone, Copy, Debug)]
pub struct AudioProcessingConfig {
    /// Output sample rate in Hz.
    pub sample_rate: u32,
    /// Output channel count.
    pub channels: u16,
    /// Whether the echo-cancellation stage is built.
    pub enable_aec: bool,
    /// Whether the noise-suppression stage is built.
    pub enable_ns: bool,
    /// Output sample encoding.
    pub sample_format: SampleFormat,
    /// Manual stream-delay hint in ms; may be negative, clamped when applied.
    pub aec_stream_delay_ms: i32,
    /// Whether the stream delay is tuned online from observed quality.
    pub aec_auto_delay_tuning: bool,
    /// Upper bound for the tuned delay; clamped into [20, 1000] when applied.
    pub aec_max_delay_ms: i32,
}

impl AudioProcessingConfig {
    /// Builds a configuration from every field.
    pub fn new(
        sample_rate: u32,
        channels: u16,
        enable_aec: bool,
        enable_ns: bool,
        sample_format: SampleFormat,
        aec_stream_delay_ms: i32,
        aec_auto_delay_tuning: bool,
        aec_max_delay_ms: i32,
    ) -> (r: Self)
        ensures
            r.sample_rate == sample_rate,
            r.channels == channels,
            r.enable_aec == enable_aec,
            r.enable_ns == enable_ns,
            r.sample_format == sample_format,
            r.aec_stream_delay_ms == aec_stream_delay_ms,
            r.aec_auto_delay_tuning == aec_auto_delay_tuning,
            r.aec_max_delay_ms == aec_max_delay_ms,
    {
        AudioProcessingConfig {
            sample_rate,
            channels,
            enable_aec,
            enable_ns,
            sample_format,
            aec_stream_delay_ms,
            aec_auto_delay_tuning,
            aec_max_delay_ms,
        }
    }
}

impl Default for AudioProcessingConfig {
    /// The stock configuration: 48 kHz stereo fixed-point output, no
    /// enhancement stages, no manual delay, tuning off, 140 ms delay cap.
    fn default() -> (r: Self)
        ensures
            r.sample_rate == 48000,
            r.channels == 2,
            !r.enable_aec,
            !r.enable_ns,
            r.sample_format == SampleFormat::Float,
            r.aec_stream_delay_ms == 0,
            !r.aec_auto_delay_tuning,
            r.aec_max_delay_ms == 140,
    {
        AudioProcessingConfig {
            sample_rate: 48000,
            channels: 2,
            enable_aec: false,
            enable_ns: false,
            sample_format: SampleFormat::Float,
            aec_stream_delay_ms: 0,
            aec_auto_delay_tuning: false,
            aec_max_delay_ms: 140,
        }
    }
}

} // verus!
