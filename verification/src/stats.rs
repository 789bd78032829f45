//! Runtime counters and per-stage latency accounting.
//!
//! Everything here is a plain value the worker owns and updates; a host
//! that wants a cross-thread view wraps `RuntimeStats` in its own shared
//! cell and copies snapshots out.  Quality figures from the echo canceller
//! (ERLE) are carried in milli-units: one thousandth of the canceller's
//! dB-like unit.

use vstd::prelude::*;

verus! {

/// Sample count, total and maximum of one stage's per-frame latency, in
/// nanoseconds.
#[derive(Clone, Debug)]
pub struct StageStats {
    /// How many durations were recorded.
    pub samples: u64,
    /// Their sum.
    pub total_ns: u128,
    /// The largest single duration.
    pub max_ns: u64,
}

impl Default for StageStats {
    /// No samples yet.
    fn default() -> (r: Self)
        ensures
            r.samples == 0,
            r.total_ns == 0,
            r.max_ns == 0,
    {
        StageStats { samples: 0, total_ns: 0, max_ns: 0 }
    }
}

impl StageStats {
    /// Folds one duration in; the counters saturate rather than wrap.
    pub fn record(&mut self, duration_ns: u64)
        ensures
            final(self).samples == (if old(self).samples < u64::MAX {
                old(self).samples + 1
            } else {
                u64::MAX as int
            }),
            final(self).total_ns == (if old(self).total_ns + duration_ns <= u128::MAX {
                old(self).total_ns + duration_ns
            } else {
                u128::MAX as int
            }),
            final(self).max_ns == (if duration_ns > old(self).max_ns {
                duration_ns
            } else {
                old(self).max_ns
            }),
    {
        if self.samples < u64::MAX {
            self.samples = self.samples + 1;
        }
        if self.total_ns <= u128::MAX - duration_ns as u128 {
            self.total_ns = self.total_ns + duration_ns as u128;
        } else {
            self.total_ns = u128::MAX;
        }
        if duration_ns > self.max_ns {
            self.max_ns = duration_ns;
        }
    }

    /// The mean recorded duration, zero when nothing was recorded.
    pub fn avg_ns(&self) -> (r: u128)
        ensures
            self.samples == 0 ==> r == 0,
            self.samples > 0 ==> r == self.total_ns / self.samples as u128,
    {
        if self.samples == 0 {
            0
        } else {
            self.total_ns / self.samples as u128
        }
    }
}

/// A value snapshot of the delay tuner, published for the host.
#[derive(Clone, Debug)]
pub struct AecAutoTuneStats {
    /// Whether auto-tuning is switched on.
    pub enabled: bool,
    /// Whether the tuner froze on a delay it trusts.
    pub frozen: bool,
    /// The stream delay currently applied, in ms.
    pub applied_delay_ms: i32,
    /// The delay that scored best so far, in ms.
    pub best_delay_ms: i32,
    /// The current exploration step, in ms.
    pub step_ms: i32,
    /// The current exploration direction: plus or minus one.
    pub direction: i32,
    /// How many microphone frames lie between tuner ticks.
    pub interval_frames: u64,
    /// The upper bound the tuned delay never exceeds, in ms.
    pub max_delay_ms: i32,
    /// The most recent raw quality reading, in milli-units.
    pub last_erle: Option<i32>,
    /// The smoothed quality reading, in milli-units.
    pub erle_ema: Option<i64>,
    /// The best smoothed reading seen so far, in milli-units.
    pub best_erle: Option<i64>,
    /// The delay the canceller itself reported last, in ms.
    pub last_apm_delay_ms: Option<u32>,
    /// How many times the tuner committed a new delay.
    pub tune_events: u64,
    /// How many times it snapped back to the best-known delay.
    pub rollback_events: u64,
    /// How many times it froze.
    pub freeze_events: u64,
    /// Ticks skipped because the microphone carried no signal.
    pub skipped_inactive_mic: u64,
    /// Ticks skipped because the system stream carried no recent signal.
    pub skipped_inactive_system: u64,
}

impl Default for AecAutoTuneStats {
    /// Everything off, zero or empty; the direction starts at plus one.
    fn default() -> (r: Self)
        ensures
            !r.enabled,
            !r.frozen,
            r.applied_delay_ms == 0,
            r.best_delay_ms == 0,
            r.step_ms == 0,
            r.direction == 1,
            r.interval_frames == 0,
            r.max_delay_ms == 0,
            r.last_erle is None,
            r.erle_ema is None,
            r.best_erle is None,
            r.last_apm_delay_ms is None,
            r.tune_events == 0,
            r.rollback_events == 0,
            r.freeze_events == 0,
            r.skipped_inactive_mic == 0,
            r.skipped_inactive_system == 0,
    {
        AecAutoTuneStats {
            enabled: false,
            frozen: false,
            applied_delay_ms: 0,
            best_delay_ms: 0,
            step_ms: 0,
            direction: 1,
            interval_frames: 0,
            max_delay_ms: 0,
            last_erle: None,
            erle_ema: None,
            best_erle: None,
            last_apm_delay_ms: None,
            tune_events: 0,
            rollback_events: 0,
            freeze_events: 0,
            skipped_inactive_mic: 0,
            skipped_inactive_system: 0,
        }
    }
}

/// All counters of one pipeline run.
#[derive(Clone, Debug)]
pub struct RuntimeStats {
    /// Microphone frames that entered the pipeline.
    pub frames_in_mic: u64,
    /// System frames that entered the pipeline.
    pub frames_in_system: u64,
    /// Microphone frames delivered to the consumer.
    pub frames_out_mic: u64,
    /// System frames delivered to the consumer.
    pub frames_out_system: u64,
    /// Errors reported by processors.
    pub processor_errors: u64,
    /// Errors reported while draining processors.
    pub processor_drain_errors: u64,
    /// Errors reported by the consumer callback.
    pub callback_errors: u64,
    /// Deliveries skipped because the host lock was unavailable.
    pub gil_acquire_failures: u64,
    /// Latency of the timestamp stage.
    pub timestamp_processor: StageStats,
    /// Latency of the pre-canceller resampling stage.
    pub webrtc_resample_processor: StageStats,
    /// Latency of the quantization stage.
    pub quantizer_processor: StageStats,
    /// Latency of the echo-cancellation stage.
    pub aec_processor: StageStats,
    /// Latency of the noise-suppression stage.
    pub ns_processor: StageStats,
    /// Wall-clock time per microphone frame through the main chain.
    pub processing_time: StageStats,
    /// End-to-end delay per microphone frame.
    pub total_pipeline: StageStats,
    /// The delay tuner's snapshot.
    pub aec_tuner: AecAutoTuneStats,
}

impl Default for RuntimeStats {
    /// Every counter zero, every stage empty, the tuner at its baseline.
    fn default() -> (r: Self)
        ensures
            r.frames_in_mic == 0,
            r.frames_in_system == 0,
            r.frames_out_mic == 0,
            r.frames_out_system == 0,
            r.processor_errors == 0,
            r.processor_drain_errors == 0,
            r.callback_errors == 0,
            r.gil_acquire_failures == 0,
            r.timestamp_processor.samples == 0,
            r.webrtc_resample_processor.samples == 0,
            r.quantizer_processor.samples == 0,
            r.aec_processor.samples == 0,
            r.ns_processor.samples == 0,
            r.processing_time.samples == 0,
            r.processing_time.max_ns == 0,
            r.total_pipeline.samples == 0,
            r.aec_tuner.tune_events == 0,
    {
        RuntimeStats {
            frames_in_mic: 0,
            frames_in_system: 0,
            frames_out_mic: 0,
            frames_out_system: 0,
            processor_errors: 0,
            processor_drain_errors: 0,
            callback_errors: 0,
            gil_acquire_failures: 0,
            timestamp_processor: StageStats::default(),
            webrtc_resample_processor: StageStats::default(),
            quantizer_processor: StageStats::default(),
            aec_processor: StageStats::default(),
            ns_processor: StageStats::default(),
            processing_time: StageStats::default(),
            total_pipeline: StageStats::default(),
            aec_tuner: AecAutoTuneStats::default(),
        }
    }
}

} // verus!
