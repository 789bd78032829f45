//! Per-stage latency measurement.
//!
//! Each pipeline stage owns a histogram of its per-frame delays, bucketed
//! from under one millisecond to over one hundred.  The tracker maps the
//! fixed set of stage names onto those histograms; a name outside the set
//! records nothing.

use vstd::prelude::*;
use vstd::string::StringSliceAdditionalSpecFns;
use vstd::utf8::encode_utf8_decode_utf8;

verus! {

/// Whether two strings hold the same characters.
pub fn str_eq(a: &str, b: &str) -> (r: bool)
    ensures
        r == (a@ == b@),
{
    let ab = a.as_bytes();
    let bb = b.as_bytes();
    proof {
        if a@ == b@ {
            assert(ab@ == bb@);
        }
    }
    if ab.len() != bb.len() {
        return false;
    }
    let mut i: usize = 0;
    while i < ab.len()
        invariant
            i <= ab@.len(),
            ab@.len() == bb@.len(),
            forall|j: int| 0 <= j < i ==> ab@[j] == bb@[j],
            ab@ == a.spec_bytes(),
            bb@ == b.spec_bytes(),
        decreases ab@.len() - i,
    {
        if ab[i] != bb[i] {
            proof {
                if a@ == b@ {
                    assert(ab@ == bb@);
                }
            }
            return false;
        }
        i = i + 1;
    }
    proof {
        assert(ab@ =~= bb@);
        encode_utf8_decode_utf8(a@);
        encode_utf8_decode_utf8(b@);
    }
    true
}

/// A counter bumped by one, held at the top of the `u64` range.
pub open spec fn spec_inc64(x: u64) -> u64 {
    if x < u64::MAX {
        (x + 1) as u64
    } else {
        x
    }
}

/// A sum held at the top of the `u64` range.
pub open spec fn spec_sat_add64(a: u64, b: u64) -> u64 {
    if a + b <= u64::MAX {
        (a + b) as u64
    } else {
        u64::MAX
    }
}

/// Which histogram bucket a delay in microseconds falls into: the first
/// of under 1, 2, 5, 10, 20, 50 and 100 milliseconds it undercuts, else
/// the overflow bucket.
pub open spec fn spec_bucket_index(delay_us: u64) -> int {
    if delay_us < 1000 {
        0
    } else if delay_us < 2000 {
        1
    } else if delay_us < 5000 {
        2
    } else if delay_us < 10000 {
        3
    } else if delay_us < 20000 {
        4
    } else if delay_us < 50000 {
        5
    } else if delay_us < 100000 {
        6
    } else {
        7
    }
}

/// A histogram of delays: eight buckets plus count, sum, minimum and
/// maximum, all in microseconds.
#[derive(Debug)]
pub struct DelayHistogram {
    /// One count per bucket.
    pub buckets: [u64; 8],
    /// The upper limits of the first seven buckets, in microseconds.
    pub bucket_limits_us: [u64; 7],
    /// How many delays were recorded.
    pub total_samples: u64,
    /// Their sum, in microseconds.
    pub sum_delay_us: u64,
    /// The smallest recorded delay, in microseconds.
    pub min_delay_us: u64,
    /// The largest recorded delay, in microseconds.
    pub max_delay_us: u64,
}

/// What recording one delay (in nanoseconds) makes of a histogram: the
/// delay's microsecond value joins count, sum, minimum and maximum, and
/// its bucket's count grows by one.
pub open spec fn spec_hist_record(h: DelayHistogram, delay_ns: u64) -> DelayHistogram {
    let delay_us = delay_ns / 1000;
    let idx = spec_bucket_index(delay_us);
    DelayHistogram {
        buckets: h.buckets,
        bucket_limits_us: h.bucket_limits_us,
        total_samples: spec_inc64(h.total_samples),
        sum_delay_us: spec_sat_add64(h.sum_delay_us, delay_us),
        min_delay_us: if delay_us < h.min_delay_us {
            delay_us
        } else {
            h.min_delay_us
        },
        max_delay_us: if delay_us > h.max_delay_us {
            delay_us
        } else {
            h.max_delay_us
        },
    }
}

impl DelayHistogram {
    /// The limits are the fixed bucket boundaries.
    pub open spec fn wf(self) -> bool {
        self.bucket_limits_us@ =~= seq![
            1000u64,
            2000u64,
            5000u64,
            10000u64,
            20000u64,
            50000u64,
            100000u64,
        ]
    }

    /// An empty histogram; the minimum starts at the top of the range.
    pub fn new() -> (r: Self)
        ensures
            r.wf(),
            r.buckets@ =~= Seq::new(8, |i: int| 0u64),
            r.total_samples == 0,
            r.sum_delay_us == 0,
            r.min_delay_us == u64::MAX,
            r.max_delay_us == 0,
    {
        let r = DelayHistogram {
            buckets: [0, 0, 0, 0, 0, 0, 0, 0],
            bucket_limits_us: [1000, 2000, 5000, 10000, 20000, 50000, 100000],
            total_samples: 0,
            sum_delay_us: 0,
            min_delay_us: u64::MAX,
            max_delay_us: 0,
        };
        proof {
            assert(r.bucket_limits_us@ =~= seq![
                1000u64,
                2000u64,
                5000u64,
                10000u64,
                20000u64,
                50000u64,
                100000u64,
            ]);
            assert(r.buckets@ =~= Seq::new(8, |i: int| 0u64));
        }
        r
    }

    /// Folds one delay, given in nanoseconds, into the histogram.
    pub fn record(&mut self, delay_ns: u64)
        requires
            old(self).wf(),
        ensures
            final(self).wf(),
            ({
                let m = spec_hist_record(*old(self), delay_ns);
                let idx = spec_bucket_index(delay_ns / 1000);
                &&& final(self).total_samples == m.total_samples
                &&& final(self).sum_delay_us == m.sum_delay_us
                &&& final(self).min_delay_us == m.min_delay_us
                &&& final(self).max_delay_us == m.max_delay_us
                &&& final(self).buckets@ =~= old(self).buckets@.update(
                    idx,
                    spec_inc64(old(self).buckets@[idx]),
                )
            }),
    {
        let delay_us = delay_ns / 1000;

        if delay_us < self.min_delay_us {
            self.min_delay_us = delay_us;
        }
        if delay_us > self.max_delay_us {
            self.max_delay_us = delay_us;
        }

        if self.sum_delay_us <= u64::MAX - delay_us {
            self.sum_delay_us = self.sum_delay_us + delay_us;
        } else {
            self.sum_delay_us = u64::MAX;
        }
        if self.total_samples < u64::MAX {
            self.total_samples = self.total_samples + 1;
        }

        let mut bucket_idx: usize = 7;
        let mut i: usize = 0;
        let mut found = false;
        while i < 7
            invariant
                i <= 7,
                self.wf(),
                !found ==> (bucket_idx == 7 && forall|j: int|
                    0 <= j < i ==> delay_us >= self.bucket_limits_us@[j]),
                found ==> (bucket_idx < 7 && bucket_idx == spec_bucket_index(delay_us)),
            decreases 7 - i,
        {
            if !found && delay_us < self.bucket_limits_us[i] {
                bucket_idx = i;
                found = true;
                proof {
                    assert(bucket_idx == spec_bucket_index(delay_us));
                }
            }
            i = i + 1;
        }
        proof {
            assert(bucket_idx == spec_bucket_index(delay_us));
        }

        let b = self.buckets[bucket_idx];
        let b1 = if b < u64::MAX {
            b + 1
        } else {
            b
        };
        self.buckets[bucket_idx] = b1;
    }
}

/// One stage's delay record: a histogram.
#[derive(Debug)]
pub struct DelayMeasurement {
    /// The histogram of this stage's recorded delays.
    pub histogram: DelayHistogram,
}

/// A freshly built measurement: the fixed bucket limits, every counter
/// and bucket zero, the minimum at the top of the range.
pub open spec fn spec_fresh_measurement(m: DelayMeasurement) -> bool {
    &&& m.histogram.wf()
    &&& m.histogram.buckets@ =~= Seq::new(8, |i: int| 0u64)
    &&& m.histogram.total_samples == 0
    &&& m.histogram.sum_delay_us == 0
    &&& m.histogram.min_delay_us == u64::MAX
    &&& m.histogram.max_delay_us == 0
}

/// What one recorded delay (in nanoseconds) does to a measurement: the
/// microsecond value joins count, sum, minimum and maximum, and its
/// bucket's count grows by one; the limits stay.
pub open spec fn spec_recorded(pre: DelayMeasurement, post: DelayMeasurement, delay_ns: u64) -> bool {
    let m = spec_hist_record(pre.histogram, delay_ns);
    let idx = spec_bucket_index(delay_ns / 1000);
    &&& post.histogram.bucket_limits_us@ =~= pre.histogram.bucket_limits_us@
    &&& post.histogram.total_samples == m.total_samples
    &&& post.histogram.sum_delay_us == m.sum_delay_us
    &&& post.histogram.min_delay_us == m.min_delay_us
    &&& post.histogram.max_delay_us == m.max_delay_us
    &&& post.histogram.buckets@ =~= pre.histogram.buckets@.update(
        idx,
        spec_inc64(pre.histogram.buckets@[idx]),
    )
}

impl DelayMeasurement {
    /// An empty measurement.
    pub fn new() -> (r: Self)
        ensures
            spec_fresh_measurement(r),
    {
        DelayMeasurement { histogram: DelayHistogram::new() }
    }

    /// Folds one delay, in nanoseconds, into the histogram.
    pub fn record_delay(&mut self, delay_ns: u64)
        requires
            old(self).histogram.wf(),
        ensures
            final(self).histogram.wf(),
            spec_recorded(*old(self), *final(self), delay_ns),
    {
        self.histogram.record(delay_ns);
    }
}

/// The delay measurements of every pipeline stage, by name.
#[derive(Debug)]
pub struct DelayTracker {
    /// End-to-end delay per microphone frame.
    pub total_pipeline: DelayMeasurement,
    /// Wall-clock time per microphone frame through the main chain.
    pub processing_time: DelayMeasurement,
    /// The timestamp stage.
    pub timestamp_processor: DelayMeasurement,
    /// The pre-canceller resampling stage.
    pub webrtc_resample_processor: DelayMeasurement,
    /// The quantization stage.
    pub quantizer_processor: DelayMeasurement,
    /// The echo-cancellation stage.
    pub aec_processor: DelayMeasurement,
    /// The noise-suppression stage.
    pub ns_processor: DelayMeasurement,
    /// The final resampling stages.
    pub resample_processor: DelayMeasurement,
}

impl DelayTracker {
    /// Every stage's histogram is well formed.
    pub open spec fn wf(self) -> bool {
        &&& self.total_pipeline.histogram.wf()
        &&& self.processing_time.histogram.wf()
        &&& self.timestamp_processor.histogram.wf()
        &&& self.webrtc_resample_processor.histogram.wf()
        &&& self.quantizer_processor.histogram.wf()
        &&& self.aec_processor.histogram.wf()
        &&& self.ns_processor.histogram.wf()
        &&& self.resample_processor.histogram.wf()
    }

    /// One empty measurement per stage.
    pub fn new() -> (r: Self)
        ensures
            r.wf(),
            spec_fresh_measurement(r.total_pipeline),
            spec_fresh_measurement(r.processing_time),
            spec_fresh_measurement(r.timestamp_processor),
            spec_fresh_measurement(r.webrtc_resample_processor),
            spec_fresh_measurement(r.quantizer_processor),
            spec_fresh_measurement(r.aec_processor),
            spec_fresh_measurement(r.ns_processor),
            spec_fresh_measurement(r.resample_processor),
    {
        DelayTracker {
            total_pipeline: DelayMeasurement::new(),
            processing_time: DelayMeasurement::new(),
            timestamp_processor: DelayMeasurement::new(),
            webrtc_resample_processor: DelayMeasurement::new(),
            quantizer_processor: DelayMeasurement::new(),
            aec_processor: DelayMeasurement::new(),
            ns_processor: DelayMeasurement::new(),
            resample_processor: DelayMeasurement::new(),
        }
    }

    /// Folds one delay into the named stage's histogram; a name outside
    /// the fixed set records nothing.
    pub fn record(&mut self, stage: &str, delay_ns: u64)
        requires
            old(self).wf(),
        ensures
            final(self).wf(),
            stage@ == "total_pipeline"@ ==> spec_recorded(
                old(self).total_pipeline,
                final(self).total_pipeline,
                delay_ns,
            ),
            stage@ != "total_pipeline"@ ==> final(self).total_pipeline == old(
                self,
            ).total_pipeline,
            stage@ == "processing_time"@ ==> spec_recorded(
                old(self).processing_time,
                final(self).processing_time,
                delay_ns,
            ),
            stage@ != "processing_time"@ ==> final(self).processing_time == old(
                self,
            ).processing_time,
            stage@ == "timestamp_processor"@ ==> spec_recorded(
                old(self).timestamp_processor,
                final(self).timestamp_processor,
                delay_ns,
            ),
            stage@ != "timestamp_processor"@ ==> final(self).timestamp_processor == old(
                self,
            ).timestamp_processor,
            stage@ == "webrtc_resample_processor"@ ==> spec_recorded(
                old(self).webrtc_resample_processor,
                final(self).webrtc_resample_processor,
                delay_ns,
            ),
            stage@ != "webrtc_resample_processor"@ ==> final(self).webrtc_resample_processor
                == old(self).webrtc_resample_processor,
            stage@ == "quantizer_processor"@ ==> spec_recorded(
                old(self).quantizer_processor,
                final(self).quantizer_processor,
                delay_ns,
            ),
            stage@ != "quantizer_processor"@ ==> final(self).quantizer_processor == old(
                self,
            ).quantizer_processor,
            stage@ == "aec_processor"@ ==> spec_recorded(
                old(self).aec_processor,
                final(self).aec_processor,
                delay_ns,
            ),
            stage@ != "aec_processor"@ ==> final(self).aec_processor == old(self).aec_processor,
            stage@ == "ns_processor"@ ==> spec_recorded(
                old(self).ns_processor,
                final(self).ns_processor,
                delay_ns,
            ),
            stage@ != "ns_processor"@ ==> final(self).ns_processor == old(self).ns_processor,
            stage@ == "resample_processor"@ ==> spec_recorded(
                old(self).resample_processor,
                final(self).resample_processor,
                delay_ns,
            ),
            stage@ != "resample_processor"@ ==> final(self).resample_processor == old(
                self,
            ).resample_processor,
    {
        proof {
            reveal_strlit("total_pipeline");
            reveal_strlit("processing_time");
            reveal_strlit("timestamp_processor");
            reveal_strlit("webrtc_resample_processor");
            reveal_strlit("quantizer_processor");
            reveal_strlit("aec_processor");
            reveal_strlit("ns_processor");
            reveal_strlit("resample_processor");
            assert("total_pipeline"@.len() == 14);
            assert("processing_time"@.len() == 15);
            assert("timestamp_processor"@.len() == 19);
            assert("webrtc_resample_processor"@.len() == 25);
            assert("quantizer_processor"@.len() == 19);
            assert("aec_processor"@.len() == 13);
            assert("ns_processor"@.len() == 12);
            assert("resample_processor"@.len() == 18);
            assert("timestamp_processor"@[0] == 't');
            assert("quantizer_processor"@[0] == 'q');
        }
        if str_eq(stage, "total_pipeline") {
            self.total_pipeline.record_delay(delay_ns);
        } else if str_eq(stage, "processing_time") {
            self.processing_time.record_delay(delay_ns);
        } else if str_eq(stage, "timestamp_processor") {
            self.timestamp_processor.record_delay(delay_ns);
        } else if str_eq(stage, "webrtc_resample_processor") {
            self.webrtc_resample_processor.record_delay(delay_ns);
        } else if str_eq(stage, "quantizer_processor") {
            self.quantizer_processor.record_delay(delay_ns);
        } else if str_eq(stage, "aec_processor") {
            self.aec_processor.record_delay(delay_ns);
        } else if str_eq(stage, "ns_processor") {
            self.ns_processor.record_delay(delay_ns);
        } else if str_eq(stage, "resample_processor") {
            self.resample_processor.record_delay(delay_ns);
        }
    }
}

} // verus!
