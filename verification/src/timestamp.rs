//! Timestamp normalization.
//!
//! The two capture streams carry clocks with different origins.  This stage
//! rebases both onto one wall-clock epoch sampled when the normalizer is
//! built, so that downstream delay measurements across sources are
//! meaningful.  Saturating arithmetic tolerates rare clock regressions and
//! keeps every output at or above the epoch.

use vstd::prelude::*;
use crate::frame::AudioFrame;
use crate::frame::AudioSourceType;

verus! {

/// Reads the wall clock as nanoseconds since the Unix epoch.
///
/// Relies on `std::time::SystemTime::now` and
/// `SystemTime::duration_since(UNIX_EPOCH)`; a clock before the epoch is
/// reported as zero.  The result depends on the machine's clock, so nothing
/// is promised of it.
#[verifier::external_body]
pub(crate) fn wall_clock_ns() -> u64 {
    std::time::SystemTime::now()
        .duration_since(std::time::UNIX_EPOCH)
        .unwrap_or_default()
        .as_nanos() as u64
}

/// What a raw per-source timestamp becomes once the source's first raw
/// timestamp `anchor` is known: the shared epoch plus the saturated distance
/// from the anchor, itself saturated at the top of the range.
pub open spec fn spec_rebase(epoch: u64, anchor: u64, raw: u64) -> u64 {
    let delta: int = if raw >= anchor {
        raw - anchor
    } else {
        0
    };
    if epoch + delta > u64::MAX {
        u64::MAX
    } else {
        (epoch + delta) as u64
    }
}

/// Rebases each source's clock onto a shared epoch.
pub struct TimestampNormalizer {
    /// First raw timestamp seen on the system stream, once any.
    first_sys_timestamp: Option<u64>,
    /// First raw timestamp seen on the microphone stream, once any.
    first_mic_timestamp: Option<u64>,
    /// The shared epoch every output is rebased onto.
    normalized_start_time: u64,
}

impl TimestampNormalizer {
    /// The anchor recorded for the given source, if any frame was seen.
    pub closed spec fn spec_anchor(self, source: AudioSourceType) -> Option<u64> {
        match source {
            AudioSourceType::System => self.first_sys_timestamp,
            AudioSourceType::Microphone => self.first_mic_timestamp,
        }
    }

    /// The shared epoch.
    pub closed spec fn spec_epoch(self) -> u64 {
        self.normalized_start_time
    }

    /// Builds a normalizer whose epoch is the wall clock at this moment.
    pub fn new() -> (r: Self)
        ensures
            r.spec_anchor(AudioSourceType::System) is None,
            r.spec_anchor(AudioSourceType::Microphone) is None,
    {
        let normalized_start_time = wall_clock_ns();
        TimestampNormalizer {
            first_sys_timestamp: None,
            first_mic_timestamp: None,
            normalized_start_time,
        }
    }

    /// Rebases one raw timestamp; the first raw timestamp of each source
    /// becomes that source's anchor and maps to the epoch itself.
    pub fn normalize_timestamp(&mut self, timestamp: u64, source: AudioSourceType) -> (r: u64)
        ensures
            final(self).spec_epoch() == old(self).spec_epoch(),
            final(self).spec_anchor(source) == (match old(self).spec_anchor(source) {
                Some(a) => Some(a),
                None => Some(timestamp),
            }),
            source != AudioSourceType::System ==>
                final(self).spec_anchor(AudioSourceType::System)
                    == old(self).spec_anchor(AudioSourceType::System),
            source != AudioSourceType::Microphone ==>
                final(self).spec_anchor(AudioSourceType::Microphone)
                    == old(self).spec_anchor(AudioSourceType::Microphone),
            r == (match old(self).spec_anchor(source) {
                Some(a) => spec_rebase(old(self).spec_epoch(), a, timestamp),
                None => old(self).spec_epoch(),
            }),
            r >= old(self).spec_epoch(),
    {
        match source {
            AudioSourceType::System => {
                if let Some(first) = self.first_sys_timestamp {
                    let delta = if timestamp >= first {
                        timestamp - first
                    } else {
                        0
                    };
                    if self.normalized_start_time <= u64::MAX - delta {
                        self.normalized_start_time + delta
                    } else {
                        u64::MAX
                    }
                } else {
                    self.first_sys_timestamp = Some(timestamp);
                    self.normalized_start_time
                }
            }
            AudioSourceType::Microphone => {
                if let Some(first) = self.first_mic_timestamp {
                    let delta = if timestamp >= first {
                        timestamp - first
                    } else {
                        0
                    };
                    if self.normalized_start_time <= u64::MAX - delta {
                        self.normalized_start_time + delta
                    } else {
                        u64::MAX
                    }
                } else {
                    self.first_mic_timestamp = Some(timestamp);
                    self.normalized_start_time
                }
            }
        }
    }

    /// Rewrites the frame's timestamp onto the shared epoch; emits the frame.
    pub fn process(&mut self, frame: AudioFrame) -> (r: Option<AudioFrame>)
        ensures
            r is Some,
            ({
                let out = r->Some_0;
                &&& out.source == frame.source
                &&& out.samples@ == frame.samples@
                &&& out.sample_rate == frame.sample_rate
                &&& out.channels == frame.channels
                &&& out.timestamp == (match old(self).spec_anchor(frame.source) {
                    Some(a) => spec_rebase(old(self).spec_epoch(), a, frame.timestamp),
                    None => old(self).spec_epoch(),
                })
                &&& out.timestamp >= old(self).spec_epoch()
            }),
            final(self).spec_epoch() == old(self).spec_epoch(),
            frame.source != AudioSourceType::System ==>
                final(self).spec_anchor(AudioSourceType::System)
                    == old(self).spec_anchor(AudioSourceType::System),
            frame.source != AudioSourceType::Microphone ==>
                final(self).spec_anchor(AudioSourceType::Microphone)
                    == old(self).spec_anchor(AudioSourceType::Microphone),
    {
        let mut frame = frame;
        frame.timestamp = self.normalize_timestamp(frame.timestamp, frame.source);
        Some(frame)
    }

    /// Nothing is buffered, so nothing is flushed.
    pub fn flush(&mut self) -> (r: Vec<AudioFrame>)
        ensures
            r@.len() == 0,
            *final(self) == *old(self),
    {
        Vec::new()
    }

    /// Forgets both anchors and samples a fresh epoch.
    pub fn reset(&mut self)
        ensures
            final(self).spec_anchor(AudioSourceType::System) is None,
            final(self).spec_anchor(AudioSourceType::Microphone) is None,
    {
        self.first_sys_timestamp = None;
        self.first_mic_timestamp = None;
        self.normalized_start_time = wall_clock_ns();
    }
}

/// What a media timestamp given as a tick count over a timescale becomes
/// in nanoseconds: the exact quotient `value * 1e9 / timescale`, zero for
/// a negative count or a non-positive timescale, and saturated at the top
/// of the range.
pub open spec fn spec_cm_time_to_ns(value: i64, timescale: i32) -> u64 {
    if timescale <= 0 || value < 0 {
        0
    } else {
        let exact = (value as int) * 1_000_000_000 / (timescale as int);
        if exact > u64::MAX {
            u64::MAX
        } else {
            exact as u64
        }
    }
}

/// Converts a media timestamp — a tick count over a timescale — to
/// nanoseconds, exactly and without overflow; invalid inputs map to zero
/// and a result beyond the range saturates.
pub fn cm_time_to_ns(value: i64, timescale: i32) -> (r: u64)
    ensures
        r == spec_cm_time_to_ns(value, timescale),
{
    if timescale <= 0 || value < 0 {
        return 0;
    }
    proof {
        assert((value as int) * 1_000_000_000 <= (i64::MAX as int) * 1_000_000_000)
            by (nonlinear_arith)
            requires
                0 <= value as int <= i64::MAX as int,
        ;
    }
    let scaled: u128 = (value as u128) * 1_000_000_000u128;
    let q: u128 = scaled / (timescale as u128);
    if q > u64::MAX as u128 {
        u64::MAX
    } else {
        q as u64
    }
}

/// Within one source, rebasing keeps order: raw timestamps that do not
/// regress map to normalized timestamps that do not regress, and every
/// normalized timestamp is at least the source's first normalized timestamp,
/// which is the epoch itself.
pub proof fn lemma_rebase_monotonic(epoch: u64, anchor: u64, raw1: u64, raw2: u64)
    requires
        raw1 <= raw2,
    ensures
        spec_rebase(epoch, anchor, raw1) <= spec_rebase(epoch, anchor, raw2),
        spec_rebase(epoch, anchor, raw1) >= epoch,
{
}

} // verus!
