//! The universal audio frame and its sample representation.
//!
//! Samples are fixed-point PCM values: an `i32` counts millionths of full
//! scale, so `FULL_SCALE` stands for an amplitude of one.  Interleaved
//! multi-channel data keeps one sample per channel per frame position.

use vstd::prelude::*;

verus! {

/// Amplitude of one, in fixed-point sample units.
pub const FULL_SCALE: i32 = 1_000_000;

/// Samples whose magnitude reaches this many units count as signal activity.
pub const ACTIVITY_THRESHOLD: i32 = 100;

/// Which capture stream a frame belongs to.
#[derive(Clone, Copy, Debug, PartialEq, Eq, Structural)]
pub enum AudioSourceType {
    /// The primary stream: the near-end voice capture.
    Microphone,
    /// The reference stream: system audio, used as the echo reference.
    System,
}

/// One buffer of audio on its way through the pipeline.
#[derive(Debug)]
pub struct AudioFrame {
    /// Which stream the frame belongs to.
    pub source: AudioSourceType,
    /// Fixed-point PCM data; interleaved when `channels > 1`.
    pub samples: Vec<i32>,
    /// Sample rate in Hz; stages may rewrite it.
    pub sample_rate: u32,
    /// Channel count; stages may rewrite it.
    pub channels: u16,
    /// Presentation timestamp in nanoseconds.
    pub timestamp: u64,
}

/// The mathematical model of a frame: the same fields with the sample
/// buffer abstracted to a sequence.
pub struct FrameView {
    /// Which stream the frame belongs to.
    pub source: AudioSourceType,
    /// The samples as a sequence.
    pub samples: Seq<i32>,
    /// Sample rate in Hz.
    pub sample_rate: u32,
    /// Channel count.
    pub channels: u16,
    /// Presentation timestamp in nanoseconds.
    pub timestamp: u64,
}

impl View for AudioFrame {
    type V = FrameView;

    open spec fn view(&self) -> FrameView {
        FrameView {
            source: self.source,
            samples: self.samples@,
            sample_rate: self.sample_rate,
            channels: self.channels,
            timestamp: self.timestamp,
        }
    }
}

/// The stream a source shares the pipeline with.
pub open spec fn spec_other_source(s: AudioSourceType) -> AudioSourceType {
    match s {
        AudioSourceType::Microphone => AudioSourceType::System,
        AudioSourceType::System => AudioSourceType::Microphone,
    }
}

/// The sequence of models behind a sequence of frames.
pub open spec fn frames_view(s: Seq<AudioFrame>) -> Seq<FrameView> {
    s.map_values(|f: AudioFrame| f@)
}

/// The sequence of frame models that an optional emission stands for.
pub open spec fn spec_opt_frame(r: Option<AudioFrame>) -> Seq<FrameView> {
    match r {
        Some(f) => seq![f@],
        None => Seq::empty(),
    }
}

impl AudioFrame {
    /// A frame is well formed when its interleaving is consistent.
    pub open spec fn well_formed(self) -> bool {
        self.channels >= 1 && self.samples@.len() as int % (self.channels as int) == 0
    }
}

impl Clone for AudioFrame {
    fn clone(&self) -> (r: Self)
        ensures
            r.source == self.source,
            r.samples@ == self.samples@,
            r.sample_rate == self.sample_rate,
            r.channels == self.channels,
            r.timestamp == self.timestamp,
    {
        AudioFrame {
            source: self.source,
            samples: self.samples.clone(),
            sample_rate: self.sample_rate,
            channels: self.channels,
            timestamp: self.timestamp,
        }
    }
}

/// Whether a single sample counts as signal activity.
pub open spec fn spec_sample_active(s: i32) -> bool {
    s >= ACTIVITY_THRESHOLD || s <= -ACTIVITY_THRESHOLD
}

/// Whether any sample of the sequence counts as signal activity.
pub open spec fn spec_any_active(samples: Seq<i32>) -> bool {
    exists|i: int| 0 <= i < samples.len() && spec_sample_active(samples[i])
}

/// True when any sample's magnitude reaches the activity threshold.
pub fn frame_is_active(samples: &Vec<i32>) -> (r: bool)
    ensures
        r == spec_any_active(samples@),
{
    let mut i: usize = 0;
    while i < samples.len()
        invariant
            i <= samples@.len(),
            forall|j: int| 0 <= j < i ==> !spec_sample_active(samples@[j]),
        decreases samples@.len() - i,
    {
        let s = samples[i];
        if s >= ACTIVITY_THRESHOLD || s <= -ACTIVITY_THRESHOLD {
            return true;
        }
        i = i + 1;
    }
    false
}

/// What one fixed-point sample becomes as a signed 16-bit PCM value:
/// clamped to full scale, then rescaled to the 16-bit range.
pub open spec fn spec_sample_to_i16(s: i32) -> i16 {
    let clamped: int = if s < -FULL_SCALE {
        -FULL_SCALE as int
    } else if s > FULL_SCALE {
        FULL_SCALE as int
    } else {
        s as int
    };
    if clamped >= 0 {
        ((clamped * i16::MAX as int) / FULL_SCALE as int) as i16
    } else {
        (-(((-clamped) * i16::MAX as int) / FULL_SCALE as int)) as i16
    }
}

/// Converts one sample to signed 16-bit PCM.
pub fn sample_to_i16(s: i32) -> (r: i16)
    ensures
        r == spec_sample_to_i16(s),
{
    let clamped: i32 = if s < -FULL_SCALE {
        -FULL_SCALE
    } else if s > FULL_SCALE {
        FULL_SCALE
    } else {
        s
    };
    if clamped >= 0 {
        let wide: i64 = (clamped as i64) * (i16::MAX as i64);
        (wide / (FULL_SCALE as i64)) as i16
    } else {
        let wide: i64 = (-(clamped as i64)) * (i16::MAX as i64);
        (-(wide / (FULL_SCALE as i64))) as i16
    }
}

/// Converts a whole sample buffer to signed 16-bit PCM, in order.
pub fn samples_to_i16(samples: &Vec<i32>) -> (r: Vec<i16>)
    ensures
        r@.len() == samples@.len(),
        forall|i: int| 0 <= i < samples@.len() ==> r@[i] == spec_sample_to_i16(#[trigger] samples@[i]),
{
    let mut out: Vec<i16> = Vec::new();
    let mut i: usize = 0;
    while i < samples.len()
        invariant
            i <= samples@.len(),
            out@.len() == i,
            forall|j: int| 0 <= j < i ==> out@[j] == spec_sample_to_i16(#[trigger] samples@[j]),
        decreases samples@.len() - i,
    {
        out.push(sample_to_i16(samples[i]));
        i = i + 1;
    }
    out
}

} // verus!
