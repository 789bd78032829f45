//! Noise-suppression gating.
//!
//! The suppression itself is the external audio-processing module's work,
//! done in place by the embedding.  This stage holds the decision: a frame
//! qualifies only when the stage is enabled and the frame is exactly the
//! module's required size at 48 kHz mono; anything else passes through
//! untouched.  Frames are never dropped here.

use vstd::prelude::*;
use crate::config::AudioProcessingConfig;
use crate::frame::AudioFrame;
use crate::frame::FrameView;

verus! {

/// Samples per frame the suppression module requires: 10 ms at 48 kHz.
pub const NS_REQUIRED_SAMPLES: usize = 480;

/// The noise-suppression stage: configuration and the qualifying rule.
pub struct NoiseSuppressionProcessor {
    enabled: bool,
    config: AudioProcessingConfig,
}

impl NoiseSuppressionProcessor {
    /// Whether the stage was built enabled.
    pub closed spec fn spec_enabled(self) -> bool {
        self.enabled
    }

    /// The configuration the stage was built with.
    pub closed spec fn spec_config(self) -> AudioProcessingConfig {
        self.config
    }

    /// Whether a frame qualifies for suppression: the stage is enabled and
    /// the frame is exactly the required size at 48 kHz mono.
    pub open spec fn spec_accepts(self, frame: FrameView) -> bool {
        &&& self.spec_enabled()
        &&& frame.samples.len() == NS_REQUIRED_SAMPLES
        &&& frame.sample_rate == 48000
        &&& frame.channels == 1
    }

    /// Builds the stage; it is active exactly when the configuration asks
    /// for noise suppression.
    pub fn new(config: AudioProcessingConfig) -> (r: Self)
        ensures
            r.spec_enabled() == config.enable_ns,
            r.spec_config() == config,
    {
        NoiseSuppressionProcessor { enabled: config.enable_ns, config }
    }

    /// Whether the stage was built enabled.
    pub fn is_enabled(&self) -> (r: bool)
        ensures
            r == self.spec_enabled(),
    {
        self.enabled
    }

    /// Whether this frame qualifies for suppression; the embedding runs
    /// the module in place exactly on qualifying frames.
    pub fn accepts_frame(&self, frame: &AudioFrame) -> (r: bool)
        ensures
            r == self.spec_accepts(frame@),
    {
        self.enabled && frame.samples.len() == NS_REQUIRED_SAMPLES && frame.sample_rate == 48000
            && frame.channels == 1
    }

    /// Emits the frame unchanged; a frame that does not qualify is passed
    /// through by design rather than dropped.
    pub fn process(&mut self, frame: AudioFrame) -> (r: Option<AudioFrame>)
        ensures
            *final(self) == *old(self),
            r is Some,
            r->Some_0@ == frame@,
    {
        Some(frame)
    }

    /// Nothing is buffered, so nothing is flushed.
    pub fn flush(&mut self) -> (r: Vec<AudioFrame>)
        ensures
            *final(self) == *old(self),
            r@.len() == 0,
    {
        Vec::new()
    }

    /// Keeps the stage's activation; the embedding rebuilds its module.
    pub fn reset(&mut self)
        ensures
            *final(self) == *old(self),
    {
    }
}

} // verus!
