//! Core of a real-time two-stream audio processing engine.
//!
//! Two independently timed capture streams — a microphone ("near end") and a
//! system-audio reference ("far end") — are funnelled through a chain of
//! processors: timestamp normalization, rate/channel conversion, fixed-size
//! frame quantization, acoustic-echo-cancellation bookkeeping with an online
//! delay tuner, and noise-suppression gating.  Samples are fixed-point PCM:
//! an `i32` in units of one millionth of full scale.

pub mod aec;
pub mod config;
pub mod delay;
pub mod ns;
pub mod pipeline;
pub mod processor;
pub mod quantizer;
pub mod resample;
pub mod frame;
pub mod stats;
pub mod timestamp;

pub use frame::AudioFrame;
pub use frame::AudioSourceType;
