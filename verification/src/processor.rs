//! The uniform processor interface.
//!
//! Every stage answers one frame with at most one frame, hands further
//! buffered output out through `drain_ready`, flushes what remains at
//! shutdown, and can be reset.  Nothing here blocks or spawns.

use vstd::prelude::*;
use crate::frame::AudioFrame;

verus! {

/// One stage of the pipeline: one frame in, at most one frame out, with a
/// drain for stages that buffer.
pub trait AudioProcessor {
    /// Processes one frame; `None` means more input is needed or the
    /// frame was consumed.
    fn process(&mut self, frame: AudioFrame) -> Option<AudioFrame>;

    /// Hands out one more ready frame from earlier buffered input.
    /// Stages that answer strictly one-for-one keep this default.
    fn drain_ready(&mut self) -> Option<AudioFrame> {
        None
    }

    /// Flushes whatever is still buffered, at shutdown.
    fn flush(&mut self) -> Vec<AudioFrame>;

    /// Clears buffered state and counters.
    fn reset(&mut self);
}

/// A stage that passes every frame through unchanged.
pub struct PassthroughProcessor;

impl PassthroughProcessor {
    /// Emits the frame exactly as it came.
    pub fn process(&mut self, frame: AudioFrame) -> (r: Option<AudioFrame>)
        ensures
            r is Some,
            r->Some_0@ == frame@,
    {
        Some(frame)
    }

    /// Nothing is buffered, so nothing is flushed.
    pub fn flush(&mut self) -> (r: Vec<AudioFrame>)
        ensures
            r@.len() == 0,
    {
        Vec::new()
    }

    /// Nothing to clear.
    pub fn reset(&mut self) {
    }
}

impl AudioProcessor for PassthroughProcessor {
    fn process(&mut self, frame: AudioFrame) -> Option<AudioFrame> {
        PassthroughProcessor::process(self, frame)
    }

    fn flush(&mut self) -> Vec<AudioFrame> {
        PassthroughProcessor::flush(self)
    }

    fn reset(&mut self) {
        PassthroughProcessor::reset(self)
    }
}

} // verus!
