//! Rate and channel conversion with per-source state.
//!
//! Channel conversion — duplication up to stereo, arithmetic mean down to
//! mono — happens here, sample for sample.  When the source rate differs
//! from the target rate the stage only stages the work: converted samples
//! collect in a per-source input buffer, the embedding takes full chunks
//! out, runs them through its resampler, and hands the resampled samples
//! back, whereupon frames with extrapolated timestamps are queued.  With
//! equal rates the stage is a verified passthrough.  Two extractors pull
//! exactly framed output — 10 ms at the target format, or 480-sample
//! mono at 48 kHz — from the per-source queue.

use vstd::prelude::*;
use std::collections::VecDeque;
use crate::config::AudioProcessingConfig;
use crate::frame::AudioFrame;
use crate::frame::AudioSourceType;
use crate::frame::FrameView;
use crate::frame::frames_view;
use crate::frame::spec_opt_frame;
use crate::frame::spec_other_source;
use crate::quantizer::sat_u64;
use crate::quantizer::spec_quantum_ts;

verus! {

/// Division rounded toward zero, as machine division does it.
pub open spec fn spec_trunc_div(a: int, b: int) -> int
    recommends
        b >= 1,
{
    if a >= 0 {
        a / b
    } else {
        -((-a) / b)
    }
}

/// The sum of a sample sequence.
pub open spec fn spec_sum(s: Seq<i32>) -> int
    decreases s.len(),
{
    if s.len() == 0 {
        0int
    } else {
        spec_sum(s.drop_last()) + s.last()
    }
}

/// Appending one sample adds its value to the sum.
pub proof fn lemma_sum_push(s: Seq<i32>, x: i32)
    ensures
        spec_sum(s.push(x)) == spec_sum(s) + x,
{
    assert(s.push(x).drop_last() =~= s);
    assert(s.push(x).last() == x);
}

/// A sum of `len` samples lies within `len` times the sample range.
pub proof fn lemma_sum_bounds(s: Seq<i32>)
    ensures
        (i32::MIN as int) * s.len() <= spec_sum(s) <= (i32::MAX as int) * s.len(),
    decreases s.len(),
{
    if s.len() == 0 {
    } else {
        lemma_sum_bounds(s.drop_last());
        assert((i32::MIN as int) * s.len() == i32::MIN + (i32::MIN as int) * (s.len() - 1))
            by (nonlinear_arith);
        assert((i32::MAX as int) * s.len() == i32::MAX + (i32::MAX as int) * (s.len() - 1))
            by (nonlinear_arith);
    }
}

/// Interleaved multi-channel data folded to mono: each frame position
/// becomes the arithmetic mean of its `ch` lanes, rounded toward zero.
pub open spec fn spec_downmix(samples: Seq<i32>, ch: int) -> Seq<i32>
    recommends
        ch >= 1,
{
    Seq::new(
        (samples.len() as int / ch) as nat,
        |i: int| spec_trunc_div(spec_sum(samples.subrange(i * ch, (i + 1) * ch)), ch) as i32,
    )
}

/// Mono data duplicated into stereo: each sample appears twice in a row.
pub open spec fn spec_upmix(samples: Seq<i32>) -> Seq<i32> {
    Seq::new(samples.len() * 2, |i: int| samples[i / 2])
}

/// What channel conversion makes of a sample buffer: a mean-downmix to
/// mono, a duplication up to stereo, or the buffer unchanged.
pub open spec fn spec_converted(samples: Seq<i32>, in_ch: u16, out_ch: u16) -> Seq<i32> {
    if out_ch == 1 && in_ch > 1 {
        spec_downmix(samples, in_ch as int)
    } else if out_ch == 2 && in_ch == 1 {
        spec_upmix(samples)
    } else {
        samples
    }
}

/// Downmixing interleaved stereo `[a0, b0, a1, b1, ...]` yields the
/// pairwise means `[(a0+b0)/2, (a1+b1)/2, ...]`, each rounded toward zero.
pub proof fn lemma_stereo_downmix(samples: Seq<i32>)
    ensures
        spec_downmix(samples, 2).len() == samples.len() as int / 2,
        forall|i: int|
            0 <= i < samples.len() as int / 2 ==> #[trigger] spec_downmix(samples, 2)[i]
                == spec_trunc_div(samples[2 * i] + samples[2 * i + 1], 2) as i32,
{
    assert forall|i: int| 0 <= i < samples.len() as int / 2 implies #[trigger] spec_downmix(
        samples,
        2,
    )[i] == spec_trunc_div(samples[2 * i] + samples[2 * i + 1], 2) as i32 by {
        let pair = samples.subrange(2 * i, 2 * i + 2);
        assert(pair.len() == 2);
        assert(pair.drop_last().len() == 1);
        assert(pair.drop_last().drop_last().len() == 0);
        assert(spec_sum(pair.drop_last().drop_last()) == 0);
        assert(pair.drop_last().last() == samples[2 * i]);
        assert(pair.last() == samples[2 * i + 1]);
        assert(spec_sum(pair.drop_last()) == samples[2 * i]);
        assert(spec_sum(pair) == samples[2 * i] + samples[2 * i + 1]);
    }
}

/// Per-source conversion state.
struct StreamState {
    /// Whether an external resampler is attached to this stream.
    has_resampler: bool,
    /// The rate the stream's input arrives at.
    source_rate: u32,
    /// Converted samples waiting to be taken out in resampler chunks.
    input_buffer: VecDeque<i32>,
    /// Converted samples flowing through when no resampler is attached.
    output_queue: VecDeque<i32>,
    /// The timestamp anchoring the first sample of the current run.
    current_timestamp: u64,
    /// Output samples per channel emitted since the anchor was set.
    buffered_samples: u64,
    /// Frames ready to be handed out.
    ready_queue: VecDeque<AudioFrame>,
}

impl StreamState {
    fn new(source_rate: u32, target_rate: u32) -> (r: Self)
        ensures
            r.has_resampler == (source_rate != target_rate),
            r.source_rate == source_rate,
            r.input_buffer@.len() == 0,
            r.output_queue@.len() == 0,
            r.current_timestamp == 0,
            r.buffered_samples == 0,
            r.ready_queue@.len() == 0,
    {
        StreamState {
            has_resampler: source_rate != target_rate,
            source_rate,
            input_buffer: VecDeque::new(),
            output_queue: VecDeque::new(),
            current_timestamp: 0,
            buffered_samples: 0,
            ready_queue: VecDeque::new(),
        }
    }

    fn reset(&mut self)
        ensures
            final(self).has_resampler == old(self).has_resampler,
            final(self).source_rate == old(self).source_rate,
            final(self).input_buffer@.len() == 0,
            final(self).output_queue@.len() == 0,
            final(self).current_timestamp == 0,
            final(self).buffered_samples == 0,
            final(self).ready_queue@.len() == 0,
    {
        self.input_buffer.clear();
        self.output_queue.clear();
        self.current_timestamp = 0;
        self.buffered_samples = 0;
        self.ready_queue.clear();
    }
}

/// Rate and channel conversion between the capture format and a target
/// format, with independent state per source.
pub struct ResampleProcessor {
    mic_state: StreamState,
    sys_state: StreamState,
    chunk_size: usize,
    target_rate: u32,
    target_channels: u16,
    source_type: AudioSourceType,
    last_processed_source: AudioSourceType,
}

impl ResampleProcessor {
    /// Whether an external resampler is attached to the given source.
    pub closed spec fn spec_has_resampler(self, source: AudioSourceType) -> bool {
        match source {
            AudioSourceType::Microphone => self.mic_state.has_resampler,
            AudioSourceType::System => self.sys_state.has_resampler,
        }
    }

    /// The rate the given source's input arrives at.
    pub closed spec fn spec_source_rate(self, source: AudioSourceType) -> u32 {
        match source {
            AudioSourceType::Microphone => self.mic_state.source_rate,
            AudioSourceType::System => self.sys_state.source_rate,
        }
    }

    /// The given source's staged resampler input.
    pub closed spec fn spec_input(self, source: AudioSourceType) -> Seq<i32> {
        match source {
            AudioSourceType::Microphone => self.mic_state.input_buffer@,
            AudioSourceType::System => self.sys_state.input_buffer@,
        }
    }

    /// The given source's passthrough output queue.
    pub closed spec fn spec_queue(self, source: AudioSourceType) -> Seq<i32> {
        match source {
            AudioSourceType::Microphone => self.mic_state.output_queue@,
            AudioSourceType::System => self.sys_state.output_queue@,
        }
    }

    /// The given source's timestamp anchor.
    pub closed spec fn spec_anchor(self, source: AudioSourceType) -> u64 {
        match source {
            AudioSourceType::Microphone => self.mic_state.current_timestamp,
            AudioSourceType::System => self.sys_state.current_timestamp,
        }
    }

    /// Output samples per channel emitted since the anchor was set.
    pub closed spec fn spec_buffered(self, source: AudioSourceType) -> u64 {
        match source {
            AudioSourceType::Microphone => self.mic_state.buffered_samples,
            AudioSourceType::System => self.sys_state.buffered_samples,
        }
    }

    /// The given source's frames ready to be handed out.
    pub closed spec fn spec_ready(self, source: AudioSourceType) -> Seq<FrameView> {
        match source {
            AudioSourceType::Microphone => frames_view(self.mic_state.ready_queue@),
            AudioSourceType::System => frames_view(self.sys_state.ready_queue@),
        }
    }

    /// Samples per channel in one resampler chunk.
    pub closed spec fn spec_chunk(self) -> int {
        self.chunk_size as int
    }

    /// The rate this stage converts to.
    pub closed spec fn spec_target_rate(self) -> u32 {
        self.target_rate
    }

    /// The channel count this stage converts to.
    pub closed spec fn spec_target_channels(self) -> u16 {
        self.target_channels
    }

    /// The source whose queue the fixed-size extractors read.
    pub closed spec fn spec_source_type(self) -> AudioSourceType {
        self.source_type
    }

    /// The source of the most recently processed frame.
    pub closed spec fn spec_last_source(self) -> AudioSourceType {
        self.last_processed_source
    }

    /// Well-formedness: positive chunk size, rate and channel count.
    pub open spec fn wf(self) -> bool {
        &&& 1 <= self.spec_chunk() <= 65536
        &&& self.spec_target_rate() >= 1
        &&& 1 <= self.spec_target_channels() <= 2
    }

    /// Whether one source's state equals another processor's, field for
    /// field.
    pub open spec fn source_state_eq(self, other: Self, source: AudioSourceType) -> bool {
        &&& self.spec_has_resampler(source) == other.spec_has_resampler(source)
        &&& self.spec_source_rate(source) == other.spec_source_rate(source)
        &&& self.spec_input(source) == other.spec_input(source)
        &&& self.spec_queue(source) == other.spec_queue(source)
        &&& self.spec_anchor(source) == other.spec_anchor(source)
        &&& self.spec_buffered(source) == other.spec_buffered(source)
        &&& self.spec_ready(source) == other.spec_ready(source)
    }

    /// Whether the configured target format equals another's.
    pub open spec fn config_eq(self, other: Self) -> bool {
        &&& self.spec_chunk() == other.spec_chunk()
        &&& self.spec_target_rate() == other.spec_target_rate()
        &&& self.spec_target_channels() == other.spec_target_channels()
        &&& self.spec_source_type() == other.spec_source_type()
    }

    /// Builds the stage for a source rate, a target format and the source
    /// whose queue the extractors read.  A stream needs an external
    /// resampler exactly when the rates differ.
    pub fn new(
        source_rate: u32,
        target_rate: u32,
        target_channels: u16,
        source_type: AudioSourceType,
    ) -> (r: Self)
        requires
            target_rate >= 1,
            1 <= target_channels <= 2,
        ensures
            r.wf(),
            r.spec_chunk() == 1024,
            r.spec_target_rate() == target_rate,
            r.spec_target_channels() == target_channels,
            r.spec_source_type() == source_type,
            r.spec_last_source() == source_type,
            forall|s: AudioSourceType|
                {
                    &&& #[trigger] r.spec_has_resampler(s) == (source_rate != target_rate)
                    &&& r.spec_source_rate(s) == source_rate
                    &&& r.spec_input(s).len() == 0
                    &&& r.spec_queue(s).len() == 0
                    &&& r.spec_anchor(s) == 0
                    &&& r.spec_buffered(s) == 0
                    &&& r.spec_ready(s).len() == 0
                },
    {
        let chunk_size: usize = 1024;
        ResampleProcessor {
            mic_state: StreamState::new(source_rate, target_rate),
            sys_state: StreamState::new(source_rate, target_rate),
            chunk_size,
            target_rate,
            target_channels,
            source_type,
            last_processed_source: source_type,
        }
    }

    /// Builds the final conversion stage of one source: 48 kHz capture
    /// into the configured output format.
    pub fn from_config(config: &AudioProcessingConfig, source_type: AudioSourceType) -> (r: Self)
        requires
            config.sample_rate >= 1,
            1 <= config.channels <= 2,
        ensures
            r.wf(),
            r.spec_target_rate() == config.sample_rate,
            r.spec_target_channels() == config.channels,
            r.spec_source_type() == source_type,
            r.spec_last_source() == source_type,
            forall|s: AudioSourceType|
                {
                    &&& #[trigger] r.spec_has_resampler(s) == (config.sample_rate != 48000)
                    &&& r.spec_source_rate(s) == 48000
                    &&& r.spec_input(s).len() == 0
                    &&& r.spec_queue(s).len() == 0
                    &&& r.spec_anchor(s) == 0
                    &&& r.spec_buffered(s) == 0
                    &&& r.spec_ready(s).len() == 0
                },
    {
        let r = Self::new(48000, config.sample_rate, config.channels, source_type);
        proof {
            assert(r.spec_has_resampler(AudioSourceType::Microphone) == (config.sample_rate
                != 48000));
            assert(r.spec_has_resampler(AudioSourceType::System) == (config.sample_rate != 48000));
            assert forall|s: AudioSourceType|
                {
                    &&& #[trigger] r.spec_has_resampler(s) == (config.sample_rate != 48000)
                    &&& r.spec_source_rate(s) == 48000
                    &&& r.spec_input(s).len() == 0
                    &&& r.spec_queue(s).len() == 0
                    &&& r.spec_anchor(s) == 0
                    &&& r.spec_buffered(s) == 0
                    &&& r.spec_ready(s).len() == 0
                } by {
                assert(r.spec_has_resampler(s) == (48000 != config.sample_rate));
            }
        }
        r
    }

    /// The target rate this stage converts to.
    pub fn target_rate(&self) -> (r: u32)
        ensures
            r == self.spec_target_rate(),
    {
        self.target_rate
    }

    /// The target channel count this stage converts to.
    pub fn target_channels(&self) -> (r: u16)
        ensures
            r == self.spec_target_channels(),
    {
        self.target_channels
    }

    /// The source of the most recently processed frame.
    pub fn last_source(&self) -> (r: AudioSourceType)
        ensures
            r == self.spec_last_source(),
    {
        self.last_processed_source
    }

    /// How many samples wait in the given source's passthrough queue.
    pub fn output_queue_len(&self, source: AudioSourceType) -> (r: usize)
        ensures
            r == self.spec_queue(source).len(),
    {
        match source {
            AudioSourceType::Microphone => self.mic_state.output_queue.len(),
            AudioSourceType::System => self.sys_state.output_queue.len(),
        }
    }

    /// How many samples wait in the given source's resampler input buffer.
    pub fn input_buffer_len(&self, source: AudioSourceType) -> (r: usize)
        ensures
            r == self.spec_input(source).len(),
    {
        match source {
            AudioSourceType::Microphone => self.mic_state.input_buffer.len(),
            AudioSourceType::System => self.sys_state.input_buffer.len(),
        }
    }

    /// Whether the given source expects an external resampler.
    pub fn needs_resampler(&self, source: AudioSourceType) -> (r: bool)
        ensures
            r == self.spec_has_resampler(source),
    {
        match source {
            AudioSourceType::Microphone => self.mic_state.has_resampler,
            AudioSourceType::System => self.sys_state.has_resampler,
        }
    }

    /// Detaches the given source's resampler: the stream runs as a
    /// passthrough from here on, as when resampler construction fails.
    /// Samples staged for the resampler that never came are dropped.
    pub fn fall_back_to_passthrough(&mut self, source: AudioSourceType)
        ensures
            !final(self).spec_has_resampler(source),
            final(self).spec_source_rate(source) == old(self).spec_source_rate(source),
            final(self).spec_input(source).len() == 0,
            final(self).spec_queue(source) == old(self).spec_queue(source),
            final(self).spec_anchor(source) == old(self).spec_anchor(source),
            final(self).spec_buffered(source) == old(self).spec_buffered(source),
            final(self).spec_ready(source) == old(self).spec_ready(source),
            final(self).source_state_eq(*old(self), spec_other_source(source)),
            final(self).config_eq(*old(self)),
            final(self).spec_last_source() == old(self).spec_last_source(),
    {
        match source {
            AudioSourceType::Microphone => {
                self.mic_state.has_resampler = false;
                self.mic_state.input_buffer.clear();
            }
            AudioSourceType::System => {
                self.sys_state.has_resampler = false;
                self.sys_state.input_buffer.clear();
            }
        }
    }

    /// The mutable per-source state.
    fn state_mut(&mut self, source: AudioSourceType) -> (r: &mut StreamState)
        ensures
            *r == (match source {
                AudioSourceType::Microphone => old(self).mic_state,
                AudioSourceType::System => old(self).sys_state,
            }),
            *final(self) == (match source {
                AudioSourceType::Microphone => ResampleProcessor {
                    mic_state: *final(r),
                    ..*old(self)
                },
                AudioSourceType::System => ResampleProcessor {
                    sys_state: *final(r),
                    ..*old(self)
                },
            }),
    {
        match source {
            AudioSourceType::Microphone => &mut self.mic_state,
            AudioSourceType::System => &mut self.sys_state,
        }
    }

    /// Converts a frame's samples to the target channel count: mean
    /// downmix to mono, duplication to stereo, else unchanged.
    pub fn convert_channels(&self, frame: &AudioFrame) -> (r: Vec<i32>)
        ensures
            r@ == spec_converted(frame.samples@, frame.channels, self.spec_target_channels()),
    {
        if self.target_channels == 1 && frame.channels > 1 {
            let ch: usize = frame.channels as usize;
            let n: usize = frame.samples.len() / ch;
            let mut out: Vec<i32> = Vec::new();
            let mut pos: usize = 0;
            let mut i: usize = 0;
            proof {
                assert(frame.samples@.len() as int / (frame.channels as int) == n as int);
            }
            while i < n
                invariant
                    1 <= ch <= 65535,
                    n == frame.samples@.len() as int / ch as int,
                    frame.samples@.len() <= usize::MAX,
                    i <= n,
                    pos == i * ch,
                    out@.len() == i,
                    forall|j: int|
                        0 <= j < i ==> #[trigger] out@[j] == spec_downmix(
                            frame.samples@,
                            ch as int,
                        )[j],
                decreases n - i,
            {
                proof {
                    assert((i + 1) * ch == i * ch + ch) by (nonlinear_arith);
                    assert((i + 1) * ch <= n * ch) by (nonlinear_arith)
                        requires
                            i + 1 <= n && ch >= 1,
                    ;
                    assert(n * ch <= frame.samples@.len()) by (nonlinear_arith)
                        requires
                            n == frame.samples@.len() as int / ch as int && ch >= 1,
                    ;
                }
                let mut sum: i64 = 0;
                let mut k: usize = 0;
                let ghost base = pos as int;
                while k < ch
                    invariant
                        1 <= ch <= 65535,
                        k <= ch,
                        0 <= base,
                        pos == base + k,
                        base + ch <= frame.samples@.len(),
                        frame.samples@.len() <= usize::MAX,
                        sum == spec_sum(frame.samples@.subrange(base, base + k)),
                        (i32::MIN as int) * k <= sum <= (i32::MAX as int) * k,
                    decreases ch - k,
                {
                    let s = frame.samples[pos];
                    proof {
                        let pre = frame.samples@.subrange(base, base + k);
                        assert(frame.samples@.subrange(base, base + k + 1) =~= pre.push(
                            frame.samples@[base + k],
                        ));
                        lemma_sum_push(pre, frame.samples@[base + k]);
                        lemma_sum_bounds(frame.samples@.subrange(base, base + k + 1));
                    }
                    sum = sum + s as i64;
                    pos = pos + 1;
                    k = k + 1;
                }
                let avg: i64 = if sum >= 0 {
                    sum / ch as i64
                } else {
                    -((-sum) / ch as i64)
                };
                proof {
                    assert(i32::MIN <= spec_trunc_div(sum as int, ch as int) <= i32::MAX)
                        by (nonlinear_arith)
                        requires
                            1 <= ch <= 65535,
                            (i32::MIN as int) * ch <= sum <= (i32::MAX as int) * ch,
                    ;
                    assert(frame.samples@.subrange(base, base + ch) =~= frame.samples@.subrange(
                        i as int * ch as int,
                        (i + 1) * ch as int,
                    ));
                }
                out.push(avg as i32);
                i = i + 1;
            }
            proof {
                assert(out@ =~= spec_downmix(frame.samples@, ch as int));
            }
            out
        } else if self.target_channels == 2 && frame.channels == 1 {
            let mut out: Vec<i32> = Vec::new();
            let mut i: usize = 0;
            while i < frame.samples.len()
                invariant
                    i <= frame.samples@.len(),
                    out@.len() == 2 * i,
                    forall|j: int| 0 <= j < 2 * i ==> #[trigger] out@[j] == frame.samples@[j / 2],
                decreases frame.samples@.len() - i,
            {
                let s = frame.samples[i];
                out.push(s);
                out.push(s);
                proof {
                    assert((2 * i) as int / 2 == i as int);
                    assert((2 * i + 1) as int / 2 == i as int);
                }
                i = i + 1;
            }
            proof {
                assert(out@ =~= spec_upmix(frame.samples@));
            }
            out
        } else {
            frame.samples.clone()
        }
    }

    /// The one frame a passthrough drain emits for a source, if any: the
    /// whole queue as one frame, stamped by extrapolation from the anchor.
    pub open spec fn spec_drained_frame(self, source: AudioSourceType) -> FrameView {
        FrameView {
            source,
            samples: self.spec_queue(source),
            sample_rate: if self.spec_source_rate(source) == self.spec_target_rate() {
                self.spec_target_rate()
            } else {
                self.spec_source_rate(source)
            },
            channels: self.spec_target_channels(),
            timestamp: spec_quantum_ts(
                self.spec_anchor(source),
                self.spec_buffered(source),
                self.spec_target_rate(),
            ),
        }
    }

    /// Drains the given source's whole passthrough queue into one frame
    /// on the ready queue; an empty queue emits nothing.
    fn drain_passthrough(&mut self, source: AudioSourceType)
        requires
            old(self).wf(),
        ensures
            final(self).wf(),
            final(self).config_eq(*old(self)),
            final(self).spec_last_source() == old(self).spec_last_source(),
            final(self).source_state_eq(*old(self), spec_other_source(source)),
            final(self).spec_has_resampler(source) == old(self).spec_has_resampler(source),
            final(self).spec_source_rate(source) == old(self).spec_source_rate(source),
            final(self).spec_input(source) == old(self).spec_input(source),
            final(self).spec_anchor(source) == old(self).spec_anchor(source),
            final(self).spec_queue(source).len() == 0,
            old(self).spec_queue(source).len() == 0 ==> (final(self).spec_ready(source) == old(
                self,
            ).spec_ready(source) && final(self).spec_buffered(source) == old(self).spec_buffered(
                source,
            )),
            old(self).spec_queue(source).len() > 0 ==> ({
                let fcount = old(self).spec_queue(source).len() as int / (old(
                    self,
                ).spec_target_channels() as int);
                &&& final(self).spec_ready(source) =~= old(self).spec_ready(source) + seq![
                    old(self).spec_drained_frame(source),
                ]
                &&& final(self).spec_buffered(source) == sat_u64(
                    old(self).spec_buffered(source) + fcount,
                )
            }),
    {
        let target_rate = self.target_rate;
        let target_channels = self.target_channels;
        let state = self.state_mut(source);
        if state.output_queue.len() == 0 {
            return ;
        }

        let ghost q0 = state.output_queue@;
        let ghost st0 = *state;
        let mut samples: Vec<i32> = Vec::new();
        while state.output_queue.len() > 0
            invariant
                samples@.len() + state.output_queue@.len() == q0.len(),
                samples@ =~= q0.take(samples@.len() as int),
                state.output_queue@ =~= q0.skip(samples@.len() as int),
                state.has_resampler == st0.has_resampler,
                state.source_rate == st0.source_rate,
                state.input_buffer@ == st0.input_buffer@,
                state.current_timestamp == st0.current_timestamp,
                state.buffered_samples == st0.buffered_samples,
                state.ready_queue@ == st0.ready_queue@,
            decreases state.output_queue@.len(),
        {
            let v = state.output_queue.pop_front().unwrap();
            samples.push(v);
        }
        proof {
            assert(samples@ =~= q0);
        }

        let frame_samples: usize = samples.len() / target_channels as usize;
        let frame_ts = crate::quantizer::quantum_timestamp(
            state.current_timestamp,
            state.buffered_samples,
            target_rate,
        );
        state.buffered_samples = if state.buffered_samples <= u64::MAX - frame_samples as u64 {
            state.buffered_samples + frame_samples as u64
        } else {
            u64::MAX
        };
        let sample_rate = if state.source_rate == target_rate {
            target_rate
        } else {
            state.source_rate
        };
        let ghost ready0 = state.ready_queue@;
        state.ready_queue.push_back(
            AudioFrame { source, samples, sample_rate, channels: target_channels, timestamp: frame_ts },
        );
        proof {
            assert(frames_view(state.ready_queue@) =~= frames_view(ready0).push(
                state.ready_queue@.last()@,
            ));
        }
    }

    /// Converts one frame's channels and stages or passes its samples.
    /// A fresh stream — nothing staged, nothing queued — adopts the
    /// frame's timestamp as its anchor.  A stream awaiting an external
    /// resampler only accumulates converted samples; a passthrough stream
    /// queues them and emits them as one frame.  The other source's state
    /// never moves.
    pub fn process(&mut self, frame: AudioFrame) -> (r: Option<AudioFrame>)
        requires
            old(self).wf(),
        ensures
            final(self).wf(),
            final(self).config_eq(*old(self)),
            final(self).spec_last_source() == frame.source,
            final(self).source_state_eq(*old(self), spec_other_source(frame.source)),
            ({
                let src = frame.source;
                let conv = spec_converted(
                    frame.samples@,
                    frame.channels,
                    old(self).spec_target_channels(),
                );
                let fresh = old(self).spec_input(src).len() == 0 && old(self).spec_queue(
                    src,
                ).len() == 0;
                let anchor = if fresh {
                    frame.timestamp
                } else {
                    old(self).spec_anchor(src)
                };
                let buffered0: int = if fresh {
                    0
                } else {
                    old(self).spec_buffered(src) as int
                };
                &&& final(self).spec_has_resampler(src) == old(self).spec_has_resampler(src)
                &&& final(self).spec_source_rate(src) == old(self).spec_source_rate(src)
                &&& final(self).spec_anchor(src) == anchor
                &&& (old(self).spec_has_resampler(src) ==> ({
                    &&& final(self).spec_input(src) =~= old(self).spec_input(src) + conv
                    &&& final(self).spec_queue(src) == old(self).spec_queue(src)
                    &&& final(self).spec_buffered(src) == buffered0
                    &&& spec_opt_frame(r) + final(self).spec_ready(src) =~= old(self).spec_ready(
                        src,
                    )
                }))
                &&& (!old(self).spec_has_resampler(src) ==> ({
                    let combined = old(self).spec_queue(src) + conv;
                    let emitted: Seq<FrameView> = if combined.len() == 0 {
                        Seq::empty()
                    } else {
                        seq![
                            FrameView {
                                source: src,
                                samples: combined,
                                sample_rate: if old(self).spec_source_rate(src) == old(
                                    self,
                                ).spec_target_rate() {
                                    old(self).spec_target_rate()
                                } else {
                                    old(self).spec_source_rate(src)
                                },
                                channels: old(self).spec_target_channels(),
                                timestamp: spec_quantum_ts(
                                    anchor,
                                    buffered0 as u64,
                                    old(self).spec_target_rate(),
                                ),
                            },
                        ]
                    };
                    let total = old(self).spec_ready(src) + emitted;
                    &&& final(self).spec_input(src) == old(self).spec_input(src)
                    &&& final(self).spec_queue(src).len() == 0
                    &&& final(self).spec_buffered(src) == (if combined.len() == 0 {
                        buffered0
                    } else {
                        sat_u64(
                            buffered0 + combined.len() as int / (old(
                                self,
                            ).spec_target_channels() as int),
                        ) as int
                    })
                    &&& spec_opt_frame(r) + final(self).spec_ready(src) =~= total
                    &&& (total.len() == 0 ==> r is None)
                    &&& (total.len() > 0 ==> (r is Some && r->Some_0@ == total[0]))
                }))
            }),
    {
        let source = frame.source;
        self.last_processed_source = source;
        let converted = self.convert_channels(&frame);

        let state = self.state_mut(source);
        if state.input_buffer.len() == 0 && state.output_queue.len() == 0 {
            state.current_timestamp = frame.timestamp;
            state.buffered_samples = 0;
        }

        let ghost st0 = *state;
        if state.has_resampler {
            let ghost in0 = state.input_buffer@;
            let mut i: usize = 0;
            while i < converted.len()
                invariant
                    i <= converted@.len(),
                    state.input_buffer@ =~= in0 + converted@.take(i as int),
                    state.has_resampler == st0.has_resampler,
                    state.source_rate == st0.source_rate,
                    state.output_queue@ == st0.output_queue@,
                    state.current_timestamp == st0.current_timestamp,
                    state.buffered_samples == st0.buffered_samples,
                    state.ready_queue@ == st0.ready_queue@,
                decreases converted@.len() - i,
            {
                state.input_buffer.push_back(converted[i]);
                i = i + 1;
            }
            proof {
                assert(state.input_buffer@ =~= in0 + converted@);
            }
        } else {
            let ghost q0 = state.output_queue@;
            let mut i: usize = 0;
            while i < converted.len()
                invariant
                    i <= converted@.len(),
                    state.output_queue@ =~= q0 + converted@.take(i as int),
                    state.has_resampler == st0.has_resampler,
                    state.source_rate == st0.source_rate,
                    state.input_buffer@ == st0.input_buffer@,
                    state.current_timestamp == st0.current_timestamp,
                    state.buffered_samples == st0.buffered_samples,
                    state.ready_queue@ == st0.ready_queue@,
                decreases converted@.len() - i,
            {
                state.output_queue.push_back(converted[i]);
                i = i + 1;
            }
            proof {
                assert(state.output_queue@ =~= q0 + converted@);
            }
        }

        if !self.needs_resampler(source) {
            self.drain_passthrough(source);
        }

        let state = self.state_mut(source);
        let ghost full = state.ready_queue@;
        let r = state.ready_queue.pop_front();
        proof {
            if full.len() > 0 {
                assert(r == Some(full[0]));
                assert(r->Some_0@ == frames_view(full)[0]);
                assert(frames_view(state.ready_queue@) =~= frames_view(full).skip(1));
            }
            assert(spec_opt_frame(r) + frames_view(state.ready_queue@) =~= frames_view(full));
        }
        r
    }

    /// Hands out the next ready frame of the most recently processed
    /// source, oldest first.
    pub fn drain_ready(&mut self) -> (r: Option<AudioFrame>)
        ensures
            final(self).config_eq(*old(self)),
            final(self).spec_last_source() == old(self).spec_last_source(),
            final(self).source_state_eq(
                *old(self),
                spec_other_source(old(self).spec_last_source()),
            ),
            ({
                let src = old(self).spec_last_source();
                &&& final(self).spec_has_resampler(src) == old(self).spec_has_resampler(src)
                &&& final(self).spec_source_rate(src) == old(self).spec_source_rate(src)
                &&& final(self).spec_input(src) == old(self).spec_input(src)
                &&& final(self).spec_queue(src) == old(self).spec_queue(src)
                &&& final(self).spec_anchor(src) == old(self).spec_anchor(src)
                &&& final(self).spec_buffered(src) == old(self).spec_buffered(src)
                &&& (old(self).spec_ready(src).len() == 0 ==> (r is None && final(self).spec_ready(
                    src,
                ).len() == 0))
                &&& (old(self).spec_ready(src).len() > 0 ==> (r is Some && r->Some_0@ == old(
                    self,
                ).spec_ready(src)[0] && final(self).spec_ready(src) =~= old(self).spec_ready(
                    src,
                ).skip(1)))
            }),
    {
        let source = self.last_processed_source;
        let state = self.state_mut(source);
        state.ready_queue.pop_front()
    }

    /// Hands out the next ready frame of the given source, oldest first.
    pub fn pop_ready(&mut self, source: AudioSourceType) -> (r: Option<AudioFrame>)
        ensures
            final(self).config_eq(*old(self)),
            final(self).spec_last_source() == old(self).spec_last_source(),
            final(self).source_state_eq(*old(self), spec_other_source(source)),
            final(self).spec_has_resampler(source) == old(self).spec_has_resampler(source),
            final(self).spec_source_rate(source) == old(self).spec_source_rate(source),
            final(self).spec_input(source) == old(self).spec_input(source),
            final(self).spec_queue(source) == old(self).spec_queue(source),
            final(self).spec_anchor(source) == old(self).spec_anchor(source),
            final(self).spec_buffered(source) == old(self).spec_buffered(source),
            old(self).spec_ready(source).len() == 0 ==> (r is None && final(self).spec_ready(
                source,
            ).len() == 0),
            old(self).spec_ready(source).len() > 0 ==> (r is Some && r->Some_0@ == old(
                self,
            ).spec_ready(source)[0] && final(self).spec_ready(source) =~= old(self).spec_ready(
                source,
            ).skip(1)),
    {
        let state = self.state_mut(source);
        state.ready_queue.pop_front()
    }

    /// Takes one full resampler chunk — chunk size times channel count
    /// samples — off the given source's staged input, if enough is there.
    /// The embedding resamples it and hands the output back through
    /// `push_resampler_output`.
    pub fn take_resampler_chunk(&mut self, source: AudioSourceType) -> (r: Option<Vec<i32>>)
        requires
            old(self).wf(),
        ensures
            final(self).wf(),
            final(self).config_eq(*old(self)),
            final(self).spec_last_source() == old(self).spec_last_source(),
            final(self).source_state_eq(*old(self), spec_other_source(source)),
            final(self).spec_has_resampler(source) == old(self).spec_has_resampler(source),
            final(self).spec_source_rate(source) == old(self).spec_source_rate(source),
            final(self).spec_queue(source) == old(self).spec_queue(source),
            final(self).spec_anchor(source) == old(self).spec_anchor(source),
            final(self).spec_buffered(source) == old(self).spec_buffered(source),
            final(self).spec_ready(source) == old(self).spec_ready(source),
            ({
                let need = old(self).spec_chunk() * (old(self).spec_target_channels() as int);
                if old(self).spec_input(source).len() < need {
                    r is None && final(self).spec_input(source) == old(self).spec_input(source)
                } else {
                    r is Some && r->Some_0@ =~= old(self).spec_input(source).take(need)
                        && final(self).spec_input(source) =~= old(self).spec_input(source).skip(
                        need,
                    )
                }
            }),
    {
        proof {
            assert((self.chunk_size as int) * (self.target_channels as int) <= 131072)
                by (nonlinear_arith)
                requires
                    1 <= self.chunk_size as int <= 65536,
                    1 <= self.target_channels as int <= 2,
            ;
        }
        let need: usize = self.chunk_size * self.target_channels as usize;
        let state = self.state_mut(source);
        if state.input_buffer.len() < need {
            return None;
        }

        let ghost in0 = state.input_buffer@;
        let ghost st0 = *state;
        let mut chunk: Vec<i32> = Vec::new();
        let mut i: usize = 0;
        while i < need
            invariant
                i <= need,
                need <= in0.len(),
                chunk@ =~= in0.take(i as int),
                state.input_buffer@ =~= in0.skip(i as int),
                state.has_resampler == st0.has_resampler,
                state.source_rate == st0.source_rate,
                state.output_queue@ == st0.output_queue@,
                state.current_timestamp == st0.current_timestamp,
                state.buffered_samples == st0.buffered_samples,
                state.ready_queue@ == st0.ready_queue@,
            decreases need - i,
        {
            let v = state.input_buffer.pop_front().unwrap();
            chunk.push(v);
            i = i + 1;
        }
        Some(chunk)
    }

    /// Accepts one resampled chunk back from the embedding: the samples
    /// become a frame at the target format, stamped by extrapolation from
    /// the anchor, on the source's ready queue.  An empty chunk is
    /// dropped.
    pub fn push_resampler_output(&mut self, source: AudioSourceType, samples: Vec<i32>)
        requires
            old(self).wf(),
        ensures
            final(self).wf(),
            final(self).config_eq(*old(self)),
            final(self).spec_last_source() == old(self).spec_last_source(),
            final(self).source_state_eq(*old(self), spec_other_source(source)),
            final(self).spec_has_resampler(source) == old(self).spec_has_resampler(source),
            final(self).spec_source_rate(source) == old(self).spec_source_rate(source),
            final(self).spec_input(source) == old(self).spec_input(source),
            final(self).spec_queue(source) == old(self).spec_queue(source),
            final(self).spec_anchor(source) == old(self).spec_anchor(source),
            samples@.len() == 0 ==> (final(self).spec_ready(source) == old(self).spec_ready(source)
                && final(self).spec_buffered(source) == old(self).spec_buffered(source)),
            samples@.len() > 0 ==> ({
                let fcount = samples@.len() as int / (old(self).spec_target_channels() as int);
                &&& final(self).spec_ready(source) =~= old(self).spec_ready(source) + seq![
                    FrameView {
                        source,
                        samples: samples@,
                        sample_rate: old(self).spec_target_rate(),
                        channels: old(self).spec_target_channels(),
                        timestamp: spec_quantum_ts(
                            old(self).spec_anchor(source),
                            old(self).spec_buffered(source),
                            old(self).spec_target_rate(),
                        ),
                    },
                ]
                &&& final(self).spec_buffered(source) == sat_u64(
                    old(self).spec_buffered(source) + fcount,
                )
            }),
    {
        if samples.len() == 0 {
            return ;
        }
        let target_rate = self.target_rate;
        let target_channels = self.target_channels;
        let state = self.state_mut(source);
        let frame_samples: usize = samples.len() / target_channels as usize;
        let frame_ts = crate::quantizer::quantum_timestamp(
            state.current_timestamp,
            state.buffered_samples,
            target_rate,
        );
        state.buffered_samples = if state.buffered_samples <= u64::MAX - frame_samples as u64 {
            state.buffered_samples + frame_samples as u64
        } else {
            u64::MAX
        };
        let ghost ready0 = state.ready_queue@;
        state.ready_queue.push_back(
            AudioFrame {
                source,
                samples,
                sample_rate: target_rate,
                channels: target_channels,
                timestamp: frame_ts,
            },
        );
        proof {
            assert(frames_view(state.ready_queue@) =~= frames_view(ready0).push(
                state.ready_queue@.last()@,
            ));
        }
    }

    /// Appends raw samples to the given source's output queue, for
    /// callers that feed the fixed-size extractors directly.
    pub fn extend_output_queue(&mut self, source: AudioSourceType, samples: &Vec<i32>)
        ensures
            final(self).config_eq(*old(self)),
            final(self).spec_last_source() == old(self).spec_last_source(),
            final(self).source_state_eq(*old(self), spec_other_source(source)),
            final(self).spec_has_resampler(source) == old(self).spec_has_resampler(source),
            final(self).spec_source_rate(source) == old(self).spec_source_rate(source),
            final(self).spec_input(source) == old(self).spec_input(source),
            final(self).spec_queue(source) =~= old(self).spec_queue(source) + samples@,
            final(self).spec_anchor(source) == old(self).spec_anchor(source),
            final(self).spec_buffered(source) == old(self).spec_buffered(source),
            final(self).spec_ready(source) == old(self).spec_ready(source),
    {
        let state = self.state_mut(source);
        let ghost q0 = state.output_queue@;
        let ghost st0 = *state;
        let mut i: usize = 0;
        while i < samples.len()
            invariant
                i <= samples@.len(),
                state.output_queue@ =~= q0 + samples@.take(i as int),
                state.has_resampler == st0.has_resampler,
                state.source_rate == st0.source_rate,
                state.input_buffer@ == st0.input_buffer@,
                state.current_timestamp == st0.current_timestamp,
                state.buffered_samples == st0.buffered_samples,
                state.ready_queue@ == st0.ready_queue@,
            decreases samples@.len() - i,
        {
            state.output_queue.push_back(samples[i]);
            i = i + 1;
        }
        proof {
            assert(state.output_queue@ =~= q0 + samples@);
        }
    }

    /// Pops exactly 10 ms at the target format — target rate over one
    /// hundred frame positions, times the channel count — off the
    /// configured source's queue, if enough is there.
    pub fn pop_10ms_frame(&mut self) -> (r: Option<AudioFrame>)
        requires
            old(self).wf(),
        ensures
            final(self).wf(),
            final(self).config_eq(*old(self)),
            final(self).spec_last_source() == old(self).spec_last_source(),
            final(self).source_state_eq(
                *old(self),
                spec_other_source(old(self).spec_source_type()),
            ),
            ({
                let src = old(self).spec_source_type();
                let fsize = old(self).spec_target_rate() as int / 100;
                let needed = fsize * (old(self).spec_target_channels() as int);
                &&& final(self).spec_has_resampler(src) == old(self).spec_has_resampler(src)
                &&& final(self).spec_source_rate(src) == old(self).spec_source_rate(src)
                &&& final(self).spec_input(src) == old(self).spec_input(src)
                &&& final(self).spec_ready(src) == old(self).spec_ready(src)
                &&& final(self).spec_anchor(src) == old(self).spec_anchor(src)
                &&& (old(self).spec_queue(src).len() < needed ==> (r is None && *final(self)
                    == *old(self)))
                &&& (old(self).spec_queue(src).len() >= needed ==> ({
                    &&& r is Some
                    &&& r->Some_0@ == (FrameView {
                        source: src,
                        samples: old(self).spec_queue(src).take(needed),
                        sample_rate: old(self).spec_target_rate(),
                        channels: old(self).spec_target_channels(),
                        timestamp: spec_quantum_ts(
                            old(self).spec_anchor(src),
                            old(self).spec_buffered(src),
                            old(self).spec_target_rate(),
                        ),
                    })
                    &&& final(self).spec_queue(src) =~= old(self).spec_queue(src).skip(needed)
                    &&& final(self).spec_buffered(src) == sat_u64(
                        old(self).spec_buffered(src) + fsize,
                    )
                }))
            }),
    {
        let frame_size: usize = (self.target_rate / 100) as usize;
        proof {
            assert((frame_size as int) * (self.target_channels as int) <= 2 * frame_size as int)
                by (nonlinear_arith)
                requires
                    1 <= self.target_channels as int <= 2,
                    frame_size as int >= 0,
            ;
        }
        let needed_samples: usize = frame_size * self.target_channels as usize;
        let target_rate = self.target_rate;
        let target_channels = self.target_channels;
        let source = self.source_type;
        let state = self.state_mut(source);

        if state.output_queue.len() < needed_samples {
            return None;
        }

        let ghost q0 = state.output_queue@;
        let ghost st0 = *state;
        let mut samples: Vec<i32> = Vec::new();
        let mut i: usize = 0;
        while i < needed_samples
            invariant
                i <= needed_samples,
                needed_samples <= q0.len(),
                samples@ =~= q0.take(i as int),
                state.output_queue@ =~= q0.skip(i as int),
                state.has_resampler == st0.has_resampler,
                state.source_rate == st0.source_rate,
                state.input_buffer@ == st0.input_buffer@,
                state.current_timestamp == st0.current_timestamp,
                state.buffered_samples == st0.buffered_samples,
                state.ready_queue@ == st0.ready_queue@,
            decreases needed_samples - i,
        {
            let v = state.output_queue.pop_front().unwrap();
            samples.push(v);
            i = i + 1;
        }

        let frame_ts = crate::quantizer::quantum_timestamp(
            state.current_timestamp,
            state.buffered_samples,
            target_rate,
        );
        state.buffered_samples = if state.buffered_samples <= u64::MAX - frame_size as u64 {
            state.buffered_samples + frame_size as u64
        } else {
            u64::MAX
        };

        Some(
            AudioFrame {
                source,
                samples,
                sample_rate: target_rate,
                channels: target_channels,
                timestamp: frame_ts,
            },
        )
    }

    /// Pops one 480-sample mono frame at 48 kHz — the echo canceller's
    /// native format — off the configured source's queue, downmixing a
    /// stereo queue pair by pair, if enough is there.
    pub fn pop_native_frame(&mut self) -> (r: Option<AudioFrame>)
        requires
            old(self).wf(),
        ensures
            final(self).wf(),
            final(self).config_eq(*old(self)),
            final(self).spec_last_source() == old(self).spec_last_source(),
            final(self).source_state_eq(
                *old(self),
                spec_other_source(old(self).spec_source_type()),
            ),
            ({
                let src = old(self).spec_source_type();
                let stereo = old(self).spec_target_channels() == 2;
                let needed: int = if stereo {
                    960
                } else {
                    480
                };
                &&& final(self).spec_has_resampler(src) == old(self).spec_has_resampler(src)
                &&& final(self).spec_source_rate(src) == old(self).spec_source_rate(src)
                &&& final(self).spec_input(src) == old(self).spec_input(src)
                &&& final(self).spec_ready(src) == old(self).spec_ready(src)
                &&& final(self).spec_anchor(src) == old(self).spec_anchor(src)
                &&& (old(self).spec_queue(src).len() < needed ==> (r is None && *final(self)
                    == *old(self)))
                &&& (old(self).spec_queue(src).len() >= needed ==> ({
                    let taken = old(self).spec_queue(src).take(needed);
                    &&& r is Some
                    &&& r->Some_0@ == (FrameView {
                        source: src,
                        samples: if stereo {
                            spec_downmix(taken, 2)
                        } else {
                            taken
                        },
                        sample_rate: 48000u32,
                        channels: 1u16,
                        timestamp: spec_quantum_ts(
                            old(self).spec_anchor(src),
                            old(self).spec_buffered(src),
                            48000,
                        ),
                    })
                    &&& final(self).spec_queue(src) =~= old(self).spec_queue(src).skip(needed)
                    &&& final(self).spec_buffered(src) == sat_u64(
                        old(self).spec_buffered(src) + 480,
                    )
                }))
            }),
    {
        let frame_size: usize = 480;
        let stereo = self.target_channels == 2;
        let needed_samples: usize = if stereo {
            960
        } else {
            480
        };
        let source = self.source_type;
        let state = self.state_mut(source);

        if state.output_queue.len() < needed_samples {
            return None;
        }

        let ghost q0 = state.output_queue@;
        let ghost st0 = *state;
        let mut taken: Vec<i32> = Vec::new();
        let mut i: usize = 0;
        while i < needed_samples
            invariant
                i <= needed_samples,
                needed_samples <= q0.len(),
                taken@ =~= q0.take(i as int),
                state.output_queue@ =~= q0.skip(i as int),
                state.has_resampler == st0.has_resampler,
                state.source_rate == st0.source_rate,
                state.input_buffer@ == st0.input_buffer@,
                state.current_timestamp == st0.current_timestamp,
                state.buffered_samples == st0.buffered_samples,
                state.ready_queue@ == st0.ready_queue@,
            decreases needed_samples - i,
        {
            let v = state.output_queue.pop_front().unwrap();
            taken.push(v);
            i = i + 1;
        }

        let samples: Vec<i32> = if stereo {
            let mut mono: Vec<i32> = Vec::new();
            let mut j: usize = 0;
            while j < 480
                invariant
                    taken@.len() == 960,
                    j <= 480,
                    mono@.len() == j,
                    forall|k: int| 0 <= k < j ==> #[trigger] mono@[k] == spec_downmix(taken@, 2)[k],
                decreases 480 - j,
            {
                let a = taken[2 * j];
                let b = taken[2 * j + 1];
                let sum: i64 = a as i64 + b as i64;
                let avg: i64 = if sum >= 0 {
                    sum / 2
                } else {
                    -((-sum) / 2)
                };
                proof {
                    assert(i32::MIN <= spec_trunc_div(sum as int, 2) <= i32::MAX)
                        by (nonlinear_arith)
                        requires
                            2 * (i32::MIN as int) <= sum <= 2 * (i32::MAX as int),
                    ;
                    let pair = taken@.subrange(2 * j, 2 * j + 2);
                    assert(pair.len() == 2);
                    assert(pair.drop_last().len() == 1);
                    assert(pair.drop_last().drop_last().len() == 0);
                    assert(spec_sum(pair.drop_last().drop_last()) == 0);
                    assert(pair.drop_last().last() == taken@[2 * j]);
                    assert(pair.last() == taken@[2 * j + 1]);
                    assert(spec_sum(pair.drop_last()) == taken@[2 * j]);
                    assert(spec_sum(pair) == taken@[2 * j] + taken@[2 * j + 1]);
                }
                mono.push(avg as i32);
                j = j + 1;
            }
            proof {
                assert(mono@ =~= spec_downmix(taken@, 2));
            }
            mono
        } else {
            taken
        };

        let frame_ts = crate::quantizer::quantum_timestamp(
            state.current_timestamp,
            state.buffered_samples,
            48000,
        );
        state.buffered_samples = if state.buffered_samples <= u64::MAX - frame_size as u64 {
            state.buffered_samples + frame_size as u64
        } else {
            u64::MAX
        };

        Some(
            AudioFrame { source, samples, sample_rate: 48000, channels: 1, timestamp: frame_ts },
        )
    }

    /// Empties one source at shutdown: its ready frames, then one frame
    /// holding whatever a passthrough stream still queues.  Input staged
    /// for an external resampler stays until the embedding takes it.
    fn flush_state(&mut self, source: AudioSourceType) -> (r: Vec<AudioFrame>)
        requires
            old(self).wf(),
        ensures
            final(self).wf(),
            final(self).config_eq(*old(self)),
            final(self).spec_last_source() == old(self).spec_last_source(),
            final(self).source_state_eq(*old(self), spec_other_source(source)),
            final(self).spec_has_resampler(source) == old(self).spec_has_resampler(source),
            final(self).spec_source_rate(source) == old(self).spec_source_rate(source),
            final(self).spec_input(source) == old(self).spec_input(source),
            final(self).spec_anchor(source) == old(self).spec_anchor(source),
            final(self).spec_ready(source).len() == 0,
            ({
                let tail: Seq<FrameView> = if !old(self).spec_has_resampler(source) && old(
                    self,
                ).spec_queue(source).len() > 0 {
                    seq![old(self).spec_drained_frame(source)]
                } else {
                    Seq::empty()
                };
                frames_view(r@) =~= old(self).spec_ready(source) + tail
            }),
            !old(self).spec_has_resampler(source) ==> final(self).spec_queue(source).len() == 0,
            old(self).spec_has_resampler(source) ==> final(self).spec_queue(source) == old(
                self,
            ).spec_queue(source),
    {
        let mut results: Vec<AudioFrame> = Vec::new();
        let ghost self0 = *self;

        let state = self.state_mut(source);
        let ghost ready0 = state.ready_queue@;
        let ghost st0 = *state;
        loop
            invariant
                frames_view(ready0) =~= frames_view(results@) + frames_view(state.ready_queue@),
                state.has_resampler == st0.has_resampler,
                state.source_rate == st0.source_rate,
                state.input_buffer@ == st0.input_buffer@,
                state.output_queue@ == st0.output_queue@,
                state.current_timestamp == st0.current_timestamp,
                state.buffered_samples == st0.buffered_samples,
            ensures
                frames_view(results@) =~= frames_view(ready0),
                state.ready_queue@.len() == 0,
                state.has_resampler == st0.has_resampler,
                state.source_rate == st0.source_rate,
                state.input_buffer@ == st0.input_buffer@,
                state.output_queue@ == st0.output_queue@,
                state.current_timestamp == st0.current_timestamp,
                state.buffered_samples == st0.buffered_samples,
            decreases state.ready_queue@.len(),
        {
            let ghost results_pre = results@;
            match state.ready_queue.pop_front() {
                Some(f) => {
                    results.push(f);
                    proof {
                        assert(frames_view(results@) =~= frames_view(results_pre).push(
                            results@.last()@,
                        ));
                    }
                }
                None => {
                    break;
                }
            }
        }

        if !self.needs_resampler(source) {
            let had = self.output_queue_len(source) > 0;
            let ghost pre_drain = *self;
            self.drain_passthrough(source);
            if had {
                let state = self.state_mut(source);
                let ghost results_pre = results@;
                match state.ready_queue.pop_front() {
                    Some(f) => {
                        results.push(f);
                        proof {
                            assert(frames_view(results@) =~= frames_view(results_pre).push(
                                results@.last()@,
                            ));
                        }
                    }
                    None => {
                    }
                }
            }
        }

        results
    }

    /// Empties the stage at shutdown, system stream first: each source's
    /// ready frames, then one frame per passthrough stream holding its
    /// queued remainder.
    pub fn flush(&mut self) -> (r: Vec<AudioFrame>)
        requires
            old(self).wf(),
        ensures
            final(self).wf(),
            final(self).config_eq(*old(self)),
            ({
                let sys = AudioSourceType::System;
                let mic = AudioSourceType::Microphone;
                let sys_tail: Seq<FrameView> = if !old(self).spec_has_resampler(sys) && old(
                    self,
                ).spec_queue(sys).len() > 0 {
                    seq![old(self).spec_drained_frame(sys)]
                } else {
                    Seq::empty()
                };
                let mic_tail: Seq<FrameView> = if !old(self).spec_has_resampler(mic) && old(
                    self,
                ).spec_queue(mic).len() > 0 {
                    seq![old(self).spec_drained_frame(mic)]
                } else {
                    Seq::empty()
                };
                frames_view(r@) =~= old(self).spec_ready(sys) + sys_tail + old(self).spec_ready(
                    mic,
                ) + mic_tail
            }),
            final(self).spec_ready(AudioSourceType::System).len() == 0,
            final(self).spec_ready(AudioSourceType::Microphone).len() == 0,
            !old(self).spec_has_resampler(AudioSourceType::System) ==> final(self).spec_queue(
                AudioSourceType::System,
            ).len() == 0,
            !old(self).spec_has_resampler(AudioSourceType::Microphone) ==> final(self).spec_queue(
                AudioSourceType::Microphone,
            ).len() == 0,
            old(self).spec_has_resampler(AudioSourceType::System) ==> final(self).spec_queue(
                AudioSourceType::System,
            ) == old(self).spec_queue(AudioSourceType::System),
            old(self).spec_has_resampler(AudioSourceType::Microphone) ==> final(self).spec_queue(
                AudioSourceType::Microphone,
            ) == old(self).spec_queue(AudioSourceType::Microphone),
            final(self).spec_input(AudioSourceType::System) == old(self).spec_input(
                AudioSourceType::System,
            ),
            final(self).spec_input(AudioSourceType::Microphone) == old(self).spec_input(
                AudioSourceType::Microphone,
            ),
            final(self).spec_has_resampler(AudioSourceType::System) == old(
                self,
            ).spec_has_resampler(AudioSourceType::System),
            final(self).spec_has_resampler(AudioSourceType::Microphone) == old(
                self,
            ).spec_has_resampler(AudioSourceType::Microphone),
            final(self).spec_source_rate(AudioSourceType::System) == old(self).spec_source_rate(
                AudioSourceType::System,
            ),
            final(self).spec_source_rate(AudioSourceType::Microphone) == old(
                self,
            ).spec_source_rate(AudioSourceType::Microphone),
    {
        let mut results = self.flush_state(AudioSourceType::System);
        let mut mic_frames = self.flush_state(AudioSourceType::Microphone);
        let ghost results0 = results@;
        let ghost mic_view = frames_view(mic_frames@);
        let mut m: usize = 0;
        while m < mic_frames.len()
            invariant
                m <= mic_frames@.len(),
                frames_view(results@) =~= frames_view(results0) + mic_view.take(m as int),
                mic_view == frames_view(mic_frames@),
            decreases mic_frames@.len() - m,
        {
            let ghost results_pre = results@;
            let f = mic_frames[m].clone();
            results.push(f);
            proof {
                assert(frames_view(results@) =~= frames_view(results_pre).push(results@.last()@));
            }
            m = m + 1;
        }
        proof {
            assert(frames_view(results@) =~= frames_view(results0) + mic_view);
        }
        results
    }

    /// Clears both sources' state; the configuration and the resampler
    /// attachments stay, and the extractors' source becomes the most
    /// recently processed one again.
    pub fn reset(&mut self)
        ensures
            final(self).wf() == old(self).wf(),
            final(self).config_eq(*old(self)),
            final(self).spec_last_source() == old(self).spec_source_type(),
            forall|s: AudioSourceType|
                {
                    &&& #[trigger] final(self).spec_has_resampler(s) == old(
                        self,
                    ).spec_has_resampler(s)
                    &&& final(self).spec_source_rate(s) == old(self).spec_source_rate(s)
                    &&& final(self).spec_input(s).len() == 0
                    &&& final(self).spec_queue(s).len() == 0
                    &&& final(self).spec_anchor(s) == 0
                    &&& final(self).spec_buffered(s) == 0
                    &&& final(self).spec_ready(s).len() == 0
                },
    {
        self.mic_state.reset();
        self.sys_state.reset();
        self.last_processed_source = self.source_type;
    }
}

} // verus!
