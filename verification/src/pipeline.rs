//! The pipeline orchestrator.
//!
//! Frames are routed by source through a main chain built from the
//! configuration — always the timestamp normalizer; with echo cancellation
//! or noise suppression also a 48 kHz mono conversion, the quantizer, and
//! the enabled enhancement stages — and through two final conversion
//! chains, one per source, into the configured output format.  A system
//! frame is cloned into the main chain as the echo reference, which
//! consumes it, while the original travels the system-final chain; a
//! microphone frame travels the whole main chain and then the
//! microphone-final chain.  Stage latencies and frame counts are metered
//! along the way.

use vstd::prelude::*;
use crate::aec::AecProcessor;
use crate::aec::spec_tune_step;
use crate::config::AudioProcessingConfig;
use crate::delay::DelayTracker;
use crate::frame::AudioFrame;
use crate::frame::AudioSourceType;
use crate::ns::NoiseSuppressionProcessor;
use crate::frame::FrameView;
use crate::frame::frames_view;
use crate::quantizer::FrameQuantizer;
use crate::quantizer::lemma_drain_source_tags;
use crate::quantizer::sat_u64;
use crate::quantizer::spec_drain;
use crate::quantizer::spec_padded_tail;
use crate::quantizer::spec_quantum_ts;
use crate::resample::ResampleProcessor;
use crate::resample::spec_converted;
use crate::stats::RuntimeStats;
use crate::timestamp::TimestampNormalizer;
use crate::timestamp::spec_rebase;

verus! {

/// Timestamp deltas of ten seconds or more are implausible end-to-end
/// delays and fall back to the measured processing time.
pub const MAX_PLAUSIBLE_PIPELINE_DELAY_NS: u64 = 10_000_000_000;

/// The end-to-end delay reported for one microphone frame: the output
/// minus input timestamp when that is positive and plausible, else the
/// measured processing time.
pub open spec fn spec_select_total_pipeline_delay(
    input_timestamp: u64,
    output_timestamp: u64,
    processing_delay: u64,
) -> u64 {
    let timestamp_delay: u64 = if output_timestamp >= input_timestamp {
        (output_timestamp - input_timestamp) as u64
    } else {
        0
    };
    if timestamp_delay > 0 && timestamp_delay < MAX_PLAUSIBLE_PIPELINE_DELAY_NS {
        timestamp_delay
    } else {
        processing_delay
    }
}

/// The difference of two clock readings, zero when the clock regressed.
fn elapsed_ns(t0: u64, t1: u64) -> (r: u64)
    ensures
        r == (if t1 >= t0 {
            t1 - t0
        } else {
            0
        }),
{
    if t1 >= t0 {
        t1 - t0
    } else {
        0
    }
}

/// A conversion stage at rest between frames: well formed, fed at 48 kHz,
/// with empty ready and passthrough queues, and no samples staged for a
/// resampler that is not attached.
pub open spec fn spec_chain_quiescent(st: ResampleProcessor) -> bool {
    &&& st.wf()
    &&& st.spec_ready(AudioSourceType::Microphone).len() == 0
    &&& st.spec_ready(AudioSourceType::System).len() == 0
    &&& st.spec_queue(AudioSourceType::Microphone).len() == 0
    &&& st.spec_queue(AudioSourceType::System).len() == 0
    &&& (!st.spec_has_resampler(AudioSourceType::Microphone) ==> st.spec_input(
        AudioSourceType::Microphone,
    ).len() == 0)
    &&& (!st.spec_has_resampler(AudioSourceType::System) ==> st.spec_input(
        AudioSourceType::System,
    ).len() == 0)
    &&& st.spec_source_rate(AudioSourceType::Microphone) == 48000
    &&& st.spec_source_rate(AudioSourceType::System) == 48000
}

/// Whether a batch passes a quiescent conversion stage untouched: no
/// resampler on that source, every frame already at the target channel
/// count, none empty.
pub open spec fn spec_passthrough_batch(
    st: ResampleProcessor,
    frames: Seq<AudioFrame>,
    src: AudioSourceType,
) -> bool {
    &&& !st.spec_has_resampler(src)
    &&& forall|k: int|
        0 <= k < frames.len() ==> ((#[trigger] frames[k]).channels == st.spec_target_channels()
            && frames[k].samples@.len() > 0)
}

/// What a quiescent passthrough stage emits for such a batch: the same
/// samples and timestamps, one frame per frame, restamped with the
/// stage's source rate and channel count.
pub open spec fn spec_passthrough_outputs(
    st: ResampleProcessor,
    frames: Seq<AudioFrame>,
    src: AudioSourceType,
) -> Seq<FrameView> {
    Seq::new(
        frames.len(),
        |k: int|
            FrameView {
                source: src,
                samples: frames[k].samples@,
                sample_rate: st.spec_source_rate(src),
                channels: st.spec_target_channels(),
                timestamp: frames[k].timestamp,
            },
    )
}

/// Runs one conversion stage over a batch of same-source frames: each
/// frame processed, then the stage drained.  The stage rests before and
/// after, every output carries the batch's source, and a batch that
/// needs no conversion passes through exactly.
fn run_resample_stage(
    st: &mut ResampleProcessor,
    frames: Vec<AudioFrame>,
    Ghost(src): Ghost<AudioSourceType>,
) -> (r: Vec<AudioFrame>)
    requires
        spec_chain_quiescent(*old(st)),
        forall|k: int| 0 <= k < frames@.len() ==> (#[trigger] frames@[k]).source == src,
    ensures
        spec_chain_quiescent(*final(st)),
        final(st).config_eq(*old(st)),
        final(st).spec_has_resampler(AudioSourceType::Microphone) == old(st).spec_has_resampler(
            AudioSourceType::Microphone,
        ),
        final(st).spec_has_resampler(AudioSourceType::System) == old(st).spec_has_resampler(
            AudioSourceType::System,
        ),
        forall|k: int| 0 <= k < r@.len() ==> (#[trigger] r@[k]).source == src,
        frames@.len() == 0 ==> r@.len() == 0,
        spec_passthrough_batch(*old(st), frames@, src) ==> frames_view(r@)
            =~= spec_passthrough_outputs(*old(st), frames@, src),
{
    let ghost expected = spec_passthrough_outputs(*old(st), frames@, src);
    let mut next: Vec<AudioFrame> = Vec::new();
    let mut idx: usize = 0;
    while idx < frames.len()
        invariant
            idx <= frames@.len(),
            spec_chain_quiescent(*old(st)),
            spec_chain_quiescent(*st),
            st.config_eq(*old(st)),
            st.spec_has_resampler(AudioSourceType::Microphone) == old(st).spec_has_resampler(
                AudioSourceType::Microphone,
            ),
            st.spec_has_resampler(AudioSourceType::System) == old(st).spec_has_resampler(
                AudioSourceType::System,
            ),
            expected == spec_passthrough_outputs(*old(st), frames@, src),
            forall|k: int| 0 <= k < frames@.len() ==> (#[trigger] frames@[k]).source == src,
            forall|k: int| 0 <= k < next@.len() ==> (#[trigger] next@[k]).source == src,
            frames@.len() == 0 ==> next@.len() == 0,
            spec_passthrough_batch(*old(st), frames@, src) ==> frames_view(next@)
                =~= expected.take(idx as int),
        decreases frames@.len() - idx,
    {
        let input = frames[idx].clone();
        let ghost pre_st = *st;
        let ghost input_view = input@;
        let out = st.process(input);
        proof {
            if spec_passthrough_batch(*old(st), frames@, src) {
                assert(input_view == frames@[idx as int]@);
                assert(spec_converted(
                    input_view.samples,
                    input_view.channels,
                    pre_st.spec_target_channels(),
                ) == input_view.samples);
                assert(pre_st.spec_queue(src) + input_view.samples =~= input_view.samples);
                assert((0int * 1_000_000_000) / (pre_st.spec_target_rate() as int) == 0);
                assert(spec_quantum_ts(input_view.timestamp, 0, pre_st.spec_target_rate())
                    == input_view.timestamp);
                assert(out is Some);
                let fv0 = out->Some_0@;
                assert(fv0.source == src);
                assert(fv0.samples == input_view.samples);
                assert(fv0.channels == pre_st.spec_target_channels());
                assert(fv0.sample_rate == pre_st.spec_source_rate(src));
                assert(fv0.timestamp == input_view.timestamp);
                assert(expected[idx as int].samples == frames@[idx as int].samples@);
                assert(out->Some_0@ == expected[idx as int]);
            }
        }
        match out {
            Some(f) => {
                let ghost fv = f@;
                next.push(f);
                proof {
                    if spec_passthrough_batch(*old(st), frames@, src) {
                        assert(frames_view(next@) =~= expected.take(idx as int).push(fv));
                        assert(expected.take(idx as int + 1) =~= expected.take(idx as int).push(
                            expected[idx as int],
                        ));
                    }
                }
            }
            None => {
            }
        }
        idx = idx + 1;
    }
    proof {
        if spec_passthrough_batch(*old(st), frames@, src) {
            assert(expected.take(frames@.len() as int) =~= expected);
        }
    }
    loop
        invariant
            spec_chain_quiescent(*old(st)),
            spec_chain_quiescent(*st),
            st.config_eq(*old(st)),
            st.spec_has_resampler(AudioSourceType::Microphone) == old(st).spec_has_resampler(
                AudioSourceType::Microphone,
            ),
            st.spec_has_resampler(AudioSourceType::System) == old(st).spec_has_resampler(
                AudioSourceType::System,
            ),
            forall|k: int| 0 <= k < next@.len() ==> (#[trigger] next@[k]).source == src,
            frames@.len() == 0 ==> next@.len() == 0,
            spec_passthrough_batch(*old(st), frames@, src) ==> frames_view(next@) =~= expected,
        ensures
            spec_chain_quiescent(*st),
            st.config_eq(*old(st)),
            st.spec_has_resampler(AudioSourceType::Microphone) == old(st).spec_has_resampler(
                AudioSourceType::Microphone,
            ),
            st.spec_has_resampler(AudioSourceType::System) == old(st).spec_has_resampler(
                AudioSourceType::System,
            ),
            forall|k: int| 0 <= k < next@.len() ==> (#[trigger] next@[k]).source == src,
            frames@.len() == 0 ==> next@.len() == 0,
            spec_passthrough_batch(*old(st), frames@, src) ==> frames_view(next@) =~= expected,
        decreases st.spec_ready(AudioSourceType::Microphone).len() + st.spec_ready(
            AudioSourceType::System,
        ).len() + 1,
    {
        match st.drain_ready() {
            Some(f) => {
                next.push(f);
            }
            None => {
                break ;
            }
        }
    }
    next
}

/// Runs the quantizer over a batch of same-source frames: each frame
/// processed, then the ready queue drained to empty.  Every output
/// carries the batch's source.
fn run_quantizer_stage(
    q: &mut FrameQuantizer,
    frames: Vec<AudioFrame>,
    Ghost(src): Ghost<AudioSourceType>,
) -> (r: Vec<AudioFrame>)
    requires
        old(q).wf(),
        old(q).spec_ready().len() == 0,
        forall|k: int| 0 <= k < frames@.len() ==> (#[trigger] frames@[k]).source == src,
    ensures
        final(q).wf(),
        final(q).config_eq(*old(q)),
        final(q).spec_ready().len() == 0,
        forall|k: int|
            0 <= k < r@.len() ==> ((#[trigger] r@[k]).source == src && r@[k]@.samples.len() == old(
                q,
            ).spec_quantum() && r@[k]@.sample_rate == old(q).spec_rate() && r@[k]@.channels == old(
                q,
            ).spec_channels()),
{
    let mut next: Vec<AudioFrame> = Vec::new();
    let mut idx: usize = 0;
    while idx < frames.len()
        invariant
            idx <= frames@.len(),
            q.wf(),
            q.config_eq(*old(q)),
            forall|k: int| 0 <= k < frames@.len() ==> (#[trigger] frames@[k]).source == src,
            forall|k: int|
                0 <= k < next@.len() ==> ((#[trigger] next@[k]).source == src
                    && next@[k]@.samples.len() == old(q).spec_quantum() && next@[k]@.sample_rate
                    == old(q).spec_rate() && next@[k]@.channels == old(q).spec_channels()),
            forall|k: int|
                0 <= k < q.spec_ready().len() ==> ((#[trigger] q.spec_ready()[k]).source == src
                    && q.spec_ready()[k].samples.len() == old(q).spec_quantum()
                    && q.spec_ready()[k].sample_rate == old(q).spec_rate()
                    && q.spec_ready()[k].channels == old(q).spec_channels()),
        decreases frames@.len() - idx,
    {
        let input = frames[idx].clone();
        let ghost pre = *q;
        let ghost input_view = input@;
        let out = q.process(input);
        proof {
            if input_view.sample_rate == pre.spec_rate() && input_view.channels
                == pre.spec_channels() {
                lemma_drain_source_tags(
                    src,
                    pre.spec_buffer(src) + input_view.samples,
                    pre.spec_new_anchor(src, input_view.timestamp),
                    pre.spec_processed(src),
                    pre.spec_quantum(),
                    pre.spec_rate(),
                    pre.spec_channels(),
                );
            }
        }
        match out {
            Some(f) => {
                next.push(f);
            }
            None => {
            }
        }
        idx = idx + 1;
    }
    loop
        invariant
            q.wf(),
            q.config_eq(*old(q)),
            forall|k: int|
                0 <= k < next@.len() ==> ((#[trigger] next@[k]).source == src
                    && next@[k]@.samples.len() == old(q).spec_quantum() && next@[k]@.sample_rate
                    == old(q).spec_rate() && next@[k]@.channels == old(q).spec_channels()),
            forall|k: int|
                0 <= k < q.spec_ready().len() ==> ((#[trigger] q.spec_ready()[k]).source == src
                    && q.spec_ready()[k].samples.len() == old(q).spec_quantum()
                    && q.spec_ready()[k].sample_rate == old(q).spec_rate()
                    && q.spec_ready()[k].channels == old(q).spec_channels()),
        ensures
            q.wf(),
            q.config_eq(*old(q)),
            q.spec_ready().len() == 0,
            forall|k: int|
                0 <= k < next@.len() ==> ((#[trigger] next@[k]).source == src
                    && next@[k]@.samples.len() == old(q).spec_quantum() && next@[k]@.sample_rate
                    == old(q).spec_rate() && next@[k]@.channels == old(q).spec_channels()),
        decreases q.spec_ready().len(),
    {
        match q.drain_ready() {
            Some(f) => {
                next.push(f);
            }
            None => {
                break ;
            }
        }
    }
    next
}

/// Runs the echo-cancellation stage over a batch of same-source frames.
/// System frames are consumed; microphone frames pass through, and the
/// second result says whether any of them asked for a quality snapshot.
fn run_aec_stage(
    a: &mut AecProcessor,
    frames: Vec<AudioFrame>,
    Ghost(src): Ghost<AudioSourceType>,
) -> (r: (Vec<AudioFrame>, bool))
    requires
        old(a).wf(),
        forall|k: int| 0 <= k < frames@.len() ==> (#[trigger] frames@[k]).source == src,
    ensures
        final(a).wf(),
        final(a).spec_config() == old(a).spec_config(),
        src == AudioSourceType::System ==> (r.0@.len() == 0 && !r.1),
        forall|k: int| 0 <= k < r.0@.len() ==> (#[trigger] r.0@[k]).source == src,
        src == AudioSourceType::Microphone ==> (r.0@.len() == frames@.len() && forall|k: int|
            0 <= k < frames@.len() ==> (#[trigger] r.0@[k])@ == frames@[k]@),
        old(a).tuner_model().frozen ==> !r.1,
        final(a).tuner_model() == old(a).tuner_model(),
{
    let mut next: Vec<AudioFrame> = Vec::new();
    let mut wants = false;
    let mut idx: usize = 0;
    while idx < frames.len()
        invariant
            idx <= frames@.len(),
            a.wf(),
            a.spec_config() == old(a).spec_config(),
            a.tuner_model() == old(a).tuner_model(),
            forall|k: int| 0 <= k < frames@.len() ==> (#[trigger] frames@[k]).source == src,
            forall|k: int| 0 <= k < next@.len() ==> (#[trigger] next@[k]).source == src,
            src == AudioSourceType::System ==> (next@.len() == 0 && !wants),
            src == AudioSourceType::Microphone ==> (next@.len() == idx && forall|k: int|
                0 <= k < idx ==> (#[trigger] next@[k])@ == frames@[k]@),
            old(a).tuner_model().frozen ==> !wants,
        decreases frames@.len() - idx,
    {
        let input = frames[idx].clone();
        let ghost input_view = input@;
        proof {
            assert(input_view == frames@[idx as int]@);
        }
        let (out, want) = a.process_frame(input);
        match out {
            Some(f) => {
                next.push(f);
            }
            None => {
            }
        }
        if want {
            wants = true;
        }
        idx = idx + 1;
    }
    (next, wants)
}

/// Runs the noise-suppression gate over a batch of same-source frames;
/// every frame passes through.
fn run_ns_stage(
    n: &mut NoiseSuppressionProcessor,
    frames: Vec<AudioFrame>,
    Ghost(src): Ghost<AudioSourceType>,
) -> (r: Vec<AudioFrame>)
    requires
        forall|k: int| 0 <= k < frames@.len() ==> (#[trigger] frames@[k]).source == src,
    ensures
        *final(n) == *old(n),
        r@.len() == frames@.len(),
        forall|k: int|
            0 <= k < r@.len() ==> ((#[trigger] r@[k]).source == src && r@[k]@ == frames@[k]@),
{
    let mut next: Vec<AudioFrame> = Vec::new();
    let mut idx: usize = 0;
    while idx < frames.len()
        invariant
            idx <= frames@.len(),
            *n == *old(n),
            next@.len() == idx,
            forall|k: int| 0 <= k < frames@.len() ==> (#[trigger] frames@[k]).source == src,
            forall|k: int|
                0 <= k < next@.len() ==> ((#[trigger] next@[k]).source == src && next@[k]@
                    == frames@[k]@),
        decreases frames@.len() - idx,
    {
        let input = frames[idx].clone();
        let ghost input_view = input@;
        proof {
            assert(input_view == frames@[idx as int]@);
        }
        match n.process(input) {
            Some(f) => {
                next.push(f);
            }
            None => {
            }
        }
        idx = idx + 1;
    }
    next
}

/// What flushing the quantizer emits for one source: every remaining
/// full quantum, then the undersized remainder zero-padded to one
/// quantum, if any.
pub open spec fn spec_quantizer_flush_model(q: FrameQuantizer, source: AudioSourceType) -> Seq<
    FrameView,
> {
    let d = spec_drain(
        source,
        q.spec_buffer(source),
        q.spec_anchor(source),
        q.spec_processed(source),
        q.spec_quantum(),
        q.spec_rate(),
        q.spec_channels(),
    );
    d.quanta + spec_padded_tail(
        source,
        d.rest,
        q.spec_anchor(source),
        d.processed,
        q.spec_quantum(),
        q.spec_rate(),
        q.spec_channels(),
    )
}

/// Every frame of a quantizer flush carries its source's tag, the
/// configured format, and at least one sample.
proof fn lemma_flush_model_tags(q: FrameQuantizer, source: AudioSourceType)
    requires
        q.wf(),
    ensures
        ({
            let m = spec_quantizer_flush_model(q, source);
            forall|i: int|
                0 <= i < m.len() ==> ((#[trigger] m[i]).source == source && m[i].sample_rate
                    == q.spec_rate() && m[i].channels == q.spec_channels() && m[i].samples.len()
                    > 0)
        }),
{
    let d = spec_drain(
        source,
        q.spec_buffer(source),
        q.spec_anchor(source),
        q.spec_processed(source),
        q.spec_quantum(),
        q.spec_rate(),
        q.spec_channels(),
    );
    lemma_drain_source_tags(
        source,
        q.spec_buffer(source),
        q.spec_anchor(source),
        q.spec_processed(source),
        q.spec_quantum(),
        q.spec_rate(),
        q.spec_channels(),
    );
    let tail = spec_padded_tail(
        source,
        d.rest,
        q.spec_anchor(source),
        d.processed,
        q.spec_quantum(),
        q.spec_rate(),
        q.spec_channels(),
    );
    let m = spec_quantizer_flush_model(q, source);
    assert forall|i: int| 0 <= i < m.len() implies ((#[trigger] m[i]).source == source
        && m[i].sample_rate == q.spec_rate() && m[i].channels == q.spec_channels()
        && m[i].samples.len() > 0) by {
        if i < d.quanta.len() {
            assert(m[i] == d.quanta[i]);
        } else {
            assert(d.rest.len() > 0);
            assert(m[i] == tail[i - d.quanta.len()]);
            assert(tail[0].samples.len() >= d.rest.len());
        }
    }
}

/// The orchestrator: the main chain, the two final chains, the delay
/// tracker and the run's counters.
pub struct ModularPipeline {
    config: AudioProcessingConfig,
    timestamp_stage: TimestampNormalizer,
    webrtc_resample_stage: Option<ResampleProcessor>,
    quantizer_stage: Option<FrameQuantizer>,
    aec_stage: Option<AecProcessor>,
    ns_stage: Option<NoiseSuppressionProcessor>,
    sys_final: ResampleProcessor,
    mic_final: ResampleProcessor,
    delay_tracker: DelayTracker,
    stats: RuntimeStats,
}

impl ModularPipeline {
    /// The configuration the pipeline was built with.
    pub closed spec fn spec_config(self) -> AudioProcessingConfig {
        self.config
    }

    /// The timestamp stage.
    pub closed spec fn spec_ts(self) -> TimestampNormalizer {
        self.timestamp_stage
    }

    /// The echo-cancellation stage, when built.
    pub closed spec fn spec_aec(self) -> Option<AecProcessor> {
        self.aec_stage
    }

    /// The run's counters.
    pub closed spec fn spec_stats(self) -> RuntimeStats {
        self.stats
    }

    /// The pre-canceller conversion stage, when built.
    pub closed spec fn spec_webrtc_resample(self) -> Option<ResampleProcessor> {
        self.webrtc_resample_stage
    }

    /// The quantization stage, when built.
    pub closed spec fn spec_quantizer(self) -> Option<FrameQuantizer> {
        self.quantizer_stage
    }

    /// The noise-suppression stage, when built.
    pub closed spec fn spec_ns(self) -> Option<NoiseSuppressionProcessor> {
        self.ns_stage
    }

    /// The system stream's final conversion chain.
    pub closed spec fn spec_sys_final(self) -> ResampleProcessor {
        self.sys_final
    }

    /// The microphone stream's final conversion chain.
    pub closed spec fn spec_mic_final(self) -> ResampleProcessor {
        self.mic_final
    }

    /// The per-stage delay tracker.
    pub closed spec fn spec_tracker(self) -> DelayTracker {
        self.delay_tracker
    }

    /// Well-formedness: the chain follows the composition rule — the
    /// conversion and quantization stages exist exactly when echo
    /// cancellation or noise suppression is on, the enhancement stages
    /// exactly when each is on — every stage is well formed, and every
    /// ready queue is empty between frames.
    pub open spec fn wf(self) -> bool {
        &&& (self.spec_config().enable_aec || self.spec_config().enable_ns)
            == self.spec_webrtc_resample() is Some
        &&& (self.spec_config().enable_aec || self.spec_config().enable_ns)
            == self.spec_quantizer() is Some
        &&& self.spec_config().enable_aec == self.spec_aec() is Some
        &&& self.spec_config().enable_ns == self.spec_ns() is Some
        &&& (self.spec_webrtc_resample() matches Some(st) ==> spec_chain_quiescent(st))
        &&& (self.spec_quantizer() matches Some(q) ==> (q.wf() && q.spec_ready().len() == 0
            && q.spec_quantum() == 480 && q.spec_rate() == 48000 && q.spec_channels() == 1))
        &&& (self.spec_aec() matches Some(a) ==> a.wf())
        &&& spec_chain_quiescent(self.spec_sys_final())
        &&& self.spec_sys_final().spec_target_rate() == self.spec_config().sample_rate
        &&& self.spec_sys_final().spec_target_channels() == self.spec_config().channels
        &&& self.spec_sys_final().spec_source_type() == AudioSourceType::System
        &&& spec_chain_quiescent(self.spec_mic_final())
        &&& self.spec_mic_final().spec_target_rate() == self.spec_config().sample_rate
        &&& self.spec_mic_final().spec_target_channels() == self.spec_config().channels
        &&& self.spec_mic_final().spec_source_type() == AudioSourceType::Microphone
        &&& self.spec_tracker().wf()
    }

    /// Builds the pipeline for a configuration, following the composition
    /// rule, with fresh counters.
    pub fn new(config: AudioProcessingConfig) -> (r: Self)
        requires
            config.sample_rate >= 1,
            1 <= config.channels <= 2,
        ensures
            r.wf(),
            r.spec_config() == config,
            r.spec_stats().frames_in_mic == 0,
            r.spec_stats().frames_in_system == 0,
            r.spec_stats().frames_out_mic == 0,
            r.spec_stats().frames_out_system == 0,
    {
        let needs_webrtc = config.enable_aec || config.enable_ns;
        let webrtc_resample_stage = if needs_webrtc {
            Some(ResampleProcessor::new(48000, 48000, 1, AudioSourceType::System))
        } else {
            None
        };
        let quantizer_stage = if needs_webrtc {
            Some(FrameQuantizer::for_webrtc())
        } else {
            None
        };
        let aec_stage = if config.enable_aec {
            Some(AecProcessor::new(config.clone()))
        } else {
            None
        };
        let ns_stage = if config.enable_ns {
            Some(NoiseSuppressionProcessor::new(config.clone()))
        } else {
            None
        };
        let sys_final = ResampleProcessor::from_config(&config, AudioSourceType::System);
        let mic_final = ResampleProcessor::from_config(&config, AudioSourceType::Microphone);
        proof {
            match &webrtc_resample_stage {
                Some(st) => {
                    assert(!st.spec_has_resampler(AudioSourceType::Microphone));
                    assert(!st.spec_has_resampler(AudioSourceType::System));
                }
                None => {
                }
            }
            assert(sys_final.spec_has_resampler(AudioSourceType::Microphone) == (
            config.sample_rate != 48000));
            assert(sys_final.spec_has_resampler(AudioSourceType::System) == (config.sample_rate
                != 48000));
            assert(mic_final.spec_has_resampler(AudioSourceType::Microphone) == (
            config.sample_rate != 48000));
            assert(mic_final.spec_has_resampler(AudioSourceType::System) == (config.sample_rate
                != 48000));
        }
        ModularPipeline {
            config,
            timestamp_stage: TimestampNormalizer::new(),
            webrtc_resample_stage,
            quantizer_stage,
            aec_stage,
            ns_stage,
            sys_final,
            mic_final,
            delay_tracker: DelayTracker::new(),
            stats: RuntimeStats::default(),
        }
    }

    /// The final conversion chain for the system stream: 48 kHz capture
    /// into the configured output format.
    pub fn create_system_pipeline(config: &AudioProcessingConfig) -> (r: ResampleProcessor)
        requires
            config.sample_rate >= 1,
            1 <= config.channels <= 2,
        ensures
            r.wf(),
            r.spec_target_rate() == config.sample_rate,
            r.spec_target_channels() == config.channels,
            r.spec_source_type() == AudioSourceType::System,
    {
        ResampleProcessor::from_config(config, AudioSourceType::System)
    }

    /// The final conversion chain for the microphone stream: 48 kHz
    /// processed capture into the configured output format.
    pub fn create_mic_pipeline(config: &AudioProcessingConfig) -> (r: ResampleProcessor)
        requires
            config.sample_rate >= 1,
            1 <= config.channels <= 2,
        ensures
            r.wf(),
            r.spec_target_rate() == config.sample_rate,
            r.spec_target_channels() == config.channels,
            r.spec_source_type() == AudioSourceType::Microphone,
    {
        ResampleProcessor::from_config(config, AudioSourceType::Microphone)
    }

    /// Chooses the end-to-end delay to report for one microphone frame:
    /// the timestamp difference when positive and under ten seconds, else
    /// the measured processing time.
    pub fn select_total_pipeline_delay(
        input_timestamp: u64,
        output_timestamp: u64,
        processing_delay: u64,
    ) -> (r: u64)
        ensures
            r == spec_select_total_pipeline_delay(
                input_timestamp,
                output_timestamp,
                processing_delay,
            ),
    {
        let timestamp_delay = if output_timestamp >= input_timestamp {
            output_timestamp - input_timestamp
        } else {
            0
        };
        if timestamp_delay > 0 && timestamp_delay < MAX_PLAUSIBLE_PIPELINE_DELAY_NS {
            timestamp_delay
        } else {
            processing_delay
        }
    }

    /// The stat name of the main-chain stage at a position, for the built
    /// configuration: the normalizer first; with any enhancement on, the
    /// conversion and quantization stages next; then each enabled
    /// enhancement stage.
    pub fn stage_key(index: usize, has_webrtc: bool, enable_aec: bool, enable_ns: bool) -> (r:
        Option<&'static str>)
        ensures
            index == 0 ==> (r matches Some(s) && s@ == "timestamp_processor"@),
            (index == 1 && has_webrtc) ==> (r matches Some(s) && s@
                == "webrtc_resample_processor"@),
            (index == 2 && has_webrtc) ==> (r matches Some(s) && s@ == "quantizer_processor"@),
            (index == 3 && enable_aec && has_webrtc) ==> (r matches Some(s) && s@
                == "aec_processor"@),
            (index == 4 && enable_ns && has_webrtc) ==> (r matches Some(s) && s@
                == "ns_processor"@),
            (index >= 1 && !has_webrtc) ==> r is None,
            (index == 3 && !enable_aec) ==> r is None,
            (index == 4 && !enable_ns) ==> r is None,
            index >= 5 ==> r is None,
    {
        if index == 0 {
            Some("timestamp_processor")
        } else if index == 1 && has_webrtc {
            Some("webrtc_resample_processor")
        } else if index == 2 && has_webrtc {
            Some("quantizer_processor")
        } else if index == 3 && enable_aec && has_webrtc {
            Some("aec_processor")
        } else if index == 4 && enable_ns && has_webrtc {
            Some("ns_processor")
        } else {
            None
        }
    }

    /// Sends one frame through the main chain: normalization, then — as
    /// built — conversion, quantization, echo-cancellation bookkeeping and
    /// the suppression gate, each stage drained and metered, with a stage
    /// that emits nothing ending the frame's journey.  Every output
    /// carries the input's source; with echo cancellation on, a system
    /// frame is consumed entirely.  With no enhancement stage built the
    /// chain is exactly the normalizer.  The second result says whether
    /// the echo stage asked for a quality snapshot.
    pub fn process_main(&mut self, frame: AudioFrame) -> (r: (Vec<AudioFrame>, bool))
        requires
            old(self).wf(),
        ensures
            final(self).wf(),
            final(self).spec_config() == old(self).spec_config(),
            forall|k: int| 0 <= k < r.0@.len() ==> (#[trigger] r.0@[k]).source == frame.source,
            (old(self).spec_config().enable_aec && frame.source == AudioSourceType::System)
                ==> r.0@.len() == 0,
            frame.source == AudioSourceType::System ==> !r.1,
            (!old(self).spec_config().enable_aec && !old(self).spec_config().enable_ns) ==> ({
                &&& r.0@.len() == 1
                &&& r.0@[0].samples@ == frame.samples@
                &&& r.0@[0].sample_rate == frame.sample_rate
                &&& r.0@[0].channels == frame.channels
                &&& r.0@[0].source == frame.source
                &&& r.0@[0].timestamp == (match old(self).spec_ts().spec_anchor(frame.source) {
                    Some(a) => spec_rebase(old(self).spec_ts().spec_epoch(), a, frame.timestamp),
                    None => old(self).spec_ts().spec_epoch(),
                })
                &&& !r.1
            }),
            ((old(self).spec_config().enable_aec || old(self).spec_config().enable_ns)
                && frame.source == AudioSourceType::Microphone) ==> forall|k: int|
                0 <= k < r.0@.len() ==> ((#[trigger] r.0@[k])@.samples.len() == 480
                    && r.0@[k]@.sample_rate == 48000 && r.0@[k]@.channels == 1),
            final(self).spec_sys_final() == old(self).spec_sys_final(),
            final(self).spec_mic_final() == old(self).spec_mic_final(),
            final(self).spec_stats().frames_in_mic == old(self).spec_stats().frames_in_mic,
            final(self).spec_stats().frames_in_system == old(self).spec_stats().frames_in_system,
            final(self).spec_stats().frames_out_mic == old(self).spec_stats().frames_out_mic,
            final(self).spec_stats().frames_out_system == old(self).spec_stats().frames_out_system,
    {
        let ghost src = frame.source;

        let t0 = crate::timestamp::wall_clock_ns();
        let out0 = self.timestamp_stage.process(frame);
        let t1 = crate::timestamp::wall_clock_ns();
        let dt = elapsed_ns(t0, t1);
        self.stats.timestamp_processor.record(dt);
        self.delay_tracker.record("timestamp_processor", dt);

        let mut frames: Vec<AudioFrame> = Vec::new();
        match out0 {
            Some(f) => {
                frames.push(f);
            }
            None => {
            }
        }

        match &mut self.webrtc_resample_stage {
            Some(st) => {
                let t0 = crate::timestamp::wall_clock_ns();
                let next = run_resample_stage(st, frames, Ghost(src));
                let t1 = crate::timestamp::wall_clock_ns();
                frames = next;
                let dt = elapsed_ns(t0, t1);
                self.stats.webrtc_resample_processor.record(dt);
                self.delay_tracker.record("webrtc_resample_processor", dt);
            }
            None => {
            }
        }
        if frames.len() == 0 && (self.config.enable_aec || self.config.enable_ns) {
            return (frames, false);
        }

        match &mut self.quantizer_stage {
            Some(q) => {
                let t0 = crate::timestamp::wall_clock_ns();
                let next = run_quantizer_stage(q, frames, Ghost(src));
                let t1 = crate::timestamp::wall_clock_ns();
                frames = next;
                let dt = elapsed_ns(t0, t1);
                self.stats.quantizer_processor.record(dt);
                self.delay_tracker.record("quantizer_processor", dt);
            }
            None => {
            }
        }
        proof {
            if self.config.enable_aec || self.config.enable_ns {
                assert(forall|k: int|
                    0 <= k < frames@.len() ==> ((#[trigger] frames@[k])@.samples.len() == 480
                        && frames@[k]@.sample_rate == 48000 && frames@[k]@.channels == 1));
            }
        }
        if frames.len() == 0 && (self.config.enable_aec || self.config.enable_ns) {
            return (frames, false);
        }

        let mut wants_stats = false;
        let ghost before_aec = frames@;
        match &mut self.aec_stage {
            Some(a) => {
                let t0 = crate::timestamp::wall_clock_ns();
                let (next, wants) = run_aec_stage(a, frames, Ghost(src));
                let t1 = crate::timestamp::wall_clock_ns();
                frames = next;
                wants_stats = wants;
                let snap = a.tuner_stats(None, None);
                self.stats.aec_tuner = snap;
                let dt = elapsed_ns(t0, t1);
                self.stats.aec_processor.record(dt);
                self.delay_tracker.record("aec_processor", dt);
            }
            None => {
            }
        }
        proof {
            if (self.config.enable_aec || self.config.enable_ns) && src
                == AudioSourceType::Microphone {
                assert forall|k: int| 0 <= k < frames@.len() implies ((#[trigger] frames@[
                k])@.samples.len() == 480 && frames@[k]@.sample_rate == 48000 && frames@[k]@.channels
                    == 1) by {
                    assert(frames@[k]@ == before_aec[k]@);
                }
            }
        }
        if frames.len() == 0 {
            return (frames, wants_stats);
        }

        let ghost before_ns = frames@;
        match &mut self.ns_stage {
            Some(n) => {
                let t0 = crate::timestamp::wall_clock_ns();
                let next = run_ns_stage(n, frames, Ghost(src));
                let t1 = crate::timestamp::wall_clock_ns();
                frames = next;
                let dt = elapsed_ns(t0, t1);
                self.stats.ns_processor.record(dt);
                self.delay_tracker.record("ns_processor", dt);
            }
            None => {
            }
        }
        proof {
            if (self.config.enable_aec || self.config.enable_ns) && src
                == AudioSourceType::Microphone {
                assert forall|k: int| 0 <= k < frames@.len() implies ((#[trigger] frames@[
                k])@.samples.len() == 480 && frames@[k]@.sample_rate == 48000 && frames@[k]@.channels
                    == 1) by {
                    assert(frames@[k]@ == before_ns[k]@);
                }
            }
        }

        (frames, wants_stats)
    }

    /// Routes one frame by source.  A system frame is counted, cloned
    /// into the main chain as the echo reference when echo cancellation is
    /// on, and travels the system-final chain to the consumer.  A
    /// microphone frame is counted, travels the main chain — its
    /// processing time and end-to-end delay are recorded when it emerges —
    /// and then the microphone-final chain.  The returned frames are for
    /// the consumer; the second result says whether the echo stage asked
    /// for a quality snapshot.
    pub fn handle_frame(&mut self, frame: AudioFrame) -> (r: (Vec<AudioFrame>, bool))
        requires
            old(self).wf(),
        ensures
            final(self).wf(),
            final(self).spec_config() == old(self).spec_config(),
            forall|k: int| 0 <= k < r.0@.len() ==> (#[trigger] r.0@[k]).source == frame.source,
            frame.source == AudioSourceType::System ==> ({
                &&& final(self).spec_stats().frames_in_system == (if old(self).spec_stats().frames_in_system < u64::MAX {
                    old(self).spec_stats().frames_in_system + 1
                } else {
                    old(self).spec_stats().frames_in_system as int
                })
                &&& final(self).spec_stats().frames_in_mic == old(self).spec_stats().frames_in_mic
                &&& !r.1
            }),
            frame.source == AudioSourceType::Microphone ==> ({
                &&& final(self).spec_stats().frames_in_mic == (if old(self).spec_stats().frames_in_mic < u64::MAX {
                    old(self).spec_stats().frames_in_mic + 1
                } else {
                    old(self).spec_stats().frames_in_mic as int
                })
                &&& final(self).spec_stats().frames_in_system == old(self).spec_stats().frames_in_system
            }),
            (frame.source == AudioSourceType::Microphone && !old(self).spec_config().enable_aec
                && !old(self).spec_config().enable_ns && !old(self).spec_mic_final().spec_has_resampler(AudioSourceType::Microphone) && frame.channels
                == old(self).spec_config().channels && frame.samples@.len() > 0) ==> ({
                &&& r.0@.len() == 1
                &&& r.0@[0]@.samples == frame.samples@
                &&& r.0@[0]@.channels == old(self).spec_config().channels
                &&& r.0@[0]@.sample_rate == old(self).spec_mic_final().spec_source_rate(
                    AudioSourceType::Microphone,
                )
                &&& r.0@[0]@.timestamp == (match old(self).spec_ts().spec_anchor(
                    AudioSourceType::Microphone,
                ) {
                    Some(a) => spec_rebase(old(self).spec_ts().spec_epoch(), a, frame.timestamp),
                    None => old(self).spec_ts().spec_epoch(),
                })
            }),
            (frame.source == AudioSourceType::System && !old(self).spec_config().enable_aec && !old(self).spec_sys_final().spec_has_resampler(AudioSourceType::System) && frame.channels == old(self).spec_config().channels && frame.samples@.len() > 0) ==> ({
                &&& r.0@.len() == 1
                &&& r.0@[0]@.samples == frame.samples@
                &&& r.0@[0]@.channels == old(self).spec_config().channels
                &&& r.0@[0]@.sample_rate == old(self).spec_sys_final().spec_source_rate(
                    AudioSourceType::System,
                )
                &&& r.0@[0]@.timestamp == frame.timestamp
            }),
    {
        let ghost frame_view = frame@;
        match frame.source {
            AudioSourceType::System => {
                if self.stats.frames_in_system < u64::MAX {
                    self.stats.frames_in_system = self.stats.frames_in_system + 1;
                }
                if self.config.enable_aec {
                    let reference = frame.clone();
                    let (_consumed, _wants) = self.process_main(reference);
                }
                let t0 = crate::timestamp::wall_clock_ns();
                let single: Vec<AudioFrame> = {
                    let mut v: Vec<AudioFrame> = Vec::new();
                    v.push(frame);
                    v
                };
                let ghost pre_final = self.sys_final;
                let outputs = run_resample_stage(
                    &mut self.sys_final,
                    single,
                    Ghost(AudioSourceType::System),
                );
                proof {
                    if !self.config.enable_aec && !pre_final.spec_has_resampler(
                        AudioSourceType::System,
                    ) && frame_view.channels == self.config.channels && frame_view.samples.len()
                        > 0 {
                        assert(spec_passthrough_batch(pre_final, single@, AudioSourceType::System));
                        assert(frames_view(outputs@)[0] == spec_passthrough_outputs(
                            pre_final,
                            single@,
                            AudioSourceType::System,
                        )[0]);
                    }
                }
                let t1 = crate::timestamp::wall_clock_ns();
                let dt = elapsed_ns(t0, t1);
                self.delay_tracker.record("resample_processor", dt);
                (outputs, false)
            }
            AudioSourceType::Microphone => {
                if self.stats.frames_in_mic < u64::MAX {
                    self.stats.frames_in_mic = self.stats.frames_in_mic + 1;
                }
                let input_timestamp = frame.timestamp;
                let t0 = crate::timestamp::wall_clock_ns();
                let (processed, wants_stats) = self.process_main(frame);
                let t1 = crate::timestamp::wall_clock_ns();
                if processed.len() == 0 {
                    return (processed, wants_stats);
                }
                let processing_delay = elapsed_ns(t0, t1);
                self.delay_tracker.record("processing_time", processing_delay);
                self.stats.processing_time.record(processing_delay);
                let first_out_timestamp = processed[0].timestamp;
                let total_delay = Self::select_total_pipeline_delay(
                    input_timestamp,
                    first_out_timestamp,
                    processing_delay,
                );
                self.delay_tracker.record("total_pipeline", total_delay);
                self.stats.total_pipeline.record(total_delay);
                let t2 = crate::timestamp::wall_clock_ns();
                let ghost pre_final = self.mic_final;
                let ghost processed_view = processed@;
                let outputs = run_resample_stage(
                    &mut self.mic_final,
                    processed,
                    Ghost(AudioSourceType::Microphone),
                );
                proof {
                    if !self.config.enable_aec && !self.config.enable_ns
                        && !pre_final.spec_has_resampler(AudioSourceType::Microphone)
                        && frame_view.channels == self.config.channels && frame_view.samples.len()
                        > 0 {
                        assert(spec_passthrough_batch(
                            pre_final,
                            processed_view,
                            AudioSourceType::Microphone,
                        ));
                        assert(frames_view(outputs@)[0] == spec_passthrough_outputs(
                            pre_final,
                            processed_view,
                            AudioSourceType::Microphone,
                        )[0]);
                    }
                }
                let t3 = crate::timestamp::wall_clock_ns();
                let dt = elapsed_ns(t2, t3);
                self.delay_tracker.record("resample_processor", dt);
                (outputs, wants_stats)
            }
        }
    }

    /// Empties the whole pipeline at shutdown: every main-chain stage is
    /// flushed in order, the flushed frames travel their source's final
    /// chain, and both final chains are flushed last.  The returned
    /// frames are for the consumer.  Afterwards every stage is empty;
    /// with nothing enhancement-built nothing was buffered and nothing
    /// comes out, and with mono output through passthrough final chains
    /// the result is exactly the quantizer's flush — system stream first,
    /// then microphone.
    pub fn flush_all(&mut self) -> (r: Vec<AudioFrame>)
        requires
            old(self).wf(),
        ensures
            final(self).wf(),
            final(self).spec_config() == old(self).spec_config(),
            final(self).spec_quantizer() matches Some(q) ==> (q.spec_buffer(
                AudioSourceType::Microphone,
            ).len() == 0 && q.spec_buffer(AudioSourceType::System).len() == 0 && q.spec_ready().len()
                == 0),
            old(self).spec_quantizer() is None ==> r@.len() == 0,
            old(self).spec_quantizer() matches Some(q0) ==> ({
                let sys = AudioSourceType::System;
                let mic = AudioSourceType::Microphone;
                (old(self).spec_config().channels == 1 && !old(
                    self,
                ).spec_sys_final().spec_has_resampler(sys) && !old(
                    self,
                ).spec_mic_final().spec_has_resampler(mic)) ==> frames_view(r@)
                    =~= spec_quantizer_flush_model(q0, sys) + spec_quantizer_flush_model(q0, mic)
            }),
    {
        let ghost sys = AudioSourceType::System;
        let ghost mic = AudioSourceType::Microphone;
        let ghost q0_opt = self.quantizer_stage;
        let ghost smodel: Seq<FrameView> = (match q0_opt {
            Some(q0) => spec_quantizer_flush_model(q0, sys),
            None => Seq::empty(),
        });
        let ghost mmodel: Seq<FrameView> = (match q0_opt {
            Some(q0) => spec_quantizer_flush_model(q0, mic),
            None => Seq::empty(),
        });
        proof {
            match q0_opt {
                Some(q0) => {
                    lemma_flush_model_tags(q0, sys);
                    lemma_flush_model_tags(q0, mic);
                }
                None => {
                }
            }
        }

        let mut flushed: Vec<AudioFrame> = self.timestamp_stage.flush();
        match &mut self.webrtc_resample_stage {
            Some(st) => {
                let more = st.flush();
                proof {
                    assert(frames_view(more@).len() == 0);
                }
                let mut i: usize = 0;
                while i < more.len()
                    invariant
                        more@.len() == 0,
                        flushed@.len() == 0,
                    decreases more@.len() - i,
                {
                    flushed.push(more[i].clone());
                    i = i + 1;
                }
            }
            None => {
            }
        }
        proof {
            assert(flushed@.len() == 0);
        }
        match &mut self.quantizer_stage {
            Some(q) => {
                let more = q.flush();
                proof {
                    assert(frames_view(more@) =~= smodel + mmodel);
                }
                let mut i: usize = 0;
                while i < more.len()
                    invariant
                        i <= more@.len(),
                        frames_view(more@) =~= smodel + mmodel,
                        frames_view(flushed@) =~= frames_view(more@).take(i as int),
                    decreases more@.len() - i,
                {
                    let ghost pre = flushed@;
                    flushed.push(more[i].clone());
                    proof {
                        assert(frames_view(flushed@) =~= frames_view(pre).push(flushed@.last()@));
                        assert(flushed@.last()@ == frames_view(more@)[i as int]);
                        assert(frames_view(more@).take(i as int + 1) =~= frames_view(more@).take(
                            i as int,
                        ).push(frames_view(more@)[i as int]));
                    }
                    i = i + 1;
                }
                proof {
                    assert(frames_view(flushed@) =~= frames_view(more@));
                }
            }
            None => {
            }
        }
        match &mut self.aec_stage {
            Some(a) => {
                let more = a.flush();
                let ghost kept = flushed@;
                let mut i: usize = 0;
                while i < more.len()
                    invariant
                        more@.len() == 0,
                        flushed@ == kept,
                    decreases more@.len() - i,
                {
                    flushed.push(more[i].clone());
                    i = i + 1;
                }
            }
            None => {
            }
        }
        match &mut self.ns_stage {
            Some(n) => {
                let more = n.flush();
                let ghost kept = flushed@;
                let mut i: usize = 0;
                while i < more.len()
                    invariant
                        more@.len() == 0,
                        flushed@ == kept,
                    decreases more@.len() - i,
                {
                    flushed.push(more[i].clone());
                    i = i + 1;
                }
            }
            None => {
            }
        }
        proof {
            if q0_opt is Some {
                assert(frames_view(flushed@) =~= smodel + mmodel);
            } else {
                assert(flushed@.len() == 0);
            }
        }

        let mut sys_frames: Vec<AudioFrame> = Vec::new();
        let mut mic_frames: Vec<AudioFrame> = Vec::new();
        let ghost split = smodel.len() as int;
        let mut i: usize = 0;
        while i < flushed.len()
            invariant
                i <= flushed@.len(),
                sys == AudioSourceType::System,
                mic == AudioSourceType::Microphone,
                frames_view(flushed@) =~= smodel + mmodel || q0_opt is None,
                q0_opt is None ==> flushed@.len() == 0,
                split == smodel.len(),
                forall|k: int|
                    0 <= k < smodel.len() ==> ((#[trigger] smodel[k]).source == sys
                        && smodel[k].samples.len() > 0 && smodel[k].channels == (match q0_opt {
                        Some(q0) => q0.spec_channels(),
                        None => 1u16,
                    })),
                forall|k: int|
                    0 <= k < mmodel.len() ==> ((#[trigger] mmodel[k]).source == mic
                        && mmodel[k].samples.len() > 0 && mmodel[k].channels == (match q0_opt {
                        Some(q0) => q0.spec_channels(),
                        None => 1u16,
                    })),
                forall|k: int|
                    0 <= k < sys_frames@.len() ==> (#[trigger] sys_frames@[k]).source == sys,
                forall|k: int|
                    0 <= k < mic_frames@.len() ==> (#[trigger] mic_frames@[k]).source == mic,
                q0_opt is Some ==> (i <= split ==> (frames_view(sys_frames@) =~= smodel.take(
                    i as int,
                ) && mic_frames@.len() == 0)),
                q0_opt is Some ==> (i > split ==> (frames_view(sys_frames@) =~= smodel
                    && frames_view(mic_frames@) =~= mmodel.take(i - split))),
                q0_opt is None ==> (sys_frames@.len() == 0 && mic_frames@.len() == 0),
            decreases flushed@.len() - i,
        {
            let f = flushed[i].clone();
            let ghost fv = f@;
            proof {
                assert(fv.source == f.source);
                assert(fv == frames_view(flushed@)[i as int]);
                if q0_opt is Some {
                    if (i as int) < split {
                        assert(fv == smodel[i as int]);
                        assert(fv.source == sys);
                    } else {
                        assert(fv == mmodel[i - split]);
                        assert(fv.source == mic);
                    }
                }
            }
            if f.source == AudioSourceType::System {
                proof {
                    assert(fv.source == AudioSourceType::System);
                    if q0_opt is Some {
                        assert((i as int) < split);
                    }
                }
                let ghost pre = sys_frames@;
                sys_frames.push(f);
                proof {
                    assert(frames_view(sys_frames@) =~= frames_view(pre).push(fv));
                    if q0_opt is Some {
                        assert(smodel.take(i as int + 1) =~= smodel.take(i as int).push(
                            smodel[i as int],
                        ));
                    }
                }
            } else {
                proof {
                    assert(fv.source == AudioSourceType::Microphone);
                    if q0_opt is Some {
                        assert((i as int) >= split);
                    }
                }
                let ghost pre = mic_frames@;
                mic_frames.push(f);
                proof {
                    assert(frames_view(mic_frames@) =~= frames_view(pre).push(fv));
                    if q0_opt is Some {
                        assert(smodel.take(split) =~= smodel);
                        let j = i - split;
                        assert(mmodel.take(j + 1) =~= mmodel.take(j).push(mmodel[j]));
                    }
                }
            }
            i = i + 1;
        }
        proof {
            if q0_opt is Some {
                assert(frames_view(sys_frames@) =~= smodel);
                assert(frames_view(mic_frames@) =~= mmodel);
                assert(mmodel.take(flushed@.len() as int - split) =~= mmodel);
            }
        }

        let ghost content_case = q0_opt is Some && self.config.channels == 1
            && !self.sys_final.spec_has_resampler(sys) && !self.mic_final.spec_has_resampler(mic);
        proof {
            if content_case {
                assert forall|k: int| 0 <= k < sys_frames@.len() implies ((
                #[trigger] sys_frames@[k]).channels == self.sys_final.spec_target_channels()
                    && sys_frames@[k].samples@.len() > 0) by {
                    assert(sys_frames@[k]@ == smodel[k]);
                }
                assert forall|k: int| 0 <= k < mic_frames@.len() implies ((
                #[trigger] mic_frames@[k]).channels == self.mic_final.spec_target_channels()
                    && mic_frames@[k].samples@.len() > 0) by {
                    assert(mic_frames@[k]@ == mmodel[k]);
                }
            }
        }
        let ghost sys_final_pre = self.sys_final;
        let ghost mic_final_pre = self.mic_final;
        let ghost sys_batch = sys_frames@;
        let ghost mic_batch = mic_frames@;
        let mut outputs = run_resample_stage(
            &mut self.sys_final,
            sys_frames,
            Ghost(AudioSourceType::System),
        );
        let mic_outputs = run_resample_stage(
            &mut self.mic_final,
            mic_frames,
            Ghost(AudioSourceType::Microphone),
        );
        proof {
            if content_case {
                assert(frames_view(outputs@) =~= spec_passthrough_outputs(
                    sys_final_pre,
                    sys_batch,
                    sys,
                ));
                assert forall|k: int| 0 <= k < smodel.len() implies frames_view(outputs@)[k]
                    == smodel[k] by {
                    assert(sys_batch[k]@ == smodel[k]);
                }
                assert(frames_view(outputs@) =~= smodel);
                assert forall|k: int| 0 <= k < mmodel.len() implies frames_view(mic_outputs@)[k]
                    == mmodel[k] by {
                    assert(mic_batch[k]@ == mmodel[k]);
                }
                assert(frames_view(mic_outputs@) =~= mmodel);
            }
        }

        let ghost after_sys = outputs@;
        let mut m: usize = 0;
        while m < mic_outputs.len()
            invariant
                m <= mic_outputs@.len(),
                frames_view(outputs@) =~= frames_view(after_sys) + frames_view(mic_outputs@).take(
                    m as int,
                ),
            decreases mic_outputs@.len() - m,
        {
            let ghost pre = outputs@;
            outputs.push(mic_outputs[m].clone());
            proof {
                assert(frames_view(outputs@) =~= frames_view(pre).push(outputs@.last()@));
                assert(outputs@.last()@ == frames_view(mic_outputs@)[m as int]);
                assert(frames_view(mic_outputs@).take(m as int + 1) =~= frames_view(
                    mic_outputs@,
                ).take(m as int).push(frames_view(mic_outputs@)[m as int]));
            }
            m = m + 1;
        }
        proof {
            assert(frames_view(outputs@) =~= frames_view(after_sys) + frames_view(mic_outputs@));
        }

        let ghost settled = outputs@;
        let sys_tail = self.sys_final.flush();
        proof {
            assert(frames_view(sys_tail@).len() == 0);
        }
        let mut t: usize = 0;
        while t < sys_tail.len()
            invariant
                sys_tail@.len() == 0,
                outputs@ == settled,
            decreases sys_tail@.len() - t,
        {
            outputs.push(sys_tail[t].clone());
            t = t + 1;
        }
        let mic_tail = self.mic_final.flush();
        proof {
            assert(frames_view(mic_tail@).len() == 0);
        }
        let mut u: usize = 0;
        while u < mic_tail.len()
            invariant
                mic_tail@.len() == 0,
                outputs@ == settled,
            decreases mic_tail@.len() - u,
        {
            outputs.push(mic_tail[u].clone());
            u = u + 1;
        }

        outputs
    }

    /// One tick of the echo stage's delay tuner, fed the canceller's raw
    /// quality reading, and the snapshot published for the host.  Returns
    /// whether the applied delay changed; without an echo stage nothing
    /// happens.
    pub fn tune_aec(&mut self, erle: i32, delay_inst_ms: Option<u32>) -> (r: bool)
        requires
            old(self).wf(),
        ensures
            final(self).wf(),
            final(self).spec_config() == old(self).spec_config(),
            old(self).spec_aec() is None ==> (!r && *final(self) == *old(self)),
            old(self).spec_aec() matches Some(a) ==> ({
                let o = spec_tune_step(a.tuner_model(), erle as int, delay_inst_ms);
                &&& r == o.changed
                &&& (final(self).spec_aec() matches Some(a2) && a2.tuner_model() == o.state)
                &&& final(self).spec_stats().aec_tuner.applied_delay_ms as int
                    == o.state.applied_delay_ms
                &&& final(self).spec_stats().aec_tuner.tune_events as int == o.state.tune_events
                &&& final(self).spec_stats().aec_tuner.frozen == o.state.frozen
            }),
    {
        match &mut self.aec_stage {
            Some(a) => {
                let changed = a.tune_delay_on_the_fly(erle, delay_inst_ms);
                let snap = a.tuner_stats(Some(erle), delay_inst_ms);
                self.stats.aec_tuner = snap;
                changed
            }
            None => false,
        }
    }

    /// The applied echo-cancellation stream delay in milliseconds, when
    /// the echo stage is built: what the embedding hands the canceller
    /// after a tuner change.
    pub fn applied_aec_delay_ms(&self) -> (r: Option<i32>)
        ensures
            self.spec_aec() is None ==> r is None,
            self.spec_aec() matches Some(a) ==> (r matches Some(d) && d as int
                == a.tuner_model().applied_delay_ms),
    {
        match &self.aec_stage {
            Some(a) => Some(a.tuner_stats(None, None).applied_delay_ms),
            None => None,
        }
    }

    /// Counts one delivery attempt of an emitted frame: a success grows
    /// the source's output counter, a failure the callback error counter.
    pub fn note_delivery(&mut self, source: AudioSourceType, delivered: bool)
        ensures
            final(self).wf() == old(self).wf(),
            final(self).spec_config() == old(self).spec_config(),
            delivered && source == AudioSourceType::Microphone ==> final(self).spec_stats().frames_out_mic == (if old(self).spec_stats().frames_out_mic < u64::MAX {
                old(self).spec_stats().frames_out_mic + 1
            } else {
                old(self).spec_stats().frames_out_mic as int
            }),
            delivered && source == AudioSourceType::System ==> final(self).spec_stats().frames_out_system == (if old(self).spec_stats().frames_out_system
                < u64::MAX {
                old(self).spec_stats().frames_out_system + 1
            } else {
                old(self).spec_stats().frames_out_system as int
            }),
            !delivered ==> final(self).spec_stats().callback_errors == (if old(self).spec_stats().callback_errors < u64::MAX {
                old(self).spec_stats().callback_errors + 1
            } else {
                old(self).spec_stats().callback_errors as int
            }),
    {
        if delivered {
            match source {
                AudioSourceType::Microphone => {
                    if self.stats.frames_out_mic < u64::MAX {
                        self.stats.frames_out_mic = self.stats.frames_out_mic + 1;
                    }
                }
                AudioSourceType::System => {
                    if self.stats.frames_out_system < u64::MAX {
                        self.stats.frames_out_system = self.stats.frames_out_system + 1;
                    }
                }
            }
        } else {
            if self.stats.callback_errors < u64::MAX {
                self.stats.callback_errors = self.stats.callback_errors + 1;
            }
        }
    }

    /// Counts one emission skipped because the host lock was unavailable.
    pub fn note_lock_failure(&mut self)
        ensures
            final(self).wf() == old(self).wf(),
            final(self).spec_config() == old(self).spec_config(),
            final(self).spec_stats().gil_acquire_failures == (if old(self).spec_stats().gil_acquire_failures < u64::MAX {
                old(self).spec_stats().gil_acquire_failures + 1
            } else {
                old(self).spec_stats().gil_acquire_failures as int
            }),
    {
        if self.stats.gil_acquire_failures < u64::MAX {
            self.stats.gil_acquire_failures = self.stats.gil_acquire_failures + 1;
        }
    }

    /// A view of the run's counters.
    pub fn stats(&self) -> (r: &RuntimeStats)
        ensures
            *r == self.spec_stats(),
    {
        &self.stats
    }

    /// A view of the per-stage delay tracker.
    pub fn tracker(&self) -> (r: &DelayTracker)
        ensures
            *r == self.spec_tracker(),
    {
        &self.delay_tracker
    }

    /// Starts the counters afresh, as at the beginning of a run.
    pub fn reset_stats(&mut self)
        ensures
            final(self).wf() == old(self).wf(),
            final(self).spec_config() == old(self).spec_config(),
            final(self).spec_stats().frames_in_mic == 0,
            final(self).spec_stats().frames_in_system == 0,
            final(self).spec_stats().frames_out_mic == 0,
            final(self).spec_stats().frames_out_system == 0,
    {
        self.stats = RuntimeStats::default();
    }

    /// Whether the given source's final chain waits for an external
    /// resampler.
    pub fn final_chain_needs_resampler(&self, source: AudioSourceType) -> (r: bool)
        ensures
            source == AudioSourceType::System ==> r == self.spec_sys_final().spec_has_resampler(
                AudioSourceType::System,
            ),
            source == AudioSourceType::Microphone ==> r == self.spec_mic_final().spec_has_resampler(
                AudioSourceType::Microphone,
            ),
    {
        match source {
            AudioSourceType::System => self.sys_final.needs_resampler(AudioSourceType::System),
            AudioSourceType::Microphone => self.mic_final.needs_resampler(
                AudioSourceType::Microphone,
            ),
        }
    }

    /// Detaches the given source's final-chain resampler, as when the
    /// embedding fails to construct one: the chain runs as a passthrough
    /// from here on.
    pub fn disable_final_resampler(&mut self, source: AudioSourceType)
        requires
            old(self).wf(),
        ensures
            final(self).wf(),
            final(self).spec_config() == old(self).spec_config(),
            final(self).spec_stats() == old(self).spec_stats(),
            source == AudioSourceType::System ==> (!final(self).spec_sys_final().spec_has_resampler(
                AudioSourceType::System,
            ) && final(self).spec_mic_final() == old(self).spec_mic_final()),
            source == AudioSourceType::Microphone ==> (!final(self).spec_mic_final().spec_has_resampler(AudioSourceType::Microphone) && final(self).spec_sys_final() == old(self).spec_sys_final()),
    {
        match source {
            AudioSourceType::System => {
                self.sys_final.fall_back_to_passthrough(AudioSourceType::System);
            }
            AudioSourceType::Microphone => {
                self.mic_final.fall_back_to_passthrough(AudioSourceType::Microphone);
            }
        }
    }

    /// Takes one staged resampler chunk — chunk size times channel count
    /// samples — off the given source's final chain, for the embedding's
    /// resampler: exactly when a full chunk is staged, it is that prefix,
    /// removed from the staged input.
    pub fn take_final_chunk(&mut self, source: AudioSourceType) -> (r: Option<Vec<i32>>)
        requires
            old(self).wf(),
        ensures
            final(self).wf(),
            final(self).spec_config() == old(self).spec_config(),
            final(self).spec_stats() == old(self).spec_stats(),
            source == AudioSourceType::System ==> ({
                let st0 = old(self).spec_sys_final();
                let need = st0.spec_chunk() * (st0.spec_target_channels() as int);
                &&& final(self).spec_mic_final() == old(self).spec_mic_final()
                &&& (st0.spec_input(AudioSourceType::System).len() < need ==> (r is None && final(self).spec_sys_final().spec_input(AudioSourceType::System) == st0.spec_input(
                    AudioSourceType::System,
                )))
                &&& (st0.spec_input(AudioSourceType::System).len() >= need ==> (r is Some
                    && r->Some_0@ =~= st0.spec_input(AudioSourceType::System).take(need) && final(self).spec_sys_final().spec_input(AudioSourceType::System) =~= st0.spec_input(
                    AudioSourceType::System,
                ).skip(need)))
            }),
            source == AudioSourceType::Microphone ==> ({
                let st0 = old(self).spec_mic_final();
                let need = st0.spec_chunk() * (st0.spec_target_channels() as int);
                &&& final(self).spec_sys_final() == old(self).spec_sys_final()
                &&& (st0.spec_input(AudioSourceType::Microphone).len() < need ==> (r is None
                    && final(self).spec_mic_final().spec_input(AudioSourceType::Microphone)
                    == st0.spec_input(AudioSourceType::Microphone)))
                &&& (st0.spec_input(AudioSourceType::Microphone).len() >= need ==> (r is Some
                    && r->Some_0@ =~= st0.spec_input(AudioSourceType::Microphone).take(need)
                    && final(self).spec_mic_final().spec_input(AudioSourceType::Microphone)
                    =~= st0.spec_input(AudioSourceType::Microphone).skip(need)))
            }),
    {
        match source {
            AudioSourceType::System => self.sys_final.take_resampler_chunk(
                AudioSourceType::System,
            ),
            AudioSourceType::Microphone => self.mic_final.take_resampler_chunk(
                AudioSourceType::Microphone,
            ),
        }
    }

    /// Hands one resampled chunk back to the given source's final chain
    /// and returns the frame that completes, for the consumer: the
    /// samples become one frame at the target format, stamped by
    /// extrapolation from the chain's anchor; an empty chunk completes
    /// nothing.
    pub fn push_final_output(&mut self, source: AudioSourceType, samples: Vec<i32>) -> (r: Vec<
        AudioFrame,
    >)
        requires
            old(self).wf(),
        ensures
            final(self).wf(),
            final(self).spec_config() == old(self).spec_config(),
            final(self).spec_stats() == old(self).spec_stats(),
            forall|k: int| 0 <= k < r@.len() ==> (#[trigger] r@[k]).source == source,
            source == AudioSourceType::System ==> final(self).spec_mic_final() == old(self).spec_mic_final(),
            source == AudioSourceType::Microphone ==> final(self).spec_sys_final() == old(self).spec_sys_final(),
            samples@.len() == 0 ==> r@.len() == 0,
            samples@.len() > 0 ==> ({
                let st0 = (if source == AudioSourceType::System {
                    old(self).spec_sys_final()
                } else {
                    old(self).spec_mic_final()
                });
                let st1 = (if source == AudioSourceType::System {
                    final(self).spec_sys_final()
                } else {
                    final(self).spec_mic_final()
                });
                &&& r@.len() == 1
                &&& r@[0]@ == (FrameView {
                    source,
                    samples: samples@,
                    sample_rate: st0.spec_target_rate(),
                    channels: st0.spec_target_channels(),
                    timestamp: spec_quantum_ts(
                        st0.spec_anchor(source),
                        st0.spec_buffered(source),
                        st0.spec_target_rate(),
                    ),
                })
                &&& st1.spec_buffered(source) == sat_u64(
                    st0.spec_buffered(source) + samples@.len() as int / (
                    st0.spec_target_channels() as int),
                )
            }),
    {
        let ghost samples_view = samples@;
        match source {
            AudioSourceType::System => {
                let ghost st0 = self.sys_final;
                self.sys_final.push_resampler_output(AudioSourceType::System, samples);
                proof {
                    if samples_view.len() > 0 {
                        assert(self.sys_final.spec_ready(AudioSourceType::System).len() == 1);
                    }
                }
                let out = drain_all_ready(&mut self.sys_final, AudioSourceType::System);
                proof {
                    if samples_view.len() > 0 {
                        assert(out@[0]@ == frames_view(out@)[0]);
                    }
                }
                out
            }
            AudioSourceType::Microphone => {
                let ghost st0 = self.mic_final;
                self.mic_final.push_resampler_output(AudioSourceType::Microphone, samples);
                proof {
                    if samples_view.len() > 0 {
                        assert(self.mic_final.spec_ready(AudioSourceType::Microphone).len() == 1);
                    }
                }
                let out = drain_all_ready(&mut self.mic_final, AudioSourceType::Microphone);
                proof {
                    if samples_view.len() > 0 {
                        assert(out@[0]@ == frames_view(out@)[0]);
                    }
                }
                out
            }
        }
    }
}

/// Empties one source's ready queue into a batch, oldest first; every
/// frame of that queue must already carry the source's tag.
fn drain_all_ready(st: &mut ResampleProcessor, source: AudioSourceType) -> (r: Vec<AudioFrame>)
    requires
        old(st).wf(),
        forall|k: int|
            0 <= k < old(st).spec_ready(source).len() ==> (#[trigger] old(st).spec_ready(
                source,
            )[k]).source == source,
    ensures
        final(st).wf(),
        final(st).config_eq(*old(st)),
        final(st).spec_ready(source).len() == 0,
        final(st).source_state_eq(*old(st), crate::frame::spec_other_source(source)),
        final(st).spec_has_resampler(source) == old(st).spec_has_resampler(source),
        final(st).spec_source_rate(source) == old(st).spec_source_rate(source),
        final(st).spec_input(source) == old(st).spec_input(source),
        final(st).spec_queue(source) == old(st).spec_queue(source),
        final(st).spec_anchor(source) == old(st).spec_anchor(source),
        final(st).spec_buffered(source) == old(st).spec_buffered(source),
        forall|k: int| 0 <= k < r@.len() ==> (#[trigger] r@[k]).source == source,
        frames_view(r@) =~= old(st).spec_ready(source),
{
    let mut outputs: Vec<AudioFrame> = Vec::new();
    loop
        invariant
            st.wf(),
            st.config_eq(*old(st)),
            st.source_state_eq(*old(st), crate::frame::spec_other_source(source)),
            st.spec_has_resampler(source) == old(st).spec_has_resampler(source),
            st.spec_source_rate(source) == old(st).spec_source_rate(source),
            st.spec_input(source) == old(st).spec_input(source),
            st.spec_queue(source) == old(st).spec_queue(source),
            st.spec_anchor(source) == old(st).spec_anchor(source),
            st.spec_buffered(source) == old(st).spec_buffered(source),
            forall|k: int|
                0 <= k < st.spec_ready(source).len() ==> (#[trigger] st.spec_ready(
                    source,
                )[k]).source == source,
            forall|k: int| 0 <= k < outputs@.len() ==> (#[trigger] outputs@[k]).source == source,
            frames_view(outputs@) + st.spec_ready(source) =~= old(st).spec_ready(source),
        ensures
            st.wf(),
            st.config_eq(*old(st)),
            st.source_state_eq(*old(st), crate::frame::spec_other_source(source)),
            st.spec_has_resampler(source) == old(st).spec_has_resampler(source),
            st.spec_source_rate(source) == old(st).spec_source_rate(source),
            st.spec_input(source) == old(st).spec_input(source),
            st.spec_queue(source) == old(st).spec_queue(source),
            st.spec_anchor(source) == old(st).spec_anchor(source),
            st.spec_buffered(source) == old(st).spec_buffered(source),
            st.spec_ready(source).len() == 0,
            forall|k: int| 0 <= k < outputs@.len() ==> (#[trigger] outputs@[k]).source == source,
            frames_view(outputs@) =~= old(st).spec_ready(source),
        decreases st.spec_ready(source).len(),
    {
        let ghost outputs_pre = outputs@;
        match st.pop_ready(source) {
            Some(f) => {
                outputs.push(f);
                proof {
                    assert(frames_view(outputs@) =~= frames_view(outputs_pre).push(
                        outputs@.last()@,
                    ));
                }
            }
            None => {
                break ;
            }
        }
    }
    outputs
}

} // verus!
