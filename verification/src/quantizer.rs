//! Frame quantization.
//!
//! Converts arbitrary-size frames into fixed-size quanta per source, as the
//! echo canceller demands (480 samples for 10 ms at 48 kHz mono).  Each
//! source keeps its own sample buffer, the timestamp anchoring the first
//! buffered sample, and a count of samples already emitted since that
//! anchor; quantum timestamps are extrapolated from those.

use vstd::prelude::*;
use std::collections::VecDeque;
use crate::frame::AudioFrame;
use crate::frame::AudioSourceType;
use crate::frame::FrameView;
use crate::frame::frames_view;
use crate::frame::spec_opt_frame;
use crate::frame::spec_other_source;

verus! {

/// An integer clamped into the `u64` range.
pub open spec fn sat_u64(x: int) -> u64 {
    if x > u64::MAX {
        u64::MAX
    } else if x < 0 {
        0
    } else {
        x as u64
    }
}

/// The timestamp of a quantum whose first sample sits `processed` samples
/// after the anchor: the anchor plus the elapsed nanoseconds at `rate`,
/// saturated at the top of the range.
pub open spec fn spec_quantum_ts(anchor: u64, processed: u64, rate: u32) -> u64
    recommends
        rate >= 1,
{
    sat_u64(anchor + (processed as int * 1_000_000_000) / (rate as int))
}

/// What draining a sample buffer into full quanta yields: the emitted
/// quanta in order, the undersized remainder, and the advanced sample count.
pub struct DrainModel {
    /// The emitted quanta, oldest first.
    pub quanta: Seq<FrameView>,
    /// What stays buffered: fewer samples than one quantum.
    pub rest: Seq<i32>,
    /// The sample count after advancing by one quantum per emission.
    pub processed: u64,
}

/// Drains `buf` into full quanta of size `q` for one source.
pub open spec fn spec_drain(
    source: AudioSourceType,
    buf: Seq<i32>,
    anchor: u64,
    processed: u64,
    q: int,
    rate: u32,
    ch: u16,
) -> DrainModel
    recommends
        q >= 1,
        rate >= 1,
    decreases buf.len(),
{
    if q < 1 || buf.len() < q {
        DrainModel { quanta: Seq::empty(), rest: buf, processed }
    } else {
        let first = FrameView {
            source,
            samples: buf.take(q),
            sample_rate: rate,
            channels: ch,
            timestamp: spec_quantum_ts(anchor, processed, rate),
        };
        let tail = spec_drain(source, buf.skip(q), anchor, sat_u64(processed as int + q), q, rate, ch);
        DrainModel {
            quanta: seq![first] + tail.quanta,
            rest: tail.rest,
            processed: tail.processed,
        }
    }
}

/// The padded tail a flush emits: nothing when the remainder is empty, else
/// one quantum holding the remainder followed by zeros.
pub open spec fn spec_padded_tail(
    source: AudioSourceType,
    rest: Seq<i32>,
    anchor: u64,
    processed: u64,
    q: int,
    rate: u32,
    ch: u16,
) -> Seq<FrameView> {
    if rest.len() == 0 {
        Seq::empty()
    } else {
        seq![
            FrameView {
                source,
                samples: rest + Seq::new((q - rest.len()) as nat, |i: int| 0i32),
                sample_rate: rate,
                channels: ch,
                timestamp: spec_quantum_ts(anchor, processed, rate),
            },
        ]
    }
}

/// Per-source quantizer state.
struct QuantizerState {
    /// Buffered samples not yet grouped into a quantum.
    sample_buffer: VecDeque<i32>,
    /// Timestamp of the first buffered sample of the current run.
    current_timestamp: u64,
    /// Samples emitted since the anchor was set.
    samples_processed: u64,
}

/// Converts variable-size frames into fixed-size quanta per source.
pub struct FrameQuantizer {
    mic_state: QuantizerState,
    sys_state: QuantizerState,
    ready_queue: VecDeque<AudioFrame>,
    quantum_size: usize,
    expected_sample_rate: u32,
    expected_channels: u16,
}

impl FrameQuantizer {
    /// The buffered samples of the given source.
    pub closed spec fn spec_buffer(self, source: AudioSourceType) -> Seq<i32> {
        match source {
            AudioSourceType::Microphone => self.mic_state.sample_buffer@,
            AudioSourceType::System => self.sys_state.sample_buffer@,
        }
    }

    /// The timestamp anchor of the given source.
    pub closed spec fn spec_anchor(self, source: AudioSourceType) -> u64 {
        match source {
            AudioSourceType::Microphone => self.mic_state.current_timestamp,
            AudioSourceType::System => self.sys_state.current_timestamp,
        }
    }

    /// The emitted-sample count of the given source.
    pub closed spec fn spec_processed(self, source: AudioSourceType) -> u64 {
        match source {
            AudioSourceType::Microphone => self.mic_state.samples_processed,
            AudioSourceType::System => self.sys_state.samples_processed,
        }
    }

    /// The completed quanta waiting to be handed out, oldest first.
    pub closed spec fn spec_ready(self) -> Seq<FrameView> {
        frames_view(self.ready_queue@)
    }

    /// The configured quantum size.
    pub closed spec fn spec_quantum(self) -> int {
        self.quantum_size as int
    }

    /// The sample rate every input must carry.
    pub closed spec fn spec_rate(self) -> u32 {
        self.expected_sample_rate
    }

    /// The channel count every input must carry.
    pub closed spec fn spec_channels(self) -> u16 {
        self.expected_channels
    }

    /// A quantizer is well formed when its quantum and rate are positive.
    pub open spec fn wf(self) -> bool {
        self.spec_quantum() >= 1 && self.spec_rate() >= 1
    }

    /// Whether one source's state equals another quantizer's, field for field.
    pub open spec fn source_state_eq(self, other: Self, source: AudioSourceType) -> bool {
        &&& self.spec_buffer(source) == other.spec_buffer(source)
        &&& self.spec_anchor(source) == other.spec_anchor(source)
        &&& self.spec_processed(source) == other.spec_processed(source)
    }

    /// Whether the configured quantum, rate and channels equal another's.
    pub open spec fn config_eq(self, other: Self) -> bool {
        &&& self.spec_quantum() == other.spec_quantum()
        &&& self.spec_rate() == other.spec_rate()
        &&& self.spec_channels() == other.spec_channels()
    }

    /// The quantizer the echo canceller needs: 480-sample quanta of 48 kHz
    /// mono input.
    pub fn for_webrtc() -> (r: Self)
        ensures
            r.wf(),
            r.spec_quantum() == 480,
            r.spec_rate() == 48000,
            r.spec_channels() == 1,
            r.spec_ready().len() == 0,
            r.spec_buffer(AudioSourceType::Microphone).len() == 0,
            r.spec_buffer(AudioSourceType::System).len() == 0,
            r.spec_anchor(AudioSourceType::Microphone) == 0,
            r.spec_anchor(AudioSourceType::System) == 0,
            r.spec_processed(AudioSourceType::Microphone) == 0,
            r.spec_processed(AudioSourceType::System) == 0,
    {
        Self::with_quantum_size(480, 48000, 1)
    }

    /// A quantizer with a custom quantum size and expected input format.
    pub fn with_quantum_size(quantum_size: usize, sample_rate: u32, channels: u16) -> (r: Self)
        requires
            quantum_size >= 1,
            sample_rate >= 1,
        ensures
            r.wf(),
            r.spec_quantum() == quantum_size,
            r.spec_rate() == sample_rate,
            r.spec_channels() == channels,
            r.spec_ready().len() == 0,
            r.spec_buffer(AudioSourceType::Microphone).len() == 0,
            r.spec_buffer(AudioSourceType::System).len() == 0,
            r.spec_anchor(AudioSourceType::Microphone) == 0,
            r.spec_anchor(AudioSourceType::System) == 0,
            r.spec_processed(AudioSourceType::Microphone) == 0,
            r.spec_processed(AudioSourceType::System) == 0,
    {
        FrameQuantizer {
            mic_state: QuantizerState {
                sample_buffer: VecDeque::new(),
                current_timestamp: 0,
                samples_processed: 0,
            },
            sys_state: QuantizerState {
                sample_buffer: VecDeque::new(),
                current_timestamp: 0,
                samples_processed: 0,
            },
            ready_queue: VecDeque::new(),
            quantum_size,
            expected_sample_rate: sample_rate,
            expected_channels: channels,
        }
    }
}

/// The extrapolated quantum timestamp, computed without overflow.
pub(crate) fn quantum_timestamp(anchor: u64, processed: u64, rate: u32) -> (r: u64)
    requires
        rate >= 1,
    ensures
        r == spec_quantum_ts(anchor, processed, rate),
{
    proof {
        assert((processed as int) * 1_000_000_000 <= (u64::MAX as int) * 1_000_000_000)
            by (nonlinear_arith)
            requires
                processed <= u64::MAX,
        ;
    }
    let off: u128 = (processed as u128) * 1_000_000_000u128 / (rate as u128);
    let sum: u128 = (anchor as u128) + off;
    if sum > u64::MAX as u128 {
        u64::MAX
    } else {
        sum as u64
    }
}

impl QuantizerState {
    /// Extracts one full quantum from the front of the buffer, if available.
    fn extract_quantum(
        &mut self,
        source: AudioSourceType,
        quantum_size: usize,
        rate: u32,
        ch: u16,
    ) -> (r: Option<AudioFrame>)
        requires
            quantum_size >= 1,
            rate >= 1,
        ensures
            old(self).sample_buffer@.len() < quantum_size ==> (r is None && *final(self)
                == *old(self)),
            old(self).sample_buffer@.len() >= quantum_size ==> ({&&& r is Some
                &&& r->Some_0@ == (FrameView {
                    source,
                    samples: old(self).sample_buffer@.take(quantum_size as int),
                    sample_rate: rate,
                    channels: ch,
                    timestamp: spec_quantum_ts(
                        old(self).current_timestamp,
                        old(self).samples_processed,
                        rate,
                    ),
                })
                &&& final(self).sample_buffer@ == old(self).sample_buffer@.skip(
                    quantum_size as int,
                )
                &&& final(self).current_timestamp == old(self).current_timestamp
                &&& final(self).samples_processed == sat_u64(
                    old(self).samples_processed as int + quantum_size as int,
                )}),
    {
        if self.sample_buffer.len() < quantum_size {
            return None;
        }

        let ghost buf0 = self.sample_buffer@;
        let mut samples: Vec<i32> = Vec::new();
        let mut i: usize = 0;
        while i < quantum_size
            invariant
                i <= quantum_size,
                quantum_size <= buf0.len(),
                samples@ =~= buf0.take(i as int),
                self.sample_buffer@ =~= buf0.skip(i as int),
                self.current_timestamp == old(self).current_timestamp,
                self.samples_processed == old(self).samples_processed,
            decreases quantum_size - i,
        {
            let s = self.sample_buffer.pop_front().unwrap();
            samples.push(s);
            i = i + 1;
        }

        let quantum_timestamp = quantum_timestamp(self.current_timestamp, self.samples_processed, rate);
        let p = self.samples_processed;
        self.samples_processed = if p <= u64::MAX - quantum_size as u64 {
            p + quantum_size as u64
        } else {
            u64::MAX
        };

        Some(AudioFrame {
            source,
            samples,
            sample_rate: rate,
            channels: ch,
            timestamp: quantum_timestamp,
        })
    }

    /// Drains every full quantum from the buffer, oldest first.
    fn drain_quanta(
        &mut self,
        source: AudioSourceType,
        quantum_size: usize,
        rate: u32,
        ch: u16,
    ) -> (r: Vec<AudioFrame>)
        requires
            quantum_size >= 1,
            rate >= 1,
        ensures
            ({
                let d = spec_drain(
                    source,
                    old(self).sample_buffer@,
                    old(self).current_timestamp,
                    old(self).samples_processed,
                    quantum_size as int,
                    rate,
                    ch,
                );
                &&& frames_view(r@) =~= d.quanta
                &&& final(self).sample_buffer@ == d.rest
                &&& final(self).samples_processed == d.processed
                &&& final(self).current_timestamp == old(self).current_timestamp
                &&& final(self).sample_buffer@.len() < quantum_size
            }),
    {
        let ghost buf0 = self.sample_buffer@;
        let ghost p0 = self.samples_processed;
        let ghost anchor = self.current_timestamp;
        let mut results: Vec<AudioFrame> = Vec::new();
        loop
            invariant
                quantum_size >= 1,
                rate >= 1,
                self.current_timestamp == anchor,
                ({
                    let d0 = spec_drain(source, buf0, anchor, p0, quantum_size as int, rate, ch);
                    let d = spec_drain(
                        source,
                        self.sample_buffer@,
                        anchor,
                        self.samples_processed,
                        quantum_size as int,
                        rate,
                        ch,
                    );
                    &&& d0.quanta =~= frames_view(results@) + d.quanta
                    &&& d0.rest == d.rest
                    &&& d0.processed == d.processed
                }),
            ensures
                self.current_timestamp == anchor,
                self.sample_buffer@.len() < quantum_size,
                ({
                    let d0 = spec_drain(source, buf0, anchor, p0, quantum_size as int, rate, ch);
                    &&& d0.quanta =~= frames_view(results@)
                    &&& d0.rest == self.sample_buffer@
                    &&& d0.processed == self.samples_processed
                }),
            decreases self.sample_buffer@.len(),
        {
            let ghost pre = *self;
            let ghost emitted_pre = frames_view(results@);
            let next = self.extract_quantum(source, quantum_size, rate, ch);
            match next {
                Some(frame) => {
                    results.push(frame);
                    proof {
                        assert(frames_view(results@) =~= emitted_pre.push(results@.last()@));
                    }
                }
                None => {
                    break;
                }
            }
        }
        results
    }
}

impl FrameQuantizer {
    /// The mutable per-source state.
    fn source_state_mut(&mut self, source: AudioSourceType) -> (r: &mut QuantizerState)
        ensures
            *r == (match source {
                AudioSourceType::Microphone => old(self).mic_state,
                AudioSourceType::System => old(self).sys_state,
            }),
            *final(self) == (match source {
                AudioSourceType::Microphone => FrameQuantizer {
                    mic_state: *final(r),
                    ..*old(self)
                },
                AudioSourceType::System => FrameQuantizer { sys_state: *final(r), ..*old(self) },
            }),
    {
        match source {
            AudioSourceType::Microphone => &mut self.mic_state,
            AudioSourceType::System => &mut self.sys_state,
        }
    }

    /// The anchor the given source will use once the frame's samples join
    /// its buffer: a fresh run adopts the frame's timestamp.
    pub open spec fn spec_new_anchor(self, source: AudioSourceType, frame_ts: u64) -> u64 {
        if self.spec_buffer(source).len() == 0 && self.spec_processed(source) == 0 {
            frame_ts
        } else {
            self.spec_anchor(source)
        }
    }

    /// What processing one matching frame drains for its source.
    pub open spec fn spec_process_drain(self, frame: FrameView) -> DrainModel {
        spec_drain(
            frame.source,
            self.spec_buffer(frame.source) + frame.samples,
            self.spec_new_anchor(frame.source, frame.timestamp),
            self.spec_processed(frame.source),
            self.spec_quantum(),
            self.spec_rate(),
            self.spec_channels(),
        )
    }

    /// Appends a matching frame's samples to its source's buffer and hands
    /// out the oldest completed quantum, if any; a frame whose rate or
    /// channel count disagrees with the configured expectation is rejected
    /// and nothing changes.  Every completed quantum is emitted exactly
    /// once: what `process` returns, followed by the ready queue it leaves
    /// behind, is the ready queue it found plus the newly completed quanta,
    /// in order.
    pub fn process(&mut self, frame: AudioFrame) -> (r: Option<AudioFrame>)
        requires
            old(self).wf(),
        ensures
            final(self).wf(),
            final(self).config_eq(*old(self)),
            (frame.sample_rate != old(self).spec_rate() || frame.channels
                != old(self).spec_channels()) ==> (r is None && *final(self) == *old(self)),
            (frame.sample_rate == old(self).spec_rate() && frame.channels
                == old(self).spec_channels()) ==> ({
                let src = frame.source;
                let d = old(self).spec_process_drain(frame@);
                let total = old(self).spec_ready() + d.quanta;
                &&& spec_opt_frame(r) + final(self).spec_ready() =~= total
                &&& (total.len() == 0 ==> r is None)
                &&& (total.len() > 0 ==> (r is Some && r->Some_0@ == total[0]
                    && final(self).spec_ready() =~= total.skip(1)))
                &&& final(self).spec_buffer(src) == d.rest
                &&& final(self).spec_processed(src) == d.processed
                &&& final(self).spec_anchor(src) == old(self).spec_new_anchor(
                    src,
                    frame.timestamp,
                )
                &&& final(self).source_state_eq(*old(self), spec_other_source(src))
            }),
    {
        if frame.sample_rate != self.expected_sample_rate {
            return None;
        }
        if frame.channels != self.expected_channels {
            return None;
        }

        let quantum_size = self.quantum_size;
        let rate = self.expected_sample_rate;
        let ch = self.expected_channels;
        let source = frame.source;

        let state = self.source_state_mut(source);
        if state.sample_buffer.len() == 0 && state.samples_processed == 0 {
            state.current_timestamp = frame.timestamp;
        }

        let ghost buf0 = state.sample_buffer@;
        let ghost anchor1 = state.current_timestamp;
        let ghost p1 = state.samples_processed;
        let mut i: usize = 0;
        while i < frame.samples.len()
            invariant
                i <= frame.samples@.len(),
                state.sample_buffer@ =~= buf0 + frame.samples@.take(i as int),
                state.current_timestamp == anchor1,
                state.samples_processed == p1,
            decreases frame.samples@.len() - i,
        {
            state.sample_buffer.push_back(frame.samples[i]);
            i = i + 1;
        }
        proof {
            assert(state.sample_buffer@ =~= buf0 + frame.samples@);
        }

        let quanta = state.drain_quanta(source, quantum_size, rate, ch);

        let ghost ready0 = self.ready_queue@;
        let ghost self_pre = *self;
        let mut j: usize = 0;
        while j < quanta.len()
            invariant
                j <= quanta@.len(),
                self.ready_queue@.len() == ready0.len() + j,
                frames_view(self.ready_queue@) =~= frames_view(ready0) + frames_view(
                    quanta@.take(j as int),
                ),
                self.mic_state == self_pre.mic_state,
                self.sys_state == self_pre.sys_state,
                self.quantum_size == self_pre.quantum_size,
                self.expected_sample_rate == self_pre.expected_sample_rate,
                self.expected_channels == self_pre.expected_channels,
            decreases quanta@.len() - j,
        {
            let f = quanta[j].clone();
            let ghost fv = f@;
            let ghost ready_pre = self.ready_queue@;
            self.ready_queue.push_back(f);
            proof {
                assert(fv == quanta@[j as int]@);
                assert(frames_view(self.ready_queue@) =~= frames_view(ready_pre).push(fv));
                assert(frames_view(quanta@.take(j as int + 1)) =~= frames_view(
                    quanta@.take(j as int),
                ).push(fv));
            }
            j = j + 1;
        }
        proof {
            assert(quanta@.take(quanta@.len() as int) =~= quanta@);
            assert(frames_view(self.ready_queue@) =~= frames_view(ready0) + frames_view(quanta@));
        }

        let ghost full = self.ready_queue@;
        let r = self.ready_queue.pop_front();
        proof {
            if full.len() == 0 {
                assert(frames_view(full).len() == 0);
            } else {
                assert(r == Some(full[0]));
                assert(r->Some_0@ == frames_view(full)[0]);
                assert(self.spec_ready() =~= frames_view(full).skip(1));
            }
            assert(spec_opt_frame(r) + self.spec_ready() =~= frames_view(full));
        }
        r
    }

    /// Hands out the next completed quantum, oldest first, if any waits.
    pub fn drain_ready(&mut self) -> (r: Option<AudioFrame>)
        ensures
            final(self).config_eq(*old(self)),
            final(self).source_state_eq(*old(self), AudioSourceType::Microphone),
            final(self).source_state_eq(*old(self), AudioSourceType::System),
            old(self).spec_ready().len() == 0 ==> (r is None && final(self).spec_ready().len()
                == 0),
            old(self).spec_ready().len() > 0 ==> (r is Some
                && r->Some_0@ == old(self).spec_ready()[0]
                && final(self).spec_ready() =~= old(self).spec_ready().skip(1)),
    {
        self.ready_queue.pop_front()
    }

    /// Empties one source at shutdown: every remaining full quantum, then
    /// the undersized remainder zero-padded to one quantum, if any.
    fn flush_source(&mut self, source: AudioSourceType) -> (r: Vec<AudioFrame>)
        requires
            old(self).wf(),
        ensures
            final(self).wf(),
            final(self).config_eq(*old(self)),
            final(self).spec_ready() == old(self).spec_ready(),
            final(self).source_state_eq(*old(self), spec_other_source(source)),
            ({
                let d = spec_drain(
                    source,
                    old(self).spec_buffer(source),
                    old(self).spec_anchor(source),
                    old(self).spec_processed(source),
                    old(self).spec_quantum(),
                    old(self).spec_rate(),
                    old(self).spec_channels(),
                );
                &&& frames_view(r@) =~= d.quanta + spec_padded_tail(
                    source,
                    d.rest,
                    old(self).spec_anchor(source),
                    d.processed,
                    old(self).spec_quantum(),
                    old(self).spec_rate(),
                    old(self).spec_channels(),
                )
                &&& final(self).spec_buffer(source).len() == 0
                &&& final(self).spec_processed(source) == d.processed
                &&& final(self).spec_anchor(source) == old(self).spec_anchor(source)
            }),
    {
        let quantum_size = self.quantum_size;
        let rate = self.expected_sample_rate;
        let ch = self.expected_channels;

        let state = self.source_state_mut(source);
        let mut results = state.drain_quanta(source, quantum_size, rate, ch);

        if state.sample_buffer.len() > 0 {
            let ghost rest = state.sample_buffer@;
            let ghost anchor1 = state.current_timestamp;
            let ghost p1 = state.samples_processed;
            let mut samples: Vec<i32> = Vec::new();
            while state.sample_buffer.len() > 0
                invariant
                    samples@.len() + state.sample_buffer@.len() == rest.len(),
                    samples@ =~= rest.take(samples@.len() as int),
                    state.sample_buffer@ =~= rest.skip(samples@.len() as int),
                    state.current_timestamp == anchor1,
                    state.samples_processed == p1,
                decreases state.sample_buffer@.len(),
            {
                let s = state.sample_buffer.pop_front().unwrap();
                samples.push(s);
            }
            proof {
                assert(samples@ =~= rest);
            }

            let ghost rest_len = rest.len() as int;
            while samples.len() < quantum_size
                invariant
                    rest_len <= samples@.len() <= quantum_size,
                    samples@ =~= rest + Seq::new(
                        (samples@.len() - rest_len) as nat,
                        |k: int| 0i32,
                    ),
                    state.current_timestamp == anchor1,
                    state.samples_processed == p1,
                    state.sample_buffer@.len() == 0,
                decreases quantum_size - samples@.len(),
            {
                samples.push(0);
                proof {
                    assert(samples@ =~= rest + Seq::new(
                        (samples@.len() - rest_len) as nat,
                        |k: int| 0i32,
                    ));
                }
            }

            let timestamp = quantum_timestamp(state.current_timestamp, state.samples_processed, rate);
            let frame = AudioFrame { source, samples, sample_rate: rate, channels: ch, timestamp };
            let ghost results0 = results@;
            results.push(frame);
            proof {
                assert(frames_view(results@) =~= frames_view(results0).push(results@.last()@));
            }
        }

        results
    }

    /// Empties the quantizer at shutdown: the ready queue first, then each
    /// source's remaining quanta with a zero-padded tail, system before
    /// microphone.  The padding is at most one quantum minus one sample per
    /// source.
    pub fn flush(&mut self) -> (r: Vec<AudioFrame>)
        requires
            old(self).wf(),
        ensures
            final(self).wf(),
            final(self).config_eq(*old(self)),
            ({
                let sys = AudioSourceType::System;
                let mic = AudioSourceType::Microphone;
                let dsys = spec_drain(
                    sys,
                    old(self).spec_buffer(sys),
                    old(self).spec_anchor(sys),
                    old(self).spec_processed(sys),
                    old(self).spec_quantum(),
                    old(self).spec_rate(),
                    old(self).spec_channels(),
                );
                let dmic = spec_drain(
                    mic,
                    old(self).spec_buffer(mic),
                    old(self).spec_anchor(mic),
                    old(self).spec_processed(mic),
                    old(self).spec_quantum(),
                    old(self).spec_rate(),
                    old(self).spec_channels(),
                );
                &&& frames_view(r@) =~= old(self).spec_ready() + (dsys.quanta + spec_padded_tail(
                    sys,
                    dsys.rest,
                    old(self).spec_anchor(sys),
                    dsys.processed,
                    old(self).spec_quantum(),
                    old(self).spec_rate(),
                    old(self).spec_channels(),
                )) + (dmic.quanta + spec_padded_tail(
                    mic,
                    dmic.rest,
                    old(self).spec_anchor(mic),
                    dmic.processed,
                    old(self).spec_quantum(),
                    old(self).spec_rate(),
                    old(self).spec_channels(),
                ))
                &&& final(self).spec_ready().len() == 0
                &&& final(self).spec_buffer(sys).len() == 0
                &&& final(self).spec_buffer(mic).len() == 0
            }),
    {
        let mut results: Vec<AudioFrame> = Vec::new();
        let ghost ready0 = self.ready_queue@;
        loop
            invariant
                frames_view(ready0) =~= frames_view(results@) + frames_view(self.ready_queue@),
                self.mic_state == old(self).mic_state,
                self.sys_state == old(self).sys_state,
                self.quantum_size == old(self).quantum_size,
                self.expected_sample_rate == old(self).expected_sample_rate,
                self.expected_channels == old(self).expected_channels,
            ensures
                frames_view(results@) =~= frames_view(ready0),
                self.ready_queue@.len() == 0,
                self.mic_state == old(self).mic_state,
                self.sys_state == old(self).sys_state,
                self.quantum_size == old(self).quantum_size,
                self.expected_sample_rate == old(self).expected_sample_rate,
                self.expected_channels == old(self).expected_channels,
            decreases self.ready_queue@.len(),
        {
            let ghost results_pre = results@;
            match self.ready_queue.pop_front() {
                Some(f) => {
                    results.push(f);
                    proof {
                        assert(frames_view(results@) =~= frames_view(results_pre).push(
                            results@.last()@,
                        ));
                    }
                }
                None => {
                    break;
                }
            }
        }

        let ghost after_ready = results@;
        let mut sys_frames = self.flush_source(AudioSourceType::System);
        let ghost sys_view = frames_view(sys_frames@);
        let mut k: usize = 0;
        while k < sys_frames.len()
            invariant
                k <= sys_frames@.len(),
                frames_view(results@) =~= frames_view(after_ready) + sys_view.take(k as int),
                sys_view == frames_view(sys_frames@),
            decreases sys_frames@.len() - k,
        {
            let ghost results_pre = results@;
            let f = sys_frames[k].clone();
            results.push(f);
            proof {
                assert(frames_view(results@) =~= frames_view(results_pre).push(results@.last()@));
            }
            k = k + 1;
        }
        proof {
            assert(frames_view(results@) =~= frames_view(after_ready) + sys_view);
        }

        let ghost after_sys = results@;
        let mut mic_frames = self.flush_source(AudioSourceType::Microphone);
        let ghost mic_view = frames_view(mic_frames@);
        let mut m: usize = 0;
        while m < mic_frames.len()
            invariant
                m <= mic_frames@.len(),
                frames_view(results@) =~= frames_view(after_sys) + mic_view.take(m as int),
                mic_view == frames_view(mic_frames@),
            decreases mic_frames@.len() - m,
        {
            let ghost results_pre = results@;
            let f = mic_frames[m].clone();
            results.push(f);
            proof {
                assert(frames_view(results@) =~= frames_view(results_pre).push(results@.last()@));
            }
            m = m + 1;
        }
        proof {
            assert(frames_view(results@) =~= frames_view(after_sys) + mic_view);
        }

        results
    }

    /// Clears both sources and the ready queue; the configuration stays.
    pub fn reset(&mut self)
        ensures
            final(self).config_eq(*old(self)),
            final(self).spec_ready().len() == 0,
            final(self).spec_buffer(AudioSourceType::Microphone).len() == 0,
            final(self).spec_buffer(AudioSourceType::System).len() == 0,
            final(self).spec_anchor(AudioSourceType::Microphone) == 0,
            final(self).spec_anchor(AudioSourceType::System) == 0,
            final(self).spec_processed(AudioSourceType::Microphone) == 0,
            final(self).spec_processed(AudioSourceType::System) == 0,
    {
        self.mic_state.sample_buffer.clear();
        self.mic_state.current_timestamp = 0;
        self.mic_state.samples_processed = 0;
        self.sys_state.sample_buffer.clear();
        self.sys_state.current_timestamp = 0;
        self.sys_state.samples_processed = 0;
        self.ready_queue.clear();
    }
}

/// Every quantum a drain emits carries the drained source's tag, the
/// configured format, and exactly one quantum of samples.
pub proof fn lemma_drain_source_tags(
    source: AudioSourceType,
    buf: Seq<i32>,
    anchor: u64,
    processed: u64,
    q: int,
    rate: u32,
    ch: u16,
)
    ensures
        ({
            let d = spec_drain(source, buf, anchor, processed, q, rate, ch);
            forall|i: int|
                0 <= i < d.quanta.len() ==> ((#[trigger] d.quanta[i]).source == source
                    && d.quanta[i].sample_rate == rate && d.quanta[i].channels == ch
                    && d.quanta[i].samples.len() == q)
        }),
    decreases buf.len(),
{
    if q < 1 || buf.len() < q {
    } else {
        lemma_drain_source_tags(source, buf.skip(q), anchor, sat_u64(processed as int + q), q, rate, ch);
    }
}

/// Quantization conserves samples: the drained quanta hold exactly the
/// first `count * quantum` samples of the buffer, in order, and what stays
/// behind is the under-quantum remainder — so the total number of samples
/// emitted equals the total received, and a padded flush adds at most one
/// quantum minus one zero.
pub proof fn lemma_drain_conserves(
    source: AudioSourceType,
    buf: Seq<i32>,
    anchor: u64,
    processed: u64,
    q: int,
    rate: u32,
    ch: u16,
)
    requires
        q >= 1,
    ensures
        ({
            let d = spec_drain(source, buf, anchor, processed, q, rate, ch);
            &&& d.quanta.len() * q + d.rest.len() == buf.len()
            &&& d.rest.len() < q
            &&& forall|i: int|
                0 <= i < d.quanta.len() ==> (#[trigger] d.quanta[i]).samples =~= buf.subrange(
                    i * q,
                    (i + 1) * q,
                )
            &&& d.rest =~= buf.skip(d.quanta.len() * q)
        }),
    decreases buf.len(),
{
    let d = spec_drain(source, buf, anchor, processed, q, rate, ch);
    if buf.len() < q {
        assert(d.quanta.len() * q == 0) by (nonlinear_arith)
            requires
                d.quanta.len() == 0,
        ;
    } else {
        let tail_buf = buf.skip(q);
        lemma_drain_conserves(source, tail_buf, anchor, sat_u64(processed as int + q), q, rate, ch);
        let dt = spec_drain(source, tail_buf, anchor, sat_u64(processed as int + q), q, rate, ch);
        let n = dt.quanta.len() as int;
        assert((n + 1) * q == n * q + q) by (nonlinear_arith);
        assert(d.quanta.len() * q + d.rest.len() == buf.len());
        assert forall|i: int| 0 <= i < d.quanta.len() implies (#[trigger] d.quanta[i]).samples
            =~= buf.subrange(i * q, (i + 1) * q) by {
            if i == 0 {
                assert(d.quanta[0].samples == buf.take(q));
                assert(d.quanta[i].samples =~= buf.subrange(i * q, (i + 1) * q));
            } else {
                let j = i - 1;
                assert(d.quanta[i] == dt.quanta[j]);
                assert(dt.quanta[j].samples =~= tail_buf.subrange(j * q, (j + 1) * q));
                assert(j * q >= 0) by (nonlinear_arith)
                    requires
                        j >= 0 && q >= 1,
                ;
                assert((j + 1) * q <= n * q) by (nonlinear_arith)
                    requires
                        j + 1 <= n && q >= 1,
                ;
                assert(n * q <= tail_buf.len());
                assert(i * q == j * q + q) by (nonlinear_arith)
                    requires
                        i == j + 1,
                ;
                assert((i + 1) * q == (j + 1) * q + q) by (nonlinear_arith)
                    requires
                        i == j + 1,
                ;
                assert(tail_buf.subrange(j * q, (j + 1) * q) =~= buf.subrange(
                    i * q,
                    (i + 1) * q,
                ));
                assert(d.quanta[i].samples =~= buf.subrange(i * q, (i + 1) * q));
            }
        }
        assert(d.rest =~= buf.skip(d.quanta.len() * q)) by {
            assert(dt.rest =~= tail_buf.skip(n * q));
            assert(n * q >= 0) by (nonlinear_arith)
                requires
                    n >= 0 && q >= 1,
            ;
            assert(n * q <= tail_buf.len());
            assert(tail_buf.skip(n * q) =~= buf.skip(q + n * q));
        }
    }
}

} // verus!
