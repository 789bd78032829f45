//! Echo-cancellation bookkeeping and the online stream-delay tuner.
//!
//! This stage consumes system (render) frames entirely and passes
//! microphone (capture) frames through, counting frames and signal
//! activity on both streams.  Its heart is a single-variable online
//! optimizer of the canceller's stream-delay hint, guided by the
//! canceller's reported Echo Return Loss Enhancement (ERLE, larger is
//! better), carried here in milli-units.  The embedding runs the actual
//! canceller between stages and feeds quality snapshots back in; every
//! decision — when to tune, how to move the delay, when to freeze — is
//! made here.

use vstd::prelude::*;
use crate::config::AudioProcessingConfig;
use crate::frame::AudioFrame;
use crate::frame::AudioSourceType;
use crate::frame::frame_is_active;
use crate::frame::spec_any_active;
use crate::stats::AecAutoTuneStats;

verus! {

/// How many system frames an activity observation stays fresh for.
pub const SYSTEM_ACTIVITY_GRACE_FRAMES: u64 = 30;

/// The lesser of two integers.
pub open spec fn imin(a: int, b: int) -> int {
    if a <= b {
        a
    } else {
        b
    }
}

/// The greater of two integers.
pub open spec fn imax(a: int, b: int) -> int {
    if a >= b {
        a
    } else {
        b
    }
}

/// The magnitude of an integer.
pub open spec fn iabs(a: int) -> int {
    if a >= 0 {
        a
    } else {
        -a
    }
}

/// `x` forced into `[lo, hi]`.
pub open spec fn iclamp(x: int, lo: int, hi: int) -> int {
    if x < lo {
        lo
    } else if x > hi {
        hi
    } else {
        x
    }
}

/// Division by ten rounded toward zero, as machine division does it.
pub open spec fn trunc_div10(a: int) -> int {
    if a >= 0 {
        a / 10
    } else {
        -((-a) / 10)
    }
}

/// A counter bumped by one, held at the top of the `u64` range.
pub open spec fn inc64(x: int) -> int {
    if x < u64::MAX {
        x + 1
    } else {
        x
    }
}

/// A counter bumped by one, held at the top of the `u32` range.
pub open spec fn inc32(x: int) -> int {
    if x < u32::MAX {
        x + 1
    } else {
        x
    }
}

/// The tuner's state, as mathematical integers.
pub struct TunerModel {
    /// The stream delay currently applied, in ms.
    pub applied_delay_ms: int,
    /// The delay that scored best so far, in ms.
    pub best_delay_ms: int,
    /// The exploration step, in ms.
    pub step_ms: int,
    /// The exploration direction: plus or minus one.
    pub direction: int,
    /// The bound the tuned delay never exceeds, in ms.
    pub max_delay_ms: int,
    /// Whether the tuner froze on a delay it trusts.
    pub frozen: bool,
    /// How many consecutive ticks the quality held near its best.
    pub stable_windows: int,
    /// The raw quality reading of the previous tick, milli-units.
    pub last_erle: Option<int>,
    /// The smoothed quality reading, milli-units.
    pub erle_ema: Option<int>,
    /// The best smoothed reading seen so far, milli-units.
    pub best_erle: Option<int>,
    /// Committed delay changes.
    pub tune_events: int,
    /// Snaps back to the best-known delay.
    pub rollback_events: int,
    /// Freezes.
    pub freeze_events: int,
}

/// One tuner tick's result: the successor state and whether the applied
/// delay changed (so the canceller must be reconfigured).
pub struct TuneOutcome {
    /// The state after the tick.
    pub state: TunerModel,
    /// Whether the applied delay changed.
    pub changed: bool,
}

/// The smoothed quality reading after folding in one raw reading:
/// an exponential moving average weighted seven to three, or the raw
/// reading itself on the first tick.
pub open spec fn spec_smoothed(s: TunerModel, erle: int) -> int {
    match s.erle_ema {
        Some(prev) => trunc_div10(7 * prev + 3 * erle),
        None => erle,
    }
}

/// The tuner state after smoothing and best-tracking: the average is
/// stored; a clearly better average adopts the current delay as best and
/// clears the stability streak; the streak then grows while the quality
/// is high and near its best, else clears.
pub open spec fn spec_tracked(s: TunerModel, erle: int) -> TunerModel {
    let ema = spec_smoothed(s, erle);
    let new_best = match s.best_erle {
        Some(b) => ema > b + 100,
        None => true,
    };
    let best_delay = if new_best {
        s.applied_delay_ms
    } else {
        s.best_delay_ms
    };
    let best_erle = if new_best {
        ema
    } else {
        s.best_erle->Some_0
    };
    let stable0 = if new_best {
        0
    } else {
        s.stable_windows
    };
    let stable = if best_erle >= 3500 && iabs(ema - best_erle) <= 100 {
        inc32(stable0)
    } else {
        0
    };
    TunerModel {
        best_delay_ms: best_delay,
        best_erle: Some(best_erle),
        erle_ema: Some(ema),
        stable_windows: stable,
        ..s
    }
}

/// The adaptation tail of a tick: flip or grow the step from the raw
/// reading, then propose the next delay within forty milliseconds of the
/// best and inside the cap; an unmoved proposal only flips direction.
pub open spec fn spec_adapt(s1: TunerModel, erle: int) -> TuneOutcome {
    let dir = match s1.last_erle {
        Some(last) => if erle + 200 < last {
            -s1.direction
        } else {
            s1.direction
        },
        None => s1.direction,
    };
    let step = match s1.last_erle {
        Some(last) => if erle + 200 < last {
            imax(s1.step_ms - 1, 2)
        } else if erle > last + 200 {
            imin(s1.step_ms + 1, 8)
        } else {
            s1.step_ms
        },
        None => s1.step_ms,
    };
    let lo = imax(s1.best_delay_ms - 40, 0);
    let hi = imin(s1.best_delay_ms + 40, s1.max_delay_ms);
    let next = iclamp(s1.applied_delay_ms + dir * step, lo, hi);
    if next == s1.applied_delay_ms {
        TuneOutcome {
            state: TunerModel { direction: -dir, step_ms: step, last_erle: Some(erle), ..s1 },
            changed: false,
        }
    } else {
        TuneOutcome {
            state: TunerModel {
                applied_delay_ms: next,
                direction: dir,
                step_ms: step,
                last_erle: Some(erle),
                tune_events: inc64(s1.tune_events),
                ..s1
            },
            changed: true,
        }
    }
}

/// One tick of the delay tuner, exactly as the stage performs it:
/// reject unstable snapshots; smooth the quality reading; track the best;
/// freeze when high and stable; roll back on a large drop; otherwise adapt
/// step and direction from the raw reading and propose the next delay
/// within forty milliseconds of the best.
pub open spec fn spec_tune_step(s: TunerModel, erle: int, delay_inst_ms: Option<u32>) -> TuneOutcome {
    if (match delay_inst_ms {
        Some(d) => d >= 250 && erle < 1000,
        None => false,
    }) {
        TuneOutcome { state: s, changed: false }
    } else {
        let ema = spec_smoothed(s, erle);
        let s1 = spec_tracked(s, erle);
        if s1.stable_windows >= 8 {
            TuneOutcome {
                state: TunerModel {
                    applied_delay_ms: s1.best_delay_ms,
                    frozen: true,
                    freeze_events: inc64(s1.freeze_events),
                    ..s1
                },
                changed: true,
            }
        } else if ema < s1.best_erle->Some_0 - 1000 && s1.applied_delay_ms != s1.best_delay_ms {
            TuneOutcome {
                state: TunerModel {
                    applied_delay_ms: s1.best_delay_ms,
                    direction: -s1.direction,
                    step_ms: imax(s1.step_ms - 1, 2),
                    rollback_events: inc64(s1.rollback_events),
                    ..s1
                },
                changed: true,
            }
        } else {
            spec_adapt(s1, erle)
        }
    }
}

/// A tuner state is well formed when the direction is a unit, the step
/// sits in `[2, 8]`, the delay cap sits in `[20, 1000]`, both delays sit
/// in `[0, cap]`, and the quality figures fit the exchanged range.
pub open spec fn tuner_wf(s: TunerModel) -> bool {
    &&& (s.direction == 1 || s.direction == -1)
    &&& 2 <= s.step_ms <= 8
    &&& 20 <= s.max_delay_ms <= 1000
    &&& 0 <= s.applied_delay_ms <= s.max_delay_ms
    &&& 0 <= s.best_delay_ms <= s.max_delay_ms
    &&& 0 <= s.stable_windows <= u32::MAX
    &&& (s.last_erle matches Some(v) ==> i32::MIN <= v <= i32::MAX)
    &&& (s.erle_ema matches Some(v) ==> -0x8000_0000 <= v <= 0x7fff_ffff)
    &&& (s.best_erle matches Some(v) ==> -0x8000_0000 <= v <= 0x7fff_ffff)
    &&& 0 <= s.tune_events <= u64::MAX
    &&& 0 <= s.rollback_events <= u64::MAX
    &&& 0 <= s.freeze_events <= u64::MAX
}

/// Whether a recent system frame carried signal: an activity mark within
/// the grace window of the current system frame count.
pub open spec fn spec_sys_recent(last_active: Option<u64>, sys_seen: u64) -> bool {
    match last_active {
        Some(last) => (if sys_seen >= last {
            sys_seen - last
        } else {
            0
        }) <= SYSTEM_ACTIVITY_GRACE_FRAMES,
        None => false,
    }
}

/// The echo-cancellation stage: stream bookkeeping plus the delay tuner.
pub struct AecProcessor {
    config: AudioProcessingConfig,
    applied_delay_ms: i32,
    tuner_last_erle: Option<i32>,
    tuner_erle_ema: Option<i64>,
    tuner_best_erle: Option<i64>,
    tuner_best_delay_ms: i32,
    tuner_direction: i32,
    tuner_step_ms: i32,
    tuner_interval_frames: u64,
    tuner_max_delay_ms: i32,
    tuner_frozen: bool,
    tuner_stable_windows: u32,
    last_system_active_frame: Option<u64>,
    sys_frames_seen: u64,
    mic_frames_seen: u64,
    skipped_inactive_mic: u64,
    skipped_inactive_system: u64,
    tune_events: u64,
    rollback_events: u64,
    freeze_events: u64,
}

impl AecProcessor {
    /// The tuner's state as a mathematical value.
    pub closed spec fn tuner_model(self) -> TunerModel {
        TunerModel {
            applied_delay_ms: self.applied_delay_ms as int,
            best_delay_ms: self.tuner_best_delay_ms as int,
            step_ms: self.tuner_step_ms as int,
            direction: self.tuner_direction as int,
            max_delay_ms: self.tuner_max_delay_ms as int,
            frozen: self.tuner_frozen,
            stable_windows: self.tuner_stable_windows as int,
            last_erle: match self.tuner_last_erle {
                Some(v) => Some(v as int),
                None => None,
            },
            erle_ema: match self.tuner_erle_ema {
                Some(v) => Some(v as int),
                None => None,
            },
            best_erle: match self.tuner_best_erle {
                Some(v) => Some(v as int),
                None => None,
            },
            tune_events: self.tune_events as int,
            rollback_events: self.rollback_events as int,
            freeze_events: self.freeze_events as int,
        }
    }

    /// Whether auto-tuning is switched on.
    pub closed spec fn spec_tuning_enabled(self) -> bool {
        self.config.aec_auto_delay_tuning
    }

    /// Microphone frames between tuner ticks.
    pub closed spec fn spec_interval(self) -> u64 {
        self.tuner_interval_frames
    }

    /// System frames seen so far.
    pub closed spec fn spec_sys_seen(self) -> u64 {
        self.sys_frames_seen
    }

    /// Microphone frames seen so far.
    pub closed spec fn spec_mic_seen(self) -> u64 {
        self.mic_frames_seen
    }

    /// The system frame count at the last active system frame, if any.
    pub closed spec fn spec_last_sys_active(self) -> Option<u64> {
        self.last_system_active_frame
    }

    /// Ticks skipped for want of microphone signal.
    pub closed spec fn spec_skipped_mic(self) -> u64 {
        self.skipped_inactive_mic
    }

    /// Ticks skipped for want of recent system signal.
    pub closed spec fn spec_skipped_sys(self) -> u64 {
        self.skipped_inactive_system
    }

    /// The configuration the stage was built with.
    pub closed spec fn spec_config(self) -> AudioProcessingConfig {
        self.config
    }

    /// Well-formedness: the tuner state is well formed and the tick
    /// interval is positive.
    pub open spec fn wf(self) -> bool {
        &&& tuner_wf(self.tuner_model())
        &&& self.spec_interval() >= 1
    }

    /// The stage's baseline for a given configuration: the manual delay
    /// clamped into `[0, cap]` with the cap clamped into `[20, 1000]`,
    /// direction plus one, step five, a tick every fifty microphone
    /// frames, nothing seen and nothing counted.
    pub open spec fn spec_baseline(config: AudioProcessingConfig, s: AecProcessor) -> bool {
        &&& s.tuner_model().max_delay_ms == iclamp(config.aec_max_delay_ms as int, 20, 1000)
        &&& s.tuner_model().applied_delay_ms == iclamp(
            config.aec_stream_delay_ms as int,
            0,
            s.tuner_model().max_delay_ms,
        )
        &&& s.tuner_model().best_delay_ms == s.tuner_model().applied_delay_ms
        &&& s.tuner_model().step_ms == 5
        &&& s.tuner_model().direction == 1
        &&& !s.tuner_model().frozen
        &&& s.tuner_model().stable_windows == 0
        &&& s.tuner_model().last_erle is None
        &&& s.tuner_model().erle_ema is None
        &&& s.tuner_model().best_erle is None
        &&& s.tuner_model().tune_events == 0
        &&& s.tuner_model().rollback_events == 0
        &&& s.tuner_model().freeze_events == 0
        &&& s.spec_interval() == 50
        &&& s.spec_sys_seen() == 0
        &&& s.spec_mic_seen() == 0
        &&& s.spec_last_sys_active() is None
        &&& s.spec_skipped_mic() == 0
        &&& s.spec_skipped_sys() == 0
    }

    /// Builds the stage at its baseline for the given configuration.
    pub fn new(config: AudioProcessingConfig) -> (r: Self)
        ensures
            r.wf(),
            Self::spec_baseline(config, r),
            r.spec_tuning_enabled() == config.aec_auto_delay_tuning,
            r.spec_config() == config,
    {
        let max_delay = if config.aec_max_delay_ms < 20 {
            20
        } else if config.aec_max_delay_ms > 1000 {
            1000
        } else {
            config.aec_max_delay_ms
        };
        let initial_delay = if config.aec_stream_delay_ms < 0 {
            0
        } else if config.aec_stream_delay_ms > max_delay {
            max_delay
        } else {
            config.aec_stream_delay_ms
        };
        AecProcessor {
            config,
            applied_delay_ms: initial_delay,
            tuner_last_erle: None,
            tuner_erle_ema: None,
            tuner_best_erle: None,
            tuner_best_delay_ms: initial_delay,
            tuner_direction: 1,
            tuner_step_ms: 5,
            tuner_interval_frames: 50,
            tuner_max_delay_ms: max_delay,
            tuner_frozen: false,
            tuner_stable_windows: 0,
            last_system_active_frame: None,
            sys_frames_seen: 0,
            mic_frames_seen: 0,
            skipped_inactive_mic: 0,
            skipped_inactive_system: 0,
            tune_events: 0,
            rollback_events: 0,
            freeze_events: 0,
        }
    }

    /// Folds one raw quality reading into the average and the best-so-far
    /// bookkeeping.
    fn smooth_and_track(&mut self, erle: i32) -> (ema: i64)
        requires
            old(self).wf(),
        ensures
            final(self).tuner_model() == spec_tracked(old(self).tuner_model(), erle as int),
            ema as int == spec_smoothed(old(self).tuner_model(), erle as int),
            -0x8000_0000 <= ema as int <= 0x7fff_ffff,
            final(self).wf(),
            final(self).spec_config() == old(self).spec_config(),
            final(self).spec_interval() == old(self).spec_interval(),
            final(self).spec_sys_seen() == old(self).spec_sys_seen(),
            final(self).spec_mic_seen() == old(self).spec_mic_seen(),
            final(self).spec_last_sys_active() == old(self).spec_last_sys_active(),
            final(self).spec_skipped_mic() == old(self).spec_skipped_mic(),
            final(self).spec_skipped_sys() == old(self).spec_skipped_sys(),
    {
        let ema: i64 = match self.tuner_erle_ema {
            Some(prev) => {
                let num: i64 = 7 * prev + 3 * (erle as i64);
                if num >= 0 {
                    num / 10
                } else {
                    -((-num) / 10)
                }
            }
            None => erle as i64,
        };
        proof {
            if old(self).tuner_erle_ema is Some {
                let p = old(self).tuner_erle_ema->Some_0 as int;
                let num = 7 * p + 3 * (erle as int);
                assert(-0x8000_0000 <= trunc_div10(num) <= 0x7fff_ffff) by (nonlinear_arith)
                    requires
                        -0x8000_0000 <= p <= 0x7fff_ffff,
                        -0x8000_0000 <= erle as int <= 0x7fff_ffff,
                        num == 7 * p + 3 * (erle as int),
                ;
            }
        }
        self.tuner_erle_ema = Some(ema);

        let new_best = match self.tuner_best_erle {
            Some(b) => ema > b + 100,
            None => true,
        };
        if new_best {
            self.tuner_best_erle = Some(ema);
            self.tuner_best_delay_ms = self.applied_delay_ms;
            self.tuner_stable_windows = 0;
        }

        let best = match self.tuner_best_erle {
            Some(b) => b,
            None => ema,
        };
        let spread = if ema >= best {
            ema - best
        } else {
            best - ema
        };
        if best >= 3500 && spread <= 100 {
            if self.tuner_stable_windows < u32::MAX {
                self.tuner_stable_windows = self.tuner_stable_windows + 1;
            }
        } else {
            self.tuner_stable_windows = 0;
        }
        ema
    }

    /// One tick of the delay tuner, fed the canceller's raw ERLE reading
    /// (milli-units) and its own delay estimate.  Returns whether the
    /// applied delay changed, in which case the caller must hand the new
    /// delay to the canceller.  The applied delay never leaves
    /// `[0, max_delay_ms]`.
    pub fn tune_delay_on_the_fly(&mut self, erle: i32, delay_inst_ms: Option<u32>) -> (r: bool)
        requires
            old(self).wf(),
        ensures
            final(self).wf(),
            ({
                let o = spec_tune_step(old(self).tuner_model(), erle as int, delay_inst_ms);
                &&& final(self).tuner_model() == o.state
                &&& r == o.changed
            }),
            final(self).spec_config() == old(self).spec_config(),
            final(self).spec_interval() == old(self).spec_interval(),
            final(self).spec_sys_seen() == old(self).spec_sys_seen(),
            final(self).spec_mic_seen() == old(self).spec_mic_seen(),
            final(self).spec_last_sys_active() == old(self).spec_last_sys_active(),
            final(self).spec_skipped_mic() == old(self).spec_skipped_mic(),
            final(self).spec_skipped_sys() == old(self).spec_skipped_sys(),
    {
        if let Some(d) = delay_inst_ms {
            if d >= 250 && erle < 1000 {
                return false;
            }
        }

        let ema = self.smooth_and_track(erle);

        if self.tuner_stable_windows >= 8 {
            self.applied_delay_ms = self.tuner_best_delay_ms;
            self.tuner_frozen = true;
            if self.freeze_events < u64::MAX {
                self.freeze_events = self.freeze_events + 1;
            }
            return true;
        }

        let best = match self.tuner_best_erle {
            Some(b) => b,
            None => ema,
        };
        if ema < best - 1000 && self.applied_delay_ms != self.tuner_best_delay_ms {
            self.applied_delay_ms = self.tuner_best_delay_ms;
            self.tuner_direction = -self.tuner_direction;
            self.tuner_step_ms = if self.tuner_step_ms - 1 >= 2 {
                self.tuner_step_ms - 1
            } else {
                2
            };
            if self.rollback_events < u64::MAX {
                self.rollback_events = self.rollback_events + 1;
            }
            return true;
        }

        if let Some(last) = self.tuner_last_erle {
            if (erle as i64) + 200 < (last as i64) {
                self.tuner_direction = -self.tuner_direction;
                self.tuner_step_ms = if self.tuner_step_ms - 1 >= 2 {
                    self.tuner_step_ms - 1
                } else {
                    2
                };
            } else if (erle as i64) > (last as i64) + 200 {
                self.tuner_step_ms = if self.tuner_step_ms + 1 <= 8 {
                    self.tuner_step_ms + 1
                } else {
                    8
                };
            }
        }

        let min_delay = if self.tuner_best_delay_ms - 40 >= 0 {
            self.tuner_best_delay_ms - 40
        } else {
            0
        };
        let max_delay = if self.tuner_best_delay_ms + 40 <= self.tuner_max_delay_ms {
            self.tuner_best_delay_ms + 40
        } else {
            self.tuner_max_delay_ms
        };
        proof {
            assert(self.tuner_direction == 1 || self.tuner_direction == -1);
            assert(2 <= self.tuner_step_ms <= 8);
            assert(0 <= self.applied_delay_ms <= 1000);
            assert(-8 <= self.tuner_direction as int * self.tuner_step_ms as int <= 8)
                by (nonlinear_arith)
                requires
                    self.tuner_direction == 1 || self.tuner_direction == -1,
                    2 <= self.tuner_step_ms <= 8,
            ;
        }
        let proposed = self.applied_delay_ms + self.tuner_direction * self.tuner_step_ms;
        let next_delay = if proposed < min_delay {
            min_delay
        } else if proposed > max_delay {
            max_delay
        } else {
            proposed
        };
        self.tuner_last_erle = Some(erle);

        if next_delay == self.applied_delay_ms {
            self.tuner_direction = -self.tuner_direction;
            return false;
        }

        self.applied_delay_ms = next_delay;
        if self.tune_events < u64::MAX {
            self.tune_events = self.tune_events + 1;
        }
        true
    }

    /// Books one frame.  System (render) frames are counted, checked for
    /// signal activity and consumed: nothing is emitted downstream.
    /// Microphone (capture) frames are counted and emitted unchanged; on a
    /// tick of the tuner's schedule the second result says whether the
    /// caller should read the canceller's quality snapshot and tune, and
    /// ticks lacking signal on either stream are counted as skipped.  A
    /// frozen tuner requests nothing and never changes.
    pub fn process_frame(&mut self, frame: AudioFrame) -> (r: (Option<AudioFrame>, bool))
        requires
            old(self).wf(),
        ensures
            final(self).wf(),
            final(self).spec_config() == old(self).spec_config(),
            final(self).spec_interval() == old(self).spec_interval(),
            final(self).tuner_model() == old(self).tuner_model(),
            old(self).tuner_model().frozen ==> !r.1,
            frame.source == AudioSourceType::System ==> ({
                &&& r.0 is None
                &&& !r.1
                &&& final(self).spec_sys_seen() == inc64(old(self).spec_sys_seen() as int)
                &&& final(self).spec_last_sys_active() == (if spec_any_active(frame.samples@) {
                    Some(final(self).spec_sys_seen())
                } else {
                    old(self).spec_last_sys_active()
                })
                &&& final(self).spec_mic_seen() == old(self).spec_mic_seen()
                &&& final(self).spec_skipped_mic() == old(self).spec_skipped_mic()
                &&& final(self).spec_skipped_sys() == old(self).spec_skipped_sys()
            }),
            frame.source == AudioSourceType::Microphone ==> ({
                let m1 = inc64(old(self).spec_mic_seen() as int);
                let mic_active = spec_any_active(frame.samples@);
                let sys_recent = spec_sys_recent(
                    old(self).spec_last_sys_active(),
                    old(self).spec_sys_seen(),
                );
                let tick = old(self).spec_tuning_enabled() && !old(self).tuner_model().frozen && m1
                    % (old(self).spec_interval() as int) == 0;
                &&& r.0 is Some
                &&& r.0->Some_0@ == frame@
                &&& r.1 == (tick && mic_active && sys_recent)
                &&& final(self).spec_mic_seen() == m1
                &&& final(self).spec_skipped_mic() == (if tick && !mic_active {
                    inc64(old(self).spec_skipped_mic() as int)
                } else {
                    old(self).spec_skipped_mic() as int
                })
                &&& final(self).spec_skipped_sys() == (if tick && !sys_recent {
                    inc64(old(self).spec_skipped_sys() as int)
                } else {
                    old(self).spec_skipped_sys() as int
                })
                &&& final(self).spec_sys_seen() == old(self).spec_sys_seen()
                &&& final(self).spec_last_sys_active() == old(self).spec_last_sys_active()
            }),
    {
        match frame.source {
            AudioSourceType::System => {
                if self.sys_frames_seen < u64::MAX {
                    self.sys_frames_seen = self.sys_frames_seen + 1;
                }
                if frame_is_active(&frame.samples) {
                    self.last_system_active_frame = Some(self.sys_frames_seen);
                }
                (None, false)
            }
            AudioSourceType::Microphone => {
                if self.mic_frames_seen < u64::MAX {
                    self.mic_frames_seen = self.mic_frames_seen + 1;
                }
                let mic_active = frame_is_active(&frame.samples);
                let sys_active_recently = match self.last_system_active_frame {
                    Some(last) => {
                        let gap = if self.sys_frames_seen >= last {
                            self.sys_frames_seen - last
                        } else {
                            0
                        };
                        gap <= SYSTEM_ACTIVITY_GRACE_FRAMES
                    }
                    None => false,
                };
                let tune_tick = self.config.aec_auto_delay_tuning && !self.tuner_frozen
                    && self.mic_frames_seen % self.tuner_interval_frames == 0;
                let should_tune = tune_tick && mic_active && sys_active_recently;
                if tune_tick {
                    if !mic_active {
                        if self.skipped_inactive_mic < u64::MAX {
                            self.skipped_inactive_mic = self.skipped_inactive_mic + 1;
                        }
                    }
                    if !sys_active_recently {
                        if self.skipped_inactive_system < u64::MAX {
                            self.skipped_inactive_system = self.skipped_inactive_system + 1;
                        }
                    }
                }
                (Some(frame), should_tune)
            }
        }
    }

    /// A value snapshot of the tuner for the host, folding in this frame's
    /// quality readings if any were taken.
    pub fn tuner_stats(&self, erle_snapshot: Option<i32>, delay_snapshot: Option<u32>) -> (r:
        AecAutoTuneStats)
        ensures
            r.enabled == self.spec_tuning_enabled(),
            r.frozen == self.tuner_model().frozen,
            r.applied_delay_ms as int == self.tuner_model().applied_delay_ms,
            r.best_delay_ms as int == self.tuner_model().best_delay_ms,
            r.step_ms as int == self.tuner_model().step_ms,
            r.direction as int == self.tuner_model().direction,
            r.interval_frames == self.spec_interval(),
            r.max_delay_ms as int == self.tuner_model().max_delay_ms,
            opt_i32_int(r.last_erle) == (match erle_snapshot {
                Some(e) => Some(e as int),
                None => self.tuner_model().last_erle,
            }),
            opt_i64_int(r.erle_ema) == self.tuner_model().erle_ema,
            opt_i64_int(r.best_erle) == self.tuner_model().best_erle,
            r.last_apm_delay_ms == delay_snapshot,
            r.tune_events as int == self.tuner_model().tune_events,
            r.rollback_events as int == self.tuner_model().rollback_events,
            r.freeze_events as int == self.tuner_model().freeze_events,
            r.skipped_inactive_mic == self.spec_skipped_mic(),
            r.skipped_inactive_system == self.spec_skipped_sys(),
    {
        AecAutoTuneStats {
            enabled: self.config.aec_auto_delay_tuning,
            frozen: self.tuner_frozen,
            applied_delay_ms: self.applied_delay_ms,
            best_delay_ms: self.tuner_best_delay_ms,
            step_ms: self.tuner_step_ms,
            direction: self.tuner_direction,
            interval_frames: self.tuner_interval_frames,
            max_delay_ms: self.tuner_max_delay_ms,
            last_erle: match erle_snapshot {
                Some(e) => Some(e),
                None => self.tuner_last_erle,
            },
            erle_ema: self.tuner_erle_ema,
            best_erle: self.tuner_best_erle,
            last_apm_delay_ms: delay_snapshot,
            tune_events: self.tune_events,
            rollback_events: self.rollback_events,
            freeze_events: self.freeze_events,
            skipped_inactive_mic: self.skipped_inactive_mic,
            skipped_inactive_system: self.skipped_inactive_system,
        }
    }

    /// Nothing is buffered, so nothing is flushed.
    pub fn flush(&mut self) -> (r: Vec<AudioFrame>)
        ensures
            r@.len() == 0,
            *final(self) == *old(self),
    {
        Vec::new()
    }

    /// Restores the construction baseline for the stored configuration.
    pub fn reset(&mut self)
        ensures
            final(self).wf(),
            Self::spec_baseline(old(self).spec_config(), *final(self)),
            final(self).spec_config() == old(self).spec_config(),
    {
        let max_delay = if self.config.aec_max_delay_ms < 20 {
            20
        } else if self.config.aec_max_delay_ms > 1000 {
            1000
        } else {
            self.config.aec_max_delay_ms
        };
        self.tuner_max_delay_ms = max_delay;
        let initial_delay = if self.config.aec_stream_delay_ms < 0 {
            0
        } else if self.config.aec_stream_delay_ms > max_delay {
            max_delay
        } else {
            self.config.aec_stream_delay_ms
        };
        self.applied_delay_ms = initial_delay;
        self.tuner_last_erle = None;
        self.tuner_erle_ema = None;
        self.tuner_best_erle = None;
        self.tuner_best_delay_ms = initial_delay;
        self.tuner_direction = 1;
        self.tuner_step_ms = 5;
        self.tuner_interval_frames = 50;
        self.tuner_frozen = false;
        self.tuner_stable_windows = 0;
        self.last_system_active_frame = None;
        self.sys_frames_seen = 0;
        self.mic_frames_seen = 0;
        self.skipped_inactive_mic = 0;
        self.skipped_inactive_system = 0;
        self.tune_events = 0;
        self.rollback_events = 0;
        self.freeze_events = 0;
    }
}

/// An optional `i32` as an optional integer.
pub open spec fn opt_i32_int(o: Option<i32>) -> Option<int> {
    match o {
        Some(v) => Some(v as int),
        None => None,
    }
}

/// An optional `i64` as an optional integer.
pub open spec fn opt_i64_int(o: Option<i64>) -> Option<int> {
    match o {
        Some(v) => Some(v as int),
        None => None,
    }
}

/// The applied delay never leaves `[0, max_delay_ms]`: a tuner tick on any
/// well-formed state, fed any quality reading in the exchanged range,
/// yields a well-formed state with the same cap and an applied delay
/// inside it.
pub proof fn lemma_tuner_delay_in_range(s: TunerModel, erle: int, delay_inst_ms: Option<u32>)
    requires
        tuner_wf(s),
        -0x8000_0000 <= erle <= 0x7fff_ffff,
    ensures
        tuner_wf(spec_tune_step(s, erle, delay_inst_ms).state),
        spec_tune_step(s, erle, delay_inst_ms).state.max_delay_ms == s.max_delay_ms,
        0 <= spec_tune_step(s, erle, delay_inst_ms).state.applied_delay_ms <= s.max_delay_ms,
{
    let ema = spec_smoothed(s, erle);
    if s.erle_ema is Some {
        let p = s.erle_ema->Some_0;
        let num = 7 * p + 3 * erle;
        assert(-0x8000_0000 <= trunc_div10(num) <= 0x7fff_ffff) by (nonlinear_arith)
            requires
                -0x8000_0000 <= p <= 0x7fff_ffff,
                -0x8000_0000 <= erle <= 0x7fff_ffff,
                num == 7 * p + 3 * erle,
        ;
    }
    let s1 = spec_tracked(s, erle);
    assert(-8 <= s1.direction * (match s1.last_erle {
        Some(last) => if erle + 200 < last {
            imax(s1.step_ms - 1, 2)
        } else if erle > last + 200 {
            imin(s1.step_ms + 1, 8)
        } else {
            s1.step_ms
        },
        None => s1.step_ms,
    }) <= 8) by (nonlinear_arith)
        requires
            s1.direction == 1 || s1.direction == -1,
            2 <= s1.step_ms <= 8,
    ;
}

} // verus!
