use vstd::prelude::*;
use vstd::arithmetic::div_mod::{lemma_add_mod_noop, lemma_mod_self_0, lemma_small_mod};
use crate::detectors::{
    background_differs, has_edges, is_keyframe_tick, motion_detected, DetectorVerdicts,
    ThresholdConfig,
};
use crate::schedule::RefreshSchedule;

verus! {

/// What the caller measured on one frame against the current reference frame.
///
/// `similar` and `histogram_distant` are the verdicts of the structural
/// similarity and histogram comparisons, whose scores and thresholds are real
/// numbers. `diff_nonzero_pixels` counts the pixels of the absolute difference
/// between reference and frame that are not zero; it is computed once and
/// read by both the motion and the background-difference detector.
/// `edge_pixels` counts the pixels of the frame's edge map that are not zero.
#[derive(Clone, Copy, Debug, PartialEq, Eq, Structural)]
pub struct FrameMeasurements {
    pub similar: bool,
    pub diff_nonzero_pixels: u64,
    pub histogram_distant: bool,
    pub edge_pixels: u64,
}

/// Position of a frame in the stream and whether it became the reference.
#[derive(Clone, Copy, Debug, PartialEq, Eq, Structural)]
pub struct FrameStep {
    /// 1-based ordinal of the frame in the stream.
    pub sequence_index: u64,
    /// Whether the frame replaces the reference frame before it is compared.
    pub refresh_reference: bool,
}

/// Outcome of the pipeline on one frame.
#[derive(Clone, Copy, Debug, PartialEq, Eq, Structural)]
pub struct FrameRecord {
    pub sequence_index: u64,
    pub refreshed_reference: bool,
    pub keep: bool,
}

/// `records` is the outcome of the pipeline on frames whose measurements are
/// `ms`, in stream order.
pub open spec fn records_of(
    interval: nat,
    cfg: ThresholdConfig,
    ms: Seq<FrameMeasurements>,
    records: Seq<FrameRecord>,
) -> bool {
    &&& records.len() == ms.len()
    &&& forall|i: int|
        0 <= i < records.len() ==> {
            &&& (#[trigger] records[i]).sequence_index == i + 1
            &&& records[i].refreshed_reference == refresh_on_frame(interval, (i + 1) as nat)
            &&& records[i].keep == keep_frame(cfg, (i + 1) as nat, ms[i])
        }
}

/// Whether frame number `k` (1-based) replaces the reference frame.
pub open spec fn refresh_on_frame(interval: nat, k: nat) -> bool {
    (k - 1) % (interval as int) == 0
}

/// The refresh countdown after `n` frames.
pub open spec fn countdown_after(interval: nat, n: nat) -> nat {
    (((interval as int) - ((n % interval) as int)) % (interval as int)) as nat
}

/// The verdicts of the six detectors on frame number `k`.
pub open spec fn verdicts_spec(
    cfg: ThresholdConfig,
    k: nat,
    m: FrameMeasurements,
) -> DetectorVerdicts {
    DetectorVerdicts {
        similar: m.similar,
        motion: m.diff_nonzero_pixels > cfg.motion_threshold,
        is_keyframe_tick: k % (cfg.keyframe_interval as nat) == 0,
        histogram_distant: m.histogram_distant,
        background_differs: m.diff_nonzero_pixels > cfg.background_threshold,
        has_edges: m.edge_pixels > 0,
    }
}

/// Whether frame number `k` is kept.
pub open spec fn keep_frame(cfg: ThresholdConfig, k: nat, m: FrameMeasurements) -> bool {
    verdicts_spec(cfg, k, m).keep_spec()
}

proof fn lemma_countdown_step(interval: nat, n: nat)
    requires
        interval > 0,
    ensures
        countdown_after(interval, n) < interval,
        (countdown_after(interval, n) == 0) == refresh_on_frame(interval, n + 1),
        countdown_after(interval, n + 1) == if countdown_after(interval, n) == 0 {
            interval - 1
        } else {
            countdown_after(interval, n) - 1
        },
{
    let i = interval as int;
    let ni = n as int;
    let r = ni % i;
    assert(0 <= r < i);
    lemma_add_mod_noop(ni, 1, i);
    lemma_mod_self_0(i);
    if i == 1 {
        assert((ni + 1) % i == 0);
        assert(countdown_after(interval, n) == 0) by {
            lemma_small_mod(0, interval);
        }
        assert(countdown_after(interval, n + 1) == 0) by {
            lemma_small_mod(0, interval);
        }
    } else {
        lemma_small_mod(1, interval);
        if r == 0 {
            assert(countdown_after(interval, n) == 0);
            lemma_small_mod(1, interval);
            assert((ni + 1) % i == 1);
            lemma_small_mod((interval - 1) as nat, interval);
        } else {
            lemma_small_mod((interval - r) as nat, interval);
            assert(countdown_after(interval, n) == i - r);
            if r + 1 < i {
                lemma_small_mod((r + 1) as nat, interval);
                assert((ni + 1) % i == r + 1);
                lemma_small_mod((interval - r - 1) as nat, interval);
            } else {
                assert((ni + 1) % i == 0);
            }
        }
    }
}

/// Per-frame state of the pipeline: the frame counter, the reference-frame
/// schedule and the detectors' thresholds.
pub struct FrameSelector {
    frames_seen: u64,
    schedule: RefreshSchedule,
    config: ThresholdConfig,
}

impl FrameSelector {
    /// Number of frames accounted for so far.
    pub closed spec fn frames_seen_spec(&self) -> nat {
        self.frames_seen as nat
    }

    pub closed spec fn interval_spec(&self) -> nat {
        self.schedule.interval_spec()
    }

    pub closed spec fn countdown_spec(&self) -> nat {
        self.schedule.countdown_spec()
    }

    pub closed spec fn config_spec(&self) -> ThresholdConfig {
        self.config
    }

    pub closed spec fn wf(&self) -> bool {
        &&& self.schedule.wf()
        &&& self.config.wf()
        &&& self.schedule.countdown_spec() == countdown_after(
            self.schedule.interval_spec(),
            self.frames_seen as nat,
        )
    }

    pub fn new(ref_frame_interval: u64, config: ThresholdConfig) -> (r: Self)
        requires
            ref_frame_interval > 0,
            config.wf(),
        ensures
            r.wf(),
            r.frames_seen_spec() == 0,
            r.interval_spec() == ref_frame_interval,
            r.config_spec() == config,
    {
        let r = FrameSelector {
            frames_seen: 0,
            schedule: RefreshSchedule::new(ref_frame_interval),
            config,
        };
        proof {
            lemma_small_mod(0, ref_frame_interval as nat);
            lemma_mod_self_0(ref_frame_interval as int);
        }
        r
    }

    pub fn frames_seen(&self) -> (r: u64)
        ensures
            r == self.frames_seen_spec(),
    {
        self.frames_seen
    }

    pub fn config(&self) -> (r: ThresholdConfig)
        ensures
            r == self.config_spec(),
    {
        self.config
    }

    /// Takes in the next frame of the stream: numbers it and decides whether
    /// it replaces the reference frame.
    pub fn begin_frame(&mut self) -> (step: FrameStep)
        requires
            old(self).wf(),
            old(self).frames_seen_spec() < u64::MAX,
        ensures
            final(self).wf(),
            step.sequence_index == old(self).frames_seen_spec() + 1,
            final(self).frames_seen_spec() == step.sequence_index,
            step.refresh_reference == refresh_on_frame(
                old(self).interval_spec(),
                step.sequence_index as nat,
            ),
            final(self).interval_spec() == old(self).interval_spec(),
            final(self).config_spec() == old(self).config_spec(),
            final(self).countdown_spec() <= final(self).interval_spec(),
    {
        proof {
            lemma_countdown_step(self.schedule.interval_spec(), self.frames_seen as nat);
        }
        let refresh = self.schedule.advance();
        self.frames_seen = self.frames_seen + 1;
        FrameStep { sequence_index: self.frames_seen, refresh_reference: refresh }
    }

    /// The six verdicts on frame number `sequence_index`.
    pub fn evaluate(&self, sequence_index: u64, m: &FrameMeasurements) -> (r: DetectorVerdicts)
        requires
            self.wf(),
        ensures
            r == verdicts_spec(self.config_spec(), sequence_index as nat, *m),
    {
        DetectorVerdicts {
            similar: m.similar,
            motion: motion_detected(m.diff_nonzero_pixels, self.config.motion_threshold),
            is_keyframe_tick: is_keyframe_tick(sequence_index, self.config.keyframe_interval),
            histogram_distant: m.histogram_distant,
            background_differs: background_differs(
                m.diff_nonzero_pixels,
                self.config.background_threshold,
            ),
            has_edges: has_edges(m.edge_pixels),
        }
    }

    /// Whether frame number `sequence_index` is kept.
    pub fn keep(&self, sequence_index: u64, m: &FrameMeasurements) -> (r: bool)
        requires
            self.wf(),
        ensures
            r == keep_frame(self.config_spec(), sequence_index as nat, *m),
    {
        self.evaluate(sequence_index, m).decide()
    }
}

/// Runs the pipeline over the measurements of a whole stream, taken frame by
/// frame against the reference frame that the schedule designates, and
/// records for each frame its number, whether it became the reference and
/// whether it is kept.
pub fn select_frames(
    ref_frame_interval: u64,
    config: ThresholdConfig,
    measurements: &Vec<FrameMeasurements>,
) -> (records: Vec<FrameRecord>)
    requires
        ref_frame_interval > 0,
        config.wf(),
        measurements.len() < u64::MAX,
    ensures
        records_of(ref_frame_interval as nat, config, measurements@, records@),
{
    let mut selector = FrameSelector::new(ref_frame_interval, config);
    let mut records: Vec<FrameRecord> = Vec::new();
    let mut i: usize = 0;
    while i < measurements.len()
        invariant
            i <= measurements.len(),
            measurements.len() < u64::MAX,
            selector.wf(),
            selector.frames_seen_spec() == i,
            selector.interval_spec() == ref_frame_interval,
            selector.config_spec() == config,
            records_of(
                ref_frame_interval as nat,
                config,
                measurements@.subrange(0, i as int),
                records@,
            ),
        decreases measurements.len() - i,
    {
        let step = selector.begin_frame();
        let keep = selector.keep(step.sequence_index, &measurements[i]);
        let ghost before = records@;
        records.push(
            FrameRecord {
                sequence_index: step.sequence_index,
                refreshed_reference: step.refresh_reference,
                keep,
            },
        );
        i = i + 1;
        assert forall|j: int| 0 <= j < i - 1 implies records@[j] == before[j] by {}
        assert(measurements@.subrange(0, i as int) =~= measurements@.subrange(
            0,
            (i - 1) as int,
        ).push(measurements@[i - 1]));
    }
    assert(measurements@.subrange(0, i as int) =~= measurements@);
    records
}

} // verus!
