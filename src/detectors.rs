use vstd::prelude::*;

verus! {

/// Pixel-count threshold of the motion detector.
pub const MOTION_PIXEL_THRESHOLD: u64 = 1000;

/// Interval, in frames, of the keyframe detector.
pub const KEYFRAME_INTERVAL: u64 = 20;

/// Pixel-count threshold of the background-difference detector.
pub const BACKGROUND_PIXEL_THRESHOLD: u64 = 50;

/// Edge-pixel count that must be exceeded for a frame to count as having edges.
pub const EDGE_PIXEL_THRESHOLD: u64 = 0;

/// The six detectors, in the order in which their verdicts are recorded.
#[derive(Clone, Copy, Debug, PartialEq, Eq, Structural)]
pub enum Detector {
    Similarity,
    Motion,
    Keyframe,
    Histogram,
    BackgroundDiff,
    Edge,
}

/// Integer thresholds of the detectors, fixed for a whole run.
///
/// The similarity and histogram thresholds are real numbers and are applied
/// by the caller, which hands over their verdicts.
#[derive(Clone, Copy, Debug, PartialEq, Eq, Structural)]
pub struct ThresholdConfig {
    pub motion_threshold: u64,
    pub keyframe_interval: u64,
    pub background_threshold: u64,
}

impl ThresholdConfig {
    pub open spec fn wf(&self) -> bool {
        self.keyframe_interval > 0
    }

    /// The thresholds the detectors use unless configured otherwise.
    pub fn standard() -> (r: Self)
        ensures
            r.wf(),
            r.motion_threshold == MOTION_PIXEL_THRESHOLD,
            r.keyframe_interval == KEYFRAME_INTERVAL,
            r.background_threshold == BACKGROUND_PIXEL_THRESHOLD,
    {
        ThresholdConfig {
            motion_threshold: MOTION_PIXEL_THRESHOLD,
            keyframe_interval: KEYFRAME_INTERVAL,
            background_threshold: BACKGROUND_PIXEL_THRESHOLD,
        }
    }
}

/// The motion detector: whether more pixels differ from the reference than
/// the threshold allows.
pub fn motion_detected(nonzero_count: u64, threshold: u64) -> (r: bool)
    ensures
        r == (nonzero_count > threshold),
{
    nonzero_count > threshold
}

/// The background-difference detector: whether more pixels differ from the
/// reference than the threshold allows.
pub fn background_differs(nonzero_count: u64, threshold: u64) -> (r: bool)
    ensures
        r == (nonzero_count > threshold),
{
    nonzero_count > threshold
}

/// The keyframe detector: whether the frame's 1-based index is a multiple of
/// the interval.
pub fn is_keyframe_tick(sequence_index: u64, interval: u64) -> (r: bool)
    requires
        interval > 0,
    ensures
        r == (sequence_index % interval == 0),
{
    sequence_index % interval == 0
}

/// The edge detector: whether the frame's edge map has at least one edge
/// pixel.
pub fn has_edges(edge_pixel_count: u64) -> (r: bool)
    ensures
        r == (edge_pixel_count > EDGE_PIXEL_THRESHOLD),
        r == (edge_pixel_count > 0),
{
    edge_pixel_count > EDGE_PIXEL_THRESHOLD
}

/// The six verdicts on one frame.
#[derive(Clone, Copy, Debug, PartialEq, Eq, Structural)]
pub struct DetectorVerdicts {
    pub similar: bool,
    pub motion: bool,
    pub is_keyframe_tick: bool,
    pub histogram_distant: bool,
    pub background_differs: bool,
    pub has_edges: bool,
}

impl DetectorVerdicts {
    /// The verdict of one detector.
    pub open spec fn verdict_spec(&self, d: Detector) -> bool {
        match d {
            Detector::Similarity => self.similar,
            Detector::Motion => self.motion,
            Detector::Keyframe => self.is_keyframe_tick,
            Detector::Histogram => self.histogram_distant,
            Detector::BackgroundDiff => self.background_differs,
            Detector::Edge => self.has_edges,
        }
    }

    /// Whether the frame is kept: one vote of any detector is enough.
    pub open spec fn keep_spec(&self) -> bool {
        self.similar || self.motion || self.is_keyframe_tick || self.histogram_distant
            || self.background_differs || self.has_edges
    }

    pub fn verdict(&self, d: Detector) -> (r: bool)
        ensures
            r == self.verdict_spec(d),
    {
        match d {
            Detector::Similarity => self.similar,
            Detector::Motion => self.motion,
            Detector::Keyframe => self.is_keyframe_tick,
            Detector::Histogram => self.histogram_distant,
            Detector::BackgroundDiff => self.background_differs,
            Detector::Edge => self.has_edges,
        }
    }

    /// The aggregated decision: the logical OR of the six verdicts.
    pub fn decide(&self) -> (keep: bool)
        ensures
            keep == self.keep_spec(),
            keep == exists|d: Detector| self.verdict_spec(d),
    {
        proof {
            if self.keep_spec() {
                if self.similar {
                    assert(self.verdict_spec(Detector::Similarity));
                } else if self.motion {
                    assert(self.verdict_spec(Detector::Motion));
                } else if self.is_keyframe_tick {
                    assert(self.verdict_spec(Detector::Keyframe));
                } else if self.histogram_distant {
                    assert(self.verdict_spec(Detector::Histogram));
                } else if self.background_differs {
                    assert(self.verdict_spec(Detector::BackgroundDiff));
                } else {
                    assert(self.verdict_spec(Detector::Edge));
                }
            }
        }
        self.similar || self.motion || self.is_keyframe_tick || self.histogram_distant
            || self.background_differs || self.has_edges
    }
}

} // verus!
