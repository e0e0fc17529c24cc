//! Decision engine of a frame extractor: which frames of a video are kept.
//!
//! The heavy image work (decoding, colour conversion, similarity, histograms,
//! edge maps, pixel differences) is done by the caller; this library owns the
//! reference-frame schedule, the detectors' thresholds, the keep/discard
//! policy and the names of the files that kept frames are written to.

mod detectors;
pub mod laws;
mod naming;
mod schedule;
mod selector;

pub use detectors::{
    background_differs, has_edges, is_keyframe_tick, motion_detected, Detector, DetectorVerdicts,
    ThresholdConfig, BACKGROUND_PIXEL_THRESHOLD, EDGE_PIXEL_THRESHOLD, KEYFRAME_INTERVAL,
    MOTION_PIXEL_THRESHOLD,
};
pub use naming::{
    decimal, digit_char, frame_file_name, frame_file_name_spec, zero_padded, SEQUENCE_DIGITS,
};
pub use schedule::RefreshSchedule;
pub use selector::{
    countdown_after, keep_frame, records_of, refresh_on_frame, select_frames, verdicts_spec,
    FrameMeasurements, FrameRecord, FrameSelector, FrameStep,
};
