use frame_extractor::{
    background_differs, has_edges, is_keyframe_tick, motion_detected, Detector, DetectorVerdicts,
    ThresholdConfig, BACKGROUND_PIXEL_THRESHOLD, KEYFRAME_INTERVAL, MOTION_PIXEL_THRESHOLD,
};

fn verdicts_from_bits(bits: u32) -> DetectorVerdicts {
    DetectorVerdicts {
        similar: bits & 1 != 0,
        motion: bits & 2 != 0,
        is_keyframe_tick: bits & 4 != 0,
        histogram_distant: bits & 8 != 0,
        background_differs: bits & 16 != 0,
        has_edges: bits & 32 != 0,
    }
}

#[test]
fn decide_is_or_of_all_six_verdicts() {
    for bits in 0u32..64 {
        let v = verdicts_from_bits(bits);
        let expected = v.similar
            || v.motion
            || v.is_keyframe_tick
            || v.histogram_distant
            || v.background_differs
            || v.has_edges;
        assert_eq!(v.decide(), expected, "combination {bits:06b}");
        assert_eq!(v.decide(), bits != 0);
    }
}

#[test]
fn single_vote_is_enough_to_keep() {
    for bit in 0..6 {
        assert!(verdicts_from_bits(1 << bit).decide());
    }
    assert!(!verdicts_from_bits(0).decide());
}

#[test]
fn verdict_reads_each_detector() {
    let v = verdicts_from_bits(0b101010);
    assert!(!v.verdict(Detector::Similarity));
    assert!(v.verdict(Detector::Motion));
    assert!(!v.verdict(Detector::Keyframe));
    assert!(v.verdict(Detector::Histogram));
    assert!(!v.verdict(Detector::BackgroundDiff));
    assert!(v.verdict(Detector::Edge));
}

#[test]
fn standard_thresholds() {
    let cfg = ThresholdConfig::standard();
    assert_eq!(cfg.motion_threshold, 1000);
    assert_eq!(cfg.keyframe_interval, 20);
    assert_eq!(cfg.background_threshold, 50);
    assert_eq!(MOTION_PIXEL_THRESHOLD, 1000);
    assert_eq!(KEYFRAME_INTERVAL, 20);
    assert_eq!(BACKGROUND_PIXEL_THRESHOLD, 50);
}

#[test]
fn motion_threshold_is_strict() {
    assert!(!motion_detected(1000, MOTION_PIXEL_THRESHOLD));
    assert!(motion_detected(1001, MOTION_PIXEL_THRESHOLD));
    assert!(!motion_detected(0, MOTION_PIXEL_THRESHOLD));
}

#[test]
fn background_threshold_is_strict() {
    assert!(!background_differs(50, BACKGROUND_PIXEL_THRESHOLD));
    assert!(background_differs(51, BACKGROUND_PIXEL_THRESHOLD));
}

#[test]
fn shared_difference_count_thresholded_independently() {
    // One difference count, read by both detectors.
    let counts = [0u64, 50, 51, 500, 1000, 1001];
    let expected = [
        (false, false),
        (false, false),
        (false, true),
        (false, true),
        (false, true),
        (true, true),
    ];
    for (c, (m, b)) in counts.iter().zip(expected.iter()) {
        assert_eq!(motion_detected(*c, MOTION_PIXEL_THRESHOLD), *m, "count {c}");
        assert_eq!(background_differs(*c, BACKGROUND_PIXEL_THRESHOLD), *b, "count {c}");
    }
}

#[test]
fn keyframes_every_twentieth_frame() {
    let ticks: Vec<u64> = (1..=100).filter(|k| is_keyframe_tick(*k, KEYFRAME_INTERVAL)).collect();
    assert_eq!(ticks, vec![20, 40, 60, 80, 100]);
    assert!(!is_keyframe_tick(19, 20));
    assert!(!is_keyframe_tick(21, 20));
    assert!(is_keyframe_tick(7, 7));
}

#[test]
fn edges_need_one_pixel() {
    assert!(!has_edges(0));
    assert!(has_edges(1));
    assert!(has_edges(u64::MAX));
}
