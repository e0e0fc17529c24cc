use frame_extractor::{
    frame_file_name, select_frames, FrameMeasurements, FrameSelector, RefreshSchedule,
    ThresholdConfig,
};

fn still(edge_pixels: u64) -> FrameMeasurements {
    FrameMeasurements {
        similar: true,
        diff_nonzero_pixels: 0,
        histogram_distant: false,
        edge_pixels,
    }
}

fn uninformative() -> FrameMeasurements {
    FrameMeasurements {
        similar: false,
        diff_nonzero_pixels: 0,
        histogram_distant: false,
        edge_pixels: 0,
    }
}

#[test]
fn schedule_countdown_starts_at_zero() {
    let mut s = RefreshSchedule::new(3);
    assert_eq!(s.interval(), 3);
    assert_eq!(s.countdown(), 0);
    let mut refreshes = Vec::new();
    for _ in 0..7 {
        refreshes.push(s.advance());
        assert!(s.countdown() <= s.interval());
    }
    assert_eq!(refreshes, vec![true, false, false, true, false, false, true]);
}

#[test]
fn schedule_interval_one_refreshes_every_frame() {
    let mut s = RefreshSchedule::new(1);
    for _ in 0..5 {
        assert!(s.advance());
        assert_eq!(s.countdown(), 0);
    }
}

#[test]
fn sequence_index_is_ordinal() {
    let mut sel = FrameSelector::new(10, ThresholdConfig::standard());
    assert_eq!(sel.frames_seen(), 0);
    for k in 1..=30u64 {
        let step = sel.begin_frame();
        assert_eq!(step.sequence_index, k);
        assert_eq!(sel.frames_seen(), k);
    }
}

#[test]
fn reference_replaced_on_ordinals_one_mod_interval() {
    for interval in 1..=12u64 {
        let mut sel = FrameSelector::new(interval, ThresholdConfig::standard());
        for k in 1..=50u64 {
            let step = sel.begin_frame();
            assert_eq!(step.refresh_reference, k % interval == 1 % interval, "interval {interval}, frame {k}");
        }
    }
}

#[test]
fn keep_uses_configured_thresholds() {
    let cfg = ThresholdConfig { motion_threshold: 5, keyframe_interval: 3, background_threshold: 100 };
    let sel = FrameSelector::new(4, cfg);
    assert_eq!(sel.config(), cfg);
    let m = FrameMeasurements { diff_nonzero_pixels: 6, ..uninformative() };
    let v = sel.evaluate(1, &m);
    assert!(v.motion);
    assert!(!v.background_differs);
    assert!(!v.is_keyframe_tick);
    assert!(sel.keep(1, &m));
    assert!(sel.keep(3, &uninformative()));
    assert!(!sel.keep(4, &uninformative()));
}

#[test]
fn file_names_are_zero_padded() {
    assert_eq!(frame_file_name("output_frames", 7), "output_frames/frame_0007.jpg");
    assert_eq!(frame_file_name("out", 0), "out/frame_0000.jpg");
    assert_eq!(frame_file_name("out", 20), "out/frame_0020.jpg");
    assert_eq!(frame_file_name("out", 9999), "out/frame_9999.jpg");
    assert_eq!(frame_file_name("out", 12345), "out/frame_12345.jpg");
    assert_eq!(
        frame_file_name("a/b", u64::MAX),
        format!("a/b/frame_{:04}.jpg", u64::MAX)
    );
}

#[test]
fn empty_stream_selects_nothing() {
    assert!(select_frames(10, ThresholdConfig::standard(), &Vec::new()).is_empty());
}

// Frames 1 to 19 are identical, uniform images; frame 20 differs sharply from
// them; frames 21 to 25 repeat frame 20. The reference is refreshed every 10
// frames, so frame 21 becomes the reference for frames 21 to 25.
fn synthetic_stream() -> Vec<FrameMeasurements> {
    let mut ms = Vec::new();
    for _ in 1..=19 {
        ms.push(FrameMeasurements { similar: false, ..still(0) }.clone());
    }
    ms.push(FrameMeasurements {
        similar: false,
        diff_nonzero_pixels: 640 * 480,
        histogram_distant: true,
        edge_pixels: 5000,
    });
    for _ in 21..=25 {
        ms.push(FrameMeasurements { similar: true, ..still(5000) });
    }
    ms
}

#[test]
fn synthetic_sequence_keeps_frame_twenty() {
    let records = select_frames(10, ThresholdConfig::standard(), &synthetic_stream());
    assert_eq!(records.len(), 25);
    let kept: Vec<u64> = records.iter().filter(|r| r.keep).map(|r| r.sequence_index).collect();
    assert!(kept.contains(&20));
    assert_eq!(kept, vec![20, 21, 22, 23, 24, 25]);
    let refreshed: Vec<u64> =
        records.iter().filter(|r| r.refreshed_reference).map(|r| r.sequence_index).collect();
    assert_eq!(refreshed, vec![1, 11, 21]);
}

#[test]
fn frames_with_edges_are_all_kept() {
    let ms: Vec<FrameMeasurements> = (0..25).map(|_| FrameMeasurements { similar: false, ..still(1) }).collect();
    let records = select_frames(10, ThresholdConfig::standard(), &ms);
    assert!(records.iter().all(|r| r.keep));
}

#[test]
fn rerun_gives_identical_decisions_and_names() {
    let ms = synthetic_stream();
    let first = select_frames(10, ThresholdConfig::standard(), &ms);
    let second = select_frames(10, ThresholdConfig::standard(), &ms);
    assert_eq!(first, second);
    let names = |rs: &Vec<frame_extractor::FrameRecord>| -> Vec<String> {
        rs.iter().filter(|r| r.keep).map(|r| frame_file_name("out", r.sequence_index)).collect()
    };
    assert_eq!(names(&first), names(&second));
    assert_eq!(names(&first)[0], "out/frame_0020.jpg");
}

#[test]
fn first_frame_compared_with_itself_is_kept_when_similar() {
    let records = select_frames(10, ThresholdConfig::standard(), &vec![still(0)]);
    assert!(records[0].refreshed_reference);
    assert!(records[0].keep);
    let records = select_frames(10, ThresholdConfig::standard(), &vec![uninformative()]);
    assert!(!records[0].keep);
}
