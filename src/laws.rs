use vstd::prelude::*;
use vstd::arithmetic::div_mod::{
    lemma_add_mod_noop, lemma_fundamental_div_mod, lemma_mod_multiples_basic, lemma_mod_twice,
    lemma_small_mod,
};
use crate::detectors::{
    ThresholdConfig, BACKGROUND_PIXEL_THRESHOLD, KEYFRAME_INTERVAL, MOTION_PIXEL_THRESHOLD,
};
use crate::selector::{records_of, refresh_on_frame, verdicts_spec, FrameMeasurements, FrameRecord};

verus! {

/// The reference frame is replaced exactly on the frames whose 1-based
/// ordinal is congruent to 1 modulo the refresh interval.
pub proof fn law_refresh_on_ordinals_one_mod_interval(interval: nat, k: nat)
    requires
        interval > 0,
        k >= 1,
    ensures
        refresh_on_frame(interval, k) == (k % interval == 1nat % interval),
{
    let i = interval as int;
    let r = (k - 1) % i;
    lemma_add_mod_noop(k - 1, 1, i);
    lemma_mod_twice(1, i);
    assert(0 <= r < i);
    if i > 1 {
        lemma_small_mod(1, interval);
        if r + 1 < i {
            lemma_small_mod((r + 1) as nat, interval);
        } else {
            assert((r + 1) % i == 0) by {
                lemma_mod_multiples_basic(1, i);
            }
        }
    }
}

/// With the standard thresholds, the motion and background-difference
/// verdicts read the same difference count against their own thresholds:
/// a count equal to a threshold does not trigger, one above it does.
pub proof fn law_difference_thresholds_independent(
    cfg: ThresholdConfig,
    k: nat,
    m: FrameMeasurements,
)
    requires
        cfg.motion_threshold == MOTION_PIXEL_THRESHOLD,
        cfg.background_threshold == BACKGROUND_PIXEL_THRESHOLD,
    ensures
        verdicts_spec(cfg, k, m).motion == (m.diff_nonzero_pixels > 1000),
        verdicts_spec(cfg, k, m).background_differs == (m.diff_nonzero_pixels > 50),
        m.diff_nonzero_pixels == 1000 ==> !verdicts_spec(cfg, k, m).motion,
        m.diff_nonzero_pixels == 1001 ==> verdicts_spec(cfg, k, m).motion,
        m.diff_nonzero_pixels == 50 ==> !verdicts_spec(cfg, k, m).background_differs,
        m.diff_nonzero_pixels == 51 ==> verdicts_spec(cfg, k, m).background_differs,
{
}

/// With the standard keyframe interval, exactly the frames 20, 40, 60, ...
/// are keyframe ticks.
pub proof fn law_keyframes_every_twentieth(cfg: ThresholdConfig, k: nat, m: FrameMeasurements)
    requires
        cfg.keyframe_interval == KEYFRAME_INTERVAL,
        k >= 1,
    ensures
        verdicts_spec(cfg, k, m).is_keyframe_tick <==> exists|j: nat|
            j >= 1 && k == #[trigger] (20 * j),
{
    if k % 20 == 0 {
        lemma_fundamental_div_mod(k as int, 20);
        let j = k / 20;
        assert(k == 20 * j);
        assert(j >= 1);
    }
    if exists|j: nat| j >= 1 && k == #[trigger] (20 * j) {
        let j = choose|j: nat| j >= 1 && k == #[trigger] (20 * j);
        lemma_mod_multiples_basic(j as int, 20);
    }
}

/// Running the pipeline twice over the same stream, with the same interval and
/// thresholds, gives the same record for every frame; the names of the files
/// written, a function of the output folder and the frame numbers alone, are
/// then the same too.
pub proof fn law_rerun_identical(
    interval: nat,
    cfg: ThresholdConfig,
    ms: Seq<FrameMeasurements>,
    first: Seq<FrameRecord>,
    second: Seq<FrameRecord>,
)
    requires
        records_of(interval, cfg, ms, first),
        records_of(interval, cfg, ms, second),
    ensures
        first == second,
{
    assert forall|i: int| 0 <= i < first.len() implies first[i] == second[i] by {}
    assert(first =~= second);
}

} // verus!
