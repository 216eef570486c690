use psyops_assessment::anim;
use psyops_assessment::digits::decimal_string;
use psyops_assessment::anim::AnimationState;
use psyops_assessment::model::interpretation;
use psyops_assessment::model::Interpretation;
use psyops_assessment::visual;
use psyops_assessment::visual::ColorBucket;

fn interpretation_index(i: Interpretation) -> u8 {
    match i {
        Interpretation::Low => 0,
        Interpretation::Moderate => 1,
        Interpretation::Strong => 2,
        Interpretation::Overwhelming => 3,
    }
}

fn color_index(c: ColorBucket) -> u8 {
    match c {
        ColorBucket::Green => 0,
        ColorBucket::Yellow => 1,
        ColorBucket::LightRed => 2,
        ColorBucket::Red => 3,
    }
}

#[test]
fn color_agrees_with_interpretation_on_every_total() {
    for total in 20..=100u32 {
        assert_eq!(
            color_index(visual::color_bucket(total)),
            interpretation_index(interpretation(total)),
            "disagree at total {total}"
        );
    }
}

#[test]
fn color_boundaries_are_exact() {
    assert_eq!(visual::color_bucket(25), ColorBucket::Green);
    assert_eq!(visual::color_bucket(26), ColorBucket::Yellow);
    assert_eq!(visual::color_bucket(50), ColorBucket::Yellow);
    assert_eq!(visual::color_bucket(51), ColorBucket::LightRed);
    assert_eq!(visual::color_bucket(75), ColorBucket::LightRed);
    assert_eq!(visual::color_bucket(76), ColorBucket::Red);
}

#[test]
fn color_components() {
    assert_eq!(ColorBucket::Green.rgb(), (0, 200, 0));
    assert_eq!(ColorBucket::Yellow.rgb(), (255, 255, 0));
    assert_eq!(ColorBucket::LightRed.rgb(), (255, 128, 128));
    assert_eq!(ColorBucket::Red.rgb(), (255, 0, 0));
}

#[test]
fn tick_converges_from_zero_to_full() {
    // Displayed value 0, target 100 points: the distance strictly
    // shrinks each tick until it is within a tenth of a point, then the
    // value snaps to the target and stays there.
    let target: u32 = 100 * anim::MILLI_PER_POINT;
    let mut animated: u32 = 0;
    let mut last_distance = target - animated;
    let mut ticks = 0;
    while animated != target {
        let next = anim::tick(animated, target);
        let d = if next <= target { target - next } else { next - target };
        assert!(d < last_distance, "distance did not shrink");
        assert!(next <= target, "overshot the target");
        last_distance = d;
        animated = next;
        ticks += 1;
        assert!(ticks < 10_000, "did not settle");
    }
    // Further ticks are no-ops.
    assert_eq!(anim::tick(animated, target), target);
    assert_eq!(anim::tick(animated, target), target);
    assert_eq!(anim::animation_state(animated, target), AnimationState::Settled);
}

#[test]
fn tick_single_step_value() {
    // One fifth of the way: from 0 toward 100_000 lands at 20_000.
    assert_eq!(anim::tick(0, 100_000), 20_000);
    // From above: 100_000 toward 0 lands at 80_000.
    assert_eq!(anim::tick(100_000, 0), 80_000);
}

#[test]
fn tick_snaps_within_threshold() {
    assert_eq!(anim::tick(99_950, 100_000), 100_000);
    assert_eq!(anim::tick(100_050, 100_000), 100_000);
    assert_eq!(anim::animation_state(99_950, 100_000), AnimationState::Settled);
    assert_eq!(anim::animation_state(99_899, 100_000), AnimationState::Settling);
}

#[test]
fn progress_fraction() {
    assert_eq!(visual::progress_ppm(60_000, 100), 600_000);
    assert_eq!(visual::progress_ppm(0, 100), 0);
    assert_eq!(visual::progress_ppm(100_000, 100), 1_000_000);
    // Clamped at the whole.
    assert_eq!(visual::progress_ppm(250_000, 100), 1_000_000);
}

#[test]
fn arc_zero_progress_collapses() {
    let segs = visual::arc_geometry(0, 100);
    assert_eq!(segs.len(), 100);
    for s in &segs {
        assert_eq!(s.start_uturn, visual::START_ANGLE_UTURN);
        assert_eq!(s.end_uturn, visual::START_ANGLE_UTURN);
    }
}

#[test]
fn arc_full_progress_closes_the_circle() {
    let segs = visual::arc_geometry(1_000_000, 100);
    assert_eq!(segs.len(), 100);
    assert_eq!(segs[0].start_uturn, visual::START_ANGLE_UTURN);
    assert_eq!(
        segs[99].end_uturn,
        visual::START_ANGLE_UTURN + visual::FULL_TURN_UTURN
    );
    // Consecutive segments share their endpoint angles.
    for i in 0..99 {
        assert_eq!(segs[i].end_uturn, segs[i + 1].start_uturn);
    }
    // Evenly subdivided: each step is a hundredth of a turn.
    for i in 0..100 {
        assert_eq!(segs[i].end_uturn - segs[i].start_uturn, 10_000);
    }
}

#[test]
fn arc_segment_count_matches_request() {
    for n in [1u32, 2, 7, 100, 360] {
        assert_eq!(visual::arc_geometry(400_000, n).len(), n as usize);
    }
}

#[test]
fn arc_partial_progress_sweep() {
    // At sixty percent the sweep ends sixty percent of a turn past the
    // start.
    let segs = visual::arc_geometry(600_000, 100);
    assert_eq!(segs[99].end_uturn, visual::START_ANGLE_UTURN + 600_000);
}

#[test]
fn label_rounds_to_points() {
    assert_eq!(visual::score_label(0, 100), "0 / 100");
    assert_eq!(visual::score_label(60_000, 100), "60 / 100");
    assert_eq!(visual::score_label(59_499, 100), "59 / 100");
    assert_eq!(visual::score_label(59_500, 100), "60 / 100");
    assert_eq!(visual::score_label(100_000, 100), "100 / 100");
}

#[test]
fn decimal_rendering() {
    assert_eq!(decimal_string(0), "0");
    assert_eq!(decimal_string(7), "7");
    assert_eq!(decimal_string(10), "10");
    assert_eq!(decimal_string(42), "42");
    assert_eq!(decimal_string(100), "100");
    assert_eq!(decimal_string(987_654_321), "987654321");
}
