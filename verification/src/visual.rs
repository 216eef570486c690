//! The score visualization: the color bucket of a total, the progress
//! fraction of the displayed value, and the circular-arc geometry drawn
//! behind it.
//!
//! Angles are held in millionths of a full turn, measured from the
//! positive x-axis of the drawing plane (y pointing down) and increasing
//! clockwise on screen. The arc starts at three quarters of a turn — the
//! top of the circle — and sweeps `progress` of a full turn. Progress is
//! likewise held in millionths of the whole.

use vstd::arithmetic::div_mod::lemma_div_is_ordered;
use vstd::arithmetic::div_mod::lemma_div_multiples_vanish;
use vstd::arithmetic::div_mod::lemma_div_of0;
use vstd::prelude::*;

verus! {

/// A full turn, in angle units (millionths of a turn).
pub const FULL_TURN_UTURN: u32 = 1000000;

/// Where the arc starts: three quarters of a turn, the top of the circle.
pub const START_ANGLE_UTURN: u32 = 750000;

/// Full progress, in progress units (millionths of the whole).
pub const FULL_PROGRESS_PPM: u32 = 1000000;

/// Symbolic color of a total score, one per threshold bucket.
#[derive(Clone, Copy, Debug, PartialEq, Eq, Structural)]
pub enum ColorBucket {
    Green,
    Yellow,
    LightRed,
    Red,
}

/// The color assigned to a total by the same thresholds as the
/// interpretation.
pub open spec fn color_of(total: int) -> ColorBucket {
    if total <= 25 {
        ColorBucket::Green
    } else if total <= 50 {
        ColorBucket::Yellow
    } else if total <= 75 {
        ColorBucket::LightRed
    } else {
        ColorBucket::Red
    }
}

impl ColorBucket {
    /// Position of this color in the threshold order, 0 through 3.
    pub open spec fn bucket(self) -> int {
        match self {
            ColorBucket::Green => 0,
            ColorBucket::Yellow => 1,
            ColorBucket::LightRed => 2,
            ColorBucket::Red => 3,
        }
    }

    /// The red, green and blue components this color is drawn with.
    pub fn rgb(&self) -> (r: (u8, u8, u8))
        ensures
            *self == ColorBucket::Green ==> r == (0u8, 200u8, 0u8),
            *self == ColorBucket::Yellow ==> r == (255u8, 255u8, 0u8),
            *self == ColorBucket::LightRed ==> r == (255u8, 128u8, 128u8),
            *self == ColorBucket::Red ==> r == (255u8, 0u8, 0u8),
    {
        match self {
            ColorBucket::Green => (0, 200, 0),
            ColorBucket::Yellow => (255, 255, 0),
            ColorBucket::LightRed => (255, 128, 128),
            ColorBucket::Red => (255, 0, 0),
        }
    }
}

/// Maps a total score to its color bucket, by the same thresholds as the
/// interpretation.
pub fn color_bucket(total: u32) -> (r: ColorBucket)
    ensures
        r == color_of(total as int),
{
    if total <= 25 {
        ColorBucket::Green
    } else if total <= 50 {
        ColorBucket::Yellow
    } else if total <= 75 {
        ColorBucket::LightRed
    } else {
        ColorBucket::Red
    }
}

/// On every total, the color bucket and the interpretation sit in the
/// same threshold bucket: the visual and the textual reading never
/// disagree.
pub proof fn lemma_color_matches_interpretation(total: int)
    ensures
        color_of(total).bucket() == crate::model::interpretation_of(total).bucket(),
        color_of(total).bucket() == crate::model::bucket_index(total),
{
}

/// The fraction of the ring a displayed value fills, in millionths: the
/// displayed value (thousandths of a point) over the scale maximum
/// (points), clamped to the whole.
pub open spec fn progress_of(animated_milli: int, max_scale: int) -> int {
    let raw = (animated_milli * 1000) / max_scale;
    if raw > FULL_PROGRESS_PPM as int {
        FULL_PROGRESS_PPM as int
    } else {
        raw
    }
}

/// Computes the progress fraction of a displayed value (in thousandths of
/// a point) against the scale maximum (in points), clamped to the whole.
pub fn progress_ppm(animated_milli: u32, max_scale: u32) -> (p: u32)
    requires
        max_scale >= 1,
    ensures
        p == progress_of(animated_milli as int, max_scale as int),
        p <= FULL_PROGRESS_PPM,
{
    let raw: u64 = (animated_milli as u64) * 1000 / (max_scale as u64);
    if raw > FULL_PROGRESS_PPM as u64 {
        FULL_PROGRESS_PPM
    } else {
        raw as u32
    }
}

/// One straight segment of the arc polyline: the angles of its two
/// endpoints, in millionths of a turn. The drawn endpoint of an angle a
/// is center + radius * (cos a, sin a), so equal angles give the same
/// point and angles a full turn apart close the circle.
#[derive(Clone, Copy, Debug, PartialEq, Eq, Structural)]
pub struct ArcSegment {
    pub start_uturn: u32,
    pub end_uturn: u32,
}

/// The angle of subdivision point `i` of an arc that sweeps `progress`
/// of a full turn in `segments` equal steps from the start angle.
pub open spec fn angle_at(progress: int, segments: int, i: int) -> int {
    START_ANGLE_UTURN + (progress * i) / segments
}

/// Every subdivision angle of an arc lies between the start angle and
/// the start angle plus the sweep, and the angles grow with `i`.
pub proof fn lemma_angle_bounds(progress: int, segments: int, i: int, j: int)
    requires
        0 < segments,
        0 <= progress,
        0 <= i <= j <= segments,
    ensures
        START_ANGLE_UTURN <= angle_at(progress, segments, i) <= angle_at(progress, segments, j)
            <= START_ANGLE_UTURN + progress,
{
    assert(0 <= progress * i && progress * i <= progress * j && progress * j <= progress
        * segments) by (nonlinear_arith)
        requires
            0 <= progress,
            0 <= i <= j <= segments,
    ;
    lemma_div_of0(segments);
    lemma_div_is_ordered(0, progress * i, segments);
    lemma_div_is_ordered(progress * i, progress * j, segments);
    lemma_div_is_ordered(progress * j, progress * segments, segments);
    lemma_div_multiples_vanish(progress, segments);
    assert(progress * segments == segments * progress) by (nonlinear_arith);
}

/// At zero progress every subdivision angle equals the start angle, so
/// all segment endpoints coincide and no arc is visible.
pub proof fn lemma_arc_zero(segments: int, i: int)
    requires
        0 < segments,
        0 <= i <= segments,
    ensures
        angle_at(0, segments, i) == START_ANGLE_UTURN,
{
    lemma_div_multiples_vanish(0, segments);
}

/// At full progress the last subdivision angle exceeds the first by
/// exactly one full turn, so the polyline closes back on its start.
pub proof fn lemma_arc_full(segments: int)
    requires
        0 < segments,
    ensures
        angle_at(FULL_PROGRESS_PPM as int, segments, segments) == angle_at(
            FULL_PROGRESS_PPM as int,
            segments,
            0,
        ) + FULL_TURN_UTURN,
{
    lemma_div_multiples_vanish(FULL_PROGRESS_PPM as int, segments);
    assert(FULL_PROGRESS_PPM as int * segments == segments * FULL_PROGRESS_PPM as int)
        by (nonlinear_arith);
    lemma_div_multiples_vanish(0, segments);
}

/// Produces the arc polyline: `segments` straight segments subdividing
/// the sweep `progress` of a full turn evenly, starting at the top of the
/// circle. Consecutive segments share their endpoint angles, so the
/// polyline is connected.
pub fn arc_geometry(progress: u32, segments: u32) -> (v: Vec<ArcSegment>)
    requires
        1 <= segments,
        progress <= FULL_PROGRESS_PPM,
    ensures
        v@.len() == segments,
        forall|i: int|
            0 <= i < segments ==> (#[trigger] v@[i]).start_uturn == angle_at(
                progress as int,
                segments as int,
                i,
            ),
        forall|i: int|
            0 <= i < segments ==> (#[trigger] v@[i]).end_uturn == angle_at(
                progress as int,
                segments as int,
                i + 1,
            ),
{
    let mut v: Vec<ArcSegment> = Vec::new();
    let mut i: u32 = 0;
    while i < segments
        invariant
            1 <= segments,
            progress <= FULL_PROGRESS_PPM,
            i <= segments,
            v@.len() == i,
            forall|j: int|
                0 <= j < i ==> (#[trigger] v@[j]).start_uturn == angle_at(
                    progress as int,
                    segments as int,
                    j,
                ),
            forall|j: int|
                0 <= j < i ==> (#[trigger] v@[j]).end_uturn == angle_at(
                    progress as int,
                    segments as int,
                    j + 1,
                ),
        decreases segments - i,
    {
        let a1 = subdivision_angle(progress, segments, i);
        let a2 = subdivision_angle(progress, segments, i + 1);
        v.push(ArcSegment { start_uturn: a1, end_uturn: a2 });
        i += 1;
    }
    v
}

/// The displayed value rounded to whole points: half a point rounds up.
pub open spec fn round_milli(animated_milli: int) -> int {
    (animated_milli + 500) / 1000
}

/// The label drawn in the middle of the ring: the rounded displayed
/// value, then the scale maximum.
pub open spec fn label_of(animated_milli: int, max_scale: int) -> Seq<char> {
    crate::digits::decimal_of(round_milli(animated_milli)) + " / "@ + crate::digits::decimal_of(
        max_scale,
    )
}

/// Renders the center label for a displayed value (in thousandths of a
/// point) on a scale maximum (in points).
pub fn score_label(animated_milli: u32, max_scale: u32) -> (s: String)
    ensures
        s@ == label_of(animated_milli as int, max_scale as int),
{
    let rounded: u64 = ((animated_milli as u64) + 500) / 1000;
    let mut s = crate::digits::decimal_string(rounded);
    s.append(" / ");
    let tail = crate::digits::decimal_string(max_scale as u64);
    s.append(tail.as_str());
    s
}

/// The angle of one subdivision point, computed in wide arithmetic.
fn subdivision_angle(progress: u32, segments: u32, i: u32) -> (a: u32)
    requires
        1 <= segments,
        progress <= FULL_PROGRESS_PPM,
        i <= segments,
    ensures
        a == angle_at(progress as int, segments as int, i as int),
{
    proof {
        lemma_angle_bounds(progress as int, segments as int, 0, i as int);
        assert(progress as int * i as int <= 1000000int * 4294967295int) by (nonlinear_arith)
            requires
                progress as int <= 1000000,
                0 <= i as int <= 4294967295,
        ;
    }
    START_ANGLE_UTURN + ((progress as u64) * (i as u64) / (segments as u64)) as u32
}

} // verus!
