//! Geometric feature extraction from a landmark frame.
//!
//! Produces four scale-normalized measurements: `EAR` (eye aspect ratio),
//! `AU1_Dist` (inner-brow raise), `AU2_Dist` (outer-brow raise) and
//! `AU4_Dist` (brow lowering). Ratios are fixed-point with `SCALE` micro-units
//! per unit, and every feature value is clamped into `[0, FEAT_LIMIT]`.

use vstd::prelude::*;
use crate::landmarks::Point3D;
use crate::landmarks::dist_spec;
use crate::landmarks::BROW_LEFT_INNER;
use crate::landmarks::BROW_LEFT_OUTER;
use crate::landmarks::BROW_RIGHT_INNER;
use crate::landmarks::BROW_RIGHT_OUTER;
use crate::landmarks::LEFT_EYE_BOTTOM_INNER;
use crate::landmarks::LEFT_EYE_BOTTOM_OUTER;
use crate::landmarks::LEFT_EYE_CORNER;
use crate::landmarks::LEFT_EYE_INNER;
use crate::landmarks::LEFT_EYE_OUTER;
use crate::landmarks::LEFT_EYE_TOP_INNER;
use crate::landmarks::LEFT_EYE_TOP_OUTER;
use crate::landmarks::NOSE_ROOT;
use crate::landmarks::RIGHT_EYE_BOTTOM_INNER;
use crate::landmarks::RIGHT_EYE_BOTTOM_OUTER;
use crate::landmarks::RIGHT_EYE_CORNER;
use crate::landmarks::RIGHT_EYE_INNER;
use crate::landmarks::RIGHT_EYE_OUTER;
use crate::landmarks::RIGHT_EYE_TOP_INNER;
use crate::landmarks::RIGHT_EYE_TOP_OUTER;
use crate::landmarks::DIST_BOUND;

verus! {

/// Fixed-point scale: micro-units per source unit.
pub const SCALE: i64 = 1_000_000;

/// Inclusive upper bound on a stored feature value.
pub const FEAT_LIMIT: i64 = 4_000_000_000_000;

/// A frame must carry at least this many landmark points.
pub const MIN_LANDMARKS: usize = 468;

/// The closed vocabulary of extracted features.
#[derive(Clone, Copy, Debug, PartialEq, Eq, Structural)]
pub enum FeatureKey {
    Ear,
    Au1Dist,
    Au2Dist,
    Au4Dist,
}

/// One measurement per feature key, in micro-units.
#[derive(Clone, Copy, Debug, PartialEq, Eq, Structural)]
pub struct FeatureVector {
    pub ear: i64,
    pub au1_dist: i64,
    pub au2_dist: i64,
    pub au4_dist: i64,
}

pub open spec fn feat_in_range(v: i64) -> bool {
    0 <= v <= FEAT_LIMIT
}

pub open spec fn clamp_feat_spec(v: int) -> i64 {
    if v < 0 {
        0
    } else if v > FEAT_LIMIT {
        FEAT_LIMIT
    } else {
        v as i64
    }
}

impl FeatureVector {
    pub open spec fn wf(&self) -> bool {
        feat_in_range(self.ear) && feat_in_range(self.au1_dist) && feat_in_range(self.au2_dist)
            && feat_in_range(self.au4_dist)
    }

    /// The vector a constructor builds: each raw value clamped into range.
    pub open spec fn new_spec(ear: i64, au1_dist: i64, au2_dist: i64, au4_dist: i64) -> Self {
        FeatureVector {
            ear: clamp_feat_spec(ear as int),
            au1_dist: clamp_feat_spec(au1_dist as int),
            au2_dist: clamp_feat_spec(au2_dist as int),
            au4_dist: clamp_feat_spec(au4_dist as int),
        }
    }

    /// Builds a vector, clamping each value into `[0, FEAT_LIMIT]`.
    pub fn new(ear: i64, au1_dist: i64, au2_dist: i64, au4_dist: i64) -> (r: Self)
        ensures
            r == Self::new_spec(ear, au1_dist, au2_dist, au4_dist),
            r.wf(),
    {
        FeatureVector {
            ear: clamp_feat(ear),
            au1_dist: clamp_feat(au1_dist),
            au2_dist: clamp_feat(au2_dist),
            au4_dist: clamp_feat(au4_dist),
        }
    }

    pub open spec fn spec_get(&self, key: FeatureKey) -> i64 {
        match key {
            FeatureKey::Ear => self.ear,
            FeatureKey::Au1Dist => self.au1_dist,
            FeatureKey::Au2Dist => self.au2_dist,
            FeatureKey::Au4Dist => self.au4_dist,
        }
    }

    /// The measurement stored under `key`.
    pub fn get(&self, key: FeatureKey) -> (r: i64)
        ensures
            r == self.spec_get(key),
    {
        match key {
            FeatureKey::Ear => self.ear,
            FeatureKey::Au1Dist => self.au1_dist,
            FeatureKey::Au2Dist => self.au2_dist,
            FeatureKey::Au4Dist => self.au4_dist,
        }
    }
}

fn clamp_feat(v: i64) -> (r: i64)
    ensures
        r == clamp_feat_spec(v as int),
{
    if v < 0 {
        0
    } else if v > FEAT_LIMIT {
        FEAT_LIMIT
    } else {
        v
    }
}

/// Raw distance between the two outer eye corners.
pub open spec fn raw_ipd_spec(s: Seq<Point3D>) -> int {
    dist_spec(s[LEFT_EYE_CORNER as int], s[RIGHT_EYE_CORNER as int])
}

/// The normalization scale: the eye-corner distance, floored at one unit.
pub open spec fn ipd_scale_spec(s: Seq<Point3D>) -> int {
    if raw_ipd_spec(s) < SCALE {
        SCALE as int
    } else {
        raw_ipd_spec(s)
    }
}

/// Eye aspect ratio of one 6-point contour, before clamping:
/// (vertical1 + vertical2) * SCALE / (2 * horizontal), or 0 for a degenerate
/// (zero-width) eye.
pub open spec fn eye_ratio_spec(
    p0: Point3D,
    p1: Point3D,
    p2: Point3D,
    p3: Point3D,
    p4: Point3D,
    p5: Point3D,
) -> int {
    let v1 = dist_spec(p1, p5);
    let v2 = dist_spec(p2, p4);
    let h = dist_spec(p0, p3);
    if h == 0 {
        0
    } else {
        (v1 + v2) * SCALE / (2 * h)
    }
}

pub open spec fn left_eye_ratio_spec(s: Seq<Point3D>) -> int {
    eye_ratio_spec(
        s[LEFT_EYE_OUTER as int],
        s[LEFT_EYE_TOP_OUTER as int],
        s[LEFT_EYE_TOP_INNER as int],
        s[LEFT_EYE_INNER as int],
        s[LEFT_EYE_BOTTOM_INNER as int],
        s[LEFT_EYE_BOTTOM_OUTER as int],
    )
}

pub open spec fn right_eye_ratio_spec(s: Seq<Point3D>) -> int {
    eye_ratio_spec(
        s[RIGHT_EYE_INNER as int],
        s[RIGHT_EYE_TOP_INNER as int],
        s[RIGHT_EYE_TOP_OUTER as int],
        s[RIGHT_EYE_OUTER as int],
        s[RIGHT_EYE_BOTTOM_OUTER as int],
        s[RIGHT_EYE_BOTTOM_INNER as int],
    )
}

/// `EAR`: average of the two per-eye ratios.
pub open spec fn ear_spec(s: Seq<Point3D>) -> i64 {
    clamp_feat_spec((left_eye_ratio_spec(s) + right_eye_ratio_spec(s)) / 2)
}

/// `AU1_Dist`: average inner-brow-to-nose-root distance over the IPD scale.
pub open spec fn au1_spec(s: Seq<Point3D>) -> i64 {
    let l = dist_spec(s[BROW_LEFT_INNER as int], s[NOSE_ROOT as int]);
    let r = dist_spec(s[BROW_RIGHT_INNER as int], s[NOSE_ROOT as int]);
    clamp_feat_spec((l + r) * SCALE / (2 * ipd_scale_spec(s)))
}

/// `AU2_Dist`: average outer-brow-to-nose-root distance over the IPD scale.
pub open spec fn au2_spec(s: Seq<Point3D>) -> i64 {
    let l = dist_spec(s[BROW_LEFT_OUTER as int], s[NOSE_ROOT as int]);
    let r = dist_spec(s[BROW_RIGHT_OUTER as int], s[NOSE_ROOT as int]);
    clamp_feat_spec((l + r) * SCALE / (2 * ipd_scale_spec(s)))
}

/// `AU4_Dist`: inner-brow separation over the IPD scale.
pub open spec fn au4_spec(s: Seq<Point3D>) -> i64 {
    let d = dist_spec(s[BROW_LEFT_INNER as int], s[BROW_RIGHT_INNER as int]);
    clamp_feat_spec(d * SCALE / ipd_scale_spec(s))
}

/// The full feature vector extracted from a frame of at least
/// `MIN_LANDMARKS` points.
pub open spec fn extract_spec(s: Seq<Point3D>) -> FeatureVector {
    FeatureVector { ear: ear_spec(s), au1_dist: au1_spec(s), au2_dist: au2_spec(s), au4_dist: au4_spec(s) }
}

pub open spec fn frame_points_wf(s: Seq<Point3D>) -> bool {
    forall|i: int| 0 <= i < s.len() ==> (#[trigger] s[i]).wf()
}

/// Turns a landmark frame into named geometric measurements.
pub struct GeometricFeatureExtractor;

impl GeometricFeatureExtractor {
    pub fn new() -> Self {
        GeometricFeatureExtractor
    }

    /// Extracts the four features, or `None` for a frame with too few points.
    pub fn extract(&self, landmarks: &Vec<Point3D>) -> (r: Option<FeatureVector>)
        requires
            frame_points_wf(landmarks@),
        ensures
            r is Some <==> landmarks@.len() >= MIN_LANDMARKS,
            landmarks@.len() >= MIN_LANDMARKS ==> r == Some(extract_spec(landmarks@))
                && extract_spec(landmarks@).wf(),
    {
        if landmarks.len() < MIN_LANDMARKS {
            return None;
        }
        let ipd: i64 = self.get_ipd_scale(landmarks);

        let l_ear: i64 = self.eye_aspect_ratio(
            landmarks[LEFT_EYE_OUTER],
            landmarks[LEFT_EYE_TOP_OUTER],
            landmarks[LEFT_EYE_TOP_INNER],
            landmarks[LEFT_EYE_INNER],
            landmarks[LEFT_EYE_BOTTOM_INNER],
            landmarks[LEFT_EYE_BOTTOM_OUTER],
        );
        let r_ear: i64 = self.eye_aspect_ratio(
            landmarks[RIGHT_EYE_INNER],
            landmarks[RIGHT_EYE_TOP_INNER],
            landmarks[RIGHT_EYE_TOP_OUTER],
            landmarks[RIGHT_EYE_OUTER],
            landmarks[RIGHT_EYE_BOTTOM_OUTER],
            landmarks[RIGHT_EYE_BOTTOM_INNER],
        );
        let ear_avg: u64 = ((l_ear as u64) + (r_ear as u64)) / 2;
        let ear: i64 = if ear_avg > FEAT_LIMIT as u64 {
            FEAT_LIMIT
        } else {
            ear_avg as i64
        };

        let l_brow_in: i64 = landmarks[BROW_LEFT_INNER].euclidean_dist(&landmarks[NOSE_ROOT]);
        let r_brow_in: i64 = landmarks[BROW_RIGHT_INNER].euclidean_dist(&landmarks[NOSE_ROOT]);
        let au1: i64 = normalized_pair(l_brow_in, r_brow_in, ipd);

        let l_brow_out: i64 = landmarks[BROW_LEFT_OUTER].euclidean_dist(&landmarks[NOSE_ROOT]);
        let r_brow_out: i64 = landmarks[BROW_RIGHT_OUTER].euclidean_dist(&landmarks[NOSE_ROOT]);
        let au2: i64 = normalized_pair(l_brow_out, r_brow_out, ipd);

        let d_brows: i64 = landmarks[BROW_LEFT_INNER].euclidean_dist(&landmarks[BROW_RIGHT_INNER]);
        proof {
            lemma_mul_bound(d_brows as int, DIST_BOUND as int, SCALE as int, SCALE as int);
        }
        let num4: u64 = (d_brows as u64) * (SCALE as u64);
        proof {
            lemma_div_le(num4 as int, ipd as int);
        }
        let au4_raw: u64 = num4 / (ipd as u64);

        Some(FeatureVector::new(ear, au1, au2, au4_raw as i64))
    }

    fn get_ipd_scale(&self, landmarks: &Vec<Point3D>) -> (r: i64)
        requires
            frame_points_wf(landmarks@),
            landmarks@.len() >= MIN_LANDMARKS,
        ensures
            r == ipd_scale_spec(landmarks@),
            SCALE <= r < DIST_BOUND,
    {
        let d: i64 = landmarks[LEFT_EYE_CORNER].euclidean_dist(&landmarks[RIGHT_EYE_CORNER]);
        if d < SCALE {
            SCALE
        } else {
            d
        }
    }

    fn eye_aspect_ratio(
        &self,
        p0: Point3D,
        p1: Point3D,
        p2: Point3D,
        p3: Point3D,
        p4: Point3D,
        p5: Point3D,
    ) -> (r: i64)
        requires
            p0.wf(),
            p1.wf(),
            p2.wf(),
            p3.wf(),
            p4.wf(),
            p5.wf(),
        ensures
            r == eye_ratio_spec(p0, p1, p2, p3, p4, p5),
            0 <= r,
    {
        let v1: i64 = p1.euclidean_dist(&p5);
        let v2: i64 = p2.euclidean_dist(&p4);
        let h: i64 = p0.euclidean_dist(&p3);
        if h == 0 {
            0
        } else {
            proof {
                lemma_mul_bound(v1 + v2, 2 * (DIST_BOUND as int), SCALE as int, SCALE as int);
            }
            let num: u64 = ((v1 as u64) + (v2 as u64)) * (SCALE as u64);
            proof {
                lemma_div_le(num as int, 2 * h as int);
            }
            let q: u64 = num / (2 * (h as u64));
            q as i64
        }
    }
}

/// Bounds a product of nonnegative factors by the product of their bounds.
pub proof fn lemma_mul_bound(a: int, b: int, c: int, d: int)
    requires
        0 <= a <= b,
        0 <= c <= d,
    ensures
        0 <= a * c <= b * d,
{
    assert(0 <= a * c <= b * d) by (nonlinear_arith)
        requires
            0 <= a <= b,
            0 <= c <= d,
    ;
}

/// Dividing a nonnegative number by a positive one does not increase it.
pub proof fn lemma_div_le(x: int, d: int)
    requires
        0 <= x,
        1 <= d,
    ensures
        0 <= x / d <= x,
{
    assert(0 <= x / d <= x) by (nonlinear_arith)
        requires
            0 <= x,
            1 <= d,
    ;
}

/// (a + b) * SCALE / (2 * scale), the shared shape of the two brow features.
fn normalized_pair(a: i64, b: i64, scale: i64) -> (r: i64)
    requires
        0 <= a < DIST_BOUND,
        0 <= b < DIST_BOUND,
        SCALE <= scale < DIST_BOUND,
    ensures
        r == (a + b) * SCALE / (2 * scale),
        0 <= r,
{
    proof {
        lemma_mul_bound(a + b, 2 * (DIST_BOUND as int), SCALE as int, SCALE as int);
    }
    let num: u64 = ((a as u64) + (b as u64)) * (SCALE as u64);
    proof {
        lemma_div_le(num as int, 2 * scale as int);
    }
    let q: u64 = num / (2 * (scale as u64));
    q as i64
}

} // verus!
