//! Session state: wake time, stress level, calibration, the current emotion
//! and a bounded rolling history, plus the frame-processing pipeline that
//! feeds them.

use vstd::prelude::*;
use crate::calibration::StatisticalCalibrator;
use crate::calibration::stats_set_spec;
use crate::emotion::Emotion;
use crate::emotion::ZScoreVector;
use crate::emotion::calculate_emotion;
use crate::emotion::emotion_spec;
use crate::features::FeatureKey;
use crate::features::FeatureVector;
use crate::features::GeometricFeatureExtractor;
use crate::features::MIN_LANDMARKS;
use crate::features::extract_spec;
use crate::features::frame_points_wf;
use crate::landmarks::LEFT_EYE_CORNER;
use crate::landmarks::Point3D;
use crate::landmarks::RIGHT_EYE_CORNER;
use crate::landmarks::dist_spec;
use crate::landmarks::point_spec;

verus! {

/// The rolling emotion history keeps at most this many entries.
pub const HISTORY_LIMIT: usize = 100;

/// Number of samples after which calibration finalizes automatically.
pub const CALIBRATION_SAMPLES: usize = 30;

/// Smallest accepted eye-corner distance: 0.1 unit in micro-units.
pub const MIN_IPD: i64 = 100_000;

/// The per-session mutable context.
#[derive(Clone, Debug)]
pub struct SessionState {
    pub wake_time: Option<i64>,
    pub stress_level: i32,
    pub calibrator: StatisticalCalibrator,
    pub current_emotion: Emotion,
    pub emotion_history: Vec<Emotion>,
}

impl SessionState {
    pub open spec fn wf(&self) -> bool {
        &&& self.calibrator.wf()
        &&& 1 <= self.stress_level <= 5
        &&& self.emotion_history@.len() <= HISTORY_LIMIT
    }

    /// A fresh session: no wake time, lowest stress, uncalibrated, neutral.
    pub fn new() -> (r: Self)
        ensures
            r.wake_time is None,
            r.stress_level == 1,
            r.calibrator.samples@.len() == 0,
            !r.calibrator.is_calibrated,
            r.current_emotion == Emotion::Neutral,
            r.emotion_history@.len() == 0,
            r.wf(),
    {
        SessionState {
            wake_time: None,
            stress_level: 1,
            calibrator: StatisticalCalibrator::new(),
            current_emotion: Emotion::Neutral,
            emotion_history: Vec::new(),
        }
    }
}

/// Starts a new session: stores the wake time, discards calibration,
/// clears the history and resets the emotion to neutral.
pub fn init_session(state: &mut SessionState, wake_time: i64)
    requires
        old(state).wf(),
    ensures
        final(state).wake_time == Some(wake_time),
        final(state).stress_level == old(state).stress_level,
        final(state).calibrator.samples@.len() == 0,
        !final(state).calibrator.is_calibrated,
        final(state).calibrator.stats is None,
        final(state).current_emotion == Emotion::Neutral,
        final(state).emotion_history@.len() == 0,
        final(state).wf(),
{
    state.wake_time = Some(wake_time);
    state.calibrator = StatisticalCalibrator::new();
    state.emotion_history = Vec::new();
    state.current_emotion = Emotion::Neutral;
}

pub open spec fn clamp_stress_spec(level: i32) -> i32 {
    if level < 1 {
        1
    } else if level > 5 {
        5
    } else {
        level
    }
}

/// Stores the stress level, clamped into [1, 5]; never rejects.
pub fn update_stress(state: &mut SessionState, level: i32)
    requires
        old(state).wf(),
    ensures
        final(state).stress_level == clamp_stress_spec(level),
        final(state).wake_time == old(state).wake_time,
        final(state).calibrator == old(state).calibrator,
        final(state).current_emotion == old(state).current_emotion,
        final(state).emotion_history == old(state).emotion_history,
        final(state).wf(),
{
    state.stress_level = if level < 1 {
        1
    } else if level > 5 {
        5
    } else {
        level
    };
}

/// The history after appending `e`: the oldest entry falls out once the
/// bound is exceeded (FIFO).
pub open spec fn push_bounded_spec(h: Seq<Emotion>, e: Emotion) -> Seq<Emotion> {
    let pushed = h.push(e);
    if pushed.len() > HISTORY_LIMIT {
        pushed.skip(pushed.len() - HISTORY_LIMIT)
    } else {
        pushed
    }
}

/// Sets the current emotion and appends it to the bounded history.
pub fn record_emotion(state: &mut SessionState, e: Emotion)
    requires
        old(state).wf(),
    ensures
        final(state).current_emotion == e,
        final(state).emotion_history@ == push_bounded_spec(old(state).emotion_history@, e),
        final(state).wake_time == old(state).wake_time,
        final(state).stress_level == old(state).stress_level,
        final(state).calibrator == old(state).calibrator,
        final(state).wf(),
{
    state.current_emotion = e;
    state.emotion_history.push(e);
    if state.emotion_history.len() > HISTORY_LIMIT {
        state.emotion_history.remove(0);
        proof {
            assert(state.emotion_history@ =~= push_bounded_spec(
                old(state).emotion_history@,
                e,
            ));
        }
    }
}

/// The frame's point sequence: consecutive coordinate triples, clamped.
pub open spec fn point_at(coords: Seq<i64>, i: int) -> Point3D {
    point_spec(coords[3 * i], coords[3 * i + 1], coords[3 * i + 2])
}

pub open spec fn points_of(coords: Seq<i64>) -> Seq<Point3D> {
    Seq::new((coords.len() / 3) as nat, |i: int| point_at(coords, i))
}

/// Head-pose gate: the eye-corner distance must not be degenerate and the
/// yaw proxy |dz| / ipd must not exceed 1/4.
pub open spec fn gate_ok(pts: Seq<Point3D>) -> bool {
    let d = dist_spec(pts[LEFT_EYE_CORNER as int], pts[RIGHT_EYE_CORNER as int]);
    let dz = pts[LEFT_EYE_CORNER as int].z - pts[RIGHT_EYE_CORNER as int].z;
    d >= MIN_IPD && 4 * (if dz >= 0 {
        dz
    } else {
        -dz
    }) <= d
}

/// A frame is used only when it has enough points and meets the head-pose
/// limits.
pub open spec fn frame_accepted(coords: Seq<i64>) -> bool {
    points_of(coords).len() >= MIN_LANDMARKS && gate_ok(points_of(coords))
}

/// A frame with fewer than the required number of points is never accepted,
/// so (with the change clauses of `process_face_landmarks`) it leaves the
/// session state untouched.
pub proof fn lemma_short_frame_rejected(coords: Seq<i64>)
    requires
        coords.len() / 3 < MIN_LANDMARKS,
    ensures
        !frame_accepted(coords),
{
}

/// The z-score vector of a feature vector against a calibrated baseline.
pub open spec fn zvec_spec(cal: StatisticalCalibrator, f: FeatureVector) -> ZScoreVector {
    ZScoreVector {
        ear: cal.zscore_of(FeatureKey::Ear, f.ear) as i64,
        au1_dist: cal.zscore_of(FeatureKey::Au1Dist, f.au1_dist) as i64,
        au2_dist: cal.zscore_of(FeatureKey::Au2Dist, f.au2_dist) as i64,
        au4_dist: cal.zscore_of(FeatureKey::Au4Dist, f.au4_dist) as i64,
    }
}

/// The label a calibrated session assigns to an accepted frame.
pub open spec fn classify_frame_spec(cal: StatisticalCalibrator, pts: Seq<Point3D>) -> Emotion {
    emotion_spec(zvec_spec(cal, extract_spec(pts)))
}

/// Feeds one flattened landmark frame (x, y, z triples in micro-units) into
/// the head-pose screen, the extractor and then either calibration or
/// classification. A rejected frame changes nothing.
pub fn process_face_landmarks(state: &mut SessionState, coords: Vec<i64>)
    requires
        old(state).wf(),
    ensures
        !frame_accepted(coords@) ==> *final(state) == *old(state),
        frame_accepted(coords@) ==> final(state).wake_time == old(state).wake_time
            && final(state).stress_level == old(state).stress_level,
        frame_accepted(coords@) && !old(state).calibrator.is_calibrated ==> {
            let pushed = old(state).calibrator.samples@.push(extract_spec(points_of(coords@)));
            &&& final(state).calibrator.samples@ == pushed
            &&& final(state).current_emotion == old(state).current_emotion
            &&& final(state).emotion_history == old(state).emotion_history
            &&& (pushed.len() >= CALIBRATION_SAMPLES ==> final(state).calibrator.is_calibrated
                && final(state).calibrator.stats == Some(stats_set_spec(pushed)))
            &&& (pushed.len() < CALIBRATION_SAMPLES ==> !final(state).calibrator.is_calibrated
                && final(state).calibrator.stats is None)
        },
        frame_accepted(coords@) && old(state).calibrator.is_calibrated ==> {
            let e = classify_frame_spec(old(state).calibrator, points_of(coords@));
            &&& final(state).calibrator == old(state).calibrator
            &&& final(state).current_emotion == e
            &&& final(state).emotion_history@ == push_bounded_spec(
                old(state).emotion_history@,
                e,
            )
        },
        final(state).wf(),
{
    let num_points: usize = coords.len() / 3;
    if num_points < MIN_LANDMARKS {
        return ;
    }
    let mut landmarks: Vec<Point3D> = Vec::new();
    let mut i: usize = 0;
    proof {
        assert(3 * (coords@.len() as int / 3) + coords@.len() as int % 3 == coords@.len() as int)
            by (nonlinear_arith);
        assert(coords@.len() as int % 3 >= 0) by (nonlinear_arith);
    }
    while i < num_points
        invariant
            num_points == coords@.len() / 3,
            3 * (num_points as int) <= coords@.len(),
            coords@.len() <= usize::MAX,
            i <= num_points,
            landmarks@.len() == i,
            forall|k: int| 0 <= k < i ==> landmarks@[k] == point_at(coords@, k),
        decreases num_points - i,
    {
        proof {
            assert(3 * (i as int) + 2 < coords@.len());
        }
        let base: usize = 3 * i;
        let p = Point3D::new(coords[base], coords[base + 1], coords[base + 2]);
        landmarks.push(p);
        i += 1;
    }
    proof {
        assert(landmarks@ =~= points_of(coords@));
        assert(frame_points_wf(landmarks@));
    }

    // Head-pose gate: reject off-angle or too-small faces before extraction.
    let d: i64 = landmarks[LEFT_EYE_CORNER].euclidean_dist(&landmarks[RIGHT_EYE_CORNER]);
    if d < MIN_IPD {
        return ;
    }
    let dz: i64 = landmarks[LEFT_EYE_CORNER].z - landmarks[RIGHT_EYE_CORNER].z;
    let dz_abs: i64 = if dz >= 0 {
        dz
    } else {
        -dz
    };
    if 4 * dz_abs > d {
        return ;
    }

    let extractor = GeometricFeatureExtractor::new();
    let extracted: Option<FeatureVector> = extractor.extract(&landmarks);
    if let Some(features) = extracted {
        if !state.calibrator.is_calibrated {
            state.calibrator.add_sample(features);
            if state.calibrator.samples.len() >= CALIBRATION_SAMPLES {
                state.calibrator.finalize_calibration();
            }
        } else {
            let z = ZScoreVector {
                ear: state.calibrator.get_z_score(FeatureKey::Ear, features.ear),
                au1_dist: state.calibrator.get_z_score(FeatureKey::Au1Dist, features.au1_dist),
                au2_dist: state.calibrator.get_z_score(FeatureKey::Au2Dist, features.au2_dist),
                au4_dist: state.calibrator.get_z_score(FeatureKey::Au4Dist, features.au4_dist),
            };
            let e: Emotion = calculate_emotion(&z);
            record_emotion(state, e);
        }
    }
}

/// Energy level derived from the seconds elapsed since wake time.
///
/// Brackets are strict: exactly 2h/6h/10h/14h awake already falls into the
/// lower-energy bracket.
pub open spec fn energy_spec(wake_time: int, current_time: int) -> int {
    let elapsed = current_time - wake_time;
    if elapsed < 7200 {
        5
    } else if elapsed < 21600 {
        4
    } else if elapsed < 36000 {
        3
    } else if elapsed < 50400 {
        2
    } else {
        1
    }
}

/// The session's energy level at `current_time`: the neutral default 3
/// without a wake time, otherwise the elapsed-time bracket.
pub open spec fn session_energy_spec(wake_time: Option<i64>, current_time: int) -> int {
    match wake_time {
        Some(w) => energy_spec(w as int, current_time),
        None => 3,
    }
}

/// Maps time awake to an energy level in [1, 5]: less than 2h awake gives 5,
/// then one level lower at 6h, 10h and 14h awake.
pub fn calculate_energy_logic(wake_time: i64, current_time: i64) -> (r: i32)
    ensures
        r == energy_spec(wake_time as int, current_time as int),
        1 <= r <= 5,
{
    let elapsed: i128 = current_time as i128 - wake_time as i128;
    if elapsed < 7200 {
        5
    } else if elapsed < 21600 {
        4
    } else if elapsed < 36000 {
        3
    } else if elapsed < 50400 {
        2
    } else {
        1
    }
}

/// The session's energy level at `current_time`.
pub fn calculate_energy(state: &SessionState, current_time: i64) -> (r: i32)
    ensures
        r == session_energy_spec(state.wake_time, current_time as int),
        1 <= r <= 5,
{
    match state.wake_time {
        Some(wake) => calculate_energy_logic(wake, current_time),
        None => 3,
    }
}

/// For a fixed wake time the energy level never rises as time goes on.
pub proof fn lemma_energy_non_increasing(wake_time: int, earlier: int, later: int)
    requires
        earlier <= later,
    ensures
        energy_spec(wake_time, later) <= energy_spec(wake_time, earlier),
{
}

} // verus!
