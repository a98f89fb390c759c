use recemotion::emotion::calculate_emotion;
use recemotion::emotion::Emotion;
use recemotion::emotion::ZScoreVector;
use recemotion::session::calculate_energy;
use recemotion::session::calculate_energy_logic;
use recemotion::session::init_session;
use recemotion::session::process_face_landmarks;
use recemotion::session::record_emotion;
use recemotion::session::update_stress;
use recemotion::session::SessionState;

// Z-scores are fixed-point micro-units: 1.0 == 1_000_000.

#[test]
fn energy_brackets() {
    let wake = 1000i64;
    assert_eq!(calculate_energy_logic(wake, wake + 3600), 5); // 1h
    assert_eq!(calculate_energy_logic(wake, wake + 3600 * 5), 4); // 5h
    assert_eq!(calculate_energy_logic(wake, wake + 3600 * 15), 1); // 15h
}

#[test]
fn energy_boundaries_fall_into_lower_bracket() {
    let wake = 1000i64;
    assert_eq!(calculate_energy_logic(wake, wake + 3600 * 2), 4);
    assert_eq!(calculate_energy_logic(wake, wake + 3600 * 6), 3);
    assert_eq!(calculate_energy_logic(wake, wake + 3600 * 10), 2);
    assert_eq!(calculate_energy_logic(wake, wake + 3600 * 14), 1);
}

#[test]
fn energy_defaults_without_wake_time() {
    let state = SessionState::new();
    assert_eq!(calculate_energy(&state, 123_456), 3);
}

#[test]
fn stress_is_clamped() {
    let mut state = SessionState::new();
    update_stress(&mut state, 0);
    assert_eq!(state.stress_level, 1);
    update_stress(&mut state, 7);
    assert_eq!(state.stress_level, 5);
    update_stress(&mut state, 3);
    assert_eq!(state.stress_level, 3);
}

#[test]
fn init_session_resets_state() {
    let mut state = SessionState::new();
    update_stress(&mut state, 4);
    record_emotion(&mut state, Emotion::Happy);
    init_session(&mut state, 42);
    assert_eq!(state.wake_time, Some(42));
    assert_eq!(state.stress_level, 4); // stress survives a new session
    assert_eq!(state.current_emotion, Emotion::Neutral);
    assert!(state.emotion_history.is_empty());
    assert!(!state.calibrator.is_calibrated);
    assert!(state.calibrator.samples.is_empty());
}

#[test]
fn classifier_rules_cover_all_labels() {
    let z = |ear: i64, au1: i64, au2: i64, au4: i64| ZScoreVector {
        ear,
        au1_dist: au1,
        au2_dist: au2,
        au4_dist: au4,
    };
    assert_eq!(calculate_emotion(&z(-2_500_000, 0, 0, 0)), Emotion::Happy);
    assert_eq!(calculate_emotion(&z(0, 0, 0, -2_500_000)), Emotion::Angry);
    assert_eq!(
        calculate_emotion(&z(2_500_000, 2_500_000, 2_500_000, 0)),
        Emotion::Surprised
    );
    assert_eq!(
        calculate_emotion(&z(0, 2_500_000, 2_500_000, 0)),
        Emotion::Curious
    );
    assert_eq!(calculate_emotion(&z(0, 2_500_000, 0, -500_000)), Emotion::Sad);
    assert_eq!(calculate_emotion(&z(0, 0, 0, 0)), Emotion::Neutral);
}

#[test]
fn classifier_precedence_on_overlapping_rules() {
    // Raised brows with lowered inner brows satisfy both the raised-brow
    // rule and the sadness rule; the earlier rule wins.
    let z = ZScoreVector {
        ear: 0,
        au1_dist: 2_500_000,
        au2_dist: 2_500_000,
        au4_dist: -500_000,
    };
    assert_eq!(calculate_emotion(&z), Emotion::Curious);
    // Narrowed eyes with strongly lowered brows fail the happiness rule's
    // brow guard, so the brow-lowering rule fires.
    let z2 = ZScoreVector {
        ear: -3_000_000,
        au1_dist: 0,
        au2_dist: 0,
        au4_dist: -3_000_000,
    };
    assert_eq!(calculate_emotion(&z2), Emotion::Angry);
}

#[test]
fn history_is_bounded_fifo() {
    let mut state = SessionState::new();
    let pattern = |i: usize| match i % 3 {
        0 => Emotion::Happy,
        1 => Emotion::Angry,
        _ => Emotion::Sad,
    };
    for i in 0..150 {
        record_emotion(&mut state, pattern(i));
    }
    assert_eq!(state.emotion_history.len(), 100);
    let expected: Vec<_> = (50..150).map(pattern).collect();
    assert_eq!(state.emotion_history, expected);
    assert_eq!(state.current_emotion, pattern(149));
}

/// A flat 468-point frame whose inner-brow separation is `sep` micro-units.
/// The eye corners sit two units apart, so the IPD scale is 2.0 and
/// AU4_Dist is sep / 2.
fn frame(sep: i64) -> Vec<i64> {
    let mut coords = vec![0i64; 468 * 3];
    let set = |coords: &mut Vec<i64>, idx: usize, x: i64, y: i64, z: i64| {
        coords[3 * idx] = x;
        coords[3 * idx + 1] = y;
        coords[3 * idx + 2] = z;
    };
    set(&mut coords, 263, 2_000_000, 0, 0); // right eye corner
    set(&mut coords, 107, 500_000, 0, 0); // right inner brow
    set(&mut coords, 336, 500_000 + sep, 0, 0); // left inner brow
    coords
}

#[test]
fn short_frames_leave_state_unchanged() {
    let mut state = SessionState::new();
    init_session(&mut state, 0);
    let coords = vec![0i64; 467 * 3];
    process_face_landmarks(&mut state, coords);
    assert!(state.calibrator.samples.is_empty());
    assert!(state.emotion_history.is_empty());
    assert_eq!(state.current_emotion, Emotion::Neutral);
}

#[test]
fn gate_rejects_degenerate_and_off_angle_frames() {
    let mut state = SessionState::new();
    init_session(&mut state, 0);
    // All-zero frame: the eye-corner distance is 0, below the 0.1 minimum.
    process_face_landmarks(&mut state, vec![0i64; 468 * 3]);
    assert!(state.calibrator.samples.is_empty());
    // Off-angle frame: |dz| / ipd exceeds 1/4.
    let mut coords = vec![0i64; 468 * 3];
    coords[3 * 263] = 1_000_000;
    coords[3 * 263 + 2] = 300_000;
    process_face_landmarks(&mut state, coords);
    assert!(state.calibrator.samples.is_empty());
    assert!(state.emotion_history.is_empty());
}

#[test]
fn end_to_end_calibration_then_classification() {
    let mut state = SessionState::new();
    init_session(&mut state, 0);

    // 30 distinct calibration frames with AU4 values symmetric around
    // their median.
    for i in 0..29i64 {
        process_face_landmarks(&mut state, frame(1_000_000 + 1000 * i));
        assert!(!state.calibrator.is_calibrated);
    }
    process_face_landmarks(&mut state, frame(1_000_000 + 1000 * 29));
    assert!(state.calibrator.is_calibrated);
    assert_eq!(state.calibrator.samples.len(), 30);

    // AU4 column is 500_000 + 500 * i: median of the two middle values,
    // MAD 3750, sigma = floor(1.4826 * 3750) = 5559.
    let stats = state.calibrator.stats.unwrap();
    assert_eq!(stats.au4_dist.median, 507_250);
    assert_eq!(stats.au4_dist.sigma, 5559);

    // A strongly narrowed brow: AU4 z-score far below -2 while EAR stays
    // at its baseline, so the brow-lowering rule fires.
    process_face_landmarks(&mut state, frame(900_000));
    assert_eq!(state.current_emotion, Emotion::Angry);
    assert_eq!(state.emotion_history, vec![Emotion::Angry]);
}
