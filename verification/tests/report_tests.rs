use recemotion::emotion::Emotion;
use recemotion::report::build_report;
use recemotion::report::dominant_emotion;
use recemotion::report::generate_analysis_json;
use recemotion::report::render_report;
use recemotion::session::init_session;
use recemotion::session::record_emotion;
use recemotion::session::update_stress;
use recemotion::session::SessionState;

#[test]
fn dominant_emotion_is_the_mode() {
    let history = vec![Emotion::Happy, Emotion::Angry, Emotion::Happy];
    assert_eq!(dominant_emotion(&history), Emotion::Happy);
}

#[test]
fn dominant_emotion_tie_breaks_by_fixed_order() {
    let history = vec![Emotion::Angry, Emotion::Happy];
    assert_eq!(dominant_emotion(&history), Emotion::Happy);
}

#[test]
fn dominant_emotion_of_empty_history_is_neutral() {
    assert_eq!(dominant_emotion(&Vec::new()), Emotion::Neutral);
}

#[test]
fn analysis_json_exact_text() {
    let mut state = SessionState::new();
    init_session(&mut state, 1000);
    update_stress(&mut state, 2);
    let json = generate_analysis_json(&state, "hi".to_string(), 4600);
    assert_eq!(
        json,
        "{\"status\":\"success\",\"timestamp\":4600,\
         \"context\":{\"energy_level\":5,\"stress_level\":2,\
         \"wake_time\":1000,\"input_text\":\"hi\"},\
         \"emotion_data\":{\"current_emotion\":\"Neutral\",\
         \"dominant_emotion_last_Session\":\"Neutral\",\
         \"is_calibrated\":false,\"sample_count\":0},\
         \"insight_hints\":{\"has_discrepancy\":false}}"
    );
}

#[test]
fn analysis_json_escapes_and_parses() {
    let mut state = SessionState::new();
    init_session(&mut state, -5);
    update_stress(&mut state, 1);
    record_emotion(&mut state, Emotion::Sad);
    record_emotion(&mut state, Emotion::Sad);
    record_emotion(&mut state, Emotion::Happy);

    let text = "a\"b\\c\nd";
    let json = generate_analysis_json(&state, text.to_string(), 100_000);
    let v: serde_json::Value = serde_json::from_str(&json).unwrap();

    assert_eq!(v["status"].as_str(), Some("success"));
    assert_eq!(v["timestamp"].as_i64(), Some(100_000));
    assert_eq!(v["context"]["input_text"].as_str(), Some(text));
    assert_eq!(v["context"]["wake_time"].as_i64(), Some(-5));
    assert_eq!(v["context"]["stress_level"].as_i64(), Some(1));
    // 100005 seconds awake is more than 14 hours: lowest energy.
    assert_eq!(v["context"]["energy_level"].as_i64(), Some(1));
    assert_eq!(v["emotion_data"]["current_emotion"].as_str(), Some("Happy"));
    assert_eq!(
        v["emotion_data"]["dominant_emotion_last_Session"].as_str(),
        Some("Sad")
    );
    assert_eq!(v["emotion_data"]["is_calibrated"].as_bool(), Some(false));
    assert_eq!(v["emotion_data"]["sample_count"].as_i64(), Some(3));
    // A non-neutral emotion with minimal reported stress is a discrepancy.
    assert_eq!(v["insight_hints"]["has_discrepancy"].as_bool(), Some(true));
}

#[test]
fn report_fields_mirror_the_session() {
    let mut state = SessionState::new();
    init_session(&mut state, 7);
    update_stress(&mut state, 5);
    record_emotion(&mut state, Emotion::Curious);
    let report = build_report(&state, "note".to_string(), 7 + 3600 * 7);
    assert_eq!(report.timestamp, 7 + 3600 * 7);
    assert_eq!(report.energy_level, 3);
    assert_eq!(report.stress_level, 5);
    assert_eq!(report.wake_time, 7);
    assert_eq!(report.input_text, "note");
    assert_eq!(report.current_emotion, Emotion::Curious);
    assert_eq!(report.dominant_emotion, Emotion::Curious);
    assert!(!report.is_calibrated);
    assert_eq!(report.sample_count, 1);

    let json = render_report(&report);
    let v: serde_json::Value = serde_json::from_str(&json).unwrap();
    assert_eq!(v["emotion_data"]["current_emotion"].as_str(), Some("Curious"));
    // Stress is at its maximum, so no discrepancy despite the emotion.
    assert_eq!(v["insight_hints"]["has_discrepancy"].as_bool(), Some(false));
}
