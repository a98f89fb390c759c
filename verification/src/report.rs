//! The analysis report: aggregates session state (energy, stress, emotion
//! summary, calibration status) and serializes it as a JSON object.

use vstd::prelude::*;
use vstd::string::StringExecFns;
use vstd::string::StrSliceExecFns;
use crate::emotion::Emotion;
use crate::emotion::count_emotion;
use crate::session::SessionState;
use crate::session::session_energy_spec;
use crate::session::calculate_energy;

verus! {

/// An emotion occurs at most as often as the history is long.
pub proof fn lemma_count_le_len(s: Seq<Emotion>, e: Emotion)
    ensures
        count_emotion(s, e) <= s.len(),
    decreases s.len(),
{
    if s.len() > 0 {
        lemma_count_le_len(s.drop_last(), e);
    }
}

/// The most frequent emotion in `h`; ties go to the emotion earliest in the
/// fixed order, and an empty history yields `Neutral`.
pub open spec fn dominant_spec(h: Seq<Emotion>) -> Emotion {
    let cn = count_emotion(h, Emotion::Neutral);
    let ch = count_emotion(h, Emotion::Happy);
    let ca = count_emotion(h, Emotion::Angry);
    let cs = count_emotion(h, Emotion::Sad);
    let cu = count_emotion(h, Emotion::Surprised);
    let cc = count_emotion(h, Emotion::Curious);
    let (b1, c1) = if ch > cn {
        (Emotion::Happy, ch)
    } else {
        (Emotion::Neutral, cn)
    };
    let (b2, c2) = if ca > c1 {
        (Emotion::Angry, ca)
    } else {
        (b1, c1)
    };
    let (b3, c3) = if cs > c2 {
        (Emotion::Sad, cs)
    } else {
        (b2, c2)
    };
    let (b4, c4) = if cu > c3 {
        (Emotion::Surprised, cu)
    } else {
        (b3, c3)
    };
    let (b5, _c5) = if cc > c4 {
        (Emotion::Curious, cc)
    } else {
        (b4, c4)
    };
    b5
}

/// The dominant emotion really is a mode of the history, and the earliest
/// such emotion in the fixed order.
pub proof fn lemma_dominant_is_mode(h: Seq<Emotion>)
    ensures
        forall|e: Emotion|
            #[trigger] count_emotion(h, e) <= count_emotion(h, dominant_spec(h)),
        forall|e: Emotion|
            e.order() < dominant_spec(h).order() ==> #[trigger] count_emotion(h, e)
                < count_emotion(h, dominant_spec(h)),
{
    assert forall|e: Emotion| #[trigger] count_emotion(h, e) <= count_emotion(
        h,
        dominant_spec(h),
    ) by {
        match e {
            Emotion::Neutral => {},
            Emotion::Happy => {},
            Emotion::Angry => {},
            Emotion::Sad => {},
            Emotion::Surprised => {},
            Emotion::Curious => {},
        }
    }
    assert forall|e: Emotion| e.order() < dominant_spec(h).order() implies #[trigger] count_emotion(
        h,
        e,
    ) < count_emotion(h, dominant_spec(h)) by {
        match e {
            Emotion::Neutral => {},
            Emotion::Happy => {},
            Emotion::Angry => {},
            Emotion::Sad => {},
            Emotion::Surprised => {},
            Emotion::Curious => {},
        }
    }
}

/// The mode of the recent emotion history.
pub fn dominant_emotion(history: &Vec<Emotion>) -> (r: Emotion)
    ensures
        r == dominant_spec(history@),
{
    let mut cn: usize = 0;
    let mut ch: usize = 0;
    let mut ca: usize = 0;
    let mut cs: usize = 0;
    let mut cu: usize = 0;
    let mut cc: usize = 0;
    let mut i: usize = 0;
    let hist_len: usize = history.len();
    while i < hist_len
        invariant
            i <= history@.len(),
            hist_len == history@.len(),
            cn == count_emotion(history@.take(i as int), Emotion::Neutral),
            ch == count_emotion(history@.take(i as int), Emotion::Happy),
            ca == count_emotion(history@.take(i as int), Emotion::Angry),
            cs == count_emotion(history@.take(i as int), Emotion::Sad),
            cu == count_emotion(history@.take(i as int), Emotion::Surprised),
            cc == count_emotion(history@.take(i as int), Emotion::Curious),
        decreases history@.len() - i,
    {
        proof {
            lemma_count_le_len(history@.take(i as int), Emotion::Neutral);
            lemma_count_le_len(history@.take(i as int), Emotion::Happy);
            lemma_count_le_len(history@.take(i as int), Emotion::Angry);
            lemma_count_le_len(history@.take(i as int), Emotion::Sad);
            lemma_count_le_len(history@.take(i as int), Emotion::Surprised);
            lemma_count_le_len(history@.take(i as int), Emotion::Curious);
            assert(history@.take(i + 1).drop_last() =~= history@.take(i as int));
        }
        match history[i] {
            Emotion::Neutral => cn = cn + 1,
            Emotion::Happy => ch = ch + 1,
            Emotion::Angry => ca = ca + 1,
            Emotion::Sad => cs = cs + 1,
            Emotion::Surprised => cu = cu + 1,
            Emotion::Curious => cc = cc + 1,
        }
        i += 1;
    }
    proof {
        assert(history@.take(history@.len() as int) =~= history@);
    }
    let mut best: Emotion = Emotion::Neutral;
    let mut best_count: usize = cn;
    if ch > best_count {
        best = Emotion::Happy;
        best_count = ch;
    }
    if ca > best_count {
        best = Emotion::Angry;
        best_count = ca;
    }
    if cs > best_count {
        best = Emotion::Sad;
        best_count = cs;
    }
    if cu > best_count {
        best = Emotion::Surprised;
        best_count = cu;
    }
    if cc > best_count {
        best = Emotion::Curious;
        best_count = cc;
    }
    best
}

/// The decimal digit character for `d` in 0..=9.
pub open spec fn digit_char(d: nat) -> char {
    if d == 0 {
        '0'
    } else if d == 1 {
        '1'
    } else if d == 2 {
        '2'
    } else if d == 3 {
        '3'
    } else if d == 4 {
        '4'
    } else if d == 5 {
        '5'
    } else if d == 6 {
        '6'
    } else if d == 7 {
        '7'
    } else if d == 8 {
        '8'
    } else {
        '9'
    }
}

/// The decimal digits of `n`, most significant first.
pub open spec fn dec_digits(n: nat) -> Seq<char>
    decreases n,
{
    if n < 10 {
        seq![digit_char(n)]
    } else {
        dec_digits(n / 10).push(digit_char(n % 10))
    }
}

/// The decimal rendering of `n`, with a leading minus for negatives.
pub open spec fn int_chars(n: int) -> Seq<char> {
    if n < 0 {
        seq!['-'] + dec_digits((-n) as nat)
    } else {
        dec_digits(n as nat)
    }
}

/// The lowercase hexadecimal digit character for `d` in 0..=15.
pub open spec fn hex_char(d: nat) -> char {
    if d < 10 {
        digit_char(d)
    } else if d == 10 {
        'a'
    } else if d == 11 {
        'b'
    } else if d == 12 {
        'c'
    } else if d == 13 {
        'd'
    } else if d == 14 {
        'e'
    } else {
        'f'
    }
}

/// JSON escaping of one character: quotes and backslashes get a backslash,
/// control characters become a \u00XX sequence, everything else is itself.
pub open spec fn escape_char(c: char) -> Seq<char> {
    if c == '"' {
        seq!['\\', '"']
    } else if c == '\\' {
        seq!['\\', '\\']
    } else if (c as nat) < 32 {
        seq!['\\', 'u', '0', '0', hex_char((c as nat) / 16), hex_char((c as nat) % 16)]
    } else {
        seq![c]
    }
}

/// JSON escaping of a whole string.
pub open spec fn escaped_chars(s: Seq<char>) -> Seq<char>
    decreases s.len(),
{
    if s.len() == 0 {
        Seq::<char>::empty()
    } else {
        escaped_chars(s.drop_last()) + escape_char(s.last())
    }
}

pub open spec fn bool_chars(b: bool) -> Seq<char> {
    if b {
        "true"@
    } else {
        "false"@
    }
}

/// Relies on String::push from std: appends exactly one character at the
/// end of the string.
#[verifier::external_body]
fn push_char(s: &mut String, c: char)
    ensures
        final(s)@ == old(s)@ + seq![c],
{
    s.push(c);
}

/// Appends the decimal digit character for `d`.
fn push_digit(s: &mut String, d: u64)
    requires
        d <= 9,
    ensures
        final(s)@ == old(s)@ + seq![digit_char(d as nat)],
{
    let c: char = match d {
        0 => '0',
        1 => '1',
        2 => '2',
        3 => '3',
        4 => '4',
        5 => '5',
        6 => '6',
        7 => '7',
        8 => '8',
        _ => '9',
    };
    push_char(s, c);
}

/// Appends the decimal rendering of `n`.
fn append_u64(s: &mut String, n: u64)
    ensures
        final(s)@ == old(s)@ + dec_digits(n as nat),
    decreases n,
{
    if n < 10 {
        push_digit(s, n);
    } else {
        append_u64(s, n / 10);
        push_digit(s, n % 10);
        proof {
            assert(old(s)@ + dec_digits(n as nat / 10) + seq![digit_char(n as nat % 10)] =~= old(
                s,
            )@ + dec_digits(n as nat));
        }
    }
}

/// Appends the decimal rendering of `n`, minus sign included.
fn append_i64(s: &mut String, n: i64)
    ensures
        final(s)@ == old(s)@ + int_chars(n as int),
{
    if n < 0 {
        push_char(s, '-');
        let mag: u64 = ((-(n as i128)) as u64);
        append_u64(s, mag);
        proof {
            assert(old(s)@ + seq!['-'] + dec_digits(mag as nat) =~= old(s)@ + int_chars(n as int));
        }
    } else {
        append_u64(s, n as u64);
    }
}

/// Appends `text` with JSON string escaping applied.
fn append_escaped(s: &mut String, text: &str)
    ensures
        final(s)@ == old(s)@ + escaped_chars(text@),
{
    let n: usize = text.unicode_len();
    let mut i: usize = 0;
    proof {
        assert(text@.take(0) =~= Seq::<char>::empty());
        assert(s@ =~= old(s)@ + escaped_chars(text@.take(0)));
    }
    while i < n
        invariant
            i <= n,
            n == text@.len(),
            s@ == old(s)@ + escaped_chars(text@.take(i as int)),
        decreases n - i,
    {
        let c: char = text.get_char(i);
        proof {
            assert(text@.take(i + 1).drop_last() =~= text@.take(i as int));
            assert(text@.take(i + 1).last() == text@[i as int]);
        }
        if c == '"' {
            s.append("\\\"");
            proof {
                reveal_strlit("\\\"");
                assert("\\\""@ =~= escape_char(c));
            }
        } else if c == '\\' {
            s.append("\\\\");
            proof {
                reveal_strlit("\\\\");
                assert("\\\\"@ =~= escape_char(c));
            }
        } else if (c as u32) < 32 {
            let d: u32 = c as u32;
            s.append("\\u00");
            let hi: u32 = d / 16;
            let lo: u32 = d % 16;
            let hc: char = hex_char_exec(hi);
            let lc: char = hex_char_exec(lo);
            push_char(s, hc);
            push_char(s, lc);
            proof {
                reveal_strlit("\\u00");
                assert("\\u00"@ + seq![hc] + seq![lc] =~= escape_char(c));
            }
        } else {
            push_char(s, c);
            proof {
                assert(seq![c] =~= escape_char(c));
            }
        }
        proof {
            assert(s@ =~= old(s)@ + escaped_chars(text@.take(i + 1)));
        }
        i += 1;
    }
    proof {
        assert(text@.take(n as int) =~= text@);
    }
}

/// A synthesized view of the session at one instant.
#[derive(Clone, Debug)]
pub struct AnalysisReport {
    pub timestamp: i64,
    pub energy_level: i32,
    pub stress_level: i32,
    pub wake_time: i64,
    pub input_text: String,
    pub current_emotion: Emotion,
    pub dominant_emotion: Emotion,
    pub is_calibrated: bool,
    pub sample_count: usize,
}

impl AnalysisReport {
    /// A discrepancy is a non-neutral face on a self-reported minimal
    /// stress level.
    pub open spec fn has_discrepancy(&self) -> bool {
        self.current_emotion != Emotion::Neutral && self.stress_level == 1
    }

    /// Whether the detected emotion contradicts the reported stress level.
    pub fn discrepancy(&self) -> (r: bool)
        ensures
            r == self.has_discrepancy(),
    {
        !matches!(self.current_emotion, Emotion::Neutral) && self.stress_level == 1
    }
}

/// Assembles the report fields from the session state at time `now`.
pub fn build_report(state: &SessionState, text_input: String, now: i64) -> (r: AnalysisReport)
    requires
        state.wf(),
    ensures
        r.timestamp == now,
        r.energy_level == session_energy_spec(state.wake_time, now as int),
        r.stress_level == state.stress_level,
        r.wake_time == (match state.wake_time {
            Some(w) => w,
            None => 0,
        }),
        r.input_text@ == text_input@,
        r.current_emotion == state.current_emotion,
        r.dominant_emotion == dominant_spec(state.emotion_history@),
        r.is_calibrated == state.calibrator.is_calibrated,
        r.sample_count == state.emotion_history@.len(),
{
    let energy: i32 = calculate_energy(state, now);
    let wake: i64 = match state.wake_time {
        Some(w) => w,
        None => 0,
    };
    AnalysisReport {
        timestamp: now,
        energy_level: energy,
        stress_level: state.stress_level,
        wake_time: wake,
        input_text: text_input,
        current_emotion: state.current_emotion,
        dominant_emotion: dominant_emotion(&state.emotion_history),
        is_calibrated: state.calibrator.is_calibrated,
        sample_count: state.emotion_history.len(),
    }
}

/// The exact JSON text of a report.
pub open spec fn json_spec(
    timestamp: int,
    energy: int,
    stress: int,
    wake: int,
    text: Seq<char>,
    current: Emotion,
    dominant: Emotion,
    calibrated: bool,
    samples: nat,
    discrepancy: bool,
) -> Seq<char> {
    "{\"status\":\"success\",\"timestamp\":"@ + int_chars(timestamp)
        + ",\"context\":{\"energy_level\":"@ + int_chars(energy) + ",\"stress_level\":"@
        + int_chars(stress) + ",\"wake_time\":"@ + int_chars(wake) + ",\"input_text\":\""@
        + escaped_chars(text) + "\"},\"emotion_data\":{\"current_emotion\":\""@
        + current.label_spec() + "\",\"dominant_emotion_last_Session\":\""@ + dominant.label_spec()
        + "\",\"is_calibrated\":"@ + bool_chars(calibrated) + ",\"sample_count\":"@ + dec_digits(
        samples,
    ) + "},\"insight_hints\":{\"has_discrepancy\":"@ + bool_chars(discrepancy) + "}}"@
}

/// The JSON text of `r`, exactly as `json_spec` lays it out.
pub open spec fn report_json_spec(r: AnalysisReport) -> Seq<char> {
    json_spec(
        r.timestamp as int,
        r.energy_level as int,
        r.stress_level as int,
        r.wake_time as int,
        r.input_text@,
        r.current_emotion,
        r.dominant_emotion,
        r.is_calibrated,
        r.sample_count as nat,
        r.has_discrepancy(),
    )
}

/// Serializes a report as a JSON object.
pub fn render_report(r: &AnalysisReport) -> (s: String)
    ensures
        s@ == report_json_spec(*r),
{
    let mut s: String = String::new();
    s.append("{\"status\":\"success\",\"timestamp\":");
    append_i64(&mut s, r.timestamp);
    s.append(",\"context\":{\"energy_level\":");
    append_i64(&mut s, r.energy_level as i64);
    s.append(",\"stress_level\":");
    append_i64(&mut s, r.stress_level as i64);
    s.append(",\"wake_time\":");
    append_i64(&mut s, r.wake_time);
    s.append(",\"input_text\":\"");
    append_escaped(&mut s, r.input_text.as_str());
    s.append("\"},\"emotion_data\":{\"current_emotion\":\"");
    s.append(r.current_emotion.label());
    s.append("\",\"dominant_emotion_last_Session\":\"");
    s.append(r.dominant_emotion.label());
    s.append("\",\"is_calibrated\":");
    append_bool(&mut s, r.is_calibrated);
    s.append(",\"sample_count\":");
    append_u64(&mut s, r.sample_count as u64);
    s.append("},\"insight_hints\":{\"has_discrepancy\":");
    append_bool(&mut s, r.discrepancy());
    s.append("}}");
    proof {
        assert(s@ =~= report_json_spec(*r));
    }
    s
}

fn append_bool(s: &mut String, b: bool)
    ensures
        final(s)@ == old(s)@ + bool_chars(b),
{
    if b {
        s.append("true");
    } else {
        s.append("false");
    }
}

/// Formats the whole session as the JSON analysis answer at time `now`.
pub fn generate_analysis_json(state: &SessionState, text_input: String, now: i64) -> (r: String)
    requires
        state.wf(),
    ensures
        r@ == json_spec(
            now as int,
            session_energy_spec(state.wake_time, now as int),
            state.stress_level as int,
            (match state.wake_time {
                Some(w) => w as int,
                None => 0,
            }),
            text_input@,
            state.current_emotion,
            dominant_spec(state.emotion_history@),
            state.calibrator.is_calibrated,
            state.emotion_history@.len(),
            state.current_emotion != Emotion::Neutral && state.stress_level == 1,
        ),
{
    let report: AnalysisReport = build_report(state, text_input, now);
    render_report(&report)
}

/// The lowercase hexadecimal digit character for `d`.
fn hex_char_exec(d: u32) -> (r: char)
    requires
        d <= 15,
    ensures
        r == hex_char(d as nat),
{
    match d {
        0 => '0',
        1 => '1',
        2 => '2',
        3 => '3',
        4 => '4',
        5 => '5',
        6 => '6',
        7 => '7',
        8 => '8',
        9 => '9',
        10 => 'a',
        11 => 'b',
        12 => 'c',
        13 => 'd',
        14 => 'e',
        _ => 'f',
    }
}

} // verus!
