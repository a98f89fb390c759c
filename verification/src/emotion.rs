//! Rule-based emotion classification over calibrated z-scores.

use vstd::prelude::*;

verus! {

/// Main rule threshold: a z-score of 2.0 in micro-units.
pub const Z_THRESHOLD: i64 = 2_000_000;

/// A z-score of 1.0 in micro-units.
pub const Z_UNIT: i64 = 1_000_000;

/// The closed set of emotion labels.
#[derive(Clone, Copy, Debug, PartialEq, Eq, Structural)]
pub enum Emotion {
    Neutral,
    Happy,
    Angry,
    Sad,
    Surprised,
    Curious,
}

impl Emotion {
    pub open spec fn label_spec(&self) -> Seq<char> {
        match *self {
            Emotion::Neutral => "Neutral"@,
            Emotion::Happy => "Happy"@,
            Emotion::Angry => "Angry"@,
            Emotion::Sad => "Sad"@,
            Emotion::Surprised => "Surprised"@,
            Emotion::Curious => "Curious"@,
        }
    }

    /// The fixed display label of this emotion.
    pub fn label(&self) -> (r: &'static str)
        ensures
            r@ == self.label_spec(),
    {
        match *self {
            Emotion::Neutral => "Neutral",
            Emotion::Happy => "Happy",
            Emotion::Angry => "Angry",
            Emotion::Sad => "Sad",
            Emotion::Surprised => "Surprised",
            Emotion::Curious => "Curious",
        }
    }

    /// Fixed tie-break order used by the dominant-emotion summary.
    pub open spec fn order(&self) -> int {
        match *self {
            Emotion::Neutral => 0,
            Emotion::Happy => 1,
            Emotion::Angry => 2,
            Emotion::Sad => 3,
            Emotion::Surprised => 4,
            Emotion::Curious => 5,
        }
    }
}

/// Z-scores of the four features, in micro-units.
#[derive(Clone, Copy, Debug, PartialEq, Eq, Structural)]
pub struct ZScoreVector {
    pub ear: i64,
    pub au1_dist: i64,
    pub au2_dist: i64,
    pub au4_dist: i64,
}

/// The classification rules, evaluated in priority order with the first
/// match winning; narrowed eyes without brow lowering beat strong brow
/// lowering, which beats raised brows, which beat the sadness rule.
pub open spec fn emotion_spec(z: ZScoreVector) -> Emotion {
    if z.ear < -Z_THRESHOLD && z.au4_dist > -Z_UNIT {
        Emotion::Happy
    } else if z.au4_dist < -Z_THRESHOLD {
        Emotion::Angry
    } else if z.au1_dist > Z_THRESHOLD && z.au2_dist > Z_THRESHOLD {
        if z.ear > Z_THRESHOLD {
            Emotion::Surprised
        } else {
            Emotion::Curious
        }
    } else if z.au1_dist > Z_THRESHOLD && z.au4_dist < 0 {
        Emotion::Sad
    } else {
        Emotion::Neutral
    }
}

/// Maps a z-score vector to exactly one emotion label.
pub fn calculate_emotion(z: &ZScoreVector) -> (r: Emotion)
    ensures
        r == emotion_spec(*z),
{
    if z.ear < -Z_THRESHOLD && z.au4_dist > -Z_UNIT {
        Emotion::Happy
    } else if z.au4_dist < -Z_THRESHOLD {
        Emotion::Angry
    } else if z.au1_dist > Z_THRESHOLD && z.au2_dist > Z_THRESHOLD {
        if z.ear > Z_THRESHOLD {
            Emotion::Surprised
        } else {
            Emotion::Curious
        }
    } else if z.au1_dist > Z_THRESHOLD && z.au4_dist < 0 {
        Emotion::Sad
    } else {
        Emotion::Neutral
    }
}

/// How often `e` occurs in `s`.
pub open spec fn count_emotion(s: Seq<Emotion>, e: Emotion) -> nat
    decreases s.len(),
{
    if s.len() == 0 {
        0
    } else {
        count_emotion(s.drop_last(), e) + (if s.last() == e {
            1nat
        } else {
            0nat
        })
    }
}

} // verus!
