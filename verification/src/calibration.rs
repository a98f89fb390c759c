//! Robust per-user calibration: median / MAD statistics over accumulated
//! feature samples, and z-score queries against the finalized baseline.

use vstd::prelude::*;
use vstd::relations::sorted_by;
use vstd::relations::total_ordering;
use vstd::seq_lib::lemma_sorted_unique;
use vstd::seq_lib::to_multiset_insert;
use vstd::seq_lib::group_to_multiset_ensures;
use crate::features::FeatureKey;
use crate::features::FeatureVector;
use crate::features::FEAT_LIMIT;
use crate::features::SCALE;
use crate::features::feat_in_range;

verus! {

/// Numerator of the MAD-to-sigma consistency factor 1.4826.
pub const SIGMA_NUM: i64 = 14826;

/// Denominator of the MAD-to-sigma consistency factor 1.4826.
pub const SIGMA_DEN: i64 = 10000;

/// Smallest allowed sigma: one micro-unit, the fixed-point epsilon.
pub const SIGMA_FLOOR: i64 = 1;

/// Robust baseline of one feature: median and MAD-derived scale.
#[derive(Clone, Copy, Debug, PartialEq, Eq, Structural)]
pub struct FeatureStats {
    pub median: i64,
    pub sigma: i64,
}

impl FeatureStats {
    pub open spec fn wf(&self) -> bool {
        feat_in_range(self.median) && SIGMA_FLOOR <= self.sigma
    }
}

/// The ordering used by every sort in this module.
pub open spec fn i64_leq() -> spec_fn(i64, i64) -> bool {
    |x: i64, y: i64| x <= y
}

pub proof fn lemma_i64_leq_total()
    ensures
        total_ordering(i64_leq()),
{
}

pub open spec fn sorted_spec(s: Seq<i64>) -> Seq<i64> {
    s.sort_by(i64_leq())
}

pub open spec fn values_in_range(s: Seq<i64>) -> bool {
    forall|i: int| 0 <= i < s.len() ==> feat_in_range(#[trigger] s[i])
}

/// Median under the sorted-middle rule; an even count averages the two middle
/// elements (rounding the average toward zero on nonnegative data); an empty
/// sequence has median 0.
pub open spec fn median_spec(s: Seq<i64>) -> int {
    if s.len() == 0 {
        0
    } else {
        let t = sorted_spec(s);
        let mid = s.len() as int / 2;
        if s.len() % 2 == 1 {
            t[mid] as int
        } else {
            (t[mid - 1] + t[mid]) / 2
        }
    }
}

/// Absolute deviations of each value from `m`.
pub open spec fn deviations_spec(s: Seq<i64>, m: int) -> Seq<i64> {
    s.map_values(|v: i64| (if v >= m { v - m } else { m - v }) as i64)
}

/// Median absolute deviation from the median.
pub open spec fn mad_spec(s: Seq<i64>) -> int {
    median_spec(deviations_spec(s, median_spec(s)))
}

/// Robust scale: 1.4826 * MAD (rounded down), floored at `SIGMA_FLOOR`.
pub open spec fn sigma_spec(s: Seq<i64>) -> int {
    let raw = SIGMA_NUM * mad_spec(s) / (SIGMA_DEN as int);
    if raw < SIGMA_FLOOR {
        SIGMA_FLOOR as int
    } else {
        raw
    }
}

/// Signed division that rounds toward zero, as the z-score quotient does.
pub open spec fn div_to_zero(a: int, b: int) -> int {
    if a >= 0 {
        a / b
    } else {
        -((-a) / b)
    }
}

/// Z-score of `value` against one feature's baseline, in micro-units.
pub open spec fn zscore_spec(stats: FeatureStats, value: i64) -> int {
    div_to_zero((value - stats.median) * SCALE, stats.sigma as int)
}

/// Against any baseline, the median itself scores exactly zero.
pub proof fn lemma_zscore_at_median(stats: FeatureStats)
    requires
        stats.wf(),
    ensures
        zscore_spec(stats, stats.median) == 0,
{
    assert((stats.median - stats.median) * SCALE == 0);
    assert(0int / (stats.sigma as int) == 0) by (nonlinear_arith)
        requires
            stats.sigma >= 1,
    ;
}

/// Pure statistics helpers shared by the calibrator.
pub struct RobustStatistics;

impl RobustStatistics {
    /// Median of a value list: the sorted middle element, or the average of
    /// the two middle elements for an even count; 0 for an empty list.
    pub fn compute_median(values: &Vec<i64>) -> (r: i64)
        requires
            values_in_range(values@),
        ensures
            r == median_spec(values@),
            feat_in_range(r),
    {
        if values.len() == 0 {
            return 0;
        }
        let sorted: Vec<i64> = sort_values(values);
        proof {
            lemma_i64_leq_total();
            values@.lemma_sort_by_ensures(i64_leq());
            lemma_sorted_unique(sorted@, sorted_spec(values@), i64_leq());
            broadcast use group_to_multiset_ensures;

        }
        let len: usize = sorted.len();
        if len % 2 == 1 {
            let r: i64 = sorted[len / 2];
            proof {
                assert(values@.to_multiset().contains(sorted@[len as int / 2]));
            }
            r
        } else {
            let a: i64 = sorted[len / 2 - 1];
            let b: i64 = sorted[len / 2];
            proof {
                assert(values@.to_multiset().contains(sorted@[len as int / 2 - 1]));
                assert(values@.to_multiset().contains(sorted@[len as int / 2]));
            }
            (((a as u64) + (b as u64)) / 2) as i64
        }
    }

    /// Median and MAD-based sigma of a value list.
    pub fn compute_robust_stats(values: &Vec<i64>) -> (r: FeatureStats)
        requires
            values_in_range(values@),
        ensures
            r.median == median_spec(values@),
            r.sigma == sigma_spec(values@),
            r.wf(),
    {
        let median: i64 = Self::compute_median(values);

        let mut abs_devs: Vec<i64> = Vec::new();
        let mut i: usize = 0;
        while i < values.len()
            invariant
                i <= values@.len(),
                values_in_range(values@),
                median == median_spec(values@),
                feat_in_range(median),
                abs_devs@ =~= deviations_spec(values@.take(i as int), median as int),
            decreases values@.len() - i,
        {
            let v: i64 = values[i];
            let d: i64 = if v >= median {
                v - median
            } else {
                median - v
            };
            abs_devs.push(d);
            proof {
                assert(values@.take(i + 1).drop_last() =~= values@.take(i as int));
                assert(abs_devs@ =~= deviations_spec(values@.take(i + 1), median as int));
            }
            i += 1;
        }
        proof {
            assert(values@.take(values@.len() as int) =~= values@);
        }

        let mad: i64 = Self::compute_median(&abs_devs);
        let prod: i64 = SIGMA_NUM * mad;
        let mut sigma: i64 = ((prod as u64) / (SIGMA_DEN as u64)) as i64;
        if sigma < SIGMA_FLOOR {
            sigma = SIGMA_FLOOR;
        }
        FeatureStats { median, sigma }
    }
}

/// Robust baselines for all four features.
#[derive(Clone, Copy, Debug, PartialEq, Eq, Structural)]
pub struct FeatureStatsSet {
    pub ear: FeatureStats,
    pub au1_dist: FeatureStats,
    pub au2_dist: FeatureStats,
    pub au4_dist: FeatureStats,
}

impl FeatureStatsSet {
    pub open spec fn wf(&self) -> bool {
        self.ear.wf() && self.au1_dist.wf() && self.au2_dist.wf() && self.au4_dist.wf()
    }

    pub open spec fn spec_get(&self, key: FeatureKey) -> FeatureStats {
        match key {
            FeatureKey::Ear => self.ear,
            FeatureKey::Au1Dist => self.au1_dist,
            FeatureKey::Au2Dist => self.au2_dist,
            FeatureKey::Au4Dist => self.au4_dist,
        }
    }

    /// The baseline stored under `key`.
    pub fn get(&self, key: FeatureKey) -> (r: FeatureStats)
        ensures
            r == self.spec_get(key),
    {
        match key {
            FeatureKey::Ear => self.ear,
            FeatureKey::Au1Dist => self.au1_dist,
            FeatureKey::Au2Dist => self.au2_dist,
            FeatureKey::Au4Dist => self.au4_dist,
        }
    }
}

/// The values all samples hold under `key`, in sample order.
pub open spec fn column_spec(samples: Seq<FeatureVector>, key: FeatureKey) -> Seq<i64> {
    samples.map_values(|f: FeatureVector| f.spec_get(key))
}

pub open spec fn stats_of_column(samples: Seq<FeatureVector>, key: FeatureKey) -> FeatureStats {
    FeatureStats {
        median: median_spec(column_spec(samples, key)) as i64,
        sigma: sigma_spec(column_spec(samples, key)) as i64,
    }
}

/// The full baseline a finalization derives from the samples.
pub open spec fn stats_set_spec(samples: Seq<FeatureVector>) -> FeatureStatsSet {
    FeatureStatsSet {
        ear: stats_of_column(samples, FeatureKey::Ear),
        au1_dist: stats_of_column(samples, FeatureKey::Au1Dist),
        au2_dist: stats_of_column(samples, FeatureKey::Au2Dist),
        au4_dist: stats_of_column(samples, FeatureKey::Au4Dist),
    }
}

pub open spec fn samples_wf(samples: Seq<FeatureVector>) -> bool {
    forall|i: int| 0 <= i < samples.len() ==> (#[trigger] samples[i]).wf()
}

/// Accumulates baseline samples, derives robust statistics once, and answers
/// z-score queries afterwards.
#[derive(Clone, Debug)]
pub struct StatisticalCalibrator {
    pub samples: Vec<FeatureVector>,
    pub stats: Option<FeatureStatsSet>,
    pub is_calibrated: bool,
}

impl StatisticalCalibrator {
    pub open spec fn wf(&self) -> bool {
        &&& samples_wf(self.samples@)
        &&& (self.is_calibrated <==> self.stats is Some)
        &&& (self.stats matches Some(s) ==> s.wf())
    }

    /// Z-score of `value` under `key`: 0 before calibration, otherwise the
    /// scaled deviation from the feature's median.
    pub open spec fn zscore_of(&self, key: FeatureKey, value: i64) -> int {
        match self.stats {
            Some(s) => zscore_spec(s.spec_get(key), value),
            None => 0,
        }
    }

    /// A fresh, uncalibrated calibrator with no samples.
    pub fn new() -> (r: Self)
        ensures
            r.samples@.len() == 0,
            r.stats is None,
            !r.is_calibrated,
            r.wf(),
    {
        StatisticalCalibrator { samples: Vec::new(), stats: None, is_calibrated: false }
    }

    /// Appends one sample to the buffer.
    pub fn add_sample(&mut self, feats: FeatureVector)
        requires
            old(self).wf(),
            feats.wf(),
        ensures
            final(self).samples@ == old(self).samples@.push(feats),
            final(self).stats == old(self).stats,
            final(self).is_calibrated == old(self).is_calibrated,
            final(self).wf(),
    {
        self.samples.push(feats);
    }

    /// Derives the per-feature baselines from the samples gathered so far.
    /// Fails (and changes nothing) only when no samples exist.
    pub fn finalize_calibration(&mut self) -> (r: bool)
        requires
            old(self).wf(),
        ensures
            r == (old(self).samples@.len() > 0),
            final(self).samples@ == old(self).samples@,
            old(self).samples@.len() == 0 ==> *final(self) == *old(self),
            old(self).samples@.len() > 0 ==> final(self).stats == Some(
                stats_set_spec(old(self).samples@),
            ) && final(self).is_calibrated,
            final(self).wf(),
    {
        if self.samples.len() == 0 {
            return false;
        }
        let ear: FeatureStats = RobustStatistics::compute_robust_stats(
            &collect_column(&self.samples, FeatureKey::Ear),
        );
        let au1: FeatureStats = RobustStatistics::compute_robust_stats(
            &collect_column(&self.samples, FeatureKey::Au1Dist),
        );
        let au2: FeatureStats = RobustStatistics::compute_robust_stats(
            &collect_column(&self.samples, FeatureKey::Au2Dist),
        );
        let au4: FeatureStats = RobustStatistics::compute_robust_stats(
            &collect_column(&self.samples, FeatureKey::Au4Dist),
        );
        self.stats = Some(FeatureStatsSet { ear, au1_dist: au1, au2_dist: au2, au4_dist: au4 });
        self.is_calibrated = true;
        true
    }

    /// Z-score of `value` for `key` against the finalized baseline; 0 when
    /// the calibrator has not been finalized.
    pub fn get_z_score(&self, key: FeatureKey, value: i64) -> (r: i64)
        requires
            self.wf(),
            feat_in_range(value),
        ensures
            r == self.zscore_of(key, value),
    {
        if !self.is_calibrated {
            return 0;
        }
        let stats: FeatureStats = match &self.stats {
            Some(s) => s.get(key),
            None => FeatureStats { median: 0, sigma: SIGMA_FLOOR },
        };
        let diff: i64 = value - stats.median;
        let num: i64 = diff * SCALE;
        if num >= 0 {
            (((num as u64)) / (stats.sigma as u64)) as i64
        } else {
            let q: u64 = ((-num) as u64) / (stats.sigma as u64);
            -(q as i64)
        }
    }
}

/// Gathers the values every sample holds under `key`.
fn collect_column(samples: &Vec<FeatureVector>, key: FeatureKey) -> (r: Vec<i64>)
    requires
        samples_wf(samples@),
    ensures
        r@ == column_spec(samples@, key),
        values_in_range(r@),
{
    let mut r: Vec<i64> = Vec::new();
    let mut i: usize = 0;
    proof {
        assert(r@ =~= column_spec(samples@.take(0), key));
    }
    while i < samples.len()
        invariant
            i <= samples@.len(),
            samples_wf(samples@),
            r@ =~= column_spec(samples@.take(i as int), key),
            values_in_range(r@),
        decreases samples@.len() - i,
    {
        let f: FeatureVector = samples[i];
        r.push(f.get(key));
        proof {
            assert(r@ =~= column_spec(samples@.take(i + 1), key));
        }
        i += 1;
    }
    proof {
        assert(samples@.take(samples@.len() as int) =~= samples@);
    }
    r
}

/// Insertion sort; the result is the unique sorted permutation of the input.
fn sort_values(values: &Vec<i64>) -> (out: Vec<i64>)
    ensures
        out@.to_multiset() == values@.to_multiset(),
        sorted_by(out@, i64_leq()),
        out@.len() == values@.len(),
{
    let mut out: Vec<i64> = Vec::new();
    let mut i: usize = 0;
    proof {
        assert(values@.take(0) =~= Seq::<i64>::empty());
        assert(out@.to_multiset() =~= values@.take(0).to_multiset());
    }
    while i < values.len()
        invariant
            i <= values@.len(),
            out@.len() == i,
            out@.to_multiset() == values@.take(i as int).to_multiset(),
            sorted_by(out@, i64_leq()),
        decreases values@.len() - i,
    {
        let x: i64 = values[i];
        let mut j: usize = 0;
        while j < out.len() && out[j] <= x
            invariant
                j <= out@.len(),
                forall|k: int| 0 <= k < j ==> out@[k] <= x,
                out@.len() == i,
                out@.to_multiset() == values@.take(i as int).to_multiset(),
                sorted_by(out@, i64_leq()),
            decreases out@.len() - j,
        {
            j += 1;
        }
        let ghost prev = out@;
        out.insert(j, x);
        proof {
            to_multiset_insert(prev, j as int, x);
            assert(values@.take(i + 1).drop_last() =~= values@.take(i as int));
            assert(values@.take(i + 1).to_multiset() =~= values@.take(
                i as int,
            ).to_multiset().insert(x)) by {
                broadcast use group_to_multiset_ensures;

                assert(values@.take(i + 1) =~= values@.take(i as int).push(x));
            }
            assert forall|m: int, n: int| 0 <= m < n < out@.len() implies i64_leq()(
                out@[m],
                out@[n],
            ) by {
                if n < j {
                } else if m >= j + 1 {
                } else if m < j && n == j {
                } else if m == j {
                    assert(out@[n] == prev[n - 1]);
                    if j < prev.len() {
                        assert(prev[j as int] > x);
                        if n - 1 > j {
                            assert(i64_leq()(prev[j as int], prev[n - 1]));
                        }
                    }
                } else {
                    assert(out@[m] == prev[m]);
                    assert(out@[n] == prev[n - 1]);
                    if j < prev.len() && m < j {
                        assert(prev[j as int] > x);
                    }
                    if m < n - 1 {
                        assert(i64_leq()(prev[m], prev[n - 1]));
                    }
                }
            }
        }
        i += 1;
    }
    proof {
        assert(values@.take(values@.len() as int) =~= values@);
    }
    out
}

} // verus!
