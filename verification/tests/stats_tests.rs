use recemotion::calibration::RobustStatistics;
use recemotion::calibration::StatisticalCalibrator;
use recemotion::features::FeatureKey;
use recemotion::features::FeatureVector;

// Feature values are fixed-point micro-units: 1.0 == 1_000_000.

#[test]
fn test_robust_statistics() {
    // Odd length: sorted 1, 2, 3 -> median 2.
    let v1 = vec![1_000_000i64, 3_000_000, 2_000_000];
    assert_eq!(RobustStatistics::compute_median(&v1), 2_000_000);

    // Even length: sorted 1, 2, 3, 4 -> median 2.5.
    let v2 = vec![1_000_000i64, 4_000_000, 3_000_000, 2_000_000];
    assert_eq!(RobustStatistics::compute_median(&v2), 2_500_000);

    // MAD check: deviations of v1 from its median are 1, 1, 0, so the
    // median deviation is 1 and sigma is exactly the 1.4826 factor.
    let stats = RobustStatistics::compute_robust_stats(&v1);
    assert_eq!(stats.median, 2_000_000);
    assert_eq!(stats.sigma, 1_482_600);
}

#[test]
fn test_calibration_logic() {
    let mut cal = StatisticalCalibrator::new();

    let f1 = FeatureVector::new(10_000_000, 10_000_000, 10_000_000, 10_000_000);
    let f2 = FeatureVector::new(12_000_000, 12_000_000, 12_000_000, 12_000_000);
    let f3 = FeatureVector::new(11_000_000, 11_000_000, 11_000_000, 11_000_000);

    cal.add_sample(f1);
    cal.add_sample(f2);
    cal.add_sample(f3);

    assert!(cal.finalize_calibration());
    assert!(cal.is_calibrated);

    let stats = cal.stats.unwrap();
    assert_eq!(stats.au4_dist.median, 11_000_000);
    assert_eq!(cal.get_z_score(FeatureKey::Au4Dist, 11_000_000), 0);
}

#[test]
fn median_of_empty_is_zero() {
    assert_eq!(RobustStatistics::compute_median(&Vec::new()), 0);
}

#[test]
fn sigma_is_floored_for_constant_samples() {
    // All deviations are 0, so sigma falls back to the 1e-6 floor: 1 micro.
    let v = vec![5_000_000i64, 5_000_000, 5_000_000];
    let stats = RobustStatistics::compute_robust_stats(&v);
    assert_eq!(stats.median, 5_000_000);
    assert_eq!(stats.sigma, 1);
}

#[test]
fn z_score_is_zero_before_calibration() {
    let cal = StatisticalCalibrator::new();
    assert_eq!(cal.get_z_score(FeatureKey::Ear, 3_000_000), 0);
}

#[test]
fn z_score_scales_by_sigma() {
    let mut cal = StatisticalCalibrator::new();
    cal.add_sample(FeatureVector::new(1_000_000, 1_000_000, 1_000_000, 1_000_000));
    cal.add_sample(FeatureVector::new(2_000_000, 2_000_000, 2_000_000, 2_000_000));
    cal.add_sample(FeatureVector::new(3_000_000, 3_000_000, 3_000_000, 3_000_000));
    assert!(cal.finalize_calibration());
    // median 2.0, sigma 1.4826: z(3.0) = 1.0 / 1.4826 = 0.6744908...
    assert_eq!(cal.get_z_score(FeatureKey::Ear, 3_000_000), 674_490);
    // Negative side rounds toward zero symmetrically.
    assert_eq!(cal.get_z_score(FeatureKey::Ear, 1_000_000), -674_490);
}

#[test]
fn finalize_without_samples_fails() {
    let mut cal = StatisticalCalibrator::new();
    assert!(!cal.finalize_calibration());
    assert!(!cal.is_calibrated);
    assert!(cal.stats.is_none());
}
