use recemotion::features::FeatureVector;
use recemotion::features::GeometricFeatureExtractor;
use recemotion::landmarks::Point3D;
use recemotion::landmarks::BROW_LEFT_INNER;
use recemotion::landmarks::BROW_RIGHT_INNER;
use recemotion::landmarks::LEFT_EYE_BOTTOM_INNER;
use recemotion::landmarks::LEFT_EYE_BOTTOM_OUTER;
use recemotion::landmarks::LEFT_EYE_INNER;
use recemotion::landmarks::LEFT_EYE_TOP_INNER;
use recemotion::landmarks::LEFT_EYE_TOP_OUTER;
use recemotion::landmarks::RIGHT_EYE_CORNER;

// Coordinates are fixed-point micro-units: 1.0 == 1_000_000.

fn zero_frame() -> Vec<Point3D> {
    let mut landmarks = Vec::new();
    for _ in 0..468 {
        landmarks.push(Point3D::new(0, 0, 0));
    }
    landmarks
}

#[test]
fn test_feature_extraction() {
    let landmarks = zero_frame();

    let extractor = GeometricFeatureExtractor::new();
    let feats = extractor.extract(&landmarks);
    assert!(feats.is_some());
    let map = feats.unwrap();
    // A fully degenerate frame yields all-zero measurements.
    assert_eq!(map.ear, 0);
    assert_eq!(map.au1_dist, 0);
}

#[test]
fn extraction_rejects_short_frames() {
    let mut landmarks = zero_frame();
    landmarks.truncate(467);
    let extractor = GeometricFeatureExtractor::new();
    assert!(extractor.extract(&landmarks).is_none());
}

#[test]
fn euclidean_distance_is_exact_on_pythagorean_triples() {
    let a = Point3D::new(0, 0, 0);
    let b = Point3D::new(3_000_000, 4_000_000, 0);
    assert_eq!(a.euclidean_dist(&b), 5_000_000);
}

#[test]
fn euclidean_distance_rounds_down() {
    let a = Point3D::new(0, 0, 0);
    let b = Point3D::new(1_000_000, 1_000_000, 0);
    // sqrt(2) = 1.41421356..., floored at micro precision.
    assert_eq!(a.euclidean_dist(&b), 1_414_213);
}

#[test]
fn eye_aspect_ratio_and_brow_features_have_exact_values() {
    let mut landmarks = zero_frame();
    // Eye corners two units apart: the IPD scale is 2.0.
    landmarks[RIGHT_EYE_CORNER] = Point3D::new(2_000_000, 0, 0);
    // Left eye contour: width 1.0, both lid gaps 0.4.
    landmarks[LEFT_EYE_INNER] = Point3D::new(1_000_000, 0, 0);
    landmarks[LEFT_EYE_TOP_OUTER] = Point3D::new(250_000, 200_000, 0);
    landmarks[LEFT_EYE_BOTTOM_OUTER] = Point3D::new(250_000, -200_000, 0);
    landmarks[LEFT_EYE_TOP_INNER] = Point3D::new(750_000, 200_000, 0);
    landmarks[LEFT_EYE_BOTTOM_INNER] = Point3D::new(750_000, -200_000, 0);
    // Inner brows one unit apart.
    landmarks[BROW_RIGHT_INNER] = Point3D::new(500_000, 0, 0);
    landmarks[BROW_LEFT_INNER] = Point3D::new(1_500_000, 0, 0);

    let extractor = GeometricFeatureExtractor::new();
    let feats = extractor.extract(&landmarks).unwrap();

    // Left eye: (0.4 + 0.4) / (2 * 1.0) = 0.4; right eye is degenerate
    // with ratio 0; the average is 0.2.
    assert_eq!(feats.ear, 200_000);
    // AU4: brow separation 1.0 over IPD 2.0 = 0.5.
    assert_eq!(feats.au4_dist, 500_000);
    // AU1: brow-to-nose-root distances 1.5 and 0.5 average to 1.0,
    // over IPD 2.0 = 0.5.
    assert_eq!(feats.au1_dist, 500_000);
    // AU2: outer brows sit on the nose root, distance 0.
    assert_eq!(feats.au2_dist, 0);
}

#[test]
fn feature_vector_clamps_into_range() {
    let f = FeatureVector::new(-5, 4_000_000_000_001, 7, 0);
    assert_eq!(f.ear, 0);
    assert_eq!(f.au1_dist, 4_000_000_000_000);
    assert_eq!(f.au2_dist, 7);
    assert_eq!(f.au4_dist, 0);
}

#[test]
fn point_coordinates_clamp_into_range() {
    let p = Point3D::new(i64::MAX, i64::MIN, 12);
    assert_eq!(p.x, 1_000_000_000_000);
    assert_eq!(p.y, -1_000_000_000_000);
    assert_eq!(p.z, 12);
}
