//! Face-mesh topology and 3D geometry primitives.
//!
//! Landmark indices follow the fixed 468-point face-mesh layout. Coordinates
//! are fixed-point integers in micro-units and are clamped to
//! [-COORD_LIMIT, COORD_LIMIT], which bounds every distance computed here.

use vstd::prelude::*;

verus! {

/// Largest coordinate magnitude, in micro-units (one million source units).
pub const COORD_LIMIT: i64 = 1_000_000_000_000;

/// Exclusive upper bound on any point-to-point distance: the diameter of the
/// coordinate cube is sqrt(3) * 2 * COORD_LIMIT < 3.5e12.
pub const DIST_BOUND: i64 = 3_500_000_000_000;

// Left eye contour: outer corner, two upper lid points, inner corner,
// two lower lid points.
pub const LEFT_EYE_OUTER: usize = 33;
pub const LEFT_EYE_TOP_OUTER: usize = 160;
pub const LEFT_EYE_TOP_INNER: usize = 158;
pub const LEFT_EYE_INNER: usize = 133;
pub const LEFT_EYE_BOTTOM_INNER: usize = 153;
pub const LEFT_EYE_BOTTOM_OUTER: usize = 144;

// Right eye contour, in the same canonical order.
pub const RIGHT_EYE_INNER: usize = 362;
pub const RIGHT_EYE_TOP_INNER: usize = 385;
pub const RIGHT_EYE_TOP_OUTER: usize = 387;
pub const RIGHT_EYE_OUTER: usize = 263;
pub const RIGHT_EYE_BOTTOM_OUTER: usize = 373;
pub const RIGHT_EYE_BOTTOM_INNER: usize = 380;

pub const BROW_LEFT_INNER: usize = 336;
pub const BROW_RIGHT_INNER: usize = 107;
pub const NOSE_ROOT: usize = 6;
pub const BROW_LEFT_OUTER: usize = 296;
pub const BROW_RIGHT_OUTER: usize = 66;

/// The two outer eye corners whose distance serves as the IPD scale.
pub const LEFT_EYE_CORNER: usize = 33;
pub const RIGHT_EYE_CORNER: usize = 263;

/// A 3D landmark point in micro-unit fixed-point coordinates.
#[derive(Clone, Copy, Debug, PartialEq, Eq, Structural)]
pub struct Point3D {
    pub x: i64,
    pub y: i64,
    pub z: i64,
}

pub open spec fn coord_in_range(v: i64) -> bool {
    -COORD_LIMIT <= v <= COORD_LIMIT
}

pub open spec fn clamp_coord_spec(v: i64) -> i64 {
    if v < -COORD_LIMIT {
        (-COORD_LIMIT) as i64
    } else if v > COORD_LIMIT {
        COORD_LIMIT
    } else {
        v
    }
}

/// Clamps a raw coordinate into the supported range.
pub fn clamp_coord(v: i64) -> (r: i64)
    ensures
        r == clamp_coord_spec(v),
        coord_in_range(r),
{
    if v < -COORD_LIMIT {
        -COORD_LIMIT
    } else if v > COORD_LIMIT {
        COORD_LIMIT
    } else {
        v
    }
}

/// The point a constructor builds from raw micro-unit coordinates.
pub open spec fn point_spec(x: i64, y: i64, z: i64) -> Point3D {
    Point3D { x: clamp_coord_spec(x), y: clamp_coord_spec(y), z: clamp_coord_spec(z) }
}

impl Point3D {
    pub open spec fn wf(&self) -> bool {
        coord_in_range(self.x) && coord_in_range(self.y) && coord_in_range(self.z)
    }

    /// Builds a point, clamping each coordinate into the supported range.
    pub fn new(x: i64, y: i64, z: i64) -> (r: Self)
        ensures
            r == point_spec(x, y, z),
            r.wf(),
    {
        Point3D { x: clamp_coord(x), y: clamp_coord(y), z: clamp_coord(z) }
    }

    /// Euclidean distance, rounded down to a whole number of micro-units.
    pub fn euclidean_dist(&self, other: &Point3D) -> (r: i64)
        requires
            self.wf(),
            other.wf(),
        ensures
            r == dist_spec(*self, *other),
            0 <= r < DIST_BOUND,
    {
        let dx: i64 = self.x - other.x;
        let dy: i64 = self.y - other.y;
        let dz: i64 = self.z - other.z;
        proof {
            lemma_square_bound(dx as int, 2 * COORD_LIMIT as int);
            lemma_square_bound(dy as int, 2 * COORD_LIMIT as int);
            lemma_square_bound(dz as int, 2 * COORD_LIMIT as int);
        }
        let sq: i128 = (dx as i128) * (dx as i128) + (dy as i128) * (dy as i128) + (dz as i128)
            * (dz as i128);
        let n: u128 = sq as u128;
        let r: u64 = isqrt_dist(n);
        proof {
            lemma_floor_sqrt_unique(n as nat, r as nat);
        }
        r as i64
    }
}

/// Sum of squared coordinate differences.
pub open spec fn sq_dist(p: Point3D, q: Point3D) -> int {
    (p.x - q.x) * (p.x - q.x) + (p.y - q.y) * (p.y - q.y) + (p.z - q.z) * (p.z - q.z)
}

/// `r` is the square root of `n`, rounded down.
pub open spec fn is_floor_sqrt(n: nat, r: nat) -> bool {
    r * r <= n < (r + 1) * (r + 1)
}

/// The square root of `n`, rounded down.
pub open spec fn floor_sqrt(n: nat) -> nat {
    choose|r: nat| is_floor_sqrt(n, r)
}

/// Distance between two points: the floor square root of the squared distance.
pub open spec fn dist_spec(p: Point3D, q: Point3D) -> int {
    floor_sqrt(sq_dist(p, q) as nat) as int
}

/// If |a| <= b then a * a <= b * b.
pub proof fn lemma_square_bound(a: int, b: int)
    requires
        -b <= a <= b,
    ensures
        0 <= a * a <= b * b,
{
    assert(0 <= a * a <= b * b) by (nonlinear_arith)
        requires
            -b <= a <= b,
    ;
}

/// A floor square root exists for every natural number.
pub proof fn lemma_floor_sqrt_exists(n: nat)
    ensures
        is_floor_sqrt(n, floor_sqrt(n)),
    decreases n,
{
    if n == 0 {
        assert(is_floor_sqrt(0, 0)) by {
            assert(0nat * 0nat == 0) by (nonlinear_arith);
            assert((0nat + 1) * (0nat + 1) == 1) by (nonlinear_arith);
        }
    } else {
        lemma_floor_sqrt_exists((n - 1) as nat);
        let r = floor_sqrt((n - 1) as nat);
        if n < (r + 1) * (r + 1) {
            assert(is_floor_sqrt(n, r));
        } else {
            assert(n == (r + 1) * (r + 1));
            assert((r + 1) * (r + 1) < (r + 2) * (r + 2)) by (nonlinear_arith);
            assert(is_floor_sqrt(n, r + 1));
        }
    }
}

/// The floor square root is unique.
pub proof fn lemma_floor_sqrt_unique(n: nat, r: nat)
    requires
        is_floor_sqrt(n, r),
    ensures
        r == floor_sqrt(n),
{
    lemma_floor_sqrt_exists(n);
    let r2 = floor_sqrt(n);
    if r < r2 {
        assert((r + 1) * (r + 1) <= r2 * r2) by (nonlinear_arith)
            requires
                r + 1 <= r2,
        ;
    }
    if r2 < r {
        assert((r2 + 1) * (r2 + 1) <= r * r) by (nonlinear_arith)
            requires
                r2 + 1 <= r,
        ;
    }
}

/// Floor square root of a squared distance, by binary search.
fn isqrt_dist(n: u128) -> (r: u64)
    requires
        n <= 12_250_000_000_000_000_000_000_000u128 - 1,
    ensures
        is_floor_sqrt(n as nat, r as nat),
        r < 3_500_000_000_000u64,
{
    let mut lo: u64 = 0;
    let mut hi: u64 = 3_500_000_000_000;
    assert(3_500_000_000_000u64 as u128 * 3_500_000_000_000u64 as u128
        == 12_250_000_000_000_000_000_000_000u128);
    while lo + 1 < hi
        invariant
            lo < hi <= 3_500_000_000_000u64,
            (lo as nat) * (lo as nat) <= n as nat,
            (n as nat) < (hi as nat) * (hi as nat),
        decreases hi - lo,
    {
        let mid: u64 = lo + (hi - lo) / 2;
        proof {
            lemma_square_bound(mid as int, 3_500_000_000_000int);
        }
        if (mid as u128) * (mid as u128) <= n {
            lo = mid;
        } else {
            hi = mid;
        }
    }
    lo
}

} // verus!
