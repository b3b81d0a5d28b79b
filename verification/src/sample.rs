//! One accelerometer reading and the scalar magnitude derived from it.
//!
//! A reading carries three axis values in fixed point, at [`UNITS_PER_G`]
//! units per standard gravity. The magnitude of a reading is the deviation
//! of the acceleration vector's length from one standard gravity: zero at
//! rest, positive under motion or impact.

use vstd::prelude::*;
use crate::math::{isqrt, sqrt_floor, lemma_sqrt_floor_bounds};

verus! {

/// Fixed-point scale: axis values and magnitudes count this many units
/// per standard gravity.
pub const UNITS_PER_G: u32 = 10000;

/// Largest axis value the configured sensor range (eight gravities) can
/// produce, in fixed-point units.
pub const MAX_AXIS_UNITS: i32 = 80000;

/// One normalized 3-axis reading, in fixed-point gravity units.
#[derive(Clone, Copy, PartialEq, Eq, Structural, Debug)]
pub struct Sample {
    pub x: i32,
    pub y: i32,
    pub z: i32,
}

impl Sample {
    /// Every axis lies within the configured sensor range.
    pub open spec fn in_range(self) -> bool {
        &&& -MAX_AXIS_UNITS <= self.x <= MAX_AXIS_UNITS
        &&& -MAX_AXIS_UNITS <= self.y <= MAX_AXIS_UNITS
        &&& -MAX_AXIS_UNITS <= self.z <= MAX_AXIS_UNITS
    }
}

/// Squared length of the acceleration vector, in squared fixed-point units.
pub open spec fn sum_squares(s: Sample) -> int {
    s.x * s.x + s.y * s.y + s.z * s.z
}

/// The magnitude of a reading: |length of the vector - one gravity|,
/// with the length taken as the floor square root of the sum of squares.
pub open spec fn magnitude_spec(s: Sample) -> int {
    let root = sqrt_floor(sum_squares(s) as nat);
    if root >= UNITS_PER_G {
        root - UNITS_PER_G
    } else {
        UNITS_PER_G - root
    }
}

/// A square is never negative, so the sum of three is not either.
pub proof fn lemma_sum_squares_nonneg(s: Sample)
    ensures
        sum_squares(s) >= 0,
{
    assert(s.x * s.x >= 0 && s.y * s.y >= 0 && s.z * s.z >= 0) by (nonlinear_arith);
}

/// The magnitude of any in-range reading is non-negative.
pub proof fn lemma_magnitude_nonneg(s: Sample)
    requires
        s.in_range(),
    ensures
        magnitude_spec(s) >= 0,
{
}

/// The magnitude depends on a reading only through its sum of squares.
pub proof fn lemma_magnitude_from_sum_squares(a: Sample, b: Sample)
    requires
        sum_squares(a) == sum_squares(b),
    ensures
        magnitude_spec(a) == magnitude_spec(b),
{
}

/// Rotating the axes (x, y, z) -> (y, z, x) leaves the magnitude unchanged.
pub proof fn lemma_magnitude_axis_rotation(s: Sample)
    ensures
        magnitude_spec(Sample { x: s.y, y: s.z, z: s.x }) == magnitude_spec(s),
{
    lemma_magnitude_from_sum_squares(Sample { x: s.y, y: s.z, z: s.x }, s);
}

/// Swapping two axes (x, y, z) -> (y, x, z) leaves the magnitude unchanged.
/// Together with the rotation above this reaches every permutation of axes.
pub proof fn lemma_magnitude_axis_swap(s: Sample)
    ensures
        magnitude_spec(Sample { x: s.y, y: s.x, z: s.z }) == magnitude_spec(s),
{
    lemma_magnitude_from_sum_squares(Sample { x: s.y, y: s.x, z: s.z }, s);
}

/// Computes the magnitude of an in-range reading, in fixed-point units.
pub fn magnitude(s: &Sample) -> (m: u32)
    requires
        s.in_range(),
    ensures
        m == magnitude_spec(*s),
{
    proof {
        assert((s.x as int) * (s.x as int) <= 6_400_000_000) by (nonlinear_arith)
            requires
                -80000 <= s.x <= 80000,
        ;
        assert((s.y as int) * (s.y as int) <= 6_400_000_000) by (nonlinear_arith)
            requires
                -80000 <= s.y <= 80000,
        ;
        assert((s.z as int) * (s.z as int) <= 6_400_000_000) by (nonlinear_arith)
            requires
                -80000 <= s.z <= 80000,
        ;
        lemma_sum_squares_nonneg(*s);
    }
    let xx: i64 = (s.x as i64) * (s.x as i64);
    let yy: i64 = (s.y as i64) * (s.y as i64);
    let zz: i64 = (s.z as i64) * (s.z as i64);
    let sum: u64 = (xx + yy + zz) as u64;
    assert(sum as int == sum_squares(*s));
    let root = isqrt(sum);
    proof {
        lemma_sqrt_floor_bounds(sum as nat);
        assert(root <= 138564) by (nonlinear_arith)
            requires
                (root as int) * (root as int) <= 19_200_000_000,
        ;
    }
    if root >= 10000 {
        (root - 10000) as u32
    } else {
        (10000 - root) as u32
    }
}

} // verus!
