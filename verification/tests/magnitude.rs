use gmeter::math::isqrt;
use gmeter::sample::{magnitude, Sample};
use gmeter::tracker::PeakTracker;

#[test]
fn isqrt_small_values() {
    assert_eq!(isqrt(0), 0);
    assert_eq!(isqrt(1), 1);
    assert_eq!(isqrt(3), 1);
    assert_eq!(isqrt(4), 2);
    assert_eq!(isqrt(99), 9);
    assert_eq!(isqrt(100), 10);
}

#[test]
fn isqrt_large_values() {
    assert_eq!(isqrt(100_000_000), 10_000);
    assert_eq!(isqrt(225_000_000), 15_000);
    assert_eq!(isqrt(19_200_000_000), 138_564);
    assert_eq!(isqrt(u64::MAX), 4_294_967_295);
}

#[test]
fn magnitude_at_rest_is_zero() {
    // One standard gravity straight down the z axis: the vector's length is
    // exactly one gravity, so the deviation is zero.
    let s = Sample { x: 0, y: 0, z: 10_000 };
    assert_eq!(magnitude(&s), 0);
}

#[test]
fn magnitude_at_rest_leaves_peak_unchanged() {
    let mut t = PeakTracker::new();
    t.update(3_000);
    let s = Sample { x: 0, y: 0, z: 10_000 };
    t.update(magnitude(&s));
    assert_eq!(t.peak, 3_000);
}

#[test]
fn magnitude_of_all_zero_axes_is_one_gravity() {
    // A disconnected or silent sensor reads zero on every axis; the
    // deviation from one gravity is then a full gravity.
    let s = Sample { x: 0, y: 0, z: 0 };
    assert_eq!(magnitude(&s), 10_000);
}

#[test]
fn magnitude_of_impact() {
    let s = Sample { x: 0, y: 0, z: 15_000 };
    assert_eq!(magnitude(&s), 5_000);
}

#[test]
fn magnitude_is_nonnegative_across_the_range() {
    let extremes = [-80_000, -10_000, 0, 10_000, 80_000];
    for &x in extremes.iter() {
        for &y in extremes.iter() {
            for &z in extremes.iter() {
                let s = Sample { x, y, z };
                // The magnitude type is unsigned; check the computation
                // also never panics anywhere in the configured range.
                let _ = magnitude(&s);
            }
        }
    }
}

#[test]
fn magnitude_ignores_which_axis_holds_which_value() {
    let m = magnitude(&Sample { x: 3_000, y: -4_000, z: 12_000 });
    assert_eq!(magnitude(&Sample { x: -4_000, y: 12_000, z: 3_000 }), m);
    assert_eq!(magnitude(&Sample { x: 12_000, y: 3_000, z: -4_000 }), m);
    assert_eq!(magnitude(&Sample { x: -4_000, y: 3_000, z: 12_000 }), m);
    assert_eq!(magnitude(&Sample { x: 3_000, y: 12_000, z: -4_000 }), m);
    assert_eq!(magnitude(&Sample { x: 12_000, y: -4_000, z: 3_000 }), m);
}

#[test]
fn peak_never_decreases() {
    let mut t = PeakTracker::new();
    assert_eq!(t.peak, 0);
    let mags = [1_000, 5_000, 2_000, 5_000, 4_999, 12_000, 0];
    let mut prev = 0;
    for &m in mags.iter() {
        t.update(m);
        assert!(t.peak >= prev);
        assert!(t.peak >= m);
        prev = t.peak;
    }
    assert_eq!(t.peak, 12_000);
}
