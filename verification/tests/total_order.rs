use std::cmp::Ordering;
use std::collections::HashSet;
use std::collections::hash_map::DefaultHasher;
use std::hash::{Hash, Hasher};

use eq_float::{F32, F64};

fn calculate_hash<T: Hash>(t: &T) -> u64 {
    let mut s = DefaultHasher::new();
    t.hash(&mut s);
    s.finish()
}

fn w32(x: f32) -> F32 {
    F32::from_bits(x.to_bits())
}

fn w64(x: f64) -> F64 {
    F64::from_bits(x.to_bits())
}

#[test]
fn f32_eq() {
    assert!(w32(f32::NAN) == w32(f32::NAN));
    assert!(w32(f32::NAN) != w32(5.0));
    assert!(w32(5.0) != w32(f32::NAN));
    assert!(w32(0.0) == w32(-0.0));
}

#[test]
fn f32_cmp() {
    assert!(w32(f32::NAN) == w32(f32::NAN));
    assert!(w32(f32::NAN) < w32(5.0));
    assert!(w32(5.0) > w32(f32::NAN));
    assert!(w32(0.0) == w32(-0.0));
}

#[test]
fn f32_hash() {
    assert!(calculate_hash(&w32(0.0).hash_bits()) == calculate_hash(&w32(-0.0).hash_bits()));
    assert!(
        calculate_hash(&w32(f32::NAN).hash_bits())
            == calculate_hash(&w32(-f32::NAN).hash_bits())
    );
}

#[test]
fn f64_eq() {
    assert!(w64(f64::NAN) == w64(f64::NAN));
    assert!(w64(f64::NAN) != w64(5.0));
    assert!(w64(5.0) != w64(f64::NAN));
    assert!(w64(0.0) == w64(-0.0));
}

#[test]
fn f64_cmp() {
    assert!(w64(f64::NAN) == w64(f64::NAN));
    assert!(w64(f64::NAN) < w64(5.0));
    assert!(w64(5.0) > w64(f64::NAN));
    assert!(w64(0.0) == w64(-0.0));
}

#[test]
fn f64_hash() {
    assert!(calculate_hash(&w64(0.0).hash_bits()) == calculate_hash(&w64(-0.0).hash_bits()));
    assert!(
        calculate_hash(&w64(f64::NAN).hash_bits())
            == calculate_hash(&w64(-f64::NAN).hash_bits())
    );
}

#[test]
fn nan_payloads_all_equal_32() {
    // Quiet NaN, a NaN with a different payload, and a negative NaN.
    let a = F32::from_bits(0x7fc0_0000);
    let b = F32::from_bits(0x7fc0_0001);
    let c = F32::from_bits(0xffc0_0000);
    assert!(a.is_nan() && b.is_nan() && c.is_nan());
    assert!(a == b);
    assert!(b == c);
    assert!(a == c);
    assert_eq!(a.cmp(&b), Ordering::Equal);
    assert_eq!(c.cmp(&a), Ordering::Equal);
}

#[test]
fn nan_payloads_all_equal_64() {
    let a = F64::from_bits(0x7ff8_0000_0000_0000);
    let b = F64::from_bits(0x7ff8_0000_0000_0001);
    let c = F64::from_bits(0xfff8_0000_0000_0000);
    assert!(a.is_nan() && b.is_nan() && c.is_nan());
    assert!(a == b);
    assert!(b == c);
    assert!(a == c);
    assert_eq!(a.cmp(&b), Ordering::Equal);
    assert_eq!(c.cmp(&a), Ordering::Equal);
}

#[test]
fn nan_ne_every_non_nan_32() {
    let nan = w32(f32::NAN);
    for x in [
        f32::NEG_INFINITY,
        f32::MIN,
        -1.0,
        -0.0,
        0.0,
        f32::MIN_POSITIVE,
        1.0,
        f32::MAX,
        f32::INFINITY,
    ] {
        assert!(nan != w32(x));
        assert!(w32(x) != nan);
    }
}

#[test]
fn nan_ne_every_non_nan_64() {
    let nan = w64(f64::NAN);
    for x in [
        f64::NEG_INFINITY,
        f64::MIN,
        -1.0,
        -0.0,
        0.0,
        f64::MIN_POSITIVE,
        1.0,
        f64::MAX,
        f64::INFINITY,
    ] {
        assert!(nan != w64(x));
        assert!(w64(x) != nan);
    }
}

#[test]
fn trichotomy_sampled_32() {
    let samples = [
        f32::NAN,
        -f32::NAN,
        f32::NEG_INFINITY,
        -1.0,
        -0.0,
        0.0,
        1.0e-42, // subnormal
        1.0,
        f32::INFINITY,
    ];
    for &a in &samples {
        for &b in &samples {
            let (x, y) = (w32(a), w32(b));
            let lt = x < y;
            let eq = x == y;
            let gt = x > y;
            assert_eq!(
                [lt, eq, gt].iter().filter(|&&h| h).count(),
                1,
                "exactly one relation must hold for {a} vs {b}"
            );
            assert_eq!(eq, x.cmp(&y) == Ordering::Equal);
            assert_eq!(lt, y.cmp(&x) == Ordering::Greater);
            assert_eq!(x.partial_cmp(&y), Some(x.cmp(&y)));
        }
    }
}

#[test]
fn trichotomy_sampled_64() {
    let samples = [
        f64::NAN,
        -f64::NAN,
        f64::NEG_INFINITY,
        -1.0,
        -0.0,
        0.0,
        5.0e-324, // subnormal
        1.0,
        f64::INFINITY,
    ];
    for &a in &samples {
        for &b in &samples {
            let (x, y) = (w64(a), w64(b));
            let lt = x < y;
            let eq = x == y;
            let gt = x > y;
            assert_eq!(
                [lt, eq, gt].iter().filter(|&&h| h).count(),
                1,
                "exactly one relation must hold for {a} vs {b}"
            );
            assert_eq!(eq, x.cmp(&y) == Ordering::Equal);
            assert_eq!(lt, y.cmp(&x) == Ordering::Greater);
            assert_eq!(x.partial_cmp(&y), Some(x.cmp(&y)));
        }
    }
}

#[test]
fn nan_below_everything_32() {
    for nan_bits in [0x7fc0_0000u32, 0x7fc0_0001, 0xffc0_0000, 0x7f80_0001] {
        let nan = F32::from_bits(nan_bits);
        for x in [f32::NEG_INFINITY, f32::MIN, -1.0, 0.0, 1.0, f32::INFINITY] {
            assert!(nan < w32(x));
            assert!(w32(x) > nan);
        }
    }
    // Negative infinity is not below NaN.
    assert!(!(w32(f32::NEG_INFINITY) < w32(f32::NAN)));
}

#[test]
fn nan_below_everything_64() {
    for nan_bits in [
        0x7ff8_0000_0000_0000u64,
        0x7ff8_0000_0000_0001,
        0xfff8_0000_0000_0000,
        0x7ff0_0000_0000_0001,
    ] {
        let nan = F64::from_bits(nan_bits);
        for x in [f64::NEG_INFINITY, f64::MIN, -1.0, 0.0, 1.0, f64::INFINITY] {
            assert!(nan < w64(x));
            assert!(w64(x) > nan);
        }
    }
    assert!(!(w64(f64::NEG_INFINITY) < w64(f64::NAN)));
}

#[test]
fn native_order_preserved_32() {
    let samples = [
        f32::NEG_INFINITY,
        f32::MIN,
        -2.5,
        -1.0,
        -f32::MIN_POSITIVE,
        -0.0,
        0.0,
        1.0e-42,
        f32::MIN_POSITIVE,
        1.0,
        2.5,
        f32::MAX,
        f32::INFINITY,
    ];
    for &a in &samples {
        for &b in &samples {
            assert_eq!(Some(w32(a).cmp(&w32(b))), a.partial_cmp(&b));
        }
    }
    assert!(w32(-1.0) < w32(0.0));
    assert!(w32(0.0) < w32(1.0));
    assert!(w32(1.0) < w32(f32::INFINITY));
}

#[test]
fn native_order_preserved_64() {
    let samples = [
        f64::NEG_INFINITY,
        f64::MIN,
        -2.5,
        -1.0,
        -f64::MIN_POSITIVE,
        -0.0,
        0.0,
        5.0e-324,
        f64::MIN_POSITIVE,
        1.0,
        2.5,
        f64::MAX,
        f64::INFINITY,
    ];
    for &a in &samples {
        for &b in &samples {
            assert_eq!(Some(w64(a).cmp(&w64(b))), a.partial_cmp(&b));
        }
    }
    assert!(w64(-1.0) < w64(0.0));
    assert!(w64(0.0) < w64(1.0));
    assert!(w64(1.0) < w64(f64::INFINITY));
}

#[test]
fn hash_pattern_values_32() {
    // Every NaN hashes from the canonical quiet-NaN pattern.
    assert_eq!(w32(f32::NAN).hash_bits(), 0x7fc0_0000);
    assert_eq!(w32(-f32::NAN).hash_bits(), 0x7fc0_0000);
    assert_eq!(F32::from_bits(0x7fc0_1234).hash_bits(), 0x7fc0_0000);
    // Both zeros hash from the positive-zero pattern.
    assert_eq!(w32(0.0).hash_bits(), 0);
    assert_eq!(w32(-0.0).hash_bits(), 0);
    // Anything else hashes from its own bits.
    assert_eq!(w32(5.0).hash_bits(), 5.0f32.to_bits());
    assert_eq!(w32(f32::NEG_INFINITY).hash_bits(), f32::NEG_INFINITY.to_bits());
}

#[test]
fn hash_pattern_values_64() {
    assert_eq!(w64(f64::NAN).hash_bits(), 0x7ff8_0000_0000_0000);
    assert_eq!(w64(-f64::NAN).hash_bits(), 0x7ff8_0000_0000_0000);
    assert_eq!(
        F64::from_bits(0x7ff8_0000_0000_1234).hash_bits(),
        0x7ff8_0000_0000_0000
    );
    assert_eq!(w64(0.0).hash_bits(), 0);
    assert_eq!(w64(-0.0).hash_bits(), 0);
    assert_eq!(w64(5.0).hash_bits(), 5.0f64.to_bits());
    assert_eq!(w64(f64::NEG_INFINITY).hash_bits(), f64::NEG_INFINITY.to_bits());
}

#[test]
fn nan_set_dedup_32() {
    // Two NaNs with different payloads land in one hash bucket key.
    let a = F32::from_bits(0x7fc0_0000);
    let b = F32::from_bits(0xffc0_0001);
    assert!(a == b);
    let mut set: HashSet<u32> = HashSet::new();
    set.insert(a.hash_bits());
    set.insert(b.hash_bits());
    assert_eq!(set.len(), 1);
}

#[test]
fn nan_set_dedup_64() {
    let a = F64::from_bits(0x7ff8_0000_0000_0000);
    let b = F64::from_bits(0xfff8_0000_0000_0001);
    assert!(a == b);
    let mut set: HashSet<u64> = HashSet::new();
    set.insert(a.hash_bits());
    set.insert(b.hash_bits());
    assert_eq!(set.len(), 1);
}

#[test]
fn sort_scenario_32() {
    let mut v = vec![
        w32(1.0),
        w32(f32::NAN),
        w32(-0.0),
        w32(0.0),
        w32(-1.0),
        w32(f32::INFINITY),
        w32(f32::NEG_INFINITY),
    ];
    v.sort_by(|a, b| a.cmp(b));
    assert!(v[0].is_nan());
    assert_eq!(v[1].to_bits(), f32::NEG_INFINITY.to_bits());
    assert_eq!(v[2].to_bits(), (-1.0f32).to_bits());
    // The two zeros tie; their mutual order is unspecified.
    assert!(v[3].is_zero() && v[4].is_zero());
    assert_eq!(v[5].to_bits(), 1.0f32.to_bits());
    assert_eq!(v[6].to_bits(), f32::INFINITY.to_bits());
}

#[test]
fn sort_scenario_64() {
    let mut v = vec![
        w64(1.0),
        w64(f64::NAN),
        w64(-0.0),
        w64(0.0),
        w64(-1.0),
        w64(f64::INFINITY),
        w64(f64::NEG_INFINITY),
    ];
    v.sort_by(|a, b| a.cmp(b));
    assert!(v[0].is_nan());
    assert_eq!(v[1].to_bits(), f64::NEG_INFINITY.to_bits());
    assert_eq!(v[2].to_bits(), (-1.0f64).to_bits());
    assert!(v[3].is_zero() && v[4].is_zero());
    assert_eq!(v[5].to_bits(), 1.0f64.to_bits());
    assert_eq!(v[6].to_bits(), f64::INFINITY.to_bits());
}

#[test]
fn round_trip_32() {
    for x in [
        f32::NAN,
        -f32::NAN,
        0.0,
        -0.0,
        f32::INFINITY,
        f32::NEG_INFINITY,
        1.0e-42, // subnormal
        f32::MIN_POSITIVE,
        f32::MAX,
        1.5,
        -2.25,
    ] {
        let back = f32::from_bits(w32(x).to_bits());
        assert_eq!(back.to_bits(), x.to_bits());
    }
    // NaN payloads survive bit for bit, even though they all compare equal.
    for bits in [0x7fc0_0000u32, 0x7fc0_1234, 0xffc0_0001, 0x7f80_0001] {
        assert_eq!(F32::from_bits(bits).to_bits(), bits);
    }
}

#[test]
fn round_trip_64() {
    for x in [
        f64::NAN,
        -f64::NAN,
        0.0,
        -0.0,
        f64::INFINITY,
        f64::NEG_INFINITY,
        5.0e-324, // subnormal
        f64::MIN_POSITIVE,
        f64::MAX,
        1.5,
        -2.25,
    ] {
        let back = f64::from_bits(w64(x).to_bits());
        assert_eq!(back.to_bits(), x.to_bits());
    }
    for bits in [
        0x7ff8_0000_0000_0000u64,
        0x7ff8_0000_0000_1234,
        0xfff8_0000_0000_0001,
        0x7ff0_0000_0000_0001,
    ] {
        assert_eq!(F64::from_bits(bits).to_bits(), bits);
    }
}

#[test]
fn default_is_positive_zero() {
    let d32: F32 = Default::default();
    assert_eq!(d32.to_bits(), 0);
    assert!(f32::from_bits(d32.to_bits()).is_sign_positive());
    assert_eq!(f32::from_bits(d32.to_bits()), 0.0);
    let d64: F64 = Default::default();
    assert_eq!(d64.to_bits(), 0);
    assert!(f64::from_bits(d64.to_bits()).is_sign_positive());
    assert_eq!(f64::from_bits(d64.to_bits()), 0.0);
}

#[test]
fn classification_agrees_with_native() {
    for x in [
        f32::NAN,
        -f32::NAN,
        0.0,
        -0.0,
        1.0,
        f32::INFINITY,
        f32::NEG_INFINITY,
        1.0e-42,
    ] {
        assert_eq!(w32(x).is_nan(), x.is_nan());
        assert_eq!(w32(x).is_zero(), x == 0.0);
    }
    for x in [
        f64::NAN,
        -f64::NAN,
        0.0,
        -0.0,
        1.0,
        f64::INFINITY,
        f64::NEG_INFINITY,
        5.0e-324,
    ] {
        assert_eq!(w64(x).is_nan(), x.is_nan());
        assert_eq!(w64(x).is_zero(), x == 0.0);
    }
}
