use ordered_float::OrderedFloat;
use thurston::fp::{f32_negate, f64_is_nan, f64_le, f64_lt, f64_total_lt};

fn probe_values() -> Vec<f64> {
    vec![
        0.0,
        -0.0,
        1.0,
        -1.0,
        0.66,
        -0.66,
        2.0,
        -2.0,
        1.5e-300,
        -1.5e-300,
        f64::MIN_POSITIVE / 4.0,
        -f64::MIN_POSITIVE / 4.0,
        f64::MAX,
        f64::MIN,
        f64::INFINITY,
        f64::NEG_INFINITY,
        f64::NAN,
        -f64::NAN,
        f64::EPSILON,
    ]
}

#[test]
fn double_comparisons_match_native_semantics() {
    let values = probe_values();
    for &a in &values {
        for &b in &values {
            assert_eq!(
                f64_le(a.to_bits(), b.to_bits()),
                a <= b,
                "le mismatch for {a:?} and {b:?}"
            );
            assert_eq!(
                f64_lt(a.to_bits(), b.to_bits()),
                a < b,
                "lt mismatch for {a:?} and {b:?}"
            );
        }
    }
}

#[test]
fn total_order_matches_the_pivot_key_order() {
    let values = probe_values();
    for &a in &values {
        for &b in &values {
            assert_eq!(
                f64_total_lt(a.to_bits(), b.to_bits()),
                OrderedFloat(a) < OrderedFloat(b),
                "total order mismatch for {a:?} and {b:?}"
            );
        }
    }
}

#[test]
fn double_nan_detection_matches_native() {
    for &a in &probe_values() {
        assert_eq!(f64_is_nan(a.to_bits()), a.is_nan(), "nan mismatch for {a:?}");
    }
}

#[test]
fn single_negation_matches_native() {
    for a in [0.0f32, -0.0, 1.0, -1.5, 3.25e-20, f32::MAX, f32::INFINITY, f32::NEG_INFINITY] {
        assert_eq!(f32_negate(a.to_bits()), (-a).to_bits(), "negation mismatch for {a:?}");
    }
    // Negating a NaN flips only the sign bit.
    let nan_bits = f32::NAN.to_bits();
    assert_eq!(f32_negate(nan_bits), nan_bits ^ 0x8000_0000);
}
