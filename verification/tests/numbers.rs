use sflyn::numbers::{equal, is_not_a_number, less};

fn sample() -> Vec<f64> {
    vec![
        0.0,
        -0.0,
        1.0,
        -1.0,
        1.5,
        -1.5,
        3.0,
        1e-320,
        -1e-320,
        f64::MIN_POSITIVE,
        f64::MAX,
        f64::MIN,
        f64::INFINITY,
        f64::NEG_INFINITY,
        f64::NAN,
        -f64::NAN,
        f64::EPSILON,
        123456789.125,
    ]
}

#[test]
fn comparisons_agree_with_native_doubles() {
    for a in sample() {
        assert_eq!(is_not_a_number(a.to_bits()), a.is_nan());
        for b in sample() {
            assert_eq!(less(a.to_bits(), b.to_bits()), a < b, "{} < {}", a, b);
            assert_eq!(equal(a.to_bits(), b.to_bits()), a == b, "{} == {}", a, b);
        }
    }
}

#[test]
fn both_zeros_are_equal_and_unordered() {
    assert!(equal(0.0f64.to_bits(), (-0.0f64).to_bits()));
    assert!(!less((-0.0f64).to_bits(), 0.0f64.to_bits()));
    assert!(!less(0.0f64.to_bits(), (-0.0f64).to_bits()));
}

#[test]
fn not_a_number_equals_nothing() {
    let nan = f64::NAN.to_bits();
    assert!(!equal(nan, nan));
    assert!(!less(nan, 1.0f64.to_bits()));
    assert!(!less(1.0f64.to_bits(), nan));
}
