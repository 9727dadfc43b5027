use mandelbrot::binary64::{finite, lt, positive_finite, INFINITY, SIGN_BIT};

fn specimens() -> Vec<f64> {
    vec![
        f64::NEG_INFINITY,
        f64::MIN,
        -1.0e300,
        -2.0,
        -1.6,
        -1.0,
        -f64::MIN_POSITIVE,
        -5.0e-324,
        -0.0,
        0.0,
        5.0e-324,
        f64::MIN_POSITIVE,
        0.005,
        0.8,
        1.0,
        1.0 + f64::EPSILON,
        1.6,
        2.0,
        1.0e300,
        f64::MAX,
        f64::INFINITY,
        f64::NAN,
        -f64::NAN,
    ]
}

#[test]
fn constants_are_the_encodings_they_name() {
    assert_eq!(SIGN_BIT, (-0.0f64).to_bits());
    assert_eq!(INFINITY, f64::INFINITY.to_bits());
}

#[test]
fn lt_orders_encodings_as_the_numbers() {
    for a in specimens() {
        for b in specimens() {
            assert_eq!(lt(a.to_bits(), b.to_bits()), a < b, "{a} < {b}");
        }
    }
}

#[test]
fn zeros_of_either_sign_are_equal() {
    assert!(!lt((-0.0f64).to_bits(), 0.0f64.to_bits()));
    assert!(!lt(0.0f64.to_bits(), (-0.0f64).to_bits()));
}

#[test]
fn nothing_is_below_or_above_a_nan() {
    for a in specimens() {
        assert!(!lt(a.to_bits(), f64::NAN.to_bits()));
        assert!(!lt(f64::NAN.to_bits(), a.to_bits()));
    }
}

#[test]
fn finite_tells_numbers_from_infinities_and_nans() {
    for a in specimens() {
        assert_eq!(finite(a.to_bits()), a.is_finite(), "{a}");
    }
}

#[test]
fn positive_finite_is_above_zero_and_below_infinity() {
    for a in specimens() {
        assert_eq!(positive_finite(a.to_bits()), a.is_finite() && a > 0.0, "{a}");
    }
}
