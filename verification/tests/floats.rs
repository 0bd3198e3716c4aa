use profig::float::Float64;

fn float(x: f64) -> Float64 {
    Float64::from_bits(x.to_bits())
}

fn samples() -> Vec<f64> {
    vec![
        0.0,
        -0.0,
        1.0,
        -1.0,
        0.5,
        -0.5,
        1.5,
        3.1415,
        4.0,
        10.0,
        1e-310,
        -1e-310,
        f64::MIN_POSITIVE,
        f64::EPSILON,
        9007199254740992.0,
        9007199254740994.0,
        -9007199254740992.0,
        9223372036854775807.0,
        -9223372036854775808.0,
        1e19,
        -1e19,
        1e300,
        -1e300,
        f64::MAX,
        f64::MIN,
        f64::INFINITY,
        f64::NEG_INFINITY,
        f64::NAN,
        -f64::NAN,
    ]
}

#[test]
fn order_is_that_of_the_numbers() {
    for a in samples() {
        for b in samples() {
            assert_eq!(float(a).less_than(&float(b)), a < b, "{} < {}", a, b);
            assert_eq!(float(a).greater_than(&float(b)), a > b, "{} > {}", a, b);
        }
    }
}

#[test]
fn zeros_are_equal_in_order() {
    assert!(!float(-0.0).less_than(&float(0.0)));
    assert!(!float(0.0).less_than(&float(-0.0)));
    assert!(float(-0.0).less_than(&float(f64::MIN_POSITIVE)));
}

#[test]
fn nan_is_below_and_above_nothing() {
    let nan = float(f64::NAN);
    assert!(nan.nan());
    assert!(!nan.less_than(&float(1.0)));
    assert!(!nan.greater_than(&float(1.0)));
    assert!(!float(1.0).less_than(&nan));
    assert!(!nan.less_than(&nan));
}

#[test]
fn nan_and_finite_are_told_apart() {
    for x in samples() {
        assert_eq!(float(x).nan(), x.is_nan(), "{}", x);
        assert_eq!(float(x).finite(), x.is_finite(), "{}", x);
    }
}

#[test]
fn truncation_drops_the_fraction_and_saturates() {
    for x in samples() {
        assert_eq!(float(x).truncate(), x as i64, "{}", x);
    }
    for x in [0.99, -0.99, 1.0, 1.99, -1.99, 2.5, 1023.999, 4.0e15, -4.0e15, 1e18, 4.5e18] {
        assert_eq!(float(x).truncate(), x as i64, "{}", x);
    }
    assert_eq!(float(3.7).truncate(), 3);
    assert_eq!(float(-3.7).truncate(), -3);
    assert_eq!(float(1e30).truncate(), i64::MAX);
    assert_eq!(float(-1e30).truncate(), i64::MIN);
    assert_eq!(float(f64::NAN).truncate(), 0);
}

#[test]
fn bits_round_trip() {
    for x in samples() {
        assert_eq!(float(x).to_bits(), x.to_bits());
    }
    assert_eq!(Float64::zero().to_bits(), 0.0f64.to_bits());
}
