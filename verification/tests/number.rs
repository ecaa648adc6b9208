use device_cost::number::{Number, INFINITY_MAGNITUDE, SIGN_BIT};

fn number(value: f64) -> Number {
    Number::from_bits(value.to_bits())
}

fn samples() -> Vec<f64> {
    vec![
        0.0,
        -0.0,
        1.0,
        -1.0,
        0.1,
        0.25,
        1000.0,
        36.0,
        720.0,
        8760.0,
        f64::MIN_POSITIVE,
        -f64::MIN_POSITIVE,
        f64::from_bits(1),
        f64::from_bits(SIGN_BIT | 1),
        f64::MAX,
        f64::MIN,
        f64::EPSILON,
        f64::INFINITY,
        f64::NEG_INFINITY,
        f64::NAN,
        -f64::NAN,
        f64::from_bits(INFINITY_MAGNITUDE + 1),
        f64::from_bits(0xffff_ffff_ffff_ffff),
        f64::from_bits(0x7fff_ffff_ffff_ffff),
    ]
}

#[test]
fn bits_go_in_and_out_unchanged() {
    for value in samples() {
        assert_eq!(number(value).to_bits(), value.to_bits());
        assert_eq!(number(value).bits, value.to_bits());
    }
}

#[test]
fn number_equality_is_floating_point_equality() {
    for a in samples() {
        for b in samples() {
            assert_eq!(number(a) == number(b), a == b, "{a:?} and {b:?}");
            assert_eq!(number(a) != number(b), a != b, "{a:?} and {b:?}");
        }
    }
}

#[test]
fn the_two_zeros_are_equal() {
    assert!(number(0.0) == number(-0.0));
    assert!(number(-0.0) == number(0.0));
    assert_ne!(number(0.0).to_bits(), number(-0.0).to_bits());
}

#[test]
fn not_a_number_equals_nothing() {
    let nan = number(f64::NAN);
    assert!(nan != nan);
    assert!(nan != number(0.0));
    assert!(number(1.0) != nan);
}

#[test]
fn not_a_number_is_told_from_numbers() {
    for value in samples() {
        assert_eq!(number(value).is_not_a_number(), value.is_nan(), "{value:?}");
    }
}

#[test]
fn the_infinities_are_numbers_and_differ() {
    assert!(!number(f64::INFINITY).is_not_a_number());
    assert!(!number(f64::NEG_INFINITY).is_not_a_number());
    assert!(number(f64::INFINITY) == number(f64::INFINITY));
    assert!(number(f64::INFINITY) != number(f64::NEG_INFINITY));
    assert_eq!(f64::INFINITY.to_bits(), INFINITY_MAGNITUDE);
    assert_eq!((-0.0f64).to_bits(), SIGN_BIT);
}
