use point_cloud::scalar::{
    Scalar, FRACTION_SPAN, INFINITY_BITS, MINUS_ONE_BITS, ONE_BITS, QUARTER_BITS, SIGN_BIT,
    TENTH_BITS, ZERO_BITS,
};
use rand::rngs::SmallRng;
use rand::{Rng, SeedableRng};

fn s(v: f64) -> Scalar {
    Scalar::from_bits(v.to_bits())
}

fn notable() -> Vec<f64> {
    vec![
        f64::NAN,
        -f64::NAN,
        f64::from_bits(0x7FF0_0000_0000_0001),
        f64::from_bits(0xFFFF_FFFF_FFFF_FFFF),
        f64::NEG_INFINITY,
        f64::MIN,
        -1.0e300,
        -2.0,
        -1.5,
        -1.0,
        -0.25,
        -f64::MIN_POSITIVE,
        -f64::from_bits(0x000F_FFFF_FFFF_FFFF),
        -f64::from_bits(1),
        -0.0,
        0.0,
        f64::from_bits(1),
        f64::from_bits(0x000F_FFFF_FFFF_FFFF),
        f64::MIN_POSITIVE,
        0.1,
        0.25,
        0.5,
        1.0,
        1.0 + f64::EPSILON,
        1.5,
        2.0,
        1.0e300,
        f64::MAX,
        f64::INFINITY,
    ]
}

#[test]
fn constants_encode_their_numbers() {
    assert_eq!(ZERO_BITS, 0.0f64.to_bits());
    assert_eq!(ONE_BITS, 1.0f64.to_bits());
    assert_eq!(MINUS_ONE_BITS, (-1.0f64).to_bits());
    assert_eq!(QUARTER_BITS, 0.25f64.to_bits());
    assert_eq!(TENTH_BITS, 0.1f64.to_bits());
    assert_eq!(INFINITY_BITS, f64::INFINITY.to_bits());
    assert_eq!(SIGN_BIT, (-0.0f64).to_bits());
    assert_eq!(FRACTION_SPAN, 1u64 << 52);
}

#[test]
fn bits_round_trip() {
    for v in notable() {
        assert_eq!(s(v).to_bits(), v.to_bits());
        assert_eq!(Scalar::from_bits(v.to_bits()).bits, v.to_bits());
    }
}

#[test]
fn less_than_agrees_with_the_hardware_on_notable_values() {
    for a in notable() {
        for b in notable() {
            assert_eq!(s(a).less_than(&s(b)), a < b, "{} < {}", a, b);
        }
    }
}

#[test]
fn less_or_equal_agrees_with_the_hardware_on_notable_values() {
    for a in notable() {
        for b in notable() {
            assert_eq!(s(a).less_or_equal(&s(b)), a <= b, "{} <= {}", a, b);
        }
    }
}

#[test]
fn classification_agrees_with_the_hardware() {
    for a in notable() {
        assert_eq!(s(a).is_nan(), a.is_nan(), "{}", a);
        assert_eq!(s(a).is_finite(), a.is_finite(), "{}", a);
    }
}

#[test]
fn order_agrees_with_the_hardware_on_random_encodings() {
    let mut rng = SmallRng::seed_from_u64(7);
    for _ in 0..20000 {
        let a = f64::from_bits(rng.gen::<u64>());
        let b = f64::from_bits(rng.gen::<u64>());
        assert_eq!(s(a).less_than(&s(b)), a < b, "{} < {}", a, b);
        assert_eq!(s(a).less_or_equal(&s(b)), a <= b, "{} <= {}", a, b);
        assert_eq!(s(a).is_nan(), a.is_nan());
        assert_eq!(s(a).is_finite(), a.is_finite());
    }
}

#[test]
fn order_agrees_with_the_hardware_on_random_numbers_near_each_other() {
    let mut rng = SmallRng::seed_from_u64(11);
    for _ in 0..20000 {
        let a: f64 = rng.gen_range(-2.0..2.0);
        let nudge: i64 = rng.gen_range(-2..3);
        let b = f64::from_bits((a.to_bits() as i64 + nudge) as u64);
        assert_eq!(s(a).less_than(&s(b)), a < b, "{} < {}", a, b);
        assert_eq!(s(b).less_than(&s(a)), b < a, "{} < {}", b, a);
        assert_eq!(s(a).less_or_equal(&s(b)), a <= b, "{} <= {}", a, b);
    }
}

#[test]
fn both_zeros_are_equal_and_not_a_number_is_unordered() {
    assert!(!s(-0.0).less_than(&s(0.0)));
    assert!(!s(0.0).less_than(&s(-0.0)));
    assert!(s(-0.0).less_or_equal(&s(0.0)));
    assert!(s(0.0).less_or_equal(&s(-0.0)));
    assert!(!s(f64::NAN).less_than(&s(1.0)));
    assert!(!s(1.0).less_than(&s(f64::NAN)));
    assert!(!s(f64::NAN).less_or_equal(&s(f64::NAN)));
}
