use enro::entropy::{Entropy, ELEVATED_BITS, HIGH_BITS, INFINITY_BITS, SIGN_BIT, VERY_HIGH_BITS};

fn e(x: f64) -> Entropy {
    Entropy::from_bits(x.to_bits())
}

fn samples() -> Vec<f64> {
    vec![
        0.0,
        -0.0,
        1.0,
        -1.0,
        5e-324,
        -5e-324,
        0.5,
        6.0,
        7.0,
        7.5,
        7.500000000000001,
        7.8,
        7.9,
        7.900000000000001,
        8.0,
        -7.5,
        1e300,
        -1e300,
        f64::MAX,
        f64::MIN,
        f64::INFINITY,
        f64::NEG_INFINITY,
        f64::NAN,
        -f64::NAN,
    ]
}

#[test]
fn thresholds_are_the_patterns_of_their_numbers() {
    assert_eq!(ELEVATED_BITS, 6.0f64.to_bits());
    assert_eq!(HIGH_BITS, 7.5f64.to_bits());
    assert_eq!(VERY_HIGH_BITS, 7.9f64.to_bits());
    assert_eq!(INFINITY_BITS, f64::INFINITY.to_bits());
    assert_eq!(SIGN_BIT, (-0.0f64).to_bits());
    assert_eq!(Entropy::zero().to_bits(), 0.0f64.to_bits());
    assert_eq!(Entropy::elevated(), e(6.0));
    assert_eq!(Entropy::high(), e(7.5));
    assert_eq!(Entropy::very_high(), e(7.9));
}

#[test]
fn bits_go_in_and_out_unchanged() {
    for x in samples() {
        assert_eq!(e(x).to_bits(), x.to_bits());
    }
}

#[test]
fn nan_is_told_from_numbers() {
    for x in samples() {
        assert_eq!(e(x).nan(), x.is_nan());
    }
}

#[test]
fn exceeds_is_greater_than() {
    for a in samples() {
        for b in samples() {
            assert_eq!(e(a).exceeds(&e(b)), a > b, "{} > {}", a, b);
        }
    }
}

#[test]
fn in_range_is_between_inclusive() {
    for x in samples() {
        for lo in samples() {
            for hi in samples() {
                assert_eq!(e(x).in_range(&e(lo), &e(hi)), x >= lo && x <= hi);
            }
        }
    }
}

#[test]
fn the_two_zeros_are_equal_in_order() {
    assert!(e(0.0).in_range(&e(-0.0), &e(-0.0)));
    assert!(!e(0.0).exceeds(&e(-0.0)));
    assert!(!e(-0.0).exceeds(&e(0.0)));
}

#[test]
fn boundaries_are_exclusive_for_exceeds() {
    assert!(!e(7.5).exceeds(&Entropy::high()));
    assert!(e(7.500000000000001).exceeds(&Entropy::high()));
    assert!(!e(7.9).exceeds(&Entropy::very_high()));
    assert!(e(7.900000000000001).exceeds(&Entropy::very_high()));
}
