use template_matcher::binary64::{Binary64, MINUS_ONE_BITS, ONE_BITS};
use template_matcher::options::{
    scale_of, threshold_of, MatchOptions, DEFAULT_SCALE_BITS, DEFAULT_THRESHOLD_BITS,
};

fn number(value: f64) -> Binary64 {
    Binary64::from_bits(value.to_bits())
}

fn samples() -> Vec<f64> {
    vec![
        0.0,
        -0.0,
        1.0,
        -1.0,
        0.8,
        0.7999999999999999,
        0.8000000000000002,
        0.5,
        -0.5,
        1.0000000000000002,
        -1.0000000000000002,
        0.9999999999999999,
        2.0,
        -2.0,
        1e-320,
        -1e-320,
        5e-324,
        f64::MIN_POSITIVE,
        f64::MAX,
        f64::MIN,
        f64::INFINITY,
        f64::NEG_INFINITY,
        f64::NAN,
        -f64::NAN,
        f64::from_bits(0x7FF0_0000_0000_0001),
        f64::from_bits(0xFFFF_FFFF_FFFF_FFFF),
        123456.789,
        -123456.789,
    ]
}

#[test]
fn at_least_agrees_with_native_comparison() {
    let values = samples();
    for a in values.iter() {
        for b in values.iter() {
            assert_eq!(number(*a).at_least(number(*b)), *a >= *b, "{:?} >= {:?}", a, b);
        }
    }
}

#[test]
fn within_unit_agrees_with_native_comparison() {
    for a in samples().iter() {
        assert_eq!(number(*a).within_unit(), *a >= -1.0 && *a <= 1.0, "{:?}", a);
    }
}

#[test]
fn not_a_number_reaches_nothing() {
    let nan = number(f64::NAN);
    assert!(!nan.at_least(nan));
    assert!(!nan.at_least(number(-1.0)));
    assert!(!number(1.0).at_least(nan));
    assert!(!nan.within_unit());
}

#[test]
fn both_zeros_are_equal() {
    assert!(number(0.0).at_least(number(-0.0)));
    assert!(number(-0.0).at_least(number(0.0)));
}

#[test]
fn named_bit_patterns_are_the_numbers() {
    assert_eq!(ONE_BITS, 1.0f64.to_bits());
    assert_eq!(MINUS_ONE_BITS, (-1.0f64).to_bits());
    assert_eq!(DEFAULT_THRESHOLD_BITS, 0.8f64.to_bits());
    assert_eq!(DEFAULT_SCALE_BITS, 1.0f64.to_bits());
}

#[test]
fn missing_options_resolve_to_defaults() {
    assert_eq!(f64::from_bits(threshold_of(None).bits), 0.8);
    assert_eq!(f64::from_bits(scale_of(None).bits), 1.0);
    let empty = MatchOptions { threshold: None, scale: None };
    assert_eq!(f64::from_bits(threshold_of(Some(empty)).bits), 0.8);
    assert_eq!(f64::from_bits(scale_of(Some(empty)).bits), 1.0);
}

#[test]
fn given_options_are_kept() {
    let options = MatchOptions { threshold: Some(number(0.25)), scale: Some(number(3.5)) };
    assert_eq!(threshold_of(Some(options)), number(0.25));
    assert_eq!(scale_of(Some(options)), number(3.5));
    let only_threshold = MatchOptions { threshold: Some(number(-2.0)), scale: None };
    assert_eq!(threshold_of(Some(only_threshold)), number(-2.0));
    assert_eq!(scale_of(Some(only_threshold)), number(1.0));
    let only_scale = MatchOptions { threshold: None, scale: Some(number(0.5)) };
    assert_eq!(threshold_of(Some(only_scale)), number(0.8));
    assert_eq!(scale_of(Some(only_scale)), number(0.5));
}
