use calc_bridge::units::{array_statistic, prime_check, sequence_value, transform_text};

fn bits_of(values: &[f64]) -> Vec<u64> {
    values.iter().map(|v| v.to_bits()).collect()
}

fn midpoint(pair: (u64, u64)) -> f64 {
    (f64::from_bits(pair.0) + f64::from_bits(pair.1)) / 2.0
}

#[test]
fn sequence_small_indices() {
    assert_eq!(sequence_value(0), 0);
    assert_eq!(sequence_value(1), 1);
    assert_eq!(sequence_value(2), 1);
    assert_eq!(sequence_value(3), 2);
    assert_eq!(sequence_value(10), 55);
    assert_eq!(sequence_value(20), 6765);
}

#[test]
fn sequence_largest_representable_index() {
    assert_eq!(sequence_value(92), 7_540_113_804_746_346_429);
}

#[test]
fn sequence_out_of_range_is_zero() {
    assert_eq!(sequence_value(-1), 0);
    assert_eq!(sequence_value(-1000), 0);
    assert_eq!(sequence_value(93), 0);
    assert_eq!(sequence_value(i32::MAX), 0);
}

#[test]
fn prime_small_values() {
    assert!(!prime_check(0));
    assert!(!prime_check(1));
    assert!(prime_check(2));
    assert!(prime_check(3));
    assert!(!prime_check(4));
    assert!(prime_check(17));
    assert!(!prime_check(18));
    assert!(prime_check(97));
    assert!(!prime_check(100));
}

#[test]
fn prime_larger_values() {
    assert!(prime_check(104_729));
    assert!(!prime_check(104_730));
    assert!(!prime_check(1_000_003 * 3));
}

#[test]
fn statistic_empty_input_is_defined_zero() {
    let pair = array_statistic(&Vec::new());
    assert_eq!(pair, (0, 0));
    assert_eq!(midpoint(pair), 0.0);
}

#[test]
fn statistic_single_element() {
    let pair = array_statistic(&bits_of(&[2.5]));
    assert_eq!(f64::from_bits(pair.0), 2.5);
    assert_eq!(f64::from_bits(pair.1), 2.5);
}

#[test]
fn statistic_even_length_median() {
    let pair = array_statistic(&bits_of(&[1.0, 2.0, 3.0, 4.0]));
    assert_eq!(f64::from_bits(pair.0), 2.0);
    assert_eq!(f64::from_bits(pair.1), 3.0);
    assert_eq!(midpoint(pair), 2.5);
}

#[test]
fn statistic_unsorted_input() {
    let pair = array_statistic(&bits_of(&[4.1, 1.5, 3.7, 2.3]));
    assert_eq!(f64::from_bits(pair.0), 2.3);
    assert_eq!(f64::from_bits(pair.1), 3.7);
}

#[test]
fn statistic_odd_length_and_negatives() {
    let pair = array_statistic(&bits_of(&[-7.5, 12.0, -1.25]));
    assert_eq!(f64::from_bits(pair.0), -1.25);
    assert_eq!(f64::from_bits(pair.1), -1.25);
    assert_eq!(midpoint(pair), -1.25);
}

#[test]
fn transform_lowercase_ascii() {
    assert_eq!(transform_text("abc"), "ABC");
    assert_eq!(transform_text("hello world"), "HELLO WORLD");
}

#[test]
fn transform_leaves_other_characters() {
    assert_eq!(transform_text(""), "");
    assert_eq!(transform_text("Mixed Case 123!"), "MIXED CASE 123!");
    assert_eq!(transform_text("caf\u{e9} au lait"), "CAF\u{e9} AU LAIT");
}
