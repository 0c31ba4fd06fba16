use calc_bridge::bridge::{descriptor, Bridge, EntryTable, UnitOp};
use calc_bridge::marshal::{BridgeFault, MarshaledValue};
use calc_bridge::serializer::CallSerializer;

fn bits_of(values: &[f64]) -> Vec<u64> {
    values.iter().map(|v| v.to_bits()).collect()
}

fn midpoint(pair: (u64, u64)) -> f64 {
    (f64::from_bits(pair.0) + f64::from_bits(pair.1)) / 2.0
}

/// A deployment whose classpath is missing every unit: each call resolves no
/// entry point and must fall back to its sentinel.
fn bridge_without_units() -> Bridge {
    let table = EntryTable { sequence: false, predicate: false, statistic: false, transform: false };
    Bridge::new(true, true, table)
}

#[test]
fn happy_path_round_trip() {
    let mut b = Bridge::standard();
    assert_eq!(b.java_fibonacci(10), 55);
    assert!(b.java_is_prime(17));
    assert!(!b.java_is_prime(18));
    assert_eq!(midpoint(b.java_array_stats(bits_of(&[1.0, 2.0, 3.0, 4.0]))), 2.5);
    assert_eq!(b.java_string_ops(String::from("abc")), "ABC");
}

#[test]
fn single_initialization_across_many_calls() {
    let mut b = Bridge::standard();
    assert_eq!(b.host.boots, 0);
    for i in 0..20 {
        b.java_fibonacci(i);
        b.java_is_prime(i as u64);
    }
    b.java_string_ops(String::from("once"));
    assert_eq!(b.host.boots, 1);
}

#[test]
fn failed_boot_is_permanent_and_boots_once() {
    let mut b = Bridge::new(false, true, EntryTable::full());
    assert_eq!(b.java_fibonacci(10), 0);
    assert_eq!(b.host.boots, 1);
    assert!(!b.java_is_prime(17));
    assert_eq!(b.java_string_ops(String::from("hello")), "hello");
    assert_eq!(b.host.boots, 1);
}

#[test]
fn call_token_mutual_exclusion() {
    let mut s = CallSerializer::new();
    assert!(s.try_acquire());
    assert!(!s.try_acquire());
    assert!(!s.try_acquire());
    s.release();
    assert!(s.try_acquire());
}

#[test]
fn call_token_released_after_each_facade_call() {
    let mut b = Bridge::standard();
    b.java_fibonacci(30);
    assert!(!b.serializer.in_flight);
    b.java_array_stats(bits_of(&[1.0]));
    assert!(!b.serializer.in_flight);
    let mut faulty = bridge_without_units();
    faulty.java_is_prime(11);
    assert!(!faulty.serializer.in_flight);
}

#[test]
fn sequence_sentinel_on_unresolvable_entry_point() {
    let mut b = bridge_without_units();
    assert_eq!(b.java_fibonacci(10), 0);
}

#[test]
fn predicate_sentinel_on_unresolvable_entry_point() {
    let mut b = bridge_without_units();
    assert!(!b.java_is_prime(17));
}

#[test]
fn predicate_sentinel_on_unmarshalable_argument() {
    let mut b = Bridge::standard();
    assert!(!b.java_is_prime(u64::MAX));
    assert_eq!(b.host.boots, 1);
}

#[test]
fn statistic_sentinel_on_unresolvable_entry_point() {
    let mut b = bridge_without_units();
    let pair = b.java_array_stats(bits_of(&[1.0, 2.0, 3.0]));
    assert_eq!(pair, (0, 0));
    assert_eq!(midpoint(pair), 0.0);
}

#[test]
fn statistic_empty_input_does_not_fault() {
    let mut b = Bridge::standard();
    let pair = b.java_array_stats(Vec::new());
    assert_eq!(midpoint(pair), 0.0);
}

#[test]
fn transform_identity_fallback_on_fault() {
    let mut b = bridge_without_units();
    assert_eq!(b.java_string_ops(String::from("hello")), "hello");
    let mut unbootable = Bridge::new(false, true, EntryTable::full());
    assert_eq!(unbootable.java_string_ops(String::from("hello")), "hello");
}

#[test]
fn attach_failure_is_per_call_and_after_boot() {
    let mut b = Bridge::new(true, false, EntryTable::full());
    assert_eq!(b.java_fibonacci(10), 0);
    assert_eq!(b.host.boots, 1);
    assert!(!b.java_is_prime(2));
    assert_eq!(b.java_string_ops(String::from("soft")), "soft");
}

#[test]
fn fault_taxonomy_from_inner_call() {
    let mut unbootable = Bridge::new(false, true, EntryTable::full());
    let r = unbootable.call(UnitOp::Sequence, MarshaledValue::Int32(1));
    assert!(matches!(r, Err(BridgeFault::InitFailed)));

    let mut unattachable = Bridge::new(true, false, EntryTable::full());
    let r = unattachable.call(UnitOp::Sequence, MarshaledValue::Int32(1));
    assert!(matches!(r, Err(BridgeFault::AttachFailed)));

    let mut empty = bridge_without_units();
    let r = empty.call(UnitOp::Sequence, MarshaledValue::Int32(1));
    assert!(matches!(r, Err(BridgeFault::MissingEntryPoint)));

    let mut b = Bridge::standard();
    let r = b.call(UnitOp::Sequence, MarshaledValue::Text(String::from("wrong")));
    assert!(matches!(r, Err(BridgeFault::SignatureMismatch)));
    let r = b.call(UnitOp::Transform, MarshaledValue::Int64(3));
    assert!(matches!(r, Err(BridgeFault::SignatureMismatch)));

    let r = calc_bridge::marshal::marshal_uint64(u64::MAX);
    assert!(matches!(r, Err(BridgeFault::MarshalFailed)));
}

#[test]
fn descriptor_table_is_fixed() {
    let d = descriptor(UnitOp::Sequence);
    assert_eq!(d, ("Fibonacci", "fibonacci", "(I)J"));
    let d = descriptor(UnitOp::Predicate);
    assert_eq!(d, ("PrimeChecker", "isPrime", "(J)Z"));
    let d = descriptor(UnitOp::Statistic);
    assert_eq!(d, ("ArrayStats", "median", "([D)[D"));
    let d = descriptor(UnitOp::Transform);
    assert_eq!(d, ("StringOps", "toUpperCase", "(Ljava/lang/String;)Ljava/lang/String;"));
}

#[test]
fn partial_deployment_only_missing_unit_faults() {
    let table = EntryTable { sequence: true, predicate: false, statistic: true, transform: true };
    let mut b = Bridge::new(true, true, table);
    assert_eq!(b.java_fibonacci(10), 55);
    assert!(!b.java_is_prime(17));
    assert_eq!(b.java_string_ops(String::from("ok")), "OK");
}
