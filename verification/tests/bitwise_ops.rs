use calc_bridge::bitwise::{
    bitwise_and, bitwise_or, bitwise_xor, count_set_bits, reverse_bits, shift_left, shift_right,
};

#[test]
fn and_exact() {
    assert_eq!(bitwise_and(0b1100, 0b1010), 0b1000);
    assert_eq!(bitwise_and(u64::MAX, 0x0f0f), 0x0f0f);
    assert_eq!(bitwise_and(0, u64::MAX), 0);
}

#[test]
fn or_exact() {
    assert_eq!(bitwise_or(0b1100, 0b1010), 0b1110);
    assert_eq!(bitwise_or(0, 0), 0);
    assert_eq!(bitwise_or(u64::MAX, 0), u64::MAX);
}

#[test]
fn xor_exact() {
    assert_eq!(bitwise_xor(0b1100, 0b1010), 0b0110);
    assert_eq!(bitwise_xor(u64::MAX, u64::MAX), 0);
    assert_eq!(bitwise_xor(0x1234_5678, 0), 0x1234_5678);
}

#[test]
fn shift_left_in_range() {
    assert_eq!(shift_left(1, 0), 1);
    assert_eq!(shift_left(1, 63), 0x8000_0000_0000_0000);
    assert_eq!(shift_left(0b101, 4), 0b101_0000);
}

#[test]
fn shift_left_past_width_is_zero() {
    assert_eq!(shift_left(0xffff, 64), 0);
    assert_eq!(shift_left(u64::MAX, 1000), 0);
}

#[test]
fn shift_right_in_range() {
    assert_eq!(shift_right(0x8000_0000_0000_0000, 63), 1);
    assert_eq!(shift_right(0b101_0000, 4), 0b101);
    assert_eq!(shift_right(7, 0), 7);
}

#[test]
fn shift_right_past_width_is_zero() {
    assert_eq!(shift_right(u64::MAX, 64), 0);
    assert_eq!(shift_right(1, 65), 0);
}

#[test]
fn count_set_bits_exact() {
    assert_eq!(count_set_bits(0), 0);
    assert_eq!(count_set_bits(1), 1);
    assert_eq!(count_set_bits(0b1011), 3);
    assert_eq!(count_set_bits(u64::MAX), 64);
    assert_eq!(count_set_bits(0x8000_0000_0000_0001), 2);
}

#[test]
fn reverse_bits_exact() {
    assert_eq!(reverse_bits(0), 0);
    assert_eq!(reverse_bits(1), 0x8000_0000_0000_0000);
    assert_eq!(reverse_bits(0x8000_0000_0000_0000), 1);
    assert_eq!(reverse_bits(u64::MAX), u64::MAX);
    assert_eq!(reverse_bits(0b1101u64), 0b1011u64 << 60);
}

#[test]
fn reverse_bits_twice_is_identity() {
    for v in [0u64, 1, 42, 0xdead_beef, u64::MAX, 0x0123_4567_89ab_cdef] {
        assert_eq!(reverse_bits(reverse_bits(v)), v);
    }
}
