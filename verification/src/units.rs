//! The four entry points the bridge can dispatch to.
//!
//! The runtime's classpath holds exactly four named units; each exposes one
//! fixed-signature static entry point. These functions give those entry
//! points their semantics on host-native values: an integer sequence, a
//! primality predicate, a numeric-array statistic and a text transform. The
//! bridge resolves a descriptor and calls one of these; they are total and
//! never panic.

use vstd::arithmetic::div_mod::{
    lemma_div_decreases, lemma_div_is_ordered_by_denominator, lemma_fundamental_div_mod,
    lemma_mod_multiples_basic,
};
use vstd::prelude::*;
use vstd::string::StrSliceExecFns;
use vstd::utf8::char_u32_cast;

verus! {

/// The doubling recurrence the sequence unit computes: 0, 1, 1, 2, 3, 5, ...
pub open spec fn spec_fib(n: nat) -> nat
    decreases n,
{
    if n == 0 {
        0
    } else if n == 1 {
        1
    } else {
        spec_fib((n - 2) as nat) + spec_fib((n - 1) as nat)
    }
}

/// The sequence is monotone: a later index never yields a smaller value.
pub proof fn lemma_fib_monotone(i: nat, j: nat)
    requires
        i <= j,
    ensures
        spec_fib(i) <= spec_fib(j),
    decreases j,
{
    if j > 1 && i < j {
        lemma_fib_monotone(i, (j - 1) as nat);
    }
}

/// The value the sequence unit returns for index `n`: the recurrence value
/// when the index is in range, the sentinel zero otherwise. An index is out
/// of range when it is negative or its value does not fit in a 64-bit
/// signed integer.
pub open spec fn spec_sequence_value(n: int) -> int {
    if n < 0 {
        0
    } else if spec_fib(n as nat) <= i64::MAX {
        spec_fib(n as nat) as int
    } else {
        0
    }
}

/// Sequence unit: value of the recurrence at index `n`, or the sentinel `0`
/// for an index out of range.
pub fn sequence_value(n: i32) -> (r: i64)
    ensures
        r == spec_sequence_value(n as int),
{
    if n <= 0 {
        return 0;
    }
    let mut a: i64 = 0;
    let mut b: i64 = 1;
    let mut k: i32 = 1;
    while k < n
        invariant
            1 <= k <= n,
            a == spec_fib((k - 1) as nat),
            b == spec_fib(k as nat),
        decreases n - k,
    {
        match a.checked_add(b) {
            Some(next) => {
                a = b;
                b = next;
                k = k + 1;
            },
            None => {
                proof {
                    lemma_fib_monotone((k + 1) as nat, n as nat);
                }
                return 0;
            },
        }
    }
    b
}

/// A number is prime when it is at least two and no smaller number of at
/// least two divides it.
pub open spec fn spec_is_prime(n: u64) -> bool {
    n >= 2 && forall|d: int| 2 <= d < n ==> #[trigger] (n as int % d) != 0
}

/// If some proper divisor of `num` is at least `d`, and every number below
/// `d` was already ruled out as far as `num / d < d` requires, the cofactor
/// is a proper divisor below `d`.
proof fn lemma_cofactor_below(num: u64, k: int, d: int)
    requires
        2 <= k < num,
        num as int % k == 0,
        2 <= d <= k,
        num as int / d < d,
    ensures
        2 <= num as int / k < d,
        num as int % (num as int / k) == 0,
{
    let n = num as int;
    let q = n / k;
    lemma_fundamental_div_mod(n, k);
    assert(n == k * q);
    assert(q >= 1) by (nonlinear_arith)
        requires
            n == k * q,
            k < n,
            k >= 2,
    ;
    assert(q >= 2) by (nonlinear_arith)
        requires
            n == k * q,
            k < n,
            q >= 1,
    ;
    lemma_div_is_ordered_by_denominator(n, d, k);
    assert(q <= n / d);
    lemma_mod_multiples_basic(k, q);
    assert((q * k) % q == 0);
    assert(q * k == k * q) by (nonlinear_arith);
}

/// Predicate unit: trial division up to the square root.
pub fn prime_check(num: u64) -> (r: bool)
    ensures
        r == spec_is_prime(num),
{
    if num < 2 {
        return false;
    }
    let mut d: u64 = 2;
    while d <= num / d
        invariant
            2 <= d <= num,
            num >= 2,
            forall|k: int| 2 <= k < d ==> #[trigger] (num as int % k) != 0,
        decreases num - d,
    {
        proof {
            lemma_div_is_ordered_by_denominator(num as int, 2, d as int);
            lemma_div_decreases(num as int, 2);
        }
        if num % d == 0 {
            proof {
                lemma_fundamental_div_mod(num as int, d as int);
                assert(num as int / d as int >= d) by (nonlinear_arith)
                    requires
                        d as int <= num as int / d as int,
                ;
                assert(d < num) by (nonlinear_arith)
                    requires
                        2 <= d,
                        d as int <= num as int / d as int,
                        num >= 2,
                        num as int % d as int == 0,
                        num as int == d as int * (num as int / d as int) + num as int % d as int,
                ;
            }
            return false;
        }
        d = d + 1;
    }
    proof {
        assert forall|k: int| 2 <= k < num implies #[trigger] (num as int % k) != 0 by {
            if num as int % k == 0 {
                if k >= d {
                    lemma_cofactor_below(num, k, d as int);
                }
            }
        }
    }
    true
}

/// ASCII uppercase of one character: the letters 'a' through 'z' map to 'A'
/// through 'Z'; every other character is left as it is.
pub open spec fn spec_upper_char(c: char) -> char {
    if 'a' <= c && c <= 'z' {
        ((c as u32 - 32) as u32) as char
    } else {
        c
    }
}

/// The text transform applied to a whole string, character by character.
pub open spec fn spec_upper_text(s: Seq<char>) -> Seq<char> {
    s.map(|i: int, c: char| spec_upper_char(c))
}

fn upper_char(c: char) -> (r: char)
    ensures
        r == spec_upper_char(c),
{
    let u: u32 = c as u32;
    if 97 <= u && u <= 122 {
        let b: u8 = (u - 32) as u8;
        let r: char = b as char;
        proof {
            char_u32_cast(r, r as u32);
            char_u32_cast(spec_upper_char(c), (u - 32) as u32);
        }
        r
    } else {
        c
    }
}

/// Relies on `String::push`: appends exactly the given character to the end
/// of the string.
#[verifier::external_body]
fn push_char(s: &mut String, c: char)
    ensures
        final(s)@ == old(s)@.push(c),
{
    s.push(c);
}

/// Transform unit: the ASCII-uppercase image of the input text.
pub fn transform_text(text: &str) -> (r: String)
    ensures
        r@ == spec_upper_text(text@),
{
    let n: usize = text.unicode_len();
    let mut out: String = String::new();
    let mut i: usize = 0;
    while i < n
        invariant
            i <= n,
            n == text@.len(),
            out@ == spec_upper_text(text@).take(i as int),
        decreases n - i,
    {
        let c = text.get_char(i);
        let u = upper_char(c);
        push_char(&mut out, u);
        proof {
            assert(out@ =~= spec_upper_text(text@).take(i as int + 1));
        }
        i = i + 1;
    }
    proof {
        assert(spec_upper_text(text@).take(n as int) =~= spec_upper_text(text@));
    }
    out
}

/// Order-preserving integer key for the bit pattern of a 64-bit IEEE-754
/// value: negative patterns are complemented, non-negative ones have the sign
/// bit flipped, so that unsigned comparison of keys follows the numeric order
/// of the encoded values.
pub open spec fn spec_float_key(bits: u64) -> u64 {
    if bits >= 0x8000_0000_0000_0000 {
        !bits
    } else {
        (bits + 0x8000_0000_0000_0000) as u64
    }
}

fn float_key(bits: u64) -> (r: u64)
    ensures
        r == spec_float_key(bits),
{
    if bits >= 0x8000_0000_0000_0000 {
        !bits
    } else {
        bits + 0x8000_0000_0000_0000
    }
}

/// The sequence is ordered by the floating-point key.
pub open spec fn key_sorted(s: Seq<u64>) -> bool {
    forall|i: int, j: int|
        0 <= i < j < s.len() ==> #[trigger] spec_float_key(s[i]) <= #[trigger] spec_float_key(s[j])
}

/// Insertion sort on bit patterns, ordered by the floating-point key.
fn sort_by_float_key(values: &Vec<u64>) -> (out: Vec<u64>)
    ensures
        key_sorted(out@),
        out@.to_multiset() == values@.to_multiset(),
        out@.len() == values@.len(),
{
    let mut out: Vec<u64> = Vec::new();
    let mut i: usize = 0;
    proof {
        assert(values@.take(0) =~= out@);
    }
    while i < values.len()
        invariant
            i <= values@.len(),
            key_sorted(out@),
            out@.to_multiset() == values@.take(i as int).to_multiset(),
            out@.len() == i,
        decreases values@.len() - i,
    {
        let x = values[i];
        let kx = float_key(x);
        let mut j: usize = 0;
        while j < out.len() && float_key(out[j]) <= kx
            invariant
                j <= out@.len(),
                kx == spec_float_key(x),
                forall|m: int| 0 <= m < j ==> spec_float_key(out@[m]) <= spec_float_key(x),
            decreases out@.len() - j,
        {
            j = j + 1;
        }
        let ghost pre = out@;
        out.insert(j, x);
        proof {
            assert forall|p: int| 0 <= p < out@.len() implies out@[p] == (if p < j {
                pre[p]
            } else if p == j {
                x
            } else {
                pre[p - 1]
            }) by {
                assert(out@ == pre.insert(j as int, x));
            }
            assert forall|p: int, q: int| 0 <= p < q < out@.len() implies #[trigger] spec_float_key(
                out@[p],
            ) <= #[trigger] spec_float_key(out@[q]) by {
                if q == j {
                    assert(spec_float_key(pre[p]) <= spec_float_key(x));
                } else if p == j {
                    assert(spec_float_key(x) < spec_float_key(pre[q - 1])) by {
                        assert(spec_float_key(pre[j as int]) > spec_float_key(x));
                        if q - 1 > j {
                            assert(spec_float_key(pre[j as int]) <= spec_float_key(pre[q - 1]));
                        }
                    }
                }
            }
            pre.to_multiset_ensures();
            out@.to_multiset_ensures();
            assert(out@.remove(j as int) =~= pre);
            assert(pre.to_multiset() == out@.to_multiset().remove(x));
            assert(out@.to_multiset().contains(x));
            assert(out@.to_multiset() =~= pre.to_multiset().insert(x));
            values@.take(i as int).to_multiset_ensures();
            assert(values@.take(i as int + 1) =~= values@.take(i as int).push(values@[i as int]));
            assert(values@.take(i as int + 1).to_multiset() =~= values@.take(
                i as int,
            ).to_multiset().insert(values@[i as int]));
        }
        i = i + 1;
    }
    proof {
        assert(values@.take(values@.len() as int) =~= values@);
    }
    out
}

/// What the array-statistic unit returns: for an empty array the defined
/// zero result, otherwise the two middle elements (the same element twice
/// when the length is odd) of the input arranged in floating-point key
/// order. The statistic itself is the midpoint of the pair.
pub open spec fn statistic_post(input: Seq<u64>, lo: u64, hi: u64) -> bool {
    if input.len() == 0 {
        lo == crate::FLOAT_ZERO_BITS && hi == crate::FLOAT_ZERO_BITS
    } else {
        exists|s: Seq<u64>|
            {
                &&& #[trigger] s.to_multiset() == input.to_multiset()
                &&& s.len() == input.len()
                &&& key_sorted(s)
                &&& lo == s[(input.len() - 1) as int / 2]
                &&& hi == s[input.len() as int / 2]
            }
    }
}

/// Array-statistic unit: the two middle order statistics of the input, by
/// floating-point key order; their midpoint is the median. An empty input is
/// permitted and yields the zero pair.
pub fn array_statistic(values: &Vec<u64>) -> (r: (u64, u64))
    ensures
        statistic_post(values@, r.0, r.1),
{
    if values.len() == 0 {
        return (crate::FLOAT_ZERO_BITS, crate::FLOAT_ZERO_BITS);
    }
    let sorted = sort_by_float_key(values);
    let lo = sorted[(values.len() - 1) / 2];
    let hi = sorted[values.len() / 2];
    proof {
        let s = sorted@;
        assert(s.to_multiset() == values@.to_multiset() && s.len() == values@.len() && key_sorted(s)
            && lo == s[(values@.len() - 1) as int / 2] && hi == s[values@.len() as int / 2]);
    }
    (lo, hi)
}

} // verus!
