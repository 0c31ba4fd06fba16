//! Word-level operations on unsigned 64-bit integers.
//!
//! These are the calculator's bitwise collaborators: stateless functions on
//! `u64` values, callable from any thread at any time. Shifts by 64 or more
//! positions are defined to produce zero, so every function is total.

use vstd::prelude::*;

verus! {

/// Bitwise conjunction.
pub fn bitwise_and(a: u64, b: u64) -> (r: u64)
    ensures
        r == a & b,
{
    a & b
}

/// Bitwise disjunction.
pub fn bitwise_or(a: u64, b: u64) -> (r: u64)
    ensures
        r == a | b,
{
    a | b
}

/// Bitwise exclusive disjunction.
pub fn bitwise_xor(a: u64, b: u64) -> (r: u64)
    ensures
        r == a ^ b,
{
    a ^ b
}

/// Logical left shift; shifting every bit out yields zero.
pub fn shift_left(value: u64, shift: u64) -> (r: u64)
    ensures
        shift < 64 ==> r == value << shift,
        shift >= 64 ==> r == 0,
{
    if shift < 64 {
        value << shift
    } else {
        0
    }
}

/// Logical right shift; shifting every bit out yields zero.
pub fn shift_right(value: u64, shift: u64) -> (r: u64)
    ensures
        shift < 64 ==> r == value >> shift,
        shift >= 64 ==> r == 0,
{
    if shift < 64 {
        value >> shift
    } else {
        0
    }
}

/// Number of set bits among the `n` lowest bits of `x`.
pub open spec fn ones_below(x: u64, n: int) -> int
    decreases n,
{
    if n <= 0 {
        0
    } else {
        ones_below(x, n - 1) + if (x >> (n - 1) as u64) & 1 == 1 {
            1int
        } else {
            0int
        }
    }
}

/// Number of set bits in the whole word.
pub open spec fn spec_count_set_bits(x: u64) -> int {
    ones_below(x, 64)
}

proof fn lemma_ones_below_bound(x: u64, n: int)
    requires
        0 <= n,
    ensures
        0 <= ones_below(x, n) <= n,
    decreases n,
{
    if n > 0 {
        lemma_ones_below_bound(x, n - 1);
    }
}

/// Population count: how many bits of `value` are set.
pub fn count_set_bits(value: u64) -> (r: u64)
    ensures
        r == spec_count_set_bits(value),
        r <= 64,
{
    let mut count: u64 = 0;
    let mut i: u64 = 0;
    while i < 64
        invariant
            i <= 64,
            count == ones_below(value, i as int),
            count <= i,
        decreases 64 - i,
    {
        proof {
            lemma_ones_below_bound(value, i as int);
        }
        if (value >> i) & 1 == 1 {
            count = count + 1;
        }
        i = i + 1;
    }
    count
}

/// Bit `i` of the reversal is bit `63 - i` of the input, for the `n` lowest
/// result bits; all higher result bits are clear.
pub open spec fn reversed_below(x: u64, r: u64, n: int) -> bool {
    forall|i: int|
        0 <= i < 64 ==> #[trigger] ((r >> i as u64) & 1) == if i < n {
            (x >> (63 - i) as u64) & 1
        } else {
            0
        }
}

/// Full reversal: bit `i` of the result equals bit `63 - i` of the input.
pub open spec fn spec_reverse_bits(x: u64, r: u64) -> bool {
    forall|i: int| 0 <= i < 64 ==> #[trigger] ((r >> i as u64) & 1) == (x >> (63 - i) as u64) & 1
}

/// Mirror the bits of `value`: the most significant becomes the least
/// significant and so on.
pub fn reverse_bits(value: u64) -> (r: u64)
    ensures
        spec_reverse_bits(value, r),
{
    let mut out: u64 = 0;
    let mut i: u64 = 0;
    proof {
        assert forall|j: int| 0 <= j < 64 implies #[trigger] ((out >> j as u64) & 1) == 0u64 by {
            let jj = j as u64;
            assert((0u64 >> jj) & 1 == 0) by (bit_vector)
                requires
                    jj < 64,
            ;
        }
    }
    while i < 64
        invariant
            i <= 64,
            reversed_below(value, out, i as int),
        decreases 64 - i,
    {
        let sh: u64 = 63 - i;
        let bit: u64 = (value >> sh) & 1;
        let ghost old_out: u64 = out;
        out = out | (bit << i);
        proof {
            assert(bit <= 1) by (bit_vector)
                requires
                    bit == (value >> sh) & 1,
            ;
            assert forall|j: int| 0 <= j < 64 implies #[trigger] ((out >> j as u64) & 1) == (if j
                < i as int + 1 {
                (value >> (63 - j) as u64) & 1
            } else {
                0u64
            }) by {
                let jj = j as u64;
                let ii = i as u64;
                let sj = (63 - j) as u64;
                if j == i as int {
                    assert((out >> jj) & 1 == (value >> sj) & 1) by (bit_vector)
                        requires
                            out == old_out | (((value >> sh) & 1) << ii),
                            (old_out >> ii) & 1 == 0,
                            jj == ii,
                            ii < 64,
                            sj == sh,
                    ;
                } else {
                    assert((out >> jj) & 1 == (old_out >> jj) & 1) by (bit_vector)
                        requires
                            out == old_out | (bit << ii),
                            bit <= 1,
                            jj != ii,
                            ii < 64,
                            jj < 64,
                    ;
                }
            }
        }
        i = i + 1;
    }
    out
}

} // verus!
