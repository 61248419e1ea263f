//! Bit fields of a 32-bit register word.
//!
//! A port keeps one bit, two bits or four bits per line in each of its
//! registers. The functions here read and replace one such field, and prove
//! that replacing a field leaves every other field of the word as it was.

use vstd::prelude::*;

verus! {

/// Bit `n` of `word`.
pub open spec fn bit(word: u32, n: u32) -> bool {
    (word >> n) & 1 == 1
}

/// The two-bit field number `n` of `word`: bits `2n` and `2n + 1`.
pub open spec fn field2(word: u32, n: u32) -> u32 {
    (word >> ((2 * n) as u32)) & 0b11
}

/// The four-bit field number `n` of `word`: bits `4n` to `4n + 3`.
pub open spec fn field4(word: u32, n: u32) -> u32 {
    (word >> ((4 * n) as u32)) & 0b1111
}

/// `word` with bit `n` replaced by `b`.
pub open spec fn spec_with_bit(word: u32, n: u32, b: bool) -> u32 {
    if b {
        word | (1u32 << n)
    } else {
        word & !(1u32 << n)
    }
}

/// `word` with the two-bit field `n` replaced by `v`.
pub open spec fn spec_with_field2(word: u32, n: u32, v: u32) -> u32 {
    (word & !(0b11u32 << ((2 * n) as u32))) | (v << ((2 * n) as u32))
}

/// `word` with the four-bit field `n` replaced by `v`.
pub open spec fn spec_with_field4(word: u32, n: u32, v: u32) -> u32 {
    (word & !(0b1111u32 << ((4 * n) as u32))) | (v << ((4 * n) as u32))
}

pub proof fn lemma_with_bit(word: u32, n: u32, b: bool, k: u32)
    by (bit_vector)
    requires
        n < 32,
        k < 32,
    ensures
        bit(spec_with_bit(word, n, b), k) == (if k == n { b } else { bit(word, k) }),
{
}

pub proof fn lemma_with_field2(word: u32, n: u32, v: u32, k: u32)
    by (bit_vector)
    requires
        n < 16,
        k < 16,
        v < 4,
    ensures
        field2(spec_with_field2(word, n, v), k) == (if k == n { v } else { field2(word, k) }),
{
}

pub proof fn lemma_with_field4(word: u32, n: u32, v: u32, k: u32)
    by (bit_vector)
    requires
        n < 8,
        k < 8,
        v < 16,
    ensures
        field4(spec_with_field4(word, n, v), k) == (if k == n { v } else { field4(word, k) }),
{
}

pub proof fn lemma_field_bounds(word: u32, n: u32)
    by (bit_vector)
    ensures
        field2(word, n) < 4,
        field4(word, n) < 16,
{
}

/// Reads bit `n` of `word`.
pub fn get_bit(word: u32, n: u32) -> (b: bool)
    requires
        n < 32,
    ensures
        b == bit(word, n),
{
    (word >> n) & 1 == 1
}

/// Reads the two-bit field `n` of `word`.
pub fn get_field2(word: u32, n: u32) -> (v: u32)
    requires
        n < 16,
    ensures
        v == field2(word, n),
        v < 4,
{
    proof {
        lemma_field_bounds(word, n);
    }
    (word >> (2 * n)) & 0b11
}

/// Reads the four-bit field `n` of `word`.
pub fn get_field4(word: u32, n: u32) -> (v: u32)
    requires
        n < 8,
    ensures
        v == field4(word, n),
        v < 16,
{
    proof {
        lemma_field_bounds(word, n);
    }
    (word >> (4 * n)) & 0b1111
}

} // verus!
