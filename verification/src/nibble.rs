//! Bytes as pairs of four-bit halves.

use vstd::prelude::*;

verus! {

/// The upper four bits of a byte, as a number below 16.
pub open spec fn high_nibble(b: u8) -> int {
    b as int / 16
}

/// The lower four bits of a byte, as a number below 16.
pub open spec fn low_nibble(b: u8) -> int {
    b as int % 16
}

/// The byte value that a pair of nibbles stands for.
pub open spec fn join_nibbles(hi: int, lo: int) -> int {
    16 * hi + lo
}

/// XOR of two nibbles given as integers.
pub open spec fn nibble_xor(a: int, b: int) -> int {
    ((a as u8) ^ (b as u8)) as int
}

/// Splits a byte into its high and low nibble.
pub fn split_byte(b: u8) -> (r: (u8, u8))
    ensures
        r.0 == high_nibble(b),
        r.1 == low_nibble(b),
        r.0 < 16,
        r.1 < 16,
        join_nibbles(r.0 as int, r.1 as int) == b,
{
    (b / 16, b % 16)
}

/// Both nibbles of a byte are below 16, and sixteen times the high one
/// plus the low one gives the byte back.
pub proof fn lemma_nibbles_recombine(b: u8)
    ensures
        0 <= high_nibble(b) < 16,
        0 <= low_nibble(b) < 16,
        join_nibbles(high_nibble(b), low_nibble(b)) == b,
{
}

/// A pair of nibbles stands for exactly one byte: the split of the joined
/// value is the pair itself.
pub proof fn lemma_join_then_split(hi: u8, lo: u8)
    requires
        hi < 16,
        lo < 16,
    ensures
        0 <= join_nibbles(hi as int, lo as int) < 256,
        high_nibble(join_nibbles(hi as int, lo as int) as u8) == hi,
        low_nibble(join_nibbles(hi as int, lo as int) as u8) == lo,
{
}

/// The XOR of two nibbles is a nibble.
pub proof fn lemma_nibble_xor_is_nibble(a: u8, b: u8)
    requires
        a < 16,
        b < 16,
    ensures
        0 <= nibble_xor(a as int, b as int) < 16,
{
    assert(a < 16 && b < 16 ==> (a ^ b) < 16) by (bit_vector);
}

/// XOR works on each half of a byte on its own: the nibbles of `left ^ right`
/// are the XOR of the high nibbles and the XOR of the low nibbles.
pub proof fn lemma_xor_by_nibbles(left: u8, right: u8)
    ensures
        high_nibble(left ^ right) == nibble_xor(high_nibble(left), high_nibble(right)),
        low_nibble(left ^ right) == nibble_xor(low_nibble(left), low_nibble(right)),
{
    assert((left ^ right) / 16 == (left / 16) ^ (right / 16)) by (bit_vector);
    assert((left ^ right) % 16 == (left % 16) ^ (right % 16)) by (bit_vector);
}

} // verus!
