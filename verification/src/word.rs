//! Reduction of mathematical integers into 64-bit machine words.

use vstd::prelude::*;
use vstd::arithmetic::div_mod::lemma_mul_mod_noop_left;

verus! {

/// The number of values of a 64-bit word, 2^64.
pub open spec fn word_modulus() -> int {
    0x1_0000_0000_0000_0000
}

/// The value that an unsigned 64-bit word holds once wrapping arithmetic
/// has arrived at `x`: the residue of `x` modulo 2^64.
pub open spec fn wrap_u64(x: int) -> int {
    x % word_modulus()
}

/// The value that a signed 64-bit word holds once two's-complement
/// arithmetic has arrived at `x`: the one integer of the signed range that
/// differs from `x` by a multiple of 2^64.
pub open spec fn wrap_i64(x: int) -> int {
    let residue: int = x % word_modulus();
    if residue > i64::MAX {
        residue - word_modulus()
    } else {
        residue
    }
}

/// Wrapping addition of two wrapped values wraps the sum of what they stand
/// for.
pub proof fn lemma_wrap_u64_add(a: u64, b: u64, x: int, y: int)
    requires
        a == wrap_u64(x),
        b == wrap_u64(y),
    ensures
        vstd::wrapping::u64_specs::wrapping_add(a, b) == wrap_u64(x + y),
{
}

/// A wrapped value times a factor plus a byte, computed with wrapping
/// multiplication and addition, wraps what the same step gives over the
/// integers.
pub proof fn lemma_wrap_u64_mul_add(a: u64, factor: u64, byte: u8, x: int)
    requires
        a == wrap_u64(x),
    ensures
        vstd::wrapping::u64_specs::wrapping_add(
            vstd::wrapping::u64_specs::wrapping_mul(a, factor),
            byte as u64,
        ) == wrap_u64(x * factor + byte),
{
    let product: u64 = vstd::wrapping::u64_specs::wrapping_mul(a, factor);
    assert(product == wrap_u64(x * factor)) by {
        lemma_mul_mod_noop_left(x, factor as int, word_modulus());
    }
    lemma_wrap_u64_add(product, byte as u64, x * factor, byte as int);
}

/// Wrapping addition of a wrapped value and a word wraps the sum of what
/// they stand for.
pub proof fn lemma_wrap_i64_add(a: i64, b: i64, x: int)
    requires
        a == wrap_i64(x),
    ensures
        vstd::wrapping::i64_specs::wrapping_add(a, b) == wrap_i64(x + b),
{
}

} // verus!
