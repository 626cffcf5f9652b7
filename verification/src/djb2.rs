//! The djb2 hash of a zero-terminated byte buffer.
//!
//! The hash is a teaching example: it makes no claim of collision
//! resistance and must not guard anything.

use vstd::prelude::*;
use crate::word::{lemma_wrap_u64_mul_add, wrap_u64};

verus! {

/// The accumulator before the first byte.
pub const DJB2_SEED: u64 = 5381;

/// The factor by which the accumulator grows with each byte.
pub const DJB2_FACTOR: u64 = 33;

/// Where the text of `buf` ends: the index of its first zero byte, or its
/// length where no byte is zero.
pub open spec fn terminator(buf: Seq<u8>) -> int
    decreases buf.len(),
{
    if buf.len() == 0 || buf.first() == 0 {
        0
    } else {
        1 + terminator(buf.drop_first())
    }
}

/// The text of a buffer: its bytes before the terminator.
pub open spec fn text(buf: Seq<u8>) -> Seq<u8> {
    buf.take(terminator(buf))
}

/// The djb2 accumulator over the integers, where it never overflows: the
/// seed for the empty text, and `33 * h + b` for a text that ends in `b`
/// and has `h` before it.
pub open spec fn djb2(bytes: Seq<u8>) -> nat
    decreases bytes.len(),
{
    if bytes.len() == 0 {
        DJB2_SEED as nat
    } else {
        djb2(bytes.drop_last()) * (DJB2_FACTOR as nat) + bytes.last() as nat
    }
}

/// The hash of a buffer: the djb2 accumulator of its text, modulo 2^64.
pub open spec fn buffer_hash(buf: Seq<u8>) -> int {
    wrap_u64(djb2(text(buf)) as int)
}

/// Whether the text of `buf` ends at `n`: `n` lies within the buffer, no
/// byte before it is zero, and it is the end of the buffer or holds a zero
/// byte.
pub open spec fn ends_text(buf: Seq<u8>, n: int) -> bool {
    &&& 0 <= n <= buf.len()
    &&& forall|i: int| 0 <= i < n ==> buf[i] != 0
    &&& n < buf.len() ==> buf[n] == 0
}

/// The text of a buffer ends at its terminator and nowhere else.
pub proof fn lemma_terminator(buf: Seq<u8>, n: int)
    ensures
        ends_text(buf, n) <==> n == terminator(buf),
    decreases buf.len(),
{
    if buf.len() == 0 || buf.first() == 0 {
    } else {
        let rest = buf.drop_first();
        lemma_terminator(rest, n - 1);
        if n == terminator(buf) {
            assert forall|i: int| 0 <= i < n implies buf[i] != 0 by {
                if i > 0 {
                    assert(rest[i - 1] == buf[i]);
                }
            }
        }
        if ends_text(buf, n) {
            assert forall|i: int| 0 <= i < n - 1 implies rest[i] != 0 by {
                assert(rest[i] == buf[i + 1]);
            }
        }
    }
}

/// Two buffers with the same text have the same hash, whatever follows
/// their terminators.
pub proof fn lemma_hash_of_equal_text(a: Seq<u8>, b: Seq<u8>)
    requires
        text(a) == text(b),
    ensures
        buffer_hash(a) == buffer_hash(b),
{
}

/// The djb2 hash of the text in `input`, or `0` where there is no buffer.
///
/// The text ends before the first zero byte, or with the buffer where it
/// holds none. Multiplication and addition wrap modulo 2^64.
pub fn hash_djb2(input: Option<&[u8]>) -> (hash: u64)
    ensures
        input is None ==> hash == 0,
        input matches Some(buf) ==> hash == buffer_hash(buf@),
{
    let buf: &[u8] = match input {
        None => {
            return 0;
        },
        Some(buf) => buf,
    };
    let mut hash: u64 = DJB2_SEED;
    let mut i: usize = 0;
    while i < buf.len() && buf[i] != 0
        invariant
            i <= buf@.len(),
            forall|j: int| 0 <= j < i ==> buf@[j] != 0,
            hash == wrap_u64(djb2(buf@.take(i as int)) as int),
        decreases buf@.len() - i,
    {
        proof {
            let seen = buf@.take(i as int);
            let grown = buf@.take(i + 1);
            assert(grown.drop_last() == seen);
            lemma_wrap_u64_mul_add(hash, DJB2_FACTOR, buf[i as int], djb2(seen) as int);
        }
        hash = hash.wrapping_mul(DJB2_FACTOR).wrapping_add(buf[i] as u64);
        i = i + 1;
    }
    proof {
        lemma_terminator(buf@, i as int);
    }
    hash
}

} // verus!
