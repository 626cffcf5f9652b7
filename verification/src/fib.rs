//! Fibonacci numbers in 64-bit wrapping arithmetic.

use vstd::prelude::*;
use crate::word::{lemma_wrap_u64_add, wrap_u64};

verus! {

/// The Fibonacci sequence over the natural numbers: 0, 1, 1, 2, 3, 5, ...
pub open spec fn fib(n: nat) -> nat
    decreases n,
{
    if n < 2 {
        n
    } else {
        fib((n - 2) as nat) + fib((n - 1) as nat)
    }
}

/// The `n`-th Fibonacci number modulo 2^64, in linear time and constant
/// space.
pub fn fibonacci(n: u32) -> (value: u64)
    ensures
        value == wrap_u64(fib(n as nat) as int),
{
    if n <= 1 {
        return n as u64;
    }
    let mut a: u64 = 0;
    let mut b: u64 = 1;
    let mut i: u32 = 1;
    while i < n
        invariant
            1 <= i <= n,
            a == wrap_u64(fib((i - 1) as nat) as int),
            b == wrap_u64(fib(i as nat) as int),
        decreases n - i,
    {
        proof {
            lemma_wrap_u64_add(a, b, fib((i - 1) as nat) as int, fib(i as nat) as int);
        }
        let next: u64 = a.wrapping_add(b);
        a = b;
        b = next;
        i = i + 1;
    }
    b
}

} // verus!
