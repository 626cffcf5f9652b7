//! The sum of a counted array of signed 64-bit integers.

use vstd::prelude::*;
use crate::word::{lemma_wrap_i64_add, wrap_i64};

verus! {

/// The sum of `values` over the integers.
pub open spec fn sum(values: Seq<i64>) -> int
    decreases values.len(),
{
    if values.len() == 0 {
        0
    } else {
        sum(values.drop_last()) + values.last()
    }
}

/// The sum of the first `len` elements of `arr`, or `0` where there is no
/// array or `len` is zero.
///
/// The caller vouches for `len`: it must not exceed the array. The elements
/// are added in two's complement, so the result is their sum over the
/// integers whenever that sum is an `i64`, whatever the partial sums were;
/// a sum outside that range comes back reduced modulo 2^64.
pub fn soma_array(arr: Option<&[i64]>, len: usize) -> (total: i64)
    requires
        arr matches Some(values) ==> len <= values@.len(),
    ensures
        arr is None || len == 0 ==> total == 0,
        arr matches Some(values) ==> total == wrap_i64(sum(values@.take(len as int))),
        arr matches Some(values) ==> (i64::MIN <= sum(values@.take(len as int)) <= i64::MAX
            ==> total == sum(values@.take(len as int))),
{
    let values: &[i64] = match arr {
        None => {
            return 0;
        },
        Some(values) => values,
    };
    if len == 0 {
        return 0;
    }
    let mut total: i64 = 0;
    let mut i: usize = 0;
    while i < len
        invariant
            i <= len <= values@.len(),
            total == wrap_i64(sum(values@.take(i as int))),
        decreases len - i,
    {
        proof {
            let seen = values@.take(i as int);
            let grown = values@.take(i + 1);
            assert(grown.drop_last() == seen);
            lemma_wrap_i64_add(total, values[i as int], sum(seen));
        }
        total = total.wrapping_add(values[i]);
        i = i + 1;
    }
    total
}

} // verus!
