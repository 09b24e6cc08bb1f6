//! Scalar reference scanner.
//!
//! Walks the weights in order, keeping a running total, and reports the
//! first position whose total strictly exceeds the lookup value. This is
//! the semantic ground truth the lane scanners are proved against, and the
//! terminal handler for any remainder shorter than their fixed width.

use vstd::prelude::*;

verus! {

use crate::model::{is_search_result, lemma_sum_prefix_monotonic, outcome_view, sum_total};

/// Calculate the prefix-sum index of `offsets` for `lookup` by a sequential
/// scan: `Ok((i, q))` for the first index `i` whose running total `q`
/// strictly exceeds `lookup`, else `Err` with the total sum. The total of
/// all weights must be representable in `usize`, a machine limit: it is at
/// most 255 times the sequence length.
pub fn prefix_sum_fallback(offsets: &[u8], lookup: usize) -> (r: Result<(usize, usize), usize>)
    requires
        sum_total(offsets@) <= usize::MAX,
    ensures
        is_search_result(offsets@, lookup as int, outcome_view(r)),
{
    let mut start: usize = 0;
    let mut i: usize = 0;
    let n = offsets.len();
    while i < n
        invariant
            i <= n,
            n == offsets@.len(),
            sum_total(offsets@) <= usize::MAX,
            start == crate::model::sum_prefix(offsets@, i as int),
            start <= lookup,
        decreases n - i,
    {
        proof {
            lemma_sum_prefix_monotonic(offsets@, i as int + 1, offsets@.len() as int);
        }
        let current = start + offsets[i] as usize;
        if current > lookup {
            return Ok((i, current));
        }
        start = current;
        i = i + 1;
    }
    Err(start)
}

} // verus!
