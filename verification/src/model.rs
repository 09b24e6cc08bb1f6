//! Mathematical model of the weighted prefix-sum search.
//!
//! [`sum_prefix`] is the running total of a weight sequence, and
//! [`is_search_result`] says what outcome the search owes for a given input.
//! The lemmas here establish the facts every scanner relies on (running
//! totals grow monotonically, chunk-local sums translate to global ones,
//! zero padding leaves sums unchanged) together with the laws of the search
//! itself: the outcome is unique, empty input yields `Err(0)`, and raising
//! the lookup value never moves a found index down.

use vstd::prelude::*;

verus! {

/// Sum of the first `n` elements of `s` (0 when `n <= 0`).
pub open spec fn sum_prefix(s: Seq<u8>, n: int) -> int
    decreases n,
{
    if n <= 0 {
        0
    } else {
        sum_prefix(s, n - 1) + s[n - 1]
    }
}

/// Sum of all elements of `s`.
pub open spec fn sum_total(s: Seq<u8>) -> int {
    sum_prefix(s, s.len() as int)
}

/// The search contract over the mathematical model: `Ok((i, q))` holds the
/// smallest index `i` whose running total `q = sum(s[0..=i])` strictly
/// exceeds `lookup` (minimality is expressed by `sum(s[0..i]) <= lookup`,
/// which suffices because running totals never decrease); `Err(q)` holds the
/// total sum, owed exactly when no index qualifies.
pub open spec fn is_search_result(s: Seq<u8>, lookup: int, r: Result<(int, int), int>) -> bool {
    match r {
        Ok((i, q)) => 0 <= i < s.len() && sum_prefix(s, i) <= lookup && q == sum_prefix(s, i + 1)
            && q > lookup,
        Err(q) => q == sum_total(s) && q <= lookup,
    }
}

/// The mathematical outcome an executable result stands for.
pub open spec fn outcome_view(r: Result<(usize, usize), usize>) -> Result<(int, int), int> {
    match r {
        Ok((i, q)) => Ok((i as int, q as int)),
        Err(q) => Err(q as int),
    }
}

/// Running totals never decrease as more elements are taken in.
pub proof fn lemma_sum_prefix_monotonic(s: Seq<u8>, m: int, n: int)
    requires
        m <= n,
    ensures
        sum_prefix(s, m) <= sum_prefix(s, n),
    decreases n - m,
{
    if m < n {
        lemma_sum_prefix_monotonic(s, m, n - 1);
    }
}

/// A sum of `n` byte-valued weights lies between 0 and `255 * n`.
pub proof fn lemma_sum_prefix_bound(s: Seq<u8>, n: int)
    requires
        0 <= n,
    ensures
        0 <= sum_prefix(s, n) <= 255 * n,
    decreases n,
{
    if n > 0 {
        lemma_sum_prefix_bound(s, n - 1);
    }
}

/// Elements known to be zero contribute nothing: the sum over `n` elements
/// equals the sum over the first `m` when everything from `m` on is zero.
pub proof fn lemma_sum_prefix_zero_tail(s: Seq<u8>, m: int, n: int)
    requires
        0 <= m <= n,
        forall|j: int| m <= j < n ==> s[j] == 0,
    ensures
        sum_prefix(s, n) == sum_prefix(s, m),
    decreases n,
{
    if m < n {
        lemma_sum_prefix_zero_tail(s, m, n - 1);
    }
}

/// A chunk `c` that copies `s` starting at `at` has, over its first `n`
/// elements, exactly the global running total past `at + n` less what the
/// elements before `at` contribute.
pub proof fn lemma_sum_prefix_chunk(s: Seq<u8>, c: Seq<u8>, at: int, n: int)
    requires
        0 <= at,
        0 <= n,
        forall|k: int| 0 <= k < n ==> c[k] == s[at + k],
    ensures
        sum_prefix(c, n) == sum_prefix(s, at + n) - sum_prefix(s, at),
    decreases n,
{
    if n > 0 {
        lemma_sum_prefix_chunk(s, c, at, n - 1);
    }
}

/// Empty input: whatever the lookup value, the only outcome the search
/// contract admits is failure carrying the total sum 0.
pub proof fn lemma_search_empty(s: Seq<u8>, lookup: int, r: Result<(int, int), int>)
    requires
        s.len() == 0,
        is_search_result(s, lookup, r),
    ensures
        r == Err::<(int, int), int>(0),
{
}

/// The search contract pins the outcome down: any two results it admits for
/// the same sequence and lookup are equal. Since every scanner of this
/// library ensures the contract, their outcomes provably coincide.
pub proof fn lemma_search_unique(
    s: Seq<u8>,
    lookup: int,
    r1: Result<(int, int), int>,
    r2: Result<(int, int), int>,
)
    requires
        is_search_result(s, lookup, r1),
        is_search_result(s, lookup, r2),
    ensures
        r1 == r2,
{
    match (r1, r2) {
        (Ok((i1, q1)), Ok((i2, q2))) => {
            if i1 < i2 {
                lemma_sum_prefix_monotonic(s, i1 + 1, i2);
            }
            if i2 < i1 {
                lemma_sum_prefix_monotonic(s, i2 + 1, i1);
            }
        },
        (Ok((i1, q1)), Err(q2)) => {
            lemma_sum_prefix_monotonic(s, i1 + 1, s.len() as int);
        },
        (Err(q1), Ok((i2, q2))) => {
            lemma_sum_prefix_monotonic(s, i2 + 1, s.len() as int);
        },
        (Err(q1), Err(q2)) => {},
    }
}

/// Raising the lookup value while holding the sequence fixed never decreases
/// a found index, and cannot turn failure into success.
pub proof fn lemma_search_monotonic(
    s: Seq<u8>,
    lookup1: int,
    lookup2: int,
    r1: Result<(int, int), int>,
    r2: Result<(int, int), int>,
)
    requires
        lookup1 <= lookup2,
        is_search_result(s, lookup1, r1),
        is_search_result(s, lookup2, r2),
    ensures
        r1 is Err ==> r2 is Err,
        r1 is Ok && r2 is Ok ==> r1->Ok_0.0 <= r2->Ok_0.0,
{
    match (r1, r2) {
        (Err(q1), Ok((i2, q2))) => {
            lemma_sum_prefix_monotonic(s, i2 + 1, s.len() as int);
        },
        (Ok((i1, q1)), Ok((i2, q2))) => {
            if i2 < i1 {
                lemma_sum_prefix_monotonic(s, i2 + 1, i1);
            }
        },
        _ => {},
    }
}

} // verus!
