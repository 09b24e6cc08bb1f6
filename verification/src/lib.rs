//! Weighted prefix-sum search.
//!
//! Given an ordered sequence of byte-valued weights and a target cumulative
//! value (`lookup`), the search finds the index of the first element whose
//! running total strictly exceeds `lookup`, together with that running total.
//! It returns `Ok((index, prefix_sum))` on success and `Err(total_sum)` when
//! the lookup lies at or beyond the total sum of all weights (`Err(0)` for an
//! empty sequence).
//!
//! Three scanners compute the same outcome: a scalar reference scanner
//! ([`fallback::prefix_sum_fallback`]), a width-8 lane scanner
//! ([`width8::prefix_sum_8`]) and a width-16 lane scanner
//! ([`width16::prefix_sum_16`]). All three carry the same contract,
//! [`model::is_search_result`], so their results provably coincide
//! (see [`model::lemma_search_unique`]).

use vstd::prelude::*;

pub mod fallback;
pub mod model;
pub mod width16;
pub mod width8;

pub use width16::prefix_sum_16;
pub use width8::prefix_sum_8;

verus! {

use crate::model::{is_search_result, outcome_view, sum_total};

/// Calculate the prefix-sum index of `offsets` for `lookup`, using the
/// width-16 lane scanner.
///
/// The returned index, when present, is the smallest `i` such that
/// `sum(offsets[0..=i]) > lookup`, and it comes paired with that running
/// total; otherwise the total sum of all weights is returned. The total of
/// all weights must be representable in `usize`, a machine limit: it is at
/// most 255 times the sequence length.
pub fn prefix_sum_index(offsets: &[u8], lookup: usize) -> (r: Result<(usize, usize), usize>)
    requires
        sum_total(offsets@) <= usize::MAX,
    ensures
        is_search_result(offsets@, lookup as int, outcome_view(r)),
{
    width16::prefix_sum_16(offsets, lookup)
}

} // verus!
