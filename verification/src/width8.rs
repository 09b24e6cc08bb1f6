//! Width-8 lane scanner.
//!
//! Processes eight weights per block. Each byte is widened into a 16-bit
//! lane (the largest block sum, 8 × 255 = 2040, fits comfortably), the
//! running totals of all eight lanes are produced by three shift-and-add
//! steps (shift by 4, 2 and 1 lane widths), and the lanes are then compared
//! against the lookup value to find the lowest one strictly above it. A
//! lookup beyond the signed 16-bit comparison range (32767) is intercepted
//! before any lane comparison and reported as a local failure carrying the
//! block total.

use vstd::prelude::*;

verus! {

use crate::model::{
    is_search_result, lemma_sum_prefix_bound, lemma_sum_prefix_chunk, lemma_sum_prefix_monotonic,
    lemma_sum_prefix_zero_tail, outcome_view, sum_prefix, sum_total,
};

/// Copy `len` weights of `offsets` starting at `at` into a block of 8,
/// padding the tail with zero weights.
pub(crate) fn copy_chunk_8(offsets: &[u8], at: usize, len: usize) -> (c: [u8; 8])
    requires
        len <= 8,
        at + len <= offsets@.len(),
    ensures
        forall|j: int| 0 <= j < len ==> c@[j] == offsets@[at + j],
        forall|j: int| len <= j < 8 ==> c@[j] == 0,
{
    let mut c: [u8; 8] = [0u8; 8];
    let m = offsets.len();
    let mut j: usize = 0;
    while j < len
        invariant
            j <= len <= 8,
            m == offsets@.len(),
            at + len <= m,
            forall|k: int| 0 <= k < j ==> c@[k] == offsets@[at + k],
            forall|k: int| j <= k < 8 ==> c@[k] == 0,
        decreases len - j,
    {
        c[j] = offsets[at + j];
        j = j + 1;
    }
    c
}

/// One data-parallel prefix-sum step: every lane takes on its own value
/// plus the value `shift` lanes below, lanes below `shift` are unchanged.
fn lane_shift_add_8(lanes: &[u16; 8], shift: usize) -> (r: [u16; 8])
    requires
        1 <= shift <= 8,
        forall|k: int| 0 <= k < 8 ==> lanes@[k] <= 2040,
    ensures
        forall|i: int|
            #![trigger r@[i]]
            0 <= i < 8 ==> r@[i] as int == lanes@[i] as int + (if i >= shift {
                lanes@[i - shift] as int
            } else {
                0
            }),
{
    let mut r: [u16; 8] = [0u16; 8];
    let mut i: usize = 0;
    while i < 8
        invariant
            i <= 8,
            1 <= shift <= 8,
            forall|k: int| 0 <= k < 8 ==> lanes@[k] <= 2040,
            forall|k: int|
                #![trigger r@[k]]
                0 <= k < i ==> r@[k] as int == lanes@[k] as int + (if k >= shift {
                    lanes@[k - shift] as int
                } else {
                    0
                }),
        decreases 8 - i,
    {
        if i >= shift {
            r[i] = lanes[i] + lanes[i - shift];
        } else {
            r[i] = lanes[i];
        }
        i = i + 1;
    }
    r
}

/// Calculate the prefix-sum index of one block of exactly 8 weights: widen
/// the bytes into 16-bit lanes, form all eight running totals by
/// shift-and-add steps, then report the lowest lane strictly above
/// `lookup`, or failure with the block total.
pub fn prefix_sum_8_inner(offsets: &[u8; 8], lookup: usize) -> (r: Result<(usize, usize), usize>)
    ensures
        is_search_result(offsets@, lookup as int, outcome_view(r)),
{
    let mut w: [u16; 8] = [0u16; 8];
    let mut j: usize = 0;
    while j < 8
        invariant
            j <= 8,
            forall|k: int| 0 <= k < j ==> w@[k] == offsets@[k] as u16,
        decreases 8 - j,
    {
        w[j] = offsets[j] as u16;
        j = j + 1;
    }
    assert(forall|k: int| 0 <= k < 8 ==> w@[k] <= 255);

    // Three shift-and-add steps turn the widened lanes into running totals:
    // after shifts by 4, 2 and 1, lane i holds the sum of widened lanes
    // i-7..=i, which for i < 8 is the whole prefix through i.
    let a = lane_shift_add_8(&w, 4);
    assert(forall|k: int| 0 <= k < 8 ==> a@[k] <= 510);
    let b = lane_shift_add_8(&a, 2);
    assert(forall|k: int| 0 <= k < 8 ==> b@[k] <= 1020);
    let c = lane_shift_add_8(&b, 1);

    proof {
        reveal_with_fuel(sum_prefix, 9);
        assert(c@[0] as int == sum_prefix(offsets@, 1));
        assert(c@[1] as int == sum_prefix(offsets@, 2));
        assert(c@[2] as int == sum_prefix(offsets@, 3));
        assert(c@[3] as int == sum_prefix(offsets@, 4));
        assert(c@[4] as int == sum_prefix(offsets@, 5));
        assert(c@[5] as int == sum_prefix(offsets@, 6));
        assert(c@[6] as int == sum_prefix(offsets@, 7));
        assert(c@[7] as int == sum_prefix(offsets@, 8));
    }

    // Lookups beyond the signed 16-bit comparison range cannot be compared
    // lane-wise; no block sum can reach them, so the block fails locally.
    if lookup > 32767 {
        proof {
            lemma_sum_prefix_bound(offsets@, 8);
        }
        return Err(c[7] as usize);
    }

    let lk: u16 = lookup as u16;
    let mut i: usize = 0;
    while i < 8
        invariant
            i <= 8,
            lk == lookup,
            forall|k: int| 0 <= k < 8 ==> c@[k] as int == sum_prefix(offsets@, k + 1),
            sum_prefix(offsets@, i as int) <= lookup,
        decreases 8 - i,
    {
        if c[i] > lk {
            return Ok((i, c[i] as usize));
        }
        i = i + 1;
    }
    Err(c[7] as usize)
}

/// Calculate the prefix-sum index of `offsets` for `lookup` with the
/// width-8 lane scanner: full blocks of 8 are scanned in turn, carrying the
/// running total and index base across blocks; a short trailing block is
/// zero-padded, which cannot create a false hit. The total of all weights
/// must be representable in `usize`, a machine limit: it is at most 255
/// times the sequence length.
pub fn prefix_sum_8(offsets: &[u8], lookup: usize) -> (r: Result<(usize, usize), usize>)
    requires
        sum_total(offsets@) <= usize::MAX,
    ensures
        is_search_result(offsets@, lookup as int, outcome_view(r)),
{
    let mut start: usize = 0;
    let mut index: usize = 0;
    let n = offsets.len();
    while n - index >= 8
        invariant
            index <= n,
            n == offsets@.len(),
            sum_total(offsets@) <= usize::MAX,
            start == sum_prefix(offsets@, index as int),
            start <= lookup,
        decreases n - index,
    {
        let chunk = copy_chunk_8(offsets, index, 8);
        match prefix_sum_8_inner(&chunk, lookup - start) {
            Ok((idx, sum)) => {
                proof {
                    lemma_sum_prefix_chunk(offsets@, chunk@, index as int, idx as int);
                    lemma_sum_prefix_chunk(offsets@, chunk@, index as int, idx as int + 1);
                    lemma_sum_prefix_monotonic(
                        offsets@,
                        index as int + idx as int + 1,
                        offsets@.len() as int,
                    );
                }
                return Ok((index + idx, start + sum));
            },
            Err(sum) => {
                proof {
                    lemma_sum_prefix_chunk(offsets@, chunk@, index as int, 8);
                }
                start = start + sum;
                index = index + 8;
            },
        }
    }
    let rem = n - index;
    let chunk = copy_chunk_8(offsets, index, rem);
    match prefix_sum_8_inner(&chunk, lookup - start) {
        Ok((idx, sum)) => {
            // A hit cannot lie in the zero padding: a zero weight leaves the
            // running total where it was, below the lookup value.
            assert(idx < rem) by {
                if idx >= rem {
                    assert(sum_prefix(chunk@, idx as int + 1) == sum_prefix(chunk@, idx as int)
                        + chunk@[idx as int]);
                }
            }
            proof {
                lemma_sum_prefix_chunk(offsets@, chunk@, index as int, idx as int);
                lemma_sum_prefix_chunk(offsets@, chunk@, index as int, idx as int + 1);
                lemma_sum_prefix_monotonic(
                    offsets@,
                    index as int + idx as int + 1,
                    offsets@.len() as int,
                );
            }
            Ok((index + idx, start + sum))
        },
        Err(sum) => {
            proof {
                lemma_sum_prefix_zero_tail(chunk@, rem as int, 8);
                lemma_sum_prefix_chunk(offsets@, chunk@, index as int, rem as int);
            }
            Err(start + sum)
        },
    }
}

} // verus!
