//! Width-16 lane scanner.
//!
//! Processes sixteen weights per block, the same way as the width-8
//! scanner (the largest block sum, 16 × 255 = 4080, still fits a signed
//! 16-bit lane, and the lookup guard bound stays 32767). The one structural
//! addition: shift-and-add steps only move values within each half of 8
//! lanes, so they produce two independent half prefix sums, and an explicit
//! carry step then adds the last lane of the first half to every lane of
//! the second half.

use vstd::prelude::*;

verus! {

use crate::model::{
    is_search_result, lemma_sum_prefix_bound, lemma_sum_prefix_chunk, lemma_sum_prefix_monotonic,
    lemma_sum_prefix_zero_tail, outcome_view, sum_prefix, sum_total,
};

/// Copy `len` weights of `offsets` starting at `at` into a block of 16,
/// padding the tail with zero weights.
pub(crate) fn copy_chunk_16(offsets: &[u8], at: usize, len: usize) -> (c: [u8; 16])
    requires
        len <= 16,
        at + len <= offsets@.len(),
    ensures
        forall|j: int| 0 <= j < len ==> c@[j] == offsets@[at + j],
        forall|j: int| len <= j < 16 ==> c@[j] == 0,
{
    let mut c: [u8; 16] = [0u8; 16];
    let m = offsets.len();
    let mut j: usize = 0;
    while j < len
        invariant
            j <= len <= 16,
            m == offsets@.len(),
            at + len <= m,
            forall|k: int| 0 <= k < j ==> c@[k] == offsets@[at + k],
            forall|k: int| j <= k < 16 ==> c@[k] == 0,
        decreases len - j,
    {
        c[j] = offsets[at + j];
        j = j + 1;
    }
    c
}

/// One data-parallel prefix-sum step over two independent halves of 8
/// lanes: within each half, every lane takes on its own value plus the
/// value `shift` lanes below; the lowest `shift` lanes of each half are
/// unchanged. Nothing crosses the half boundary.
fn lane_shift_add_16(lanes: &[u16; 16], shift: usize) -> (r: [u16; 16])
    requires
        1 <= shift <= 8,
        forall|k: int| 0 <= k < 16 ==> lanes@[k] <= 2040,
    ensures
        forall|i: int|
            #![trigger r@[i]]
            0 <= i < 16 ==> r@[i] as int == lanes@[i] as int + (if i % 8 >= shift {
                lanes@[i - shift] as int
            } else {
                0
            }),
{
    let mut r: [u16; 16] = [0u16; 16];
    let mut i: usize = 0;
    while i < 16
        invariant
            i <= 16,
            1 <= shift <= 8,
            forall|k: int| 0 <= k < 16 ==> lanes@[k] <= 2040,
            forall|k: int|
                #![trigger r@[k]]
                0 <= k < i ==> r@[k] as int == lanes@[k] as int + (if k % 8 >= shift {
                    lanes@[k - shift] as int
                } else {
                    0
                }),
        decreases 16 - i,
    {
        if i % 8 >= shift {
            r[i] = lanes[i] + lanes[i - shift];
        } else {
            r[i] = lanes[i];
        }
        i = i + 1;
    }
    r
}

/// The cross-half carry step: add the last lane of the first half to every
/// lane of the second half, turning two half prefix sums into one full
/// prefix sum. Lanes of the first half are unchanged.
fn lane_carry_16(lanes: &[u16; 16]) -> (r: [u16; 16])
    requires
        forall|k: int| 0 <= k < 16 ==> lanes@[k] <= 2040,
    ensures
        forall|i: int| #![trigger r@[i]] 0 <= i < 8 ==> r@[i] == lanes@[i],
        forall|i: int|
            #![trigger r@[i]]
            8 <= i < 16 ==> r@[i] as int == lanes@[i] as int + lanes@[7] as int,
{
    let carry = lanes[7];
    let mut r: [u16; 16] = [0u16; 16];
    let mut i: usize = 0;
    while i < 16
        invariant
            i <= 16,
            carry == lanes@[7],
            forall|k: int| 0 <= k < 16 ==> lanes@[k] <= 2040,
            forall|k: int| #![trigger r@[k]] 0 <= k < i && k < 8 ==> r@[k] == lanes@[k],
            forall|k: int|
                #![trigger r@[k]]
                8 <= k < i ==> r@[k] as int == lanes@[k] as int + lanes@[7] as int,
        decreases 16 - i,
    {
        if i >= 8 {
            r[i] = lanes[i] + carry;
        } else {
            r[i] = lanes[i];
        }
        i = i + 1;
    }
    r
}

/// Calculate the prefix-sum index of one block of exactly 16 weights:
/// widen the bytes into 16-bit lanes, form the running totals by
/// shift-and-add steps within each half plus the cross-half carry, then
/// report the lowest lane strictly above `lookup`, or failure with the
/// block total.
pub fn prefix_sum_16_inner(offsets: &[u8; 16], lookup: usize) -> (r: Result<(usize, usize), usize>)
    ensures
        is_search_result(offsets@, lookup as int, outcome_view(r)),
{
    let mut w: [u16; 16] = [0u16; 16];
    let mut j: usize = 0;
    while j < 16
        invariant
            j <= 16,
            forall|k: int| 0 <= k < j ==> w@[k] == offsets@[k] as u16,
        decreases 16 - j,
    {
        w[j] = offsets[j] as u16;
        j = j + 1;
    }
    assert(forall|k: int| 0 <= k < 16 ==> w@[k] <= 255);

    // Shift-and-add by 1, 2 and 4 lanes gives each lane the sum of up to 8
    // lanes below it within its own half; the carry step completes the
    // second half with the first half's total.
    let a = lane_shift_add_16(&w, 1);
    assert(forall|k: int| 0 <= k < 16 ==> a@[k] <= 510);
    let b = lane_shift_add_16(&a, 2);
    assert(forall|k: int| 0 <= k < 16 ==> b@[k] <= 1020);
    let c = lane_shift_add_16(&b, 4);
    assert(forall|k: int| 0 <= k < 16 ==> c@[k] <= 2040);
    let d = lane_carry_16(&c);

    proof {
        reveal_with_fuel(sum_prefix, 17);
        assert(d@[0] as int == sum_prefix(offsets@, 1));
        assert(d@[1] as int == sum_prefix(offsets@, 2));
        assert(d@[2] as int == sum_prefix(offsets@, 3));
        assert(d@[3] as int == sum_prefix(offsets@, 4));
        assert(d@[4] as int == sum_prefix(offsets@, 5));
        assert(d@[5] as int == sum_prefix(offsets@, 6));
        assert(d@[6] as int == sum_prefix(offsets@, 7));
        assert(d@[7] as int == sum_prefix(offsets@, 8));
        assert(d@[8] as int == sum_prefix(offsets@, 9));
        assert(d@[9] as int == sum_prefix(offsets@, 10));
        assert(d@[10] as int == sum_prefix(offsets@, 11));
        assert(d@[11] as int == sum_prefix(offsets@, 12));
        assert(d@[12] as int == sum_prefix(offsets@, 13));
        assert(d@[13] as int == sum_prefix(offsets@, 14));
        assert(d@[14] as int == sum_prefix(offsets@, 15));
        assert(d@[15] as int == sum_prefix(offsets@, 16));
    }

    // Lookups beyond the signed 16-bit comparison range cannot be compared
    // lane-wise; no block sum can reach them, so the block fails locally.
    if lookup > 32767 {
        proof {
            lemma_sum_prefix_bound(offsets@, 16);
        }
        return Err(d[15] as usize);
    }

    let lk: u16 = lookup as u16;
    let mut i: usize = 0;
    while i < 16
        invariant
            i <= 16,
            lk == lookup,
            forall|k: int| 0 <= k < 16 ==> d@[k] as int == sum_prefix(offsets@, k + 1),
            sum_prefix(offsets@, i as int) <= lookup,
        decreases 16 - i,
    {
        if d[i] > lk {
            return Ok((i, d[i] as usize));
        }
        i = i + 1;
    }
    Err(d[15] as usize)
}

/// Calculate the prefix-sum index of `offsets` for `lookup` with the
/// width-16 lane scanner: full blocks of 16 are scanned in turn, carrying
/// the running total and index base across blocks; a short trailing block
/// is zero-padded, which cannot create a false hit. The total of all
/// weights must be representable in `usize`, a machine limit: it is at
/// most 255 times the sequence length.
pub fn prefix_sum_16(offsets: &[u8], lookup: usize) -> (r: Result<(usize, usize), usize>)
    requires
        sum_total(offsets@) <= usize::MAX,
    ensures
        is_search_result(offsets@, lookup as int, outcome_view(r)),
{
    let mut start: usize = 0;
    let mut index: usize = 0;
    let n = offsets.len();
    while n - index >= 16
        invariant
            index <= n,
            n == offsets@.len(),
            sum_total(offsets@) <= usize::MAX,
            start == sum_prefix(offsets@, index as int),
            start <= lookup,
        decreases n - index,
    {
        let chunk = copy_chunk_16(offsets, index, 16);
        match prefix_sum_16_inner(&chunk, lookup - start) {
            Ok((idx, sum)) => {
                proof {
                    lemma_sum_prefix_chunk(offsets@, chunk@, index as int, idx as int);
                    lemma_sum_prefix_chunk(offsets@, chunk@, index as int, idx as int + 1);
                    lemma_sum_prefix_monotonic(
                        offsets@,
                        index as int + idx as int + 1,
                        offsets@.len() as int,
                    );
                }
                return Ok((index + idx, start + sum));
            },
            Err(sum) => {
                proof {
                    lemma_sum_prefix_chunk(offsets@, chunk@, index as int, 16);
                }
                start = start + sum;
                index = index + 16;
            },
        }
    }
    let rem = n - index;
    let chunk = copy_chunk_16(offsets, index, rem);
    match prefix_sum_16_inner(&chunk, lookup - start) {
        Ok((idx, sum)) => {
            // A hit cannot lie in the zero padding: a zero weight leaves the
            // running total where it was, below the lookup value.
            assert(idx < rem) by {
                if idx >= rem {
                    assert(sum_prefix(chunk@, idx as int + 1) == sum_prefix(chunk@, idx as int)
                        + chunk@[idx as int]);
                }
            }
            proof {
                lemma_sum_prefix_chunk(offsets@, chunk@, index as int, idx as int);
                lemma_sum_prefix_chunk(offsets@, chunk@, index as int, idx as int + 1);
                lemma_sum_prefix_monotonic(
                    offsets@,
                    index as int + idx as int + 1,
                    offsets@.len() as int,
                );
            }
            Ok((index + idx, start + sum))
        },
        Err(sum) => {
            proof {
                lemma_sum_prefix_zero_tail(chunk@, rem as int, 16);
                lemma_sum_prefix_chunk(offsets@, chunk@, index as int, rem as int);
            }
            Err(start + sum)
        },
    }
}

} // verus!
