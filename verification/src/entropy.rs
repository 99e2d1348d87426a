//! The frequency model of the Shannon-entropy computation.
//!
//! The empirical entropy of a byte buffer depends only on how often each of
//! the 256 possible byte values occurs in it.  This module builds that
//! frequency table and proves its defining properties: each slot holds the
//! exact occurrence count of its byte value, the slots sum to the buffer's
//! length, and the table depends only on the multiset of bytes, not on their
//! order.

use vstd::prelude::*;
use vstd::multiset::Multiset;

verus! {

broadcast use vstd::seq_lib::group_to_multiset_ensures;

/// How many times the byte value `v` occurs in `s`.
pub open spec fn count_of(s: Seq<u8>, v: u8) -> nat {
    s.to_multiset().count(v)
}

/// The sum of all slots of a frequency table.
pub open spec fn sum_counts(counts: Seq<usize>) -> int
    decreases counts.len(),
{
    if counts.len() == 0 {
        0
    } else {
        sum_counts(counts.drop_last()) + counts.last()
    }
}

/// `counts` is the frequency table of `s`: one slot per byte value, holding
/// that value's number of occurrences in `s`.
pub open spec fn is_freq_table(counts: Seq<usize>, s: Seq<u8>) -> bool {
    &&& counts.len() == 256
    &&& forall|v: int| 0 <= v < 256 ==> counts[v] == count_of(s, v as u8)
}

/// Overwriting one slot changes the sum by the difference at that slot.
proof fn lemma_sum_counts_update(counts: Seq<usize>, j: int, x: usize)
    requires
        0 <= j < counts.len(),
    ensures
        sum_counts(counts.update(j, x)) == sum_counts(counts) - counts[j] + x,
    decreases counts.len(),
{
    let u = counts.update(j, x);
    if j == counts.len() - 1 {
        assert(u.drop_last() =~= counts.drop_last());
    } else {
        assert(u.drop_last() =~= counts.drop_last().update(j, x));
        lemma_sum_counts_update(counts.drop_last(), j, x);
    }
}

/// The sum of a table whose every slot is zero is zero.
proof fn lemma_sum_counts_zero(counts: Seq<usize>)
    requires
        forall|j: int| 0 <= j < counts.len() ==> counts[j] == 0,
    ensures
        sum_counts(counts) == 0,
    decreases counts.len(),
{
    if counts.len() > 0 {
        lemma_sum_counts_zero(counts.drop_last());
    }
}

/// The defining invariant of a frequency table: its slots sum to the length
/// of the sequence it tallies.
pub proof fn lemma_freq_table_total(counts: Seq<usize>, s: Seq<u8>)
    requires
        is_freq_table(counts, s),
    ensures
        sum_counts(counts) == s.len(),
    decreases s.len(),
{
    if s.len() == 0 {
        assert(s =~= Seq::<u8>::empty());
        assert(Seq::<u8>::empty().to_multiset() =~= Multiset::<u8>::empty());
        lemma_sum_counts_zero(counts);
    } else {
        let last = s.last();
        let prev = s.drop_last();
        assert(s =~= prev.push(last));
        assert(prev.push(last).to_multiset() =~= prev.to_multiset().insert(last));
        let shorter = counts.update(last as int, (counts[last as int] - 1) as usize);
        assert(is_freq_table(shorter, prev));
        lemma_freq_table_total(shorter, prev);
        lemma_sum_counts_update(counts, last as int, (counts[last as int] - 1) as usize);
    }
}

/// Builds the frequency table of `bytes`: a vector with one slot for each of
/// the 256 byte values, where slot `v` holds the number of occurrences of `v`
/// in `bytes`, and the slots sum to the length of `bytes`.
pub fn byte_counts(bytes: &[u8]) -> (counts: Vec<usize>)
    ensures
        is_freq_table(counts@, bytes@),
        sum_counts(counts@) == bytes@.len(),
{
    let mut counts: Vec<usize> = Vec::new();
    let mut k: usize = 0;
    while k < 256
        invariant
            k <= 256,
            counts@.len() == k,
            forall|v: int| 0 <= v < k ==> counts@[v] == 0,
            sum_counts(counts@) == 0,
        decreases 256 - k,
    {
        let ghost before = counts@;
        counts.push(0);
        proof {
            assert(counts@.drop_last() =~= before);
        }
        k = k + 1;
    }
    proof {
        assert(bytes@.subrange(0, 0) =~= Seq::<u8>::empty());
        assert(Seq::<u8>::empty().to_multiset() =~= Multiset::<u8>::empty());
    }
    let n = bytes.len();
    let mut i: usize = 0;
    while i < n
        invariant
            i <= n,
            n == bytes@.len(),
            counts@.len() == 256,
            forall|v: int| 0 <= v < 256 ==> counts@[v] == count_of(
                bytes@.subrange(0, i as int),
                v as u8,
            ),
            forall|v: int| 0 <= v < 256 ==> counts@[v] <= i,
            sum_counts(counts@) == i,
        decreases n - i,
    {
        let b = bytes[i];
        let ghost prefix = bytes@.subrange(0, i as int);
        let ghost before = counts@;
        let c = counts[b as usize];
        counts.set(b as usize, c + 1);
        proof {
            assert(bytes@.subrange(0, i as int + 1) =~= prefix.push(b));
            assert(prefix.push(b).to_multiset() =~= prefix.to_multiset().insert(b));
            lemma_sum_counts_update(before, b as int, (c + 1) as usize);
        }
        i = i + 1;
    }
    proof {
        assert(bytes@.subrange(0, n as int) =~= bytes@);
    }
    counts
}

/// The occupied slots of the frequency table of `bytes`, in ascending
/// byte-value order: each pair holds a byte value and its positive occurrence
/// count, and every byte value that occurs in `bytes` is listed.  These pairs
/// are exactly the terms of the entropy summation, in its fixed accumulation
/// order.
pub fn positive_counts(bytes: &[u8]) -> (pairs: Vec<(u8, usize)>)
    ensures
        forall|j: int|
            0 <= j < pairs@.len() ==> (#[trigger] pairs@[j]).1 == count_of(bytes@, pairs@[j].0)
                && pairs@[j].1 > 0,
        forall|j: int, k: int| 0 <= j < k < pairs@.len() ==> pairs@[j].0 < pairs@[k].0,
        forall|v: u8|
            count_of(bytes@, v) > 0 ==> exists|j: int|
                0 <= j < pairs@.len() && (#[trigger] pairs@[j]).0 == v,
{
    let counts = byte_counts(bytes);
    let mut pairs: Vec<(u8, usize)> = Vec::new();
    let mut v: usize = 0;
    while v < 256
        invariant
            v <= 256,
            is_freq_table(counts@, bytes@),
            forall|j: int|
                0 <= j < pairs@.len() ==> (#[trigger] pairs@[j]).1 == count_of(
                    bytes@,
                    pairs@[j].0,
                ) && pairs@[j].1 > 0,
            forall|j: int| 0 <= j < pairs@.len() ==> (#[trigger] pairs@[j]).0 < v,
            forall|j: int, k: int| 0 <= j < k < pairs@.len() ==> pairs@[j].0 < pairs@[k].0,
            forall|w: u8|
                w < v && count_of(bytes@, w) > 0 ==> exists|j: int|
                    0 <= j < pairs@.len() && (#[trigger] pairs@[j]).0 == w,
        decreases 256 - v,
    {
        let c = counts[v];
        let ghost before = pairs@;
        if c > 0 {
            pairs.push((v as u8, c));
            proof {
                assert(forall|j: int| 0 <= j < before.len() ==> pairs@[j] == before[j]);
                assert(pairs@[before.len() as int].0 == v as u8);
            }
        }
        v = v + 1;
    }
    pairs
}

/// A non-empty byte sequence occupies at least one slot of its frequency
/// table: the entropy summation over the occupied slots has at least one
/// term, and with 256 slots in all it never has more than 256.
pub proof fn lemma_nonempty_has_occupied_slot(s: Seq<u8>)
    requires
        s.len() > 0,
    ensures
        exists|v: u8| count_of(s, v) > 0,
{
    assert(s.contains(s[0]));
    assert(count_of(s, s[0]) > 0);
}

/// The frequency model is order-independent: two byte sequences made of the
/// same multiset of bytes have the same occurrence count for every value, so
/// everything computed from the frequency table is invariant under any
/// permutation of the input.
pub proof fn lemma_count_permutation(s1: Seq<u8>, s2: Seq<u8>)
    requires
        s1.to_multiset() == s2.to_multiset(),
    ensures
        forall|v: u8| count_of(s1, v) == count_of(s2, v),
{
}

/// Frequency tables of two permutations of the same bytes are identical, so
/// the entropy computed from either table is the same.
pub proof fn lemma_freq_table_permutation(c1: Seq<usize>, c2: Seq<usize>, s1: Seq<u8>, s2: Seq<u8>)
    requires
        is_freq_table(c1, s1),
        is_freq_table(c2, s2),
        s1.to_multiset() == s2.to_multiset(),
    ensures
        c1 == c2,
{
    assert(c1 =~= c2);
}

/// The frequency model is deterministic: a byte sequence has exactly one
/// frequency table, so two tables built from the same input are identical.
pub proof fn lemma_freq_table_unique(c1: Seq<usize>, c2: Seq<usize>, s: Seq<u8>)
    requires
        is_freq_table(c1, s),
        is_freq_table(c2, s),
    ensures
        c1 == c2,
{
    assert(c1 =~= c2);
}

} // verus!
