//! The crate's only window onto randomness: thin wrappers over the rand
//! crate. Nothing is assumed about which value comes back beyond what rand's
//! own code guarantees of every draw.

use vstd::prelude::*;

verus! {

/// Sum of a sequence of weights.
pub open spec fn sum_of(s: Seq<u64>) -> int
    decreases s.len(),
{
    if s.len() == 0 {
        0
    } else {
        sum_of(s.drop_last()) + s.last()
    }
}

/// Appending a weight adds it to the sum.
pub proof fn lemma_sum_push(s: Seq<u64>, w: u64)
    ensures
        sum_of(s.push(w)) == sum_of(s) + w,
{
    assert(s.push(w).drop_last() =~= s);
}

/// The sum of nonnegative weights dominates each one of them.
pub proof fn lemma_sum_ge_elem(s: Seq<u64>, i: int)
    requires
        0 <= i < s.len(),
    ensures
        sum_of(s) >= s[i],
    decreases s.len(),
{
    if i == s.len() - 1 {
        lemma_sum_nonneg(s.drop_last());
    } else {
        lemma_sum_ge_elem(s.drop_last(), i);
    }
}

/// A sum of unsigned weights is nonnegative.
pub proof fn lemma_sum_nonneg(s: Seq<u64>)
    ensures
        sum_of(s) >= 0,
    decreases s.len(),
{
    if s.len() > 0 {
        lemma_sum_nonneg(s.drop_last());
    }
}

/// A prefix sum grows by the next element.
pub proof fn lemma_sum_take_step(s: Seq<u64>, k: int)
    requires
        0 <= k < s.len(),
    ensures
        sum_of(s.take(k + 1)) == sum_of(s.take(k)) + s[k],
{
    assert(s.take(k + 1).drop_last() =~= s.take(k));
}

/// A prefix sum never exceeds the whole sum.
pub proof fn lemma_sum_prefix_le(s: Seq<u64>, k: int)
    requires
        0 <= k <= s.len(),
    ensures
        sum_of(s.take(k)) <= sum_of(s),
    decreases s.len(),
{
    if k == s.len() {
        assert(s.take(k) =~= s);
    } else {
        assert(s.drop_last().take(k) =~= s.take(k));
        lemma_sum_prefix_le(s.drop_last(), k);
    }
}

/// Relies on rand's `Rng::random_range` over `lo..hi`: the draw lies in the
/// half-open range. It panics only on an empty range, which the
/// precondition excludes.
#[verifier::external_body]
pub(crate) fn random_range_i64(lo: i64, hi: i64) -> (r: i64)
    requires
        lo < hi,
    ensures
        lo <= r < hi,
{
    rand::Rng::random_range(&mut rand::rng(), lo..hi)
}

/// Relies on rand's `WeightedIndex`: `new` fails exactly on an empty list or
/// a zero total (the precondition rules out an overflowing sum), and
/// `sample` returns the index of an entry with positive weight.
#[verifier::external_body]
pub(crate) fn weighted_index_sample(weights: &Vec<u64>) -> (r: Option<usize>)
    requires
        sum_of(weights@) <= u64::MAX,
    ensures
        (r is Some) <==> sum_of(weights@) > 0,
        r matches Some(i) ==> i < weights@.len() && weights@[i as int] > 0,
{
    match rand::distr::weighted::WeightedIndex::new(weights.iter()) {
        Ok(dist) => Some(rand::distr::Distribution::sample(&dist, &mut rand::rng())),
        Err(_) => None,
    }
}

} // verus!
