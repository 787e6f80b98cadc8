//! Sums of natural numbers over a sequence.

use vstd::prelude::*;

verus! {

/// The sum of `weights`.
pub open spec fn total(weights: Seq<nat>) -> nat
    decreases weights.len(),
{
    if weights.len() == 0 {
        0
    } else {
        total(weights.drop_last()) + weights.last()
    }
}

/// Appending a weight adds it to the sum.
pub proof fn lemma_total_push(weights: Seq<nat>, weight: nat)
    ensures
        total(weights.push(weight)) == total(weights) + weight,
{
    assert(weights.push(weight).drop_last() =~= weights);
}

/// Replacing one weight changes the sum by the difference.
pub proof fn lemma_total_update(weights: Seq<nat>, i: int, weight: nat)
    requires
        0 <= i < weights.len(),
    ensures
        total(weights.update(i, weight)) + weights[i] == total(weights) + weight,
    decreases weights.len(),
{
    if i == weights.len() - 1 {
        assert(weights.update(i, weight).drop_last() =~= weights.drop_last());
    } else {
        assert(weights.update(i, weight).drop_last() =~= weights.drop_last().update(i, weight));
        lemma_total_update(weights.drop_last(), i, weight);
    }
}

/// The sum is at least each of its weights.
pub proof fn lemma_total_covers(weights: Seq<nat>, i: int)
    requires
        0 <= i < weights.len(),
    ensures
        weights[i] <= total(weights),
    decreases weights.len(),
{
    if i < weights.len() - 1 {
        lemma_total_covers(weights.drop_last(), i);
    }
}

/// Weights of at most one each sum to at most their number; zeros sum to
/// zero.
pub proof fn lemma_total_bounded(weights: Seq<nat>, bound: nat)
    requires
        forall|i: int| 0 <= i < weights.len() ==> weights[i] <= bound,
    ensures
        total(weights) <= bound * weights.len(),
    decreases weights.len(),
{
    if weights.len() > 0 {
        lemma_total_bounded(weights.drop_last(), bound);
        assert(bound * weights.len() == bound * (weights.len() - 1) + bound) by (nonlinear_arith);
    }
}

/// The sum of a prefix is at most the sum of the whole.
pub proof fn lemma_total_prefix(weights: Seq<nat>, n: int)
    requires
        0 <= n <= weights.len(),
    ensures
        total(weights.take(n)) <= total(weights),
    decreases weights.len(),
{
    if n == weights.len() {
        assert(weights.take(n) =~= weights);
    } else {
        assert(weights.drop_last().take(n) =~= weights.take(n));
        lemma_total_prefix(weights.drop_last(), n);
    }
}

} // verus!
