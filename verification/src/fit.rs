//! Robustness checks on probe data.
use vstd::prelude::*;

use crate::float_bits::{bits_lt, lt};

verus! {

/// Number of adjacent pairs `(s[i], s[i + 1])` with `s[i + 1] < s[i]`.
pub open spec fn inversion_count(s: Seq<u32>) -> nat
    decreases s.len(),
{
    if s.len() < 2 {
        0
    } else {
        inversion_count(s.drop_last()) + if lt(s[s.len() - 1], s[s.len() - 2]) {
            1nat
        } else {
            0nat
        }
    }
}

/// Whether probe metric values (in strength order, as `f32` bit patterns)
/// are non-decreasing.
///
/// Returns `(monotonic, quasi_monotonic)`: no inversion, at most one.
pub fn check_monotonicity(metric_values: &[u32]) -> (r: (bool, bool))
    ensures
        r.0 == (inversion_count(metric_values@) == 0),
        r.1 == (inversion_count(metric_values@) <= 1),
{
    let mut inversions: usize = 0;
    let mut i: usize = 1;
    if metric_values.len() == 0 {
        return (true, true);
    }
    proof {
        assert(metric_values@.subrange(0, 1).len() == 1);
    }
    while i < metric_values.len()
        invariant
            1 <= i <= metric_values@.len(),
            inversions == inversion_count(metric_values@.subrange(0, i as int)),
            inversions < i,
        decreases metric_values@.len() - i,
    {
        proof {
            let pre = metric_values@.subrange(0, i as int);
            let next = metric_values@.subrange(0, i + 1);
            assert(next.drop_last() =~= pre);
        }
        if bits_lt(metric_values[i], metric_values[i - 1]) {
            inversions = inversions + 1;
        }
        i = i + 1;
    }
    proof {
        assert(metric_values@.subrange(0, metric_values@.len() as int) =~= metric_values@);
    }
    (inversions == 0, inversions <= 1)
}

/// No inversion at all means no adjacent decrease anywhere.
pub proof fn lemma_no_inversion_means_non_decreasing(s: Seq<u32>)
    requires
        inversion_count(s) == 0,
    ensures
        forall|i: int| 0 <= i < s.len() - 1 ==> !lt(#[trigger] s[i + 1], s[i]),
    decreases s.len(),
{
    if s.len() >= 2 {
        let t = s.drop_last();
        lemma_no_inversion_means_non_decreasing(t);
        assert forall|i: int| 0 <= i < s.len() - 1 implies !lt(#[trigger] s[i + 1], s[i]) by {
            if i < s.len() - 2 {
                assert(t[i + 1] == s[i + 1] && t[i] == s[i]);
            }
        }
    }
}

/// The inversion count is the number of adjacent decreases: it is zero
/// exactly when no value is followed by a strictly smaller one, at most one
/// less than the length, and grows by one for each decrease appended.
pub proof fn lemma_inversions_count_adjacent_decreases(s: Seq<u32>, v: u32)
    ensures
        inversion_count(s) == 0 <==> forall|i: int| 0 <= i < s.len() - 1 ==> !lt(#[trigger] s[i + 1], s[i]),
        s.len() >= 1 ==> inversion_count(s) <= s.len() - 1,
        s.len() >= 1 ==> inversion_count(s.push(v)) == inversion_count(s) + if lt(v, s.last()) {
            1int
        } else {
            0int
        },
    decreases s.len(),
{
    if inversion_count(s) == 0 {
        lemma_no_inversion_means_non_decreasing(s);
    }
    if s.len() >= 2 {
        let t = s.drop_last();
        lemma_inversions_count_adjacent_decreases(t, s.last());
        if forall|i: int| 0 <= i < s.len() - 1 ==> !lt(#[trigger] s[i + 1], s[i]) {
            assert forall|i: int| 0 <= i < t.len() - 1 implies !lt(#[trigger] t[i + 1], t[i]) by {
                assert(s[i + 1] == t[i + 1] && s[i] == t[i]);
            }
            let k = s.len() - 2;
            assert(!lt(s[k + 1], s[k]));
        }
    }
    if s.len() >= 1 {
        assert(s.push(v).drop_last() =~= s);
    }
}

} // verus!
