//! Counting for the batch (sweep) summary.
//!
//! The summary's means, median and rates are computed in floating point from
//! these counts and from the per-file values.
use vstd::prelude::*;

use crate::types::SelectionMode;

verus! {

/// How many files ended in each selection mode.
#[derive(Debug, Clone, Copy, PartialEq, Eq, Structural)]
pub struct SelectionModeCounts {
    pub polynomial_root: usize,
    pub best_sample_within_budget: usize,
    pub least_bad_sample: usize,
    pub budget_unreachable: usize,
}

/// Number of entries of `s` equal to `m`.
pub open spec fn mode_count(s: Seq<SelectionMode>, m: SelectionMode) -> nat
    decreases s.len(),
{
    if s.len() == 0 {
        0
    } else {
        mode_count(s.drop_last(), m) + if s.last() == m {
            1nat
        } else {
            0nat
        }
    }
}

/// The four mode counts add up to the number of files.
pub proof fn lemma_mode_counts_partition(s: Seq<SelectionMode>)
    ensures
        mode_count(s, SelectionMode::PolynomialRoot) + mode_count(s, SelectionMode::BestSampleWithinBudget)
            + mode_count(s, SelectionMode::LeastBadSample) + mode_count(s, SelectionMode::BudgetUnreachable)
            == s.len(),
    decreases s.len(),
{
    if s.len() > 0 {
        lemma_mode_counts_partition(s.drop_last());
    }
}

/// Count the selection modes of the files that were processed.
pub fn count_selection_modes(modes: &[SelectionMode]) -> (c: SelectionModeCounts)
    ensures
        c.polynomial_root == mode_count(modes@, SelectionMode::PolynomialRoot),
        c.best_sample_within_budget == mode_count(modes@, SelectionMode::BestSampleWithinBudget),
        c.least_bad_sample == mode_count(modes@, SelectionMode::LeastBadSample),
        c.budget_unreachable == mode_count(modes@, SelectionMode::BudgetUnreachable),
        c.polynomial_root + c.best_sample_within_budget + c.least_bad_sample + c.budget_unreachable
            == modes@.len(),
{
    let mut c = SelectionModeCounts {
        polynomial_root: 0,
        best_sample_within_budget: 0,
        least_bad_sample: 0,
        budget_unreachable: 0,
    };
    let mut i: usize = 0;
    proof {
        assert(modes@.subrange(0, 0) =~= Seq::<SelectionMode>::empty());
    }
    while i < modes.len()
        invariant
            0 <= i <= modes@.len(),
            c.polynomial_root == mode_count(modes@.subrange(0, i as int), SelectionMode::PolynomialRoot),
            c.best_sample_within_budget == mode_count(
                modes@.subrange(0, i as int),
                SelectionMode::BestSampleWithinBudget,
            ),
            c.least_bad_sample == mode_count(modes@.subrange(0, i as int), SelectionMode::LeastBadSample),
            c.budget_unreachable == mode_count(
                modes@.subrange(0, i as int),
                SelectionMode::BudgetUnreachable,
            ),
            c.polynomial_root + c.best_sample_within_budget + c.least_bad_sample + c.budget_unreachable
                == i,
        decreases modes@.len() - i,
    {
        let m = modes[i];
        proof {
            assert(modes@.subrange(0, i + 1).drop_last() =~= modes@.subrange(0, i as int));
            assert(modes@.subrange(0, i + 1).last() == m);
        }
        match m {
            SelectionMode::PolynomialRoot => c.polynomial_root = c.polynomial_root + 1,
            SelectionMode::BestSampleWithinBudget => c.best_sample_within_budget = c.best_sample_within_budget
                + 1,
            SelectionMode::LeastBadSample => c.least_bad_sample = c.least_bad_sample + 1,
            SelectionMode::BudgetUnreachable => c.budget_unreachable = c.budget_unreachable + 1,
        }
        i = i + 1;
    }
    proof {
        assert(modes@.subrange(0, modes@.len() as int) =~= modes@);
    }
    c
}

/// Positions of the sorted strengths whose mean is the median: the middle
/// one for an odd count, the two middle ones for an even count; `None` for
/// no files.
pub fn median_positions(n: usize) -> (r: Option<(usize, usize)>)
    ensures
        n == 0 <==> r is None,
        r matches Some(p) ==> p.1 < n && (n % 2 == 1 ==> p.0 == n / 2 && p.1 == n / 2) && (n % 2
            == 0 ==> p.0 == n / 2 - 1 && p.1 == n / 2),
{
    if n == 0 {
        None
    } else if n % 2 == 0 {
        Some((n / 2 - 1, n / 2))
    } else {
        Some((n / 2, n / 2))
    }
}

} // verus!
