//! Selection of the sharpening strength among probe samples.
//!
//! Used when the fitted cubic has no root in the probed interval, when the
//! fit failed, and for direct search:
//! 1. among samples with `metric_value <= P0`, the one with the largest
//!    strength (the last such on ties);
//! 2. if none qualifies, the one with the smallest `metric_value` (the first
//!    such on ties).
use vstd::prelude::*;

use crate::error::CoreError;
use crate::float_bits::{bits_gt, bits_le, is_nan, le, lt};
use crate::types::{CrossingStatus, SelectionMode};

verus! {

/// The chosen probe sample and how it was chosen.
#[derive(Debug, Clone, Copy, PartialEq, Eq, Structural)]
pub struct SampleChoice {
    /// Index of the chosen sample.
    pub index: usize,
    pub selection_mode: SelectionMode,
    pub crossing_status: CrossingStatus,
}

/// Sample `i` is within the artifact budget.
pub open spec fn qualifies(metrics: Seq<u32>, p0: u32, i: int) -> bool {
    le(metrics[i], p0)
}

/// Some sample is within budget.
pub open spec fn any_qualifies(metrics: Seq<u32>, p0: u32) -> bool {
    exists|i: int| 0 <= i < metrics.len() && qualifies(metrics, p0, i)
}

/// The comparisons the selection makes are all between non-NaN values:
/// with two or more qualifying samples their strengths are compared; with
/// none and two or more samples, all metric values are compared.
pub open spec fn comparisons_defined(strengths: Seq<u32>, metrics: Seq<u32>, p0: u32) -> bool {
    &&& forall|i: int, j: int|
        #![trigger qualifies(metrics, p0, i), qualifies(metrics, p0, j)]
        0 <= i < metrics.len() && 0 <= j < metrics.len() && i != j && qualifies(metrics, p0, i)
            && qualifies(metrics, p0, j) ==> !is_nan(strengths[i])
    &&& (!any_qualifies(metrics, p0) && metrics.len() >= 2) ==> forall|i: int|
        0 <= i < metrics.len() ==> !is_nan(#[trigger] metrics[i])
}

/// `i` is the last qualifying sample of largest strength.
pub open spec fn is_best_within_budget(strengths: Seq<u32>, metrics: Seq<u32>, p0: u32, i: int) -> bool {
    &&& 0 <= i < metrics.len()
    &&& qualifies(metrics, p0, i)
    &&& forall|j: int|
        0 <= j < metrics.len() && j != i && qualifies(metrics, p0, j) ==> (j < i ==> le(
            strengths[j],
            strengths[i],
        )) && (j > i ==> lt(strengths[j], strengths[i]))
}

/// `i` is the first sample of smallest metric value.
pub open spec fn is_least_bad(metrics: Seq<u32>, i: int) -> bool {
    &&& 0 <= i < metrics.len()
    &&& forall|j: int|
        0 <= j < metrics.len() && j != i ==> (j < i ==> lt(metrics[i], metrics[j])) && (j > i
            ==> le(metrics[i], metrics[j]))
}

/// Choose a probe sample; samples are given by the bit patterns of their
/// strengths and metric values, `p0` is the budget.
///
/// Fails with `NoValidRoot` when there are no samples.
pub fn find_sharpness_direct(strengths: &[u32], metrics: &[u32], p0: u32) -> (r: Result<SampleChoice, CoreError>)
    requires
        strengths@.len() == metrics@.len(),
        comparisons_defined(strengths@, metrics@, p0),
    ensures
        r is Err <==> metrics@.len() == 0,
        r matches Err(e) ==> e is NoValidRoot,
        r matches Ok(c) ==> c.crossing_status == CrossingStatus::NotFoundInRange,
        r matches Ok(c) ==> (any_qualifies(metrics@, p0) ==> c.selection_mode
            == SelectionMode::BestSampleWithinBudget && is_best_within_budget(
            strengths@,
            metrics@,
            p0,
            c.index as int,
        )),
        r matches Ok(c) ==> (!any_qualifies(metrics@, p0) ==> c.selection_mode
            == SelectionMode::LeastBadSample && is_least_bad(metrics@, c.index as int)),
{
    let n = metrics.len();
    if n == 0 {
        return Err(
            CoreError::NoValidRoot {
                reason: "no probe samples available for fallback selection".to_owned(),
            },
        );
    }
    // Largest strength among the samples within budget, last on ties.
    let mut best: Option<usize> = None;
    let mut i: usize = 0;
    while i < n
        invariant
            n == metrics@.len(),
            strengths@.len() == n,
            comparisons_defined(strengths@, metrics@, p0),
            0 <= i <= n,
            best is None ==> forall|j: int| 0 <= j < i ==> !qualifies(metrics@, p0, j),
            best matches Some(b) ==> b < i && qualifies(metrics@, p0, b as int) && forall|j: int|
                0 <= j < i && j != b && qualifies(metrics@, p0, j) ==> (j < b ==> le(
                    strengths@[j],
                    strengths@[b as int],
                )) && (j > b ==> lt(strengths@[j], strengths@[b as int])),
        decreases n - i,
    {
        if bits_le(metrics[i], p0) {
            match best {
                None => {
                    best = Some(i);
                },
                Some(b) => {
                    assert(qualifies(metrics@, p0, b as int) && qualifies(metrics@, p0, i as int));
                    assert(!is_nan(strengths@[b as int]) && !is_nan(strengths@[i as int]));
                    if bits_le(strengths[b], strengths[i]) {
                        best = Some(i);
                    }
                },
            }
        }
        i = i + 1;
    }
    match best {
        Some(b) => {
            return Ok(
                SampleChoice {
                    index: b,
                    selection_mode: SelectionMode::BestSampleWithinBudget,
                    crossing_status: CrossingStatus::NotFoundInRange,
                },
            );
        },
        None => {},
    }
    // Nothing within budget: smallest metric value, first on ties.
    let mut least: usize = 0;
    let mut k: usize = 1;
    while k < n
        invariant
            n == metrics@.len(),
            n >= 1,
            !any_qualifies(metrics@, p0),
            comparisons_defined(strengths@, metrics@, p0),
            1 <= k <= n,
            least < k,
            forall|j: int|
                0 <= j < k && j != least ==> (j < least ==> lt(metrics@[least as int], metrics@[j]))
                    && (j > least ==> le(metrics@[least as int], metrics@[j])),
        decreases n - k,
    {
        assert(!is_nan(metrics@[least as int]) && !is_nan(metrics@[k as int]));
        if bits_gt(metrics[least], metrics[k]) {
            least = k;
        }
        k = k + 1;
    }
    Ok(
        SampleChoice {
            index: least,
            selection_mode: SelectionMode::LeastBadSample,
            crossing_status: CrossingStatus::NotFoundInRange,
        },
    )
}

} // verus!
