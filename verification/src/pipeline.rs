//! Decisions of the pipeline between the numeric stages.
//!
//! The orchestrator measures artifact ratios and strengths in floating
//! point; here it learns what follows from them: whether the budget is
//! reachable, which selection mode is reported, why the polynomial root was
//! not used, where the dense probe window goes, and when the adaptive
//! backoff stops.  Measured values arrive as `f32` bit patterns.
use vstd::prelude::*;

use crate::float_bits::{bits_gt, bits_le, bits_lt, gt, le, lt};
use crate::types::{
    CrossingStatus, FallbackReason, FitStatus, FitStrategy, MetricMode, SelectionMode,
};

verus! {

// ---------------------------------------------------------------------------
// Budget reachability and the reported selection mode
// ---------------------------------------------------------------------------

/// What the pipeline reports about the artifact budget.
#[derive(Debug, Clone, Copy, PartialEq, Eq, Structural)]
pub struct BudgetOutcome {
    /// The baseline alone does not exceed the budget.
    pub budget_reachable_baseline: bool,
    /// The budget is met by the selected strength.
    pub budget_reachable: bool,
    /// Selection mode as reported in the diagnostics.
    pub selection_mode: SelectionMode,
}

/// Budget reachability given the baseline artifact ratio and the target:
/// in absolute mode the baseline must not exceed the target, in relative
/// mode the metric starts at zero and the budget is always reachable.
pub open spec fn baseline_reachable(mode: MetricMode, baseline: u32, p0: u32) -> bool {
    match mode {
        MetricMode::AbsoluteTotal => le(baseline, p0),
        MetricMode::RelativeToBase => true,
    }
}

/// The budget outcome for a solver result.
pub open spec fn budget_outcome(mode: MetricMode, baseline: u32, p0: u32, solver_mode: SelectionMode) -> BudgetOutcome {
    let brb = baseline_reachable(mode, baseline, p0);
    BudgetOutcome {
        budget_reachable_baseline: brb,
        budget_reachable: brb && solver_mode != SelectionMode::LeastBadSample,
        selection_mode: if !brb {
            SelectionMode::BudgetUnreachable
        } else {
            solver_mode
        },
    }
}

/// Combine the solver's selection mode with the baseline check.
pub fn resolve_budget(mode: MetricMode, baseline: u32, p0: u32, solver_mode: SelectionMode) -> (r: BudgetOutcome)
    ensures
        r == budget_outcome(mode, baseline, p0, solver_mode),
{
    let brb = match mode {
        MetricMode::AbsoluteTotal => bits_le(baseline, p0),
        MetricMode::RelativeToBase => true,
    };
    BudgetOutcome {
        budget_reachable_baseline: brb,
        budget_reachable: brb && solver_mode != SelectionMode::LeastBadSample,
        selection_mode: if !brb {
            SelectionMode::BudgetUnreachable
        } else {
            solver_mode
        },
    }
}

/// A reported `BudgetUnreachable` never comes with a reachable budget, and a
/// polynomial root chosen by the solver always does.
pub proof fn lemma_budget_consistent_with_selection_mode(
    mode: MetricMode,
    baseline: u32,
    p0: u32,
    solver_mode: SelectionMode,
)
    requires
        solver_mode != SelectionMode::BudgetUnreachable,
    ensures
        budget_outcome(mode, baseline, p0, solver_mode).selection_mode
            == SelectionMode::BudgetUnreachable ==> !budget_outcome(
            mode,
            baseline,
            p0,
            solver_mode,
        ).budget_reachable,
        budget_outcome(mode, baseline, p0, solver_mode).selection_mode
            == SelectionMode::PolynomialRoot ==> budget_outcome(
            mode,
            baseline,
            p0,
            solver_mode,
        ).budget_reachable,
        budget_outcome(mode, baseline, p0, solver_mode).budget_reachable ==> budget_outcome(
            mode,
            baseline,
            p0,
            solver_mode,
        ).selection_mode == solver_mode,
{
}

/// The budget counts as met exactly when the baseline alone is within it
/// and the solver found a strength within it (a polynomial root or a sample
/// within budget); the least-bad sample never meets it.  In absolute mode
/// the baseline is within budget exactly when it does not exceed the
/// target, and in relative mode always; the reported mode is the solver's
/// unless the baseline alone exceeds the budget.
pub proof fn lemma_budget_met_iff_solution_within_budget(
    mode: MetricMode,
    baseline: u32,
    p0: u32,
    solver_mode: SelectionMode,
)
    requires
        solver_mode != SelectionMode::BudgetUnreachable,
    ensures
        budget_outcome(mode, baseline, p0, solver_mode).budget_reachable_baseline <==> (mode
            == MetricMode::RelativeToBase || le(baseline, p0)),
        budget_outcome(mode, baseline, p0, solver_mode).budget_reachable <==> (budget_outcome(
            mode,
            baseline,
            p0,
            solver_mode,
        ).budget_reachable_baseline && (solver_mode == SelectionMode::PolynomialRoot || solver_mode
            == SelectionMode::BestSampleWithinBudget)),
        budget_outcome(mode, baseline, p0, solver_mode).budget_reachable_baseline ==> budget_outcome(
            mode,
            baseline,
            p0,
            solver_mode,
        ).selection_mode == solver_mode,
        !budget_outcome(mode, baseline, p0, solver_mode).budget_reachable_baseline ==> budget_outcome(
            mode,
            baseline,
            p0,
            solver_mode,
        ).selection_mode == SelectionMode::BudgetUnreachable,
{
}

/// Loosening the budget never makes a met budget unmet: with the same
/// baseline and solver outcome, a budget `p1 >= p0` is met whenever `p0` is.
pub proof fn lemma_budget_monotone_in_target(
    mode: MetricMode,
    baseline: u32,
    p0: u32,
    p1: u32,
    solver_mode: SelectionMode,
)
    requires
        le(p0, p1),
    ensures
        budget_outcome(mode, baseline, p0, solver_mode).budget_reachable_baseline ==> budget_outcome(
            mode,
            baseline,
            p1,
            solver_mode,
        ).budget_reachable_baseline,
        budget_outcome(mode, baseline, p0, solver_mode).budget_reachable ==> budget_outcome(
            mode,
            baseline,
            p1,
            solver_mode,
        ).budget_reachable,
{
}

/// Backoff reductions allowed for the adaptive validation.
pub open spec fn allowed_backoff(budget_reachable: bool, max_backoff_iterations: u8) -> u8 {
    if budget_reachable {
        max_backoff_iterations
    } else {
        0
    }
}

/// Backoff never exceeds the configured number of reductions, is used only
/// when the budget is met, and is not cut when it is.
pub proof fn lemma_backoff_only_when_budget_met(budget_reachable: bool, max_backoff_iterations: u8)
    ensures
        allowed_backoff(budget_reachable, max_backoff_iterations) <= max_backoff_iterations,
        allowed_backoff(budget_reachable, max_backoff_iterations) > 0 ==> budget_reachable,
        budget_reachable ==> allowed_backoff(budget_reachable, max_backoff_iterations)
            == max_backoff_iterations,
{
}

/// Backoff iterations allowed for the adaptive validation: none when the
/// budget cannot be met anyway.
pub fn effective_max_backoff(budget_reachable: bool, max_backoff_iterations: u8) -> (n: u8)
    ensures
        n == allowed_backoff(budget_reachable, max_backoff_iterations),
{
    if budget_reachable {
        max_backoff_iterations
    } else {
        0
    }
}

/// The selected strength, lowered to the evaluator's cap when it exceeds it.
pub open spec fn capped(selected: u32, cap: Option<u32>) -> u32 {
    match cap {
        Some(c) => if gt(selected, c) {
            c
        } else {
            selected
        },
        None => selected,
    }
}

/// Apply the evaluator's strength cap.
pub fn cap_strength(selected: u32, cap: Option<u32>) -> (s: u32)
    ensures
        s == capped(selected, cap),
{
    match cap {
        Some(c) => if bits_gt(selected, c) {
            c
        } else {
            selected
        },
        None => selected,
    }
}

/// The evaluator's cap only ever lowers the strength: the result is the
/// selected strength or the cap, never above the cap, and a strength not
/// above the cap (or without a cap) is kept.
pub proof fn lemma_cap_only_lowers(selected: u32, cap: Option<u32>)
    ensures
        capped(selected, cap) == selected || cap == Some(capped(selected, cap)),
        cap matches Some(c) ==> !gt(capped(selected, cap), c),
        cap matches Some(c) ==> (gt(selected, c) ==> capped(selected, cap) == c),
        cap matches Some(c) ==> (!gt(selected, c) ==> capped(selected, cap) == selected),
        cap is None ==> capped(selected, cap) == selected,
{
}

// ---------------------------------------------------------------------------
// Fit and solve path
// ---------------------------------------------------------------------------

/// The selected strength is taken from a direct search over the probe
/// samples rather than from the polynomial solve: when direct search is
/// configured, when the fit failed, or when the fit is poor (`R² < 0.85`)
/// yet the polynomial solve reported a root.
pub open spec fn uses_direct_search(
    strategy: FitStrategy,
    fit_failed: bool,
    poor_fit: bool,
    polynomial_mode: SelectionMode,
) -> bool {
    strategy == FitStrategy::DirectSearch || fit_failed || (poor_fit && polynomial_mode
        == SelectionMode::PolynomialRoot)
}

/// Whether the strength comes from a direct search; `polynomial_mode` is
/// the mode the polynomial solve reported (read only when the cubic fit
/// succeeded).
pub fn prefer_direct_search(
    strategy: FitStrategy,
    fit_failed: bool,
    poor_fit: bool,
    polynomial_mode: SelectionMode,
) -> (d: bool)
    ensures
        d == uses_direct_search(strategy, fit_failed, poor_fit, polynomial_mode),
{
    match strategy {
        FitStrategy::DirectSearch => true,
        FitStrategy::Cubic => fit_failed || (poor_fit && polynomial_mode == SelectionMode::PolynomialRoot),
    }
}

/// A configured direct search always searches directly; a successful cubic
/// fit of good quality never does; a poor fit switches to direct search
/// only when the polynomial solve claimed a root.
pub proof fn lemma_direct_search_when(
    strategy: FitStrategy,
    fit_failed: bool,
    poor_fit: bool,
    polynomial_mode: SelectionMode,
)
    ensures
        strategy == FitStrategy::DirectSearch ==> uses_direct_search(strategy, fit_failed, poor_fit, polynomial_mode),
        strategy == FitStrategy::Cubic && !fit_failed && !poor_fit ==> !uses_direct_search(
            strategy,
            fit_failed,
            poor_fit,
            polynomial_mode,
        ),
        strategy == FitStrategy::Cubic && fit_failed ==> uses_direct_search(strategy, fit_failed, poor_fit, polynomial_mode),
        strategy == FitStrategy::Cubic && !fit_failed && poor_fit ==> (uses_direct_search(
            strategy,
            fit_failed,
            poor_fit,
            polynomial_mode,
        ) <==> polynomial_mode == SelectionMode::PolynomialRoot),
{
}

/// Total pipeline time: the time of this run plus the stages done when the
/// base was prepared (absent optional stages count as zero).
pub open spec fn total_time_us(
    run_us: u64,
    resize_us: u64,
    base_quality_us: u64,
    contrast_us: u64,
    classification_us: Option<u64>,
    baseline_us: u64,
    evaluator_us: Option<u64>,
    ingress_us: Option<u64>,
) -> int {
    run_us + resize_us + base_quality_us + contrast_us + match classification_us {
        Some(t) => t as int,
        None => 0,
    } + baseline_us + match evaluator_us {
        Some(t) => t as int,
        None => 0,
    } + match ingress_us {
        Some(t) => t as int,
        None => 0,
    }
}

/// Add up the stage times of a run and of the prepared base.
pub fn total_pipeline_us(
    run_us: u64,
    resize_us: u64,
    base_quality_us: u64,
    contrast_us: u64,
    classification_us: Option<u64>,
    baseline_us: u64,
    evaluator_us: Option<u64>,
    ingress_us: Option<u64>,
) -> (t: u64)
    requires
        total_time_us(
            run_us,
            resize_us,
            base_quality_us,
            contrast_us,
            classification_us,
            baseline_us,
            evaluator_us,
            ingress_us,
        ) <= u64::MAX,
    ensures
        t == total_time_us(
            run_us,
            resize_us,
            base_quality_us,
            contrast_us,
            classification_us,
            baseline_us,
            evaluator_us,
            ingress_us,
        ),
{
    let classification = match classification_us {
        Some(t) => t,
        None => 0,
    };
    let evaluator = match evaluator_us {
        Some(t) => t,
        None => 0,
    };
    let ingress = match ingress_us {
        Some(t) => t,
        None => 0,
    };
    run_us + resize_us + base_quality_us + contrast_us + classification + baseline_us + evaluator + ingress
}

// ---------------------------------------------------------------------------
// Fallback reason
// ---------------------------------------------------------------------------

/// Why the polynomial root was not used, most severe reason first.
pub open spec fn fallback_reason_of(
    selection_mode: SelectionMode,
    fit_failed: bool,
    budget_reachable_baseline: bool,
    monotonic: bool,
    r_squared_ok: bool,
    loo_stable: bool,
    fit_strategy: FitStrategy,
    crossing_status: CrossingStatus,
) -> Option<FallbackReason> {
    if selection_mode == SelectionMode::PolynomialRoot {
        None
    } else if !budget_reachable_baseline {
        Some(FallbackReason::BudgetTooStrictForContent)
    } else if fit_strategy == FitStrategy::DirectSearch {
        Some(FallbackReason::DirectSearchConfigured)
    } else if fit_failed {
        Some(FallbackReason::FitFailed)
    } else if !r_squared_ok {
        Some(FallbackReason::FitPoorQuality)
    } else if !monotonic {
        Some(FallbackReason::MetricNonMonotonic)
    } else if !loo_stable {
        Some(FallbackReason::FitUnstable)
    } else {
        Some(FallbackReason::RootOutOfRange)
    }
}

/// Determine why the pipeline fell back from the polynomial root.
///
/// `None` exactly when the polynomial root was selected.  When nothing more
/// specific applies (including a crossing not found in range) the reason is
/// `RootOutOfRange`.
pub fn determine_fallback_reason(
    selection_mode: &SelectionMode,
    fit_status: &FitStatus,
    budget_reachable_baseline: bool,
    monotonic: bool,
    r_squared_ok: bool,
    loo_stable: bool,
    fit_strategy: FitStrategy,
    crossing_status: &CrossingStatus,
) -> (r: Option<FallbackReason>)
    ensures
        r == fallback_reason_of(
            *selection_mode,
            *fit_status is Failed,
            budget_reachable_baseline,
            monotonic,
            r_squared_ok,
            loo_stable,
            fit_strategy,
            *crossing_status,
        ),
{
    if *selection_mode == SelectionMode::PolynomialRoot {
        return None;
    }
    if !budget_reachable_baseline {
        return Some(FallbackReason::BudgetTooStrictForContent);
    }
    if fit_strategy == FitStrategy::DirectSearch {
        return Some(FallbackReason::DirectSearchConfigured);
    }
    if let FitStatus::Failed { .. } = fit_status {
        return Some(FallbackReason::FitFailed);
    }
    if !r_squared_ok {
        return Some(FallbackReason::FitPoorQuality);
    }
    if !monotonic {
        return Some(FallbackReason::MetricNonMonotonic);
    }
    if !loo_stable {
        return Some(FallbackReason::FitUnstable);
    }
    if *crossing_status == CrossingStatus::NotFoundInRange {
        return Some(FallbackReason::RootOutOfRange);
    }
    Some(FallbackReason::RootOutOfRange)
}

/// A fallback reason is reported exactly when the polynomial root was not
/// selected; an unreachable baseline is always the reason given first, and
/// a configured direct search the next.
pub proof fn lemma_fallback_reason_iff_not_root(
    selection_mode: SelectionMode,
    fit_failed: bool,
    budget_reachable_baseline: bool,
    monotonic: bool,
    r_squared_ok: bool,
    loo_stable: bool,
    fit_strategy: FitStrategy,
    crossing_status: CrossingStatus,
)
    ensures
        fallback_reason_of(
            selection_mode,
            fit_failed,
            budget_reachable_baseline,
            monotonic,
            r_squared_ok,
            loo_stable,
            fit_strategy,
            crossing_status,
        ) is None <==> selection_mode == SelectionMode::PolynomialRoot,
        selection_mode != SelectionMode::PolynomialRoot && !budget_reachable_baseline
            ==> fallback_reason_of(
            selection_mode,
            fit_failed,
            budget_reachable_baseline,
            monotonic,
            r_squared_ok,
            loo_stable,
            fit_strategy,
            crossing_status,
        ) == Some(FallbackReason::BudgetTooStrictForContent),
        selection_mode != SelectionMode::PolynomialRoot && budget_reachable_baseline
            && fit_strategy == FitStrategy::DirectSearch ==> fallback_reason_of(
            selection_mode,
            fit_failed,
            budget_reachable_baseline,
            monotonic,
            r_squared_ok,
            loo_stable,
            fit_strategy,
            crossing_status,
        ) == Some(FallbackReason::DirectSearchConfigured),
{
}

/// The reason given is the first that applies, in this order of severity:
/// unreachable baseline, configured direct search, failed fit, poor fit,
/// non-monotonic metric, unstable fit; with none of these the root lay
/// outside the probed range.  Each reason is given exactly when it applies
/// and no earlier one does.
pub proof fn lemma_fallback_reason_priority(
    selection_mode: SelectionMode,
    fit_failed: bool,
    budget_reachable_baseline: bool,
    monotonic: bool,
    r_squared_ok: bool,
    loo_stable: bool,
    fit_strategy: FitStrategy,
    crossing_status: CrossingStatus,
)
    requires
        selection_mode != SelectionMode::PolynomialRoot,
    ensures
        ({
            let r = fallback_reason_of(
                selection_mode,
                fit_failed,
                budget_reachable_baseline,
                monotonic,
                r_squared_ok,
                loo_stable,
                fit_strategy,
                crossing_status,
            );
            let direct = fit_strategy == FitStrategy::DirectSearch;
            &&& (r == Some(FallbackReason::BudgetTooStrictForContent) <==> !budget_reachable_baseline)
            &&& (r == Some(FallbackReason::DirectSearchConfigured) <==> budget_reachable_baseline && direct)
            &&& (r == Some(FallbackReason::FitFailed) <==> budget_reachable_baseline && !direct && fit_failed)
            &&& (r == Some(FallbackReason::FitPoorQuality) <==> budget_reachable_baseline && !direct
                && !fit_failed && !r_squared_ok)
            &&& (r == Some(FallbackReason::MetricNonMonotonic) <==> budget_reachable_baseline && !direct
                && !fit_failed && r_squared_ok && !monotonic)
            &&& (r == Some(FallbackReason::FitUnstable) <==> budget_reachable_baseline && !direct
                && !fit_failed && r_squared_ok && monotonic && !loo_stable)
            &&& (r == Some(FallbackReason::RootOutOfRange) <==> budget_reachable_baseline && !direct
                && !fit_failed && r_squared_ok && monotonic && loo_stable)
        }),
{
}

// ---------------------------------------------------------------------------
// Two-pass probing: where the dense window goes
// ---------------------------------------------------------------------------

/// Placement of the dense probe window after the coarse pass.
#[derive(Debug, Clone, Copy, PartialEq, Eq, Structural)]
pub enum DenseWindowAnchor {
    /// The budget is crossed upward between coarse samples `index` and
    /// `index + 1`: the window brackets that interval.
    Crossing { index: usize },
    /// The last coarse sample is within budget: the window covers the upper
    /// end of the range.
    UpperEnd,
    /// Otherwise (also with no samples): the window covers the lower end.
    LowerEnd,
}

/// First upward crossing: `m[i] <= p0 < m[i + 1]`.
pub open spec fn crosses_at(metrics: Seq<u32>, p0: u32, i: int) -> bool {
    0 <= i && i + 1 < metrics.len() && le(metrics[i], p0) && gt(metrics[i + 1], p0)
}

/// Where the dense window goes for coarse metric values `metrics` (in
/// strength order) and budget `p0`.
pub open spec fn dense_anchor_of(metrics: Seq<u32>, p0: u32, a: DenseWindowAnchor) -> bool {
    match a {
        DenseWindowAnchor::Crossing { index } => crosses_at(metrics, p0, index as int) && forall|
            j: int,
        | 0 <= j < index ==> !crosses_at(metrics, p0, j),
        DenseWindowAnchor::UpperEnd => (forall|j: int| !crosses_at(metrics, p0, j))
            && metrics.len() > 0 && le(metrics.last(), p0),
        DenseWindowAnchor::LowerEnd => (forall|j: int| !crosses_at(metrics, p0, j)) && !(
        metrics.len() > 0 && le(metrics.last(), p0)),
    }
}

/// Locate the first upward crossing of the budget among coarse samples.
pub fn dense_window_anchor(metrics: &[u32], p0: u32) -> (a: DenseWindowAnchor)
    ensures
        dense_anchor_of(metrics@, p0, a),
{
    let n = metrics.len();
    let last = if n > 0 { n - 1 } else { 0 };
    let mut i: usize = 0;
    while i < last
        invariant
            n == metrics@.len(),
            last == if n > 0 { n - 1 } else { 0 },
            0 <= i <= last,
            forall|j: int| 0 <= j < i ==> !crosses_at(metrics@, p0, j),
        decreases last - i,
    {
        if bits_le(metrics[i], p0) && bits_gt(metrics[i + 1], p0) {
            return DenseWindowAnchor::Crossing { index: i };
        }
        i = i + 1;
    }
    assert forall|j: int| !crosses_at(metrics@, p0, j) by {
        if 0 <= j < i {
        }
    }
    if n > 0 && bits_le(metrics[n - 1], p0) {
        DenseWindowAnchor::UpperEnd
    } else {
        DenseWindowAnchor::LowerEnd
    }
}

// ---------------------------------------------------------------------------
// Adaptive validation and backoff
// ---------------------------------------------------------------------------

/// What the backoff loop does after a measurement.
#[derive(Debug, Clone, Copy, PartialEq, Eq, Structural)]
pub enum BackoffDecision {
    /// Measure again at the next (smaller) scale.
    Continue,
    /// The unscaled result met the budget.
    PassedDirect,
    /// The budget was met after `iterations` scale reductions.
    PassedAfterBackoff { iterations: u8 },
    /// All `iterations` reductions done without meeting the budget.
    FailedBudgetExceeded { iterations: u8 },
}

/// Result of recording one measurement.
#[derive(Debug, Clone, Copy, PartialEq, Eq, Structural)]
pub struct BackoffStep {
    pub decision: BackoffDecision,
    /// This measurement is strictly below every earlier one: keep its image.
    pub became_best: bool,
}

/// Index of the best measurement: the first one, replaced by any later one
/// strictly below the current best.
pub open spec fn best_index(ms: Seq<u32>) -> int
    decreases ms.len(),
{
    if ms.len() <= 1 {
        0
    } else {
        let b = best_index(ms.drop_last());
        if lt(ms.last(), ms[b]) {
            ms.len() - 1
        } else {
            b
        }
    }
}

proof fn lemma_best_index_bounds(ms: Seq<u32>)
    requires
        ms.len() >= 1,
    ensures
        0 <= best_index(ms) < ms.len(),
    decreases ms.len(),
{
    if ms.len() > 1 {
        lemma_best_index_bounds(ms.drop_last());
    }
}

/// The kept measurement is a smallest one: no measurement lies strictly
/// below it, and one strictly below all earlier ones is always kept.
pub proof fn lemma_best_is_smallest(ms: Seq<u32>)
    requires
        ms.len() >= 1,
    ensures
        forall|i: int| 0 <= i < ms.len() ==> !lt(#[trigger] ms[i], ms[best_index(ms)]),
        (forall|i: int| 0 <= i < ms.len() - 1 ==> lt(ms.last(), #[trigger] ms[i])) ==> best_index(ms)
            == ms.len() - 1 || ms.len() == 1,
    decreases ms.len(),
{
    lemma_best_index_bounds(ms);
    if ms.len() > 1 {
        let t = ms.drop_last();
        lemma_best_is_smallest(t);
        lemma_best_index_bounds(t);
        let b = best_index(t);
        assert(ms[b] == t[b]);
        assert forall|i: int| 0 <= i < ms.len() implies !lt(#[trigger] ms[i], ms[best_index(ms)]) by {
            if i < ms.len() - 1 {
                assert(ms[i] == t[i]);
            }
        }
        if forall|i: int| 0 <= i < ms.len() - 1 ==> lt(ms.last(), #[trigger] ms[i]) {
            assert(lt(ms.last(), ms[b]));
        }
    }
}

/// State of the adaptive validation loop.
///
/// Measurement 0 is taken at scale 1; measurement `i` after `i` reductions
/// of the scale by the backoff factor.
pub struct BackoffTracker {
    /// Budget (`f32` bit pattern).
    pub target: u32,
    /// Maximum number of scale reductions.
    pub max_backoff: u8,
    /// Number of reductions measured so far.
    pub iteration: u8,
    /// Measurement with the smallest metric so far.
    pub best_iteration: u8,
    /// Its metric value (`f32` bit pattern).
    pub best_metric: u32,
    /// All measurements so far.
    pub measurements: Ghost<Seq<u32>>,
}

impl BackoffTracker {
    /// The tracker reflects the measurements recorded so far.
    pub open spec fn wf(&self) -> bool {
        &&& self.measurements@.len() == self.iteration as int + 1
        &&& self.iteration <= self.max_backoff
        &&& self.best_iteration as int == best_index(self.measurements@)
        &&& self.best_metric == self.measurements@[self.best_iteration as int]
        &&& forall|i: int| 0 <= i < self.measurements@.len() ==> !le(#[trigger] self.measurements@[i], self.target)
    }

    /// Start with the measurement of the unscaled result.
    ///
    /// If it meets the budget the loop is done (`PassedDirect`); with no
    /// reductions allowed it has failed; otherwise it continues and the
    /// returned tracker is ready for the next measurement.
    pub fn start(target: u32, max_backoff: u8, first_metric: u32) -> (r: (BackoffTracker, BackoffStep))
        ensures
            r.1.became_best,
            le(first_metric, target) ==> r.1.decision == BackoffDecision::PassedDirect,
            !le(first_metric, target) && max_backoff == 0 ==> r.1.decision
                == (BackoffDecision::FailedBudgetExceeded { iterations: 0 }),
            !le(first_metric, target) && max_backoff > 0 ==> r.1.decision == BackoffDecision::Continue
                && r.0.wf(),
            r.0.target == target && r.0.max_backoff == max_backoff && r.0.iteration == 0,
            r.0.best_iteration == 0 && r.0.best_metric == first_metric,
            r.0.measurements@ == seq![first_metric],
    {
        let ghost ms: Seq<u32> = seq![first_metric];
        let tracker = BackoffTracker {
            target,
            max_backoff,
            iteration: 0,
            best_iteration: 0,
            best_metric: first_metric,
            measurements: Ghost(ms),
        };
        let decision = if bits_le(first_metric, target) {
            BackoffDecision::PassedDirect
        } else if max_backoff == 0 {
            BackoffDecision::FailedBudgetExceeded { iterations: 0 }
        } else {
            BackoffDecision::Continue
        };
        (tracker, BackoffStep { decision, became_best: true })
    }

    /// Record the measurement after one more scale reduction.
    pub fn record(&mut self, metric: u32) -> (step: BackoffStep)
        requires
            old(self).wf(),
            old(self).iteration < old(self).max_backoff,
        ensures
            final(self).target == old(self).target,
            final(self).max_backoff == old(self).max_backoff,
            final(self).iteration == old(self).iteration + 1,
            final(self).measurements@ == old(self).measurements@.push(metric),
            step.became_best == lt(metric, old(self).best_metric),
            final(self).best_iteration as int == best_index(final(self).measurements@),
            final(self).best_metric == final(self).measurements@[final(self).best_iteration as int],
            le(metric, old(self).target) ==> step.decision == (BackoffDecision::PassedAfterBackoff {
                iterations: final(self).iteration,
            }),
            !le(metric, old(self).target) && final(self).iteration == old(self).max_backoff
                ==> step.decision == (BackoffDecision::FailedBudgetExceeded {
                iterations: final(self).iteration,
            }),
            !le(metric, old(self).target) && final(self).iteration < old(self).max_backoff
                ==> step.decision == BackoffDecision::Continue && final(self).wf(),
    {
        let ghost old_ms = self.measurements@;
        let ghost new_ms = old_ms.push(metric);
        self.iteration = self.iteration + 1;
        self.measurements = Ghost(new_ms);
        proof {
            assert(new_ms.drop_last() =~= old_ms);
            lemma_best_index_bounds(old_ms);
            assert(new_ms[old(self).best_iteration as int] == old(self).best_metric);
            assert(new_ms.last() == metric);
        }
        let became_best = bits_lt(metric, self.best_metric);
        if became_best {
            self.best_iteration = self.iteration;
            self.best_metric = metric;
        }
        let decision = if bits_le(metric, self.target) {
            BackoffDecision::PassedAfterBackoff { iterations: self.iteration }
        } else if self.iteration == self.max_backoff {
            BackoffDecision::FailedBudgetExceeded { iterations: self.iteration }
        } else {
            BackoffDecision::Continue
        };
        proof {
            if !le(metric, self.target) {
                assert forall|i: int| 0 <= i < self.measurements@.len() implies !le(
                    #[trigger] self.measurements@[i],
                    self.target,
                ) by {
                    if i < old_ms.len() {
                        assert(self.measurements@[i] == old_ms[i]);
                    }
                }
            }
        }
        BackoffStep { decision, became_best }
    }
}

} // verus!
