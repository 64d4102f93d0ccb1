//! Which recommendations the pipeline diagnostics give rise to.
//!
//! Each rule looks at the diagnostics and the current parameters and may
//! produce one recommendation, whose patch replaces exactly one parameter.
//! The rules whose tests are plain comparisons are decided here on `f32`
//! bit patterns; for the three rules that first compute in floating point
//! (relative strength change, distance to the probe range ends, composite
//! score improvement) the caller hands in the outcome of that computation.
//! Confidence, wording and the patch values are filled in by the caller.
use vstd::prelude::*;

use crate::float_bits::{bits_gt, bits_le, ge, gt, le, ZERO_BITS};
use crate::metrics::{min_max, min_max_scan};
use crate::types::{RecommendationKind, SelectionMode, SelectionPolicy, Severity, SharpenMode};

verus! {

/// Bit pattern of `0.10_f32`: edge density above which lightness mode is suggested.
pub const LIGHTNESS_EDGE_DENSITY_BITS: u32 = 0x3dcc_cccd;

/// Bit pattern of `0.15_f32`: edge density above which content-adaptive
/// sharpening is suggested, and halo-zone fraction above which the
/// strong-edge gain is lowered.
pub const ADAPTIVE_THRESHOLD_BITS: u32 = 0x3e19_999a;

/// Bit pattern of `0.25_f32`: halo-zone fraction above which lowering the
/// strong-edge gain is a warning, and edge density above which a lower
/// sigma is suggested.
pub const HIGH_THRESHOLD_BITS: u32 = 0x3e80_0000;

/// Bit pattern of `0.5_f32`: strong-edge gain at or below which it is not
/// lowered further.
pub const MIN_LOWERED_GAIN_BITS: u32 = 0x3f00_0000;

/// Bit pattern of `1.5_f32`: sigma at or below which it is not lowered.
pub const MIN_LOWERED_SIGMA_BITS: u32 = 0x3fc0_0000;

/// The parameter that a recommendation's patch replaces.
#[derive(Debug, Clone, Copy, PartialEq, Eq, Structural)]
pub enum PatchField {
    SharpenStrategy,
    TargetArtifactRatio,
    SharpenMode,
    ProbeStrengths,
    SharpenSigma,
    SelectionPolicy,
}

/// The parameter each kind of recommendation replaces.
pub open spec fn patch_field_of(k: RecommendationKind) -> PatchField {
    match k {
        RecommendationKind::SwitchToContentAdaptive => PatchField::SharpenStrategy,
        RecommendationKind::LowerStrongEdgeGain => PatchField::SharpenStrategy,
        RecommendationKind::RaiseArtifactBudget => PatchField::TargetArtifactRatio,
        RecommendationKind::SwitchToLightness => PatchField::SharpenMode,
        RecommendationKind::WidenProbeRange => PatchField::ProbeStrengths,
        RecommendationKind::LowerSigma => PatchField::SharpenSigma,
        RecommendationKind::SwitchToHybrid => PatchField::SelectionPolicy,
    }
}

/// The parameter a recommendation of kind `k` replaces.
pub fn patch_field(k: RecommendationKind) -> (f: PatchField)
    ensures
        f == patch_field_of(k),
{
    match k {
        RecommendationKind::SwitchToContentAdaptive => PatchField::SharpenStrategy,
        RecommendationKind::LowerStrongEdgeGain => PatchField::SharpenStrategy,
        RecommendationKind::RaiseArtifactBudget => PatchField::TargetArtifactRatio,
        RecommendationKind::SwitchToLightness => PatchField::SharpenMode,
        RecommendationKind::WidenProbeRange => PatchField::ProbeStrengths,
        RecommendationKind::LowerSigma => PatchField::SharpenSigma,
        RecommendationKind::SwitchToHybrid => PatchField::SelectionPolicy,
    }
}

/// Variant of the configured sharpening strategy.
#[derive(Debug, Clone, Copy, PartialEq, Eq, Structural)]
pub enum StrategyKind {
    Uniform,
    ContentAdaptive,
}

/// What the rules read, with `f32` values as bit patterns.
#[derive(Debug, Clone, Copy, PartialEq, Eq, Structural)]
pub struct RuleInputs {
    /// Configured sharpening strategy.
    pub strategy: StrategyKind,
    /// Strong-edge gain of the content-adaptive gain table (read only when
    /// the strategy is content-adaptive).
    pub strong_edge_gain: u32,
    /// Configured sharpen mode.
    pub sharpen_mode: SharpenMode,
    /// Configured unsharp-mask sigma.
    pub sharpen_sigma: u32,
    /// Configured selection policy.
    pub selection_policy: SelectionPolicy,
    /// Selection mode the solver reported.
    pub selection_mode: SelectionMode,
    /// Edge density of the evaluator's features; `None` without an
    /// evaluator result.
    pub edge_density: Option<u32>,
    /// Fraction of pixels classified as halo risk; `None` without a region map.
    pub risky_halo_zone_fraction: Option<u32>,
    /// The evaluator suggests a strength more than 30% away from the selected
    /// one, inside the probed range, and the budget it implies differs from
    /// the current one by at least 10%.
    pub budget_shift_found: bool,
    /// The smallest probed strength is below the largest.
    pub probe_range_nonempty: bool,
    /// The cubic fit has `R² < 0.85`.
    pub poor_fit: bool,
    /// The selected strength lies within 10% of the probe range of one of its ends.
    pub near_probe_boundary: bool,
    /// Among the samples the fallback could have chosen, one other than the
    /// selected sample has a composite score at least 20% lower.
    pub composite_alternative_found: bool,
}

/// Rule 1: uniform sharpening on an edge-rich image.
pub open spec fn switch_to_content_adaptive_of(r: RuleInputs) -> Option<Severity> {
    match r.edge_density {
        Some(d) => if r.strategy == StrategyKind::Uniform && !le(d, ADAPTIVE_THRESHOLD_BITS) {
            Some(Severity::Suggestion)
        } else {
            None
        },
        None => None,
    }
}

/// Rule 2: content-adaptive sharpening with a large halo-risk zone and a
/// strong-edge gain that can still be lowered; a warning above 25%.
pub open spec fn lower_strong_edge_gain_of(r: RuleInputs) -> Option<Severity> {
    match r.risky_halo_zone_fraction {
        Some(f) => if r.strategy == StrategyKind::ContentAdaptive && !le(f, ADAPTIVE_THRESHOLD_BITS)
            && !le(r.strong_edge_gain, MIN_LOWERED_GAIN_BITS) {
            if gt(f, HIGH_THRESHOLD_BITS) {
                Some(Severity::Warning)
            } else {
                Some(Severity::Suggestion)
            }
        } else {
            None
        },
        None => None,
    }
}

/// Rule 3: the evaluator's suggestion implies another budget.
pub open spec fn raise_artifact_budget_of(r: RuleInputs) -> Option<Severity> {
    if r.edge_density is Some && r.budget_shift_found {
        Some(Severity::Info)
    } else {
        None
    }
}

/// Rule 4: RGB sharpening on content with edges.
pub open spec fn switch_to_lightness_of(r: RuleInputs) -> Option<Severity> {
    match r.edge_density {
        Some(d) => if r.sharpen_mode == SharpenMode::Rgb && !le(d, LIGHTNESS_EDGE_DENSITY_BITS) {
            Some(Severity::Suggestion)
        } else {
            None
        },
        None => None,
    }
}

/// Rule 5: poor fit (a warning) or a selection near the probe range ends.
pub open spec fn widen_probe_range_of(r: RuleInputs) -> Option<Severity> {
    if r.probe_range_nonempty && (r.poor_fit || r.near_probe_boundary) {
        if r.poor_fit {
            Some(Severity::Warning)
        } else {
            Some(Severity::Suggestion)
        }
    } else {
        None
    }
}

/// Rule 6: a detail-rich image sharpened with a large sigma.
pub open spec fn lower_sigma_of(r: RuleInputs) -> Option<Severity> {
    match r.edge_density {
        Some(d) => if !le(d, HIGH_THRESHOLD_BITS) && !le(r.sharpen_sigma, MIN_LOWERED_SIGMA_BITS) {
            Some(Severity::Info)
        } else {
            None
        },
        None => None,
    }
}

/// Rule 7: the gamut-only fallback passed over a sample with a much better
/// composite score.
pub open spec fn switch_to_hybrid_of(r: RuleInputs) -> Option<Severity> {
    if r.selection_policy == SelectionPolicy::GamutOnly && (r.selection_mode
        == SelectionMode::BestSampleWithinBudget || r.selection_mode
        == SelectionMode::LeastBadSample) && r.composite_alternative_found {
        Some(Severity::Suggestion)
    } else {
        None
    }
}

/// Outcome of the rule that produces recommendations of kind `k`.
pub open spec fn rule_outcome(r: RuleInputs, k: RecommendationKind) -> Option<Severity> {
    match k {
        RecommendationKind::SwitchToContentAdaptive => switch_to_content_adaptive_of(r),
        RecommendationKind::LowerStrongEdgeGain => lower_strong_edge_gain_of(r),
        RecommendationKind::RaiseArtifactBudget => raise_artifact_budget_of(r),
        RecommendationKind::SwitchToLightness => switch_to_lightness_of(r),
        RecommendationKind::WidenProbeRange => widen_probe_range_of(r),
        RecommendationKind::LowerSigma => lower_sigma_of(r),
        RecommendationKind::SwitchToHybrid => switch_to_hybrid_of(r),
    }
}

/// What makes each rule fire, over the diagnostics it reads ("above" means
/// not at or below, so a NaN value passes such a test):
/// - content-adaptive sharpening is suggested for uniform sharpening when
///   the edge density exceeds 0.15;
/// - lowering the strong-edge gain needs content-adaptive sharpening, a
///   halo-risk fraction above 0.15 and a gain above 0.5, and is a warning
///   exactly when the fraction exceeds 0.25;
/// - raising the budget is an info only when the evaluator gave a result
///   whose suggestion implies a different budget;
/// - lightness mode is suggested for RGB sharpening with edge density above 0.10;
/// - widening the probe range needs a non-empty range and a poor fit (a
///   warning) or a selection near its ends;
/// - a lower sigma is an info for edge density above 0.25 with sigma above 1.5;
/// - hybrid selection is suggested when the gamut-only fallback picked a
///   sample and a sample with a much better composite score existed.
pub proof fn lemma_rule_firing_conditions(r: RuleInputs)
    ensures
        rule_outcome(r, RecommendationKind::SwitchToContentAdaptive) is Some <==> (r.strategy
            == StrategyKind::Uniform && r.edge_density is Some && !le(r.edge_density.unwrap(), ADAPTIVE_THRESHOLD_BITS)),
        rule_outcome(r, RecommendationKind::LowerStrongEdgeGain) is Some <==> (r.strategy
            == StrategyKind::ContentAdaptive && r.risky_halo_zone_fraction is Some && !le(
            r.risky_halo_zone_fraction.unwrap(),
            ADAPTIVE_THRESHOLD_BITS,
        ) && !le(r.strong_edge_gain, MIN_LOWERED_GAIN_BITS)),
        rule_outcome(r, RecommendationKind::LowerStrongEdgeGain) == Some(Severity::Warning) ==> (
        r.risky_halo_zone_fraction matches Some(f) && gt(f, HIGH_THRESHOLD_BITS)),
        rule_outcome(r, RecommendationKind::RaiseArtifactBudget) is Some <==> (r.edge_density is Some
            && r.budget_shift_found),
        !r.budget_shift_found ==> rule_outcome(r, RecommendationKind::RaiseArtifactBudget) is None,
        rule_outcome(r, RecommendationKind::SwitchToLightness) is Some <==> (r.sharpen_mode
            == SharpenMode::Rgb && r.edge_density is Some && !le(r.edge_density.unwrap(), LIGHTNESS_EDGE_DENSITY_BITS)),
        rule_outcome(r, RecommendationKind::WidenProbeRange) is Some <==> (r.probe_range_nonempty && (
        r.poor_fit || r.near_probe_boundary)),
        rule_outcome(r, RecommendationKind::WidenProbeRange) == Some(Severity::Warning) <==> (
        r.probe_range_nonempty && r.poor_fit),
        rule_outcome(r, RecommendationKind::LowerSigma) is Some <==> (r.edge_density is Some
            && !le(r.edge_density.unwrap(), HIGH_THRESHOLD_BITS) && !le(r.sharpen_sigma, MIN_LOWERED_SIGMA_BITS)),
        rule_outcome(r, RecommendationKind::SwitchToHybrid) is Some <==> (r.selection_policy
            == SelectionPolicy::GamutOnly && r.composite_alternative_found && (r.selection_mode
            == SelectionMode::BestSampleWithinBudget || r.selection_mode
            == SelectionMode::LeastBadSample)),
        rule_outcome(r, RecommendationKind::RaiseArtifactBudget) is Some ==> rule_outcome(
            r,
            RecommendationKind::RaiseArtifactBudget,
        ) == Some(Severity::Info),
        rule_outcome(r, RecommendationKind::LowerSigma) is Some ==> rule_outcome(
            r,
            RecommendationKind::LowerSigma,
        ) == Some(Severity::Info),
        rule_outcome(r, RecommendationKind::SwitchToContentAdaptive) is Some ==> rule_outcome(
            r,
            RecommendationKind::SwitchToContentAdaptive,
        ) == Some(Severity::Suggestion),
        rule_outcome(r, RecommendationKind::SwitchToLightness) is Some ==> rule_outcome(
            r,
            RecommendationKind::SwitchToLightness,
        ) == Some(Severity::Suggestion),
        rule_outcome(r, RecommendationKind::SwitchToHybrid) is Some ==> rule_outcome(
            r,
            RecommendationKind::SwitchToHybrid,
        ) == Some(Severity::Suggestion),
{
}

/// Position of a rule in evaluation order.
pub open spec fn rule_rank(k: RecommendationKind) -> nat {
    match k {
        RecommendationKind::SwitchToContentAdaptive => 0,
        RecommendationKind::LowerStrongEdgeGain => 1,
        RecommendationKind::RaiseArtifactBudget => 2,
        RecommendationKind::SwitchToLightness => 3,
        RecommendationKind::WidenProbeRange => 4,
        RecommendationKind::LowerSigma => 5,
        RecommendationKind::SwitchToHybrid => 6,
    }
}

/// The rule at position `i` of the evaluation order.
pub open spec fn rule_at(i: nat) -> RecommendationKind {
    if i == 0 {
        RecommendationKind::SwitchToContentAdaptive
    } else if i == 1 {
        RecommendationKind::LowerStrongEdgeGain
    } else if i == 2 {
        RecommendationKind::RaiseArtifactBudget
    } else if i == 3 {
        RecommendationKind::SwitchToLightness
    } else if i == 4 {
        RecommendationKind::WidenProbeRange
    } else if i == 5 {
        RecommendationKind::LowerSigma
    } else {
        RecommendationKind::SwitchToHybrid
    }
}

/// Number of rules.
pub const RULE_COUNT: usize = 7;

/// A recommendation as decided by the rules.
#[derive(Debug, Clone, Copy, PartialEq, Eq, Structural)]
pub struct RecommendationChoice {
    pub kind: RecommendationKind,
    pub severity: Severity,
}

/// Recommendations of the first `n` rules, in evaluation order.
pub open spec fn chosen_prefix(r: RuleInputs, n: nat) -> Seq<RecommendationChoice>
    decreases n,
{
    if n == 0 {
        Seq::empty()
    } else {
        let prev = chosen_prefix(r, (n - 1) as nat);
        let k = rule_at((n - 1) as nat);
        match rule_outcome(r, k) {
            Some(s) => prev.push(RecommendationChoice { kind: k, severity: s }),
            None => prev,
        }
    }
}

/// All recommendations, in evaluation order.
pub open spec fn chosen(r: RuleInputs) -> Seq<RecommendationChoice> {
    chosen_prefix(r, RULE_COUNT as nat)
}


/// Outcome of the rule that produces recommendations of kind `k`.
pub fn evaluate_rule(r: &RuleInputs, k: RecommendationKind) -> (o: Option<Severity>)
    ensures
        o == rule_outcome(*r, k),
{
    match k {
        RecommendationKind::SwitchToContentAdaptive => {
            match r.edge_density {
                Some(d) => if r.strategy == StrategyKind::Uniform && !bits_le(d, ADAPTIVE_THRESHOLD_BITS) {
                    Some(Severity::Suggestion)
                } else {
                    None
                },
                None => None,
            }
        },
        RecommendationKind::LowerStrongEdgeGain => {
            match r.risky_halo_zone_fraction {
                Some(f) => if r.strategy == StrategyKind::ContentAdaptive && !bits_le(
                    f,
                    ADAPTIVE_THRESHOLD_BITS,
                ) && !bits_le(r.strong_edge_gain, MIN_LOWERED_GAIN_BITS) {
                    if bits_gt(f, HIGH_THRESHOLD_BITS) {
                        Some(Severity::Warning)
                    } else {
                        Some(Severity::Suggestion)
                    }
                } else {
                    None
                },
                None => None,
            }
        },
        RecommendationKind::RaiseArtifactBudget => {
            if r.edge_density.is_some() && r.budget_shift_found {
                Some(Severity::Info)
            } else {
                None
            }
        },
        RecommendationKind::SwitchToLightness => {
            match r.edge_density {
                Some(d) => if r.sharpen_mode == SharpenMode::Rgb && !bits_le(d, LIGHTNESS_EDGE_DENSITY_BITS) {
                    Some(Severity::Suggestion)
                } else {
                    None
                },
                None => None,
            }
        },
        RecommendationKind::WidenProbeRange => {
            if r.probe_range_nonempty && (r.poor_fit || r.near_probe_boundary) {
                if r.poor_fit {
                    Some(Severity::Warning)
                } else {
                    Some(Severity::Suggestion)
                }
            } else {
                None
            }
        },
        RecommendationKind::LowerSigma => {
            match r.edge_density {
                Some(d) => if !bits_le(d, HIGH_THRESHOLD_BITS) && !bits_le(r.sharpen_sigma, MIN_LOWERED_SIGMA_BITS) {
                    Some(Severity::Info)
                } else {
                    None
                },
                None => None,
            }
        },
        RecommendationKind::SwitchToHybrid => {
            if r.selection_policy == SelectionPolicy::GamutOnly && (r.selection_mode
                == SelectionMode::BestSampleWithinBudget || r.selection_mode
                == SelectionMode::LeastBadSample) && r.composite_alternative_found {
                Some(Severity::Suggestion)
            } else {
                None
            }
        },
    }
}

/// The rule at position `i` of the evaluation order.
fn rule_kind_at(i: usize) -> (k: RecommendationKind)
    requires
        i < RULE_COUNT,
    ensures
        k == rule_at(i as nat),
        rule_rank(k) == i,
{
    if i == 0 {
        RecommendationKind::SwitchToContentAdaptive
    } else if i == 1 {
        RecommendationKind::LowerStrongEdgeGain
    } else if i == 2 {
        RecommendationKind::RaiseArtifactBudget
    } else if i == 3 {
        RecommendationKind::SwitchToLightness
    } else if i == 4 {
        RecommendationKind::WidenProbeRange
    } else if i == 5 {
        RecommendationKind::LowerSigma
    } else {
        RecommendationKind::SwitchToHybrid
    }
}

/// Run the rules in order and collect the recommendations they produce.
pub fn select_recommendations(r: &RuleInputs) -> (v: Vec<RecommendationChoice>)
    ensures
        v@ == chosen(*r),
{
    let mut v: Vec<RecommendationChoice> = Vec::new();
    let mut i: usize = 0;
    while i < RULE_COUNT
        invariant
            0 <= i <= RULE_COUNT,
            v@ == chosen_prefix(*r, i as nat),
        decreases RULE_COUNT - i,
    {
        let k = rule_kind_at(i);
        if let Some(s) = evaluate_rule(r, k) {
            v.push(RecommendationChoice { kind: k, severity: s });
        }
        i = i + 1;
    }
    v
}

/// Every recommendation among the first `n` rules comes from a rule that
/// fired, with that rule's severity, and they are in strictly increasing
/// rule order.
proof fn lemma_chosen_prefix_shape(r: RuleInputs, n: nat)
    requires
        n <= RULE_COUNT,
    ensures
        forall|i: int|
            0 <= i < chosen_prefix(r, n).len() ==> rule_rank(#[trigger] chosen_prefix(r, n)[i].kind)
                < n && rule_outcome(r, chosen_prefix(r, n)[i].kind) == Some(
                chosen_prefix(r, n)[i].severity,
            ),
        forall|i: int, j: int|
            0 <= i < j < chosen_prefix(r, n).len() ==> rule_rank(#[trigger] chosen_prefix(r, n)[i].kind)
                < rule_rank(#[trigger] chosen_prefix(r, n)[j].kind),
    decreases n,
{
    if n > 0 {
        lemma_chosen_prefix_shape(r, (n - 1) as nat);
        let k = rule_at((n - 1) as nat);
        assert(rule_rank(k) == n - 1);
    }
}

/// Every rule that fires contributes its recommendation.
proof fn lemma_chosen_prefix_complete(r: RuleInputs, n: nat, k: RecommendationKind)
    requires
        n <= RULE_COUNT,
        rule_rank(k) < n,
        rule_outcome(r, k) is Some,
    ensures
        exists|i: int|
            0 <= i < chosen_prefix(r, n).len() && (#[trigger] chosen_prefix(r, n)[i]) == (RecommendationChoice {
                kind: k,
                severity: rule_outcome(r, k)->0,
            }),
    decreases n,
{
    let prev = chosen_prefix(r, (n - 1) as nat);
    if rule_rank(k) == n - 1 {
        assert(rule_at((n - 1) as nat) == k);
        let i = prev.len() as int;
        assert(chosen_prefix(r, n)[i] == RecommendationChoice { kind: k, severity: rule_outcome(r, k)->0 });
    } else {
        lemma_chosen_prefix_complete(r, (n - 1) as nat, k);
        let i = choose|i: int|
            0 <= i < prev.len() && (#[trigger] prev[i]) == (RecommendationChoice {
                kind: k,
                severity: rule_outcome(r, k)->0,
            });
        assert(chosen_prefix(r, n)[i] == prev[i]);
    }
}

/// The recommendations are exactly those of the rules that fire, each once,
/// in rule order.
pub proof fn lemma_chosen_exactly_fired_rules(r: RuleInputs)
    ensures
        forall|i: int, j: int|
            0 <= i < j < chosen(r).len() ==> rule_rank(#[trigger] chosen(r)[i].kind) < rule_rank(
                #[trigger] chosen(r)[j].kind,
            ),
        forall|i: int|
            0 <= i < chosen(r).len() ==> rule_outcome(r, (#[trigger] chosen(r)[i]).kind) == Some(
                chosen(r)[i].severity,
            ),
        forall|k: RecommendationKind|
            (#[trigger] rule_outcome(r, k)) is Some ==> exists|i: int|
                0 <= i < chosen(r).len() && (#[trigger] chosen(r)[i]) == (RecommendationChoice {
                    kind: k,
                    severity: rule_outcome(r, k)->0,
                }),
{
    lemma_chosen_prefix_shape(r, RULE_COUNT as nat);
    assert forall|k: RecommendationKind| (#[trigger] rule_outcome(r, k)) is Some implies exists|i: int|
        0 <= i < chosen(r).len() && (#[trigger] chosen(r)[i]) == (RecommendationChoice {
            kind: k,
            severity: rule_outcome(r, k)->0,
        }) by {
        lemma_chosen_prefix_complete(r, RULE_COUNT as nat, k);
    }
}

/// No two recommendations replace the same parameter, so all of them can be
/// applied together: the two rules that replace the sharpening strategy
/// require different strategies, and every other rule replaces a parameter
/// of its own.
pub proof fn lemma_recommendations_touch_distinct_fields(r: RuleInputs)
    ensures
        forall|i: int, j: int|
            0 <= i < j < chosen(r).len() ==> patch_field_of(#[trigger] chosen(r)[i].kind)
                != patch_field_of(#[trigger] chosen(r)[j].kind),
{
    lemma_chosen_exactly_fired_rules(r);
    assert forall|i: int, j: int| 0 <= i < j < chosen(r).len() implies patch_field_of(
        #[trigger] chosen(r)[i].kind,
    ) != patch_field_of(#[trigger] chosen(r)[j].kind) by {
        let a = chosen(r)[i].kind;
        let b = chosen(r)[j].kind;
        assert(rule_rank(a) < rule_rank(b));
        assert(rule_outcome(r, a) is Some);
        assert(rule_outcome(r, b) is Some);
    }
}

/// Smallest and largest probed strength (as `f32::min`/`f32::max` folds
/// from `(+inf, -inf)`, which pass over NaN); `(0, 0)` without probes.
pub open spec fn probe_range_of(strengths: Seq<u32>) -> (u32, u32) {
    if strengths.len() == 0 {
        (ZERO_BITS, ZERO_BITS)
    } else {
        min_max_scan(strengths)
    }
}

/// The probed strength range of the samples, given by their strengths.
pub fn probe_range(strengths: &[u32]) -> (r: (u32, u32))
    ensures
        r == probe_range_of(strengths@),
{
    if strengths.len() == 0 {
        (ZERO_BITS, ZERO_BITS)
    } else {
        min_max(strengths)
    }
}

/// Whether the probed range is non-empty: its smallest strength is not at
/// or above its largest (the input `probe_range_nonempty` of the rules).
pub fn probe_range_is_nonempty(strengths: &[u32]) -> (b: bool)
    ensures
        b == !ge(probe_range_of(strengths@).0, probe_range_of(strengths@).1),
{
    let (lo, hi) = probe_range(strengths);
    !bits_le(hi, lo)
}

} // verus!
