use r3sizer::recommendations::{
    patch_field, probe_range, probe_range_is_nonempty, select_recommendations, PatchField, RecommendationChoice, RuleInputs, StrategyKind,
};
use r3sizer::types::{RecommendationKind, SelectionMode, SelectionPolicy, Severity, SharpenMode};

/// Rule inputs of the reference scenario: uniform sharpening in lightness
/// mode with sigma 1.0, gamut-only policy, a polynomial root at 0.30 inside
/// probes 0.05..0.50 fitted with R² = 0.99, no evaluator and no region map.
fn base_inputs() -> RuleInputs {
    RuleInputs {
        strategy: StrategyKind::Uniform,
        strong_edge_gain: 1.0f32.to_bits(),
        sharpen_mode: SharpenMode::Lightness,
        sharpen_sigma: 1.0f32.to_bits(),
        selection_policy: SelectionPolicy::GamutOnly,
        selection_mode: SelectionMode::PolynomialRoot,
        edge_density: None,
        risky_halo_zone_fraction: None,
        budget_shift_found: false,
        probe_range_nonempty: true,
        poor_fit: false,
        near_probe_boundary: false,
        composite_alternative_found: false,
    }
}

fn kinds(v: &[RecommendationChoice]) -> Vec<RecommendationKind> {
    v.iter().map(|c| c.kind).collect()
}

fn find(v: &[RecommendationChoice], k: RecommendationKind) -> Option<RecommendationChoice> {
    v.iter().copied().find(|c| c.kind == k)
}

#[test]
fn rule1_fires_on_high_edge_density_uniform() {
    let mut r = base_inputs();
    r.edge_density = Some(0.25f32.to_bits());
    let recs = select_recommendations(&r);
    assert!(kinds(&recs).contains(&RecommendationKind::SwitchToContentAdaptive));
    assert_eq!(
        patch_field(RecommendationKind::SwitchToContentAdaptive),
        PatchField::SharpenStrategy
    );
}

#[test]
fn rule1_skips_when_already_adaptive() {
    let mut r = base_inputs();
    r.edge_density = Some(0.25f32.to_bits());
    r.strategy = StrategyKind::ContentAdaptive;
    let recs = select_recommendations(&r);
    assert!(!kinds(&recs).contains(&RecommendationKind::SwitchToContentAdaptive));
}

#[test]
fn rule1_skips_when_low_edge_density() {
    let mut r = base_inputs();
    r.edge_density = Some(0.10f32.to_bits());
    let recs = select_recommendations(&r);
    assert!(!kinds(&recs).contains(&RecommendationKind::SwitchToContentAdaptive));
}

#[test]
fn rule2_fires_on_high_halo_zone_fraction() {
    let mut r = base_inputs();
    r.risky_halo_zone_fraction = Some(0.20f32.to_bits());
    r.strategy = StrategyKind::ContentAdaptive;
    let recs = select_recommendations(&r);
    let rec = find(&recs, RecommendationKind::LowerStrongEdgeGain).unwrap();
    assert_eq!(rec.severity, Severity::Suggestion);
}

#[test]
fn rule2_skips_when_uniform() {
    let mut r = base_inputs();
    r.risky_halo_zone_fraction = Some(0.20f32.to_bits());
    let recs = select_recommendations(&r);
    assert!(!kinds(&recs).contains(&RecommendationKind::LowerStrongEdgeGain));
}

#[test]
fn rule2_warns_above_a_quarter() {
    let mut r = base_inputs();
    r.risky_halo_zone_fraction = Some(0.30f32.to_bits());
    r.strategy = StrategyKind::ContentAdaptive;
    let recs = select_recommendations(&r);
    assert_eq!(
        find(&recs, RecommendationKind::LowerStrongEdgeGain).unwrap().severity,
        Severity::Warning
    );
    r.strong_edge_gain = 0.5f32.to_bits();
    let recs = select_recommendations(&r);
    assert!(find(&recs, RecommendationKind::LowerStrongEdgeGain).is_none());
}

#[test]
fn rule4_fires_on_rgb_mode_with_edges() {
    let mut r = base_inputs();
    r.edge_density = Some(0.20f32.to_bits());
    r.sharpen_mode = SharpenMode::Rgb;
    let recs = select_recommendations(&r);
    assert!(kinds(&recs).contains(&RecommendationKind::SwitchToLightness));
}

#[test]
fn rule4_skips_when_already_lightness() {
    let mut r = base_inputs();
    r.edge_density = Some(0.20f32.to_bits());
    let recs = select_recommendations(&r);
    assert!(!kinds(&recs).contains(&RecommendationKind::SwitchToLightness));
}

#[test]
fn rule5_fires_on_poor_r_squared() {
    let mut r = base_inputs();
    r.poor_fit = true;
    let recs = select_recommendations(&r);
    let rec = find(&recs, RecommendationKind::WidenProbeRange).unwrap();
    assert!(matches!(rec.severity, Severity::Warning));
}

#[test]
fn rule5_fires_when_strength_near_boundary() {
    let mut r = base_inputs();
    r.near_probe_boundary = true;
    let recs = select_recommendations(&r);
    let rec = find(&recs, RecommendationKind::WidenProbeRange).unwrap();
    assert!(matches!(rec.severity, Severity::Suggestion));
}

#[test]
fn rule5_skips_when_good_fit_and_centered() {
    let recs = select_recommendations(&base_inputs());
    assert!(!kinds(&recs).contains(&RecommendationKind::WidenProbeRange));
}

#[test]
fn rule5_skips_without_probe_span() {
    let mut r = base_inputs();
    r.poor_fit = true;
    r.probe_range_nonempty = false;
    assert!(select_recommendations(&r).is_empty());
}

#[test]
fn rule6_fires_on_detail_rich_with_high_sigma() {
    let mut r = base_inputs();
    r.edge_density = Some(0.35f32.to_bits());
    r.sharpen_sigma = 2.0f32.to_bits();
    let recs = select_recommendations(&r);
    let rec = find(&recs, RecommendationKind::LowerSigma).unwrap();
    assert_eq!(rec.severity, Severity::Info);
}

#[test]
fn rule6_skips_when_sigma_already_low() {
    let mut r = base_inputs();
    r.edge_density = Some(0.35f32.to_bits());
    r.sharpen_sigma = 1.0f32.to_bits();
    let recs = select_recommendations(&r);
    assert!(!kinds(&recs).contains(&RecommendationKind::LowerSigma));
}

#[test]
fn no_two_recommendations_share_a_field() {
    let mut r = base_inputs();
    r.edge_density = Some(0.30f32.to_bits());
    r.poor_fit = true;
    r.sharpen_mode = SharpenMode::Rgb;
    r.sharpen_sigma = 2.0f32.to_bits();
    let recs = select_recommendations(&r);
    assert!(recs.len() >= 4);
    for (i, a) in recs.iter().enumerate() {
        for b in recs.iter().skip(i + 1) {
            assert_ne!(patch_field(a.kind), patch_field(b.kind), "{:?} and {:?}", a.kind, b.kind);
        }
    }
}

#[test]
fn rule7_fires_when_hybrid_would_pick_better_composite() {
    let mut r = base_inputs();
    r.selection_mode = SelectionMode::BestSampleWithinBudget;
    r.composite_alternative_found = true;
    let recs = select_recommendations(&r);
    let rec = find(&recs, RecommendationKind::SwitchToHybrid).unwrap();
    assert_eq!(rec.severity, Severity::Suggestion);
    assert_eq!(patch_field(rec.kind), PatchField::SelectionPolicy);
}

#[test]
fn rule7_fires_on_least_bad_fallback() {
    let mut r = base_inputs();
    r.selection_mode = SelectionMode::LeastBadSample;
    r.composite_alternative_found = true;
    let recs = select_recommendations(&r);
    assert!(kinds(&recs).contains(&RecommendationKind::SwitchToHybrid));
}

#[test]
fn rule7_skips_when_already_hybrid() {
    let mut r = base_inputs();
    r.selection_mode = SelectionMode::BestSampleWithinBudget;
    r.composite_alternative_found = true;
    r.selection_policy = SelectionPolicy::Hybrid;
    let recs = select_recommendations(&r);
    assert!(!kinds(&recs).contains(&RecommendationKind::SwitchToHybrid));
}

#[test]
fn rule7_skips_on_polynomial_root() {
    let mut r = base_inputs();
    r.composite_alternative_found = true;
    let recs = select_recommendations(&r);
    assert!(!kinds(&recs).contains(&RecommendationKind::SwitchToHybrid));
}

#[test]
fn recommendations_come_in_rule_order() {
    let r = RuleInputs {
        strategy: StrategyKind::Uniform,
        strong_edge_gain: 1.0f32.to_bits(),
        sharpen_mode: SharpenMode::Rgb,
        sharpen_sigma: 2.0f32.to_bits(),
        selection_policy: SelectionPolicy::GamutOnly,
        selection_mode: SelectionMode::LeastBadSample,
        edge_density: Some(0.40f32.to_bits()),
        risky_halo_zone_fraction: Some(0.40f32.to_bits()),
        budget_shift_found: true,
        probe_range_nonempty: true,
        poor_fit: false,
        near_probe_boundary: true,
        composite_alternative_found: true,
    };
    let recs = select_recommendations(&r);
    assert_eq!(
        kinds(&recs),
        vec![
            RecommendationKind::SwitchToContentAdaptive,
            RecommendationKind::RaiseArtifactBudget,
            RecommendationKind::SwitchToLightness,
            RecommendationKind::WidenProbeRange,
            RecommendationKind::LowerSigma,
            RecommendationKind::SwitchToHybrid,
        ]
    );
    let sev: Vec<Severity> = recs.iter().map(|c| c.severity).collect();
    assert_eq!(
        sev,
        vec![
            Severity::Suggestion,
            Severity::Info,
            Severity::Suggestion,
            Severity::Suggestion,
            Severity::Info,
            Severity::Suggestion,
        ]
    );
}

#[test]
fn nan_edge_density_counts_as_high() {
    let mut r = base_inputs();
    r.edge_density = Some(f32::NAN.to_bits());
    let recs = select_recommendations(&r);
    assert!(kinds(&recs).contains(&RecommendationKind::SwitchToContentAdaptive));
}

#[test]
fn probe_range_of_strengths() {
    let bits = |v: &[f32]| v.iter().map(|x| x.to_bits()).collect::<Vec<u32>>();
    let (lo, hi) = probe_range(&bits(&[0.2, 0.05, 0.5, 0.1]));
    assert_eq!((f32::from_bits(lo), f32::from_bits(hi)), (0.05, 0.5));
    assert_eq!(probe_range(&[]), (0.0f32.to_bits(), 0.0f32.to_bits()));
    let (lo, hi) = probe_range(&bits(&[0.3, f32::NAN, 0.1]));
    assert_eq!((f32::from_bits(lo), f32::from_bits(hi)), (0.1, 0.3));
    assert!(probe_range_is_nonempty(&bits(&[0.05, 0.5])));
    assert!(!probe_range_is_nonempty(&bits(&[0.3, 0.3])));
    assert!(!probe_range_is_nonempty(&[]));
}
