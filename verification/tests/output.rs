use r3sizer::cli::{
    plan_dimensions, ArtifactMetricArg, DiagnosticsLevelArg, DimensionPlan, MetricModeArg,
    SharpenModeArg, SharpenModelArg,
};
use r3sizer::error::CoreError;
use r3sizer::output::{
    artifact_metric_label, crossing_status_label, fallback_reason_label, fit_status_label,
    metric_component_label, metric_mode_label, provenance_label, selection_mode_label,
    sharpen_mode_label, sharpen_model_label,
};
use r3sizer::types::{
    ArtifactMetric, CrossingStatus, DiagnosticsLevel, FallbackReason, FitStatus, MetricComponent,
    MetricMode, Provenance, SelectionMode, SharpenMode, SharpenModel,
};

#[test]
fn mode_labels() {
    assert_eq!(sharpen_mode_label(SharpenMode::Rgb), "rgb");
    assert_eq!(sharpen_mode_label(SharpenMode::Lightness), "lightness (CIE Y)");
    assert_eq!(metric_mode_label(MetricMode::AbsoluteTotal), "absolute (total artifact ratio)");
    assert_eq!(
        metric_mode_label(MetricMode::RelativeToBase),
        "relative (sharpening-added artifacts)"
    );
    assert_eq!(sharpen_model_label(SharpenModel::PracticalUsm), "practical USM");
    assert_eq!(sharpen_model_label(SharpenModel::PaperLightnessApprox), "paper lightness approx");
    assert_eq!(artifact_metric_label(ArtifactMetric::ChannelClippingRatio), "channel clipping ratio");
    assert_eq!(
        artifact_metric_label(ArtifactMetric::PixelOutOfGamutRatio),
        "pixel out-of-gamut ratio"
    );
}

#[test]
fn fit_status_labels() {
    assert_eq!(fit_status_label(&FitStatus::Success), "success");
    assert_eq!(fit_status_label(&FitStatus::Skipped), "skipped");
    let failed = FitStatus::Failed { reason: "singular matrix".to_owned() };
    assert_eq!(fit_status_label(&failed), "failed (singular matrix)");
}

#[test]
fn status_labels() {
    assert_eq!(crossing_status_label(&CrossingStatus::Found), "found");
    assert_eq!(crossing_status_label(&CrossingStatus::NotFoundInRange), "not found in range");
    assert_eq!(crossing_status_label(&CrossingStatus::NotAttempted), "not attempted");
    assert_eq!(selection_mode_label(&SelectionMode::PolynomialRoot), "polynomial root");
    assert_eq!(
        selection_mode_label(&SelectionMode::BestSampleWithinBudget),
        "best sample within budget"
    );
    assert_eq!(selection_mode_label(&SelectionMode::LeastBadSample), "least bad sample");
    assert_eq!(selection_mode_label(&SelectionMode::BudgetUnreachable), "budget unreachable");
    assert_eq!(provenance_label(Provenance::PaperConfirmed), "paper confirmed");
    assert_eq!(provenance_label(Provenance::Placeholder), "placeholder");
}

#[test]
fn fallback_and_component_labels() {
    assert_eq!(fallback_reason_label(&FallbackReason::FitFailed), "fit failed");
    assert_eq!(fallback_reason_label(&FallbackReason::FitUnstable), "fit unstable (LOO)");
    assert_eq!(
        fallback_reason_label(&FallbackReason::FitPoorQuality),
        "fit poor quality (R\u{b2} < 0.85)"
    );
    assert_eq!(
        fallback_reason_label(&FallbackReason::BudgetTooStrictForContent),
        "budget too strict for content"
    );
    assert_eq!(metric_component_label(MetricComponent::GamutExcursion), "gamut_excursion");
    assert_eq!(metric_component_label(MetricComponent::TextureFlattening), "texture_flattening");
}

#[test]
fn cli_choices_select_configuration() {
    assert_eq!(SharpenMode::from(SharpenModeArg::Rgb), SharpenMode::Rgb);
    assert_eq!(SharpenMode::from(SharpenModeArg::Lightness), SharpenMode::Lightness);
    assert_eq!(MetricMode::from(MetricModeArg::Absolute), MetricMode::AbsoluteTotal);
    assert_eq!(MetricMode::from(MetricModeArg::Relative), MetricMode::RelativeToBase);
    assert_eq!(
        SharpenModel::from(SharpenModelArg::PaperLightnessApprox),
        SharpenModel::PaperLightnessApprox
    );
    assert_eq!(
        ArtifactMetric::from(ArtifactMetricArg::PixelOutOfGamut),
        ArtifactMetric::PixelOutOfGamutRatio
    );
    assert_eq!(DiagnosticsLevel::from(DiagnosticsLevelArg::Full), DiagnosticsLevel::Full);
    assert_eq!(DiagnosticsLevel::from(DiagnosticsLevelArg::Summary), DiagnosticsLevel::Summary);
}

#[test]
fn dimension_plans() {
    assert_eq!(
        plan_dimensions(Some(40), Some(30), false).unwrap(),
        DimensionPlan::Exact { width: 40, height: 30 }
    );
    assert_eq!(plan_dimensions(Some(40), None, true).unwrap(), DimensionPlan::FromWidth { width: 40 });
    assert_eq!(plan_dimensions(None, Some(30), true).unwrap(), DimensionPlan::FromHeight { height: 30 });
    match plan_dimensions(None, None, true) {
        Err(CoreError::InvalidParams(m)) => assert_eq!(m, "at least one of --width or --height is required"),
        other => panic!("unexpected {other:?}"),
    }
    match plan_dimensions(Some(40), None, false) {
        Err(CoreError::InvalidParams(m)) => assert_eq!(
            m,
            "both --width and --height are required unless --preserve-aspect-ratio is set"
        ),
        other => panic!("unexpected {other:?}"),
    }
}
