//! Human-readable labels of the diagnostics enums, as printed in summaries.
use vstd::prelude::*;

use crate::types::{
    ArtifactMetric, CrossingStatus, FallbackReason, FitStatus, MetricComponent, MetricMode,
    Provenance, SelectionMode, SharpenMode, SharpenModel,
};

verus! {

/// Label of a sharpen mode.
pub fn sharpen_mode_label(m: SharpenMode) -> (s: &'static str)
    ensures
        m == SharpenMode::Rgb ==> s@ == "rgb"@,
        m == SharpenMode::Lightness ==> s@ == "lightness (CIE Y)"@,
{
    match m {
        SharpenMode::Rgb => "rgb",
        SharpenMode::Lightness => "lightness (CIE Y)",
    }
}

/// Label of a metric mode.
pub fn metric_mode_label(m: MetricMode) -> (s: &'static str)
    ensures
        m == MetricMode::AbsoluteTotal ==> s@ == "absolute (total artifact ratio)"@,
        m == MetricMode::RelativeToBase ==> s@ == "relative (sharpening-added artifacts)"@,
{
    match m {
        MetricMode::AbsoluteTotal => "absolute (total artifact ratio)",
        MetricMode::RelativeToBase => "relative (sharpening-added artifacts)",
    }
}

/// Label of a fit status; a failure carries its reason in parentheses.
pub fn fit_status_label(st: &FitStatus) -> (s: String)
    ensures
        *st is Success ==> s@ == "success"@,
        *st is Skipped ==> s@ == "skipped"@,
        st matches FitStatus::Failed { reason } ==> s@ == "failed ("@ + reason@ + ")"@,
{
    match st {
        FitStatus::Success => "success".to_owned(),
        FitStatus::Failed { reason } => {
            let mut s = "failed (".to_owned();
            s.append(reason.as_str());
            s.append(")");
            s
        },
        FitStatus::Skipped => "skipped".to_owned(),
    }
}

/// Label of a crossing status.
pub fn crossing_status_label(st: &CrossingStatus) -> (s: &'static str)
    ensures
        *st == CrossingStatus::Found ==> s@ == "found"@,
        *st == CrossingStatus::NotFoundInRange ==> s@ == "not found in range"@,
        *st == CrossingStatus::NotAttempted ==> s@ == "not attempted"@,
{
    match st {
        CrossingStatus::Found => "found",
        CrossingStatus::NotFoundInRange => "not found in range",
        CrossingStatus::NotAttempted => "not attempted",
    }
}

/// Label of a selection mode.
pub fn selection_mode_label(m: &SelectionMode) -> (s: &'static str)
    ensures
        *m == SelectionMode::PolynomialRoot ==> s@ == "polynomial root"@,
        *m == SelectionMode::BestSampleWithinBudget ==> s@ == "best sample within budget"@,
        *m == SelectionMode::LeastBadSample ==> s@ == "least bad sample"@,
        *m == SelectionMode::BudgetUnreachable ==> s@ == "budget unreachable"@,
{
    match m {
        SelectionMode::PolynomialRoot => "polynomial root",
        SelectionMode::BestSampleWithinBudget => "best sample within budget",
        SelectionMode::LeastBadSample => "least bad sample",
        SelectionMode::BudgetUnreachable => "budget unreachable",
    }
}

/// Label of a sharpening model.
pub fn sharpen_model_label(m: SharpenModel) -> (s: &'static str)
    ensures
        m == SharpenModel::PracticalUsm ==> s@ == "practical USM"@,
        m == SharpenModel::PaperLightnessApprox ==> s@ == "paper lightness approx"@,
{
    match m {
        SharpenModel::PracticalUsm => "practical USM",
        SharpenModel::PaperLightnessApprox => "paper lightness approx",
    }
}

/// Label of an artifact metric.
pub fn artifact_metric_label(m: ArtifactMetric) -> (s: &'static str)
    ensures
        m == ArtifactMetric::ChannelClippingRatio ==> s@ == "channel clipping ratio"@,
        m == ArtifactMetric::PixelOutOfGamutRatio ==> s@ == "pixel out-of-gamut ratio"@,
{
    match m {
        ArtifactMetric::ChannelClippingRatio => "channel clipping ratio",
        ArtifactMetric::PixelOutOfGamutRatio => "pixel out-of-gamut ratio",
    }
}

/// Label of a provenance tier.
pub fn provenance_label(p: Provenance) -> (s: &'static str)
    ensures
        p == Provenance::PaperConfirmed ==> s@ == "paper confirmed"@,
        p == Provenance::PaperSupported ==> s@ == "paper supported"@,
        p == Provenance::EngineeringChoice ==> s@ == "engineering choice"@,
        p == Provenance::EngineeringProxy ==> s@ == "engineering proxy"@,
        p == Provenance::Placeholder ==> s@ == "placeholder"@,
{
    match p {
        Provenance::PaperConfirmed => "paper confirmed",
        Provenance::PaperSupported => "paper supported",
        Provenance::EngineeringChoice => "engineering choice",
        Provenance::EngineeringProxy => "engineering proxy",
        Provenance::Placeholder => "placeholder",
    }
}

/// Label of a fallback reason.
pub fn fallback_reason_label(r: &FallbackReason) -> (s: &'static str)
    ensures
        *r == FallbackReason::FitFailed ==> s@ == "fit failed"@,
        *r == FallbackReason::FitUnstable ==> s@ == "fit unstable (LOO)"@,
        *r == FallbackReason::RootOutOfRange ==> s@ == "root out of range"@,
        *r == FallbackReason::MetricNonMonotonic ==> s@ == "metric non-monotonic"@,
        *r == FallbackReason::BudgetTooStrictForContent ==> s@ == "budget too strict for content"@,
        *r == FallbackReason::DirectSearchConfigured ==> s@ == "direct search configured"@,
        *r == FallbackReason::FitPoorQuality ==> s@ == "fit poor quality (R² < 0.85)"@,
{
    match r {
        FallbackReason::FitFailed => "fit failed",
        FallbackReason::FitUnstable => "fit unstable (LOO)",
        FallbackReason::RootOutOfRange => "root out of range",
        FallbackReason::MetricNonMonotonic => "metric non-monotonic",
        FallbackReason::BudgetTooStrictForContent => "budget too strict for content",
        FallbackReason::DirectSearchConfigured => "direct search configured",
        FallbackReason::FitPoorQuality => "fit poor quality (R² < 0.85)",
    }
}

/// Label of a metric component.
pub fn metric_component_label(c: MetricComponent) -> (s: &'static str)
    ensures
        c == MetricComponent::GamutExcursion ==> s@ == "gamut_excursion"@,
        c == MetricComponent::HaloRinging ==> s@ == "halo_ringing"@,
        c == MetricComponent::EdgeOvershoot ==> s@ == "edge_overshoot"@,
        c == MetricComponent::TextureFlattening ==> s@ == "texture_flattening"@,
{
    match c {
        MetricComponent::GamutExcursion => "gamut_excursion",
        MetricComponent::HaloRinging => "halo_ringing",
        MetricComponent::EdgeOvershoot => "edge_overshoot",
        MetricComponent::TextureFlattening => "texture_flattening",
    }
}

} // verus!
