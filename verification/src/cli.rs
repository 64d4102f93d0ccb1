//! Command-line choices and the configuration values they select.
use vstd::prelude::*;

use crate::error::CoreError;
use crate::types::{ArtifactMetric, DiagnosticsLevel, MetricMode, SharpenMode, SharpenModel};

verus! {

/// `--sharpen-mode` choice.
#[derive(Debug, Clone, Copy, PartialEq, Eq, Structural)]
pub enum SharpenModeArg {
    Rgb,
    Lightness,
}

/// `--metric-mode` choice.
#[derive(Debug, Clone, Copy, PartialEq, Eq, Structural)]
pub enum MetricModeArg {
    Absolute,
    Relative,
}

/// `--sharpen-model` choice.
#[derive(Debug, Clone, Copy, PartialEq, Eq, Structural)]
pub enum SharpenModelArg {
    PracticalUsm,
    PaperLightnessApprox,
}

/// `--artifact-metric` choice.
#[derive(Debug, Clone, Copy, PartialEq, Eq, Structural)]
pub enum ArtifactMetricArg {
    ChannelClipping,
    PixelOutOfGamut,
}

/// `--diagnostics-level` choice.
#[derive(Debug, Clone, Copy, PartialEq, Eq, Structural)]
pub enum DiagnosticsLevelArg {
    Summary,
    Full,
}

/// The sharpen mode a choice selects.
pub open spec fn sharpen_mode_of(a: SharpenModeArg) -> SharpenMode {
    match a {
        SharpenModeArg::Rgb => SharpenMode::Rgb,
        SharpenModeArg::Lightness => SharpenMode::Lightness,
    }
}

/// The metric mode a choice selects.
pub open spec fn metric_mode_of(a: MetricModeArg) -> MetricMode {
    match a {
        MetricModeArg::Absolute => MetricMode::AbsoluteTotal,
        MetricModeArg::Relative => MetricMode::RelativeToBase,
    }
}

/// The sharpening model a choice selects.
pub open spec fn sharpen_model_of(a: SharpenModelArg) -> SharpenModel {
    match a {
        SharpenModelArg::PracticalUsm => SharpenModel::PracticalUsm,
        SharpenModelArg::PaperLightnessApprox => SharpenModel::PaperLightnessApprox,
    }
}

/// The artifact metric a choice selects.
pub open spec fn artifact_metric_of(a: ArtifactMetricArg) -> ArtifactMetric {
    match a {
        ArtifactMetricArg::ChannelClipping => ArtifactMetric::ChannelClippingRatio,
        ArtifactMetricArg::PixelOutOfGamut => ArtifactMetric::PixelOutOfGamutRatio,
    }
}

/// The diagnostics level a choice selects.
pub open spec fn diagnostics_level_of(a: DiagnosticsLevelArg) -> DiagnosticsLevel {
    match a {
        DiagnosticsLevelArg::Summary => DiagnosticsLevel::Summary,
        DiagnosticsLevelArg::Full => DiagnosticsLevel::Full,
    }
}

impl From<SharpenModeArg> for SharpenMode {
    fn from(val: SharpenModeArg) -> (r: SharpenMode) {
        match val {
            SharpenModeArg::Rgb => SharpenMode::Rgb,
            SharpenModeArg::Lightness => SharpenMode::Lightness,
        }
    }
}

impl vstd::std_specs::convert::FromSpecImpl<SharpenModeArg> for SharpenMode {
    open spec fn obeys_from_spec() -> bool {
        true
    }

    open spec fn from_spec(v: SharpenModeArg) -> SharpenMode {
        sharpen_mode_of(v)
    }
}

impl From<MetricModeArg> for MetricMode {
    fn from(val: MetricModeArg) -> (r: MetricMode) {
        match val {
            MetricModeArg::Absolute => MetricMode::AbsoluteTotal,
            MetricModeArg::Relative => MetricMode::RelativeToBase,
        }
    }
}

impl vstd::std_specs::convert::FromSpecImpl<MetricModeArg> for MetricMode {
    open spec fn obeys_from_spec() -> bool {
        true
    }

    open spec fn from_spec(v: MetricModeArg) -> MetricMode {
        metric_mode_of(v)
    }
}

impl From<SharpenModelArg> for SharpenModel {
    fn from(val: SharpenModelArg) -> (r: SharpenModel) {
        match val {
            SharpenModelArg::PracticalUsm => SharpenModel::PracticalUsm,
            SharpenModelArg::PaperLightnessApprox => SharpenModel::PaperLightnessApprox,
        }
    }
}

impl vstd::std_specs::convert::FromSpecImpl<SharpenModelArg> for SharpenModel {
    open spec fn obeys_from_spec() -> bool {
        true
    }

    open spec fn from_spec(v: SharpenModelArg) -> SharpenModel {
        sharpen_model_of(v)
    }
}

impl From<ArtifactMetricArg> for ArtifactMetric {
    fn from(val: ArtifactMetricArg) -> (r: ArtifactMetric) {
        match val {
            ArtifactMetricArg::ChannelClipping => ArtifactMetric::ChannelClippingRatio,
            ArtifactMetricArg::PixelOutOfGamut => ArtifactMetric::PixelOutOfGamutRatio,
        }
    }
}

impl vstd::std_specs::convert::FromSpecImpl<ArtifactMetricArg> for ArtifactMetric {
    open spec fn obeys_from_spec() -> bool {
        true
    }

    open spec fn from_spec(v: ArtifactMetricArg) -> ArtifactMetric {
        artifact_metric_of(v)
    }
}

impl From<DiagnosticsLevelArg> for DiagnosticsLevel {
    fn from(val: DiagnosticsLevelArg) -> (r: DiagnosticsLevel) {
        match val {
            DiagnosticsLevelArg::Summary => DiagnosticsLevel::Summary,
            DiagnosticsLevelArg::Full => DiagnosticsLevel::Full,
        }
    }
}

impl vstd::std_specs::convert::FromSpecImpl<DiagnosticsLevelArg> for DiagnosticsLevel {
    open spec fn obeys_from_spec() -> bool {
        true
    }

    open spec fn from_spec(v: DiagnosticsLevelArg) -> DiagnosticsLevel {
        diagnostics_level_of(v)
    }
}


/// How the output size follows from `--width`, `--height` and
/// `--preserve-aspect-ratio`.
#[derive(Debug, Clone, Copy, PartialEq, Eq, Structural)]
pub enum DimensionPlan {
    /// Both dimensions given.
    Exact { width: u32, height: u32 },
    /// Width given; the height follows the source aspect ratio.
    FromWidth { width: u32 },
    /// Height given; the width follows the source aspect ratio.
    FromHeight { height: u32 },
}

/// The plan for the given options, or the message of the missing option.
pub open spec fn dimension_plan(width: Option<u32>, height: Option<u32>, preserve_aspect_ratio: bool) -> Result<
    DimensionPlan,
    Seq<char>,
> {
    match (width, height) {
        (Some(w), Some(h)) => Ok(DimensionPlan::Exact { width: w, height: h }),
        (None, None) => Err("at least one of --width or --height is required"@),
        (Some(w), None) => if preserve_aspect_ratio {
            Ok(DimensionPlan::FromWidth { width: w })
        } else {
            Err("both --width and --height are required unless --preserve-aspect-ratio is set"@)
        },
        (None, Some(h)) => if preserve_aspect_ratio {
            Ok(DimensionPlan::FromHeight { height: h })
        } else {
            Err("both --width and --height are required unless --preserve-aspect-ratio is set"@)
        },
    }
}

/// Decide how the target size is obtained; fails with `InvalidParams` when
/// a needed dimension is missing.
pub fn plan_dimensions(width: Option<u32>, height: Option<u32>, preserve_aspect_ratio: bool) -> (r: Result<
    DimensionPlan,
    CoreError,
>)
    ensures
        dimension_plan(width, height, preserve_aspect_ratio) matches Ok(p) ==> r == Ok::<
            DimensionPlan,
            CoreError,
        >(p),
        dimension_plan(width, height, preserve_aspect_ratio) matches Err(msg) ==> (r matches Err(
            CoreError::InvalidParams(m),
        ) && m@ == msg),
{
    match (width, height) {
        (Some(w), Some(h)) => Ok(DimensionPlan::Exact { width: w, height: h }),
        (None, None) => Err(CoreError::InvalidParams("at least one of --width or --height is required".to_owned())),
        (Some(w), None) => if preserve_aspect_ratio {
            Ok(DimensionPlan::FromWidth { width: w })
        } else {
            Err(
                CoreError::InvalidParams(
                    "both --width and --height are required unless --preserve-aspect-ratio is set".to_owned(),
                ),
            )
        },
        (None, Some(h)) => if preserve_aspect_ratio {
            Ok(DimensionPlan::FromHeight { height: h })
        } else {
            Err(
                CoreError::InvalidParams(
                    "both --width and --height are required unless --preserve-aspect-ratio is set".to_owned(),
                ),
            )
        },
    }
}

/// Given dimensions are used as given: when both are given the plan is
/// exactly those dimensions, whatever `--preserve-aspect-ratio` says; with
/// one dimension given and the flag set, the plan keeps that dimension and
/// derives the other; a plan is refused exactly when no dimension is given,
/// or only one is given without the flag.
pub proof fn lemma_dimension_plan_uses_given_sizes(width: Option<u32>, height: Option<u32>, preserve_aspect_ratio: bool)
    ensures
        width is Some && height is Some ==> dimension_plan(width, height, preserve_aspect_ratio)
            == Ok::<DimensionPlan, Seq<char>>(
            DimensionPlan::Exact { width: width.unwrap(), height: height.unwrap() },
        ),
        width is Some && height is Some ==> dimension_plan(width, height, true) == dimension_plan(
            width,
            height,
            false,
        ),
        dimension_plan(width, height, preserve_aspect_ratio) is Err <==> (width is None && height is None)
            || ((width is None || height is None) && !preserve_aspect_ratio),
        dimension_plan(width, height, preserve_aspect_ratio) matches Ok(DimensionPlan::Exact { width: w, height: h })
            ==> width == Some(w) && height == Some(h),
        dimension_plan(width, height, preserve_aspect_ratio) matches Ok(DimensionPlan::FromWidth { width: w })
            ==> width == Some(w) && height is None && preserve_aspect_ratio,
        dimension_plan(width, height, preserve_aspect_ratio) matches Ok(DimensionPlan::FromHeight { height: h })
            ==> height == Some(h) && width is None && preserve_aspect_ratio,
{
}

} // verus!
