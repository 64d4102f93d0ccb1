//! Configuration, status and geometry types shared by the pipeline stages.
use vstd::prelude::*;

use crate::error::CoreError;

verus! {

// ---------------------------------------------------------------------------
// Geometry
// ---------------------------------------------------------------------------

/// Width and height of an image in pixels.
#[derive(Debug, Clone, Copy, PartialEq, Eq, Structural)]
pub struct ImageSize {
    pub width: u32,
    pub height: u32,
}

// ---------------------------------------------------------------------------
// Sharpening and metric configuration
// ---------------------------------------------------------------------------

/// How sharpening is applied to the image.
#[derive(Debug, Clone, Copy, PartialEq, Eq, Structural)]
pub enum SharpenMode {
    /// Unsharp mask on all three RGB channels.
    Rgb,
    /// Unsharp mask on CIE Y lightness; RGB rebuilt by the ratio `L'/L`.
    Lightness,
}

/// Sharpening algorithm family.
#[derive(Debug, Clone, Copy, PartialEq, Eq, Structural)]
pub enum SharpenModel {
    /// Practical unsharp mask.
    PracticalUsm,
    /// Lightness-domain approximation of the published operator.
    PaperLightnessApprox,
}

/// How the artifact metric is compared against the budget.
#[derive(Debug, Clone, Copy, PartialEq, Eq, Structural)]
pub enum MetricMode {
    /// Fraction of channel values outside `[0, 1]`, resize artifacts included.
    AbsoluteTotal,
    /// `max(0, P_total - P_base)`: only the artifacts added by sharpening.
    RelativeToBase,
}

/// Which out-of-range measure is used.
#[derive(Debug, Clone, Copy, PartialEq, Eq, Structural)]
pub enum ArtifactMetric {
    /// Fraction of channel values outside `[0, 1]` (denominator `W*H*3`).
    ChannelClippingRatio,
    /// Fraction of pixels with any channel outside `[0, 1]` (denominator `W*H`).
    PixelOutOfGamutRatio,
}

/// Which score ranks probe samples when the polynomial root is not used.
#[derive(Debug, Clone, Copy, PartialEq, Eq, Structural)]
pub enum SelectionPolicy {
    /// Gamut excursion only.
    GamutOnly,
    /// Gamut budget first, composite score among qualifying samples.
    Hybrid,
    /// Composite score only.
    CompositeOnly,
}

impl SelectionPolicy {
    /// The default policy: gamut excursion only.
    pub fn default_policy() -> (p: SelectionPolicy)
        ensures
            p == SelectionPolicy::GamutOnly,
    {
        SelectionPolicy::GamutOnly
    }
}

// ---------------------------------------------------------------------------
// Solver / diagnostics status enums
// ---------------------------------------------------------------------------

/// Outcome of the polynomial fit.
#[derive(Debug, Clone)]
pub enum FitStatus {
    /// Cubic fitted.
    Success,
    /// Fitting failed for a numerical or data reason.
    Failed { reason: String },
    /// Fitting skipped (direct search).
    Skipped,
}

/// Whether `P_hat(s*) = P0` has a root inside the probed interval.
#[derive(Debug, Clone, Copy, PartialEq, Eq, Structural)]
pub enum CrossingStatus {
    /// A root was found inside `[s_min, s_max]`.
    Found,
    /// No crossing inside the probed interval.
    NotFoundInRange,
    /// The crossing search was not run.
    NotAttempted,
}

/// How the final sharpening strength was chosen.
#[derive(Debug, Clone, Copy, PartialEq, Eq, Structural)]
pub enum SelectionMode {
    /// Largest in-range root of the fitted cubic.
    PolynomialRoot,
    /// Largest probed strength whose metric is within budget.
    BestSampleWithinBudget,
    /// No probe within budget: the probe with the smallest metric.
    LeastBadSample,
    /// The baseline alone already exceeds the budget.
    BudgetUnreachable,
}

/// Polynomial fit strategy.
#[derive(Debug, Clone, Copy, PartialEq, Eq, Structural)]
pub enum FitStrategy {
    /// Least-squares cubic, falling back to sample search.
    Cubic,
    /// Pick directly among the probe samples.
    DirectSearch,
}

/// Handling of out-of-range values in the final image.
#[derive(Debug, Clone, Copy, PartialEq, Eq, Structural)]
pub enum ClampPolicy {
    /// Clamp every component to `[0, 1]`.
    Clamp,
    /// Divide by the global maximum.
    Normalize,
}

/// Why the pipeline did not use the polynomial root.
#[derive(Debug, Clone, Copy, PartialEq, Eq, Structural)]
pub enum FallbackReason {
    /// The cubic fit failed numerically.
    FitFailed,
    /// Leave-one-out refits moved the root too much.
    FitUnstable,
    /// The root lies outside the probed interval.
    RootOutOfRange,
    /// Probe metrics are not non-decreasing.
    MetricNonMonotonic,
    /// The baseline already exceeds the budget.
    BudgetTooStrictForContent,
    /// Direct search was configured.
    DirectSearchConfigured,
    /// R² below the quality threshold.
    FitPoorQuality,
}

/// How well a pipeline stage is backed by the published method.
#[derive(Debug, Clone, Copy, PartialEq, Eq, Structural)]
pub enum Provenance {
    PaperConfirmed,
    PaperSupported,
    EngineeringChoice,
    EngineeringProxy,
    Placeholder,
}

/// Per-stage wall-clock timing in microseconds.
#[derive(Debug, Clone, Copy, PartialEq, Eq, Structural)]
pub struct StageTiming {
    pub resize_us: u64,
    pub contrast_us: u64,
    pub baseline_us: u64,
    pub probing_us: u64,
    pub fit_us: u64,
    pub robustness_us: u64,
    pub final_sharpen_us: u64,
    pub clamp_us: u64,
    pub total_us: u64,
    pub classification_us: Option<u64>,
    pub adaptive_validation_us: Option<u64>,
    pub ingress_us: Option<u64>,
    pub evaluator_us: Option<u64>,
    pub base_quality_us: Option<u64>,
}

impl Default for StageTiming {
    fn default() -> (t: StageTiming)
        ensures
            t.resize_us == 0 && t.contrast_us == 0 && t.baseline_us == 0 && t.probing_us == 0,
            t.fit_us == 0 && t.robustness_us == 0 && t.final_sharpen_us == 0,
            t.clamp_us == 0 && t.total_us == 0,
            t.classification_us is None && t.adaptive_validation_us is None,
            t.ingress_us is None && t.evaluator_us is None && t.base_quality_us is None,
    {
        StageTiming {
            resize_us: 0,
            contrast_us: 0,
            baseline_us: 0,
            probing_us: 0,
            fit_us: 0,
            robustness_us: 0,
            final_sharpen_us: 0,
            clamp_us: 0,
            total_us: 0,
            classification_us: None,
            adaptive_validation_us: None,
            ingress_us: None,
            evaluator_us: None,
            base_quality_us: None,
        }
    }
}

/// Components of the composite artifact metric, in their report order.
#[derive(Debug, Clone, Copy, PartialEq, Eq, PartialOrd, Ord, Hash, Structural)]
pub enum MetricComponent {
    /// Channel values outside `[0, 1]`.
    GamutExcursion,
    /// Sign-alternating oscillation near strong edges.
    HaloRinging,
    /// Sharpening beyond the local edge strength.
    EdgeOvershoot,
    /// Change of fine-scale variance in textured regions.
    TextureFlattening,
}

/// Verbosity of serialized diagnostics.
#[derive(Debug, Clone, Copy, PartialEq, Eq, Structural)]
pub enum DiagnosticsLevel {
    /// Final measurement only.
    Summary,
    /// Per-probe breakdowns as well.
    Full,
}

impl Default for DiagnosticsLevel {
    fn default() -> (l: DiagnosticsLevel)
        ensures
            l == DiagnosticsLevel::Summary,
    {
        DiagnosticsLevel::Summary
    }
}

// ---------------------------------------------------------------------------
// Experimental configuration enums
// ---------------------------------------------------------------------------

/// Declared color space of the pipeline input.
#[derive(Debug, Clone, Copy, PartialEq, Eq, Structural)]
pub enum InputColorSpace {
    /// sRGB already linearized by the loader.
    Srgb,
    /// Linear RGB in `[0, 1]`; out-of-range values are reported.
    LinearRgb,
    /// Linear RGB that may exceed 1; normalized by its maximum.
    RawLinear,
}

impl Default for InputColorSpace {
    fn default() -> (c: InputColorSpace)
        ensures
            c == InputColorSpace::Srgb,
    {
        InputColorSpace::Srgb
    }
}

/// Color representation on which artifacts are evaluated.
#[derive(Debug, Clone, Copy, PartialEq, Eq, Structural)]
pub enum EvaluationColorSpace {
    /// Linear RGB.
    Rgb,
    /// Luminance only.
    LumaOnly,
    /// Approximate CIE Lab.
    LabApprox,
}

impl Default for EvaluationColorSpace {
    fn default() -> (c: EvaluationColorSpace)
        ensures
            c == EvaluationColorSpace::Rgb,
    {
        EvaluationColorSpace::Rgb
    }
}

/// Quality evaluator configuration.
#[derive(Debug, Clone, Copy, PartialEq, Eq, Structural)]
pub enum EvaluatorConfig {
    /// Hand-crafted features and a linear model.
    Heuristic,
}

/// What a recommendation changes.
#[derive(Debug, Clone, Copy, PartialEq, Eq, Structural)]
pub enum RecommendationKind {
    SwitchToContentAdaptive,
    LowerStrongEdgeGain,
    RaiseArtifactBudget,
    SwitchToLightness,
    WidenProbeRange,
    LowerSigma,
    SwitchToHybrid,
}

/// Display severity of a recommendation.
#[derive(Debug, Clone, Copy, PartialEq, Eq, Structural)]
pub enum Severity {
    Info,
    Suggestion,
    Warning,
}

// ---------------------------------------------------------------------------
// Content-adaptive types
// ---------------------------------------------------------------------------

/// Number of region classes.
pub const REGION_CLASS_COUNT: usize = 5;

/// Local content class of a pixel.
///
/// The declaration order is part of the contract:
/// Flat=0, Textured=1, StrongEdge=2, Microtexture=3, RiskyHaloZone=4.
#[derive(Debug, Clone, Copy, PartialEq, Eq, Hash, Structural)]
pub enum RegionClass {
    Flat,
    Textured,
    StrongEdge,
    Microtexture,
    RiskyHaloZone,
}

/// Position of a class in the declaration order.
pub open spec fn class_index(c: RegionClass) -> nat {
    match c {
        RegionClass::Flat => 0,
        RegionClass::Textured => 1,
        RegionClass::StrongEdge => 2,
        RegionClass::Microtexture => 3,
        RegionClass::RiskyHaloZone => 4,
    }
}

impl RegionClass {
    /// Position of the class in the declaration order (`as usize`).
    pub fn index(self) -> (i: usize)
        ensures
            i == class_index(self),
            i < REGION_CLASS_COUNT,
    {
        match self {
            RegionClass::Flat => 0,
            RegionClass::Textured => 1,
            RegionClass::StrongEdge => 2,
            RegionClass::Microtexture => 3,
            RegionClass::RiskyHaloZone => 4,
        }
    }
}

/// Per-pixel region classification, row-major, with its dimensions.
#[derive(Debug, Clone)]
pub struct RegionMap {
    pub width: u32,
    pub height: u32,
    data: Vec<RegionClass>,
}

impl RegionMap {
    /// The classes, row-major.
    pub closed spec fn classes(&self) -> Seq<RegionClass> {
        self.data@
    }

    /// Width in the spec.
    pub closed spec fn map_width(&self) -> u32 {
        self.width
    }

    /// Height in the spec.
    pub closed spec fn map_height(&self) -> u32 {
        self.height
    }

    /// One class per pixel.
    pub open spec fn wf(&self) -> bool {
        self.classes().len() == self.map_width() as int * self.map_height() as int
    }

    /// Class at `(x, y)`.
    pub open spec fn class_at(&self, x: int, y: int) -> RegionClass {
        self.classes()[y * self.map_width() as int + x]
    }

    /// Build a map; fails unless `data.len() == width * height`.
    pub fn new(width: u32, height: u32, data: Vec<RegionClass>) -> (r: Result<RegionMap, CoreError>)
        requires
            width as int * height as int <= usize::MAX,
        ensures
            r matches Ok(m) ==> m.map_width() == width && m.map_height() == height
                && m.classes() == data@ && m.wf(),
            r is Ok <==> data@.len() == width as int * height as int,
            r matches Err(e) ==> e == (CoreError::BufferLengthMismatch {
                expected_len: (width as int * height as int) as usize,
                got_len: data@.len() as usize,
            }),
    {
        let expected = (width as usize) * (height as usize);
        if data.len() != expected {
            return Err(CoreError::BufferLengthMismatch { expected_len: expected, got_len: data.len() });
        }
        Ok(RegionMap { width, height, data })
    }

    /// Class at pixel `(x, y)`.
    pub fn get(&self, x: u32, y: u32) -> (c: RegionClass)
        requires
            (y as int) * (self.map_width() as int) + (x as int) < self.classes().len(),
        ensures
            c == self.class_at(x as int, y as int),
    {
        let n = self.data.len();
        assert((y as int) * (self.width as int) <= (y as int) * (self.width as int) + (x as int));
        let idx = (y as usize) * (self.width as usize) + (x as usize);
        self.data[idx]
    }

    /// The classes, row-major.
    pub fn data(&self) -> (d: &[RegionClass])
        ensures
            d@ == self.classes(),
    {
        self.data.as_slice()
    }
}

/// Per-class sharpening gains, as `f32` bit patterns.
#[derive(Debug, Clone, Copy, PartialEq, Eq, Structural)]
pub struct GainTable {
    pub flat: u32,
    pub textured: u32,
    pub strong_edge: u32,
    pub microtexture: u32,
    pub risky_halo_zone: u32,
}

/// The gain a table assigns to a class.
pub open spec fn table_gain(t: GainTable, c: RegionClass) -> u32 {
    match c {
        RegionClass::Flat => t.flat,
        RegionClass::Textured => t.textured,
        RegionClass::StrongEdge => t.strong_edge,
        RegionClass::Microtexture => t.microtexture,
        RegionClass::RiskyHaloZone => t.risky_halo_zone,
    }
}

impl GainTable {
    /// The standard preset: 0.75, 0.95, 1.00, 1.10, 0.70 (flat, textured,
    /// strong edge, microtexture, risky halo zone).
    pub fn v03_default() -> (t: GainTable)
        ensures
            t.flat == 0x3f40_0000,
            t.textured == 0x3f73_3333,
            t.strong_edge == 0x3f80_0000,
            t.microtexture == 0x3f8c_cccd,
            t.risky_halo_zone == 0x3f33_3333,
    {
        GainTable {
            flat: 0x3f40_0000,
            textured: 0x3f73_3333,
            strong_edge: 0x3f80_0000,
            microtexture: 0x3f8c_cccd,
            risky_halo_zone: 0x3f33_3333,
        }
    }

    /// The gain for a region class.
    pub fn gain_for(&self, class: RegionClass) -> (g: u32)
        ensures
            g == table_gain(*self, class),
    {
        match class {
            RegionClass::Flat => self.flat,
            RegionClass::Textured => self.textured,
            RegionClass::StrongEdge => self.strong_edge,
            RegionClass::Microtexture => self.microtexture,
            RegionClass::RiskyHaloZone => self.risky_halo_zone,
        }
    }

    /// The gains in class order.
    pub fn gains(&self) -> (g: [u32; REGION_CLASS_COUNT])
        ensures
            forall|c: RegionClass| g@[class_index(c) as int] == #[trigger] table_gain(*self, c),
    {
        [self.flat, self.textured, self.strong_edge, self.microtexture, self.risky_halo_zone]
    }
}

// ---------------------------------------------------------------------------
// Resize kernels
// ---------------------------------------------------------------------------

/// Resize kernels, in their sort order.
#[derive(Debug, Clone, Copy, PartialEq, Eq, PartialOrd, Ord, Hash, Structural)]
pub enum ResizeKernel {
    Lanczos3,
    MitchellNetravali,
    CatmullRom,
    Gaussian,
}

/// Position of a kernel in the declaration (and sort) order.
pub open spec fn kernel_rank(k: ResizeKernel) -> nat {
    match k {
        ResizeKernel::Lanczos3 => 0,
        ResizeKernel::MitchellNetravali => 1,
        ResizeKernel::CatmullRom => 2,
        ResizeKernel::Gaussian => 3,
    }
}

impl ResizeKernel {
    /// Position of the kernel in the sort order.
    pub fn rank(self) -> (r: u8)
        ensures
            r == kernel_rank(self),
    {
        match self {
            ResizeKernel::Lanczos3 => 0,
            ResizeKernel::MitchellNetravali => 1,
            ResizeKernel::CatmullRom => 2,
            ResizeKernel::Gaussian => 3,
        }
    }
}

/// Kernel assigned to each region class.
#[derive(Debug, Clone, Copy, PartialEq, Eq, Structural)]
pub struct KernelTable {
    pub flat: ResizeKernel,
    pub textured: ResizeKernel,
    pub strong_edge: ResizeKernel,
    pub microtexture: ResizeKernel,
    pub risky_halo_zone: ResizeKernel,
}

/// The kernel a table assigns to a class.
pub open spec fn table_kernel(t: KernelTable, c: RegionClass) -> ResizeKernel {
    match c {
        RegionClass::Flat => t.flat,
        RegionClass::Textured => t.textured,
        RegionClass::StrongEdge => t.strong_edge,
        RegionClass::Microtexture => t.microtexture,
        RegionClass::RiskyHaloZone => t.risky_halo_zone,
    }
}

impl Default for KernelTable {
    fn default() -> (t: KernelTable)
        ensures
            t.flat == ResizeKernel::Gaussian,
            t.textured == ResizeKernel::Lanczos3,
            t.strong_edge == ResizeKernel::Lanczos3,
            t.microtexture == ResizeKernel::CatmullRom,
            t.risky_halo_zone == ResizeKernel::MitchellNetravali,
    {
        KernelTable {
            flat: ResizeKernel::Gaussian,
            textured: ResizeKernel::Lanczos3,
            strong_edge: ResizeKernel::Lanczos3,
            microtexture: ResizeKernel::CatmullRom,
            risky_halo_zone: ResizeKernel::MitchellNetravali,
        }
    }
}

impl KernelTable {
    /// The kernel for a region class.
    pub fn kernel_for(&self, class: RegionClass) -> (k: ResizeKernel)
        ensures
            k == table_kernel(*self, class),
    {
        match class {
            RegionClass::Flat => self.flat,
            RegionClass::Textured => self.textured,
            RegionClass::StrongEdge => self.strong_edge,
            RegionClass::Microtexture => self.microtexture,
            RegionClass::RiskyHaloZone => self.risky_halo_zone,
        }
    }
}

/// Pixels of the output image produced by one kernel.
#[derive(Debug, Clone, Copy, PartialEq, Eq, Structural)]
pub struct KernelPixelCount {
    pub kernel: ResizeKernel,
    pub pixels: u32,
}

/// What the resize stage used.
#[derive(Debug, Clone)]
pub struct ResizeStrategyDiagnostics {
    /// Distinct kernels used, in sort order.
    pub kernels_used: Vec<ResizeKernel>,
    /// Output pixel count of each kernel in `kernels_used`, in the same order.
    pub per_kernel_pixel_count: Vec<KernelPixelCount>,
}

// ---------------------------------------------------------------------------
// Small configuration records without numeric parameters
// ---------------------------------------------------------------------------

/// Contrast-leveling stage switch.
#[derive(Debug, Clone, Copy, PartialEq, Eq, Structural)]
pub struct ContrastLevelingParams {
    pub enabled: bool,
}

/// Feature-based quality evaluator with fixed weights.
#[derive(Debug, Clone, Copy, PartialEq, Eq, Structural)]
pub struct HeuristicEvaluator;

} // verus!
