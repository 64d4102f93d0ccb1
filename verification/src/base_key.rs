//! Which parameters a prepared base depends on, and when a prepared base
//! can be reused for new parameters.
//!
//! Resizing, classification, contrast leveling, the baseline metric and the
//! evaluator depend only on the fields collected in [`BaseParamsKey`];
//! probing and fitting parameters do not.  A prepared base is reused
//! exactly when the key of the new parameters equals the key it was
//! prepared with, field by field, with `f32` fields compared as `f32`
//! (given here as bit patterns): a NaN field never compares equal, and
//! `-0.0` equals `+0.0`.
use vstd::prelude::*;

use crate::classifier::ThresholdBits;
use crate::float_bits::{bits_eq, feq, is_nan};
use crate::types::{
    ArtifactMetric, EvaluationColorSpace, EvaluatorConfig, GainTable, ImageSize, InputColorSpace,
    KernelTable, ResizeKernel,
};

verus! {

/// Region classification parameters.
#[derive(Debug, Clone, Copy, PartialEq, Eq, Structural)]
pub struct ClassificationKey {
    pub thresholds: ThresholdBits,
    pub variance_window: usize,
}

/// The sharpening strategy.
#[derive(Debug, Clone, Copy, PartialEq, Eq, Structural)]
pub enum SharpenStrategyKey {
    Uniform,
    ContentAdaptive {
        classification: ClassificationKey,
        gain_table: GainTable,
        max_backoff_iterations: u8,
        backoff_scale_factor: u32,
    },
}

/// The resize strategy.
#[derive(Debug, Clone, Copy, PartialEq, Eq, Structural)]
pub enum ResizeStrategyKey {
    Uniform { kernel: ResizeKernel },
    ContentAdaptive { classification: ClassificationKey, kernel_table: KernelTable },
}

/// The parameters that base preparation depends on.
#[derive(Debug, Clone, Copy, PartialEq, Eq, Structural)]
pub struct BaseParamsKey {
    pub target: ImageSize,
    pub target_artifact_ratio: u32,
    pub enable_contrast_leveling: bool,
    pub sharpen_strategy: SharpenStrategyKey,
    pub input_color_space: Option<InputColorSpace>,
    pub resize_strategy: Option<ResizeStrategyKey>,
    pub evaluation_color_space: Option<EvaluationColorSpace>,
    pub artifact_metric: ArtifactMetric,
    pub evaluator_config: Option<EvaluatorConfig>,
}

/// Classification parameters compare equal.
pub open spec fn classification_eq(a: ClassificationKey, b: ClassificationKey) -> bool {
    &&& feq(a.thresholds.gradient_low, b.thresholds.gradient_low)
    &&& feq(a.thresholds.gradient_high, b.thresholds.gradient_high)
    &&& feq(a.thresholds.variance_low, b.thresholds.variance_low)
    &&& feq(a.thresholds.variance_high, b.thresholds.variance_high)
    &&& a.variance_window == b.variance_window
}

/// Gain tables compare equal.
pub open spec fn gain_table_eq(a: GainTable, b: GainTable) -> bool {
    &&& feq(a.flat, b.flat)
    &&& feq(a.textured, b.textured)
    &&& feq(a.strong_edge, b.strong_edge)
    &&& feq(a.microtexture, b.microtexture)
    &&& feq(a.risky_halo_zone, b.risky_halo_zone)
}

/// Sharpening strategies compare equal: same variant, equal fields.
pub open spec fn sharpen_strategy_eq(a: SharpenStrategyKey, b: SharpenStrategyKey) -> bool {
    match (a, b) {
        (SharpenStrategyKey::Uniform, SharpenStrategyKey::Uniform) => true,
        (
            SharpenStrategyKey::ContentAdaptive {
                classification: ca,
                gain_table: ga,
                max_backoff_iterations: ma,
                backoff_scale_factor: fa,
            },
            SharpenStrategyKey::ContentAdaptive {
                classification: cb,
                gain_table: gb,
                max_backoff_iterations: mb,
                backoff_scale_factor: fb,
            },
        ) => classification_eq(ca, cb) && gain_table_eq(ga, gb) && ma == mb && feq(fa, fb),
        _ => false,
    }
}

/// Resize strategies compare equal: same variant, equal fields.
pub open spec fn resize_strategy_eq(a: ResizeStrategyKey, b: ResizeStrategyKey) -> bool {
    match (a, b) {
        (ResizeStrategyKey::Uniform { kernel: ka }, ResizeStrategyKey::Uniform { kernel: kb }) => ka
            == kb,
        (
            ResizeStrategyKey::ContentAdaptive { classification: ca, kernel_table: ta },
            ResizeStrategyKey::ContentAdaptive { classification: cb, kernel_table: tb },
        ) => classification_eq(ca, cb) && ta == tb,
        _ => false,
    }
}

/// Optional resize strategies compare equal.
pub open spec fn opt_resize_strategy_eq(a: Option<ResizeStrategyKey>, b: Option<ResizeStrategyKey>) -> bool {
    match (a, b) {
        (None, None) => true,
        (Some(x), Some(y)) => resize_strategy_eq(x, y),
        _ => false,
    }
}

/// Two keys compare equal field by field.
pub open spec fn keys_equal(a: BaseParamsKey, b: BaseParamsKey) -> bool {
    &&& a.target == b.target
    &&& feq(a.target_artifact_ratio, b.target_artifact_ratio)
    &&& a.enable_contrast_leveling == b.enable_contrast_leveling
    &&& sharpen_strategy_eq(a.sharpen_strategy, b.sharpen_strategy)
    &&& a.input_color_space == b.input_color_space
    &&& opt_resize_strategy_eq(a.resize_strategy, b.resize_strategy)
    &&& a.evaluation_color_space == b.evaluation_color_space
    &&& a.artifact_metric == b.artifact_metric
    &&& a.evaluator_config == b.evaluator_config
}

/// No `f32` field of the classification parameters is NaN.
pub open spec fn classification_nan_free(c: ClassificationKey) -> bool {
    !is_nan(c.thresholds.gradient_low) && !is_nan(c.thresholds.gradient_high) && !is_nan(
        c.thresholds.variance_low,
    ) && !is_nan(c.thresholds.variance_high)
}

/// No `f32` field of the key is NaN.
pub open spec fn key_nan_free(k: BaseParamsKey) -> bool {
    &&& !is_nan(k.target_artifact_ratio)
    &&& (k.sharpen_strategy matches SharpenStrategyKey::ContentAdaptive {
        classification,
        gain_table,
        backoff_scale_factor,
        ..
    } ==> classification_nan_free(classification) && !is_nan(gain_table.flat) && !is_nan(
        gain_table.textured,
    ) && !is_nan(gain_table.strong_edge) && !is_nan(gain_table.microtexture) && !is_nan(
        gain_table.risky_halo_zone,
    ) && !is_nan(backoff_scale_factor))
    &&& (k.resize_strategy matches Some(ResizeStrategyKey::ContentAdaptive { classification, .. })
        ==> classification_nan_free(classification))
}

fn same_classification(a: &ClassificationKey, b: &ClassificationKey) -> (r: bool)
    ensures
        r == classification_eq(*a, *b),
{
    bits_eq(a.thresholds.gradient_low, b.thresholds.gradient_low) && bits_eq(
        a.thresholds.gradient_high,
        b.thresholds.gradient_high,
    ) && bits_eq(a.thresholds.variance_low, b.thresholds.variance_low) && bits_eq(
        a.thresholds.variance_high,
        b.thresholds.variance_high,
    ) && a.variance_window == b.variance_window
}

fn same_gain_table(a: &GainTable, b: &GainTable) -> (r: bool)
    ensures
        r == gain_table_eq(*a, *b),
{
    bits_eq(a.flat, b.flat) && bits_eq(a.textured, b.textured) && bits_eq(
        a.strong_edge,
        b.strong_edge,
    ) && bits_eq(a.microtexture, b.microtexture) && bits_eq(a.risky_halo_zone, b.risky_halo_zone)
}

fn same_sharpen_strategy(a: &SharpenStrategyKey, b: &SharpenStrategyKey) -> (r: bool)
    ensures
        r == sharpen_strategy_eq(*a, *b),
{
    match (a, b) {
        (SharpenStrategyKey::Uniform, SharpenStrategyKey::Uniform) => true,
        (
            SharpenStrategyKey::ContentAdaptive {
                classification: ca,
                gain_table: ga,
                max_backoff_iterations: ma,
                backoff_scale_factor: fa,
            },
            SharpenStrategyKey::ContentAdaptive {
                classification: cb,
                gain_table: gb,
                max_backoff_iterations: mb,
                backoff_scale_factor: fb,
            },
        ) => same_classification(ca, cb) && same_gain_table(ga, gb) && *ma == *mb && bits_eq(*fa, *fb),
        _ => false,
    }
}

fn same_resize_strategy(a: &Option<ResizeStrategyKey>, b: &Option<ResizeStrategyKey>) -> (r: bool)
    ensures
        r == opt_resize_strategy_eq(*a, *b),
{
    match (a, b) {
        (None, None) => true,
        (Some(ResizeStrategyKey::Uniform { kernel: ka }), Some(ResizeStrategyKey::Uniform { kernel: kb })) => {
            *ka == *kb
        },
        (
            Some(ResizeStrategyKey::ContentAdaptive { classification: ca, kernel_table: ta }),
            Some(ResizeStrategyKey::ContentAdaptive { classification: cb, kernel_table: tb }),
        ) => same_classification(ca, cb) && *ta == *tb,
        _ => false,
    }
}

fn same_input_color_space(a: Option<InputColorSpace>, b: Option<InputColorSpace>) -> (r: bool)
    ensures
        r == (a == b),
{
    match (a, b) {
        (None, None) => true,
        (Some(x), Some(y)) => x == y,
        _ => false,
    }
}

fn same_evaluation_color_space(a: Option<EvaluationColorSpace>, b: Option<EvaluationColorSpace>) -> (r: bool)
    ensures
        r == (a == b),
{
    match (a, b) {
        (None, None) => true,
        (Some(x), Some(y)) => x == y,
        _ => false,
    }
}

fn same_evaluator_config(a: Option<EvaluatorConfig>, b: Option<EvaluatorConfig>) -> (r: bool)
    ensures
        r == (a == b),
{
    match (a, b) {
        (None, None) => true,
        (Some(x), Some(y)) => x == y,
        _ => false,
    }
}

impl BaseParamsKey {
    /// Whether a base prepared with key `self` can be reused for parameters
    /// whose key is `other`.
    pub fn matches(&self, other: &BaseParamsKey) -> (r: bool)
        ensures
            r == keys_equal(*self, *other),
    {
        self.target == other.target && bits_eq(self.target_artifact_ratio, other.target_artifact_ratio)
            && self.enable_contrast_leveling == other.enable_contrast_leveling && same_sharpen_strategy(
            &self.sharpen_strategy,
            &other.sharpen_strategy,
        ) && same_input_color_space(self.input_color_space, other.input_color_space) && same_resize_strategy(
            &self.resize_strategy,
            &other.resize_strategy,
        ) && same_evaluation_color_space(self.evaluation_color_space, other.evaluation_color_space)
            && self.artifact_metric == other.artifact_metric && same_evaluator_config(
            self.evaluator_config,
            other.evaluator_config,
        )
    }
}

/// Matching is symmetric: a base prepared for `a` serves `b` exactly when
/// a base prepared for `b` serves `a`.
pub proof fn lemma_keys_match_symmetric(a: BaseParamsKey, b: BaseParamsKey)
    ensures
        keys_equal(a, b) <==> keys_equal(b, a),
{
}

/// A base stays valid for the parameters it was prepared with: a key with
/// no NaN field matches itself.
pub proof fn lemma_key_matches_itself(k: BaseParamsKey)
    requires
        key_nan_free(k),
    ensures
        keys_equal(k, k),
{
}

/// Matching is transitive.
pub proof fn lemma_keys_match_transitive(a: BaseParamsKey, b: BaseParamsKey, c: BaseParamsKey)
    requires
        keys_equal(a, b),
        keys_equal(b, c),
    ensures
        keys_equal(a, c),
{
}

} // verus!
