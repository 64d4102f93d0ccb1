//! Validation of processing parameters.
//!
//! The parameter records of the pipeline hold `f32` values; their checks
//! only compare, so the values are carried here as `f32` bit patterns.
use vstd::prelude::*;

use crate::error::CoreError;
use crate::float_bits::{
    bits_gt, bits_le, bits_lt, ge, gt, is_nan, le, lt, order_key, ONE_BITS, ZERO_BITS,
};

verus! {

/// Bit pattern of `0.25_f32`, the smallest allowed region gain.
pub const MIN_GAIN_BITS: u32 = 0x3e80_0000;

/// Bit pattern of `4.0_f32`, the largest allowed region gain.
pub const MAX_GAIN_BITS: u32 = 0x4080_0000;

/// How probe strengths are chosen, with `f32` values as bit patterns.
#[derive(Debug, Clone)]
pub enum ProbeSettings {
    /// `count` values linearly spaced over `[min, max]`.
    Range { min: u32, max: u32, count: usize },
    /// An explicit list of strengths.
    Explicit { values: Vec<u32> },
    /// Coarse scan, then dense probing around the budget crossing.
    TwoPass {
        coarse_count: usize,
        coarse_min: u32,
        coarse_max: u32,
        dense_count: usize,
        window_margin: u32,
    },
}

/// The parameters that `validate` checks, with `f32` values as bit patterns.
#[derive(Debug, Clone)]
pub struct ParamSettings {
    pub target_width: u32,
    pub target_height: u32,
    pub target_artifact_ratio: u32,
    pub sharpen_sigma: u32,
    /// Backoff factor of the content-adaptive strategy; `None` when uniform.
    pub backoff_scale_factor: Option<u32>,
    pub probes: ProbeSettings,
}

/// `Err(InvalidParams(msg))` with message `msg`.
pub open spec fn invalid_with<T>(r: Result<T, CoreError>, msg: Seq<char>) -> bool {
    r matches Err(CoreError::InvalidParams(m)) && m@ == msg
}

/// Every strength is strictly positive (so none is NaN).
pub open spec fn all_positive(values: Seq<u32>) -> bool {
    forall|i: int| 0 <= i < values.len() ==> gt(#[trigger] values[i], ZERO_BITS)
}

/// No two strengths are equal.  Among positive values two bit patterns are
/// equal as numbers exactly when they are the same pattern.
pub open spec fn all_distinct(values: Seq<u32>) -> bool {
    forall|i: int, j: int| 0 <= i < j < values.len() ==> values[i] != values[j]
}

/// Message of the first failed check of a static probe configuration, or
/// `None` when it passes.  `TwoPass` has no static list.
pub open spec fn static_probe_error(p: ProbeSettings) -> Option<Seq<char>> {
    match p {
        ProbeSettings::Range { min, max, count } => if count < 4 {
            Some("probe range must have at least 4 samples"@)
        } else if ge(min, max) {
            Some("probe range min must be less than max"@)
        } else if le(min, ZERO_BITS) {
            Some("probe range min must be positive"@)
        } else {
            None
        },
        ProbeSettings::Explicit { values } => if values@.len() < 4 {
            Some("explicit probe list must have at least 4 values"@)
        } else if !all_positive(values@) {
            Some("explicit probe values must be positive"@)
        } else if !all_distinct(values@) {
            Some("explicit probe values must be distinct"@)
        } else {
            None
        },
        ProbeSettings::TwoPass { .. } => Some(
            "TwoPass probe config is handled by the pipeline; use AutoSharpParams directly"@,
        ),
    }
}

/// Whether every strength is strictly positive.
pub fn strengths_positive(values: &Vec<u32>) -> (r: bool)
    ensures
        r == all_positive(values@),
{
    let mut i: usize = 0;
    while i < values.len()
        invariant
            0 <= i <= values@.len(),
            forall|k: int| 0 <= k < i ==> gt(#[trigger] values@[k], ZERO_BITS),
        decreases values@.len() - i,
    {
        if !bits_gt(values[i], ZERO_BITS) {
            return false;
        }
        i = i + 1;
    }
    true
}

/// Whether no two strengths are equal.
pub fn strengths_distinct(values: &Vec<u32>) -> (r: bool)
    ensures
        r == all_distinct(values@),
{
    let n = values.len();
    let mut j: usize = 1;
    while j < n
        invariant
            n == values@.len(),
            1 <= j <= n || n == 0,
            forall|a: int, b: int| 0 <= a < b < j && b < n ==> values@[a] != values@[b],
        decreases n - j,
    {
        let mut i: usize = 0;
        while i < j
            invariant
                n == values@.len(),
                1 <= j < n,
                0 <= i <= j,
                forall|a: int| 0 <= a < i ==> values@[a] != values@[j as int],
            decreases j - i,
        {
            if values[i] == values[j] {
                return false;
            }
            i = i + 1;
        }
        j = j + 1;
    }
    true
}

/// Checks made before a static probe configuration is expanded into its
/// sorted list of strengths.
pub fn check_static_probes(p: &ProbeSettings) -> (r: Result<(), CoreError>)
    ensures
        static_probe_error(*p) is None ==> r is Ok,
        static_probe_error(*p) matches Some(msg) ==> invalid_with(r, msg),
{
    match p {
        ProbeSettings::Range { min, max, count } => {
            if *count < 4 {
                return Err(CoreError::InvalidParams("probe range must have at least 4 samples".to_owned()));
            }
            if bits_le(*max, *min) {
                return Err(CoreError::InvalidParams("probe range min must be less than max".to_owned()));
            }
            if bits_le(*min, ZERO_BITS) {
                return Err(CoreError::InvalidParams("probe range min must be positive".to_owned()));
            }
            Ok(())
        },
        ProbeSettings::Explicit { values } => {
            if values.len() < 4 {
                return Err(
                    CoreError::InvalidParams("explicit probe list must have at least 4 values".to_owned()),
                );
            }
            if !strengths_positive(values) {
                return Err(CoreError::InvalidParams("explicit probe values must be positive".to_owned()));
            }
            if !strengths_distinct(values) {
                return Err(CoreError::InvalidParams("explicit probe values must be distinct".to_owned()));
            }
            Ok(())
        },
        ProbeSettings::TwoPass { .. } => Err(
            CoreError::InvalidParams(
                "TwoPass probe config is handled by the pipeline; use AutoSharpParams directly".to_owned(),
            ),
        ),
    }
}

/// The strengths in ascending order: a permutation of `values` in which
/// each value is `<=` the next.
/// Sorting compares every pair it meets, so no strength may be NaN.
pub fn sort_strengths(values: &[u32]) -> (out: Vec<u32>)
    requires
        forall|i: int| 0 <= i < values@.len() ==> !is_nan(#[trigger] values@[i]),
    ensures
        out@.to_multiset() == values@.to_multiset(),
        forall|i: int, j: int| 0 <= i < j < out@.len() ==> le(out@[i], out@[j]),
{
    let mut out: Vec<u32> = Vec::new();
    let mut k: usize = 0;
    assert(values@.take(0) =~= out@);
    while k < values.len()
        invariant
            0 <= k <= values@.len(),
            forall|i: int| 0 <= i < values@.len() ==> !is_nan(#[trigger] values@[i]),
            out@.to_multiset() == values@.take(k as int).to_multiset(),
            forall|a: int| 0 <= a < out@.len() ==> !is_nan(#[trigger] out@[a]),
            forall|a: int, b: int| 0 <= a < b < out@.len() ==> order_key(out@[a]) <= order_key(out@[b]),
        decreases values@.len() - k,
    {
        let x = values[k];
        // Insert after every element that is not greater than `x`.
        let mut p: usize = 0;
        while p < out.len()
            invariant
                p <= out@.len(),
                !is_nan(x),
                forall|a: int| 0 <= a < out@.len() ==> !is_nan(#[trigger] out@[a]),
                forall|a: int| 0 <= a < p ==> order_key(#[trigger] out@[a]) <= order_key(x),
            ensures
                p <= out@.len(),
                forall|a: int| 0 <= a < p ==> order_key(#[trigger] out@[a]) <= order_key(x),
                p < out@.len() ==> order_key(x) < order_key(out@[p as int]),
            decreases out@.len() - p,
        {
            if bits_gt(out[p], x) {
                break;
            }
            p = p + 1;
        }
        let ghost before = out@;
        out.insert(p, x);
        proof {
            vstd::seq_lib::to_multiset_insert(before, p as int, x);
            assert(values@.take(k + 1) =~= values@.take(k as int).push(x));
            vstd::seq_lib::to_multiset_build(values@.take(k as int), x);
            assert forall|a: int, b: int| 0 <= a < b < out@.len() implies order_key(out@[a])
                <= order_key(out@[b]) by {
                if b < p {
                } else if b == p {
                } else if a < p {
                    assert(order_key(before[a]) <= order_key(x));
                    assert(order_key(x) < order_key(before[p as int]));
                    assert(order_key(before[p as int]) <= order_key(before[b - 1]) || p == b - 1);
                } else if a == p {
                    assert(order_key(before[p as int]) <= order_key(before[b - 1]) || p == b - 1);
                } else {
                    assert(order_key(before[a - 1]) <= order_key(before[b - 1]));
                }
            }
        }
        k = k + 1;
    }
    assert(values@.take(values@.len() as int) =~= values@);
    out
}

/// Message of the first failed check among those made before the probe
/// configuration is looked at, or `None`.
pub open spec fn early_params_error(s: ParamSettings) -> Option<Seq<char>> {
    if s.target_width == 0 || s.target_height == 0 {
        Some("target dimensions must be non-zero"@)
    } else if lt(s.target_artifact_ratio, ZERO_BITS) || gt(s.target_artifact_ratio, ONE_BITS) {
        Some("target_artifact_ratio must be in [0, 1]"@)
    } else if le(s.sharpen_sigma, ZERO_BITS) {
        Some("sharpen_sigma must be positive"@)
    } else if s.backoff_scale_factor matches Some(f) && (le(f, ZERO_BITS) || ge(f, ONE_BITS)) {
        Some("backoff_scale_factor must be in (0.0, 1.0)"@)
    } else {
        None
    }
}

/// Message of the first failed parameter check, or `None`.
pub open spec fn params_error(s: ParamSettings) -> Option<Seq<char>> {
    if early_params_error(s) is Some {
        early_params_error(s)
    } else {
        match s.probes {
            ProbeSettings::TwoPass {
                coarse_count,
                coarse_min,
                coarse_max,
                dense_count,
                window_margin,
            } => if coarse_count < 3 {
                Some("TwoPass coarse_count must be >= 3"@)
            } else if dense_count < 2 {
                Some("TwoPass dense_count must be >= 2"@)
            } else if le(coarse_min, ZERO_BITS) {
                Some("TwoPass coarse_min must be positive"@)
            } else if ge(coarse_min, coarse_max) {
                Some("TwoPass coarse_min must be less than coarse_max"@)
            } else if lt(window_margin, ZERO_BITS) {
                Some("TwoPass window_margin must be >= 0"@)
            } else {
                None
            },
            _ => static_probe_error(s.probes),
        }
    }
}

/// The probe configuration on its own is acceptable.
pub open spec fn probes_acceptable(p: ProbeSettings) -> bool {
    match p {
        ProbeSettings::TwoPass { coarse_count, coarse_min, coarse_max, dense_count, window_margin } => {
            &&& coarse_count >= 3
            &&& dense_count >= 2
            &&& !le(coarse_min, ZERO_BITS)
            &&& !ge(coarse_min, coarse_max)
            &&& !lt(window_margin, ZERO_BITS)
        },
        ProbeSettings::Range { min, max, count } => count >= 4 && !ge(min, max) && !le(min, ZERO_BITS),
        ProbeSettings::Explicit { values } => values@.len() >= 4 && all_positive(values@) && all_distinct(
            values@,
        ),
    }
}

/// Parameters pass validation exactly when every constraint holds: non-zero
/// target, budget not outside `[0, 1]`, sigma not at or below 0, a backoff
/// factor (when present) not outside `(0, 1)`, and an acceptable two-pass
/// or static probe configuration.  The bounds are phrased as the checks
/// phrase them, so a NaN passes a "not outside" bound.
pub proof fn lemma_params_valid_iff_constraints_hold(s: ParamSettings)
    ensures
        params_error(s) is None <==> {
            &&& s.target_width > 0 && s.target_height > 0
            &&& !lt(s.target_artifact_ratio, ZERO_BITS) && !gt(s.target_artifact_ratio, ONE_BITS)
            &&& !le(s.sharpen_sigma, ZERO_BITS)
            &&& (s.backoff_scale_factor is None || (!le(s.backoff_scale_factor.unwrap(), ZERO_BITS) && !ge(
                s.backoff_scale_factor.unwrap(),
                ONE_BITS,
            )))
            &&& probes_acceptable(s.probes)
        },
{
}

/// Check that parameters are internally consistent (called at pipeline
/// entry).  Fails with the message of the first failed check.  For a static
/// probe configuration these are the checks made before its strengths are
/// expanded and sorted; the expansion itself is done in floating point by
/// the caller.
pub fn validate_params(s: &ParamSettings) -> (r: Result<(), CoreError>)
    ensures
        params_error(*s) is None ==> r is Ok,
        params_error(*s) matches Some(msg) ==> invalid_with(r, msg),
{
    if s.target_width == 0 || s.target_height == 0 {
        return Err(CoreError::InvalidParams("target dimensions must be non-zero".to_owned()));
    }
    if bits_lt(s.target_artifact_ratio, ZERO_BITS) || bits_gt(s.target_artifact_ratio, ONE_BITS) {
        return Err(CoreError::InvalidParams("target_artifact_ratio must be in [0, 1]".to_owned()));
    }
    if bits_le(s.sharpen_sigma, ZERO_BITS) {
        return Err(CoreError::InvalidParams("sharpen_sigma must be positive".to_owned()));
    }
    if let Some(f) = s.backoff_scale_factor {
        if bits_le(f, ZERO_BITS) || bits_le(ONE_BITS, f) {
            return Err(CoreError::InvalidParams("backoff_scale_factor must be in (0.0, 1.0)".to_owned()));
        }
    }
    match &s.probes {
        ProbeSettings::TwoPass { coarse_count, coarse_min, coarse_max, dense_count, window_margin } => {
            if *coarse_count < 3 {
                return Err(CoreError::InvalidParams("TwoPass coarse_count must be >= 3".to_owned()));
            }
            if *dense_count < 2 {
                return Err(CoreError::InvalidParams("TwoPass dense_count must be >= 2".to_owned()));
            }
            if bits_le(*coarse_min, ZERO_BITS) {
                return Err(CoreError::InvalidParams("TwoPass coarse_min must be positive".to_owned()));
            }
            if bits_le(*coarse_max, *coarse_min) {
                return Err(
                    CoreError::InvalidParams("TwoPass coarse_min must be less than coarse_max".to_owned()),
                );
            }
            if bits_lt(*window_margin, ZERO_BITS) {
                return Err(CoreError::InvalidParams("TwoPass window_margin must be >= 0".to_owned()));
            }
            Ok(())
        },
        _ => check_static_probes(&s.probes),
    }
}

/// A gain lies in `[0.25, 4.0]`.
pub open spec fn gain_in_range(v: u32) -> bool {
    le(MIN_GAIN_BITS, v) && le(v, MAX_GAIN_BITS)
}

/// Index of the first gain outside `[0.25, 4.0]` (order: flat, textured,
/// strong edge, microtexture, risky halo zone), or `None` when all are valid.
pub fn first_invalid_gain(gains: &[u32; 5]) -> (r: Option<usize>)
    ensures
        r is None <==> forall|i: int| 0 <= i < 5 ==> gain_in_range(#[trigger] gains@[i]),
        r matches Some(i) ==> i < 5 && !gain_in_range(gains@[i as int]) && forall|j: int|
            0 <= j < i ==> gain_in_range(#[trigger] gains@[j]),
{
    let mut i: usize = 0;
    while i < 5
        invariant
            0 <= i <= 5,
            gains@.len() == 5,
            forall|j: int| 0 <= j < i ==> gain_in_range(#[trigger] gains@[j]),
        decreases 5 - i,
    {
        let v = gains[i];
        if !(bits_le(MIN_GAIN_BITS, v) && bits_le(v, MAX_GAIN_BITS)) {
            return Some(i);
        }
        i = i + 1;
    }
    None
}

/// Message of the first failed classifier-parameter check, or `None`.
pub open spec fn classification_error(
    gradient_low: u32,
    gradient_high: u32,
    variance_low: u32,
    variance_high: u32,
    variance_window: usize,
) -> Option<Seq<char>> {
    if gt(gradient_low, gradient_high) {
        Some("gradient_low_threshold must be <= gradient_high_threshold"@)
    } else if gt(variance_low, variance_high) {
        Some("variance_low_threshold must be <= variance_high_threshold"@)
    } else if variance_window < 3 {
        Some("variance_window must be >= 3"@)
    } else if variance_window % 2 == 0 {
        Some("variance_window must be odd"@)
    } else {
        None
    }
}

/// Classifier parameters are accepted exactly when neither low threshold
/// lies above its high threshold and the variance window is odd and at
/// least 3.
pub proof fn lemma_classification_valid_iff(
    gradient_low: u32,
    gradient_high: u32,
    variance_low: u32,
    variance_high: u32,
    variance_window: usize,
)
    ensures
        classification_error(gradient_low, gradient_high, variance_low, variance_high, variance_window)
            is None <==> (!gt(gradient_low, gradient_high) && !gt(variance_low, variance_high)
            && variance_window >= 3 && variance_window % 2 == 1),
{
}

/// Check classifier thresholds (bit patterns) and the variance window size.
pub fn check_classification(
    gradient_low: u32,
    gradient_high: u32,
    variance_low: u32,
    variance_high: u32,
    variance_window: usize,
) -> (r: Result<(), CoreError>)
    ensures
        classification_error(gradient_low, gradient_high, variance_low, variance_high, variance_window)
            is None ==> r is Ok,
        classification_error(gradient_low, gradient_high, variance_low, variance_high, variance_window)
            matches Some(msg) ==> invalid_with(r, msg),
{
    if bits_gt(gradient_low, gradient_high) {
        return Err(
            CoreError::InvalidParams("gradient_low_threshold must be <= gradient_high_threshold".to_owned()),
        );
    }
    if bits_gt(variance_low, variance_high) {
        return Err(
            CoreError::InvalidParams("variance_low_threshold must be <= variance_high_threshold".to_owned()),
        );
    }
    if variance_window < 3 {
        return Err(CoreError::InvalidParams("variance_window must be >= 3".to_owned()));
    }
    if variance_window % 2 == 0 {
        return Err(CoreError::InvalidParams("variance_window must be odd".to_owned()));
    }
    Ok(())
}

/// Check the buffer length of an interleaved image of `channels` components
/// per pixel: `EmptyImage` for a zero dimension, `BufferLengthMismatch` when
/// `len != width * height * channels`.
pub fn check_image_buffer(width: u32, height: u32, channels: usize, len: usize) -> (r: Result<(), CoreError>)
    requires
        (width as int) * (height as int) * (channels as int) <= usize::MAX,
    ensures
        (width == 0 || height == 0) ==> (r matches Err(e) && e is EmptyImage),
        (width != 0 && height != 0) ==> (r is Ok <==> len as int == (width as int) * (height as int)
            * (channels as int)),
        (width != 0 && height != 0 && len as int != (width as int) * (height as int) * (channels as int))
            ==> (r matches Err(e) && e == (CoreError::BufferLengthMismatch {
            expected_len: ((width as int) * (height as int) * (channels as int)) as usize,
            got_len: len,
        })),
{
    if width == 0 || height == 0 {
        return Err(CoreError::EmptyImage);
    }
    assert((width as int) * (height as int) <= (width as int) * (height as int) * (channels as int)
        || channels == 0) by (nonlinear_arith)
        requires
            width >= 1,
            height >= 1,
    ;
    let expected = if channels == 0 {
        0
    } else {
        (width as usize) * (height as usize) * channels
    };
    assert(channels == 0 ==> (width as int) * (height as int) * (channels as int) == 0) by (nonlinear_arith);
    if len != expected {
        return Err(CoreError::BufferLengthMismatch { expected_len: expected, got_len: len });
    }
    Ok(())
}


/// Check the length of a per-pixel plane (one value per pixel, as in a gain
/// map): `BufferLengthMismatch` when `len != width * height`.  A zero
/// dimension is allowed and expects an empty plane.
pub fn check_plane_len(width: u32, height: u32, len: usize) -> (r: Result<(), CoreError>)
    requires
        (width as int) * (height as int) <= usize::MAX,
    ensures
        r is Ok <==> len as int == (width as int) * (height as int),
        r matches Err(e) ==> e == (CoreError::BufferLengthMismatch {
            expected_len: ((width as int) * (height as int)) as usize,
            got_len: len,
        }),
{
    let expected = (width as usize) * (height as usize);
    if len != expected {
        return Err(CoreError::BufferLengthMismatch { expected_len: expected, got_len: len });
    }
    Ok(())
}

} // verus!
