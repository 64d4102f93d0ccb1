//! Input color-space ingress decisions.
//!
//! sRGB input passes through; `LinearRgb` input is only checked for
//! out-of-range values; `RawLinear` input is normalized by its largest
//! component when that exceeds 1.  The scaling itself is done in floating
//! point by the caller.
use vstd::prelude::*;

use crate::error::CoreError;
use crate::float_bits::{bits_gt, gt, ONE_BITS};
use crate::metrics::{count_out_of_range, min_max, min_max_scan, out_of_range_prefix};
use crate::types::InputColorSpace;

verus! {

/// Range of `RawLinear` input and whether it must be normalized.
#[derive(Debug, Clone, Copy, PartialEq, Eq, Structural)]
pub struct RawLinearExtent {
    /// Smallest component (`f32` bit pattern).
    pub min: u32,
    /// Largest component (`f32` bit pattern).
    pub max: u32,
    /// `max > 1.0`: every component is divided by `max`.
    pub needs_normalization: bool,
}

/// Scan `RawLinear` input; fails with `EmptyImage` when there is no component.
pub fn raw_linear_extent(values: &[u32]) -> (r: Result<RawLinearExtent, CoreError>)
    ensures
        r is Err <==> values@.len() == 0,
        r matches Err(e) ==> e is EmptyImage,
        r matches Ok(x) ==> (x.min, x.max) == min_max_scan(values@) && x.needs_normalization
            == gt(x.max, ONE_BITS),
{
    if values.len() == 0 {
        return Err(CoreError::EmptyImage);
    }
    let (lo, hi) = min_max(values);
    Ok(RawLinearExtent { min: lo, max: hi, needs_normalization: bits_gt(hi, ONE_BITS) })
}


/// What ingress does with the input, by declared color space.
#[derive(Debug, Clone, Copy, PartialEq, Eq, Structural)]
pub enum IngressPlan {
    /// sRGB input was linearized on load: used as it is.
    PassThrough,
    /// Linear input used as it is; `out_of_range` of the `total` components
    /// lie outside `[0, 1]`.
    RangeChecked { out_of_range: usize, total: usize },
    /// Raw linear input: its extent, and whether it is divided by its maximum.
    Normalized { extent: RawLinearExtent },
}

/// Decide how input declared as `space` enters the pipeline.
///
/// Only raw linear input can fail: `EmptyImage` when it has no component.
pub fn plan_ingress(space: InputColorSpace, values: &[u32]) -> (r: Result<IngressPlan, CoreError>)
    ensures
        space == InputColorSpace::Srgb ==> r == Ok::<IngressPlan, CoreError>(IngressPlan::PassThrough),
        space == InputColorSpace::LinearRgb ==> r == Ok::<IngressPlan, CoreError>(
            IngressPlan::RangeChecked {
                out_of_range: out_of_range_prefix(values@, values@.len() as int) as usize,
                total: values@.len() as usize,
            },
        ),
        space == InputColorSpace::RawLinear ==> (r is Err <==> values@.len() == 0),
        space == InputColorSpace::RawLinear ==> (r matches Err(e) ==> e is EmptyImage),
        space == InputColorSpace::RawLinear ==> (r matches Ok(p) ==> (p matches IngressPlan::Normalized {
            extent,
        } && (extent.min, extent.max) == min_max_scan(values@) && extent.needs_normalization == gt(
            extent.max,
            ONE_BITS,
        ))),
{
    match space {
        InputColorSpace::Srgb => Ok(IngressPlan::PassThrough),
        InputColorSpace::LinearRgb => {
            let n = count_out_of_range(values);
            Ok(IngressPlan::RangeChecked { out_of_range: n, total: values.len() })
        },
        InputColorSpace::RawLinear => {
            match raw_linear_extent(values) {
                Ok(extent) => Ok(IngressPlan::Normalized { extent }),
                Err(e) => Err(e),
            }
        },
    }
}

} // verus!
