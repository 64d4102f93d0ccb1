//! Planning of the downscale stage.
//!
//! The resampling itself runs on `f32` pixels; this module decides which
//! path it takes: no resize, a single Lanczos3 pass, or a staged shrink
//! (bilinear pre-reduce to about twice the target, then Lanczos3).
use vstd::prelude::*;

use crate::error::CoreError;
use crate::ingest::{
    compute_intermediate_size, intermediate_size, lemma_round_div_bounds, pre_factor, shrink_is_unbounded,
};
use crate::types::ImageSize;

verus! {

/// Shrink ratio (largest of both axes) from which the staged path is used.
pub const STAGED_SHRINK_THRESHOLD: u32 = 3;

/// Path taken by the downscale stage.
#[derive(Debug, Clone, Copy, PartialEq, Eq, Structural)]
pub enum DownscalePlan {
    /// Source already has the target size: the image is copied.
    Unchanged,
    /// One Lanczos3 pass to the target size.
    Direct,
    /// Bilinear pre-reduce to `intermediate`, then Lanczos3 to the target.
    Staged { intermediate: ImageSize },
}

/// `max(sw / tw, sh / th) >= 3` for a non-zero target.
pub open spec fn uses_staged_shrink(src: ImageSize, target: ImageSize) -> bool {
    src.width as int >= STAGED_SHRINK_THRESHOLD as int * target.width as int
        || src.height as int >= STAGED_SHRINK_THRESHOLD as int * target.height as int
}

/// The plan for a non-zero target.
pub open spec fn downscale_plan(src: ImageSize, target: ImageSize) -> DownscalePlan {
    if src == target {
        DownscalePlan::Unchanged
    } else if uses_staged_shrink(src, target) {
        DownscalePlan::Staged { intermediate: intermediate_size(src, target) }
    } else {
        DownscalePlan::Direct
    }
}

/// Decide how `src` is brought to `target`.
///
/// Fails with `InvalidParams` when a target dimension is zero.  The staged
/// path is reported so that diagnostics can say whether it was used.
pub fn plan_downscale(src: ImageSize, target: ImageSize) -> (r: Result<DownscalePlan, CoreError>)
    ensures
        r is Err <==> (target.width == 0 || target.height == 0),
        r matches Err(e) ==> e is InvalidParams,
        r matches Ok(p) ==> p == downscale_plan(src, target),
{
    if target.width == 0 || target.height == 0 {
        return Err(CoreError::InvalidParams("target dimensions must be non-zero".to_owned()));
    }
    if src.width == target.width && src.height == target.height {
        return Ok(DownscalePlan::Unchanged);
    }
    let staged = (src.width as u64) >= 3 * (target.width as u64)
        || (src.height as u64) >= 3 * (target.height as u64);
    if staged {
        Ok(DownscalePlan::Staged { intermediate: compute_intermediate_size(src, target) })
    } else {
        Ok(DownscalePlan::Direct)
    }
}

/// Whether a plan goes through the pre-reduce step.
pub fn is_staged(plan: &DownscalePlan) -> (b: bool)
    ensures
        b == (*plan is Staged),
{
    match plan {
        DownscalePlan::Staged { .. } => true,
        _ => false,
    }
}

/// The size with its axes exchanged.
pub open spec fn transposed(s: ImageSize) -> ImageSize {
    ImageSize { width: s.height, height: s.width }
}

/// The plan for the transposed image: the same path, with a transposed
/// intermediate size.
pub open spec fn transposed_plan(p: DownscalePlan) -> DownscalePlan {
    match p {
        DownscalePlan::Staged { intermediate } => DownscalePlan::Staged { intermediate: transposed(intermediate) },
        other => other,
    }
}

/// The path depends on the shrink of the image, not on its orientation:
/// exchanging width and height of both source and target gives the same
/// path (and a transposed intermediate size).  The source is left unchanged
/// exactly when it already has the target size, and otherwise the staged
/// path is taken exactly when some axis shrinks by a factor of three or
/// more; a staged intermediate never lies below the target.
pub proof fn lemma_plan_ignores_orientation(src: ImageSize, target: ImageSize)
    requires
        target.width > 0,
        target.height > 0,
    ensures
        downscale_plan(transposed(src), transposed(target)) == transposed_plan(downscale_plan(src, target)),
        downscale_plan(src, target) is Unchanged <==> src == target,
        src != target ==> (downscale_plan(src, target) is Staged <==> (src.width >= 3 * target.width
            || src.height >= 3 * target.height)),
        downscale_plan(src, target) matches DownscalePlan::Staged { intermediate } ==> intermediate.width
            >= target.width && intermediate.height >= target.height,
{
    let t = transposed(src);
    let u = transposed(target);
    assert(pre_factor(t, u) == pre_factor(src, target));
    assert(shrink_is_unbounded(t, u) == shrink_is_unbounded(src, target));
    if !shrink_is_unbounded(src, target) {
        let p = pre_factor(src, target);
        lemma_round_div_bounds(src.width as int, p);
        lemma_round_div_bounds(src.height as int, p);
    }
}

} // verus!
