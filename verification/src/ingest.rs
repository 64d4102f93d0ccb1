//! Size of the intermediate image of a staged (two-step) downscale.
//!
//! A large shrink is done in two steps: a cheap pre-reduce by an integer
//! factor to about twice the target, then the high-quality pass.  Striped
//! ingest of very large images lands on the same intermediate size.
use vstd::prelude::*;

use crate::types::ImageSize;

verus! {

/// `round(n / d)` with halves rounded up, for `n >= 0`, `d > 0`.
pub open spec fn round_div(n: int, d: int) -> int {
    (2 * n + d) / (2 * d)
}

/// `floor(s / t / 2)`: half of the shrink ratio along one axis, rounded down.
/// An axis with `t == 0` and `s == 0` has no ratio and contributes 0.
pub open spec fn half_shrink(s: u32, t: u32) -> int {
    if t == 0 {
        0
    } else {
        (s as int) / (2 * (t as int))
    }
}

/// Some axis shrinks an existing extent to nothing: the shrink ratio is
/// infinite and the pre-reduce divides the source away completely.
pub open spec fn shrink_is_unbounded(src: ImageSize, target: ImageSize) -> bool {
    (target.width == 0 && src.width > 0) || (target.height == 0 && src.height > 0)
}

/// Integer pre-reduce factor: `max(1, floor(max_shrink / 2))`.
pub open spec fn pre_factor(src: ImageSize, target: ImageSize) -> int {
    let f = if half_shrink(src.width, target.width) >= half_shrink(src.height, target.height) {
        half_shrink(src.width, target.width)
    } else {
        half_shrink(src.height, target.height)
    };
    if f >= 1 {
        f
    } else {
        1
    }
}

/// `max(a, b)` on integers.
pub open spec fn max_int(a: int, b: int) -> int {
    if a >= b {
        a
    } else {
        b
    }
}

/// The intermediate size: each source extent divided by the pre-reduce
/// factor (rounded to nearest), but never below the target extent.
pub open spec fn intermediate_size(src: ImageSize, target: ImageSize) -> ImageSize {
    if shrink_is_unbounded(src, target) {
        target
    } else {
        let p = pre_factor(src, target);
        ImageSize {
            width: max_int(round_div(src.width as int, p), target.width as int) as u32,
            height: max_int(round_div(src.height as int, p), target.height as int) as u32,
        }
    }
}

/// Rounding a non-negative extent divided by a positive factor gives a
/// value between zero and the extent.
pub proof fn lemma_round_div_bounds(n: int, d: int)
    requires
        n >= 0,
        d >= 1,
    ensures
        0 <= round_div(n, d) <= n,
{
    assert(0 <= (2 * n + d) / (2 * d)) by (nonlinear_arith)
        requires
            n >= 0,
            d >= 1,
    ;
    assert((2 * n + d) / (2 * d) <= n) by (nonlinear_arith)
        requires
            n >= 0,
            d >= 1,
    ;
}

/// `round(extent / factor)` in integer arithmetic.
fn divide_extent(extent: u32, factor: u64) -> (r: u32)
    requires
        factor >= 1,
    ensures
        r as int == round_div(extent as int, factor as int),
{
    proof {
        lemma_round_div_bounds(extent as int, factor as int);
    }
    let n = extent as u64;
    if factor > (extent as u64) * 2 {
        // n / factor < 1/2: rounds to zero.
        assert((2 * (n as int) + (factor as int)) / (2 * (factor as int)) == 0) by (nonlinear_arith)
            requires
                factor as int > 2 * (n as int),
                n >= 0,
        ;
        0
    } else {
        let q = (2 * n + factor) / (2 * factor);
        q as u32
    }
}

/// Half of the shrink ratio along one axis, rounded down.
fn half_shrink_exec(s: u32, t: u32) -> (r: u64)
    ensures
        r as int == half_shrink(s, t),
        r <= u32::MAX,
{
    if t == 0 {
        0
    } else {
        let d: u64 = 2 * (t as u64);
        let r = (s as u64) / d;
        assert(r <= s as u64) by (nonlinear_arith)
            requires
                r as int == (s as int) / (d as int),
                d >= 2,
                s >= 0,
        ;
        r
    }
}

/// Intermediate (pre-reduce) size for a staged downscale: about twice the
/// target, and never smaller than the target in either dimension.
///
/// `pre_factor = max(1, floor(max(sw / tw, sh / th) / 2))`, then each source
/// extent is divided by `pre_factor`, rounded to nearest.
pub fn compute_intermediate_size(src: ImageSize, target: ImageSize) -> (r: ImageSize)
    ensures
        r == intermediate_size(src, target),
        r.width >= target.width,
        r.height >= target.height,
{
    if (target.width == 0 && src.width > 0) || (target.height == 0 && src.height > 0) {
        return target;
    }
    let fx = half_shrink_exec(src.width, target.width);
    let fy = half_shrink_exec(src.height, target.height);
    let f = if fx >= fy { fx } else { fy };
    let p = if f >= 1 { f } else { 1 };
    assert(p as int == pre_factor(src, target));
    let w = divide_extent(src.width, p);
    let h = divide_extent(src.height, p);
    ImageSize {
        width: if w >= target.width { w } else { target.width },
        height: if h >= target.height { h } else { target.height },
    }
}

/// For a bounded shrink the intermediate image lies between the target and
/// the source on each axis: the pre-reduce never enlarges the source and
/// never goes below the target.
pub proof fn lemma_intermediate_between_target_and_source(src: ImageSize, target: ImageSize)
    requires
        target.width <= src.width,
        target.height <= src.height,
        !shrink_is_unbounded(src, target),
    ensures
        target.width <= intermediate_size(src, target).width <= src.width,
        target.height <= intermediate_size(src, target).height <= src.height,
{
    let p = pre_factor(src, target);
    lemma_round_div_bounds(src.width as int, p);
    lemma_round_div_bounds(src.height as int, p);
}

} // verus!
