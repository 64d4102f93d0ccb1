//! Counting and clamping of `f32` components given as bit patterns.
//!
//! The gamut-excursion metrics are ratios of counts; the counts are taken
//! here, the division happens in floating point.
use vstd::prelude::*;

use crate::float_bits::{
    abs, bits_abs, bits_gt, bits_le, bits_lt, gt, is_nan, le, lt, order_key, NEG_INFINITY_BITS, ONE_BITS,
    POS_INFINITY_BITS, ZERO_BITS,
};

verus! {

/// Bit pattern of `1e-5_f32`, below which a diff sample counts as zero.
pub const NOISE_FLOOR_BITS: u32 = 0x3727_c5ac;

/// Minimum number of sign changes for a profile to show ringing.
pub const RINGING_THRESHOLD: usize = 2;

/// `0.0 <= v && v <= 1.0`, i.e. `(0.0..=1.0).contains(&v)`.
pub open spec fn in_unit_range(v: u32) -> bool {
    le(ZERO_BITS, v) && le(v, ONE_BITS)
}

/// Number of components among the first `m` that lie outside `[0, 1]`
/// (NaN included).
pub open spec fn out_of_range_prefix(s: Seq<u32>, m: int) -> nat
    decreases m,
{
    if m <= 0 {
        0
    } else {
        out_of_range_prefix(s, m - 1) + if in_unit_range(s[m - 1]) {
            0nat
        } else {
            1nat
        }
    }
}

/// Pixel `p` (components `3p .. 3p+3`) has a component outside `[0, 1]`.
pub open spec fn pixel_out_of_gamut(s: Seq<u32>, p: int) -> bool {
    !in_unit_range(s[3 * p]) || !in_unit_range(s[3 * p + 1]) || !in_unit_range(s[3 * p + 2])
}

/// Number of the first `n` pixels that are out of gamut.
pub open spec fn out_of_gamut_pixels(s: Seq<u32>, n: int) -> nat
    decreases n,
{
    if n <= 0 {
        0
    } else {
        out_of_gamut_pixels(s, n - 1) + if pixel_out_of_gamut(s, n - 1) {
            1nat
        } else {
            0nat
        }
    }
}

/// Number of components outside `[0, 1]`; numerator of the channel clipping ratio.
pub fn count_out_of_range(values: &[u32]) -> (n: usize)
    ensures
        n == out_of_range_prefix(values@, values@.len() as int),
        n <= values@.len(),
{
    let mut n: usize = 0;
    let mut i: usize = 0;
    while i < values.len()
        invariant
            0 <= i <= values@.len(),
            n == out_of_range_prefix(values@, i as int),
            n <= i,
        decreases values@.len() - i,
    {
        let v = values[i];
        if !(bits_le(ZERO_BITS, v) && bits_le(v, ONE_BITS)) {
            n = n + 1;
        }
        i = i + 1;
    }
    n
}

/// Number of pixels (component triples) with any component outside
/// `[0, 1]`; numerator of the pixel out-of-gamut ratio.  A trailing partial
/// triple is ignored.
pub fn count_out_of_gamut_pixels(values: &[u32]) -> (n: usize)
    ensures
        n == out_of_gamut_pixels(values@, (values@.len() / 3) as int),
        n <= values@.len() / 3,
{
    let len = values.len();
    let pixels = len / 3;
    let mut n: usize = 0;
    let mut p: usize = 0;
    while p < pixels
        invariant
            len == values@.len(),
            pixels == len / 3,
            0 <= p <= pixels,
            n == out_of_gamut_pixels(values@, p as int),
            n <= p,
        decreases pixels - p,
    {
        assert(3 * p + 2 < len) by (nonlinear_arith)
            requires
                p < pixels,
                pixels == len / 3,
        ;
        let r = values[3 * p];
        let g = values[3 * p + 1];
        let b = values[3 * p + 2];
        let bad = !(bits_le(ZERO_BITS, r) && bits_le(r, ONE_BITS)) || !(bits_le(ZERO_BITS, g)
            && bits_le(g, ONE_BITS)) || !(bits_le(ZERO_BITS, b) && bits_le(b, ONE_BITS));
        if bad {
            n = n + 1;
        }
        p = p + 1;
    }
    n
}

/// An out-of-gamut pixel has at least one and at most three out-of-range
/// components, so for whole pixels the pixel count lies between a third of
/// the component count and the component count.
pub proof fn lemma_pixel_count_within_channel_count(s: Seq<u32>, n: int)
    requires
        0 <= n,
        3 * n <= s.len(),
    ensures
        out_of_gamut_pixels(s, n) <= out_of_range_prefix(s, 3 * n),
        out_of_range_prefix(s, 3 * n) <= 3 * out_of_gamut_pixels(s, n),
    decreases n,
{
    if n > 0 {
        lemma_pixel_count_within_channel_count(s, n - 1);
        assert(out_of_range_prefix(s, 3 * n) == out_of_range_prefix(s, 3 * (n - 1)) + (if in_unit_range(
            s[3 * n - 3],
        ) {
            0nat
        } else {
            1nat
        }) + (if in_unit_range(s[3 * n - 2]) {
            0nat
        } else {
            1nat
        }) + (if in_unit_range(s[3 * n - 1]) {
            0nat
        } else {
            1nat
        })) by {
            assert(out_of_range_prefix(s, 3 * n - 1) == out_of_range_prefix(s, 3 * n - 2) + (
            if in_unit_range(s[3 * n - 2]) {
                0nat
            } else {
                1nat
            }));
            assert(out_of_range_prefix(s, 3 * n - 2) == out_of_range_prefix(s, 3 * n - 3) + (
            if in_unit_range(s[3 * n - 3]) {
                0nat
            } else {
                1nat
            }));
        }
    }
}

/// `v.clamp(0.0, 1.0)`: below 0 becomes 0, above 1 becomes 1, NaN stays.
pub open spec fn clamp_unit(v: u32) -> u32 {
    if lt(v, ZERO_BITS) {
        ZERO_BITS
    } else if gt(v, ONE_BITS) {
        ONE_BITS
    } else {
        v
    }
}

/// Clamp one component to `[0, 1]`.
pub fn clamp_component(v: u32) -> (r: u32)
    ensures
        r == clamp_unit(v),
{
    if bits_lt(v, ZERO_BITS) {
        ZERO_BITS
    } else if bits_gt(v, ONE_BITS) {
        ONE_BITS
    } else {
        v
    }
}

/// Clamp every component to `[0, 1]` (the `Clamp` output policy).
pub fn clamp_all(values: &mut Vec<u32>)
    ensures
        final(values)@.len() == old(values)@.len(),
        forall|i: int|
            0 <= i < old(values)@.len() ==> final(values)@[i] == clamp_unit(old(values)@[i]),
{
    let mut i: usize = 0;
    while i < values.len()
        invariant
            values@.len() == old(values)@.len(),
            0 <= i <= values@.len(),
            forall|j: int| 0 <= j < i ==> values@[j] == clamp_unit(old(values)@[j]),
            forall|j: int| i <= j < values@.len() ==> values@[j] == old(values)@[j],
        decreases values@.len() - i,
    {
        let v = values[i];
        values.set(i, clamp_component(v));
        i = i + 1;
    }
}

/// After clamping, every component that is not NaN lies in `[0, 1]`, and
/// NaN stays NaN.
pub proof fn lemma_clamp_unit_in_range(v: u32)
    ensures
        !is_nan(v) ==> in_unit_range(clamp_unit(v)),
        is_nan(v) ==> clamp_unit(v) == v,
{
    assert((ZERO_BITS & 0x7f80_0000u32) == 0u32) by (bit_vector);
    assert((ZERO_BITS & 0x8000_0000u32) == 0u32) by (bit_vector);
    assert((ZERO_BITS & 0x7fff_ffffu32) == 0u32) by (bit_vector);
    assert((ONE_BITS & 0x7f80_0000u32) == 0x3f80_0000u32) by (bit_vector);
    assert((ONE_BITS & 0x8000_0000u32) == 0u32) by (bit_vector);
    assert((ONE_BITS & 0x7fff_ffffu32) == 0x3f80_0000u32) by (bit_vector);
}

/// Sign pattern of a diff profile, read left to right: the sign of the last
/// sample at or above the noise floor (`true` = positive) and the number of
/// sign changes between such samples.
pub open spec fn sign_scan(s: Seq<u32>) -> (Option<bool>, nat)
    decreases s.len(),
{
    if s.len() == 0 {
        (None, 0)
    } else {
        let prev = sign_scan(s.drop_last());
        let v = s.last();
        if lt(abs(v), NOISE_FLOOR_BITS) {
            prev
        } else {
            let positive = gt(v, ZERO_BITS);
            match prev.0 {
                Some(p) => (Some(positive), if p != positive {
                    prev.1 + 1
                } else {
                    prev.1
                }),
                None => (Some(positive), prev.1),
            }
        }
    }
}

/// A profile rings when its sign changes at least twice.
pub open spec fn rings(s: Seq<u32>) -> bool {
    sign_scan(s).1 >= RINGING_THRESHOLD
}

/// Whether a five-sample cross-edge diff profile oscillates: two or more
/// sign changes among the samples whose magnitude reaches the noise floor.
pub fn has_ringing(samples: &[u32; 5]) -> (r: bool)
    ensures
        r == rings(samples@),
{
    let mut changes: usize = 0;
    let mut prev: Option<bool> = None;
    let mut i: usize = 0;
    proof {
        assert(samples@.subrange(0, 0) =~= Seq::<u32>::empty());
    }
    while i < 5
        invariant
            0 <= i <= 5,
            samples@.len() == 5,
            (prev, changes as nat) == sign_scan(samples@.subrange(0, i as int)),
            changes <= i,
        decreases 5 - i,
    {
        let v = samples[i];
        proof {
            let pre = samples@.subrange(0, i as int);
            assert(samples@.subrange(0, i + 1).drop_last() =~= pre);
            assert(samples@.subrange(0, i + 1).last() == v);
        }
        if !bits_lt(bits_abs(v), NOISE_FLOOR_BITS) {
            let positive = bits_gt(v, ZERO_BITS);
            match prev {
                Some(p) => {
                    if p != positive {
                        changes = changes + 1;
                    }
                },
                None => {},
            }
            prev = Some(positive);
        }
        i = i + 1;
    }
    proof {
        assert(samples@.subrange(0, 5) =~= samples@);
    }
    changes >= RINGING_THRESHOLD
}

/// A diff sample whose magnitude reaches the noise floor (a NaN sample does).
pub open spec fn above_floor(v: u32) -> bool {
    !lt(abs(v), NOISE_FLOOR_BITS)
}

/// A diff sample above zero.
pub open spec fn is_positive(v: u32) -> bool {
    gt(v, ZERO_BITS)
}

/// Samples `i < j < k` reach the noise floor and their signs alternate.
pub open spec fn alternates(s: Seq<u32>, i: int, j: int, k: int) -> bool {
    &&& 0 <= i < j < k < s.len()
    &&& above_floor(s[i]) && above_floor(s[j]) && above_floor(s[k])
    &&& is_positive(s[i]) != is_positive(s[j])
    &&& is_positive(s[j]) != is_positive(s[k])
}

/// Adding one sample to a prefix extends the sign scan by that sample.
proof fn lemma_sign_scan_prefix_step(s: Seq<u32>, m: int)
    requires
        0 < m <= s.len(),
    ensures
        sign_scan(s.take(m)) == (if !above_floor(s[m - 1]) {
            sign_scan(s.take(m - 1))
        } else {
            match sign_scan(s.take(m - 1)).0 {
                Some(p) => (Some(is_positive(s[m - 1])), if p != is_positive(s[m - 1]) {
                    sign_scan(s.take(m - 1)).1 + 1
                } else {
                    sign_scan(s.take(m - 1)).1
                }),
                None => (Some(is_positive(s[m - 1])), sign_scan(s.take(m - 1)).1),
            }
        }),
{
    assert(s.take(m).drop_last() =~= s.take(m - 1));
    assert(s.take(m).last() == s[m - 1]);
}

/// Between prefixes of length `n <= m` the change count never drops, and
/// a sign seen at `n` is either still the last sign at `m` or has changed.
proof fn lemma_sign_scan_grows(s: Seq<u32>, n: int, m: int)
    requires
        0 <= n <= m <= s.len(),
    ensures
        sign_scan(s.take(m)).1 >= sign_scan(s.take(n)).1,
        sign_scan(s.take(n)).0 matches Some(p) ==> (sign_scan(s.take(m)).1 >= sign_scan(s.take(n)).1
            + 1 || sign_scan(s.take(m)).0 == Some(p)),
    decreases m - n,
{
    if m > n {
        lemma_sign_scan_grows(s, n, m - 1);
        lemma_sign_scan_prefix_step(s, m);
    }
}

/// What a prefix's sign scan says about the samples in it.
proof fn lemma_sign_scan_witnesses(s: Seq<u32>, m: int)
    requires
        0 <= m <= s.len(),
    ensures
        sign_scan(s.take(m)).1 > 0 ==> sign_scan(s.take(m)).0 is Some,
        sign_scan(s.take(m)).0 matches Some(p) ==> exists|b: int|
            0 <= b < m && above_floor(s[b]) && #[trigger] is_positive(s[b]) == p,
        sign_scan(s.take(m)).1 >= 1 ==> exists|a: int, b: int|
            0 <= a < b < m && above_floor(s[a]) && above_floor(s[b]) && #[trigger] is_positive(s[a])
                != #[trigger] is_positive(s[b]) && sign_scan(s.take(m)).0 == Some(is_positive(s[b])),
        sign_scan(s.take(m)).1 >= 2 ==> exists|a: int, b: int, c: int|
            c < m && #[trigger] alternates(s, a, b, c),
    decreases m,
{
    if m == 0 {
        assert(s.take(0) =~= Seq::<u32>::empty());
    } else {
        lemma_sign_scan_witnesses(s, m - 1);
        lemma_sign_scan_prefix_step(s, m);
        let prev = sign_scan(s.take(m - 1));
        let v = s[m - 1];
        if above_floor(v) {
            let q = is_positive(v);
            assert(is_positive(s[m - 1]) == q);
            match prev.0 {
                Some(p) => {
                    if p != q {
                        let b = choose|b: int|
                            0 <= b < m - 1 && above_floor(s[b]) && #[trigger] is_positive(s[b]) == p;
                        assert(is_positive(s[b]) != is_positive(s[m - 1]));
                        if prev.1 >= 1 {
                            let (a0, b0) = choose|a: int, b: int|
                                0 <= a < b < m - 1 && above_floor(s[a]) && above_floor(s[b])
                                    && #[trigger] is_positive(s[a]) != #[trigger] is_positive(s[b])
                                    && prev.0 == Some(is_positive(s[b]));
                            assert(alternates(s, a0, b0, m - 1));
                        }
                    } else {
                        if prev.1 >= 1 {
                            let (a0, b0) = choose|a: int, b: int|
                                0 <= a < b < m - 1 && above_floor(s[a]) && above_floor(s[b])
                                    && #[trigger] is_positive(s[a]) != #[trigger] is_positive(s[b])
                                    && prev.0 == Some(is_positive(s[b]));
                            assert(is_positive(s[a0]) != is_positive(s[b0]));
                        }
                    }
                },
                None => {},
            }
        }
    }
}

/// A profile rings exactly when three of its samples at or above the noise
/// floor alternate in sign (-, +, - or +, -, +), in either direction and
/// with any quieter samples between them.  In particular a profile whose
/// samples above the floor all have one sign never rings.
pub proof fn lemma_ringing_iff_alternating_signs(s: Seq<u32>)
    ensures
        rings(s) <==> exists|i: int, j: int, k: int| #[trigger] alternates(s, i, j, k),
{
    assert(s.take(s.len() as int) =~= s);
    lemma_sign_scan_witnesses(s, s.len() as int);
    if exists|i: int, j: int, k: int| #[trigger] alternates(s, i, j, k) {
        let (i, j, k) = choose|i: int, j: int, k: int| #[trigger] alternates(s, i, j, k);
        lemma_sign_scan_prefix_step(s, i + 1);
        lemma_sign_scan_grows(s, i + 1, j);
        lemma_sign_scan_prefix_step(s, j + 1);
        lemma_sign_scan_grows(s, j + 1, k);
        lemma_sign_scan_prefix_step(s, k + 1);
        lemma_sign_scan_grows(s, k + 1, s.len() as int);
    }
}

/// A component is within `[0, 1]` exactly when it is a number between 0
/// and 1 inclusive (both zeros included, NaN excluded).
pub proof fn lemma_unit_range_is_closed_interval(v: u32)
    ensures
        in_unit_range(v) <==> (!is_nan(v) && 0 <= order_key(v) && order_key(v) <= order_key(ONE_BITS)),
        !is_nan(ZERO_BITS) && order_key(ZERO_BITS) == 0,
        !is_nan(ONE_BITS) && order_key(ONE_BITS) > 0,
{
    assert((ZERO_BITS & 0x7f80_0000u32) == 0u32) by (bit_vector);
    assert((ZERO_BITS & 0x8000_0000u32) == 0u32) by (bit_vector);
    assert((ZERO_BITS & 0x7fff_ffffu32) == 0u32) by (bit_vector);
    assert((ONE_BITS & 0x7f80_0000u32) == 0x3f80_0000u32) by (bit_vector);
    assert((ONE_BITS & 0x8000_0000u32) == 0u32) by (bit_vector);
    assert((ONE_BITS & 0x7fff_ffffu32) == 0x3f80_0000u32) by (bit_vector);
}

/// Clamping leaves components within `[0, 1]` unchanged, sends those below
/// 0 to 0 and those above 1 to 1, and clamping twice is clamping once.
pub proof fn lemma_clamp_unit_behaviour(v: u32)
    ensures
        in_unit_range(v) ==> clamp_unit(v) == v,
        lt(v, ZERO_BITS) ==> clamp_unit(v) == ZERO_BITS,
        gt(v, ONE_BITS) ==> clamp_unit(v) == ONE_BITS,
        clamp_unit(clamp_unit(v)) == clamp_unit(v),
{
    lemma_clamp_unit_in_range(v);
    lemma_unit_range_is_closed_interval(v);
    lemma_unit_range_is_closed_interval(clamp_unit(v));
}

/// The out-of-range count of a prefix is zero exactly when every component
/// in it lies in `[0, 1]`, and equals the prefix length exactly when none does.
pub proof fn lemma_out_of_range_count_extremes(s: Seq<u32>, m: int)
    requires
        0 <= m <= s.len(),
    ensures
        out_of_range_prefix(s, m) == 0 <==> forall|i: int| 0 <= i < m ==> #[trigger] in_unit_range(s[i]),
        out_of_range_prefix(s, m) == m <==> forall|i: int| 0 <= i < m ==> !#[trigger] in_unit_range(s[i]),
        out_of_range_prefix(s, m) <= m,
    decreases m,
{
    if m > 0 {
        lemma_out_of_range_count_extremes(s, m - 1);
        if out_of_range_prefix(s, m) == 0 {
            assert forall|i: int| 0 <= i < m implies #[trigger] in_unit_range(s[i]) by {
                if i < m - 1 {
                }
            }
        }
        if out_of_range_prefix(s, m) == m {
            assert forall|i: int| 0 <= i < m implies !#[trigger] in_unit_range(s[i]) by {
                if i < m - 1 {
                }
            }
        }
    }
}

/// No pixel is out of gamut exactly when every component of the whole
/// pixels lies in `[0, 1]`; every pixel is out of gamut exactly when each
/// has a component outside.
pub proof fn lemma_out_of_gamut_count_extremes(s: Seq<u32>, n: int)
    requires
        0 <= n,
        3 * n <= s.len(),
    ensures
        out_of_gamut_pixels(s, n) == 0 <==> forall|i: int| 0 <= i < 3 * n ==> #[trigger] in_unit_range(s[i]),
        out_of_gamut_pixels(s, n) == n <==> forall|p: int| 0 <= p < n ==> #[trigger] pixel_out_of_gamut(s, p),
        out_of_gamut_pixels(s, n) <= n,
    decreases n,
{
    if n > 0 {
        lemma_out_of_gamut_count_extremes(s, n - 1);
        if out_of_gamut_pixels(s, n) == 0 {
            assert forall|i: int| 0 <= i < 3 * n implies #[trigger] in_unit_range(s[i]) by {
                if i >= 3 * (n - 1) {
                    assert(!pixel_out_of_gamut(s, n - 1));
                    assert(i == 3 * (n - 1) || i == 3 * (n - 1) + 1 || i == 3 * (n - 1) + 2);
                }
            }
        } else {
            if forall|i: int| 0 <= i < 3 * n ==> #[trigger] in_unit_range(s[i]) {
                assert(in_unit_range(s[3 * (n - 1)]) && in_unit_range(s[3 * (n - 1) + 1])
                    && in_unit_range(s[3 * (n - 1) + 2]));
                assert forall|i: int| 0 <= i < 3 * (n - 1) implies #[trigger] in_unit_range(s[i]) by {}
            }
        }
        if out_of_gamut_pixels(s, n) == n {
            assert forall|p: int| 0 <= p < n implies #[trigger] pixel_out_of_gamut(s, p) by {
                if p < n - 1 {
                }
            }
        }
    }
}

/// When some value is not NaN, the scanned minimum and maximum are values
/// of the sequence.
pub proof fn lemma_min_max_attained(s: Seq<u32>)
    requires
        exists|i: int| 0 <= i < s.len() && !is_nan(#[trigger] s[i]),
    ensures
        exists|i: int| 0 <= i < s.len() && #[trigger] s[i] == min_max_scan(s).0,
        exists|i: int| 0 <= i < s.len() && #[trigger] s[i] == min_max_scan(s).1,
    decreases s.len(),
{
    let t = s.drop_last();
    let v = s.last();
    lemma_min_max_bounds(t);
    if exists|i: int| 0 <= i < t.len() && !is_nan(#[trigger] t[i]) {
        lemma_min_max_attained(t);
        let a = choose|i: int| 0 <= i < t.len() && #[trigger] t[i] == min_max_scan(t).0;
        let b = choose|i: int| 0 <= i < t.len() && #[trigger] t[i] == min_max_scan(t).1;
        assert(s[a] == t[a] && s[b] == t[b]);
        assert(s[s.len() - 1] == v);
        assert(s.drop_last() == t);
        if lt(v, min_max_scan(t).0) {
            assert(s[s.len() - 1] == min_max_scan(s).0);
        } else {
            assert(s[a] == min_max_scan(s).0);
        }
        if gt(v, min_max_scan(t).1) {
            assert(s[s.len() - 1] == min_max_scan(s).1);
        } else {
            assert(s[b] == min_max_scan(s).1);
        }
    } else {
        // Only the last value is a number: it becomes both bounds.
        assert(!is_nan(v)) by {
            let i = choose|i: int| 0 <= i < s.len() && !is_nan(#[trigger] s[i]);
            if i < s.len() - 1 {
                assert(t[i] == s[i]);
            }
        }
        assert(s.len() >= 1);
        if t.len() == 0 {
            assert(t =~= Seq::<u32>::empty());
        }
        lemma_scan_of_nans(t);
        assert(POS_INFINITY_BITS & 0x8000_0000u32 == 0u32 && POS_INFINITY_BITS & 0x7fff_ffffu32
            == 0x7f80_0000u32) by (bit_vector);
        assert(NEG_INFINITY_BITS & 0x8000_0000u32 == 0x8000_0000u32 && NEG_INFINITY_BITS
            & 0x7fff_ffffu32 == 0x7f80_0000u32) by (bit_vector);
        assert((v & 0x7fff_ffffu32) <= 0x7f80_0000u32) by (bit_vector)
            requires
                !((v & 0x7f80_0000u32) == 0x7f80_0000u32 && (v & 0x007f_ffffu32) != 0u32),
        ;
        assert(((v & 0x8000_0000u32) == 0u32 && (v & 0x7fff_ffffu32) == 0x7f80_0000u32) ==> v
            == 0x7f80_0000u32) by (bit_vector);
        assert(((v & 0x8000_0000u32) != 0u32 && (v & 0x7fff_ffffu32) == 0x7f80_0000u32) ==> v
            == 0xff80_0000u32) by (bit_vector);
        assert(s.drop_last() == t);
        assert(s[s.len() - 1] == v);
        assert(min_max_scan(s).0 == v);
        assert(min_max_scan(s).1 == v);
    }
}

/// Scanning only NaN values leaves the starting bounds `(+inf, -inf)`.
proof fn lemma_scan_of_nans(t: Seq<u32>)
    requires
        forall|i: int| 0 <= i < t.len() ==> is_nan(#[trigger] t[i]),
    ensures
        min_max_scan(t) == (POS_INFINITY_BITS, NEG_INFINITY_BITS),
    decreases t.len(),
{
    if t.len() > 0 {
        let u = t.drop_last();
        assert forall|i: int| 0 <= i < u.len() implies is_nan(#[trigger] u[i]) by {
            assert(u[i] == t[i]);
        }
        lemma_scan_of_nans(u);
        assert(is_nan(t[t.len() - 1]));
    }
}

/// Number of profiles that ring; numerator of the halo ringing score.
pub fn count_ringing_profiles(profiles: &[[u32; 5]]) -> (n: usize)
    ensures
        n == Seq::new(profiles@.len(), |i: int| profiles@[i]@).filter(|p: Seq<u32>| rings(p)).len(),
        n <= profiles@.len(),
{
    let ghost all = Seq::new(profiles@.len(), |i: int| profiles@[i]@);
    let mut n: usize = 0;
    let mut i: usize = 0;
    proof {
        assert(all.subrange(0, 0) =~= Seq::<Seq<u32>>::empty());
    }
    while i < profiles.len()
        invariant
            all == Seq::new(profiles@.len(), |i: int| profiles@[i]@),
            0 <= i <= profiles@.len(),
            n == all.subrange(0, i as int).filter(|p: Seq<u32>| rings(p)).len(),
            n <= i,
        decreases profiles@.len() - i,
    {
        let ghost pre = all.subrange(0, i as int);
        proof {
            assert(all.subrange(0, i + 1) =~= pre.push(all[i as int]));
            pre.lemma_filter_push(all[i as int], |p: Seq<u32>| rings(p));
            pre.lemma_filter_len(|p: Seq<u32>| rings(p));
        }
        if has_ringing(&profiles[i]) {
            n = n + 1;
        }
        i = i + 1;
    }
    proof {
        assert(all.subrange(0, profiles@.len() as int) =~= all);
    }
    n
}

/// Smallest and largest of the non-NaN values seen by a left-to-right scan
/// that starts from `(+inf, -inf)`.
pub open spec fn min_max_scan(s: Seq<u32>) -> (u32, u32)
    decreases s.len(),
{
    if s.len() == 0 {
        (POS_INFINITY_BITS, NEG_INFINITY_BITS)
    } else {
        let prev = min_max_scan(s.drop_last());
        let v = s.last();
        (if lt(v, prev.0) {
            v
        } else {
            prev.0
        }, if gt(v, prev.1) {
            v
        } else {
            prev.1
        })
    }
}

/// Every non-NaN value lies between the scanned minimum and maximum.
pub proof fn lemma_min_max_bounds(s: Seq<u32>)
    ensures
        forall|i: int|
            0 <= i < s.len() && !is_nan(#[trigger] s[i]) ==> le(min_max_scan(s).0, s[i]) && le(
                s[i],
                min_max_scan(s).1,
            ),
        !is_nan(min_max_scan(s).0) && !is_nan(min_max_scan(s).1),
    decreases s.len(),
{
    assert((POS_INFINITY_BITS & 0x7f80_0000u32) == 0x7f80_0000u32 && (POS_INFINITY_BITS
        & 0x007f_ffffu32) == 0u32) by (bit_vector);
    assert((NEG_INFINITY_BITS & 0x7f80_0000u32) == 0x7f80_0000u32 && (NEG_INFINITY_BITS
        & 0x007f_ffffu32) == 0u32) by (bit_vector);
    if s.len() > 0 {
        let t = s.drop_last();
        lemma_min_max_bounds(t);
        assert forall|i: int|
            0 <= i < s.len() && !is_nan(#[trigger] s[i]) implies le(min_max_scan(s).0, s[i]) && le(
            s[i],
            min_max_scan(s).1,
        ) by {
            if i < s.len() - 1 {
                assert(t[i] == s[i]);
            }
        }
    }
}

/// Smallest and largest component (NaN components are passed over).
pub fn min_max(values: &[u32]) -> (r: (u32, u32))
    ensures
        r == min_max_scan(values@),
{
    let mut lo = POS_INFINITY_BITS;
    let mut hi = NEG_INFINITY_BITS;
    let mut i: usize = 0;
    proof {
        assert(values@.subrange(0, 0) =~= Seq::<u32>::empty());
    }
    while i < values.len()
        invariant
            0 <= i <= values@.len(),
            (lo, hi) == min_max_scan(values@.subrange(0, i as int)),
        decreases values@.len() - i,
    {
        let v = values[i];
        proof {
            assert(values@.subrange(0, i + 1).drop_last() =~= values@.subrange(0, i as int));
        }
        if bits_lt(v, lo) {
            lo = v;
        }
        if bits_gt(v, hi) {
            hi = v;
        }
        i = i + 1;
    }
    proof {
        assert(values@.subrange(0, values@.len() as int) =~= values@);
    }
    (lo, hi)
}

} // verus!
