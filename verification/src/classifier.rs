//! Region classification rule and class statistics.
//!
//! The gradient magnitude and local variance of each pixel are computed on
//! `f32` luminance; the class follows from comparing them with four
//! thresholds.  Values and thresholds arrive as `f32` bit patterns.
use vstd::prelude::*;

use crate::float_bits::{bits_lt, bits_le, ge, lt};
use crate::types::{table_gain, GainTable, RegionClass, RegionMap, REGION_CLASS_COUNT};

verus! {

/// Classifier thresholds as `f32` bit patterns.
///
/// Gradients are unnormalized Sobel magnitudes, variances are in squared
/// luminance units.
#[derive(Debug, Clone, Copy, PartialEq, Eq, Structural)]
pub struct ThresholdBits {
    pub gradient_low: u32,
    pub gradient_high: u32,
    pub variance_low: u32,
    pub variance_high: u32,
}

/// The classification rule, in priority order:
/// 1. `g >= gradient_high && v >= variance_high` → `RiskyHaloZone`
/// 2. `g >= gradient_high` → `StrongEdge`
/// 3. `v >= variance_high && g < gradient_low` → `Microtexture`
/// 4. `v >= variance_low || g >= gradient_low` → `Textured`
/// 5. otherwise → `Flat`
pub open spec fn class_of(g: u32, v: u32, t: ThresholdBits) -> RegionClass {
    if ge(g, t.gradient_high) && ge(v, t.variance_high) {
        RegionClass::RiskyHaloZone
    } else if ge(g, t.gradient_high) {
        RegionClass::StrongEdge
    } else if ge(v, t.variance_high) && lt(g, t.gradient_low) {
        RegionClass::Microtexture
    } else if ge(v, t.variance_low) || ge(g, t.gradient_low) {
        RegionClass::Textured
    } else {
        RegionClass::Flat
    }
}

/// Which class a pixel falls in, by its features: a gradient at or above
/// the high threshold always makes an edge class (a halo-risk zone when the
/// variance is also at or above its high threshold); below it, a high
/// variance with a gradient below the low threshold is microtexture; a
/// pixel is flat exactly when neither feature reaches any threshold that
/// would place it elsewhere.
pub proof fn lemma_class_by_features(g: u32, v: u32, t: ThresholdBits)
    ensures
        class_of(g, v, t) == RegionClass::RiskyHaloZone <==> ge(g, t.gradient_high) && ge(v, t.variance_high),
        class_of(g, v, t) == RegionClass::StrongEdge <==> ge(g, t.gradient_high) && !ge(v, t.variance_high),
        class_of(g, v, t) == RegionClass::Microtexture <==> !ge(g, t.gradient_high) && ge(v, t.variance_high)
            && lt(g, t.gradient_low),
        class_of(g, v, t) == RegionClass::Flat <==> !ge(g, t.gradient_high) && !ge(g, t.gradient_low)
            && !ge(v, t.variance_low) && !(ge(v, t.variance_high) && lt(g, t.gradient_low)),
        class_of(g, v, t) == RegionClass::Textured <==> !ge(g, t.gradient_high) && !(ge(v, t.variance_high)
            && lt(g, t.gradient_low)) && (ge(v, t.variance_low) || ge(g, t.gradient_low)),
{
}

/// Classify one pixel from its gradient magnitude `g` and local variance `v`.
pub fn classify_features(g: u32, v: u32, t: &ThresholdBits) -> (c: RegionClass)
    ensures
        c == class_of(g, v, *t),
{
    let g_high = bits_le(t.gradient_high, g);
    let v_high = bits_le(t.variance_high, v);
    if g_high && v_high {
        RegionClass::RiskyHaloZone
    } else if g_high {
        RegionClass::StrongEdge
    } else if v_high && bits_lt(g, t.gradient_low) {
        RegionClass::Microtexture
    } else if bits_le(t.variance_low, v) || bits_le(t.gradient_low, g) {
        RegionClass::Textured
    } else {
        RegionClass::Flat
    }
}

/// Classify every pixel; `gradients` and `variances` are row-major per pixel.
pub fn classify_all(gradients: &Vec<u32>, variances: &Vec<u32>, t: &ThresholdBits) -> (cs: Vec<RegionClass>)
    requires
        gradients@.len() == variances@.len(),
    ensures
        cs@.len() == gradients@.len(),
        forall|i: int| 0 <= i < cs@.len() ==> cs@[i] == class_of(gradients@[i], variances@[i], *t),
{
    let mut cs: Vec<RegionClass> = Vec::new();
    let mut i: usize = 0;
    while i < gradients.len()
        invariant
            gradients@.len() == variances@.len(),
            0 <= i <= gradients@.len(),
            cs@.len() == i,
            forall|j: int| 0 <= j < i ==> cs@[j] == class_of(gradients@[j], variances@[j], *t),
        decreases gradients@.len() - i,
    {
        cs.push(classify_features(gradients[i], variances[i], t));
        i = i + 1;
    }
    cs
}

/// Number of entries of `s` of class `c`.
pub open spec fn class_count(s: Seq<RegionClass>, c: RegionClass) -> nat
    decreases s.len(),
{
    if s.len() == 0 {
        0
    } else {
        class_count(s.drop_last(), c) + if s.last() == c {
            1nat
        } else {
            0nat
        }
    }
}

proof fn lemma_class_count_push(s: Seq<RegionClass>, x: RegionClass, c: RegionClass)
    ensures
        class_count(s.push(x), c) == class_count(s, c) + if x == c {
            1nat
        } else {
            0nat
        },
{
    assert(s.push(x).drop_last() =~= s);
}

/// The five class counts add up to the length.
pub proof fn lemma_class_counts_partition(s: Seq<RegionClass>)
    ensures
        class_count(s, RegionClass::Flat) + class_count(s, RegionClass::Textured) + class_count(
            s,
            RegionClass::StrongEdge,
        ) + class_count(s, RegionClass::Microtexture) + class_count(s, RegionClass::RiskyHaloZone)
            == s.len(),
    decreases s.len(),
{
    if s.len() > 0 {
        lemma_class_counts_partition(s.drop_last());
    }
}

/// Pixel count of each class, indexed by the class order
/// (Flat, Textured, StrongEdge, Microtexture, RiskyHaloZone).
pub fn class_counts(map: &RegionMap) -> (counts: [u32; REGION_CLASS_COUNT])
    requires
        map.classes().len() <= u32::MAX,
    ensures
        counts[0] == class_count(map.classes(), RegionClass::Flat),
        counts[1] == class_count(map.classes(), RegionClass::Textured),
        counts[2] == class_count(map.classes(), RegionClass::StrongEdge),
        counts[3] == class_count(map.classes(), RegionClass::Microtexture),
        counts[4] == class_count(map.classes(), RegionClass::RiskyHaloZone),
        counts[0] + counts[1] + counts[2] + counts[3] + counts[4] == map.classes().len(),
{
    let data = map.data();
    let mut counts: [u32; REGION_CLASS_COUNT] = [0, 0, 0, 0, 0];
    let mut i: usize = 0;
    proof {
        assert(data@.subrange(0, 0) =~= Seq::<RegionClass>::empty());
    }
    while i < data.len()
        invariant
            data@ == map.classes(),
            data@.len() <= u32::MAX,
            0 <= i <= data@.len(),
            counts[0] == class_count(data@.subrange(0, i as int), RegionClass::Flat),
            counts[1] == class_count(data@.subrange(0, i as int), RegionClass::Textured),
            counts[2] == class_count(data@.subrange(0, i as int), RegionClass::StrongEdge),
            counts[3] == class_count(data@.subrange(0, i as int), RegionClass::Microtexture),
            counts[4] == class_count(data@.subrange(0, i as int), RegionClass::RiskyHaloZone),
        decreases data@.len() - i,
    {
        let c = data[i];
        let ghost prefix = data@.subrange(0, i as int);
        proof {
            assert(data@.subrange(0, i + 1) =~= prefix.push(c));
            lemma_class_count_push(prefix, c, RegionClass::Flat);
            lemma_class_count_push(prefix, c, RegionClass::Textured);
            lemma_class_count_push(prefix, c, RegionClass::StrongEdge);
            lemma_class_count_push(prefix, c, RegionClass::Microtexture);
            lemma_class_count_push(prefix, c, RegionClass::RiskyHaloZone);
            lemma_class_counts_partition(prefix);
        }
        let k = c.index();
        counts[k] = counts[k] + 1;
        i = i + 1;
    }
    proof {
        assert(data@.subrange(0, data@.len() as int) =~= data@);
        lemma_class_counts_partition(data@);
    }
    counts
}


/// Gain of every pixel of a region map (row-major, `f32` bit patterns): the
/// table's gain for the pixel's class.
pub fn gain_map_from_region_map(map: &RegionMap, table: &GainTable) -> (gains: Vec<u32>)
    ensures
        gains@.len() == map.classes().len(),
        forall|i: int| 0 <= i < gains@.len() ==> gains@[i] == table_gain(*table, #[trigger] map.classes()[i]),
{
    let data = map.data();
    let mut gains: Vec<u32> = Vec::new();
    let mut i: usize = 0;
    while i < data.len()
        invariant
            data@ == map.classes(),
            0 <= i <= data@.len(),
            gains@.len() == i,
            forall|j: int| 0 <= j < i ==> gains@[j] == table_gain(*table, #[trigger] data@[j]),
        decreases data@.len() - i,
    {
        gains.push(table.gain_for(data[i]));
        i = i + 1;
    }
    gains
}

} // verus!
