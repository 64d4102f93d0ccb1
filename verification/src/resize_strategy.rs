//! Kernel selection of the region-adaptive resize.
//!
//! The source image is classified, each needed kernel resamples the whole
//! image, and every output pixel is taken from the result of the kernel that
//! the class of its source pixel maps to.  This module decides which kernels
//! are needed, which kernel each output pixel takes, and how many pixels each
//! kernel contributes.
use vstd::prelude::*;

use crate::types::{
    KernelPixelCount, KernelTable, RegionClass, RegionMap, ResizeKernel,
    ResizeStrategyDiagnostics, kernel_rank, table_kernel,
};

verus! {

/// The table assigns `k` to some class.
pub open spec fn table_uses(t: KernelTable, k: ResizeKernel) -> bool {
    t.flat == k || t.textured == k || t.strong_edge == k || t.microtexture == k
        || t.risky_halo_zone == k
}

/// Strictly increasing in kernel sort order (hence free of repeats).
pub open spec fn strictly_sorted(s: Seq<ResizeKernel>) -> bool {
    forall|i: int, j: int| 0 <= i < j < s.len() ==> kernel_rank(s[i]) < kernel_rank(s[j])
}

/// Number of entries of `s` equal to `k`.
pub open spec fn count_of(s: Seq<ResizeKernel>, k: ResizeKernel) -> nat
    decreases s.len(),
{
    if s.len() == 0 {
        0
    } else {
        count_of(s.drop_last(), k) + if s.last() == k {
            1nat
        } else {
            0nat
        }
    }
}

/// Sum of the pixel counts.
pub open spec fn sum_counts(s: Seq<KernelPixelCount>) -> int
    decreases s.len(),
{
    if s.len() == 0 {
        0
    } else {
        sum_counts(s.drop_last()) + s.last().pixels as int
    }
}

/// Kernel of each output pixel (row-major, `xs.len()` columns): the table
/// kernel of the class at the source pixel `(xs[x], ys[y])`.
pub open spec fn assigned_kernel(
    map: RegionMap,
    table: KernelTable,
    xs: Seq<u32>,
    ys: Seq<u32>,
    p: int,
) -> ResizeKernel {
    table_kernel(table, map.class_at(xs[p % xs.len() as int] as int, ys[p / xs.len() as int] as int))
}

/// Distinct kernels of a table, in sort order.
pub fn distinct_kernels(table: &KernelTable) -> (v: Vec<ResizeKernel>)
    ensures
        strictly_sorted(v@),
        forall|k: ResizeKernel| v@.contains(k) <==> table_uses(*table, k),
{
    let mut v: Vec<ResizeKernel> = Vec::new();
    let order = [
        ResizeKernel::Lanczos3,
        ResizeKernel::MitchellNetravali,
        ResizeKernel::CatmullRom,
        ResizeKernel::Gaussian,
    ];
    let mut r: usize = 0;
    while r < 4
        invariant
            0 <= r <= 4,
            order@ == seq![
                ResizeKernel::Lanczos3,
                ResizeKernel::MitchellNetravali,
                ResizeKernel::CatmullRom,
                ResizeKernel::Gaussian,
            ],
            strictly_sorted(v@),
            forall|i: int| 0 <= i < v@.len() ==> kernel_rank(#[trigger] v@[i]) < r,
            forall|k: ResizeKernel|
                v@.contains(k) <==> (table_uses(*table, k) && kernel_rank(k) < r),
        decreases 4 - r,
    {
        let k = order[r];
        assert(kernel_rank(k) == r);
        let used = table.flat == k || table.textured == k || table.strong_edge == k
            || table.microtexture == k || table.risky_halo_zone == k;
        if used {
            let ghost old_v = v@;
            v.push(k);
            assert forall|kk: ResizeKernel|
                v@.contains(kk) <==> (table_uses(*table, kk) && kernel_rank(kk) < r + 1) by {
                if v@.contains(kk) {
                    let i = choose|i: int| 0 <= i < v@.len() && v@[i] == kk;
                    if i < old_v.len() {
                        assert(old_v.contains(kk));
                    }
                }
                if table_uses(*table, kk) && kernel_rank(kk) < r + 1 {
                    if kernel_rank(kk) < r {
                        assert(old_v.contains(kk));
                        let i = choose|i: int| 0 <= i < old_v.len() && old_v[i] == kk;
                        assert(v@[i] == kk);
                    } else {
                        assert(kk == k);
                        assert(v@[old_v.len() as int] == kk);
                    }
                }
            }
        } else {
            assert forall|kk: ResizeKernel|
                v@.contains(kk) <==> (table_uses(*table, kk) && kernel_rank(kk) < r + 1) by {
                if kernel_rank(kk) == r {
                    assert(kk == k);
                    if v@.contains(kk) {
                        let i = choose|i: int| 0 <= i < v@.len() && v@[i] == kk;
                        assert(kernel_rank(v@[i]) < r);
                    }
                }
            }
        }
        r = r + 1;
    }
    v
}

/// Diagnostics of a resize with one kernel for the whole image.
pub fn single_kernel_diagnostics(kernel: ResizeKernel, width: u32, height: u32) -> (d: ResizeStrategyDiagnostics)
    requires
        width as int * height as int <= u32::MAX,
    ensures
        d.kernels_used@ == seq![kernel],
        d.per_kernel_pixel_count@ == seq![KernelPixelCount { kernel, pixels: (width * height) as u32 }],
{
    let mut kernels_used = Vec::new();
    kernels_used.push(kernel);
    let mut counts = Vec::new();
    counts.push(KernelPixelCount { kernel, pixels: width * height });
    ResizeStrategyDiagnostics { kernels_used, per_kernel_pixel_count: counts }
}

proof fn lemma_count_of_push(s: Seq<ResizeKernel>, x: ResizeKernel, k: ResizeKernel)
    ensures
        count_of(s.push(x), k) == count_of(s, k) + if x == k {
            1nat
        } else {
            0nat
        },
{
    assert(s.push(x).drop_last() =~= s);
}

proof fn lemma_count_of_le_len(s: Seq<ResizeKernel>, k: ResizeKernel)
    ensures
        count_of(s, k) <= s.len(),
    decreases s.len(),
{
    if s.len() > 0 {
        lemma_count_of_le_len(s.drop_last(), k);
    }
}

/// The four kernel counts add up to the length.
proof fn lemma_counts_partition(s: Seq<ResizeKernel>)
    ensures
        count_of(s, ResizeKernel::Lanczos3) + count_of(s, ResizeKernel::MitchellNetravali)
            + count_of(s, ResizeKernel::CatmullRom) + count_of(s, ResizeKernel::Gaussian)
            == s.len(),
    decreases s.len(),
{
    if s.len() > 0 {
        lemma_counts_partition(s.drop_last());
    }
}

/// A kernel that occurs nowhere in `s` has count 0.
proof fn lemma_count_of_absent(s: Seq<ResizeKernel>, k: ResizeKernel)
    requires
        !s.contains(k),
    ensures
        count_of(s, k) == 0,
    decreases s.len(),
{
    if s.len() > 0 {
        assert(!s.drop_last().contains(k)) by {
            if s.drop_last().contains(k) {
                let i = choose|i: int| 0 <= i < s.drop_last().len() && s.drop_last()[i] == k;
                assert(s[i] == k);
            }
        }
        assert(s.last() == s[s.len() - 1]);
        lemma_count_of_absent(s.drop_last(), k);
    }
}

proof fn lemma_sum_counts_push(s: Seq<KernelPixelCount>, x: KernelPixelCount)
    ensures
        sum_counts(s.push(x)) == sum_counts(s) + x.pixels as int,
{
    assert(s.push(x).drop_last() =~= s);
}

/// Per-pixel kernel choice of the region-adaptive resize.
///
/// `xs[x]` and `ys[y]` are the source column and row that output column `x`
/// and row `y` map to.  Returns the kernel of every output pixel (row-major)
/// and the diagnostics: the distinct kernels of the table in sort order and,
/// for each of them, the number of output pixels it supplies.
pub fn assign_kernels(
    map: &RegionMap,
    table: &KernelTable,
    xs: &Vec<u32>,
    ys: &Vec<u32>,
) -> (r: (Vec<ResizeKernel>, ResizeStrategyDiagnostics))
    requires
        xs@.len() > 0,
        xs@.len() * ys@.len() <= u32::MAX,
        forall|x: int, y: int|
            0 <= x < xs@.len() && 0 <= y < ys@.len() ==> (ys@[y] as int) * (map.map_width() as int)
                + (xs@[x] as int) < map.classes().len(),
    ensures
        r.0@.len() == xs@.len() * ys@.len(),
        forall|p: int| 0 <= p < r.0@.len() ==> r.0@[p] == assigned_kernel(*map, *table, xs@, ys@, p),
        strictly_sorted(r.1.kernels_used@),
        forall|k: ResizeKernel| r.1.kernels_used@.contains(k) <==> table_uses(*table, k),
        r.1.per_kernel_pixel_count@.len() == r.1.kernels_used@.len(),
        forall|i: int|
            0 <= i < r.1.kernels_used@.len() ==> (#[trigger] r.1.per_kernel_pixel_count@[i]).kernel
                == r.1.kernels_used@[i] && r.1.per_kernel_pixel_count@[i].pixels == count_of(
                r.0@,
                r.1.kernels_used@[i],
            ),
        sum_counts(r.1.per_kernel_pixel_count@) == xs@.len() * ys@.len(),
{
    let tw = xs.len();
    let th = ys.len();
    let mut assigned: Vec<ResizeKernel> = Vec::new();
    let mut c_lanczos: u32 = 0;
    let mut c_mitchell: u32 = 0;
    let mut c_catmull: u32 = 0;
    let mut c_gauss: u32 = 0;
    let mut y: usize = 0;
    while y < th
        invariant
            tw == xs@.len(),
            th == ys@.len(),
            tw > 0,
            tw * th <= u32::MAX,
            0 <= y <= th,
            forall|x: int, yy: int|
                0 <= x < xs@.len() && 0 <= yy < ys@.len() ==> (ys@[yy] as int) * (
                map.map_width() as int) + (xs@[x] as int) < map.classes().len(),
            assigned@.len() == y * tw,
            forall|p: int|
                0 <= p < assigned@.len() ==> assigned@[p] == assigned_kernel(
                    *map,
                    *table,
                    xs@,
                    ys@,
                    p,
                ),
            c_lanczos == count_of(assigned@, ResizeKernel::Lanczos3),
            c_mitchell == count_of(assigned@, ResizeKernel::MitchellNetravali),
            c_catmull == count_of(assigned@, ResizeKernel::CatmullRom),
            c_gauss == count_of(assigned@, ResizeKernel::Gaussian),
        decreases th - y,
    {
        let mut x: usize = 0;
        while x < tw
            invariant
                tw == xs@.len(),
                th == ys@.len(),
                tw > 0,
                tw * th <= u32::MAX,
                0 <= y < th,
                0 <= x <= tw,
                forall|xx: int, yy: int|
                    0 <= xx < xs@.len() && 0 <= yy < ys@.len() ==> (ys@[yy] as int) * (
                    map.map_width() as int) + (xs@[xx] as int) < map.classes().len(),
                assigned@.len() == y * tw + x,
                forall|p: int|
                    0 <= p < assigned@.len() ==> assigned@[p] == assigned_kernel(
                        *map,
                        *table,
                        xs@,
                        ys@,
                        p,
                    ),
                c_lanczos == count_of(assigned@, ResizeKernel::Lanczos3),
                c_mitchell == count_of(assigned@, ResizeKernel::MitchellNetravali),
                c_catmull == count_of(assigned@, ResizeKernel::CatmullRom),
                c_gauss == count_of(assigned@, ResizeKernel::Gaussian),
            decreases tw - x,
        {
            let class: RegionClass = map.get(xs[x], ys[y]);
            let k = table.kernel_for(class);
            let ghost old_a = assigned@;
            proof {
                let p = (y * tw + x) as int;
                assert(p % (tw as int) == x as int) by (nonlinear_arith)
                    requires
                        p == y * tw + x,
                        0 <= x < tw,
                ;
                assert(p / (tw as int) == y as int) by (nonlinear_arith)
                    requires
                        p == y * tw + x,
                        0 <= x < tw,
                ;
                assert((y as int) * (tw as int) + (x as int) < (tw as int) * (th as int)) by (nonlinear_arith)
                    requires
                        0 <= x < tw,
                        0 <= y < th,
                ;
                lemma_counts_partition(old_a);
                lemma_count_of_push(old_a, k, ResizeKernel::Lanczos3);
                lemma_count_of_push(old_a, k, ResizeKernel::MitchellNetravali);
                lemma_count_of_push(old_a, k, ResizeKernel::CatmullRom);
                lemma_count_of_push(old_a, k, ResizeKernel::Gaussian);
            }
            assigned.push(k);
            match k {
                ResizeKernel::Lanczos3 => c_lanczos = c_lanczos + 1,
                ResizeKernel::MitchellNetravali => c_mitchell = c_mitchell + 1,
                ResizeKernel::CatmullRom => c_catmull = c_catmull + 1,
                ResizeKernel::Gaussian => c_gauss = c_gauss + 1,
            }
            x = x + 1;
        }
        proof {
            assert((y + 1) * tw == y * tw + tw) by (nonlinear_arith);
        }
        y = y + 1;
    }
    proof {
        lemma_counts_partition(assigned@);
        assert(y * tw == tw * th) by (nonlinear_arith)
            requires
                y == th,
        ;
    }
    let kernels_used = distinct_kernels(table);
    let mut counts: Vec<KernelPixelCount> = Vec::new();
    let mut i: usize = 0;
    proof {
        // Every assigned kernel comes from the table, so the others count 0.
        assert forall|k: ResizeKernel| !table_uses(*table, k) implies count_of(assigned@, k) == 0 by {
            assert(!assigned@.contains(k)) by {
                if assigned@.contains(k) {
                    let p = choose|p: int| 0 <= p < assigned@.len() && assigned@[p] == k;
                    let c = map.class_at(
                        xs@[p % xs@.len() as int] as int,
                        ys@[p / xs@.len() as int] as int,
                    );
                    assert(table_kernel(*table, c) == k);
                }
            }
            lemma_count_of_absent(assigned@, k);
        }
    }
    while i < kernels_used.len()
        invariant
            0 <= i <= kernels_used@.len(),
            strictly_sorted(kernels_used@),
            forall|k: ResizeKernel| kernels_used@.contains(k) <==> table_uses(*table, k),
            forall|k: ResizeKernel| !table_uses(*table, k) ==> count_of(assigned@, k) == 0,
            counts@.len() == i,
            forall|j: int|
                0 <= j < i ==> (#[trigger] counts@[j]).kernel == kernels_used@[j]
                    && counts@[j].pixels == count_of(assigned@, kernels_used@[j]),
            c_lanczos == count_of(assigned@, ResizeKernel::Lanczos3),
            c_mitchell == count_of(assigned@, ResizeKernel::MitchellNetravali),
            c_catmull == count_of(assigned@, ResizeKernel::CatmullRom),
            c_gauss == count_of(assigned@, ResizeKernel::Gaussian),
            sum_counts(counts@) == (if exists|j: int|
                0 <= j < i && kernels_used@[j] == ResizeKernel::Lanczos3 {
                c_lanczos as int
            } else {
                0
            }) + (if exists|j: int| 0 <= j < i && kernels_used@[j] == ResizeKernel::MitchellNetravali {
                c_mitchell as int
            } else {
                0
            }) + (if exists|j: int| 0 <= j < i && kernels_used@[j] == ResizeKernel::CatmullRom {
                c_catmull as int
            } else {
                0
            }) + (if exists|j: int| 0 <= j < i && kernels_used@[j] == ResizeKernel::Gaussian {
                c_gauss as int
            } else {
                0
            }),
        decreases kernels_used@.len() - i,
    {
        let k = kernels_used[i];
        let n = match k {
            ResizeKernel::Lanczos3 => c_lanczos,
            ResizeKernel::MitchellNetravali => c_mitchell,
            ResizeKernel::CatmullRom => c_catmull,
            ResizeKernel::Gaussian => c_gauss,
        };
        let ghost old_c = counts@;
        proof {
            lemma_sum_counts_push(old_c, KernelPixelCount { kernel: k, pixels: n });
            // k occurs at position i only, the earlier positions hold other kernels.
            assert forall|j: int| 0 <= j < i implies kernels_used@[j] != k by {
                assert(kernel_rank(kernels_used@[j]) < kernel_rank(kernels_used@[i as int]));
            }
        }
        counts.push(KernelPixelCount { kernel: k, pixels: n });
        i = i + 1;
    }
    proof {
        let n = kernels_used@.len() as int;
        // Each kernel that the table does not use counts 0; the used ones all appear.
        if !table_uses(*table, ResizeKernel::Lanczos3) {
        } else {
            assert(kernels_used@.contains(ResizeKernel::Lanczos3));
        }
        if !table_uses(*table, ResizeKernel::MitchellNetravali) {
        } else {
            assert(kernels_used@.contains(ResizeKernel::MitchellNetravali));
        }
        if !table_uses(*table, ResizeKernel::CatmullRom) {
        } else {
            assert(kernels_used@.contains(ResizeKernel::CatmullRom));
        }
        if !table_uses(*table, ResizeKernel::Gaussian) {
        } else {
            assert(kernels_used@.contains(ResizeKernel::Gaussian));
        }
    }
    (assigned, ResizeStrategyDiagnostics { kernels_used, per_kernel_pixel_count: counts })
}

} // verus!
