//! Byte-level parts of image loading and saving.
//!
//! Decoding, encoding and the sRGB transfer curve are done by the loader;
//! this module decides whether a decoded size is admissible and moves
//! channel bytes between RGBA and RGB layouts.
use vstd::prelude::*;

use crate::error::CoreError;

verus! {

/// Upper bounds checked on the image header before the pixels are decoded.
#[derive(Debug, Clone, Copy, PartialEq, Eq, Structural)]
pub struct DecodeLimits {
    /// Maximum number of pixels (width × height).
    pub max_pixels: u64,
    /// Maximum width or height.
    pub max_dimension: u32,
}

impl Default for DecodeLimits {
    /// 100 megapixels and 16 384 pixels per axis.
    fn default() -> (l: DecodeLimits)
        ensures
            l.max_pixels == 100_000_000,
            l.max_dimension == 16_384,
    {
        DecodeLimits { max_pixels: 100_000_000, max_dimension: 16_384 }
    }
}

impl DecodeLimits {
    /// An image of this size may be decoded: neither dimension exceeds
    /// `max_dimension` and the pixel count does not exceed `max_pixels`.
    pub open spec fn spec_admits(&self, width: u32, height: u32) -> bool {
        width <= self.max_dimension && height <= self.max_dimension && width as int * height as int
            <= self.max_pixels
    }

    /// Whether an image of `width × height` is within the limits.
    pub fn admits(&self, width: u32, height: u32) -> (ok: bool)
        ensures
            ok == self.spec_admits(width, height),
    {
        if width > self.max_dimension || height > self.max_dimension {
            return false;
        }
        assert((width as int) * (height as int) <= u32::MAX as int * u32::MAX as int) by (nonlinear_arith)
            requires
                width <= u32::MAX,
                height <= u32::MAX,
        ;
        let pixel_count = (width as u64) * (height as u64);
        pixel_count <= self.max_pixels
    }
}

/// RGB bytes of an RGBA buffer: every fourth byte (alpha) dropped.
pub open spec fn rgb_of_rgba(rgba: Seq<u8>, n: int) -> Seq<u8> {
    Seq::new((3 * n) as nat, |i: int| rgba[4 * (i / 3) + i % 3])
}

/// Check an RGBA buffer of `width × height` pixels and drop its alpha bytes.
///
/// Fails with `BufferLengthMismatch` unless the buffer holds exactly four
/// bytes per pixel.
pub fn rgba_to_rgb(data: &[u8], width: u32, height: u32) -> (r: Result<Vec<u8>, CoreError>)
    requires
        4 * (width as int) * (height as int) <= usize::MAX,
    ensures
        r is Ok <==> data@.len() == 4 * (width as int) * (height as int),
        r matches Err(e) ==> e == (CoreError::BufferLengthMismatch {
            expected_len: (4 * (width as int) * (height as int)) as usize,
            got_len: data@.len() as usize,
        }),
        r matches Ok(v) ==> v@ == rgb_of_rgba(data@, width as int * height as int),
{
    assert(0 <= (width as int) * (height as int) <= 4 * (width as int) * (height as int)) by (nonlinear_arith)
        requires
            width >= 0,
            height >= 0,
    ;
    let pixel_count = (width as usize) * (height as usize);
    assert(pixel_count * 4 == 4 * (width as int) * (height as int)) by (nonlinear_arith)
        requires
            pixel_count == (width as int) * (height as int),
    ;
    let expected_len = pixel_count * 4;
    if data.len() != expected_len {
        return Err(CoreError::BufferLengthMismatch { expected_len, got_len: data.len() });
    }
    let dl = data.len();
    let mut rgb: Vec<u8> = Vec::new();
    let mut p: usize = 0;
    while p < pixel_count
        invariant
            dl == data@.len(),
            data@.len() == 4 * pixel_count,
            0 <= p <= pixel_count,
            rgb@.len() == 3 * p,
            forall|i: int| 0 <= i < 3 * p ==> rgb@[i] == data@[4 * (i / 3) + i % 3],
        decreases pixel_count - p,
    {
        let ghost old_rgb = rgb@;
        assert(4 * p + 3 < 4 * pixel_count) by (nonlinear_arith)
            requires
                p < pixel_count,
        ;
        rgb.push(data[4 * p]);
        rgb.push(data[4 * p + 1]);
        rgb.push(data[4 * p + 2]);
        proof {
            assert forall|i: int| 0 <= i < 3 * p + 3 implies rgb@[i] == data@[4 * (i / 3) + i % 3] by {
                if i >= 3 * p {
                    assert(i / 3 == p as int && i % 3 == i - 3 * p) by (nonlinear_arith)
                        requires
                            3 * p <= i < 3 * p + 3,
                    ;
                }
            }
        }
        p = p + 1;
    }
    proof {
        assert(rgb@ =~= rgb_of_rgba(data@, width as int * height as int));
    }
    Ok(rgb)
}

/// RGBA bytes of an RGB buffer: an opaque alpha (255) after every triple.
pub open spec fn rgba_of_rgb(rgb: Seq<u8>, n: int) -> Seq<u8> {
    Seq::new((4 * n) as nat, |i: int| if i % 4 == 3 { 255u8 } else { rgb[3 * (i / 4) + i % 4] })
}

/// Append an opaque alpha byte to every RGB triple; a trailing partial
/// triple is dropped.
pub fn rgb_to_rgba(rgb: &[u8]) -> (out: Vec<u8>)
    requires
        4 * (rgb@.len() / 3) <= usize::MAX,
    ensures
        out@ == rgba_of_rgb(rgb@, (rgb@.len() / 3) as int),
{
    let len = rgb.len();
    let n = len / 3;
    let mut out: Vec<u8> = Vec::new();
    let mut p: usize = 0;
    while p < n
        invariant
            len == rgb@.len(),
            n == len / 3,
            0 <= p <= n,
            out@.len() == 4 * p,
            forall|i: int|
                0 <= i < 4 * p ==> out@[i] == if i % 4 == 3 {
                    255u8
                } else {
                    rgb@[3 * (i / 4) + i % 4]
                },
        decreases n - p,
    {
        assert(3 * p + 2 < len) by (nonlinear_arith)
            requires
                p < n,
                n == len / 3,
        ;
        out.push(rgb[3 * p]);
        out.push(rgb[3 * p + 1]);
        out.push(rgb[3 * p + 2]);
        out.push(255u8);
        proof {
            assert forall|i: int| 0 <= i < 4 * p + 4 implies out@[i] == if i % 4 == 3 {
                255u8
            } else {
                rgb@[3 * (i / 4) + i % 4]
            } by {
                if i >= 4 * p {
                    assert(i / 4 == p as int && i % 4 == i - 4 * p) by (nonlinear_arith)
                        requires
                            4 * p <= i < 4 * p + 4,
                    ;
                }
            }
        }
        p = p + 1;
    }
    proof {
        assert(out@ =~= rgba_of_rgb(rgb@, (rgb@.len() / 3) as int));
    }
    out
}

/// Adding an opaque alpha channel and dropping it again gives back the RGB
/// bytes of every whole pixel; the added alpha bytes are all 255.
pub proof fn lemma_alpha_round_trip(rgb: Seq<u8>)
    ensures
        rgb_of_rgba(rgba_of_rgb(rgb, (rgb.len() / 3) as int), (rgb.len() / 3) as int) =~= rgb.take(
            3 * (rgb.len() / 3) as int,
        ),
        forall|p: int|
            0 <= p < rgb.len() / 3 ==> #[trigger] rgba_of_rgb(rgb, (rgb.len() / 3) as int)[4 * p + 3] == 255u8,
{
    let n = (rgb.len() / 3) as int;
    let rgba = rgba_of_rgb(rgb, n);
    assert(3 * n <= rgb.len()) by (nonlinear_arith)
        requires
            n == rgb.len() / 3,
    ;
    assert forall|i: int| 0 <= i < 3 * n implies #[trigger] rgb_of_rgba(rgba, n)[i] == rgb[i] by {
        let q = i / 3;
        let r = i % 3;
        assert(0 <= q < n && 0 <= r < 3 && i == 3 * q + r) by (nonlinear_arith)
            requires
                0 <= i < 3 * n,
                q == i / 3,
                r == i % 3,
        ;
        assert((4 * q + r) / 4 == q && (4 * q + r) % 4 == r && 0 <= 4 * q + r < 4 * n) by (nonlinear_arith)
            requires
                0 <= q < n,
                0 <= r < 3,
        ;
    }
    assert forall|p: int| 0 <= p < n implies #[trigger] rgba[4 * p + 3] == 255u8 by {
        assert((4 * p + 3) % 4 == 3 && 0 <= 4 * p + 3 < 4 * n) by (nonlinear_arith)
            requires
                0 <= p < n,
        ;
    }
}

/// A size within the limits stays within them when either side shrinks,
/// and raising the limits never rejects a size they admitted.
pub proof fn lemma_admits_monotone(l: DecodeLimits, m: DecodeLimits, w: u32, h: u32, w2: u32, h2: u32)
    requires
        w2 <= w,
        h2 <= h,
        l.max_dimension <= m.max_dimension,
        l.max_pixels <= m.max_pixels,
    ensures
        l.spec_admits(w, h) ==> l.spec_admits(w2, h2),
        l.spec_admits(w, h) ==> m.spec_admits(w, h),
{
    assert((w2 as int) * (h2 as int) <= (w as int) * (h as int)) by (nonlinear_arith)
        requires
            w2 <= w,
            h2 <= h,
            w2 >= 0,
            h2 >= 0,
    ;
}

} // verus!
