//! Pixel-layout transforms that bring decoded samples into RGBA order.

use crate::buffer::{dims_fit, Image, ImageFormat, RasterError, RasterResult};
use crate::codecs::{dims_of, picture_dimensions, picture_pixel, pixels_of};
use vstd::arithmetic::div_mod::lemma_fundamental_div_mod_converse;
use vstd::prelude::*;

verus! {

/// The RGBA stream for an RGB stream: each whole three-byte pixel followed
/// by an opaque alpha byte; a trailing partial pixel is dropped.
pub open spec fn rgba_of_rgb(rgb: Seq<u8>) -> Seq<u8> {
    Seq::new(
        (rgb.len() / 3 * 4) as nat,
        |i: int|
            if i % 4 == 3 {
                255u8
            } else {
                rgb[(i / 4) * 3 + i % 4]
            },
    )
}

/// Inserts an alpha byte of 255 after every RGB triplet, in one forward pass
/// over a buffer allocated once.
pub fn rgb_to_rgba(rgb: &[u8]) -> (r: Vec<u8>)
    ensures
        r@ == rgba_of_rgb(rgb@),
{
    let n: usize = rgb.len();
    let pixels: usize = n / 3;
    let cap: usize = if pixels <= usize::MAX / 4 {
        pixels * 4
    } else {
        0
    };
    let mut out: Vec<u8> = Vec::with_capacity(cap);
    let mut k: usize = 0;
    while k < pixels
        invariant
            n == rgb@.len(),
            pixels == n / 3,
            k <= pixels,
            out@ =~= rgba_of_rgb(rgb@).subrange(0, 4 * k as int),
        decreases pixels - k,
    {
        assert(3 * k + 2 < n) by (nonlinear_arith)
            requires
                k < pixels,
                pixels == n / 3,
        ;
        let base: usize = 3 * k;
        out.push(rgb[base]);
        out.push(rgb[base + 1]);
        out.push(rgb[base + 2]);
        out.push(255u8);
        k = k + 1;
        assert(out@ =~= rgba_of_rgb(rgb@).subrange(0, 4 * k as int));
    }
    out
}

/// The bytes of a `w` by `h` grid of four-byte pixels, rows top to bottom,
/// each row left to right.
pub open spec fn row_major(px: Map<(u32, u32), Seq<u8>>, w: nat, h: nat) -> Seq<u8> {
    Seq::new(
        w * h * 4,
        |i: int| px[(((i / 4) % (w as int)) as u32, ((i / 4) / (w as int)) as u32)][i % 4],
    )
}

/// Byte `c` of pixel `(x, y)` sits at `(y * w + x) * 4 + c` in row-major order.
pub proof fn lemma_row_major_index(
    px: Map<(u32, u32), Seq<u8>>,
    w: nat,
    h: nat,
    x: u32,
    y: u32,
    c: int,
)
    requires
        x < w,
        y < h,
        0 <= c < 4,
    ensures
        0 <= (y * w + x) * 4 + c < w * h * 4,
        row_major(px, w, h)[(y * w + x) * 4 + c] == px[(x, y)][c],
{
    let p: int = y * w + x;
    let i: int = p * 4 + c;
    assert(p < w * h) by (nonlinear_arith)
        requires
            x < w,
            y < h,
            p == y * w + x,
    ;
    assert(0 <= i < w * h * 4) by (nonlinear_arith)
        requires
            0 <= p < w * h,
            i == p * 4 + c,
            0 <= c < 4,
    ;
    lemma_fundamental_div_mod_converse(i, 4, p, c);
    assert(p == y * w + x);
    lemma_fundamental_div_mod_converse(p, w as int, y as int, x as int);
}

/// Copies a decoded picture into an `Image`, pixel by pixel in row-major
/// order; refused when the dimensions do not fit an `Image`.
pub fn image_from_pixels(src: &image::DynamicImage) -> (r: RasterResult<Image>)
    ensures
        dims_fit(dims_of(*src).0 as int, dims_of(*src).1 as int) ==> r is Ok,
        match r {
            Ok(img) => img.width == dims_of(*src).0 && img.height == dims_of(*src).1
                && img.bytes@ == row_major(
                pixels_of(*src),
                dims_of(*src).0 as nat,
                dims_of(*src).1 as nat,
            ) && img.wf(),
            Err(e) => !dims_fit(dims_of(*src).0 as int, dims_of(*src).1 as int) && e.is_decode_of(
                ImageFormat::Jpeg,
            ),
        },
{
    let (w, h) = picture_dimensions(src);
    if w > i32::MAX as u32 || h > i32::MAX as u32 {
        return Err(RasterError::Decode(ImageFormat::Jpeg, String::from_str("image dimensions are too large")));
    }
    let ghost px = pixels_of(*src);
    let ghost all = row_major(px, w as nat, h as nat);
    let mut bytes: Vec<u8> = Vec::new();
    let mut y: u32 = 0;
    while y < h
        invariant
            (w, h) == dims_of(*src),
            px == pixels_of(*src),
            all == row_major(px, w as nat, h as nat),
            y <= h,
            bytes@ =~= all.subrange(0, y * w * 4),
        decreases h - y,
    {
        let mut x: u32 = 0;
        while x < w
            invariant
                (w, h) == dims_of(*src),
                px == pixels_of(*src),
                all == row_major(px, w as nat, h as nat),
                y < h,
                x <= w,
                bytes@ =~= all.subrange(0, (y * w + x) * 4),
            decreases w - x,
        {
            let p = picture_pixel(src, x, y);
            let ghost start: int = (y * w + x) * 4;
            proof {
                lemma_row_major_index(px, w as nat, h as nat, x, y, 0);
                lemma_row_major_index(px, w as nat, h as nat, x, y, 1);
                lemma_row_major_index(px, w as nat, h as nat, x, y, 2);
                lemma_row_major_index(px, w as nat, h as nat, x, y, 3);
            }
            bytes.push(p[0]);
            bytes.push(p[1]);
            bytes.push(p[2]);
            bytes.push(p[3]);
            assert(bytes@ =~= all.subrange(0, start + 4));
            x = x + 1;
            assert(start + 4 == (y * w + x) * 4) by (nonlinear_arith)
                requires
                    start == (y * w + (x - 1)) * 4,
            ;
        }
        assert((y * w + w) * 4 == (y + 1) * w * 4) by (nonlinear_arith);
        y = y + 1;
    }
    assert(h * w * 4 == all.len()) by (nonlinear_arith)
        requires
            all.len() == w * h * 4,
    ;
    assert(bytes@ =~= all);
    Ok(Image { width: w as i32, height: h as i32, bytes })
}

} // verus!
