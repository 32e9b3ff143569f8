//! Decoding and encoding: from a format's byte stream to the canonical
//! `Image`, and back.

use crate::buffer::{dims_fit, image_from_rgba, is_rgba_of, Image, ImageFormat, RasterError, RasterResult};
use crate::codecs::{
    gif_encode_rgba, gif_encoding, gif_first_frame, gif_read_first_frame, jpeg_decodes, jpeg_dims, jpeg_load, png_encode_rgba8,
    png_encoding, png_first_frame, png_read_first_frame,
};
use crate::fixup::{image_from_pixels, rgb_to_rgba, rgba_of_rgb};
use vstd::prelude::*;

verus! {

/// PNG color type code of three-channel RGB.
pub const PNG_COLOR_RGB: u8 = 2;

/// PNG color type code of four-channel RGBA.
pub const PNG_COLOR_RGBA: u8 = 6;

/// The only PNG bit depth this library reads.
pub const PNG_DEPTH_EIGHT: u8 = 8;

/// The picture that a decode yields, as width, height and RGBA bytes, when
/// `w` by `h` with bytes `b` are acceptable.
pub open spec fn accepted(w: int, h: int, b: Seq<u8>) -> Option<(int, int, Seq<u8>)> {
    if dims_fit(w, h) && is_rgba_of(w, h, b) {
        Some((w, h, b))
    } else {
        None
    }
}

/// What decoding a GIF stream yields: its first frame, when the frame's
/// pixel count matches its dimensions.
pub open spec fn gif_outcome(data: Seq<u8>) -> Option<(int, int, Seq<u8>)> {
    match gif_first_frame(data) {
        Some((w, h, px)) => accepted(w as int, h as int, px),
        None => None,
    }
}

/// The RGBA bytes for a PNG frame buffer of color type `color`, when this
/// library reads that color type: 8-bit RGBA as it is, 8-bit RGB with an
/// opaque alpha inserted after each pixel.
pub open spec fn png_rgba(color: u8, depth: u8, px: Seq<u8>) -> Option<Seq<u8>> {
    if depth != PNG_DEPTH_EIGHT {
        None
    } else if color == PNG_COLOR_RGBA {
        Some(px)
    } else if color == PNG_COLOR_RGB {
        Some(rgba_of_rgb(px))
    } else {
        None
    }
}

/// What decoding a PNG stream yields.
pub open spec fn png_outcome(data: Seq<u8>) -> Option<(int, int, Seq<u8>)> {
    match png_first_frame(data) {
        Some((w, h, c, d, px)) => match png_rgba(c, d, px) {
            Some(b) => accepted(w as int, h as int, b),
            None => None,
        },
        None => None,
    }
}

/// `r` is the decode result that `outcome` describes, with errors tagged
/// with `format`.
pub open spec fn decoded_as(
    r: RasterResult<Image>,
    outcome: Option<(int, int, Seq<u8>)>,
    format: ImageFormat,
) -> bool {
    match r {
        Ok(img) => img.wf() && outcome == Some((img.width as int, img.height as int, img.bytes@)),
        Err(e) => outcome is None && e.is_decode_of(format),
    }
}

/// A PNG stream whose first frame is 8-bit RGBA with a well-formed image's
/// dimensions and bytes decodes to exactly that image: the decoder adds no
/// transform of its own to such a frame.
pub proof fn lemma_rgba8_frame_decodes_unchanged(img: Image, data: Seq<u8>)
    requires
        img.wf(),
        png_first_frame(data) == Some(
            (img.width as u32, img.height as u32, PNG_COLOR_RGBA, PNG_DEPTH_EIGHT, img.bytes@),
        ),
    ensures
        png_outcome(data) == Some((img.width as int, img.height as int, img.bytes@)),
{
}

/// A PNG stream whose first frame is 8-bit RGB with `w * h` three-byte
/// pixels decodes to those pixels, in order, each followed by an alpha of 255.
pub proof fn lemma_rgb8_frame_gains_alpha(data: Seq<u8>, w: u32, h: u32, rgb: Seq<u8>)
    requires
        png_first_frame(data) == Some((w, h, PNG_COLOR_RGB, PNG_DEPTH_EIGHT, rgb)),
        rgb.len() == 3 * w * h,
        dims_fit(w as int, h as int),
    ensures
        png_outcome(data) == Some((w as int, h as int, rgba_of_rgb(rgb))),
        rgba_of_rgb(rgb).len() == 4 * w * h,
        forall|k: int, c: int|
            0 <= k < w * h && 0 <= c < 3 ==> #[trigger] rgba_of_rgb(rgb)[4 * k + c] == rgb[3 * k + c],
        forall|k: int| 0 <= k < w * h ==> #[trigger] rgba_of_rgb(rgb)[4 * k + 3] == 255,
{
    let n: int = w * h;
    assert(rgb.len() == 3 * n) by (nonlinear_arith)
        requires
            rgb.len() == 3 * w * h,
            n == w * h,
    ;
    assert(rgb.len() / 3 == n);
    assert(rgba_of_rgb(rgb).len() == 4 * w * h) by (nonlinear_arith)
        requires
            rgba_of_rgb(rgb).len() == n * 4,
            n == w * h,
    ;
    assert forall|k: int, c: int| 0 <= k < n && 0 <= c < 3 implies #[trigger] rgba_of_rgb(rgb)[4 * k
        + c] == rgb[3 * k + c] by {
        assert((4 * k + c) / 4 == k);
        assert((4 * k + c) % 4 == c);
    }
    assert forall|k: int| 0 <= k < n implies #[trigger] rgba_of_rgb(rgb)[4 * k + 3] == 255 by {
        assert((4 * k + 3) % 4 == 3);
    }
}

/// Two GIF streams with the same first frame decode alike, whatever frames
/// follow it.
pub proof fn lemma_first_gif_frame_decides(a: Seq<u8>, b: Seq<u8>)
    requires
        gif_first_frame(a) == gif_first_frame(b),
    ensures
        gif_outcome(a) == gif_outcome(b),
{
}

/// Decodes the first frame of a GIF stream into RGBA; later frames are
/// never read.
pub fn decode_gif(data: &[u8]) -> (r: RasterResult<Image>)
    ensures
        decoded_as(r, gif_outcome(data@), ImageFormat::Gif),
        data@.len() == 0 ==> r is Err,
{
    match gif_read_first_frame(data) {
        Ok(Some((w, h, px))) => image_from_rgba(w as u32, h as u32, px, ImageFormat::Gif),
        Ok(None) => Err(RasterError::Decode(ImageFormat::Gif, String::from_str("the stream holds no frame"))),
        Err(msg) => Err(RasterError::Decode(ImageFormat::Gif, msg)),
    }
}

/// Decodes a PNG stream into RGBA. 8-bit RGB gets an opaque alpha byte
/// after each pixel; other color types and depths are refused.
pub fn decode_png(data: &[u8]) -> (r: RasterResult<Image>)
    ensures
        decoded_as(r, png_outcome(data@), ImageFormat::Png),
        data@.len() == 0 ==> r is Err,
{
    match png_read_first_frame(data) {
        Ok((w, h, color, depth, px)) => {
            if depth != PNG_DEPTH_EIGHT {
                Err(RasterError::Decode(ImageFormat::Png, String::from_str("unsupported bit depth")))
            } else if color == PNG_COLOR_RGBA {
                image_from_rgba(w, h, px, ImageFormat::Png)
            } else if color == PNG_COLOR_RGB {
                let rgba = rgb_to_rgba(px.as_slice());
                image_from_rgba(w, h, rgba, ImageFormat::Png)
            } else {
                Err(RasterError::Decode(ImageFormat::Png, String::from_str("unsupported color type")))
            }
        },
        Err(msg) => Err(RasterError::Decode(ImageFormat::Png, msg)),
    }
}

/// Whether a JPEG stream decodes to an `Image`: the image crate accepts it
/// and its dimensions fit.
pub open spec fn jpeg_accepted(data: Seq<u8>) -> bool {
    jpeg_decodes(data) && dims_fit(jpeg_dims(data).0 as int, jpeg_dims(data).1 as int)
}

/// Decodes a JPEG stream and copies its pixels, as RGBA, in row-major order.
pub fn decode_jpeg(data: &[u8]) -> (r: RasterResult<Image>)
    ensures
        r is Ok <==> jpeg_accepted(data@),
        r is Ok ==> r->Ok_0.width == jpeg_dims(data@).0 && r->Ok_0.height == jpeg_dims(data@).1,
        r is Ok ==> r->Ok_0.wf(),
        r is Err ==> r->Err_0.is_decode_of(ImageFormat::Jpeg),
        data@.len() == 0 ==> r is Err,
{
    match jpeg_load(data) {
        Ok(picture) => image_from_pixels(&picture),
        Err(msg) => Err(RasterError::Decode(ImageFormat::Jpeg, msg)),
    }
}

/// Decodes `data` with the decoder that `format` names; the stream itself
/// is not inspected to pick one.
pub fn decode_file(data: &[u8], format: ImageFormat) -> (r: RasterResult<Image>)
    ensures
        format == ImageFormat::Gif ==> decoded_as(r, gif_outcome(data@), format),
        format == ImageFormat::Png ==> decoded_as(r, png_outcome(data@), format),
        format == ImageFormat::Jpeg ==> (r is Ok <==> jpeg_accepted(data@)),
        format == ImageFormat::Jpeg && r is Ok ==> r->Ok_0.width == jpeg_dims(data@).0
            && r->Ok_0.height == jpeg_dims(data@).1,
        r is Ok ==> r->Ok_0.wf(),
        r is Err ==> r->Err_0.is_decode_of(format),
        data@.len() == 0 ==> r is Err,
{
    match format {
        ImageFormat::Gif => decode_gif(data),
        ImageFormat::Jpeg => decode_jpeg(data),
        ImageFormat::Png => decode_png(data),
    }
}

/// Encodes a well-formed image as a single-frame GIF. Dimensions beyond
/// the format's 16-bit range are refused.
pub fn encode_gif(image: &Image) -> (r: RasterResult<Vec<u8>>)
    requires
        image.wf(),
    ensures
        match r {
            Ok(out) => image.width <= u16::MAX && image.height <= u16::MAX && out@ == gif_encoding(
                image.width as u16,
                image.height as u16,
                image.bytes@,
            ),
            Err(e) => e is Io,
        },
        image.width <= u16::MAX && image.height <= u16::MAX ==> r is Ok,
        image.width > u16::MAX || image.height > u16::MAX ==> r is Err,
{
    if image.width > u16::MAX as i32 || image.height > u16::MAX as i32 {
        return Err(RasterError::Io(String::from_str("image dimensions exceed the GIF limit")));
    }
    match gif_encode_rgba(image.width as u16, image.height as u16, image.bytes.as_slice()) {
        Ok(out) => Ok(out),
        Err(msg) => Err(RasterError::Io(msg)),
    }
}

/// Encodes a well-formed image as an 8-bit RGBA PNG.
pub fn encode_png(image: &Image) -> (r: RasterResult<Vec<u8>>)
    requires
        image.wf(),
    ensures
        match r {
            Ok(out) => out@ == png_encoding(image.width as u32, image.height as u32, image.bytes@),
            Err(e) => e is Io,
        },
        image.width > 0 && image.height > 0 ==> r is Ok,
{
    match png_encode_rgba8(image.width as u32, image.height as u32, image.bytes.as_slice()) {
        Ok(out) => Ok(out),
        Err(msg) => Err(RasterError::Io(msg)),
    }
}

} // verus!
