//! The calls into the gif, png and image crates. Each function here is
//! trusted: its contract states what the crate's source shows, and the
//! results that take a whole codec to describe are given names.

use vstd::prelude::*;

verus! {

/// The first frame of a GIF stream decoded with RGBA output: its width,
/// height and pixels; `None` when the stream is rejected or has no frame.
pub uninterp spec fn gif_first_frame(data: Seq<u8>) -> Option<(u16, u16, Seq<u8>)>;

/// The GIF stream that the gif crate writes for one RGBA frame.
pub uninterp spec fn gif_encoding(width: u16, height: u16, rgba: Seq<u8>) -> Seq<u8>;

/// The first frame of a PNG stream with no transformations: width, height,
/// color type code, bit depth and the frame buffer; `None` when the stream
/// is rejected.
pub uninterp spec fn png_first_frame(data: Seq<u8>) -> Option<(u32, u32, u8, u8, Seq<u8>)>;

/// The PNG stream that the png crate writes for 8-bit RGBA pixels.
pub uninterp spec fn png_encoding(width: u32, height: u32, rgba: Seq<u8>) -> Seq<u8>;

/// Whether the image crate accepts a stream as JPEG.
pub uninterp spec fn jpeg_decodes(data: Seq<u8>) -> bool;

/// The width and height that the image crate reports for a JPEG stream.
pub uninterp spec fn jpeg_dims(data: Seq<u8>) -> (u32, u32);

/// The width and height of a decoded picture of the image crate.
pub uninterp spec fn dims_of(img: image::DynamicImage) -> (u32, u32);

/// The pixels of a decoded picture of the image crate, each converted to
/// four RGBA bytes, keyed by column and row.
pub uninterp spec fn pixels_of(img: image::DynamicImage) -> Map<(u32, u32), Seq<u8>>;

#[verifier::external_type_specification]
#[verifier::external_body]
pub struct ExDynamicImage(image::DynamicImage);

/// Relies on gif's `DecodeOptions::read_info` with `ColorOutput::RGBA`,
/// `Decoder::next_frame_info` and `Decoder::read_into_buffer`: reads the
/// header and the first frame only. An empty stream fails at the header.
#[verifier::external_body]
pub(crate) fn gif_read_first_frame(data: &[u8]) -> (r: Result<Option<(u16, u16, Vec<u8>)>, String>)
    ensures
        match r {
            Ok(Some((w, h, px))) => gif_first_frame(data@) == Some((w, h, px@)),
            _ => gif_first_frame(data@) is None,
        },
        data@.len() == 0 ==> r is Err,
{
    let mut options = gif::DecodeOptions::new();
    options.set_color_output(gif::ColorOutput::RGBA);
    let mut reader = options.read_info(data).map_err(|e| e.to_string())?;
    let (w, h) = match reader.next_frame_info().map_err(|e| e.to_string())? {
        Some(frame) => (frame.width, frame.height),
        None => return Ok(None),
    };
    let mut px = vec![0u8; reader.buffer_size()];
    reader.read_into_buffer(&mut px).map_err(|e| e.to_string())?;
    Ok(Some((w, h, px)))
}

/// Relies on gif's `Frame::from_rgba`, `Encoder::new`, `Encoder::write_frame`
/// and `Encoder::into_inner`: one frame, no global palette. `from_rgba`
/// panics unless the pixel count matches the dimensions, and always builds a
/// local palette of at most 256 colors, so writing to a `Vec` cannot fail.
#[verifier::external_body]
pub(crate) fn gif_encode_rgba(width: u16, height: u16, rgba: &[u8]) -> (r: Result<Vec<u8>, String>)
    requires
        rgba@.len() == width * height * 4,
    ensures
        r is Ok,
        r is Ok ==> r->Ok_0@ == gif_encoding(width, height, rgba@),
{
    let mut pixels = rgba.to_vec();
    let frame = gif::Frame::from_rgba(width, height, &mut pixels);
    let mut encoder = gif::Encoder::new(Vec::new(), frame.width, frame.height, &[])
        .map_err(|e| e.to_string())?;
    encoder.write_frame(&frame).map_err(|e| e.to_string())?;
    encoder.into_inner().map_err(|e| e.to_string())
}

/// Relies on png's `Decoder::read_info`, `Reader::output_buffer_size` and
/// `Reader::next_frame`: the header and the first frame, color type and bit
/// depth as the stream declares them. An empty stream fails at the header.
#[verifier::external_body]
pub(crate) fn png_read_first_frame(data: &[u8]) -> (r: Result<(u32, u32, u8, u8, Vec<u8>), String>)
    ensures
        match r {
            Ok((w, h, c, d, px)) => png_first_frame(data@) == Some((w, h, c, d, px@)),
            Err(_) => png_first_frame(data@) is None,
        },
        data@.len() == 0 ==> r is Err,
{
    let decoder = png::Decoder::new(std::io::Cursor::new(data));
    let mut reader = decoder.read_info().map_err(|e| e.to_string())?;
    let size = reader.output_buffer_size().ok_or(png::DecodingError::LimitsExceeded)
        .map_err(|e| e.to_string())?;
    let mut px = vec![0u8; size];
    let info = reader.next_frame(&mut px).map_err(|e| e.to_string())?;
    Ok((info.width, info.height, info.color_type as u8, info.bit_depth as u8, px))
}

/// Relies on png's `Encoder::new` with `ColorType::Rgba` and `BitDepth::Eight`,
/// `Encoder::write_header`, `Writer::write_image_data` and `Writer::finish`.
/// With a `Vec` as the sink, the header refuses only a zero width or height;
/// `write_image_data` computes the expected length, so the data must match it.
#[verifier::external_body]
pub(crate) fn png_encode_rgba8(width: u32, height: u32, rgba: &[u8]) -> (r: Result<Vec<u8>, String>)
    requires
        rgba@.len() == width * height * 4,
    ensures
        width > 0 && height > 0 ==> r is Ok,
        r is Ok ==> r->Ok_0@ == png_encoding(width, height, rgba@),
{
    let mut out: Vec<u8> = Vec::new();
    let mut encoder = png::Encoder::new(&mut out, width, height);
    encoder.set_color(png::ColorType::Rgba);
    encoder.set_depth(png::BitDepth::Eight);
    let mut writer = encoder.write_header().map_err(|e| e.to_string())?;
    writer.write_image_data(rgba).map_err(|e| e.to_string())?;
    writer.finish().map_err(|e| e.to_string())?;
    Ok(out)
}

/// Relies on image's `load_from_memory_with_format` with `ImageFormat::Jpeg`:
/// whether it succeeds, and the picture's dimensions, depend on the bytes
/// alone. An empty stream has no start-of-image marker and is rejected.
#[verifier::external_body]
pub(crate) fn jpeg_load(data: &[u8]) -> (r: Result<image::DynamicImage, String>)
    ensures
        r is Ok == jpeg_decodes(data@),
        r is Ok ==> dims_of(r->Ok_0) == jpeg_dims(data@),
        data@.len() == 0 ==> r is Err,
{
    image::load_from_memory_with_format(data, image::ImageFormat::Jpeg).map_err(|e| e.to_string())
}

/// Relies on image's `GenericImageView::dimensions` for `DynamicImage`.
#[verifier::external_body]
pub(crate) fn picture_dimensions(img: &image::DynamicImage) -> (r: (u32, u32))
    ensures
        r == dims_of(*img),
{
    image::GenericImageView::dimensions(img)
}

/// Relies on image's `GenericImageView::get_pixel` for `DynamicImage`, which
/// converts the pixel to RGBA and panics outside the picture.
#[verifier::external_body]
pub(crate) fn picture_pixel(img: &image::DynamicImage, x: u32, y: u32) -> (r: [u8; 4])
    requires
        x < dims_of(*img).0,
        y < dims_of(*img).1,
    ensures
        r@ == pixels_of(*img)[(x, y)],
{
    image::GenericImageView::get_pixel(img, x, y).0
}

} // verus!
