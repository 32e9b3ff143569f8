//! The canonical image buffer, the format tag and the error type.

use vstd::prelude::*;

verus! {

/// The on-disk encodings this library reads or writes.
#[derive(Clone, Copy, Debug, PartialEq, Eq, Structural)]
pub enum ImageFormat {
    Gif,
    Jpeg,
    Png,
}

/// What can go wrong while decoding or encoding.
#[derive(Clone, Debug, PartialEq, Eq)]
pub enum RasterError {
    /// A byte stream could not be read or written; encoder failures land here too.
    Io(String),
    /// The format's parser rejected the stream, or it held no usable frame.
    Decode(ImageFormat, String),
}

pub type RasterResult<T> = Result<T, RasterError>;

/// A picture as `width * height` pixels in row-major order, each pixel four
/// bytes `[R, G, B, A]`.
#[derive(Clone, Debug, PartialEq, Eq)]
pub struct Image {
    pub width: i32,
    pub height: i32,
    pub bytes: Vec<u8>,
}

/// Whether `b` holds exactly `w * h` RGBA pixels.
pub open spec fn is_rgba_of(w: int, h: int, b: Seq<u8>) -> bool {
    0 <= w && 0 <= h && b.len() == w * h * 4
}

/// Whether dimensions of `w` by `h` can stand in an `Image`.
pub open spec fn dims_fit(w: int, h: int) -> bool {
    0 <= w <= i32::MAX && 0 <= h <= i32::MAX
}

impl RasterError {
    /// Whether this is a decode error tagged with `format`.
    pub open spec fn is_decode_of(&self, format: ImageFormat) -> bool {
        match self {
            RasterError::Decode(f, _) => *f == format,
            _ => false,
        }
    }
}

impl Image {
    /// The buffer's invariant: the byte count matches the dimensions.
    pub open spec fn wf(&self) -> bool {
        is_rgba_of(self.width as int, self.height as int, self.bytes@)
    }
}

/// Packs a decoded RGBA buffer into an `Image`, refusing it unless the
/// dimensions fit and the length is exactly `width * height * 4`.
pub fn image_from_rgba(width: u32, height: u32, bytes: Vec<u8>, format: ImageFormat) -> (r:
    RasterResult<Image>)
    ensures
        match r {
            Ok(img) => dims_fit(width as int, height as int) && is_rgba_of(
                width as int,
                height as int,
                bytes@,
            ) && img.width == width as int && img.height == height as int && img.bytes@
                == bytes@,
            Err(e) => !(dims_fit(width as int, height as int) && is_rgba_of(
                width as int,
                height as int,
                bytes@,
            )) && e.is_decode_of(format),
        },
        r is Ok ==> r->Ok_0.wf(),
{
    if width > i32::MAX as u32 || height > i32::MAX as u32 {
        return Err(RasterError::Decode(format, String::from_str("image dimensions are too large")));
    }
    let w = width as u64;
    let h = height as u64;
    assert(w * h <= 0x3fff_ffff_0000_0001) by (nonlinear_arith)
        requires
            w <= 0x7fff_ffff,
            h <= 0x7fff_ffff,
    ;
    let expected: u64 = w * h * 4;
    if bytes.len() as u64 != expected {
        return Err(RasterError::Decode(format, String::from_str("pixel data does not match the dimensions")));
    }
    Ok(Image { width: width as i32, height: height as i32, bytes })
}

} // verus!
