//! Conversion between GIF, PNG and JPEG byte streams and one canonical
//! in-memory picture: width, height and interleaved 8-bit RGBA samples.

pub mod buffer;
pub mod fixup;
pub mod codecs;
pub mod endec;

pub use buffer::{Image, ImageFormat, RasterError, RasterResult};
pub use endec::{decode_file, decode_gif, decode_jpeg, decode_png, encode_gif, encode_png};
pub use fixup::{image_from_pixels, rgb_to_rgba};
