use raster::{
    decode_file, decode_gif, decode_jpeg, decode_png, encode_gif, encode_png, image_from_pixels,
    rgb_to_rgba, Image, ImageFormat, RasterError,
};

fn png_stream(width: u32, height: u32, color: png::ColorType, depth: png::BitDepth, data: &[u8]) -> Vec<u8> {
    let mut out: Vec<u8> = Vec::new();
    {
        let mut encoder = png::Encoder::new(&mut out, width, height);
        encoder.set_color(color);
        encoder.set_depth(depth);
        let mut writer = encoder.write_header().unwrap();
        writer.write_image_data(data).unwrap();
        writer.finish().unwrap();
    }
    out
}

fn gif_stream(width: u16, height: u16, frames: &[Vec<u8>]) -> Vec<u8> {
    let mut encoder = gif::Encoder::new(Vec::new(), width, height, &[]).unwrap();
    for rgba in frames {
        let mut pixels = rgba.clone();
        let frame = gif::Frame::from_rgba(width, height, &mut pixels);
        encoder.write_frame(&frame).unwrap();
    }
    encoder.into_inner().unwrap()
}

fn jpeg_stream(width: u32, height: u32, rgb: &[u8]) -> Vec<u8> {
    let mut out: Vec<u8> = Vec::new();
    let mut encoder = image::codecs::jpeg::JpegEncoder::new_with_quality(&mut out, 100);
    encoder.encode(rgb, width, height, image::ExtendedColorType::Rgb8).unwrap();
    out
}

fn sample_2x2() -> Image {
    Image {
        width: 2,
        height: 2,
        bytes: vec![255, 0, 0, 255, 0, 255, 0, 128, 0, 0, 255, 0, 10, 20, 30, 200],
    }
}

fn is_decode(r: &Result<Image, RasterError>, format: ImageFormat) -> bool {
    matches!(r, Err(RasterError::Decode(f, _)) if *f == format)
}

#[test]
fn png_round_trip_reproduces_image() {
    let img = sample_2x2();
    let stream = encode_png(&img).unwrap();
    assert_eq!(&stream[1..4], b"PNG");
    assert_eq!(decode_png(&stream).unwrap(), img);
    assert_eq!(decode_file(&stream, ImageFormat::Png).unwrap(), img);
}

#[test]
fn png_round_trip_of_empty_row() {
    let img = Image { width: 5, height: 1, bytes: vec![7; 20] };
    let stream = encode_png(&img).unwrap();
    assert_eq!(decode_png(&stream).unwrap(), img);
}

#[test]
fn rgb_fixup_inserts_opaque_alpha() {
    let rgb = [10u8, 20, 30, 40, 50, 60, 70, 80, 90];
    assert_eq!(rgb_to_rgba(&rgb), vec![10, 20, 30, 255, 40, 50, 60, 255, 70, 80, 90, 255]);
}

#[test]
fn rgb_fixup_edge_cases() {
    assert_eq!(rgb_to_rgba(&[]), Vec::<u8>::new());
    assert_eq!(rgb_to_rgba(&[1, 2, 3, 4, 5]), vec![1, 2, 3, 255]);
}

#[test]
fn png_rgb_stream_decodes_to_rgba() {
    let rgb = [10u8, 20, 30, 40, 50, 60, 70, 80, 90];
    let stream = png_stream(1, 3, png::ColorType::Rgb, png::BitDepth::Eight, &rgb);
    let img = decode_png(&stream).unwrap();
    assert_eq!(img.width, 1);
    assert_eq!(img.height, 3);
    assert_eq!(img.bytes, vec![10, 20, 30, 255, 40, 50, 60, 255, 70, 80, 90, 255]);
}

#[test]
fn png_unsupported_layouts_are_refused() {
    let gray = png_stream(2, 2, png::ColorType::Grayscale, png::BitDepth::Eight, &[1, 2, 3, 4]);
    assert!(is_decode(&decode_png(&gray), ImageFormat::Png));
    let deep = png_stream(1, 1, png::ColorType::Rgba, png::BitDepth::Sixteen, &[0; 8]);
    assert!(is_decode(&decode_png(&deep), ImageFormat::Png));
}

#[test]
fn every_decode_keeps_the_length_invariant() {
    let png_img = decode_png(&png_stream(3, 2, png::ColorType::Rgb, png::BitDepth::Eight, &[9; 18])).unwrap();
    assert_eq!(png_img.bytes.len(), (png_img.width * png_img.height * 4) as usize);
    let gif_img = decode_gif(&gif_stream(3, 2, &[vec![50; 24]])).unwrap();
    assert_eq!(gif_img.bytes.len(), (gif_img.width * gif_img.height * 4) as usize);
    let jpeg_img = decode_jpeg(&jpeg_stream(3, 2, &[120; 18])).unwrap();
    assert_eq!(jpeg_img.bytes.len(), (jpeg_img.width * jpeg_img.height * 4) as usize);
}

#[test]
fn gif_decodes_first_frame_only() {
    let red: Vec<u8> = [255u8, 0, 0, 255].repeat(4);
    let blue: Vec<u8> = [0u8, 0, 255, 255].repeat(4);
    let stream = gif_stream(2, 2, &[red.clone(), blue]);
    let img = decode_gif(&stream).unwrap();
    assert_eq!((img.width, img.height), (2, 2));
    assert_eq!(img.bytes, red);
}

#[test]
fn gif_round_trip_of_opaque_pixels() {
    let img = Image {
        width: 2,
        height: 1,
        bytes: vec![1, 2, 3, 255, 200, 100, 50, 255],
    };
    let stream = encode_gif(&img).unwrap();
    assert_eq!(&stream[0..6], b"GIF89a");
    assert_eq!(decode_gif(&stream).unwrap(), img);
    assert_eq!(decode_file(&stream, ImageFormat::Gif).unwrap(), img);
}

#[test]
fn gif_without_frames_is_a_decode_error() {
    let mut stream = gif_stream(2, 2, &[]);
    assert!(is_decode(&decode_gif(&stream), ImageFormat::Gif));
    stream.clear();
    assert!(is_decode(&decode_gif(&stream), ImageFormat::Gif));
}

#[test]
fn gif_encoder_refuses_oversized_dimensions() {
    let img = Image { width: 70000, height: 0, bytes: Vec::new() };
    assert!(matches!(encode_gif(&img), Err(RasterError::Io(_))));
}

#[test]
fn empty_input_fails_for_every_format() {
    for format in [ImageFormat::Gif, ImageFormat::Jpeg, ImageFormat::Png] {
        assert!(is_decode(&decode_file(&[], format), format));
    }
}

#[test]
fn truncated_input_fails_for_every_format() {
    let png_full = encode_png(&sample_2x2()).unwrap();
    let gif_full = gif_stream(2, 2, &[vec![90; 16]]);
    let jpeg_full = jpeg_stream(4, 4, &[60; 48]);
    for (full, format) in [(png_full, ImageFormat::Png), (gif_full, ImageFormat::Gif), (jpeg_full, ImageFormat::Jpeg)] {
        let cut = &full[..full.len() / 2];
        assert!(is_decode(&decode_file(cut, format), format));
    }
}

#[test]
fn dimensions_match_the_header() {
    let png_img = decode_png(&png_stream(3, 2, png::ColorType::Rgba, png::BitDepth::Eight, &[4; 24])).unwrap();
    assert_eq!((png_img.width, png_img.height), (3, 2));
    let gif_img = decode_gif(&gif_stream(5, 1, &[vec![255; 20]])).unwrap();
    assert_eq!((gif_img.width, gif_img.height), (5, 1));
    let jpeg_img = decode_jpeg(&jpeg_stream(7, 3, &[30; 63])).unwrap();
    assert_eq!((jpeg_img.width, jpeg_img.height), (7, 3));
    assert!(jpeg_img.bytes.chunks(4).all(|p| p[3] == 255));
}

#[test]
fn wrong_format_tag_fails_in_the_named_decoder() {
    let stream = encode_png(&sample_2x2()).unwrap();
    assert!(is_decode(&decode_file(&stream, ImageFormat::Gif), ImageFormat::Gif));
    assert!(is_decode(&decode_file(&stream, ImageFormat::Jpeg), ImageFormat::Jpeg));
}

#[test]
fn pixels_are_copied_in_row_major_order() {
    let raw: Vec<u8> = (0u8..24).collect();
    let buffer = image::RgbaImage::from_raw(3, 2, raw.clone()).unwrap();
    let img = image_from_pixels(&image::DynamicImage::ImageRgba8(buffer)).unwrap();
    assert_eq!((img.width, img.height), (3, 2));
    assert_eq!(img.bytes, raw);
}

#[test]
fn rgb_pixels_gain_opaque_alpha_when_copied() {
    let buffer = image::RgbImage::from_raw(2, 1, vec![1, 2, 3, 4, 5, 6]).unwrap();
    let img = image_from_pixels(&image::DynamicImage::ImageRgb8(buffer)).unwrap();
    assert_eq!(img.bytes, vec![1, 2, 3, 255, 4, 5, 6, 255]);
}

#[test]
fn png_encoder_refuses_zero_dimensions() {
    let img = Image { width: 0, height: 3, bytes: Vec::new() };
    assert!(matches!(encode_png(&img), Err(RasterError::Io(_))));
}

#[test]
fn gif_encoder_accepts_sixteen_bit_dimensions() {
    let img = Image { width: 65535, height: 1, bytes: vec![0; 65535 * 4] };
    let stream = encode_gif(&img).unwrap();
    let back = decode_gif(&stream).unwrap();
    assert_eq!((back.width, back.height), (65535, 1));
}
