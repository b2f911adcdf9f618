//! End-to-end scenarios: the library's pixel buffer run through the image
//! crate's encoders and decoders, in memory.

use std::io::Cursor;

use image::{ExtendedColorType, ImageFormat};
use solid_image::plan::build_image;

fn encode(format: ImageFormat, width: &str, height: &str, hex: &str) -> Vec<u8> {
    let plan = build_image(width, height, hex).unwrap();
    let mut out = Cursor::new(Vec::new());
    image::write_buffer_with_format(
        &mut out,
        &plan.pixels,
        plan.width,
        plan.height,
        ExtendedColorType::Rgb8,
        format,
    )
    .unwrap();
    out.into_inner()
}

#[test]
fn png_two_by_one_red() {
    let bytes = encode(ImageFormat::Png, "2", "1", "FF0000");
    let decoded = image::load_from_memory_with_format(&bytes, ImageFormat::Png)
        .unwrap()
        .to_rgb8();
    assert_eq!(decoded.width(), 2);
    assert_eq!(decoded.height(), 1);
    for pixel in decoded.pixels() {
        assert_eq!(pixel.0, [255, 0, 0]);
    }
}

#[test]
fn bmp_three_by_three_green() {
    let bytes = encode(ImageFormat::Bmp, "3", "3", "00ff00");
    let decoded = image::load_from_memory_with_format(&bytes, ImageFormat::Bmp)
        .unwrap()
        .to_rgb8();
    assert_eq!(decoded.width(), 3);
    assert_eq!(decoded.height(), 3);
    for pixel in decoded.pixels() {
        assert_eq!(pixel.0, [0, 255, 0]);
    }
}

#[test]
fn every_pixel_matches_the_color() {
    let bytes = encode(ImageFormat::Png, "5", "4", "12abEF");
    let decoded = image::load_from_memory_with_format(&bytes, ImageFormat::Png)
        .unwrap()
        .to_rgb8();
    assert_eq!(decoded.width(), 5);
    assert_eq!(decoded.height(), 4);
    assert_eq!(decoded.pixels().count(), 20);
    for pixel in decoded.pixels() {
        assert_eq!(pixel.0, [0x12, 0xAB, 0xEF]);
    }
}

#[test]
fn encoding_twice_is_byte_identical() {
    let first = encode(ImageFormat::Png, "6", "2", "0a0b0c");
    let second = encode(ImageFormat::Png, "6", "2", "0a0b0c");
    assert_eq!(first, second);
    let first_bmp = encode(ImageFormat::Bmp, "6", "2", "0a0b0c");
    let second_bmp = encode(ImageFormat::Bmp, "6", "2", "0a0b0c");
    assert_eq!(first_bmp, second_bmp);
}
