use std::io::Cursor;

use image::{DynamicImage, ImageFormat, Rgba, RgbaImage};
use scene_bot::asset::AssetFormat;
use scene_bot::resize::{get_resized_image, ResizeError};
use scene_bot::sizing::ImageSize;

fn png_bytes(w: u32, h: u32) -> Vec<u8> {
    let mut img = RgbaImage::new(w, h);
    for (x, y, p) in img.enumerate_pixels_mut() {
        *p = Rgba([(x % 256) as u8, (y % 256) as u8, 100, 255]);
    }
    let mut buf = Vec::new();
    DynamicImage::ImageRgba8(img)
        .write_to(&mut Cursor::new(&mut buf), ImageFormat::Png)
        .unwrap();
    buf
}

#[test]
fn resize_stretches_to_exact_tier_dimensions() {
    // A 512x256 input lands on exactly 128x128, whatever the aspect ratio.
    let input = png_bytes(512, 256);
    let asset = get_resized_image(input, AssetFormat::Png, &ImageSize::Medium).unwrap();
    assert!(matches!(asset.format, AssetFormat::Png));
    assert_eq!(asset.filename, "resized.png");
    let out = image::load_from_memory(&asset.bytes).unwrap();
    assert_eq!((out.width(), out.height()), (128, 128));
}

#[test]
fn every_fixed_tier_yields_its_own_dimensions() {
    let cases = vec![
        (ImageSize::Tiny, 16u32),
        (ImageSize::Small, 64u32),
        (ImageSize::Medium, 128u32),
        (ImageSize::Large, 256u32),
        (ImageSize::ExtraLarge, 300u32),
    ];
    let input = png_bytes(50, 70);
    for (tier, side) in cases {
        let asset = get_resized_image(input.clone(), AssetFormat::Png, &tier).unwrap();
        let out = image::load_from_memory(&asset.bytes).unwrap();
        assert_eq!((out.width(), out.height()), (side, side));
    }
}

#[test]
fn auto_forwards_the_bytes_unchanged() {
    let input = png_bytes(50, 70);
    let asset =
        get_resized_image(input.clone(), AssetFormat::StaticWebpSource, &ImageSize::Auto).unwrap();
    assert_eq!(asset.bytes, input);
    assert!(matches!(asset.format, AssetFormat::StaticWebpSource));
    assert_eq!(asset.filename, "");
}

#[test]
fn corrupt_input_reports_a_decode_error() {
    let r = get_resized_image(vec![1, 2, 3, 4], AssetFormat::Png, &ImageSize::Medium);
    assert!(matches!(r, Err(ResizeError::UnsupportedOrCorruptImage)));
}
