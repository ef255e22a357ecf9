use image_compressor::error::CompressError;
use image_compressor::raster::DecodedImage;
use std::io::Cursor;

/// Pixel bytes that no codec compresses well.
fn noise(width: u32, height: u32) -> Vec<u8> {
    let mut state: u32 = 0x2545_F491;
    let mut bytes = Vec::new();
    for _ in 0..(3 * width as usize * height as usize) {
        state = state.wrapping_mul(1_664_525).wrapping_add(1_013_904_223);
        bytes.push((state >> 24) as u8);
    }
    bytes
}

fn png_of(image: image::DynamicImage) -> Vec<u8> {
    let mut out = Cursor::new(Vec::new());
    image.write_to(&mut out, image::ImageOutputFormat::Png).unwrap();
    out.into_inner()
}

#[test]
fn new_takes_three_bytes_for_every_pixel() {
    let pixels: Vec<u8> = (0..24).collect();
    let image = DecodedImage::new(4, 2, pixels.clone()).unwrap();
    assert_eq!(image.width(), 4);
    assert_eq!(image.height(), 2);
    assert_eq!(image.pixels(), &pixels);
}

#[test]
fn new_rejects_empty_images_and_wrong_lengths() {
    assert!(DecodedImage::new(0, 2, Vec::new()).is_none());
    assert!(DecodedImage::new(2, 0, Vec::new()).is_none());
    assert!(DecodedImage::new(0, 0, Vec::new()).is_none());
    assert!(DecodedImage::new(2, 2, vec![0u8; 11]).is_none());
    assert!(DecodedImage::new(2, 2, vec![0u8; 13]).is_none());
    assert!(DecodedImage::new(2, 2, vec![0u8; 12]).is_some());
    assert!(DecodedImage::new(u32::MAX, u32::MAX, vec![0u8; 12]).is_none());
}

#[test]
fn decode_reads_a_png() {
    let pixels: Vec<u8> = (10..28).collect();
    let source = image::RgbImage::from_raw(3, 2, pixels.clone()).unwrap();
    let decoded = DecodedImage::decode(&png_of(image::DynamicImage::ImageRgb8(source))).unwrap();
    assert_eq!(decoded.width(), 3);
    assert_eq!(decoded.height(), 2);
    assert_eq!(decoded.pixels(), &pixels);
}

#[test]
fn decode_flattens_grey_and_alpha_to_rgb() {
    let grey = image::GrayImage::from_raw(2, 1, vec![7, 200]).unwrap();
    let decoded = DecodedImage::decode(&png_of(image::DynamicImage::ImageLuma8(grey))).unwrap();
    assert_eq!(decoded.pixels(), &vec![7, 7, 7, 200, 200, 200]);

    let rgba = image::RgbaImage::from_raw(1, 2, vec![1, 2, 3, 255, 4, 5, 6, 0]).unwrap();
    let decoded = DecodedImage::decode(&png_of(image::DynamicImage::ImageRgba8(rgba))).unwrap();
    assert_eq!((decoded.width(), decoded.height()), (1, 2));
    assert_eq!(decoded.pixels(), &vec![1, 2, 3, 4, 5, 6]);
}

#[test]
fn decode_reads_a_jpeg() {
    let source = DecodedImage::new(40, 24, noise(40, 24)).unwrap();
    let jpeg = source.encode(90).unwrap();
    let decoded = DecodedImage::decode(&jpeg).unwrap();
    assert_eq!((decoded.width(), decoded.height()), (40, 24));
    assert_eq!(decoded.pixels().len(), 3 * 40 * 24);
}

#[test]
fn decode_rejects_what_is_no_image() {
    assert_eq!(DecodedImage::decode(b"").err(), Some(CompressError::DecodeFailed));
    assert_eq!(DecodedImage::decode(b"not an image").err(), Some(CompressError::DecodeFailed));
    // A PNG signature with nothing after it.
    let truncated = [0x89, b'P', b'N', b'G', 0x0D, 0x0A, 0x1A, 0x0A];
    assert_eq!(DecodedImage::decode(&truncated).err(), Some(CompressError::DecodeFailed));
}

#[test]
fn resize_fits_the_box_and_keeps_the_aspect_ratio() {
    let image = DecodedImage::new(400, 300, noise(400, 300)).unwrap();
    let smaller = image.resize(150, 150);
    assert_eq!((smaller.width(), smaller.height()), (150, 113));
    assert_eq!(smaller.pixels().len(), 3 * 150 * 113);

    let portrait = DecodedImage::new(30, 200, noise(30, 200)).unwrap();
    let smaller = portrait.resize(150, 150);
    assert_eq!((smaller.width(), smaller.height()), (23, 150));
}

#[test]
fn resize_to_the_same_dimensions_keeps_the_pixels() {
    let pixels = noise(9, 7);
    let image = DecodedImage::new(9, 7, pixels.clone()).unwrap();
    let same = image.resize(9, 7);
    assert_eq!((same.width(), same.height()), (9, 7));
    assert_eq!(same.pixels(), &pixels);
}

#[test]
fn resize_averages_neighbouring_pixels() {
    // Two pixels, black and white, become one grey pixel.
    let image = DecodedImage::new(2, 1, vec![0, 0, 0, 255, 255, 255]).unwrap();
    let one = image.resize(1, 1);
    assert_eq!((one.width(), one.height()), (1, 1));
    assert_eq!(one.pixels(), &vec![128, 128, 128]);
}

#[test]
fn resize_never_goes_below_one_pixel() {
    let image = DecodedImage::new(8, 4, noise(8, 4)).unwrap();
    let tiny = image.resize(0, 3);
    assert_eq!((tiny.width(), tiny.height()), (1, 1));
    assert_eq!(tiny.pixels().len(), 3);
}

#[test]
fn encode_writes_a_jpeg_stream() {
    let image = DecodedImage::new(32, 16, noise(32, 16)).unwrap();
    let jpeg = image.encode(80).unwrap();
    assert_eq!(&jpeg[..2], &[0xFF, 0xD8]);
    assert_eq!(&jpeg[jpeg.len() - 2..], &[0xFF, 0xD9]);
    assert_ne!(&jpeg, image.pixels());
    let back = image::load_from_memory(&jpeg).unwrap();
    assert_eq!((back.width(), back.height()), (32, 16));
}

#[test]
fn encode_grows_with_the_quality() {
    let image = DecodedImage::new(64, 64, noise(64, 64)).unwrap();
    let low = image.encode(5).unwrap();
    let mid = image.encode(50).unwrap();
    let high = image.encode(100).unwrap();
    assert!(low.len() < mid.len());
    assert!(mid.len() < high.len());
}

#[test]
fn encode_clamps_the_quality() {
    let image = DecodedImage::new(16, 16, noise(16, 16)).unwrap();
    assert_eq!(image.encode(0), image.encode(1));
    assert_eq!(image.encode(255), image.encode(100));
}

#[test]
fn encode_refuses_an_image_wider_than_a_jpeg_can_hold() {
    let image = DecodedImage::new(70_000, 1, vec![0u8; 210_000]).unwrap();
    assert_eq!(image.encode(50), None);
    let image = DecodedImage::new(65_535, 1, vec![0u8; 196_605]).unwrap();
    assert!(image.encode(50).is_some());
}

#[test]
fn resize_meets_one_side_of_the_box_and_keeps_the_proportions() {
    let sources = [(400u32, 300u32), (30, 200), (7, 7), (1, 50), (640, 1)];
    let boxes = [(150u32, 150u32), (100, 40), (3, 90), (1, 1), (300, 299)];
    for (width, height) in sources {
        let image = DecodedImage::new(width, height, noise(width, height)).unwrap();
        for (nwidth, nheight) in boxes {
            let out = image.resize(nwidth, nheight);
            let (w, h) = (out.width() as i64, out.height() as i64);
            assert!(w >= 1 && h >= 1);
            assert!(w <= nwidth as i64 && h <= nheight as i64);
            assert!(w == nwidth as i64 || h == nheight as i64);
            let longer = width.max(height) as i64;
            let skew = h * width as i64 - w * height as i64;
            assert!(-longer < skew && skew < longer);
            assert_eq!(out.pixels().len() as i64, 3 * w * h);
        }
    }
}

#[test]
fn encode_fails_exactly_above_the_longest_side_of_a_jpeg() {
    assert_eq!(image_compressor::codec::JPEG_MAX_DIMENSION, 65_535);
    let tall = DecodedImage::new(1, 65_536, vec![0u8; 196_608]).unwrap();
    assert_eq!(tall.encode(50), None);
    let tall = DecodedImage::new(1, 65_535, vec![0u8; 196_605]).unwrap();
    assert!(tall.encode(50).is_some());
    let wide = DecodedImage::new(65_536, 1, vec![0u8; 196_608]).unwrap();
    assert_eq!(wide.encode(5), None);
    assert_eq!(wide.encode(100), None);
}

#[test]
fn decoding_a_jpeg_twice_gives_the_same_pixels() {
    let source = DecodedImage::new(48, 40, noise(48, 40)).unwrap();
    let jpeg = source.encode(60).unwrap();
    let first = DecodedImage::decode(&jpeg).unwrap();
    let second = DecodedImage::decode(&jpeg).unwrap();
    assert_eq!(first.pixels(), second.pixels());
    assert_ne!(first.pixels(), &jpeg);
}
