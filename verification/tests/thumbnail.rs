use ytthumb::codec::{decode_bytes, encode};
use ytthumb::resize::compute_fill_dimensions;
use ytthumb::sampling::SamplingFilter;
use ytthumb::{
    generate_thumbnail, run, ImageFormat, ThumbError, YtImage, YT_THUMB_RECOMMENDED_HEIGHT,
    YT_THUMB_RECOMMENDED_WIDTH,
};

fn solid_image(width: u32, height: u32, rgba: [u8; 4]) -> YtImage {
    let mut pixels = Vec::new();
    for _ in 0..(width as usize * height as usize) {
        pixels.extend_from_slice(&rgba);
    }
    YtImage::new(pixels, width, height).unwrap()
}

fn counting_image(width: u32, height: u32) -> YtImage {
    let mut pixels = Vec::new();
    for i in 0..(width as usize * height as usize * 4) {
        pixels.push((i % 251) as u8);
    }
    YtImage::new(pixels, width, height).unwrap()
}

#[test]
fn pixel_buffer_rejects_too_few_bytes() {
    let r = YtImage::new(vec![0u8; 7], 1, 2);
    assert!(matches!(r, Err(ThumbError::DimensionMismatch)));
}

#[test]
fn pixel_buffer_rejects_too_many_bytes() {
    let r = YtImage::new(vec![0u8; 9], 1, 2);
    assert!(matches!(r, Err(ThumbError::DimensionMismatch)));
}

#[test]
fn pixel_buffer_accepts_exact_byte_count() {
    let img = YtImage::new(vec![0u8; 8], 1, 2).unwrap();
    assert_eq!(img.width, 1);
    assert_eq!(img.height, 2);
    assert_eq!(img.raw_pixels.len(), 8);
}

#[test]
fn pixel_buffer_to_bytes_returns_pixels() {
    let img = counting_image(3, 2);
    assert_eq!(img.to_bytes(), img.raw_pixels);
}

#[test]
fn resizer_rejects_zero_width() {
    let img = solid_image(4, 4, [1, 2, 3, 4]);
    let r = generate_thumbnail(&img, 0, 720, SamplingFilter::Nearest);
    assert!(matches!(r, Err(ThumbError::InvalidDimensions)));
}

#[test]
fn resizer_rejects_zero_height() {
    let img = solid_image(4, 4, [1, 2, 3, 4]);
    let r = generate_thumbnail(&img, 1280, 0, SamplingFilter::Lanczos3);
    assert!(matches!(r, Err(ThumbError::InvalidDimensions)));
}

#[test]
fn resizer_output_has_exact_byte_count() {
    let img = counting_image(10, 7);
    let thumb = generate_thumbnail(&img, 20, 10, SamplingFilter::Triangle).unwrap();
    assert_eq!(thumb.width, 20);
    assert_eq!(thumb.height, 10);
    assert_eq!(thumb.raw_pixels.len(), 20 * 10 * 4);
}

#[test]
fn resizer_is_deterministic() {
    let img = counting_image(33, 21);
    let a = generate_thumbnail(&img, 16, 9, SamplingFilter::Lanczos3).unwrap();
    let b = generate_thumbnail(&img, 16, 9, SamplingFilter::Lanczos3).unwrap();
    assert_eq!(a.width, b.width);
    assert_eq!(a.height, b.height);
    assert_eq!(a.raw_pixels, b.raw_pixels);
}

#[test]
fn resizer_never_letterboxes() {
    // A solid opaque source of any aspect ratio must fill the whole target:
    // no transparent or empty border pixel may appear in the output.
    let img = solid_image(100, 100, [200, 10, 30, 255]);
    let thumb = generate_thumbnail(
        &img,
        YT_THUMB_RECOMMENDED_WIDTH,
        YT_THUMB_RECOMMENDED_HEIGHT,
        SamplingFilter::Nearest,
    )
    .unwrap();
    assert_eq!(thumb.width, 1280);
    assert_eq!(thumb.height, 720);
    for pixel in thumb.raw_pixels.chunks(4) {
        assert_eq!(pixel, [200, 10, 30, 255]);
    }
}

#[test]
fn resizer_upscales_a_single_pixel() {
    let img = YtImage::new(vec![9, 8, 7, 255], 1, 1).unwrap();
    let thumb = generate_thumbnail(&img, 2, 2, SamplingFilter::Nearest).unwrap();
    assert_eq!(thumb.raw_pixels.len(), 16);
    for pixel in thumb.raw_pixels.chunks(4) {
        assert_eq!(pixel, [9, 8, 7, 255]);
    }
}

#[test]
fn fill_dimensions_crop_vertical_for_wide_target() {
    // 3000x2000 source: the width ratio governs, the height overshoots and is
    // cropped: floor(2000 * 1280 / 3000) = 853.
    assert_eq!(compute_fill_dimensions(3000, 2000, 1280, 720), (1280, 853));
}

#[test]
fn fill_dimensions_scale_factor_two() {
    // 640x480 source: scale factor max(1280/640, 720/480) = 2, scaled height
    // 960 > 720 is cropped on the vertical axis.
    assert_eq!(compute_fill_dimensions(640, 480, 1280, 720), (1280, 960));
}

#[test]
fn png_round_trip_is_lossless() {
    let img = counting_image(5, 3);
    let bytes = encode(&img, ImageFormat::Png).unwrap();
    assert_ne!(bytes, img.raw_pixels);
    let back = decode_bytes(&bytes).unwrap();
    assert_eq!(back.width, 5);
    assert_eq!(back.height, 3);
    assert_eq!(back.raw_pixels, img.raw_pixels);
}

#[test]
fn jpeg_round_trip_keeps_dimensions() {
    let img = counting_image(9, 5);
    let bytes = encode(&img, ImageFormat::Jpeg).unwrap();
    let back = decode_bytes(&bytes).unwrap();
    assert_eq!(back.width, 9);
    assert_eq!(back.height, 5);
}

#[test]
fn encode_rejects_mismatched_buffer() {
    let img = YtImage {
        raw_pixels: vec![0u8; 5],
        width: 2,
        height: 2,
    };
    let r = encode(&img, ImageFormat::Png);
    assert!(matches!(r, Err(ThumbError::EncodeError)));
}

#[test]
fn encode_rejects_zero_dimension() {
    let img = YtImage {
        raw_pixels: Vec::new(),
        width: 0,
        height: 4,
    };
    let r = encode(&img, ImageFormat::Jpeg);
    assert!(matches!(r, Err(ThumbError::EncodeError)));
}

#[test]
fn jpeg_rejects_oversized_dimensions() {
    let img = solid_image(65536, 1, [1, 2, 3, 255]);
    let r = encode(&img, ImageFormat::Jpeg);
    assert!(matches!(r, Err(ThumbError::EncodeError)));
    assert!(encode(&img, ImageFormat::Png).is_ok());
}

#[test]
fn decode_rejects_garbage() {
    let r = decode_bytes(&b"this is not an image".to_vec());
    assert!(matches!(r, Err(ThumbError::UnsupportedFormat)));
}

#[test]
fn decode_rejects_empty_input() {
    let r = decode_bytes(&Vec::new());
    assert!(r.is_err());
}

#[test]
fn decode_rejects_truncated_png() {
    let img = solid_image(16, 16, [1, 2, 3, 255]);
    let mut bytes = encode(&img, ImageFormat::Png).unwrap();
    bytes.truncate(bytes.len() / 2);
    let r = decode_bytes(&bytes);
    assert!(matches!(r, Err(ThumbError::CorruptData)));
}

#[test]
fn pipeline_scenario_large_png() {
    // A 3000x2000 PNG source with Lanczos3 and Png output: the result is an
    // exactly 1280x720 PNG, cropped on the vertical axis.
    let img = solid_image(3000, 2000, [12, 34, 56, 255]);
    let source = encode(&img, ImageFormat::Png).unwrap();
    let out = run(&source, SamplingFilter::Lanczos3, ImageFormat::Png).unwrap();
    let thumb = decode_bytes(&out).unwrap();
    assert_eq!(thumb.width, 1280);
    assert_eq!(thumb.height, 720);
}

#[test]
fn pipeline_scenario_small_jpeg() {
    // A 640x480 JPEG source with Nearest and Jpeg output: the result is an
    // exactly 1280x720 JPEG.
    let img = solid_image(640, 480, [90, 80, 70, 255]);
    let source = encode(&img, ImageFormat::Jpeg).unwrap();
    let out = run(&source, SamplingFilter::Nearest, ImageFormat::Jpeg).unwrap();
    let thumb = decode_bytes(&out).unwrap();
    assert_eq!(thumb.width, 1280);
    assert_eq!(thumb.height, 720);
}

#[test]
fn pipeline_rejects_unreadable_source() {
    let r = run(
        &b"no image here".to_vec(),
        SamplingFilter::Lanczos3,
        ImageFormat::Png,
    );
    assert!(matches!(r, Err(ThumbError::UnsupportedFormat)));
}

#[test]
fn format_tokens_round_trip() {
    assert_eq!(ImageFormat::Png.token(), "png");
    assert_eq!(ImageFormat::Jpeg.token(), "jpeg");
    assert_eq!(ImageFormat::from_token("png"), Some(ImageFormat::Png));
    assert_eq!(ImageFormat::from_token("jpeg"), Some(ImageFormat::Jpeg));
    assert_eq!(ImageFormat::from_token("jpg"), Some(ImageFormat::Jpeg));
    assert_eq!(ImageFormat::from_token("webp"), None);
}

#[test]
fn filter_tokens_round_trip() {
    let filters = [
        SamplingFilter::Nearest,
        SamplingFilter::Triangle,
        SamplingFilter::CatmullRom,
        SamplingFilter::Gaussian,
        SamplingFilter::Lanczos3,
    ];
    for filter in filters {
        assert_eq!(SamplingFilter::from_token(filter.token()), Some(filter));
    }
    assert_eq!(
        SamplingFilter::from_token("catmullrom"),
        Some(SamplingFilter::CatmullRom)
    );
    assert_eq!(SamplingFilter::from_token("cubic"), None);
}

#[test]
fn error_descriptions_name_each_failure() {
    assert_eq!(ThumbError::NotFound.describe(), "source image not found");
    assert_eq!(
        ThumbError::DimensionMismatch.describe(),
        "pixel count does not match the dimensions"
    );
    assert_eq!(
        ThumbError::InvalidDimensions.describe(),
        "invalid target dimensions"
    );
}
