use vstd::prelude::*;

use crate::{ImageFormat, ThumbError, YtImage};

verus! {

/// What decoding a byte string yields under the `image` crate's default
/// allocation limits: `None` where the bytes match no supported encoding or
/// the bitstream is invalid or over the limits, otherwise the width, the
/// height and the RGBA8 pixel bytes. Decoding is a function of the bytes alone.
pub uninterp spec fn decoded_rgba(bytes: Seq<u8>) -> Option<(u32, u32, Seq<u8>)>;

/// Whether a byte string is rejected as an unsupported encoding: no known
/// container signature opens it, or it uses a feature the decoders do not
/// support. Every other decoding failure is a broken bitstream.
pub uninterp spec fn unsupported_encoding(bytes: Seq<u8>) -> bool;

/// What encoding RGBA pixels as PNG yields, a function of the arguments alone.
pub uninterp spec fn png_encoding(pixels: Seq<u8>, w: u32, h: u32) -> Seq<u8>;

/// What encoding RGBA pixels as JPEG yields, a function of the arguments alone.
pub uninterp spec fn jpeg_encoding(pixels: Seq<u8>, w: u32, h: u32) -> Seq<u8>;

/// The serialization of RGBA pixels in the given format.
pub open spec fn format_encoding(format: ImageFormat, pixels: Seq<u8>, w: u32, h: u32) -> Seq<u8> {
    match format {
        ImageFormat::Png => png_encoding(pixels, w, h),
        ImageFormat::Jpeg => jpeg_encoding(pixels, w, h),
    }
}

/// Decoding reserves the decoded image up front against the `image` crate's
/// default allocation budget of 512 MiB and draws its working buffers from the
/// rest. An image of at most this many pixels takes at most half the budget as
/// RGBA bytes, leaving the decoder at least as much again to work in, so its
/// own encodings of such an image decode again.
pub const DECODE_PIXEL_BUDGET: u32 = 64 * 1024 * 1024;

/// Relies on `image::load_from_memory` (with no decoding hooks registered and
/// its default limits): the encoding is detected from the bytes alone, and a
/// decoded image converted to RGBA8 holds exactly `width * height * 4` bytes.
/// An `Unsupported` error from it is what `unsupported_encoding` names; every
/// other error is a broken or over-limit bitstream.
#[verifier::external_body]
fn decode_rgba_from_memory(bytes: &Vec<u8>) -> (r: Result<YtImage, ThumbError>)
    ensures
        r is Ok ==> decoded_rgba(bytes@) == Some(
            (r->Ok_0.width, r->Ok_0.height, r->Ok_0.raw_pixels@),
        ),
        r is Ok ==> r->Ok_0.wf(),
        r is Err ==> decoded_rgba(bytes@) is None,
        r is Err ==> r->Err_0 == ThumbError::UnsupportedFormat || r->Err_0
            == ThumbError::CorruptData,
        r is Err ==> (r->Err_0 == ThumbError::UnsupportedFormat <==> unsupported_encoding(bytes@)),
{
    match image::load_from_memory(bytes.as_slice()) {
        Ok(img) => {
            let rgba = img.to_rgba8();
            let width = rgba.width();
            let height = rgba.height();
            Ok(YtImage { raw_pixels: rgba.into_raw(), width, height })
        },
        Err(image::ImageError::Unsupported(_)) => Err(ThumbError::UnsupportedFormat),
        Err(_) => Err(ThumbError::CorruptData),
    }
}

/// Decode a byte string into an RGBA pixel buffer, detecting the encoding from
/// the content. Succeeds exactly on bytes that decode to an image with
/// positive dimensions; `UnsupportedFormat` marks bytes no decoder accepts,
/// every other failure is `CorruptData`.
pub fn decode_bytes(bytes: &Vec<u8>) -> (r: Result<YtImage, ThumbError>)
    ensures
        r is Ok ==> r->Ok_0.wf() && r->Ok_0.width > 0 && r->Ok_0.height > 0,
        r is Ok ==> decoded_rgba(bytes@) == Some(
            (r->Ok_0.width, r->Ok_0.height, r->Ok_0.raw_pixels@),
        ),
        r is Err ==> r->Err_0 == ThumbError::UnsupportedFormat || r->Err_0
            == ThumbError::CorruptData,
        r is Err ==> (r->Err_0 == ThumbError::UnsupportedFormat <==> decoded_rgba(bytes@) is None
            && unsupported_encoding(bytes@)),
        decoded_rgba(bytes@) is None ==> r is Err,
        decoded_rgba(bytes@) matches Some((w, h, _)) && w > 0 && h > 0 ==> r is Ok,
        decoded_rgba(bytes@) matches Some((w, h, _)) && (w == 0 || h == 0) ==> r == Err::<
            YtImage,
            ThumbError,
        >(ThumbError::CorruptData),
{
    match decode_rgba_from_memory(bytes) {
        Ok(img) => {
            if img.width == 0 || img.height == 0 {
                Err(ThumbError::CorruptData)
            } else {
                Ok(img)
            }
        },
        Err(e) => Err(e),
    }
}

/// Relies on `image::codecs::png::PngEncoder::write_image` with RGBA8 input:
/// writing into memory it fails only for zero dimensions, which the
/// precondition rules out. PNG stores the dimensions and the RGBA samples
/// losslessly, so decoding its output within the decoder's allocation budget
/// yields the same width, height and pixel bytes.
#[verifier::external_body]
fn encode_png_rgba(pixels: &Vec<u8>, w: u32, h: u32) -> (r: Vec<u8>)
    requires
        pixels@.len() == w as int * h as int * 4,
        w > 0,
        h > 0,
    ensures
        r@ == png_encoding(pixels@, w, h),
        w as int * h as int <= DECODE_PIXEL_BUDGET as int ==> decoded_rgba(r@) == Some(
            (w, h, pixels@),
        ),
{
    let mut out: Vec<u8> = Vec::new();
    let enc = image::codecs::png::PngEncoder::new(&mut out);
    image::ImageEncoder::write_image(enc, pixels.as_slice(), w, h,
        image::ExtendedColorType::Rgba8).unwrap();
    out
}

/// Relies on `image::codecs::jpeg::JpegEncoder::write_image` after dropping the
/// alpha channel, which JPEG has no representation for: writing into memory it
/// fails exactly when a dimension exceeds 65535, JPEG's limit. JPEG stores the
/// dimensions exactly, so decoding its output within the decoder's allocation
/// budget yields the same width and height.
#[verifier::external_body]
fn encode_jpeg_rgba(pixels: &Vec<u8>, w: u32, h: u32) -> (r: Result<Vec<u8>, ThumbError>)
    requires
        pixels@.len() == w as int * h as int * 4,
        w > 0,
        h > 0,
    ensures
        w <= 65535 && h <= 65535 ==> r is Ok,
        r is Ok ==> w <= 65535 && h <= 65535,
        r is Ok ==> r->Ok_0@ == jpeg_encoding(pixels@, w, h),
        r is Ok && w as int * h as int <= DECODE_PIXEL_BUDGET as int ==> (decoded_rgba(r->Ok_0@)
            matches Some((dw, dh, _)) && dw == w && dh == h),
        r is Err ==> r->Err_0 == ThumbError::EncodeError,
{
    let buf: image::RgbaImage = image::ImageBuffer::from_raw(w, h, pixels.clone()).unwrap();
    let rgb = image::DynamicImage::ImageRgba8(buf).to_rgb8();
    let mut out: Vec<u8> = Vec::new();
    let enc = image::codecs::jpeg::JpegEncoder::new(&mut out);
    match image::ImageEncoder::write_image(enc, rgb.as_raw(), w, h,
        image::ExtendedColorType::Rgb8) {
        Ok(()) => Ok(out),
        Err(_) => Err(ThumbError::EncodeError),
    }
}

/// Serialize a pixel buffer in the requested format. A buffer that breaks the
/// dimension invariant, has a zero dimension, or (for JPEG) exceeds the
/// format's 65535 dimension limit is an `EncodeError`; every other buffer is
/// encoded. Decoding the result, within the decoder's allocation budget, gives
/// back the same dimensions; under the lossless `Png` it gives back the very
/// same pixel bytes, so encoding and decoding round-trip.
pub fn encode(img: &YtImage, format: ImageFormat) -> (r: Result<Vec<u8>, ThumbError>)
    ensures
        r is Ok <==> img.wf() && img.width > 0 && img.height > 0 && (format == ImageFormat::Jpeg
            ==> img.width <= 65535 && img.height <= 65535),
        r is Err ==> r->Err_0 == ThumbError::EncodeError,
        r is Ok ==> r->Ok_0@ == format_encoding(format, img.raw_pixels@, img.width, img.height),
        r is Ok && img.width as int * img.height as int <= DECODE_PIXEL_BUDGET as int ==> (
        decoded_rgba(r->Ok_0@) matches Some((dw, dh, _)) && dw == img.width && dh == img.height),
        r is Ok && format == ImageFormat::Png && img.width as int * img.height as int
            <= DECODE_PIXEL_BUDGET as int ==> decoded_rgba(r->Ok_0@) == Some(
            (img.width, img.height, img.raw_pixels@),
        ),
{
    proof {
        assert((img.width as int) * (img.height as int) * 4 <= u128::MAX as int)
            by (nonlinear_arith);
    }
    if img.raw_pixels.len() as u128 != img.width as u128 * img.height as u128 * 4 {
        return Err(ThumbError::EncodeError);
    }
    if img.width == 0 || img.height == 0 {
        return Err(ThumbError::EncodeError);
    }
    match format {
        ImageFormat::Png => Ok(encode_png_rgba(&img.raw_pixels, img.width, img.height)),
        ImageFormat::Jpeg => encode_jpeg_rgba(&img.raw_pixels, img.width, img.height),
    }
}

} // verus!
