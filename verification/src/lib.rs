use vstd::prelude::*;

pub mod sampling;
pub mod resize;
pub mod codec;

verus! {

/// Relies on `str` equality from std: two string slices are equal exactly when
/// their character sequences are equal.
#[verifier::external_body]
pub(crate) fn str_eq(a: &str, b: &str) -> (r: bool)
    ensures
        r == (a@ == b@),
{
    a == b
}

/// Recommended width for YouTube thumbnails.
pub const YT_THUMB_RECOMMENDED_WIDTH: u32 = 1280;

/// Recommended height for YouTube thumbnails.
pub const YT_THUMB_RECOMMENDED_HEIGHT: u32 = 720;

/// The errors that the thumbnail pipeline can report, one variant per failure
/// condition of its stages.
#[derive(Clone, Copy, Debug, PartialEq, Eq, Structural)]
pub enum ThumbError {
    /// The source path did not resolve to a readable file.
    NotFound,
    /// The source bytes match no known image encoding.
    UnsupportedFormat,
    /// The source bytes match a known encoding but the bitstream is invalid.
    CorruptData,
    /// The requested target dimensions cannot be used for a resize.
    InvalidDimensions,
    /// The pixel data could not be serialized into the requested format.
    EncodeError,
    /// The output could not be written.
    IoError,
    /// A pixel buffer was built from a byte count that does not match its dimensions.
    DimensionMismatch,
}

impl ThumbError {
    /// A short fixed description of the error.
    pub open spec fn spec_describe(self) -> Seq<char> {
        match self {
            ThumbError::NotFound => "source image not found"@,
            ThumbError::UnsupportedFormat => "unsupported image format"@,
            ThumbError::CorruptData => "corrupt image data"@,
            ThumbError::InvalidDimensions => "invalid target dimensions"@,
            ThumbError::EncodeError => "could not encode the thumbnail"@,
            ThumbError::IoError => "could not write the thumbnail"@,
            ThumbError::DimensionMismatch => "pixel count does not match the dimensions"@,
        }
    }

    /// A short fixed description of the error.
    pub fn describe(&self) -> (r: &'static str)
        ensures
            r@ == self.spec_describe(),
    {
        match self {
            ThumbError::NotFound => "source image not found",
            ThumbError::UnsupportedFormat => "unsupported image format",
            ThumbError::CorruptData => "corrupt image data",
            ThumbError::InvalidDimensions => "invalid target dimensions",
            ThumbError::EncodeError => "could not encode the thumbnail",
            ThumbError::IoError => "could not write the thumbnail",
            ThumbError::DimensionMismatch => "pixel count does not match the dimensions",
        }
    }
}

/// Enum representing allowed formats for YouTube thumbnails.
/// These constraints are specified and taken from the
/// [Youtube Data API](https://developers.google.com/youtube/v3/docs/thumbnails/set) docs.
#[derive(Clone, Copy, Debug, PartialEq, Eq, Structural)]
pub enum ImageFormat {
    Png,
    Jpeg,
}

impl ImageFormat {
    /// The canonical lowercase serialization of the format.
    pub open spec fn spec_token(self) -> Seq<char> {
        match self {
            ImageFormat::Png => "png"@,
            ImageFormat::Jpeg => "jpeg"@,
        }
    }

    /// The canonical lowercase serialization of the format.
    pub fn token(self) -> (r: &'static str)
        ensures
            r@ == self.spec_token(),
    {
        match self {
            ImageFormat::Png => "png",
            ImageFormat::Jpeg => "jpeg",
        }
    }

    /// The format a recognized token names: `png`, and `jpeg` with its alias `jpg`.
    pub open spec fn spec_from_token(s: Seq<char>) -> Option<ImageFormat> {
        if s == "png"@ {
            Some(ImageFormat::Png)
        } else if s == "jpeg"@ || s == "jpg"@ {
            Some(ImageFormat::Jpeg)
        } else {
            None
        }
    }

    /// Parse a user-facing format token.
    pub fn from_token(s: &str) -> (r: Option<ImageFormat>)
        ensures
            r == ImageFormat::spec_from_token(s@),
    {
        if str_eq(s, "png") {
            Some(ImageFormat::Png)
        } else if str_eq(s, "jpeg") || str_eq(s, "jpg") {
            Some(ImageFormat::Jpeg)
        } else {
            None
        }
    }
}

/// Represents an image with raw pixel data in RGBA format.
///
/// The pixels are stored row-major, four bytes per pixel.
#[derive(Clone, Debug)]
pub struct YtImage {
    /// Raw image pixels represented as RGBA pixels.
    pub raw_pixels: Vec<u8>,

    /// The image's width.
    pub width: u32,

    /// The image's height.
    pub height: u32,
}

impl YtImage {
    /// The buffer invariant: exactly four bytes for each of `width * height` pixels.
    pub open spec fn wf(self) -> bool {
        self.raw_pixels@.len() == self.width as int * self.height as int * 4
    }

    /// Build a pixel buffer from raw bytes and dimensions. The byte count must be
    /// exactly `width * height * 4`; any other count is a `DimensionMismatch`.
    pub fn new(raw_pixels: Vec<u8>, width: u32, height: u32) -> (r: Result<YtImage, ThumbError>)
        ensures
            r is Ok <==> raw_pixels@.len() == width as int * height as int * 4,
            r is Ok ==> r->Ok_0 == (YtImage { raw_pixels, width, height }),
            r is Err ==> r->Err_0 == ThumbError::DimensionMismatch,
    {
        proof {
            assert((width as int) * (height as int) * 4 <= u128::MAX as int) by (nonlinear_arith);
        }
        if raw_pixels.len() as u128 == width as u128 * height as u128 * 4 {
            Ok(YtImage { raw_pixels, width, height })
        } else {
            Err(ThumbError::DimensionMismatch)
        }
    }

    /// Return the image pixels as a byte vector.
    pub fn to_bytes(&self) -> (r: Vec<u8>)
        ensures
            r@ == self.raw_pixels@,
    {
        let mut out: Vec<u8> = Vec::new();
        let mut i: usize = 0;
        while i < self.raw_pixels.len()
            invariant
                i <= self.raw_pixels@.len(),
                out@ == self.raw_pixels@.take(i as int),
            decreases self.raw_pixels@.len() - i,
        {
            out.push(self.raw_pixels[i]);
            i = i + 1;
            proof {
                assert(out@ =~= self.raw_pixels@.take(i as int));
            }
        }
        proof {
            assert(out@ =~= self.raw_pixels@);
        }
        out
    }
}

/// Generate a thumbnail with the specified target width and height.
///
/// The source is scaled by `max(width / source_width, height / source_height)`
/// with the chosen sampling filter, so that it covers the target box, and then
/// center-cropped to exactly `width x height` pixels. Succeeds exactly when the
/// target dimensions are positive and the scaled image stays within the machine
/// limits; a zero target dimension is an `InvalidDimensions` error, and a
/// target whose scaled image would overflow those limits is reported with the
/// same variant, since it too cannot be resized to.
pub fn generate_thumbnail(
    yt_img: &YtImage,
    width: u32,
    height: u32,
    sampling_filter: sampling::SamplingFilter,
) -> (r: Result<YtImage, ThumbError>)
    requires
        yt_img.wf(),
        yt_img.width > 0,
        yt_img.height > 0,
    ensures
        r is Ok <==> width > 0 && height > 0 && resize::fill_dims_fit(
            yt_img.width as int,
            yt_img.height as int,
            width as int,
            height as int,
        ),
        r is Err ==> r->Err_0 == ThumbError::InvalidDimensions,
        r is Ok ==> r->Ok_0.wf() && r->Ok_0.width == width && r->Ok_0.height == height,
        r is Ok ==> r->Ok_0.raw_pixels@.len() == width as int * height as int * 4,
        r is Ok ==> r->Ok_0.raw_pixels@ == resize::thumbnail_pixels(
            yt_img.raw_pixels@,
            yt_img.width as int,
            yt_img.height as int,
            width as int,
            height as int,
            sampling::filter_type_of(sampling_filter),
        ),
        r is Ok ==> forall|i: int|
            0 <= i < r->Ok_0.raw_pixels@.len() ==> resize::scaled_pixels(
                yt_img.raw_pixels@,
                yt_img.width as int,
                yt_img.height as int,
                width as int,
                height as int,
                sampling::filter_type_of(sampling_filter),
            ).contains(#[trigger] r->Ok_0.raw_pixels@[i]),
{
    if width == 0 || height == 0 {
        return Err(ThumbError::InvalidDimensions);
    }
    if !resize::fill_dims_ok(yt_img.width, yt_img.height, width, height) {
        return Err(ThumbError::InvalidDimensions);
    }
    let pixels = resize::resize_to_fill(
        &yt_img.raw_pixels,
        yt_img.width,
        yt_img.height,
        width,
        height,
        sampling_filter,
    );
    Ok(YtImage { raw_pixels: pixels, width, height })
}

/// Determinism of the thumbnail stage: its contract pins the output bytes as a
/// function of the source pixels, the target size and the filter, so any two
/// results that meet it for identical inputs are byte-identical.
pub proof fn lemma_generate_thumbnail_deterministic(
    r1: YtImage,
    r2: YtImage,
    src: Seq<u8>,
    sw: int,
    sh: int,
    tw: int,
    th: int,
    kernel: image::imageops::FilterType,
)
    requires
        r1.raw_pixels@ == resize::thumbnail_pixels(src, sw, sh, tw, th, kernel),
        r2.raw_pixels@ == resize::thumbnail_pixels(src, sw, sh, tw, th, kernel),
        r1.width == tw,
        r2.width == tw,
        r1.height == th,
        r2.height == th,
    ensures
        r1.raw_pixels@ == r2.raw_pixels@,
        r1.width == r2.width,
        r1.height == r2.height,
{
}

/// Run the whole pipeline on the bytes of a source image: decode them, resize
/// the image to the recommended thumbnail dimensions with the chosen sampling
/// filter, and serialize the result in the chosen format. Each stage's error
/// aborts the later stages and is handed back unchanged.
pub fn run(
    source: &Vec<u8>,
    sampling_filter: sampling::SamplingFilter,
    format: ImageFormat,
) -> (r: Result<Vec<u8>, ThumbError>)
    ensures
        r is Ok <==> (codec::decoded_rgba(source@) matches Some((w, h, _)) && w > 0 && h > 0
            && resize::fill_dims_fit(
            w as int,
            h as int,
            YT_THUMB_RECOMMENDED_WIDTH as int,
            YT_THUMB_RECOMMENDED_HEIGHT as int,
        )),
        r is Ok ==> (codec::decoded_rgba(source@) matches Some((w, h, p)) && r->Ok_0@
            == codec::format_encoding(
            format,
            resize::thumbnail_pixels(
                p,
                w as int,
                h as int,
                YT_THUMB_RECOMMENDED_WIDTH as int,
                YT_THUMB_RECOMMENDED_HEIGHT as int,
                sampling::filter_type_of(sampling_filter),
            ),
            YT_THUMB_RECOMMENDED_WIDTH,
            YT_THUMB_RECOMMENDED_HEIGHT,
        )),
        codec::decoded_rgba(source@) is None ==> r is Err && (r->Err_0
            == ThumbError::UnsupportedFormat || r->Err_0 == ThumbError::CorruptData),
        codec::decoded_rgba(source@) is None ==> (r->Err_0 == ThumbError::UnsupportedFormat <==>
            codec::unsupported_encoding(source@)),
        codec::decoded_rgba(source@) matches Some((w, h, _)) && (w == 0 || h == 0) ==> r == Err::<
            Vec<u8>,
            ThumbError,
        >(ThumbError::CorruptData),
        codec::decoded_rgba(source@) matches Some((w, h, _)) && w > 0 && h > 0
            && !resize::fill_dims_fit(
            w as int,
            h as int,
            YT_THUMB_RECOMMENDED_WIDTH as int,
            YT_THUMB_RECOMMENDED_HEIGHT as int,
        ) ==> r == Err::<Vec<u8>, ThumbError>(ThumbError::InvalidDimensions),
{
    let img = match codec::decode_bytes(source) {
        Ok(img) => img,
        Err(e) => {
            return Err(e);
        },
    };
    let thumb = match generate_thumbnail(
        &img,
        YT_THUMB_RECOMMENDED_WIDTH,
        YT_THUMB_RECOMMENDED_HEIGHT,
        sampling_filter,
    ) {
        Ok(thumb) => thumb,
        Err(e) => {
            return Err(e);
        },
    };
    codec::encode(&thumb, format)
}

} // verus!
