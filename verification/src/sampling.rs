use vstd::prelude::*;

verus! {

/// Sampling algorithm to use for thumbnail generation.
///
/// The five variants map one-to-one to the interpolation kernels of the
/// `image` crate's `FilterType`.
#[derive(Clone, Copy, Debug, PartialEq, Eq, Structural)]
pub enum SamplingFilter {
    /// Nearest Neighbor
    Nearest,

    /// Linear Filter
    Triangle,

    /// Cubic Filter
    CatmullRom,

    /// Gaussian Filter
    Gaussian,

    /// Lanczos with window 3
    Lanczos3,
}

/// The `image` crate's kernel selector, kept opaque; a value of it only rides
/// from `SamplingFilter::to_filter_type` into the resampling call.
#[verifier::external_type_specification]
#[verifier::external_body]
pub struct ExFilterType(image::imageops::FilterType);

/// The kernel that a sampling filter selects; `SamplingFilter::to_filter_type`
/// is the one function that produces it.
pub uninterp spec fn filter_type_of(filter: SamplingFilter) -> image::imageops::FilterType;

impl SamplingFilter {
    /// Convert a sampling filter to the native `image::imageops::FilterType`.
    ///
    /// Relies on the `image` crate's `FilterType` variants: the mapping is
    /// one-to-one and carries no further data.
    #[verifier::external_body]
    pub fn to_filter_type(self) -> (r: image::imageops::FilterType)
        ensures
            r == filter_type_of(self),
    {
        match self {
            SamplingFilter::Nearest => image::imageops::FilterType::Nearest,
            SamplingFilter::Triangle => image::imageops::FilterType::Triangle,
            SamplingFilter::CatmullRom => image::imageops::FilterType::CatmullRom,
            SamplingFilter::Gaussian => image::imageops::FilterType::Gaussian,
            SamplingFilter::Lanczos3 => image::imageops::FilterType::Lanczos3,
        }
    }

    /// The canonical lowercase token of the filter.
    pub open spec fn spec_token(self) -> Seq<char> {
        match self {
            SamplingFilter::Nearest => "nearest"@,
            SamplingFilter::Triangle => "triangle"@,
            SamplingFilter::CatmullRom => "catmull-rom"@,
            SamplingFilter::Gaussian => "gaussian"@,
            SamplingFilter::Lanczos3 => "lanczos3"@,
        }
    }

    /// The canonical lowercase token of the filter.
    pub fn token(self) -> (r: &'static str)
        ensures
            r@ == self.spec_token(),
    {
        match self {
            SamplingFilter::Nearest => "nearest",
            SamplingFilter::Triangle => "triangle",
            SamplingFilter::CatmullRom => "catmull-rom",
            SamplingFilter::Gaussian => "gaussian",
            SamplingFilter::Lanczos3 => "lanczos3",
        }
    }

    /// The filter a recognized token names: the canonical tokens, with
    /// `catmullrom` accepted as an alias of `catmull-rom`.
    pub open spec fn spec_from_token(s: Seq<char>) -> Option<SamplingFilter> {
        if s == "nearest"@ {
            Some(SamplingFilter::Nearest)
        } else if s == "triangle"@ {
            Some(SamplingFilter::Triangle)
        } else if s == "catmull-rom"@ || s == "catmullrom"@ {
            Some(SamplingFilter::CatmullRom)
        } else if s == "gaussian"@ {
            Some(SamplingFilter::Gaussian)
        } else if s == "lanczos3"@ {
            Some(SamplingFilter::Lanczos3)
        } else {
            None
        }
    }

    /// Parse a user-facing filter token.
    pub fn from_token(s: &str) -> (r: Option<SamplingFilter>)
        ensures
            r == SamplingFilter::spec_from_token(s@),
    {
        if crate::str_eq(s, "nearest") {
            Some(SamplingFilter::Nearest)
        } else if crate::str_eq(s, "triangle") {
            Some(SamplingFilter::Triangle)
        } else if crate::str_eq(s, "catmull-rom") || crate::str_eq(s, "catmullrom") {
            Some(SamplingFilter::CatmullRom)
        } else if crate::str_eq(s, "gaussian") {
            Some(SamplingFilter::Gaussian)
        } else if crate::str_eq(s, "lanczos3") {
            Some(SamplingFilter::Lanczos3)
        } else {
            None
        }
    }
}

} // verus!
