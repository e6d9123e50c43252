use vstd::prelude::*;
use vstd::arithmetic::div_mod::{lemma_div_is_ordered, lemma_div_multiples_vanish};

use crate::sampling::SamplingFilter;

verus! {

broadcast use vstd::seq::group_seq_axioms;

/// Crop-to-fill scales by `max(tw / sw, th / sh)`; this holds when the width
/// ratio is the larger one, so that the width lands exactly on the target.
pub open spec fn width_ratio_governs(sw: int, sh: int, tw: int, th: int) -> bool {
    tw * sh >= th * sw
}

/// Width of the intermediate image: the source scaled by `max(tw / sw, th / sh)`,
/// rounded down.
pub open spec fn scaled_fill_width(sw: int, sh: int, tw: int, th: int) -> int {
    if width_ratio_governs(sw, sh, tw, th) {
        tw
    } else {
        (sw * th) / sh
    }
}

/// Height of the intermediate image: the source scaled by `max(tw / sw, th / sh)`,
/// rounded down.
pub open spec fn scaled_fill_height(sw: int, sh: int, tw: int, th: int) -> int {
    if width_ratio_governs(sw, sh, tw, th) {
        (sh * tw) / sw
    } else {
        th
    }
}

/// The machine limits under which the intermediate image can be built at all:
/// its sides fit in `u32`, its RGBA byte count stays allocatable (`isize`, as
/// `Vec` demands), and so does the one-axis-scaled floating-point image that
/// resampling goes through, at sixteen bytes per pixel.
pub open spec fn fill_dims_fit(sw: int, sh: int, tw: int, th: int) -> bool {
    &&& scaled_fill_width(sw, sh, tw, th) <= u32::MAX as int
    &&& scaled_fill_height(sw, sh, tw, th) <= u32::MAX as int
    &&& scaled_fill_width(sw, sh, tw, th) * scaled_fill_height(sw, sh, tw, th) * 4
        <= isize::MAX as int
    &&& sw * scaled_fill_height(sw, sh, tw, th) * 16 <= isize::MAX as int
}

/// The scaled image covers the target box on both axes, and exactly one axis
/// (the governing one) lands on the target.
pub proof fn lemma_scaled_covers_target(sw: int, sh: int, tw: int, th: int)
    requires
        sw > 0,
        sh > 0,
        tw > 0,
        th > 0,
    ensures
        scaled_fill_width(sw, sh, tw, th) >= tw,
        scaled_fill_height(sw, sh, tw, th) >= th,
        scaled_fill_width(sw, sh, tw, th) == tw || scaled_fill_height(sw, sh, tw, th) == th,
{
    assert(tw * sh == sh * tw) by (nonlinear_arith);
    assert(th * sw == sw * th) by (nonlinear_arith);
    if width_ratio_governs(sw, sh, tw, th) {
        lemma_div_is_ordered(th * sw, sh * tw, sw);
        lemma_div_multiples_vanish(th, sw);
        assert((sh * tw) / sw >= th);
    } else {
        lemma_div_is_ordered(tw * sh, sw * th, sh);
        lemma_div_multiples_vanish(tw, sh);
        assert((sw * th) / sh >= tw);
    }
}

/// Compute the dimensions of the intermediate image for a crop-to-fill resize:
/// the source scaled by `max(tw / sw, th / sh)`, rounding down, so that the
/// result covers the target box and the governing axis matches it exactly.
pub fn compute_fill_dimensions(sw: u32, sh: u32, tw: u32, th: u32) -> (r: (u32, u32))
    requires
        sw > 0,
        sh > 0,
        tw > 0,
        th > 0,
        fill_dims_fit(sw as int, sh as int, tw as int, th as int),
    ensures
        r.0 == scaled_fill_width(sw as int, sh as int, tw as int, th as int),
        r.1 == scaled_fill_height(sw as int, sh as int, tw as int, th as int),
        r.0 >= tw,
        r.1 >= th,
        r.0 == tw || r.1 == th,
{
    proof {
        lemma_scaled_covers_target(sw as int, sh as int, tw as int, th as int);
        assert((tw as int) * (sh as int) <= u64::MAX as int) by (nonlinear_arith);
        assert((th as int) * (sw as int) <= u64::MAX as int) by (nonlinear_arith);
        assert((sh as int) * (tw as int) <= u64::MAX as int) by (nonlinear_arith);
        assert((sw as int) * (th as int) <= u64::MAX as int) by (nonlinear_arith);
    }
    let a: u64 = tw as u64 * sh as u64;
    let b: u64 = th as u64 * sw as u64;
    if a >= b {
        let nh: u64 = (sh as u64 * tw as u64) / (sw as u64);
        (tw, nh as u32)
    } else {
        let nw: u64 = (sw as u64 * th as u64) / (sh as u64);
        (nw as u32, th)
    }
}

/// Decide whether the intermediate image of a crop-to-fill resize stays within
/// the machine limits.
pub fn fill_dims_ok(sw: u32, sh: u32, tw: u32, th: u32) -> (r: bool)
    requires
        sw > 0,
        sh > 0,
        tw > 0,
        th > 0,
    ensures
        r == fill_dims_fit(sw as int, sh as int, tw as int, th as int),
{
    proof {
        assert((tw as int) * (sh as int) <= u64::MAX as int) by (nonlinear_arith);
        assert((th as int) * (sw as int) <= u64::MAX as int) by (nonlinear_arith);
        assert((sh as int) * (tw as int) <= u64::MAX as int) by (nonlinear_arith);
        assert((sw as int) * (th as int) <= u64::MAX as int) by (nonlinear_arith);
    }
    let a: u64 = tw as u64 * sh as u64;
    let b: u64 = th as u64 * sw as u64;
    let nw: u64 = if a >= b {
        tw as u64
    } else {
        (sw as u64 * th as u64) / (sh as u64)
    };
    let nh: u64 = if a >= b {
        (sh as u64 * tw as u64) / (sw as u64)
    } else {
        th as u64
    };
    if nw > u32::MAX as u64 || nh > u32::MAX as u64 {
        return false;
    }
    proof {
        assert((nw as int) * (nh as int) * 4 <= u128::MAX as int) by (nonlinear_arith)
            requires
                0 <= nw as int <= u32::MAX as int,
                0 <= nh as int <= u32::MAX as int,
        ;
        assert((sw as int) * (nh as int) * 16 <= u128::MAX as int) by (nonlinear_arith)
            requires
                0 <= sw as int <= u32::MAX as int,
                0 <= nh as int <= u32::MAX as int,
        ;
    }
    nw as u128 * nh as u128 * 4 <= isize::MAX as u128 && sw as u128 * nh as u128 * 16
        <= isize::MAX as u128
}

/// The bytes of one cropped row: `tw` pixels of row `y`, starting at column `ox`,
/// out of an RGBA buffer whose rows are `src_w` pixels wide.
pub open spec fn row_bytes(p: Seq<u8>, src_w: int, ox: int, y: int, tw: int) -> Seq<u8> {
    p.subrange((y * src_w + ox) * 4, (y * src_w + ox + tw) * 4)
}

/// The first `rows` rows of the crop whose top-left pixel is `(ox, oy)`.
pub open spec fn cropped_rows(p: Seq<u8>, src_w: int, ox: int, oy: int, tw: int, rows: int) -> Seq<
    u8,
>
    decreases rows,
{
    if rows <= 0 {
        Seq::empty()
    } else {
        cropped_rows(p, src_w, ox, oy, tw, rows - 1) + row_bytes(p, src_w, ox, oy + rows - 1, tw)
    }
}

/// The row of index `y` of a crop window lies within the source buffer.
proof fn lemma_row_in_bounds(p: Seq<u8>, src_w: int, ox: int, tw: int, y: int)
    requires
        tw >= 0,
        ox >= 0,
        y >= 0,
        ox + tw <= src_w,
        (y + 1) * src_w * 4 <= p.len(),
    ensures
        0 <= (y * src_w + ox) * 4,
        (y * src_w + ox) * 4 <= (y * src_w + ox + tw) * 4,
        (y * src_w + ox + tw) * 4 <= p.len(),
        row_bytes(p, src_w, ox, y, tw).len() == tw * 4,
{
    assert(0 <= (y * src_w + ox) * 4) by (nonlinear_arith)
        requires
            y >= 0,
            src_w >= 0,
            ox >= 0,
    ;
    assert((y * src_w + ox + tw) * 4 <= p.len()) by (nonlinear_arith)
        requires
            ox + tw <= src_w,
            (y + 1) * src_w * 4 <= p.len(),
            src_w >= 0,
    ;
}

/// A crop of `th` rows of `tw` pixels holds exactly `tw * th * 4` bytes.
pub proof fn lemma_cropped_rows_len(p: Seq<u8>, src_w: int, ox: int, oy: int, tw: int, th: int)
    requires
        tw >= 0,
        th >= 0,
        ox >= 0,
        oy >= 0,
        ox + tw <= src_w,
        (oy + th) * src_w * 4 <= p.len(),
    ensures
        cropped_rows(p, src_w, ox, oy, tw, th).len() == tw * th * 4,
    decreases th,
{
    if th > 0 {
        assert((oy + (th - 1)) * src_w * 4 <= p.len()) by (nonlinear_arith)
            requires
                src_w >= 0,
                (oy + th) * src_w * 4 <= p.len(),
        ;
        lemma_cropped_rows_len(p, src_w, ox, oy, tw, th - 1);
        assert((oy + th - 1 + 1) * src_w * 4 <= p.len()) by (nonlinear_arith)
            requires
                (oy + th) * src_w * 4 <= p.len(),
        ;
        lemma_row_in_bounds(p, src_w, ox, tw, oy + th - 1);
        assert(tw * (th - 1) * 4 + tw * 4 == tw * th * 4) by (nonlinear_arith);
    } else {
        assert(tw * th * 4 == 0) by (nonlinear_arith)
            requires
                th == 0,
        ;
    }
}

/// Crop-to-fill never letterboxes: every byte of a crop is a byte of the scaled
/// source, so the crop step introduces no border pixels of its own.
pub proof fn lemma_crop_no_letterbox(
    p: Seq<u8>,
    src_w: int,
    ox: int,
    oy: int,
    tw: int,
    th: int,
)
    requires
        tw >= 0,
        th >= 0,
        ox >= 0,
        oy >= 0,
        ox + tw <= src_w,
        (oy + th) * src_w * 4 <= p.len(),
    ensures
        forall|i: int|
            0 <= i < cropped_rows(p, src_w, ox, oy, tw, th).len() ==> p.contains(
                #[trigger] cropped_rows(p, src_w, ox, oy, tw, th)[i],
            ),
    decreases th,
{
    if th > 0 {
        assert((oy + (th - 1)) * src_w * 4 <= p.len()) by (nonlinear_arith)
            requires
                src_w >= 0,
                (oy + th) * src_w * 4 <= p.len(),
        ;
        lemma_crop_no_letterbox(p, src_w, ox, oy, tw, th - 1);
        assert((oy + th - 1 + 1) * src_w * 4 <= p.len()) by (nonlinear_arith)
            requires
                (oy + th) * src_w * 4 <= p.len(),
        ;
        lemma_row_in_bounds(p, src_w, ox, tw, oy + th - 1);
        let prefix = cropped_rows(p, src_w, ox, oy, tw, th - 1);
        let row = row_bytes(p, src_w, ox, oy + th - 1, tw);
        let start = ((oy + th - 1) * src_w + ox) * 4;
        assert forall|i: int|
            0 <= i < cropped_rows(p, src_w, ox, oy, tw, th).len() implies p.contains(
            cropped_rows(p, src_w, ox, oy, tw, th)[i],
        ) by {
            if i < prefix.len() {
                assert(cropped_rows(p, src_w, ox, oy, tw, th)[i] == prefix[i]);
                assert(p.contains(prefix[i]));
            } else {
                let m = i - prefix.len();
                assert(cropped_rows(p, src_w, ox, oy, tw, th)[i] == row[m]);
                assert(row[m] == p[start + m]);
                assert(0 <= start + m < p.len());
                assert(p.contains(p[start + m]));
            }
        }
    }
}

/// Center-crop an RGBA buffer of `src_w x src_h` pixels to the `tw x th` window
/// whose top-left pixel is `(ox, oy)`.
pub fn crop_rgba(
    pixels: &Vec<u8>,
    src_w: u32,
    src_h: u32,
    ox: u32,
    oy: u32,
    tw: u32,
    th: u32,
) -> (out: Vec<u8>)
    requires
        pixels@.len() == src_w as int * src_h as int * 4,
        src_h > 0,
        ox + tw <= src_w,
        oy + th <= src_h,
    ensures
        out@ == cropped_rows(pixels@, src_w as int, ox as int, oy as int, tw as int, th as int),
        out@.len() == tw as int * th as int * 4,
{
    let n: usize = pixels.len();
    proof {
        assert((oy + th) * src_w as int * 4 <= src_w as int * src_h as int * 4)
            by (nonlinear_arith)
            requires
                oy as int + th as int <= src_h as int,
                src_w as int >= 0,
        ;
        lemma_cropped_rows_len(
            pixels@,
            src_w as int,
            ox as int,
            oy as int,
            tw as int,
            th as int,
        );
        assert(tw as int * 4 <= pixels@.len()) by (nonlinear_arith)
            requires
                tw as int <= src_w as int,
                src_h as int >= 1,
                src_w as int >= 0,
                pixels@.len() == src_w as int * src_h as int * 4,
        ;
    }
    let row_len: usize = tw as usize * 4;
    let mut out: Vec<u8> = Vec::new();
    let mut y: u32 = 0;
    while y < th
        invariant
            y <= th,
            ox + tw <= src_w,
            oy + th <= src_h,
            pixels@.len() == src_w as int * src_h as int * 4,
            pixels@.len() <= usize::MAX as int,
            row_len == tw as int * 4,
            out@ == cropped_rows(pixels@, src_w as int, ox as int, oy as int, tw as int, y as int),
        decreases th - y,
    {
        let ghost prefix = out@;
        proof {
            assert(((oy + y) as int * src_w as int + ox as int + tw as int) * 4 <= pixels@.len())
                by (nonlinear_arith)
                requires
                    oy as int + y as int + 1 <= src_h as int,
                    ox as int + tw as int <= src_w as int,
                    src_w as int >= 0,
                    pixels@.len() == src_w as int * src_h as int * 4,
            ;
            assert((oy + y) as int * src_w as int >= 0) by (nonlinear_arith)
                requires
                    oy as int + y as int >= 0,
                    src_w as int >= 0,
            ;
        }
        let row_start: usize = ((oy + y) as usize * src_w as usize + ox as usize) * 4;
        proof {
            assert(row_start as int == ((oy + y) as int * src_w as int + ox as int) * 4);
            assert(row_start as int + row_len as int <= pixels@.len());
        }
        let mut k: usize = 0;
        while k < row_len
            invariant
                k <= row_len,
                row_len == tw as int * 4,
                pixels@.len() <= usize::MAX as int,
                row_start as int == ((oy + y) as int * src_w as int + ox as int) * 4,
                row_start as int + row_len as int <= pixels@.len(),
                out@ == prefix + pixels@.subrange(row_start as int, row_start as int + k as int),
            decreases row_len - k,
        {
            out.push(pixels[row_start + k]);
            k = k + 1;
            proof {
                assert(pixels@.subrange(row_start as int, row_start as int + k as int) =~= pixels@
                    .subrange(row_start as int, row_start as int + k as int - 1).push(
                    pixels@[row_start as int + k - 1],
                ));
                assert(out@ =~= prefix + pixels@.subrange(
                    row_start as int,
                    row_start as int + k as int,
                ));
            }
        }
        y = y + 1;
        proof {
            assert(pixels@.subrange(row_start as int, row_start as int + row_len as int)
                == row_bytes(pixels@, src_w as int, ox as int, oy as int + y as int - 1, tw as int));
            assert(out@ =~= cropped_rows(
                pixels@,
                src_w as int,
                ox as int,
                oy as int,
                tw as int,
                y as int,
            ));
        }
    }
    out
}

/// What the `image` crate's resampling produces: `nw * nh` RGBA pixels computed
/// from the source pixels with the chosen kernel, a function of the arguments
/// alone.
pub uninterp spec fn resampled_rgba(
    pixels: Seq<u8>,
    sw: int,
    sh: int,
    nw: int,
    nh: int,
    kernel: image::imageops::FilterType,
) -> Seq<u8>;

/// Relies on `image::imageops::resize`: it returns an image of exactly
/// `nw x nh` pixels, resampled from the source with the given kernel, and its
/// output depends on the pixel data, the dimensions and the kernel alone. It
/// samples one axis at a time through an `sw x nh` floating-point intermediate
/// of sixteen bytes per pixel; the bounds keep that buffer and the output
/// within what `Vec` can allocate (`isize::MAX` bytes).
#[verifier::external_body]
fn resample_exact(pixels: &Vec<u8>, sw: u32, sh: u32, nw: u32, nh: u32, kernel:
    image::imageops::FilterType) -> (r: Vec<u8>)
    requires
        pixels@.len() == sw as int * sh as int * 4,
        sw > 0,
        sh > 0,
        nw > 0,
        nh > 0,
        nw as int * nh as int * 4 <= isize::MAX as int,
        sw as int * nh as int * 16 <= isize::MAX as int,
    ensures
        r@ == resampled_rgba(
            pixels@,
            sw as int,
            sh as int,
            nw as int,
            nh as int,
            kernel,
        ),
        r@.len() == nw as int * nh as int * 4,
{
    let buf: image::RgbaImage = image::ImageBuffer::from_raw(sw, sh, pixels.clone()).unwrap();
    image::imageops::resize(&buf, nw, nh, kernel).into_raw()
}

/// The pixel bytes of a crop-to-fill resize: the source scaled to the covering
/// dimensions with the chosen kernel, then center-cropped to `tw x th`.
pub open spec fn thumbnail_pixels(
    src: Seq<u8>,
    sw: int,
    sh: int,
    tw: int,
    th: int,
    kernel: image::imageops::FilterType,
) -> Seq<u8> {
    let nw = scaled_fill_width(sw, sh, tw, th);
    let nh = scaled_fill_height(sw, sh, tw, th);
    let scaled = resampled_rgba(src, sw, sh, nw, nh, kernel);
    cropped_rows(scaled, nw, (nw - tw) / 2, (nh - th) / 2, tw, th)
}

/// The scaled intermediate image of a crop-to-fill resize.
pub open spec fn scaled_pixels(
    src: Seq<u8>,
    sw: int,
    sh: int,
    tw: int,
    th: int,
    kernel: image::imageops::FilterType,
) -> Seq<u8> {
    resampled_rgba(
        src,
        sw,
        sh,
        scaled_fill_width(sw, sh, tw, th),
        scaled_fill_height(sw, sh, tw, th),
        kernel,
    )
}

/// Scale and center-crop an RGBA buffer to exactly `tw x th` pixels. Every
/// output byte is a byte of the scaled image: the crop trims overflow and
/// never pads, so the resize introduces no border pixels.
pub fn resize_to_fill(
    pixels: &Vec<u8>,
    sw: u32,
    sh: u32,
    tw: u32,
    th: u32,
    filter: SamplingFilter,
) -> (out: Vec<u8>)
    requires
        pixels@.len() == sw as int * sh as int * 4,
        sw > 0,
        sh > 0,
        tw > 0,
        th > 0,
        fill_dims_fit(sw as int, sh as int, tw as int, th as int),
    ensures
        out@ == thumbnail_pixels(
            pixels@,
            sw as int,
            sh as int,
            tw as int,
            th as int,
            crate::sampling::filter_type_of(filter),
        ),
        out@.len() == tw as int * th as int * 4,
        forall|i: int|
            0 <= i < out@.len() ==> scaled_pixels(
                pixels@,
                sw as int,
                sh as int,
                tw as int,
                th as int,
                crate::sampling::filter_type_of(filter),
            ).contains(#[trigger] out@[i]),
{
    let (nw, nh) = compute_fill_dimensions(sw, sh, tw, th);
    let kernel = filter.to_filter_type();
    let scaled = resample_exact(pixels, sw, sh, nw, nh, kernel);
    let ox: u32 = (nw - tw) / 2;
    let oy: u32 = (nh - th) / 2;
    let out = crop_rgba(&scaled, nw, nh, ox, oy, tw, th);
    proof {
        assert((oy + th) * nw as int * 4 <= nw as int * nh as int * 4) by (nonlinear_arith)
            requires
                oy as int + th as int <= nh as int,
                nw as int >= 0,
        ;
        lemma_crop_no_letterbox(
            scaled@,
            nw as int,
            ox as int,
            oy as int,
            tw as int,
            th as int,
        );
    }
    out
}

} // verus!

