//! Resizing: resolution of the requested dimensions, and scaling with a fallback.
use vstd::prelude::*;
use crate::raster::Raster;

verus! {

/// `a / b` rounded to the nearest integer, halves away from zero, and at least 1.
pub open spec fn scaled_axis(a: int, b: int) -> int {
    if b <= 0 {
        1
    } else {
        let q = (2 * a + b) / (2 * b);
        if q < 1 {
            1
        } else if q > u32::MAX {
            u32::MAX as int
        } else {
            q
        }
    }
}

/// The output dimensions for a requested `w`×`h` (0 leaves that axis to the aspect ratio of
/// the `src_w`×`src_h` source); `None` when both are 0.
pub open spec fn resolved_dims(src_w: u32, src_h: u32, w: u32, h: u32) -> Option<(u32, u32)> {
    if w == 0 && h == 0 {
        None
    } else if h == 0 {
        Some((w, scaled_axis(src_h * w, src_w as int) as u32))
    } else if w == 0 {
        Some((scaled_axis(src_w * h, src_h as int) as u32, h))
    } else {
        Some((w, h))
    }
}

/// Rounding law: `scaled_axis(a, b)`, unless clamped to 1 or to `u32::MAX`, is `a / b` to the
/// nearest integer, i.e. `|q - a / b| <= 1/2`.
pub proof fn lemma_scaled_axis_rounds(a: int, b: int)
    requires
        a >= 0,
        b > 0,
    ensures
        ({
            let q = scaled_axis(a, b);
            q == 1 || q == u32::MAX || (2 * q * b - b <= 2 * a && 2 * a < 2 * q * b + b)
        }),
{
    let q = (2 * a + b) / (2 * b);
    assert(2 * b * q <= 2 * a + b && 2 * a + b < 2 * b * q + 2 * b) by (nonlinear_arith)
        requires
            q == (2 * a + b) / (2 * b),
            b > 0,
            a >= 0,
    ;
    assert(2 * q * b == 2 * b * q) by (nonlinear_arith);
}

/// Resizing to a width alone keeps the aspect ratio: the height is the source height scaled by
/// `w / src_w`, rounded to the nearest pixel (and kept within 1 and `u32::MAX`).
pub proof fn lemma_width_only_keeps_aspect(src_w: u32, src_h: u32, w: u32)
    requires
        src_w > 0,
        w > 0,
    ensures
        resolved_dims(src_w, src_h, w, 0) matches Some(d) && d.0 == w && ({
            let h = d.1 as int;
            h == 1 || h == u32::MAX || (2 * h * src_w - src_w <= 2 * src_h * w && 2 * src_h * w < 2
                * h * src_w + src_w)
        }),
{
    assert(src_h * w >= 0) by (nonlinear_arith)
        requires
            src_h >= 0,
            w >= 0,
    ;
    lemma_scaled_axis_rounds(src_h * w, src_w as int);
    let q = scaled_axis(src_h * w, src_w as int);
    assert(1 <= q <= u32::MAX);
    assert((q as u32) as int == q);
    assert(2 * (src_h * w) == 2 * src_h * w) by (nonlinear_arith);
}

/// Resizing to a height alone keeps the aspect ratio: the width is the source width scaled by
/// `h / src_h`, rounded to the nearest pixel (and kept within 1 and `u32::MAX`).
pub proof fn lemma_height_only_keeps_aspect(src_w: u32, src_h: u32, h: u32)
    requires
        src_h > 0,
        h > 0,
    ensures
        resolved_dims(src_w, src_h, 0, h) matches Some(d) && d.1 == h && ({
            let w = d.0 as int;
            w == 1 || w == u32::MAX || (2 * w * src_h - src_h <= 2 * src_w * h && 2 * src_w * h < 2
                * w * src_h + src_h)
        }),
{
    assert(src_w * h >= 0) by (nonlinear_arith)
        requires
            src_w >= 0,
            h >= 0,
    ;
    lemma_scaled_axis_rounds(src_w * h, src_h as int);
    let q = scaled_axis(src_w * h, src_h as int);
    assert(1 <= q <= u32::MAX);
    assert((q as u32) as int == q);
    assert(2 * (src_w * h) == 2 * src_w * h) by (nonlinear_arith);
}

fn scale_axis(a: u32, num: u32, den: u32) -> (r: u32)
    ensures
        r == scaled_axis(a * num, den as int),
{
    if den == 0 {
        return 1;
    }
    proof {
        let (x, y) = (a as int, num as int);
        assert(0 <= x * y <= 0xFFFF_FFFF * 0xFFFF_FFFF) by (nonlinear_arith)
            requires
                0 <= x <= 0xFFFF_FFFF,
                0 <= y <= 0xFFFF_FFFF,
        ;
    }
    let prod: u128 = a as u128 * num as u128;
    let q: u128 = (2 * prod + den as u128) / (2 * den as u128);
    if q < 1 {
        1
    } else if q > u32::MAX as u128 {
        u32::MAX
    } else {
        q as u32
    }
}

/// Resolves the requested dimensions against the source's: a zero axis follows the aspect
/// ratio; both zero means no resize.
pub fn resolve_dimensions(src_w: u32, src_h: u32, w: u32, h: u32) -> (r: Option<(u32, u32)>)
    ensures
        r == resolved_dims(src_w, src_h, w, h),
{
    if w == 0 && h == 0 {
        None
    } else if h == 0 {
        Some((w, scale_axis(src_h, w, src_w)))
    } else if w == 0 {
        Some((scale_axis(src_w, h, src_h), h))
    } else {
        Some((w, h))
    }
}

/// Relies on `fast_image_resize::Resizer::resize` with a Catmull-Rom convolution: the target
/// image of `width`×`height` RGBA pixels is allocated by `Image::new`, whose buffer keeps its
/// length; an error leaves `None`.
#[verifier::external_body]
fn catmull_rom_resize(r: &Raster, width: u32, height: u32) -> (out: Option<Vec<u8>>)
    requires
        r.wf(),
        width * height * 4 <= usize::MAX,
    ensures
        out matches Some(v) ==> v@.len() == width * height * 4,
{
    let src = fast_image_resize::images::Image::from_vec_u8(r.width, r.height, r.rgba.clone(), fast_image_resize::PixelType::U8x4).ok()?;
    let mut dst = fast_image_resize::images::Image::new(width, height, fast_image_resize::PixelType::U8x4);
    let opts = fast_image_resize::ResizeOptions::new().resize_alg(fast_image_resize::ResizeAlg::Convolution(fast_image_resize::FilterType::CatmullRom));
    fast_image_resize::Resizer::new().resize(&src, &mut dst, &opts).ok()?;
    Some(dst.into_vec())
}

/// Relies on `image::imageops::resize` with the Lanczos3 filter: it returns a buffer of exactly
/// `width`×`height` RGBA pixels (allocating one whose length overflows panics).
#[verifier::external_body]
fn lanczos_resize(r: &Raster, width: u32, height: u32) -> (out: Vec<u8>)
    requires
        r.wf(),
        width * height * 4 <= usize::MAX,
    ensures
        out@.len() == width * height * 4,
{
    match image::RgbaImage::from_raw(r.width, r.height, r.rgba.clone()) {
        Some(img) => image::imageops::resize(&img, width, height, image::imageops::FilterType::Lanczos3).into_raw(),
        None => Vec::new(),
    }
}

/// Scales an image to exactly `width`×`height`: Catmull-Rom convolution first, Lanczos3 when
/// that reports an error. The result is an RGBA image.
pub fn resize_image_fast(r: &Raster, width: u32, height: u32) -> (out: Raster)
    requires
        r.wf(),
        width * height * 4 <= usize::MAX,
    ensures
        out.wf(),
        out.width == width,
        out.height == height,
        out.has_alpha,
{
    let rgba = match catmull_rom_resize(r, width, height) {
        Some(v) => v,
        None => lanczos_resize(r, width, height),
    };
    Raster { width, height, has_alpha: true, rgba }
}

/// Whether a `width`×`height` RGBA buffer can be addressed.
pub fn buffer_fits(width: u32, height: u32) -> (r: bool)
    ensures
        r == (width * height * 4 <= usize::MAX),
{
    proof {
        let (w, h) = (width as int, height as int);
        assert(0 <= w * h <= 0xFFFF_FFFF * 0xFFFF_FFFF) by (nonlinear_arith)
            requires
                0 <= w <= 0xFFFF_FFFF,
                0 <= h <= 0xFFFF_FFFF,
        ;
    }
    let n = width as u128 * height as u128 * 4;
    n <= usize::MAX as u128
}

/// The requested output dimensions: `None` unless resizing is on and at least one of the
/// two decimal fields names a non-zero size (unparsable text counts as zero).
pub open spec fn requested_dims(resize: bool, tw: Seq<char>, th: Seq<char>) -> Option<(u32, u32)> {
    let w = match crate::text::parsed_at_most(tw, u32::MAX as int) {
        Some(v) => v as u32,
        None => 0u32,
    };
    let h = match crate::text::parsed_at_most(th, u32::MAX as int) {
        Some(v) => v as u32,
        None => 0u32,
    };
    if resize && (w > 0 || h > 0) {
        Some((w, h))
    } else {
        None
    }
}

/// Reads the requested width and height from their decimal fields.
pub fn requested_dimensions(resize: bool, target_width: &str, target_height: &str) -> (r: Option<(u32, u32)>)
    ensures
        r == requested_dims(resize, target_width@, target_height@),
{
    let w = match crate::text::parse_at_most(target_width, u32::MAX as u64) {
        Some(v) => v as u32,
        None => 0,
    };
    let h = match crate::text::parse_at_most(target_height, u32::MAX as u64) {
        Some(v) => v as u32,
        None => 0,
    };
    if resize && (w > 0 || h > 0) {
        Some((w, h))
    } else {
        None
    }
}

} // verus!
