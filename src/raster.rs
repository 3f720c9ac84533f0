//! The decoded image: an 8-bit RGBA pixel buffer, and the geometric operations on it.
use vstd::prelude::*;

verus! {

/// A decoded image held as tightly packed 8-bit RGBA rows. `has_alpha` records whether the
/// pixels carry a meaningful alpha channel (an RGB source is held with opaque alpha).
#[derive(Clone, Debug)]
pub struct Raster {
    pub width: u32,
    pub height: u32,
    pub has_alpha: bool,
    pub rgba: Vec<u8>,
}

impl Raster {
    /// The buffer holds exactly four bytes per pixel.
    pub open spec fn wf(&self) -> bool {
        self.rgba@.len() == self.width * self.height * 4
    }

    /// Builds an image from packed RGBA rows, or `None` when the buffer length does not match.
    pub fn from_rgba(width: u32, height: u32, has_alpha: bool, rgba: Vec<u8>) -> (r: Option<Raster>)
        ensures
            r is Some <==> rgba@.len() == width * height * 4,
            r matches Some(img) ==> img.wf() && img.width == width && img.height == height
                && img.has_alpha == has_alpha && img.rgba@ == rgba@,
    {
        proof {
            let (w, h) = (width as int, height as int);
            assert(0 <= w * h <= 0xFFFF_FFFF * 0xFFFF_FFFF) by (nonlinear_arith)
                requires
                    0 <= w <= 0xFFFF_FFFF,
                    0 <= h <= 0xFFFF_FFFF,
            ;
        }
        let n = width as u64 * height as u64;
        let len = rgba.len();
        if n > (usize::MAX / 4) as u64 {
            assert(len < width * height * 4);
            return None;
        }
        if rgba.len() != n as usize * 4 {
            return None;
        }
        Some(Raster { width, height, has_alpha, rgba })
    }
}

/// Channel `c` of pixel (`x`, `y`) of an RGBA buffer `w` pixels wide.
#[verifier::opaque]
pub open spec fn sample(data: Seq<u8>, w: int, x: int, y: int, c: int) -> u8 {
    data[(y * w + x) * 4 + c]
}

/// The five geometric operations the image library offers.
#[derive(Clone, Copy, PartialEq, Eq, Debug, Structural)]
pub enum Turn {
    FlipHorizontal,
    FlipVertical,
    Rotate90,
    Rotate180,
    Rotate270,
}

/// Width and height after a turn.
pub open spec fn turned_dims(t: Turn, w: int, h: int) -> (int, int) {
    match t {
        Turn::Rotate90 | Turn::Rotate270 => (h, w),
        _ => (w, h),
    }
}

/// The source pixel that lands on (`x`, `y`) after a turn of a `w`×`h` image.
pub open spec fn turn_source(t: Turn, w: int, h: int, x: int, y: int) -> (int, int) {
    match t {
        Turn::FlipHorizontal => (w - 1 - x, y),
        Turn::FlipVertical => (x, h - 1 - y),
        Turn::Rotate180 => (w - 1 - x, h - 1 - y),
        Turn::Rotate90 => (y, h - 1 - x),
        Turn::Rotate270 => (w - 1 - y, x),
    }
}

/// `out` is `r` turned by `t`.
pub open spec fn is_turn_of(out: Raster, r: Raster, t: Turn) -> bool {
    &&& out.wf()
    &&& out.has_alpha == r.has_alpha
    &&& out.width == turned_dims(t, r.width as int, r.height as int).0
    &&& out.height == turned_dims(t, r.width as int, r.height as int).1
    &&& forall|x: int, y: int, c: int|
        0 <= x < out.width && 0 <= y < out.height && 0 <= c < 4 ==> #[trigger] sample(
            out.rgba@,
            out.width as int,
            x,
            y,
            c,
        ) == sample(
            r.rgba@,
            r.width as int,
            turn_source(t, r.width as int, r.height as int, x, y).0,
            turn_source(t, r.width as int, r.height as int, x, y).1,
            c,
        )
}

/// Relies on `image::imageops::flip_horizontal`: pixel (x, y) moves to (w-1-x, y).
#[verifier::external_body]
fn flip_horizontal(r: &Raster) -> (out: Raster)
    requires
        r.wf(),
    ensures
        is_turn_of(out, *r, Turn::FlipHorizontal),
{
    match image::RgbaImage::from_raw(r.width, r.height, r.rgba.clone()) {
        Some(img) => {
            let o = image::imageops::flip_horizontal(&img);
            Raster { width: o.width(), height: o.height(), has_alpha: r.has_alpha, rgba: o.into_raw() }
        },
        None => r.clone(),
    }
}

/// Relies on `image::imageops::flip_vertical`: pixel (x, y) moves to (x, h-1-y).
#[verifier::external_body]
fn flip_vertical(r: &Raster) -> (out: Raster)
    requires
        r.wf(),
    ensures
        is_turn_of(out, *r, Turn::FlipVertical),
{
    match image::RgbaImage::from_raw(r.width, r.height, r.rgba.clone()) {
        Some(img) => {
            let o = image::imageops::flip_vertical(&img);
            Raster { width: o.width(), height: o.height(), has_alpha: r.has_alpha, rgba: o.into_raw() }
        },
        None => r.clone(),
    }
}

/// Relies on `image::imageops::rotate90`: pixel (x, y) moves to (h-1-y, x) of an h×w image.
#[verifier::external_body]
fn rotate90(r: &Raster) -> (out: Raster)
    requires
        r.wf(),
    ensures
        is_turn_of(out, *r, Turn::Rotate90),
{
    match image::RgbaImage::from_raw(r.width, r.height, r.rgba.clone()) {
        Some(img) => {
            let o = image::imageops::rotate90(&img);
            Raster { width: o.width(), height: o.height(), has_alpha: r.has_alpha, rgba: o.into_raw() }
        },
        None => r.clone(),
    }
}

/// Relies on `image::imageops::rotate180`: pixel (x, y) moves to (w-1-x, h-1-y).
#[verifier::external_body]
fn rotate180(r: &Raster) -> (out: Raster)
    requires
        r.wf(),
    ensures
        is_turn_of(out, *r, Turn::Rotate180),
{
    match image::RgbaImage::from_raw(r.width, r.height, r.rgba.clone()) {
        Some(img) => {
            let o = image::imageops::rotate180(&img);
            Raster { width: o.width(), height: o.height(), has_alpha: r.has_alpha, rgba: o.into_raw() }
        },
        None => r.clone(),
    }
}

/// Relies on `image::imageops::rotate270`: pixel (x, y) moves to (y, w-1-x) of an h×w image.
#[verifier::external_body]
fn rotate270(r: &Raster) -> (out: Raster)
    requires
        r.wf(),
    ensures
        is_turn_of(out, *r, Turn::Rotate270),
{
    match image::RgbaImage::from_raw(r.width, r.height, r.rgba.clone()) {
        Some(img) => {
            let o = image::imageops::rotate270(&img);
            Raster { width: o.width(), height: o.height(), has_alpha: r.has_alpha, rgba: o.into_raw() }
        },
        None => r.clone(),
    }
}

/// Turns an image by one of the five geometric operations.
pub fn turn(r: &Raster, t: Turn) -> (out: Raster)
    requires
        r.wf(),
    ensures
        is_turn_of(out, *r, t),
{
    match t {
        Turn::FlipHorizontal => flip_horizontal(r),
        Turn::FlipVertical => flip_vertical(r),
        Turn::Rotate90 => rotate90(r),
        Turn::Rotate180 => rotate180(r),
        Turn::Rotate270 => rotate270(r),
    }
}

/// Dimensions of an image after normalizing the given EXIF orientation.
pub open spec fn oriented_dims(o: u32, w: int, h: int) -> (int, int) {
    if 5 <= o <= 8 {
        (h, w)
    } else {
        (w, h)
    }
}

/// The source pixel that lands on (`x`, `y`) when an image with EXIF orientation `o` is
/// normalized: identity (1 and unknown values), horizontal flip (2), 180° rotation (3),
/// vertical flip (4), transpose (5), 90° rotation (6), anti-transpose (7), 270° rotation (8).
pub open spec fn oriented_source(o: u32, w: int, h: int, x: int, y: int) -> (int, int) {
    if o == 2 {
        (w - 1 - x, y)
    } else if o == 3 {
        (w - 1 - x, h - 1 - y)
    } else if o == 4 {
        (x, h - 1 - y)
    } else if o == 5 {
        (y, x)
    } else if o == 6 {
        (y, h - 1 - x)
    } else if o == 7 {
        (w - 1 - y, h - 1 - x)
    } else if o == 8 {
        (w - 1 - y, x)
    } else {
        (x, y)
    }
}

/// `out` is `r` with orientation `o` normalized.
pub open spec fn is_oriented(out: Raster, r: Raster, o: u32) -> bool {
    &&& out.wf()
    &&& out.has_alpha == r.has_alpha
    &&& out.width == oriented_dims(o, r.width as int, r.height as int).0
    &&& out.height == oriented_dims(o, r.width as int, r.height as int).1
    &&& forall|x: int, y: int, c: int|
        0 <= x < out.width && 0 <= y < out.height && 0 <= c < 4 ==> #[trigger] sample(
            out.rgba@,
            out.width as int,
            x,
            y,
            c,
        ) == sample(
            r.rgba@,
            r.width as int,
            oriented_source(o, r.width as int, r.height as int, x, y).0,
            oriented_source(o, r.width as int, r.height as int, x, y).1,
            c,
        )
}

/// Applies the transform that normalizes EXIF orientation `o` to the pixels.
pub fn apply_orientation(r: Raster, o: u32) -> (out: Raster)
    requires
        r.wf(),
    ensures
        is_oriented(out, r, o),
{
    if o == 2 {
        turn(&r, Turn::FlipHorizontal)
    } else if o == 3 {
        turn(&r, Turn::Rotate180)
    } else if o == 4 {
        turn(&r, Turn::FlipVertical)
    } else if o == 5 {
        let mid = turn(&r, Turn::Rotate90);
        let out = turn(&mid, Turn::FlipHorizontal);
        assert forall|x: int, y: int, c: int|
            0 <= x < out.width && 0 <= y < out.height && 0 <= c < 4 implies #[trigger] sample(
                out.rgba@,
                out.width as int,
                x,
                y,
                c,
            ) == sample(r.rgba@, r.width as int, y, x, c) by {
            assert(sample(out.rgba@, out.width as int, x, y, c) == sample(
                mid.rgba@,
                mid.width as int,
                mid.width - 1 - x,
                y,
                c,
            ));
        }
        out
    } else if o == 6 {
        turn(&r, Turn::Rotate90)
    } else if o == 7 {
        let mid = turn(&r, Turn::Rotate270);
        let out = turn(&mid, Turn::FlipHorizontal);
        assert forall|x: int, y: int, c: int|
            0 <= x < out.width && 0 <= y < out.height && 0 <= c < 4 implies #[trigger] sample(
                out.rgba@,
                out.width as int,
                x,
                y,
                c,
            ) == sample(r.rgba@, r.width as int, r.width - 1 - y, r.height - 1 - x, c) by {
            assert(sample(out.rgba@, out.width as int, x, y, c) == sample(
                mid.rgba@,
                mid.width as int,
                mid.width - 1 - x,
                y,
                c,
            ));
        }
        out
    } else if o == 8 {
        turn(&r, Turn::Rotate270)
    } else {
        r
    }
}

} // verus!
