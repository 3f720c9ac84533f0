//! Byte-level operations on pixel buffers.
use vstd::prelude::*;

verus! {

/// Every row of `h` rows of `row` bytes, `stride` bytes apart, lies within `len` bytes.
pub open spec fn rows_fit(len: int, stride: int, row: int, h: int) -> bool {
    h == 0 || (h - 1) * stride + row <= len
}

/// Packs `height` rows of `width` RGBA pixels that lie `stride` bytes apart into a buffer
/// without padding; `None` when a row would run past the end of `data`.
pub fn pack_rows(data: &Vec<u8>, stride: usize, width: u32, height: u32) -> (r: Option<Vec<u8>>)
    ensures
        r is Some <==> rows_fit(data@.len() as int, stride as int, width * 4, height as int),
        r matches Some(v) ==> {
            &&& v@.len() == width * height * 4
            &&& forall|y: int, i: int|
                0 <= y < height && 0 <= i < width * 4 ==> #[trigger] v@[y * (width * 4) + i]
                    == data@[y * stride + i]
        },
{
    let row: u64 = width as u64 * 4;
    let len = data.len();
    if height == 0 {
        return Some(Vec::new());
    }
    proof {
        let (hh, ss) = ((height - 1) as int, stride as int);
        assert(0 <= hh * ss <= 0xFFFF_FFFF * 0xFFFF_FFFF_FFFF_FFFF) by (nonlinear_arith)
            requires
                0 <= hh <= 0xFFFF_FFFF,
                0 <= ss <= 0xFFFF_FFFF_FFFF_FFFF,
        ;
    }
    let last_start: u128 = (height as u128 - 1) * stride as u128;
    if last_start + row as u128 > len as u128 {
        return None;
    }
    let ghost rl = row as int;
    let ghost st = stride as int;
    let ghost h = height as int;
    proof {
        assert(0 <= (h - 1) * st) by (nonlinear_arith)
            requires
                h >= 1,
                st >= 0,
        ;
    }
    let mut out: Vec<u8> = Vec::new();
    let mut y: u32 = 0;
    while y < height
        invariant
            y <= height,
            h == height,
            rl == row,
            rl == width * 4,
            st == stride,
            len == data@.len(),
            (h - 1) * st + rl <= len,
            out@.len() == y * rl,
            forall|yy: int, i: int|
                0 <= yy < y && 0 <= i < rl ==> #[trigger] out@[yy * rl + i] == data@[yy * st + i],
        decreases height - y,
    {
        let ghost yi = y as int;
        proof {
            assert(yi * st <= (h - 1) * st) by (nonlinear_arith)
                requires
                    0 <= yi <= h - 1,
                    st >= 0,
            ;
            assert(0 <= yi * st) by (nonlinear_arith)
                requires
                    0 <= yi,
                    st >= 0,
            ;
        }
        let start: usize = y as usize * stride;
        let mut i: usize = 0;
        let ghost before = out@;
        while i < row as usize
            invariant
                i <= rl,
                rl == row,
                start == yi * st,
                start + rl <= len,
                len == data@.len(),
                before.len() == yi * rl,
                out@.len() == yi * rl + i,
                forall|k: int| 0 <= k < before.len() ==> out@[k] == before[k],
                forall|k: int| 0 <= k < i ==> #[trigger] out@[yi * rl + k] == data@[start + k],
            decreases rl - i,
        {
            out.push(data[start + i]);
            i = i + 1;
        }
        proof {
            assert forall|yy: int, k: int| 0 <= yy < yi + 1 && 0 <= k < rl implies #[trigger] out@[yy
                * rl + k] == data@[yy * st + k] by {
                if yy < yi {
                    assert(yy * rl + k < yi * rl) by (nonlinear_arith)
                        requires
                            0 <= yy < yi,
                            0 <= k < rl,
                    ;
                    assert(before[yy * rl + k] == data@[yy * st + k]);
                } else {
                    assert(yy == yi);
                }
            }
            assert((yi + 1) * rl == yi * rl + rl) by (nonlinear_arith);
        }
        y = y + 1;
    }
    proof {
        assert(h * rl == width * height * 4) by (nonlinear_arith)
            requires
                rl == width * 4,
                h == height,
        ;
        assert forall|yy: int, i: int| 0 <= yy < height && 0 <= i < width * 4 implies #[trigger] out@[yy
            * (width * 4) + i] == data@[yy * stride + i] by {
            assert(out@[yy * rl + i] == data@[yy * st + i]);
        }
    }
    Some(out)
}

/// Some pixel of an RGBA buffer is not fully opaque.
pub open spec fn has_translucent_pixel(rgba: Seq<u8>) -> bool {
    exists|i: int| 0 <= i < rgba.len() / 4 && #[trigger] rgba[4 * i + 3] < 255
}

/// Whether some pixel of an RGBA buffer is not fully opaque.
pub fn any_translucent(rgba: &Vec<u8>) -> (r: bool)
    ensures
        r == has_translucent_pixel(rgba@),
{
    let len = rgba.len();
    let n = len / 4;
    let mut i: usize = 0;
    while i < n
        invariant
            len == rgba@.len(),
            n == rgba@.len() / 4,
            i <= n,
            forall|j: int| 0 <= j < i ==> #[trigger] rgba@[4 * j + 3] == 255,
        decreases n - i,
    {
        if rgba[4 * i + 3] < 255 {
            return true;
        }
        i = i + 1;
    }
    false
}

/// The RGB bytes of an RGBA buffer: each pixel without its alpha byte.
pub open spec fn is_rgb_of(rgb: Seq<u8>, rgba: Seq<u8>) -> bool {
    &&& rgb.len() == 3 * (rgba.len() / 4)
    &&& forall|i: int, c: int|
        0 <= i < rgba.len() / 4 && 0 <= c < 3 ==> #[trigger] rgb[3 * i + c] == rgba[4 * i + c]
}

/// The RGB bytes of an RGBA buffer.
pub open spec fn rgb_of(rgba: Seq<u8>) -> Seq<u8> {
    Seq::new((3 * (rgba.len() / 4)) as nat, |k: int| rgba[4 * (k / 3) + k % 3])
}

/// Drops the alpha byte of every pixel.
pub fn rgb_bytes(rgba: &Vec<u8>) -> (r: Vec<u8>)
    ensures
        is_rgb_of(r@, rgba@),
        r@ == rgb_of(rgba@),
{
    let len = rgba.len();
    let n = len / 4;
    let mut out: Vec<u8> = Vec::new();
    let mut i: usize = 0;
    while i < n
        invariant
            len == rgba@.len(),
            n == rgba@.len() / 4,
            i <= n,
            out@.len() == 3 * i,
            forall|j: int, c: int| 0 <= j < i && 0 <= c < 3 ==> #[trigger] out@[3 * j + c] == rgba@[4 * j + c],
        decreases n - i,
    {
        out.push(rgba[4 * i]);
        out.push(rgba[4 * i + 1]);
        out.push(rgba[4 * i + 2]);
        proof {
            assert forall|j: int, c: int| 0 <= j < i + 1 && 0 <= c < 3 implies #[trigger] out@[3 * j + c]
                == rgba@[4 * j + c] by {
                if j == i {
                    assert(c == 0 || c == 1 || c == 2);
                }
            }
        }
        i = i + 1;
    }
    assert forall|k: int| 0 <= k < out@.len() implies out@[k] == rgb_of(rgba@)[k] by {
        let j = k / 3;
        let c = k % 3;
        assert(k == 3 * j + c);
        assert(out@[3 * j + c] == rgba@[4 * j + c]);
    }
    assert(out@ =~= rgb_of(rgba@));
    out
}

/// `out` holds the color channels of `color` and the alpha channel of `alpha`.
pub open spec fn is_alpha_merge(out: Seq<u8>, color: Seq<u8>, alpha: Seq<u8>) -> bool {
    &&& out.len() == alpha.len()
    &&& forall|i: int, c: int|
        0 <= i < alpha.len() / 4 && 0 <= c < 4 ==> #[trigger] out[4 * i + c] == if c == 3 {
            alpha[4 * i + 3]
        } else {
            color[4 * i + c]
        }
}

/// Combines the color channels of one RGBA buffer with the alpha channel of another.
pub fn merge_alpha(color: &Vec<u8>, alpha: &Vec<u8>) -> (r: Vec<u8>)
    requires
        color@.len() == alpha@.len(),
        alpha@.len() % 4 == 0,
    ensures
        is_alpha_merge(r@, color@, alpha@),
{
    let len = alpha.len();
    let n = len / 4;
    let mut out: Vec<u8> = Vec::new();
    let mut i: usize = 0;
    while i < n
        invariant
            len == alpha@.len(),
            n == alpha@.len() / 4,
            alpha@.len() % 4 == 0,
            color@.len() == alpha@.len(),
            i <= n,
            out@.len() == 4 * i,
            forall|j: int, c: int|
                0 <= j < i && 0 <= c < 4 ==> #[trigger] out@[4 * j + c] == if c == 3 {
                    alpha@[4 * j + 3]
                } else {
                    color@[4 * j + c]
                },
        decreases n - i,
    {
        out.push(color[4 * i]);
        out.push(color[4 * i + 1]);
        out.push(color[4 * i + 2]);
        out.push(alpha[4 * i + 3]);
        proof {
            assert forall|j: int, c: int| 0 <= j < i + 1 && 0 <= c < 4 implies #[trigger] out@[4 * j
                + c] == if c == 3 {
                alpha@[4 * j + 3]
            } else {
                color@[4 * j + c]
            } by {
                if j == i {
                    assert(c == 0 || c == 1 || c == 2 || c == 3);
                }
            }
        }
        i = i + 1;
    }
    out
}

} // verus!
