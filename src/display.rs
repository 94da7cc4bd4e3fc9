//! Pixel conversions for the local display: packed 4:2:2 YUV to BGRA, RGBA
//! to BGRA, and nearest-neighbour scaling of 32-bit pixels.
use crate::ndi::{NDILIBD_FOURCC_BGRA, NDILIBD_FOURCC_BGRX};
use vstd::prelude::*;

verus! {

/// `a / 256` rounded toward zero.
pub open spec fn tdiv256(a: int) -> int {
    if a >= 0 {
        a / 256
    } else {
        -((-a) / 256)
    }
}

/// `x` limited to 0..=255.
pub open spec fn clamp_byte(x: int) -> u8 {
    if x < 0 {
        0
    } else if x > 255 {
        255
    } else {
        x as u8
    }
}

/// BGRA of one pixel of luma `y` and centred chroma `u`, `v` (BT.601,
/// fixed point).
pub open spec fn yuv_pixel(y: int, u: int, v: int) -> Seq<u8> {
    seq![
        clamp_byte(y + tdiv256(454 * u)),
        clamp_byte(y - tdiv256(88 * u) - tdiv256(183 * v)),
        clamp_byte(y + tdiv256(359 * v)),
        255u8,
    ]
}

/// Pixel pairs per row of a frame `width` pixels wide.
pub open spec fn pairs_per_row(width: int) -> int {
    (width + 1) / 2
}

/// Byte offset in a packed 4:2:2 frame of the `k`-th pixel pair.
pub open spec fn pair_offset(width: int, k: int) -> int {
    ((k / pairs_per_row(width)) * width + 2 * (k % pairs_per_row(width))) * 2
}

/// The `k`-th pixel pair lies wholly inside a buffer of `len` bytes.
pub open spec fn pair_fits(len: int, width: int, k: int) -> bool {
    pair_offset(width, k) + 3 < len
}

/// BGRA of the pixel pair at byte offset `i` of a UYVY buffer.
pub open spec fn uyvy_pair_bgra(s: Seq<u8>, i: int) -> Seq<u8> {
    let u = s[i] as int - 128;
    let v = s[i + 2] as int - 128;
    yuv_pixel(s[i + 1] as int, u, v) + yuv_pixel(s[i + 3] as int, u, v)
}

/// `a / 256` toward zero.
fn tdiv(a: i32) -> (r: i32)
    requires
        a > i32::MIN,
    ensures
        r == tdiv256(a as int),
{
    if a >= 0 {
        a / 256
    } else {
        -((-a) / 256)
    }
}

fn clamp_u8(x: i32) -> (r: u8)
    ensures
        r == clamp_byte(x as int),
{
    if x < 0 {
        0
    } else if x > 255 {
        255
    } else {
        x as u8
    }
}

/// Converts a UYVY frame to BGRA, pair by pair in row order, stopping at the
/// first pair that the buffer does not hold whole.
pub fn convert_uyvy_to_bgra(uyvy: &[u8], width: u32, height: u32) -> (r: Vec<u8>)
    ensures
        r@.len() % 8 == 0,
        forall|k: int| 0 <= k < r@.len() / 8 ==> pair_fits(uyvy@.len() as int, width as int, k),
        r@.len() / 8 == height * pairs_per_row(width as int) || !pair_fits(
            uyvy@.len() as int,
            width as int,
            r@.len() as int / 8,
        ),
        r@.len() / 8 <= height * pairs_per_row(width as int),
        forall|k: int|
            0 <= k < r@.len() / 8 ==> #[trigger] r@.subrange(8 * k, 8 * k + 8) == uyvy_pair_bgra(
                uyvy@,
                pair_offset(width as int, k),
            ),
{
    let ppr: u64 = (width as u64 + 1) / 2;
    assert(height as u64 * ppr <= 0xffff_ffff * 0x8000_0000) by (nonlinear_arith)
        requires
            height <= 0xffff_ffff,
            ppr <= 0x8000_0000,
    ;
    let total: u64 = height as u64 * ppr;
    let len = uyvy.len();
    let mut out: Vec<u8> = Vec::new();
    let mut k: u64 = 0;
    let mut done = false;
    while k < total && !done
        invariant
            done ==> !pair_fits(len as int, width as int, k as int),
            ppr == pairs_per_row(width as int),
            total == height * ppr,
            len == uyvy@.len(),
            k <= total,
            out@.len() == 8 * k,
            forall|j: int| 0 <= j < k ==> pair_fits(len as int, width as int, j),
            forall|j: int|
                0 <= j < k ==> #[trigger] out@.subrange(8 * j, 8 * j + 8) == uyvy_pair_bgra(
                    uyvy@,
                    pair_offset(width as int, j),
                ),
        decreases total - k + (if done {
            0int
        } else {
            1int
        }),
    {
        assert(ppr > 0) by (nonlinear_arith)
            requires
                k < height * ppr,
                ppr >= 0,
        ;
        let row = k / ppr;
        let col = 2 * (k % ppr);
        assert(row < height) by (nonlinear_arith)
            requires
                row == k / ppr,
                k < height * ppr,
                ppr > 0,
        ;
        assert(row * width <= 0xffff_ffff * 0xffff_ffff) by (nonlinear_arith)
            requires
                row < height,
                height <= 0xffff_ffff,
                width <= 0xffff_ffff,
        ;
        let idx: u128 = ((row as u128) * (width as u128) + (col as u128)) * 2;
        assert(idx == pair_offset(width as int, k as int));
        if idx + 3 >= len as u128 {
            done = true;
            continue ;
        }
        let i = idx as usize;
        let u = uyvy[i] as i32 - 128;
        let y0 = uyvy[i + 1] as i32;
        let v = uyvy[i + 2] as i32 - 128;
        let y1 = uyvy[i + 3] as i32;
        let rv = tdiv(359 * v);
        let gu = tdiv(88 * u);
        let gv = tdiv(183 * v);
        let bu = tdiv(454 * u);
        let ghost before = out@;
        out.push(clamp_u8(y0 + bu));
        out.push(clamp_u8(y0 - gu - gv));
        out.push(clamp_u8(y0 + rv));
        out.push(255);
        out.push(clamp_u8(y1 + bu));
        out.push(clamp_u8(y1 - gu - gv));
        out.push(clamp_u8(y1 + rv));
        out.push(255);
        proof {
            assert(out@.subrange(8 * k, 8 * k + 8) =~= uyvy_pair_bgra(uyvy@, i as int));
            assert forall|j: int| 0 <= j < k + 1 implies #[trigger] out@.subrange(
                8 * j,
                8 * j + 8,
            ) == uyvy_pair_bgra(uyvy@, pair_offset(width as int, j)) by {
                if j < k {
                    assert(out@.subrange(8 * j, 8 * j + 8) =~= before.subrange(8 * j, 8 * j + 8));
                }
            }
        }
        k = k + 1;
    }
    assert(out@.len() / 8 == k as int);
    out
}

/// RGBA pixels with red and blue swapped; trailing bytes are ignored.
pub open spec fn rgba_to_bgra_spec(s: Seq<u8>) -> Seq<u8> {
    Seq::new(
        (s.len() / 4 * 4) as nat,
        |i: int|
            {
                let p = i / 4 * 4;
                let c = i % 4;
                if c == 0 {
                    s[p + 2]
                } else if c == 2 {
                    s[p]
                } else {
                    s[i]
                }
            },
    )
}

/// Converts RGBA pixels to BGRA.
pub fn convert_rgba_to_bgra(rgba: &[u8]) -> (r: Vec<u8>)
    ensures
        r@ == rgba_to_bgra_spec(rgba@),
{
    let len = rgba.len();
    let n = len / 4;
    let mut out: Vec<u8> = Vec::with_capacity(len);
    let mut k: usize = 0;
    while k < n
        invariant
            len == rgba@.len(),
            n == rgba@.len() / 4,
            k <= n,
            out@ == rgba_to_bgra_spec(rgba@).take(4 * k),
        decreases n - k,
    {
        assert(4 * k + 3 < rgba@.len());
        let i = 4 * k;
        out.push(rgba[i + 2]);
        out.push(rgba[i + 1]);
        out.push(rgba[i]);
        out.push(rgba[i + 3]);
        k = k + 1;
        assert(out@ =~= rgba_to_bgra_spec(rgba@).take(4 * k));
    }
    assert(out@ =~= rgba_to_bgra_spec(rgba@));
    out
}

/// The source coordinate that destination coordinate `d` samples, of `dn`
/// destination and `sn` source pixels.
pub open spec fn nearest(d: int, sn: int, dn: int) -> int {
    if d * sn / dn < sn - 1 {
        d * sn / dn
    } else {
        sn - 1
    }
}

/// Byte offset in the source of the pixel that destination pixel `p` takes.
pub open spec fn source_offset(p: int, sw: int, sh: int, dw: int, dh: int) -> int {
    (nearest(p / dw, sh, dh) * sw + nearest(p % dw, sw, dw)) * 4
}

/// Nearest-neighbour scaling: each destination pixel copies the source pixel
/// at its scaled coordinates, or stays zero where the source buffer does not
/// hold it.
pub open spec fn scale_spec(s: Seq<u8>, sw: int, sh: int, dw: int, dh: int) -> Seq<u8> {
    Seq::new(
        (dw * dh * 4) as nat,
        |i: int|
            {
                let o = source_offset(i / 4, sw, sh, dw, dh);
                if o + 3 < s.len() {
                    s[o + i % 4]
                } else {
                    0u8
                }
            },
    )
}

/// Scales a frame of 32-bit pixels to `dst_w` by `dst_h`, nearest neighbour.
pub fn scale_nearest_neighbor(src: &[u8], src_w: u32, src_h: u32, dst_w: u32, dst_h: u32) -> (r: Vec<
    u8,
>)
    requires
        dst_h > 0 ==> src_h > 0,
        dst_h > 0 && dst_w > 0 ==> src_w > 0,
        dst_w * dst_h * 4 <= usize::MAX,
    ensures
        r@ == scale_spec(src@, src_w as int, src_h as int, dst_w as int, dst_h as int),
{
    let dw = dst_w as u64;
    let dh = dst_h as u64;
    let sw = src_w as u64;
    let sh = src_h as u64;
    let total: u64 = dw * dh;
    let ghost want = scale_spec(src@, sw as int, sh as int, dw as int, dh as int);
    let mut out: Vec<u8> = Vec::new();
    let mut p: u64 = 0;
    while p < total
        invariant
            total == dw * dh,
            dw == dst_w,
            dh == dst_h,
            sw == src_w,
            sh == src_h,
            dh > 0 ==> sh > 0,
            dh > 0 && dw > 0 ==> sw > 0,
            want == scale_spec(src@, sw as int, sh as int, dw as int, dh as int),
            p <= total,
            out@ == want.take(4 * p),
        decreases total - p,
    {
        let dy = p / dw;
        let dx = p % dw;
        assert(dy < dh) by (nonlinear_arith)
            requires
                dy == p / dw,
                p < dw * dh,
                dw > 0,
        ;
        assert(dy * sh <= 0xffff_ffff * 0xffff_ffff && dx * sw <= 0xffff_ffff * 0xffff_ffff)
            by (nonlinear_arith)
            requires
                dy < 0x1_0000_0000,
                dx < 0x1_0000_0000,
                sh <= 0xffff_ffff,
                sw <= 0xffff_ffff,
        ;
        let qy = dy * sh / dh;
        let sy = if qy < sh - 1 {
            qy
        } else {
            sh - 1
        };
        let qx = dx * sw / dw;
        let sx = if qx < sw - 1 {
            qx
        } else {
            sw - 1
        };
        assert(sy * sw <= 0xffff_ffff * 0xffff_ffff) by (nonlinear_arith)
            requires
                sy < sh,
                sh <= 0xffff_ffff,
                sw <= 0xffff_ffff,
        ;
        let off: u128 = ((sy as u128) * (sw as u128) + (sx as u128)) * 4;
        assert(off == source_offset(p as int, sw as int, sh as int, dw as int, dh as int));
        let ghost before = out@;
        if off + 3 < src.len() as u128 {
            let o = off as usize;
            out.push(src[o]);
            out.push(src[o + 1]);
            out.push(src[o + 2]);
            out.push(src[o + 3]);
        } else {
            out.push(0);
            out.push(0);
            out.push(0);
            out.push(0);
        }
        proof {
            assert(4 * p + 4 <= want.len()) by (nonlinear_arith)
                requires
                    p < dw * dh,
                    want.len() == dw * dh * 4,
            ;
        }
        p = p + 1;
        assert(out@ =~= want.take(4 * p));
    }
    proof {
        assert(want.len() == 4 * total) by (nonlinear_arith)
            requires
                want.len() == dw * dh * 4,
                total == dw * dh,
        ;
    }
    assert(out@ =~= want);
    out
}

/// Four-character code of RGBA frames ("RGBA", little-endian).
pub const FOURCC_RGBA: u32 = 0x4142_4752;

/// Converts a received frame to BGRA by its four-character code: UYVY is
/// converted, BGRA and BGRX are copied, RGBA is swizzled; any other code is
/// read as UYVY.
pub fn frame_to_bgra(data: &[u8], width: u32, height: u32, fourcc: u32) -> (r: Vec<u8>)
    ensures
        (fourcc == NDILIBD_FOURCC_BGRA || fourcc == NDILIBD_FOURCC_BGRX) ==> r@ == data@,
        fourcc == FOURCC_RGBA ==> r@ == rgba_to_bgra_spec(data@),
        fourcc != NDILIBD_FOURCC_BGRA && fourcc != NDILIBD_FOURCC_BGRX && fourcc != FOURCC_RGBA
            ==> {
            &&& r@.len() % 8 == 0
            &&& r@.len() / 8 <= height * pairs_per_row(width as int)
            &&& forall|k: int|
                0 <= k < r@.len() / 8 ==> #[trigger] r@.subrange(8 * k, 8 * k + 8)
                    == uyvy_pair_bgra(data@, pair_offset(width as int, k))
            &&& forall|k: int|
                0 <= k < r@.len() / 8 ==> pair_fits(data@.len() as int, width as int, k)
            &&& (r@.len() / 8 == height * pairs_per_row(width as int) || !pair_fits(
                data@.len() as int,
                width as int,
                r@.len() as int / 8,
            ))
        },
{
    if fourcc == NDILIBD_FOURCC_BGRA || fourcc == NDILIBD_FOURCC_BGRX {
        vstd::slice::slice_to_vec(data)
    } else if fourcc == FOURCC_RGBA {
        convert_rgba_to_bgra(data)
    } else {
        convert_uyvy_to_bgra(data, width, height)
    }
}

} // verus!
