//! Pixel conversions for the video sender (YUYV, NV12 and BGRA to UYVY), the
//! four-character codes of the video network, and the received-frame record.
use crate::display::clamp_byte;
use vstd::prelude::*;

verus! {

/// Four-character code of UYVY frames ("UYVY", little-endian).
pub const NDILIBD_FOURCC_UYVY: u32 = 0x5956_5955;

/// Four-character code of BGRA frames ("BGRA", little-endian).
pub const NDILIBD_FOURCC_BGRA: u32 = 0x4152_4742;

/// Four-character code of BGRX frames ("BGRX", little-endian).
pub const NDILIBD_FOURCC_BGRX: u32 = 0x5852_4742;

/// Video frame received from the video network.
pub struct ReceivedFrame {
    pub width: u32,
    pub height: u32,
    pub fourcc: u32,
    pub stride: u32,
    pub data: Vec<u8>,
}

/// YUYV pairs reordered as UYVY; trailing bytes are ignored.
pub open spec fn yuyv_to_uyvy_spec(s: Seq<u8>) -> Seq<u8> {
    Seq::new(
        (s.len() / 4 * 4) as nat,
        |i: int|
            {
                let p = i / 4 * 4;
                let c = i % 4;
                if c == 0 {
                    s[p + 1]
                } else if c == 1 {
                    s[p]
                } else if c == 2 {
                    s[p + 3]
                } else {
                    s[p + 2]
                }
            },
    )
}

/// Converts YUYV (Y0 U Y1 V) to UYVY (U Y0 V Y1).
pub fn convert_yuyv_to_uyvy_scalar(yuyv: &[u8]) -> (r: Vec<u8>)
    ensures
        r@ == yuyv_to_uyvy_spec(yuyv@),
{
    let len = yuyv.len();
    let n = len / 4;
    let mut out: Vec<u8> = Vec::with_capacity(len);
    let mut k: usize = 0;
    while k < n
        invariant
            len == yuyv@.len(),
            n == len / 4,
            k <= n,
            out@ == yuyv_to_uyvy_spec(yuyv@).take(4 * k),
        decreases n - k,
    {
        assert(4 * k + 3 < yuyv@.len());
        let i = 4 * k;
        out.push(yuyv[i + 1]);
        out.push(yuyv[i]);
        out.push(yuyv[i + 3]);
        out.push(yuyv[i + 2]);
        k = k + 1;
        assert(out@ =~= yuyv_to_uyvy_spec(yuyv@).take(4 * k));
    }
    assert(out@ =~= yuyv_to_uyvy_spec(yuyv@));
    out
}

/// Byte `i` of `s`, or `d` past its end.
pub open spec fn get_or(s: Seq<u8>, i: int, d: u8) -> u8 {
    if 0 <= i < s.len() {
        s[i]
    } else {
        d
    }
}

/// Pixel pairs per row of a frame `width` pixels wide.
pub open spec fn pairs(width: int) -> int {
    (width + 1) / 2
}

/// The UYVY bytes of pixel pair `k` of an NV12 frame: luma from the first
/// `width * height` bytes, chroma from the interleaved plane after them (one
/// chroma row for two luma rows); a missing byte reads as 128.
pub open spec fn nv12_pair(s: Seq<u8>, width: int, height: int, k: int) -> Seq<u8> {
    let ysize = width * height;
    let yplane = s.take(if ysize < s.len() { ysize } else { s.len() as int });
    let uvplane = if s.len() > ysize { s.skip(ysize) } else { Seq::empty() };
    let row = k / pairs(width);
    let col = 2 * (k % pairs(width));
    let uv = (row / 2) * width + col;
    seq![
        get_or(uvplane, uv, 128),
        get_or(yplane, row * width + col, 128),
        get_or(uvplane, uv + 1, 128),
        get_or(yplane, row * width + col + 1, 128),
    ]
}

/// Converts an NV12 frame to UYVY, pair by pair in row order.
pub fn convert_nv12_to_uyvy(nv12: &[u8], width: usize, height: usize) -> (r: Vec<u8>)
    requires
        width * height * 2 <= usize::MAX,
    ensures
        r@.len() == 4 * (height * pairs(width as int)),
        forall|k: int|
            0 <= k < height * pairs(width as int) ==> #[trigger] r@.subrange(4 * k, 4 * k + 4)
                == nv12_pair(nv12@, width as int, height as int, k),
{
    let ysize = width * height;
    let len = nv12.len();
    let ppr = (width / 2) + (width % 2);
    assert(ppr == pairs(width as int));
    assert(height * ppr <= usize::MAX) by (nonlinear_arith)
        requires
            2 * ppr <= width + 1,
            ppr >= 0,
            width * height * 2 <= usize::MAX,
    {
        if width > 0 {
            assert(height * ppr <= height * width);
        }
    }
    let total = height * ppr;
    let mut out: Vec<u8> = Vec::new();
    let mut k: usize = 0;
    while k < total
        invariant
            len == nv12@.len(),
            ysize == width * height,
            width * height * 2 <= usize::MAX,
            ppr == pairs(width as int),
            total == height * ppr,
            k <= total,
            out@.len() == 4 * k,
            forall|j: int|
                0 <= j < k ==> #[trigger] out@.subrange(4 * j, 4 * j + 4) == nv12_pair(
                    nv12@,
                    width as int,
                    height as int,
                    j,
                ),
        decreases total - k,
    {
        proof {
            lemma_pair_index(k as int, ppr as int, width as int, height as int);
        }
        let row = k / ppr;
        let col = 2 * (k % ppr);
        let yi = row * width + col;
        let uvi = (row / 2) * width + col;
        let y0 = byte_or(nv12, yi, ysize, 128);
        let y1 = byte_or(nv12, yi + 1, ysize, 128);
        let u = chroma_or(nv12, ysize, uvi);
        let v = chroma_or(nv12, ysize, uvi + 1);
        let ghost before = out@;
        out.push(u);
        out.push(y0);
        out.push(v);
        out.push(y1);
        proof {
            assert(out@.subrange(4 * k, 4 * k + 4) =~= nv12_pair(
                nv12@,
                width as int,
                height as int,
                k as int,
            ));
            assert forall|j: int| 0 <= j < k + 1 implies #[trigger] out@.subrange(
                4 * j,
                4 * j + 4,
            ) == nv12_pair(nv12@, width as int, height as int, j) by {
                if j < k {
                    assert(out@.subrange(4 * j, 4 * j + 4) =~= before.subrange(4 * j, 4 * j + 4));
                }
            }
        }
        k = k + 1;
    }
    out
}

/// Byte `i` of the first `limit` bytes of `s`, or `d`.
fn byte_or(s: &[u8], i: usize, limit: usize, d: u8) -> (r: u8)
    ensures
        r == get_or(s@.take(if limit < s@.len() { limit as int } else { s@.len() as int }), i as int, d),
{
    if i < limit && i < s.len() {
        s[i]
    } else {
        d
    }
}

/// Byte `i` of the part of `s` after its first `start` bytes, or 128.
fn chroma_or(s: &[u8], start: usize, i: usize) -> (r: u8)
    requires
        start + i <= usize::MAX,
    ensures
        r == get_or(
            if s@.len() > start { s@.skip(start as int) } else { Seq::empty() },
            i as int,
            128,
        ),
{
    if s.len() > start && i < s.len() - start {
        s[start + i]
    } else {
        128
    }
}

/// `a >> 8` for a signed value: floor division by 256.
fn shr8(a: i32) -> (r: i32)
    requires
        a > i32::MIN + 256,
    ensures
        r == a as int / 256,
{
    if a >= 0 {
        a / 256
    } else {
        -((-a + 255) / 256)
    }
}

/// Byte `i` of `s`, or 0.
fn byte_or_zero(s: &[u8], i: usize) -> (r: i32)
    ensures
        r == get_or(s@, i as int, 0) as int,
{
    if i < s.len() {
        s[i] as i32
    } else {
        0
    }
}

/// Luma of one pixel (BT.601, studio range before clamping).
pub open spec fn luma(r: int, g: int, b: int) -> int {
    (66 * r + 129 * g + 25 * b + 128) / 256 + 16
}

/// The UYVY bytes of pixel pair `k` of a BGRA frame: the luma of each pixel,
/// the chroma of their average; a missing byte reads as 0.
pub open spec fn bgra_pair(s: Seq<u8>, width: int, k: int) -> Seq<u8> {
    let row = k / pairs(width);
    let col = 2 * (k % pairs(width));
    bgra_pair_at(s, (row * width + col) * 4, (row * width + col + 1) * 4)
}

/// The UYVY bytes of the two BGRA pixels at byte offsets `i0` and `i1`.
pub open spec fn bgra_pair_at(s: Seq<u8>, i0: int, i1: int) -> Seq<u8> {
    let b0 = get_or(s, i0, 0) as int;
    let g0 = get_or(s, i0 + 1, 0) as int;
    let r0 = get_or(s, i0 + 2, 0) as int;
    let b1 = get_or(s, i1, 0) as int;
    let g1 = get_or(s, i1 + 1, 0) as int;
    let r1 = get_or(s, i1 + 2, 0) as int;
    let r = (r0 + r1) / 2;
    let g = (g0 + g1) / 2;
    let b = (b0 + b1) / 2;
    let y0 = luma(r0, g0, b0);
    let y1 = luma(r1, g1, b1);
    let u = (-38 * r - 74 * g + 112 * b + 128) / 256 + 128;
    let v = (112 * r - 94 * g - 18 * b + 128) / 256 + 128;
    seq![
        clamp_byte(u),
        clamp_byte(if y0 < 16 { 16 } else if y0 > 235 { 235 } else { y0 }),
        clamp_byte(v),
        clamp_byte(if y1 < 16 { 16 } else if y1 > 235 { 235 } else { y1 }),
    ]
}

fn clamp_range(x: i32, lo: i32, hi: i32) -> (r: u8)
    requires
        0 <= lo <= hi <= 255,
    ensures
        r == clamp_byte(if x < lo { lo as int } else if x > hi { hi as int } else { x as int }),
{
    if x < lo {
        lo as u8
    } else if x > hi {
        hi as u8
    } else {
        x as u8
    }
}

/// The UYVY bytes of the two BGRA pixels at byte offsets `i0` and `i1`.
fn bgra_pair_bytes(bgra: &[u8], i0: usize, i1: usize) -> (r: [u8; 4])
    requires
        i0 + 2 <= usize::MAX,
        i1 + 2 <= usize::MAX,
    ensures
        r@ == bgra_pair_at(bgra@, i0 as int, i1 as int),
{
    let b0 = byte_or_zero(bgra, i0);
    let g0 = byte_or_zero(bgra, i0 + 1);
    let r0 = byte_or_zero(bgra, i0 + 2);
    let b1 = byte_or_zero(bgra, i1);
    let g1 = byte_or_zero(bgra, i1 + 1);
    let r1 = byte_or_zero(bgra, i1 + 2);
    let y0 = (66 * r0 + 129 * g0 + 25 * b0 + 128) / 256 + 16;
    let y1 = (66 * r1 + 129 * g1 + 25 * b1 + 128) / 256 + 16;
    let r = (r0 + r1) / 2;
    let g = (g0 + g1) / 2;
    let b = (b0 + b1) / 2;
    let u = shr8(-38 * r - 74 * g + 112 * b + 128) + 128;
    let v = shr8(112 * r - 94 * g - 18 * b + 128) + 128;
    let out = [clamp_range(u, 0, 255), clamp_range(y0, 16, 235), clamp_range(v, 0, 255), clamp_range(y1, 16, 235)];
    assert(out@ =~= bgra_pair_at(bgra@, i0 as int, i1 as int));
    out
}

/// Where pixel pair `k` of a frame `width` by `height` stands.
proof fn lemma_pair_index(k: int, ppr: int, width: int, height: int)
    requires
        0 <= k < height * ppr,
        ppr == pairs(width),
        width >= 0,
        height >= 0,
    ensures
        ppr > 0,
        k / ppr < height,
        2 * (k % ppr) + 1 <= width,
        (k / ppr) * width + 2 * (k % ppr) + 1 <= width * height,
        (k / ppr / 2) * width <= (k / ppr) * width,
{
    assert(ppr > 0) by (nonlinear_arith)
        requires
            k < height * ppr,
            ppr >= 0,
            k >= 0,
    ;
    let row = k / ppr;
    assert(row < height) by (nonlinear_arith)
        requires
            row == k / ppr,
            k < height * ppr,
            ppr > 0,
    ;
    assert(row * width + width <= height * width) by (nonlinear_arith)
        requires
            row < height,
            width >= 0,
    ;
    assert((row / 2) * width <= row * width) by (nonlinear_arith)
        requires
            row >= 0,
            width >= 0,
    ;
}

/// Converts a BGRA frame to UYVY, pair by pair in row order.
pub fn convert_bgra_to_uyvy(bgra: &[u8], width: usize, height: usize) -> (r: Vec<u8>)
    requires
        width * height * 4 <= usize::MAX,
    ensures
        r@.len() == 4 * (height * pairs(width as int)),
        forall|k: int|
            0 <= k < height * pairs(width as int) ==> #[trigger] r@.subrange(4 * k, 4 * k + 4)
                == bgra_pair(bgra@, width as int, k),
{
    let ppr = (width / 2) + (width % 2);
    assert(ppr == pairs(width as int));
    assert(height * ppr <= usize::MAX) by (nonlinear_arith)
        requires
            2 * ppr <= width + 1,
            width * height * 4 <= usize::MAX,
    {
        if width > 0 {
            assert(height * ppr <= height * width);
        }
    }
    let total = height * ppr;
    let mut out: Vec<u8> = Vec::new();
    let mut k: usize = 0;
    while k < total
        invariant
            width * height * 4 <= usize::MAX,
            ppr == pairs(width as int),
            total == height * ppr,
            k <= total,
            out@.len() == 4 * k,
            forall|j: int|
                0 <= j < k ==> #[trigger] out@.subrange(4 * j, 4 * j + 4) == bgra_pair(
                    bgra@,
                    width as int,
                    j,
                ),
        decreases total - k,
    {
        proof {
            lemma_pair_index(k as int, ppr as int, width as int, height as int);
        }
        let row = k / ppr;
        let col = 2 * (k % ppr);
        assert((row * width + col + 1) * 4 <= width * height * 4);
        let i0 = (row * width + col) * 4;
        let i1 = (row * width + col + 1) * 4;
        let px = bgra_pair_bytes(bgra, i0, i1);
        let ghost before = out@;
        out.push(px[0]);
        out.push(px[1]);
        out.push(px[2]);
        out.push(px[3]);
        proof {
            assert(out@.subrange(4 * k, 4 * k + 4) =~= bgra_pair(bgra@, width as int, k as int));
            assert forall|j: int| 0 <= j < k + 1 implies #[trigger] out@.subrange(
                4 * j,
                4 * j + 4,
            ) == bgra_pair(bgra@, width as int, j) by {
                if j < k {
                    assert(out@.subrange(4 * j, 4 * j + 4) =~= before.subrange(4 * j, 4 * j + 4));
                }
            }
        }
        k = k + 1;
    }
    out
}

/// Pixel formats of captured frames that the sender takes.
#[derive(Debug, Clone, Copy, PartialEq, Eq, Structural)]
pub enum SourceFormat {
    /// UYVY, sent as it is.
    Uyvy,
    /// YUYV, reordered to UYVY.
    Yuyv,
    /// NV12, converted to UYVY.
    Nv12,
    /// Motion JPEG, decoded to UYVY.
    Mjpeg,
    /// 32-bit BGRA ("BGRA", "BGR4" or "RX24"), converted to UYVY.
    Bgra,
}

/// The four bytes of a four-character code as text.
pub open spec fn code_is(c: [u8; 4], a: char, b: char, d: char, e: char) -> bool {
    c@ == seq![a as u8, b as u8, d as u8, e as u8]
}

/// The source format of a capture four-character code, if the sender takes it.
pub fn source_format(code: [u8; 4]) -> (r: Option<SourceFormat>)
    ensures
        r == (if code_is(code, 'U', 'Y', 'V', 'Y') {
            Some(SourceFormat::Uyvy)
        } else if code_is(code, 'Y', 'U', 'Y', 'V') {
            Some(SourceFormat::Yuyv)
        } else if code_is(code, 'N', 'V', '1', '2') {
            Some(SourceFormat::Nv12)
        } else if code_is(code, 'M', 'J', 'P', 'G') {
            Some(SourceFormat::Mjpeg)
        } else if code_is(code, 'B', 'G', 'R', 'A') || code_is(code, 'B', 'G', 'R', '4')
            || code_is(code, 'R', 'X', '2', '4') {
            Some(SourceFormat::Bgra)
        } else {
            None
        }),
{
    let c0 = code[0];
    let c1 = code[1];
    let c2 = code[2];
    let c3 = code[3];
    proof {
        assert(code@ =~= seq![c0, c1, c2, c3]);
    }
    if c0 == 85 && c1 == 89 && c2 == 86 && c3 == 89 {
        Some(SourceFormat::Uyvy)
    } else if c0 == 89 && c1 == 85 && c2 == 89 && c3 == 86 {
        Some(SourceFormat::Yuyv)
    } else if c0 == 78 && c1 == 86 && c2 == 49 && c3 == 50 {
        Some(SourceFormat::Nv12)
    } else if c0 == 77 && c1 == 74 && c2 == 80 && c3 == 71 {
        Some(SourceFormat::Mjpeg)
    } else if (c0 == 66 && c1 == 71 && c2 == 82 && (c3 == 65 || c3 == 52)) || (c0 == 82 && c1
        == 88 && c2 == 50 && c3 == 52) {
        Some(SourceFormat::Bgra)
    } else {
        None
    }
}

} // verus!
