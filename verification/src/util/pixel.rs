//! Pixel format conversion helpers shared across backends.

use vstd::prelude::*;
use vstd::arithmetic::div_mod::lemma_fundamental_div_mod_converse;

use crate::error::Error;
use crate::pixel::{spec_frame_size, yuv420_bytes, PixelFormat};

verus! {

/// Byte `k` of the NV12 picture made from an I420 picture of `w × h`:
/// the luma plane is copied; chroma row `r` of the NV12 plane holds
/// `U, V` pairs taken from row `r` of the U and V planes; bytes outside the
/// pairs stay zero.
pub open spec fn nv12_byte(i420: Seq<u8>, w: nat, h: nat, k: nat) -> u8 {
    let y = w * h;
    let uvw = w / 2;
    let uvh = h / 2;
    if k < y {
        i420[k as int]
    } else {
        let off = (k - y) as nat;
        let row = off / w;
        let col = off % w;
        if row < uvh && col < 2 * uvw {
            if col % 2 == 0 {
                i420[(y + row * uvw + col / 2) as int]
            } else {
                i420[(y + uvw * uvh + row * uvw + col / 2) as int]
            }
        } else {
            0
        }
    }
}

/// The NV12 picture made from an I420 picture of `w × h`.
pub open spec fn spec_i420_to_nv12(i420: Seq<u8>, w: nat, h: nat) -> Seq<u8> {
    Seq::new(w * h + (w * h) / 2, |k: int| nv12_byte(i420, w, h, k as nat))
}

/// What `i420_to_nv12` returns.
pub open spec fn i420_to_nv12_result(i420: Seq<u8>, width: u32, height: u32) -> Result<Seq<u8>, Error> {
    match spec_frame_size(width, height) {
        Err(e) => Err(e),
        Ok(expected) => if i420.len() != expected {
            Err(Error::PixelBufferMismatch { expected, actual: i420.len() as usize })
        } else {
            Ok(spec_i420_to_nv12(i420, width as nat, height as nat))
        },
    }
}

proof fn lemma_chroma_bounds(w: nat, h: nat)
    ensures
        w * (h / 2) <= (w * h) / 2,
        2 * (w / 2) * (h / 2) <= (w * h) / 2,
        (w / 2) * (h / 2) + (w / 2) * (h / 2) == 2 * (w / 2) * (h / 2),
{
    assert(w * (h / 2) <= (w * h) / 2) by (nonlinear_arith);
    assert(2 * (w / 2) <= w) by (nonlinear_arith);
    assert(2 * (w / 2) * (h / 2) <= w * (h / 2)) by (nonlinear_arith)
        requires
            2 * (w / 2) <= w,
    ;
    assert((w / 2) * (h / 2) + (w / 2) * (h / 2) == 2 * (w / 2) * (h / 2)) by (nonlinear_arith);
}

proof fn lemma_row_index(uvw: nat, row: nat, col: nat, uvh: nat)
    requires
        row < uvh,
        col < 2 * uvw,
    ensures
        row * uvw + col / 2 < uvh * uvw,
{
    assert(col / 2 < uvw);
    assert(row * uvw + col / 2 < (row + 1) * uvw) by (nonlinear_arith)
        requires
            col / 2 < uvw,
    ;
    assert((row + 1) * uvw <= uvh * uvw) by (nonlinear_arith)
        requires
            row < uvh,
    ;
}

/// Converts packed I420 into tightly-packed NV12.
///
/// I420: Y plane, U plane, V plane (each plane contiguous).
/// NV12: Y plane, interleaved UV plane (U at even offsets, V at odd).
///
/// Fails with the `frame_size` error, or with [`Error::PixelBufferMismatch`]
/// when `i420` is not `PixelFormat::I420.frame_size(width, height)` long.
pub fn i420_to_nv12(i420: &[u8], width: u32, height: u32) -> (r: Result<Vec<u8>, Error>)
    ensures
        match r {
            Ok(v) => i420_to_nv12_result(i420@, width, height) == Ok::<Seq<u8>, Error>(v@),
            Err(e) => i420_to_nv12_result(i420@, width, height) == Err::<Seq<u8>, Error>(e),
        },
{
    let expected = match PixelFormat::I420.frame_size(width, height) {
        Ok(e) => e,
        Err(e) => return Err(e),
    };
    if i420.len() != expected {
        return Err(Error::PixelBufferMismatch { expected, actual: i420.len() });
    }
    let ghost wn = width as nat;
    let ghost hn = height as nat;
    let w = width as usize;
    let h = height as usize;
    assert(w * h <= yuv420_bytes(width, height)) by (nonlinear_arith)
        requires
            w == width,
            h == height,
    ;
    let y_size = w * h;
    let uv_w = w / 2;
    let uv_h = h / 2;
    let total = y_size + y_size / 2;
    proof {
        lemma_chroma_bounds(wn, hn);
    }
    assert(uv_h * w <= y_size / 2) by (nonlinear_arith)
        requires
            w * (h / 2) <= (w * h) / 2,
            uv_h == h / 2,
            y_size == w * h,
    ;
    let u_src = y_size;
    let v_src = u_src + uv_w * uv_h;
    let ghost spec = spec_i420_to_nv12(i420@, wn, hn);
    let mut nv12: Vec<u8> = Vec::new();
    let mut k: usize = 0;
    while k < y_size
        invariant
            k <= y_size,
            y_size == w * h,
            w == wn,
            h == hn,
            i420@.len() == total,
            total == y_size + y_size / 2,
            spec == spec_i420_to_nv12(i420@, wn, hn),
            nv12@ == spec.subrange(0, k as int),
        decreases y_size - k,
    {
        nv12.push(i420[k]);
        k = k + 1;
        assert(nv12@ =~= spec.subrange(0, k as int));
    }
    let mut row: usize = 0;
    while row < uv_h
        invariant
            row <= uv_h,
            uv_h == h / 2,
            uv_w == w / 2,
            uv_h * w <= y_size / 2,
            y_size == w * h,
            w == wn,
            h == hn,
            u_src == y_size,
            v_src == u_src + uv_w * uv_h,
            2 * uv_w * uv_h <= y_size / 2,
            uv_w * uv_h + uv_w * uv_h == 2 * uv_w * uv_h,
            i420@.len() == total,
            total == y_size + y_size / 2,
            spec == spec_i420_to_nv12(i420@, wn, hn),
            nv12@ == spec.subrange(0, (y_size + row * w) as int),
        decreases uv_h - row,
    {
        assert((row + 1) * w <= uv_h * w) by (nonlinear_arith)
            requires
                row < uv_h,
        ;
        assert(row * w + w == (row + 1) * w) by (nonlinear_arith);
        let mut col: usize = 0;
        while col < w
            invariant
                row < uv_h,
                col <= w,
                uv_h == h / 2,
                uv_w == w / 2,
                y_size == w * h,
                w == wn,
                h == hn,
                u_src == y_size,
                v_src == u_src + uv_w * uv_h,
                2 * uv_w * uv_h <= y_size / 2,
                uv_w * uv_h + uv_w * uv_h == 2 * uv_w * uv_h,
                (row + 1) * w <= uv_h * w,
                row * w + w == (row + 1) * w,
                uv_h * w <= y_size / 2,
                i420@.len() == total,
                total == y_size + y_size / 2,
                spec == spec_i420_to_nv12(i420@, wn, hn),
                nv12@ == spec.subrange(0, (y_size + row * w + col) as int),
            decreases w - col,
        {
            let k = y_size + row * w + col;
            proof {
                lemma_fundamental_div_mod_converse((row * w + col) as int, w as int, row as int, col as int);
            }
            let b: u8 = if col < 2 * uv_w {
                proof {
                    lemma_row_index(uv_w as nat, row as nat, col as nat, uv_h as nat);
                }
                if col % 2 == 0 {
                    i420[u_src + row * uv_w + col / 2]
                } else {
                    i420[v_src + row * uv_w + col / 2]
                }
            } else {
                0
            };
            assert(b == nv12_byte(i420@, wn, hn, k as nat));
            nv12.push(b);
            col = col + 1;
            assert(nv12@ =~= spec.subrange(0, (y_size + row * w + col) as int));
        }
        row = row + 1;
    }
    while nv12.len() < total
        invariant
            w > 0,
            uv_h == h / 2,
            y_size == w * h,
            w == wn,
            h == hn,
            uv_h * w <= y_size / 2,
            y_size + uv_h * w <= nv12@.len() <= total,
            total == y_size + y_size / 2,
            i420@.len() == total,
            spec == spec_i420_to_nv12(i420@, wn, hn),
            nv12@ == spec.subrange(0, nv12@.len() as int),
        decreases total - nv12@.len(),
    {
        let ghost k = nv12@.len();
        let ghost off = (k - y_size) as nat;
        assert(off / wn >= uv_h) by (nonlinear_arith)
            requires
                off >= uv_h * wn,
                wn > 0,
        ;
        assert(nv12_byte(i420@, wn, hn, k) == 0);
        nv12.push(0);
        assert(nv12@ =~= spec.subrange(0, nv12@.len() as int));
    }
    assert(spec.len() == total);
    assert(nv12@ =~= spec);
    Ok(nv12)
}


/// Byte `k` of `dst` after copying a strided NV12 picture (`stride` bytes per
/// row, luma plane `slice_height` rows tall) of `w × h` into it tightly:
/// luma row `r` comes from source row `r`, chroma row `r` from the source
/// chroma plane, and bytes past the tight picture keep their old value.
pub open spec fn tight_nv12_byte(old: Seq<u8>, src: Seq<u8>, w: nat, h: nat, stride: nat, slice_height: nat, k: nat) -> u8 {
    if k < w * h {
        src[((k / w) * stride + k % w) as int]
    } else if k < w * h + (h / 2) * w {
        let o = (k - w * h) as nat;
        src[(stride * slice_height + (o / w) * stride + o % w) as int]
    } else {
        old[k as int]
    }
}

/// The inputs on which `copy_nv12_tight` stays within both buffers and
/// within `usize` arithmetic.
pub open spec fn copy_nv12_tight_fits(src_len: nat, dst_len: nat, w: nat, h: nat, stride: nat, slice_height: nat) -> bool {
    &&& stride * slice_height <= usize::MAX
    &&& w * h <= usize::MAX
    &&& h > 0 ==> (h - 1) * stride + w <= src_len && h * w <= dst_len
    &&& h / 2 > 0 ==> stride * slice_height + (h / 2 - 1) * stride + w <= src_len && w * h + (h / 2) * w <= dst_len
}

/// Copies NV12 pixels from a strided (padded) source into a tightly-packed
/// destination.
///
/// `width` and `height` are the visible frame dimensions.  `stride` is the Y
/// plane row stride in bytes (≥ width).  `slice_height` is the Y plane
/// allocation height (≥ height).
pub fn copy_nv12_tight(src: &[u8], dst: &mut [u8], width: usize, height: usize, stride: usize, slice_height: usize)
    requires
        copy_nv12_tight_fits(src@.len(), old(dst)@.len(), width as nat, height as nat, stride as nat, slice_height as nat),
    ensures
        final(dst)@ == Seq::new(old(dst)@.len(), |k: int| tight_nv12_byte(old(dst)@, src@, width as nat, height as nat, stride as nat, slice_height as nat, k as nat)),
{
    let ghost old_dst = dst@;
    let src_len: usize = src.len();
    let dst_len: usize = dst.len();
    assert(src@.len() == src_len && dst@.len() == dst_len);
    let ghost wn = width as nat;
    let ghost hn = height as nat;
    let ghost sn = stride as nat;
    let ghost shn = slice_height as nat;
    let dst_y_stride = width;
    let src_y_stride = stride;
    let mut y: usize = 0;
    while y < height
        invariant
            y <= height,
            dst@.len() == old_dst.len(),
            src@.len() <= usize::MAX,
            old_dst.len() <= usize::MAX,
            dst_y_stride == width,
            src_y_stride == stride,
            wn == width,
            hn == height,
            sn == stride,
            shn == slice_height,
            copy_nv12_tight_fits(src@.len(), old_dst.len(), wn, hn, sn, shn),
            forall|k: int| 0 <= k < dst@.len() ==> #[trigger] dst@[k] == if k < y * width {
                tight_nv12_byte(old_dst, src@, wn, hn, sn, shn, k as nat)
            } else {
                old_dst[k]
            },
        decreases height - y,
    {
        assert(y * stride + width <= (height - 1) * stride + width) by (nonlinear_arith)
            requires
                y < height,
        ;
        assert(y * width + width <= height * width) by (nonlinear_arith)
            requires
                y < height,
        ;
        assert(height * width == width * height) by (nonlinear_arith);
        assert(hn > 0);
        assert((height - 1) * stride + width <= src@.len());
        assert(y * stride <= src@.len());
        let src_off = y * src_y_stride;
        let dst_off = y * dst_y_stride;
        let mut x: usize = 0;
        while x < width
            invariant
                y < height,
                x <= width,
                dst@.len() == old_dst.len(),
                src@.len() <= usize::MAX,
                old_dst.len() <= usize::MAX,
                src_off == y * stride,
                dst_off == y * width,
                src_off + width <= src@.len(),
                dst_off + width <= width * height,
                width * height <= dst@.len(),
                wn == width,
                hn == height,
                sn == stride,
                shn == slice_height,
                forall|k: int| 0 <= k < dst@.len() ==> #[trigger] dst@[k] == if k < y * width + x {
                    tight_nv12_byte(old_dst, src@, wn, hn, sn, shn, k as nat)
                } else {
                    old_dst[k]
                },
            decreases width - x,
        {
            let ghost kk = dst_off + x;
            proof {
                lemma_fundamental_div_mod_converse(kk as int, width as int, y as int, x as int);
            }
            assert(tight_nv12_byte(old_dst, src@, wn, hn, sn, shn, kk as nat) == src@[(src_off + x) as int]);
            dst[dst_off + x] = src[src_off + x];
            x = x + 1;
        }
        assert(y * width + width == (y + 1) * width) by (nonlinear_arith);
        y = y + 1;
    }
    let src_uv_base = stride * slice_height;
    let dst_uv_base = width * height;
    let uv_height = height / 2;
    let mut y: usize = 0;
    while y < uv_height
        invariant
            y <= uv_height,
            uv_height == height / 2,
            dst@.len() == old_dst.len(),
            src@.len() <= usize::MAX,
            old_dst.len() <= usize::MAX,
            dst_y_stride == width,
            src_y_stride == stride,
            src_uv_base == stride * slice_height,
            dst_uv_base == width * height,
            wn == width,
            hn == height,
            sn == stride,
            shn == slice_height,
            copy_nv12_tight_fits(src@.len(), old_dst.len(), wn, hn, sn, shn),
            forall|k: int| 0 <= k < dst@.len() ==> #[trigger] dst@[k] == if k < dst_uv_base + y * width {
                tight_nv12_byte(old_dst, src@, wn, hn, sn, shn, k as nat)
            } else {
                old_dst[k]
            },
        decreases uv_height - y,
    {
        assert(y * stride + width <= (uv_height - 1) * stride + width) by (nonlinear_arith)
            requires
                y < uv_height,
        ;
        assert(y * width + width <= uv_height * width) by (nonlinear_arith)
            requires
                y < uv_height,
        ;
        assert(hn / 2 > 0);
        assert(stride * slice_height + (uv_height - 1) * stride + width <= src@.len());
        let src_off = src_uv_base + y * src_y_stride;
        let dst_off = dst_uv_base + y * dst_y_stride;
        let mut x: usize = 0;
        while x < width
            invariant
                y < uv_height,
                uv_height == height / 2,
                x <= width,
                dst@.len() == old_dst.len(),
                src@.len() <= usize::MAX,
                old_dst.len() <= usize::MAX,
                src_off == stride * slice_height + y * stride,
                dst_off == width * height + y * width,
                src_off + width <= src@.len(),
                dst_off + width <= width * height + uv_height * width,
                width * height + uv_height * width <= dst@.len(),
                dst_uv_base == width * height,
                wn == width,
                hn == height,
                sn == stride,
                shn == slice_height,
                forall|k: int| 0 <= k < dst@.len() ==> #[trigger] dst@[k] == if k < dst_uv_base + y * width + x {
                    tight_nv12_byte(old_dst, src@, wn, hn, sn, shn, k as nat)
                } else {
                    old_dst[k]
                },
            decreases width - x,
        {
            let ghost kk = dst_off + x;
            proof {
                lemma_fundamental_div_mod_converse((y * width + x) as int, width as int, y as int, x as int);
            }
            assert(tight_nv12_byte(old_dst, src@, wn, hn, sn, shn, kk as nat) == src@[(src_off + x) as int]);
            dst[dst_off + x] = src[src_off + x];
            x = x + 1;
        }
        assert(y * width + width == (y + 1) * width) by (nonlinear_arith);
        y = y + 1;
    }
    assert forall|k: int| 0 <= k < dst@.len() implies dst@[k] == tight_nv12_byte(old_dst, src@, wn, hn, sn, shn, k as nat) by {
        if k >= dst_uv_base + uv_height * width {
            assert(!(k < wn * hn));
        }
    }
    assert(dst@ =~= Seq::new(old_dst.len(), |k: int| tight_nv12_byte(old_dst, src@, wn, hn, sn, shn, k as nat)));
}

} // verus!
