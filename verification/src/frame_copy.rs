//! Copying a captured frame into the encoder's input plane: packed RGB
//! formats row by row across different strides, anything else as one block.

use vstd::prelude::*;
use crate::encode::EncoderPixelFormat;
use crate::types::FrameFormat;

verus! {

/// The smaller of two integers.
pub open spec fn min_int(a: int, b: int) -> int {
    if a <= b { a } else { b }
}

/// Whether a format is copied row by row (one packed plane).
pub open spec fn packed_format(pf: EncoderPixelFormat) -> bool {
    pf == EncoderPixelFormat::Bgra || pf == EncoderPixelFormat::Rgba
        || pf == EncoderPixelFormat::Rgb24 || pf == EncoderPixelFormat::Bgr24
}

/// Bytes per pixel of a packed format.
pub open spec fn packed_bpp(pf: EncoderPixelFormat) -> int {
    if pf == EncoderPixelFormat::Rgb24 || pf == EncoderPixelFormat::Bgr24 { 3 } else { 4 }
}

/// `p` with `n` bytes of `data` from `src_off` written at `dst_off`.
pub open spec fn with_bytes(p: Seq<u8>, data: Seq<u8>, src_off: int, dst_off: int, n: int) -> Seq<u8> {
    Seq::new(p.len(), |i: int| if dst_off <= i < dst_off + n { data[src_off + i - dst_off] } else { p[i] })
}

/// The number of bytes of one row that are copied: the row, cut short at
/// the end of the source or of the destination (0 when either is passed).
pub open spec fn row_len(p_len: int, d_len: int, src_off: int, dst_off: int, row_bytes: int) -> int {
    let src_end = min_int(src_off + row_bytes, d_len);
    let dst_end = min_int(dst_off + row_bytes, p_len);
    if src_end > src_off && dst_end > dst_off {
        min_int(src_end - src_off, dst_end - dst_off)
    } else {
        0
    }
}

/// `p` after copying one row.
pub open spec fn row_copied(p: Seq<u8>, data: Seq<u8>, src_off: int, dst_off: int, row_bytes: int) -> Seq<u8> {
    with_bytes(p, data, src_off, dst_off, row_len(p.len() as int, data.len() as int, src_off, dst_off, row_bytes))
}

/// `p` after copying the first `rows` rows, in order (a later row wins
/// where rows overlap).
pub open spec fn rows_copied(
    p: Seq<u8>,
    data: Seq<u8>,
    rows: nat,
    src_stride: int,
    dst_stride: int,
    row_bytes: int,
) -> Seq<u8>
    decreases rows,
{
    if rows == 0 {
        p
    } else {
        let r = (rows - 1) as nat;
        row_copied(
            rows_copied(p, data, r, src_stride, dst_stride, row_bytes),
            data,
            r * src_stride,
            r * dst_stride,
            row_bytes,
        )
    }
}

/// The plane after a frame is copied into it: packed formats row by row
/// (`width` pixels per row, the frame's stride in the source, `dst_stride`
/// in the plane); other formats as one block, as far as both reach.
pub open spec fn frame_copied(
    p: Seq<u8>,
    data: Seq<u8>,
    format: FrameFormat,
    pf: EncoderPixelFormat,
    dst_stride: int,
) -> Seq<u8> {
    if packed_format(pf) {
        rows_copied(
            p,
            data,
            format.height as nat,
            format.stride as int,
            dst_stride,
            format.width * packed_bpp(pf),
        )
    } else {
        with_bytes(p, data, 0, 0, min_int(p.len() as int, data.len() as int))
    }
}

/// The offsets of every row fit in memory: for packed formats, the length
/// of a row, and the last row's start plus a row in the source and in the
/// plane.
pub open spec fn copy_fits(format: FrameFormat, pf: EncoderPixelFormat, dst_stride: int) -> bool {
    let row_bytes = format.width * packed_bpp(pf);
    packed_format(pf) ==> {
        &&& row_bytes <= usize::MAX
        &&& format.height > 0 ==> (format.height - 1) * (format.stride as int) + row_bytes
            <= usize::MAX
        &&& format.height > 0 ==> (format.height - 1) * dst_stride + row_bytes <= usize::MAX
    }
}

/// Copy `n` bytes of `data` from `src_off` into `plane` at `dst_off`.
fn copy_bytes(plane: &mut Vec<u8>, data: &[u8], src_off: usize, dst_off: usize, n: usize)
    requires
        src_off + n <= data@.len(),
        dst_off + n <= old(plane)@.len(),
    ensures
        final(plane)@ == with_bytes(old(plane)@, data@, src_off as int, dst_off as int, n as int),
{
    let ghost before = plane@;
    let mut k: usize = 0;
    while k < n
        invariant
            k <= n,
            src_off + n <= data.len(),
            dst_off + n <= plane.len(),
            plane@.len() == before.len(),
            plane@ == with_bytes(before, data@, src_off as int, dst_off as int, k as int),
        decreases n - k,
    {
        plane.set(dst_off + k, data[src_off + k]);
        k = k + 1;
        assert(plane@ =~= with_bytes(before, data@, src_off as int, dst_off as int, k as int));
    }
}

/// Copy frame data into the encoder's input plane of `pf` format, whose
/// rows are `dst_stride` bytes apart. Packed RGB formats are copied row by
/// row, each row cut short where the source or the plane ends; other
/// formats are copied as one block.
pub fn copy_frame_data(
    plane: &mut Vec<u8>,
    dst_stride: usize,
    data: &[u8],
    format: &FrameFormat,
    pf: EncoderPixelFormat,
)
    requires
        copy_fits(*format, pf, dst_stride as int),
    ensures
        final(plane)@ == frame_copied(old(plane)@, data@, *format, pf, dst_stride as int),
{
    match pf {
        EncoderPixelFormat::Bgra | EncoderPixelFormat::Rgba | EncoderPixelFormat::Rgb24
        | EncoderPixelFormat::Bgr24 => {
            let src_stride = format.stride as usize;
            let width = format.width as usize;
            let height = format.height as usize;
            let bpp: usize = match pf {
                EncoderPixelFormat::Rgb24 | EncoderPixelFormat::Bgr24 => 3,
                _ => 4,
            };
            let ghost before = plane@;
            let row_bytes = width * bpp;
            if height == 0 {
                return;
            }
            let mut y: usize = 0;
            while y < height
                invariant
                    y <= height,
                    height > 0,
                    row_bytes == format.width * packed_bpp(pf),
                    src_stride == format.stride,
                    height == format.height,
                    (height - 1) * (src_stride as int) + row_bytes <= usize::MAX,
                    (height - 1) * (dst_stride as int) + row_bytes <= usize::MAX,
                    plane@.len() == before.len(),
                    plane@ == rows_copied(
                        before,
                        data@,
                        y as nat,
                        src_stride as int,
                        dst_stride as int,
                        row_bytes as int,
                    ),
                decreases height - y,
            {
                assert(y * (src_stride as int) <= (height - 1) * (src_stride as int)) by (nonlinear_arith)
                    requires
                        y <= height - 1,
                        src_stride >= 0,
                ;
                assert(y * (dst_stride as int) <= (height - 1) * (dst_stride as int)) by (nonlinear_arith)
                    requires
                        y <= height - 1,
                        dst_stride >= 0,
                ;
                let src_offset = y * src_stride;
                let dst_offset = y * dst_stride;
                let src_end = if src_offset + row_bytes < data.len() {
                    src_offset + row_bytes
                } else {
                    data.len()
                };
                let dst_end = if dst_offset + row_bytes < plane.len() {
                    dst_offset + row_bytes
                } else {
                    plane.len()
                };
                if src_end > src_offset && dst_end > dst_offset {
                    let copy_len = if src_end - src_offset < dst_end - dst_offset {
                        src_end - src_offset
                    } else {
                        dst_end - dst_offset
                    };
                    copy_bytes(plane, data, src_offset, dst_offset, copy_len);
                }
                y = y + 1;
            }
        },
        _ => {
            let copy_len = if plane.len() < data.len() {
                plane.len()
            } else {
                data.len()
            };
            copy_bytes(plane, data, 0, 0, copy_len);
        },
    }
}

} // verus!
