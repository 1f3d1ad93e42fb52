//! Luma histograms of two frames, sampled on a sparse grid, for telling a
//! scene change from ordinary motion.

use vstd::prelude::*;

verus! {

/// Number of luma bins.
pub const LUMA_BINS: usize = 64;

/// The 32-bit RGB layouts whose bytes the histogram reads (XRGB, ARGB, BGRA, ABGR).
pub open spec fn rgb32_fourcc(f: u32) -> bool {
    f == 0x34325258 || f == 0x34325241 || f == 0x41524742 || f == 0x34324142
}

/// A pixel at byte offset `o` is sampled when both frames hold its first four bytes.
pub open spec fn sampled(p: Seq<u8>, q: Seq<u8>, o: int) -> bool {
    o + 3 <= p.len() && o + 3 <= q.len()
}

/// The luma bin (0..64) of the pixel at byte offset `o`: the fixed-point
/// luminance (77 R + 150 G + 29 B) / 256, with bytes B, G, R, divided by 4.
pub open spec fn luma_bin(d: Seq<u8>, o: int) -> int {
    ((77 * d[o + 2] + 150 * d[o + 1] + 29 * d[o]) / 256) / 4
}

/// Pixels sampled in the first `n` columns of the row starting at `base`
/// (every 4th pixel, 16 bytes apart) that fall into bin `b` of frame `d`.
pub open spec fn row_bins(d: Seq<u8>, e: Seq<u8>, base: int, n: nat, b: int) -> nat
    decreases n,
{
    if n == 0 {
        0
    } else {
        let o = base + 16 * (n - 1);
        row_bins(d, e, base, (n - 1) as nat, b) + if sampled(d, e, o) && luma_bin(d, o) == b {
            1nat
        } else {
            0nat
        }
    }
}

/// Pixels sampled in the first `n` columns of the row starting at `base`.
pub open spec fn row_count(d: Seq<u8>, e: Seq<u8>, base: int, n: nat) -> nat
    decreases n,
{
    if n == 0 {
        0
    } else {
        row_count(d, e, base, (n - 1) as nat) + if sampled(d, e, base + 16 * (n - 1)) {
            1nat
        } else {
            0nat
        }
    }
}

/// Pixels sampled in the first `n` sampled rows (every 4th row) that fall
/// into bin `b` of frame `d`.
pub open spec fn grid_bins(d: Seq<u8>, e: Seq<u8>, stride: int, cols: nat, n: nat, b: int) -> nat
    decreases n,
{
    if n == 0 {
        0
    } else {
        grid_bins(d, e, stride, cols, (n - 1) as nat, b) + row_bins(
            d,
            e,
            4 * (n - 1) * stride,
            cols,
            b,
        )
    }
}

/// Pixels sampled in the first `n` sampled rows.
pub open spec fn grid_count(d: Seq<u8>, e: Seq<u8>, stride: int, cols: nat, n: nat) -> nat
    decreases n,
{
    if n == 0 {
        0
    } else {
        grid_count(d, e, stride, cols, (n - 1) as nat) + row_count(
            d,
            e,
            4 * (n - 1) * stride,
            cols,
        )
    }
}

/// Number of sampled rows or columns along a side of `len` pixels.
pub open spec fn grid_steps(len: u32) -> nat {
    ((len as nat + 3) / 4) as nat
}

/// The sampling grid's byte offsets fit in 32 bits and its size in a counter.
pub open spec fn grid_fits(width: u32, height: u32, stride: u32) -> bool {
    let rows = grid_steps(height);
    let cols = grid_steps(width);
    &&& rows * cols <= u32::MAX
    &&& rows > 0 && cols > 0 ==> 4 * (rows - 1) * stride + 16 * (cols - 1) <= u32::MAX
}

/// Luma histograms of two frames over the same sample of pixels.
#[derive(Debug, Clone)]
pub struct LumaHistograms {
    /// Bin counts of the earlier frame
    pub prev: Vec<u32>,
    /// Bin counts of the later frame
    pub curr: Vec<u32>,
    /// Number of pixels sampled
    pub samples: u32,
}

fn zero_bins() -> (v: Vec<u32>)
    ensures
        v@.len() == LUMA_BINS,
        forall|b: int| 0 <= b < LUMA_BINS ==> v@[b] == 0,
{
    let mut v: Vec<u32> = Vec::new();
    while v.len() < LUMA_BINS
        invariant
            v@.len() <= LUMA_BINS,
            forall|b: int| 0 <= b < v@.len() ==> v@[b] == 0,
        decreases LUMA_BINS - v@.len(),
    {
        v.push(0);
    }
    v
}

fn pixel_bin(d: &[u8], o: usize) -> (b: usize)
    requires
        o + 3 <= d@.len(),
    ensures
        b == luma_bin(d@, o as int),
        b < LUMA_BINS,
{
    let n = d.len();
    assert(o + 3 <= n);
    let r = d[o + 2] as u32;
    let g = d[o + 1] as u32;
    let bl = d[o] as u32;
    let luma = (77 * r + 150 * g + 29 * bl) / 256;
    (luma / 4) as usize
}

/// Build the luma histograms that scene-change detection compares: every
/// 4th pixel of every 4th row, at `stride` bytes per row and 4 bytes per
/// pixel, is sampled where both frames hold it. `None` for a pixel layout
/// other than 32-bit RGB.
pub fn luma_histograms(
    prev: &[u8],
    curr: &[u8],
    width: u32,
    height: u32,
    stride: u32,
    fourcc: u32,
) -> (r: Option<LumaHistograms>)
    requires
        grid_fits(width, height, stride),
    ensures
        match r {
            None => !rgb32_fourcc(fourcc),
            Some(h) => {
                let rows = grid_steps(height);
                let cols = grid_steps(width);
                &&& rgb32_fourcc(fourcc)
                &&& h.prev@.len() == LUMA_BINS
                &&& h.curr@.len() == LUMA_BINS
                &&& h.samples == grid_count(prev@, curr@, stride as int, cols, rows)
                &&& forall|b: int|
                    0 <= b < LUMA_BINS ==> h.prev@[b] == grid_bins(
                        prev@,
                        curr@,
                        stride as int,
                        cols,
                        rows,
                        b,
                    ) && h.curr@[b] == grid_bins(curr@, prev@, stride as int, cols, rows, b)
            },
        },
{
    if !(fourcc == 0x34325258 || fourcc == 0x34325241 || fourcc == 0x41524742 || fourcc
        == 0x34324142) {
        return None;
    }
    let rows: u64 = (height as u64 + 3) / 4;
    let cols: u64 = (width as u64 + 3) / 4;
    let ghost gcols: nat = cols as nat;
    let ghost st: int = stride as int;
    let mut ph = zero_bins();
    let mut ch = zero_bins();
    let mut samples: u32 = 0;
    let mut r: u64 = 0;
    while r < rows
        invariant
            rows == grid_steps(height),
            cols == grid_steps(width),
            gcols == cols,
            st == stride,
            grid_fits(width, height, stride),
            r <= rows,
            ph@.len() == LUMA_BINS,
            ch@.len() == LUMA_BINS,
            samples == grid_count(prev@, curr@, st, gcols, r as nat),
            samples <= r * cols,
            forall|b: int|
                0 <= b < LUMA_BINS ==> ph@[b] == grid_bins(prev@, curr@, st, gcols, r as nat, b)
                    && ch@[b] == grid_bins(curr@, prev@, st, gcols, r as nat, b)
                    && ph@[b] <= samples && ch@[b] <= samples,
        decreases rows - r,
    {
        assert(4 * r * stride <= 4 * (rows - 1) * stride) by (nonlinear_arith)
            requires
                r < rows,
        ;
        assert((r + 1) * cols <= rows * cols) by (nonlinear_arith)
            requires
                r < rows,
        ;
        assert((r + 1) * cols == r * cols + cols) by (nonlinear_arith);
        let ghost base: int = 4 * r * st;
        let ghost g_ph = ph@;
        let ghost g_ch = ch@;
        let ghost g_samples = samples;
        let mut c: u64 = 0;
        while c < cols
            invariant
                rows == grid_steps(height),
                cols == grid_steps(width),
                gcols == cols,
                st == stride,
                grid_fits(width, height, stride),
                r < rows,
                c <= cols,
                base == 4 * r * st,
                base <= 4 * (rows - 1) * stride,
                (r + 1) * cols <= rows * cols,
                (r + 1) * cols == r * cols + cols,
                ph@.len() == LUMA_BINS,
                ch@.len() == LUMA_BINS,
                g_samples == grid_count(prev@, curr@, st, gcols, r as nat),
                g_samples <= r * cols,
                samples == g_samples + row_count(prev@, curr@, base as int, c as nat),
                samples <= r * cols + c,
                forall|b: int|
                    0 <= b < LUMA_BINS ==> g_ph[b] == grid_bins(
                        prev@,
                        curr@,
                        st,
                        gcols,
                        r as nat,
                        b,
                    ) && g_ch[b] == grid_bins(curr@, prev@, st, gcols, r as nat, b),
                forall|b: int|
                    0 <= b < LUMA_BINS ==> ph@[b] == g_ph[b] + row_bins(
                        prev@,
                        curr@,
                        base as int,
                        c as nat,
                        b,
                    ) && ch@[b] == g_ch[b] + row_bins(curr@, prev@, base as int, c as nat, b)
                        && ph@[b] <= samples && ch@[b] <= samples,
            decreases cols - c,
        {
            let o: u64 = 4 * r * (stride as u64) + 16 * c;
            if o + 3 <= prev.len() as u64 && o + 3 <= curr.len() as u64 {
                let pb = pixel_bin(prev, o as usize);
                let cb = pixel_bin(curr, o as usize);
                let pv = ph[pb];
                ph.set(pb, pv + 1);
                let cv = ch[cb];
                ch.set(cb, cv + 1);
                samples = samples + 1;
            }
            c = c + 1;
        }
        r = r + 1;
    }
    Some(LumaHistograms { prev: ph, curr: ch, samples })
}


/// The sum of the first `k` bins of a row's histogram.
pub open spec fn row_bins_upto(d: Seq<u8>, e: Seq<u8>, base: int, n: nat, k: nat) -> nat
    decreases k,
{
    if k == 0 {
        0
    } else {
        row_bins_upto(d, e, base, n, (k - 1) as nat) + row_bins(d, e, base, n, k - 1)
    }
}

/// The sum of the first `k` bins of the whole histogram.
pub open spec fn grid_bins_upto(d: Seq<u8>, e: Seq<u8>, stride: int, cols: nat, n: nat, k: nat) -> nat
    decreases k,
{
    if k == 0 {
        0
    } else {
        grid_bins_upto(d, e, stride, cols, n, (k - 1) as nat) + grid_bins(d, e, stride, cols, n, k - 1)
    }
}

/// How many of the first `k` bins the pixel at offset `o` falls into (0 or 1).
pub open spec fn hits_upto(d: Seq<u8>, e: Seq<u8>, o: int, k: nat) -> nat
    decreases k,
{
    if k == 0 {
        0
    } else {
        hits_upto(d, e, o, (k - 1) as nat) + if sampled(d, e, o) && luma_bin(d, o) == k - 1 {
            1nat
        } else {
            0nat
        }
    }
}

proof fn lemma_luma_bin_range(d: Seq<u8>, o: int)
    requires
        0 <= o,
        o + 3 <= d.len(),
    ensures
        0 <= luma_bin(d, o) < LUMA_BINS,
{
    let r = d[o + 2];
    let g = d[o + 1];
    let b = d[o];
    assert((77 * r + 150 * g + 29 * b) / 256 <= 255) by (nonlinear_arith)
        requires
            r <= 255,
            g <= 255,
            b <= 255,
    ;
}

proof fn lemma_hits_upto(d: Seq<u8>, e: Seq<u8>, o: int, k: nat)
    ensures
        hits_upto(d, e, o, k) == if sampled(d, e, o) && 0 <= luma_bin(d, o) < k {
            1nat
        } else {
            0nat
        },
    decreases k,
{
    if k > 0 {
        lemma_hits_upto(d, e, o, (k - 1) as nat);
    }
}

proof fn lemma_row_split(d: Seq<u8>, e: Seq<u8>, base: int, n: nat, k: nat)
    requires
        n > 0,
    ensures
        row_bins_upto(d, e, base, n, k) == row_bins_upto(d, e, base, (n - 1) as nat, k) + hits_upto(
            d,
            e,
            base + 16 * (n - 1),
            k,
        ),
    decreases k,
{
    if k > 0 {
        lemma_row_split(d, e, base, n, (k - 1) as nat);
    }
}

proof fn lemma_row_empty(d: Seq<u8>, e: Seq<u8>, base: int, k: nat)
    ensures
        row_bins_upto(d, e, base, 0, k) == 0,
    decreases k,
{
    if k > 0 {
        lemma_row_empty(d, e, base, (k - 1) as nat);
    }
}

proof fn lemma_grid_empty(d: Seq<u8>, e: Seq<u8>, stride: int, cols: nat, k: nat)
    ensures
        grid_bins_upto(d, e, stride, cols, 0, k) == 0,
    decreases k,
{
    if k > 0 {
        lemma_grid_empty(d, e, stride, cols, (k - 1) as nat);
    }
}

proof fn lemma_row_total(d: Seq<u8>, e: Seq<u8>, base: int, n: nat)
    requires
        base >= 0,
    ensures
        row_bins_upto(d, e, base, n, LUMA_BINS as nat) == row_count(d, e, base, n),
    decreases n,
{
    if n == 0 {
        lemma_row_empty(d, e, base, LUMA_BINS as nat);
    } else {
        let o = base + 16 * (n - 1);
        lemma_row_total(d, e, base, (n - 1) as nat);
        lemma_row_split(d, e, base, n, LUMA_BINS as nat);
        lemma_hits_upto(d, e, o, LUMA_BINS as nat);
        if sampled(d, e, o) {
            lemma_luma_bin_range(d, o);
        }
    }
}

proof fn lemma_grid_split(d: Seq<u8>, e: Seq<u8>, stride: int, cols: nat, n: nat, k: nat)
    requires
        n > 0,
    ensures
        grid_bins_upto(d, e, stride, cols, n, k) == grid_bins_upto(d, e, stride, cols, (n - 1) as nat, k)
            + row_bins_upto(d, e, 4 * (n - 1) * stride, cols, k),
    decreases k,
{
    if k > 0 {
        lemma_grid_split(d, e, stride, cols, n, (k - 1) as nat);
    }
}

/// The histogram counts every sampled pixel exactly once: its bins add up
/// to the number of pixels sampled.
pub proof fn lemma_bins_add_up_to_samples(d: Seq<u8>, e: Seq<u8>, stride: nat, cols: nat, rows: nat)
    ensures
        grid_bins_upto(d, e, stride as int, cols, rows, LUMA_BINS as nat) == grid_count(
            d,
            e,
            stride as int,
            cols,
            rows,
        ),
    decreases rows,
{
    if rows == 0 {
        lemma_grid_empty(d, e, stride as int, cols, LUMA_BINS as nat);
    } else {
        lemma_bins_add_up_to_samples(d, e, stride, cols, (rows - 1) as nat);
        lemma_grid_split(d, e, stride as int, cols, rows, LUMA_BINS as nat);
        assert(4 * (rows - 1) * stride >= 0) by (nonlinear_arith)
            requires
                rows > 0,
        ;
        lemma_row_total(d, e, 4 * (rows - 1) * stride, cols);
    }
}

} // verus!
