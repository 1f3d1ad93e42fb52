//! Performance tracking: a rolling window of timing samples and GPU
//! statistics.

use vstd::prelude::*;
use std::collections::VecDeque;
use crate::text::{
    owned, push_text, push_decimal, decimal, chars_of, trim_chars, trimmed, split_at_comma_space,
    split_comma_space, string_from_chars, parse_or_zero, number_or_zero,
};

verus! {

/// Maximum number of samples to keep for rolling averages
pub const MAX_SAMPLES: usize = 120;

/// Rolling average calculator for timing data (samples in nanoseconds).
#[derive(Debug)]
pub struct RollingAverage {
    samples: VecDeque<u64>,
    max_samples: usize,
}

/// Sum of a sequence of samples.
pub open spec fn seq_sum(s: Seq<u64>) -> int
    decreases s.len(),
{
    if s.len() == 0 {
        0
    } else {
        seq_sum(s.drop_last()) + s.last()
    }
}

/// The window after adding `d` to a window `s` that keeps at most `max` samples.
pub open spec fn window_add(s: Seq<u64>, max: nat, d: u64) -> Seq<u64> {
    if s.len() >= max && s.len() > 0 {
        s.drop_first().push(d)
    } else {
        s.push(d)
    }
}

/// The window after adding every sample of `adds`, in order, to an empty window.
pub open spec fn window_after(adds: Seq<u64>, max: nat) -> Seq<u64>
    decreases adds.len(),
{
    if adds.len() == 0 {
        Seq::empty()
    } else {
        window_add(window_after(adds.drop_last(), max), max, adds.last())
    }
}

/// The most recent `min(len, max)` elements of `adds`.
pub open spec fn last_n(adds: Seq<u64>, max: nat) -> Seq<u64> {
    if adds.len() <= max {
        adds
    } else {
        adds.subrange(adds.len() - max, adds.len() as int)
    }
}

/// A rolling window that keeps at most `max` samples holds, after any
/// sequence of additions to an empty window, exactly the `max` most recent
/// samples (all of them while there are fewer).
pub proof fn lemma_window_keeps_most_recent(adds: Seq<u64>, max: nat)
    requires
        max >= 1,
    ensures
        window_after(adds, max) == last_n(adds, max),
    decreases adds.len(),
{
    if adds.len() > 0 {
        let prev = adds.drop_last();
        lemma_window_keeps_most_recent(prev, max);
        let w = window_after(prev, max);
        if prev.len() < max {
            assert(w == prev);
            assert(prev.push(adds.last()) =~= adds);
        } else {
            assert(w == prev.subrange(prev.len() - max, prev.len() as int));
            assert(w.len() == max);
            assert(w.drop_first().push(adds.last()) =~= adds.subrange(
                adds.len() - max,
                adds.len() as int,
            ));
        }
    }
}

/// Average of a non-empty window, rounded down.
pub open spec fn seq_average(s: Seq<u64>) -> int {
    if s.len() == 0 {
        0
    } else {
        seq_sum(s) / (s.len() as int)
    }
}

proof fn lemma_sum_bound(s: Seq<u64>)
    ensures
        0 <= seq_sum(s) <= s.len() * (u64::MAX as int),
    decreases s.len(),
{
    if s.len() > 0 {
        lemma_sum_bound(s.drop_last());
    }
}

impl RollingAverage {
    /// The samples in the window, oldest first.
    pub closed spec fn view(&self) -> Seq<u64> {
        self.samples@
    }

    /// The largest number of samples the window keeps.
    pub closed spec fn capacity(&self) -> nat {
        self.max_samples as nat
    }

    /// Create a window that keeps at most `max_samples` samples.
    pub fn new(max_samples: usize) -> (r: Self)
        ensures
            r.view() == Seq::<u64>::empty(),
            r.capacity() == max_samples,
    {
        RollingAverage { samples: VecDeque::with_capacity(max_samples), max_samples }
    }

    /// Add a sample, dropping the oldest one when the window is full.
    pub fn add(&mut self, duration_ns: u64)
        ensures
            final(self).view() == window_add(old(self).view(), old(self).capacity(), duration_ns),
            final(self).capacity() == old(self).capacity(),
    {
        if self.samples.len() >= self.max_samples {
            self.samples.pop_front();
        }
        self.samples.push_back(duration_ns);
    }

    /// Number of samples in the window.
    pub fn len(&self) -> (r: usize)
        ensures
            r == self.view().len(),
    {
        self.samples.len()
    }

    /// Average of the samples in nanoseconds, rounded down; 0 when empty.
    pub fn average(&self) -> (r: u64)
        requires
            self.view().len() <= u32::MAX,
        ensures
            r == seq_average(self.view()),
    {
        let n = self.samples.len();
        if n == 0 {
            return 0;
        }
        let mut total: u128 = 0;
        let mut i: usize = 0;
        while i < n
            invariant
                n == self.samples@.len(),
                i <= n,
                n <= u32::MAX,
                total == seq_sum(self.samples@.subrange(0, i as int)),
            decreases n - i,
        {
            proof {
                let p = self.samples@.subrange(0, i as int);
                lemma_sum_bound(p);
                assert(self.samples@.subrange(0, i + 1).drop_last() =~= p);
                assert((i as int) * (u64::MAX as int) <= (u32::MAX as int) * (u64::MAX as int)) by (nonlinear_arith)
                    requires
                        i <= u32::MAX,
                ;
            }
            total = total + self.samples[i] as u128;
            i = i + 1;
        }
        assert(self.samples@.subrange(0, n as int) =~= self.samples@);
        proof {
            lemma_sum_bound(self.samples@);
            assert(seq_sum(self.samples@) / (n as int) <= u64::MAX) by (nonlinear_arith)
                requires
                    0 <= seq_sum(self.samples@) <= n * (u64::MAX as int),
                    n > 0,
            ;
        }
        (total / (n as u128)) as u64
    }

    /// Remove all samples.
    pub fn clear(&mut self)
        ensures
            final(self).view() == Seq::<u64>::empty(),
            final(self).capacity() == old(self).capacity(),
    {
        self.samples.clear();
    }
}

/// Latency and throughput counters of the pipeline stages: rolling windows
/// of stage and frame times (nanoseconds), frame counts, the bytes encoded
/// since the bitrate was last taken, and that bitrate.
#[derive(Debug)]
pub struct PerformanceMetrics {
    capture_latency: RollingAverage,
    encode_latency: RollingAverage,
    output_latency: RollingAverage,
    frame_times: RollingAverage,
    frames_processed: u64,
    frames_dropped: u64,
    bytes_encoded: u64,
    last_bitrate_kbps: u64,
}

/// A window of at most `MAX_SAMPLES` samples.
pub open spec fn metric_window(w: Seq<u64>) -> bool {
    w.len() <= MAX_SAMPLES
}

impl PerformanceMetrics {
    #[verifier::type_invariant]
    spec fn windows_bounded(&self) -> bool {
        &&& self.capture_latency.capacity() == MAX_SAMPLES
        &&& self.encode_latency.capacity() == MAX_SAMPLES
        &&& self.output_latency.capacity() == MAX_SAMPLES
        &&& self.frame_times.capacity() == MAX_SAMPLES
        &&& metric_window(self.capture_latency.view())
        &&& metric_window(self.encode_latency.view())
        &&& metric_window(self.output_latency.view())
        &&& metric_window(self.frame_times.view())
    }

    /// Capture stage times, oldest first
    pub closed spec fn capture_samples(&self) -> Seq<u64> {
        self.capture_latency.view()
    }

    /// Encode stage times, oldest first
    pub closed spec fn encode_samples(&self) -> Seq<u64> {
        self.encode_latency.view()
    }

    /// Output stage times, oldest first
    pub closed spec fn output_samples(&self) -> Seq<u64> {
        self.output_latency.view()
    }

    /// Whole-frame times, oldest first
    pub closed spec fn frame_samples(&self) -> Seq<u64> {
        self.frame_times.view()
    }

    /// Frames processed
    pub closed spec fn processed(&self) -> u64 {
        self.frames_processed
    }

    /// Frames dropped
    pub closed spec fn dropped(&self) -> u64 {
        self.frames_dropped
    }

    /// Bytes encoded since the bitrate was last taken
    pub closed spec fn pending_bytes(&self) -> u64 {
        self.bytes_encoded
    }

    /// The last bitrate in kbps
    pub closed spec fn bitrate(&self) -> u64 {
        self.last_bitrate_kbps
    }

    /// Nothing recorded: empty windows, zero counters.
    pub open spec fn fresh(&self) -> bool {
        &&& self.capture_samples().len() == 0
        &&& self.encode_samples().len() == 0
        &&& self.output_samples().len() == 0
        &&& self.frame_samples().len() == 0
        &&& self.processed() == 0
        &&& self.dropped() == 0
        &&& self.pending_bytes() == 0
        &&& self.bitrate() == 0
    }

    /// Whether `other` differs from `self` at most in the capture window.
    pub open spec fn same_but_capture(&self, other: &Self) -> bool {
        &&& other.encode_samples() == self.encode_samples()
        &&& other.output_samples() == self.output_samples()
        &&& self.same_counters_but_frames(other)
        &&& other.frame_samples() == self.frame_samples()
        &&& other.processed() == self.processed()
    }

    /// Whether `other` has the same dropped, byte and bitrate counters.
    pub open spec fn same_counters_but_frames(&self, other: &Self) -> bool {
        &&& other.dropped() == self.dropped()
        &&& other.pending_bytes() == self.pending_bytes()
        &&& other.bitrate() == self.bitrate()
    }

    /// Whether `other` has the same four windows as `self`.
    pub open spec fn same_windows(&self, other: &Self) -> bool {
        &&& other.capture_samples() == self.capture_samples()
        &&& other.encode_samples() == self.encode_samples()
        &&& other.output_samples() == self.output_samples()
        &&& other.frame_samples() == self.frame_samples()
    }

    /// Create a metrics collector with nothing recorded
    pub fn new() -> (m: Self)
        ensures
            m.fresh(),
    {
        PerformanceMetrics {
            capture_latency: RollingAverage::new(MAX_SAMPLES),
            encode_latency: RollingAverage::new(MAX_SAMPLES),
            output_latency: RollingAverage::new(MAX_SAMPLES),
            frame_times: RollingAverage::new(MAX_SAMPLES),
            frames_processed: 0,
            frames_dropped: 0,
            bytes_encoded: 0,
            last_bitrate_kbps: 0,
        }
    }

    /// Record a capture stage time
    pub fn record_capture(&mut self, duration_ns: u64)
        ensures
            final(self).capture_samples() == window_add(old(self).capture_samples(), MAX_SAMPLES as nat, duration_ns),
            old(self).same_but_capture(&*final(self)),
    {
        proof { use_type_invariant(&*self); }
        let mut w = RollingAverage::new(MAX_SAMPLES);
        std::mem::swap(&mut w, &mut self.capture_latency);
        w.add(duration_ns);
        self.capture_latency = w;
    }

    /// Record an encode stage time
    pub fn record_encode(&mut self, duration_ns: u64)
        ensures
            final(self).encode_samples() == window_add(old(self).encode_samples(), MAX_SAMPLES as nat, duration_ns),
            final(self).capture_samples() == old(self).capture_samples(),
            final(self).output_samples() == old(self).output_samples(),
            final(self).frame_samples() == old(self).frame_samples(),
            final(self).processed() == old(self).processed(),
            old(self).same_counters_but_frames(&*final(self)),
    {
        proof { use_type_invariant(&*self); }
        let mut w = RollingAverage::new(MAX_SAMPLES);
        std::mem::swap(&mut w, &mut self.encode_latency);
        w.add(duration_ns);
        self.encode_latency = w;
    }

    /// Record an output stage time
    pub fn record_output(&mut self, duration_ns: u64)
        ensures
            final(self).output_samples() == window_add(old(self).output_samples(), MAX_SAMPLES as nat, duration_ns),
            final(self).capture_samples() == old(self).capture_samples(),
            final(self).encode_samples() == old(self).encode_samples(),
            final(self).frame_samples() == old(self).frame_samples(),
            final(self).processed() == old(self).processed(),
            old(self).same_counters_but_frames(&*final(self)),
    {
        proof { use_type_invariant(&*self); }
        let mut w = RollingAverage::new(MAX_SAMPLES);
        std::mem::swap(&mut w, &mut self.output_latency);
        w.add(duration_ns);
        self.output_latency = w;
    }

    /// Record a whole-frame time; it also counts the frame as processed
    /// (wrapping at 2^64 as the counter does).
    pub fn record_frame_time(&mut self, duration_ns: u64)
        ensures
            final(self).frame_samples() == window_add(old(self).frame_samples(), MAX_SAMPLES as nat, duration_ns),
            final(self).processed() == old(self).processed().wrapping_add(1),
            final(self).capture_samples() == old(self).capture_samples(),
            final(self).encode_samples() == old(self).encode_samples(),
            final(self).output_samples() == old(self).output_samples(),
            old(self).same_counters_but_frames(&*final(self)),
    {
        proof { use_type_invariant(&*self); }
        let mut w = RollingAverage::new(MAX_SAMPLES);
        std::mem::swap(&mut w, &mut self.frame_times);
        w.add(duration_ns);
        self.frame_times = w;
        self.frames_processed = self.frames_processed.wrapping_add(1);
    }

    /// Count a processed frame
    pub fn record_frame_processed(&mut self)
        ensures
            final(self).processed() == old(self).processed().wrapping_add(1),
            old(self).same_windows(&*final(self)),
            old(self).same_counters_but_frames(&*final(self)),
    {
        proof { use_type_invariant(&*self); }
        self.frames_processed = self.frames_processed.wrapping_add(1);
    }

    /// Count a dropped frame
    pub fn record_frame_dropped(&mut self)
        ensures
            final(self).dropped() == old(self).dropped().wrapping_add(1),
            final(self).processed() == old(self).processed(),
            final(self).pending_bytes() == old(self).pending_bytes(),
            final(self).bitrate() == old(self).bitrate(),
            old(self).same_windows(&*final(self)),
    {
        proof { use_type_invariant(&*self); }
        self.frames_dropped = self.frames_dropped.wrapping_add(1);
    }

    /// Count encoded bytes toward the next bitrate
    pub fn record_bytes_encoded(&mut self, bytes: u64)
        ensures
            final(self).pending_bytes() == old(self).pending_bytes().wrapping_add(bytes),
            final(self).processed() == old(self).processed(),
            final(self).dropped() == old(self).dropped(),
            final(self).bitrate() == old(self).bitrate(),
            old(self).same_windows(&*final(self)),
    {
        proof { use_type_invariant(&*self); }
        self.bytes_encoded = self.bytes_encoded.wrapping_add(bytes);
    }

    /// Take the bytes encoded since the last call, leaving none
    pub fn take_bytes_encoded(&mut self) -> (r: u64)
        ensures
            r == old(self).pending_bytes(),
            final(self).pending_bytes() == 0,
            final(self).processed() == old(self).processed(),
            final(self).dropped() == old(self).dropped(),
            final(self).bitrate() == old(self).bitrate(),
            old(self).same_windows(&*final(self)),
    {
        proof { use_type_invariant(&*self); }
        let r = self.bytes_encoded;
        self.bytes_encoded = 0;
        r
    }

    /// Store a newly computed bitrate
    pub fn set_bitrate_kbps(&mut self, kbps: u64)
        ensures
            final(self).bitrate() == kbps,
            final(self).processed() == old(self).processed(),
            final(self).dropped() == old(self).dropped(),
            final(self).pending_bytes() == old(self).pending_bytes(),
            old(self).same_windows(&*final(self)),
    {
        proof { use_type_invariant(&*self); }
        self.last_bitrate_kbps = kbps;
    }

    /// The last bitrate in kbps
    pub fn bitrate_kbps(&self) -> (r: u64)
        ensures
            r == self.bitrate(),
    {
        self.last_bitrate_kbps
    }

    /// Average capture time in nanoseconds (0 with no samples)
    pub fn capture_latency_ns(&self) -> (r: u64)
        ensures
            r == seq_average(self.capture_samples()),
    {
        proof { use_type_invariant(self); }
        self.capture_latency.average()
    }

    /// Average encode time in nanoseconds (0 with no samples)
    pub fn encode_latency_ns(&self) -> (r: u64)
        ensures
            r == seq_average(self.encode_samples()),
    {
        proof { use_type_invariant(self); }
        self.encode_latency.average()
    }

    /// Average output time in nanoseconds (0 with no samples)
    pub fn output_latency_ns(&self) -> (r: u64)
        ensures
            r == seq_average(self.output_samples()),
    {
        proof { use_type_invariant(self); }
        self.output_latency.average()
    }

    /// Average whole-frame time in nanoseconds (0 with no samples)
    pub fn frame_time_ns(&self) -> (r: u64)
        ensures
            r == seq_average(self.frame_samples()),
    {
        proof { use_type_invariant(self); }
        self.frame_times.average()
    }

    /// Total frames processed
    pub fn frames_processed(&self) -> (r: u64)
        ensures
            r == self.processed(),
    {
        self.frames_processed
    }

    /// Total frames dropped
    pub fn frames_dropped(&self) -> (r: u64)
        ensures
            r == self.dropped(),
    {
        self.frames_dropped
    }

    /// Forget everything recorded: the collector is as new.
    pub fn reset(&mut self)
        ensures
            final(self).fresh(),
    {
        *self = PerformanceMetrics::new();
    }
}

/// GPU monitoring information
#[derive(Debug, Clone, Copy, PartialEq, Eq, Structural)]
pub struct GpuStats {
    /// GPU temperature in Celsius
    pub temperature: u32,
    /// GPU power usage in Watts
    pub power_watts: u32,
    /// GPU utilization percentage (0-100)
    pub utilization: u32,
    /// VRAM used in MB
    pub vram_used_mb: u64,
    /// VRAM total in MB
    pub vram_total_mb: u64,
    /// Encoder utilization percentage
    pub encoder_utilization: u32,
}

impl Default for GpuStats {
    fn default() -> (s: Self)
        ensures
            s == (GpuStats {
                temperature: 0,
                power_watts: 0,
                utilization: 0,
                vram_used_mb: 0,
                vram_total_mb: 0,
                encoder_utilization: 0,
            }),
    {
        GpuStats {
            temperature: 0,
            power_watts: 0,
            utilization: 0,
            vram_used_mb: 0,
            vram_total_mb: 0,
            encoder_utilization: 0,
        }
    }
}

impl GpuStats {
    /// The single-line text of the statistics.
    pub open spec fn line(self) -> Seq<char> {
        "GPU: "@ + decimal(self.temperature as nat) + "°C "@ + decimal(self.power_watts as nat)
            + "W "@ + decimal(self.utilization as nat) + "% | VRAM: "@ + decimal(
            self.vram_used_mb as nat,
        ) + "/"@ + decimal(self.vram_total_mb as nat) + "MB | Enc: "@ + decimal(
            self.encoder_utilization as nat,
        ) + "%"@
    }

    /// Format as single-line string
    pub fn format_line(&self) -> (r: String)
        ensures
            r@ == self.line(),
    {
        let mut r = owned("GPU: ");
        push_decimal(&mut r, self.temperature as u64);
        push_text(&mut r, "°C ");
        push_decimal(&mut r, self.power_watts as u64);
        push_text(&mut r, "W ");
        push_decimal(&mut r, self.utilization as u64);
        push_text(&mut r, "% | VRAM: ");
        push_decimal(&mut r, self.vram_used_mb);
        push_text(&mut r, "/");
        push_decimal(&mut r, self.vram_total_mb);
        push_text(&mut r, "MB | Enc: ");
        push_decimal(&mut r, self.encoder_utilization as u64);
        push_text(&mut r, "%");
        r
    }
}


/// GPU statistics read from the answer to a `temperature.gpu, power.draw,
/// utilization.gpu, memory.used, memory.total, utilization.encoder` query of
/// nvidia-smi (CSV without header or units): `success` tells whether the
/// query succeeded, `stdout` is its output. The power draw is a decimal
/// fraction; it comes back as its trimmed text, with `power_watts` left at 0
/// for the caller to fill in.
pub fn gpu_stats_from_query(success: bool, stdout: &str) -> (r: Option<(GpuStats, String)>)
    ensures
        match r {
            None => !success || split_comma_space(trimmed(stdout@)).len() < 6,
            Some(found) => {
                let parts = split_comma_space(trimmed(stdout@));
                let st = found.0;
                &&& success
                &&& parts.len() >= 6
                &&& st.temperature == number_or_zero(parts[0], u32::MAX as nat)
                &&& st.power_watts == 0
                &&& found.1@ == trimmed(parts[1])
                &&& st.utilization == number_or_zero(parts[2], u32::MAX as nat)
                &&& st.vram_used_mb == number_or_zero(parts[3], u64::MAX as nat)
                &&& st.vram_total_mb == number_or_zero(parts[4], u64::MAX as nat)
                &&& st.encoder_utilization == number_or_zero(parts[5], u32::MAX as nat)
            },
        },
{
    if !success {
        return None;
    }
    let cs = chars_of(stdout);
    let t = trim_chars(&cs);
    let parts = split_at_comma_space(&t);
    if parts.len() < 6 {
        return None;
    }
    let power = trim_chars(&parts[1]);
    let stats = GpuStats {
        temperature: parse_or_zero(&parts[0], u32::MAX as u64) as u32,
        power_watts: 0,
        utilization: parse_or_zero(&parts[2], u32::MAX as u64) as u32,
        vram_used_mb: parse_or_zero(&parts[3], u64::MAX),
        vram_total_mb: parse_or_zero(&parts[4], u64::MAX),
        encoder_utilization: parse_or_zero(&parts[5], u32::MAX as u64) as u32,
    };
    Some((stats, string_from_chars(&power)))
}

} // verus!
