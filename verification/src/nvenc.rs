//! The settings that the NVENC encoder is opened with: size, rate, pixel
//! depth, bitrates, and the encoder options, in the order they are set.

use vstd::prelude::*;
use crate::config::{CaptureConfig, Codec, EncoderPreset, Preset};
use crate::av1::{Av1Config, Av1Tier, Av1Tune, MultipassMode};
use crate::text::{owned, decimal, decimal_string};
use vstd::seq_lib::lemma_concat_associative;

verus! {

/// The NVENC preset name of an encoder preset.
pub open spec fn preset_name(p: EncoderPreset) -> Seq<char> {
    match p {
        EncoderPreset::Fast => "p1"@,
        EncoderPreset::Medium => "p4"@,
        EncoderPreset::Slow => "p6"@,
        EncoderPreset::Quality => "p7"@,
    }
}

/// The option value of an AV1 tier.
pub open spec fn tier_value(t: Av1Tier) -> Seq<char> {
    if t == Av1Tier::Main {
        "main"@
    } else {
        "high"@
    }
}

/// The option value of an AV1 tune.
pub open spec fn tune_value(t: Av1Tune) -> Seq<char> {
    match t {
        Av1Tune::Hq => "hq"@,
        Av1Tune::Uhq => "uhq"@,
        Av1Tune::Ll => "ll"@,
        Av1Tune::Ull => "ull"@,
        Av1Tune::Lossless => "lossless"@,
    }
}

/// The keyframe interval of an AV1 stream: the configured one, else twice
/// the framerate (at least 1 fps).
pub open spec fn gop_of(a: Av1Config, fps: u32) -> int {
    match a.gop_length {
        Some(l) => l as int,
        None => (if fps == 0 {
            1
        } else {
            fps as int
        }) * 2,
    }
}

/// The lookahead depth handed to the encoder: between 1 and 250 frames.
pub open spec fn lookahead_frames(depth: u32) -> int {
    if depth > 250 {
        250
    } else if depth < 1 {
        1
    } else {
        depth as int
    }
}

/// An option setting: key and value.
pub type OptionText = (Seq<char>, Seq<char>);

/// The first AV1 options: tier, profile, keyframe interval and tune.
pub open spec fn av1_head(a: Av1Config, low_latency: bool, fps: u32) -> Seq<OptionText> {
    seq![
        ("tier"@, tier_value(a.tier)),
        ("profile"@, if a.ten_bit { "main10"@ } else { "main"@ }),
        ("g"@, decimal(gop_of(a, fps) as nat)),
        ("tune"@, if !low_latency { tune_value(a.tune) } else { "ll"@ }),
    ]
}

/// The lookahead option, set only without low latency.
pub open spec fn av1_lookahead(a: Av1Config, low_latency: bool) -> Seq<OptionText> {
    if a.lookahead && !low_latency {
        seq![("rc-lookahead"@, decimal(lookahead_frames(a.lookahead_depth) as nat))]
    } else {
        seq![]
    }
}

/// The adaptive quantization options.
pub open spec fn av1_aq(a: Av1Config) -> Seq<OptionText> {
    (if a.spatial_aq {
        seq![("spatial_aq"@, "1"@)]
    } else {
        seq![]
    }) + (if a.temporal_aq {
        seq![("temporal_aq"@, "1"@)]
    } else {
        seq![]
    })
}

/// The multipass option.
pub open spec fn av1_multipass(a: Av1Config) -> Seq<OptionText> {
    match a.multipass {
        MultipassMode::Disabled => seq![],
        MultipassMode::Quarter => seq![("multipass"@, "qres"@)],
        MultipassMode::Full => seq![("multipass"@, "fullres"@)],
    }
}

/// The B-frame reference option.
pub open spec fn av1_bref(a: Av1Config) -> Seq<OptionText> {
    if a.b_ref_mode {
        seq![("b_ref_mode"@, "middle"@)]
    } else {
        seq![]
    }
}

/// The last AV1 options: multipass, B-frame references, and no B-frames.
pub open spec fn av1_tail(a: Av1Config) -> Seq<OptionText> {
    av1_multipass(a) + av1_bref(a) + seq![("bf"@, "0"@)]
}

/// The AV1 options, in the order they are set.
pub open spec fn av1_options(a: Av1Config, low_latency: bool, fps: u32) -> Seq<OptionText> {
    av1_head(a, low_latency, fps) + av1_lookahead(a, low_latency) + av1_aq(a) + av1_tail(a)
}

/// The options of the chosen codec, in the order they are set.
pub open spec fn codec_options(c: CaptureConfig) -> Seq<OptionText> {
    match c.codec {
        Codec::H264 => {
            let s = seq![("profile"@, "high"@), ("level"@, "auto"@)];
            if c.low_latency {
                s.push(("bf"@, "0"@))
            } else {
                s
            }
        },
        Codec::Hevc => {
            let s = seq![("profile"@, "main"@)];
            if c.low_latency {
                s.push(("bf"@, "0"@))
            } else {
                s
            }
        },
        Codec::Av1 => av1_options(c.av1, c.low_latency, c.preset.spec_fps()),
    }
}

/// All encoder options, in the order they are set: the preset, the rate
/// control (low-latency CBR or VBR), the GPU and surface count, then the
/// codec's own options. A later setting of a key replaces an earlier one.
pub open spec fn nvenc_options(c: CaptureConfig) -> Seq<OptionText> {
    let s0 = seq![("preset"@, preset_name(c.encoder_preset))];
    let s1 = if c.low_latency {
        s0.push(("tune"@, "ll"@)).push(("zerolatency"@, "1"@)).push(("delay"@, "0"@)).push(
            ("rc"@, "cbr"@),
        )
    } else {
        s0.push(("rc"@, "vbr"@))
    };
    let s2 = s1.push(("gpu"@, decimal(c.gpu as nat))).push(("surfaces"@, "8"@));
    s2 + codec_options(c)
}

/// The texts of a list of option settings.
pub open spec fn option_texts(v: Seq<(String, String)>) -> Seq<OptionText> {
    Seq::new(v.len(), |i: int| (v[i].0@, v[i].1@))
}

/// How the NVENC encoder is set up for a capture configuration.
#[derive(Debug, Clone)]
pub struct EncoderPlan {
    /// Output width
    pub width: u32,
    /// Output height
    pub height: u32,
    /// Framerate (time base 1/fps)
    pub fps: u32,
    /// 10-bit P010 surfaces (AV1 main10) rather than 8-bit NV12
    pub ten_bit: bool,
    /// Target bitrate in bits per second
    pub bit_rate: u64,
    /// Maximum bitrate in bits per second (1.5x the target)
    pub max_bit_rate: u64,
    /// Encoder options, in the order they are set
    pub options: Vec<(String, String)>,
}

/// The configurations an encoder can be planned for: the suggested bitrate
/// can be computed, and the default keyframe interval fits in 32 bits.
pub open spec fn plannable(c: CaptureConfig) -> bool {
    &&& c.bitrate == 0 ==> c.preset.rate_in_range()
    &&& c.codec == Codec::Av1 && c.av1.gop_length is None ==> c.preset.spec_fps() <= u32::MAX / 2
}

pub(crate) fn set_option(opts: &mut Vec<(String, String)>, key: &str, value: &str)
    ensures
        option_texts(final(opts)@) == option_texts(old(opts)@).push((key@, value@)),
{
    opts.push((owned(key), owned(value)));
    assert(option_texts(opts@) =~= option_texts(old(opts)@).push((key@, value@)));
}

fn set_number_option(opts: &mut Vec<(String, String)>, key: &str, value: u64)
    ensures
        option_texts(final(opts)@) == option_texts(old(opts)@).push((key@, decimal(value as nat))),
{
    let v = decimal_string(value);
    opts.push((owned(key), v));
    assert(option_texts(opts@) =~= option_texts(old(opts)@).push((key@, decimal(value as nat))));
}

fn push_av1_head(opts: &mut Vec<(String, String)>, a: &Av1Config, low_latency: bool, fps: u32)
    requires
        a.gop_length is None ==> fps <= u32::MAX / 2,
    ensures
        option_texts(final(opts)@) == option_texts(old(opts)@) + av1_head(*a, low_latency, fps),
{
    let ghost t0 = option_texts(opts@);
    set_option(opts, "tier", a.tier.ffmpeg_value());
    set_option(opts, "profile", if a.ten_bit { "main10" } else { "main" });
    let gop = a.resolved_gop(fps);
    set_number_option(opts, "g", gop as u64);
    set_option(opts, "tune", if !low_latency { a.tune.ffmpeg_value() } else { "ll" });
    assert(option_texts(opts@) =~= t0 + av1_head(*a, low_latency, fps));
}

fn push_av1_lookahead(opts: &mut Vec<(String, String)>, a: &Av1Config, low_latency: bool)
    ensures
        option_texts(final(opts)@) == option_texts(old(opts)@) + av1_lookahead(*a, low_latency),
{
    let ghost t0 = option_texts(opts@);
    if a.lookahead && !low_latency {
        let depth = if a.lookahead_depth > 250 {
            250
        } else if a.lookahead_depth < 1 {
            1
        } else {
            a.lookahead_depth
        };
        set_number_option(opts, "rc-lookahead", depth as u64);
    }
    assert(option_texts(opts@) =~= t0 + av1_lookahead(*a, low_latency));
}

fn push_av1_aq(opts: &mut Vec<(String, String)>, a: &Av1Config)
    ensures
        option_texts(final(opts)@) == option_texts(old(opts)@) + av1_aq(*a),
{
    let ghost t0 = option_texts(opts@);
    if a.spatial_aq {
        set_option(opts, "spatial_aq", "1");
    }
    if a.temporal_aq {
        set_option(opts, "temporal_aq", "1");
    }
    assert(option_texts(opts@) =~= t0 + av1_aq(*a));
}

fn push_av1_tail(opts: &mut Vec<(String, String)>, a: &Av1Config)
    ensures
        option_texts(final(opts)@) == option_texts(old(opts)@) + av1_tail(*a),
{
    let ghost t0 = option_texts(opts@);
    match a.multipass.ffmpeg_value() {
        Some(m) => set_option(opts, "multipass", m),
        None => {},
    }
    let ghost t1 = option_texts(opts@);
    assert(t1 =~= t0 + av1_multipass(*a));
    if a.b_ref_mode {
        set_option(opts, "b_ref_mode", "middle");
    }
    let ghost t2 = option_texts(opts@);
    assert(t2 =~= t1 + av1_bref(*a));
    set_option(opts, "bf", "0");
    assert(option_texts(opts@) =~= t0 + av1_tail(*a));
}

fn push_av1_options(opts: &mut Vec<(String, String)>, a: &Av1Config, low_latency: bool, fps: u32)
    requires
        a.gop_length is None ==> fps <= u32::MAX / 2,
    ensures
        option_texts(final(opts)@) == option_texts(old(opts)@) + av1_options(*a, low_latency, fps),
{
    let ghost t0 = option_texts(opts@);
    let ghost h = av1_head(*a, low_latency, fps);
    let ghost l = av1_lookahead(*a, low_latency);
    let ghost q = av1_aq(*a);
    let ghost t = av1_tail(*a);
    push_av1_head(opts, a, low_latency, fps);
    push_av1_lookahead(opts, a, low_latency);
    push_av1_aq(opts, a);
    push_av1_tail(opts, a);
    proof {
        lemma_concat_associative(t0, h, l);
        lemma_concat_associative(t0, h + l, q);
        lemma_concat_associative(t0, h + l + q, t);
    }
}

/// Plan the NVENC encoder for a capture configuration: the configuration's
/// size and framerate, 10-bit surfaces for 10-bit AV1, the effective
/// bitrate in bits per second with 50% headroom as the maximum, and the
/// encoder options.
pub fn nvenc_plan(config: &CaptureConfig) -> (p: EncoderPlan)
    requires
        plannable(*config),
    ensures
        p.width == config.preset.spec_width(),
        p.height == config.preset.spec_height(),
        p.fps == config.preset.spec_fps(),
        p.ten_bit == (config.codec == Codec::Av1 && config.av1.ten_bit),
        p.bit_rate == config.spec_effective_bitrate() as int * 1000,
        p.max_bit_rate == p.bit_rate + p.bit_rate / 2,
        option_texts(p.options@) == nvenc_options(*config),
{
    let width = config.width();
    let height = config.height();
    let fps = config.fps();
    let bit_rate: u64 = config.effective_bitrate() as u64 * 1000;
    let mut opts: Vec<(String, String)> = Vec::new();
    let ghost empty = option_texts(opts@);
    assert(empty =~= Seq::<OptionText>::empty());
    set_option(&mut opts, "preset", config.encoder_preset.nvenc_preset());
    if config.low_latency {
        set_option(&mut opts, "tune", "ll");
        set_option(&mut opts, "zerolatency", "1");
        set_option(&mut opts, "delay", "0");
        set_option(&mut opts, "rc", "cbr");
    } else {
        set_option(&mut opts, "rc", "vbr");
    }
    set_number_option(&mut opts, "gpu", config.gpu as u64);
    set_option(&mut opts, "surfaces", "8");
    let ghost common = option_texts(opts@);
    match config.codec {
        Codec::H264 => {
            set_option(&mut opts, "profile", "high");
            set_option(&mut opts, "level", "auto");
            if config.low_latency {
                set_option(&mut opts, "bf", "0");
            }
        },
        Codec::Hevc => {
            set_option(&mut opts, "profile", "main");
            if config.low_latency {
                set_option(&mut opts, "bf", "0");
            }
        },
        Codec::Av1 => {
            push_av1_options(&mut opts, &config.av1, config.low_latency, fps);
        },
    }
    assert(option_texts(opts@) =~= common + codec_options(*config));
    EncoderPlan {
        width,
        height,
        fps,
        ten_bit: config.codec == Codec::Av1 && config.av1.ten_bit,
        bit_rate,
        max_bit_rate: bit_rate + bit_rate / 2,
        options: opts,
    }
}

} // verus!
