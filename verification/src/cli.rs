//! Command-line decisions: resolution parsing, name truncation, and turning
//! the `cast` command's options and the configuration file's defaults into a
//! capture configuration.

use vstd::prelude::*;
use crate::text::{
    owned, push_text, push_decimal, decimal, chars_of, split_chars, split_char, trim_chars,
    trimmed, parse_unsigned, parse_unsigned_chars, string_from_chars, to_lower, same_text,
    lower_text, contains_text, has_sub, has_prefix,
};
use vstd::utf8::encode_utf8;
use crate::config::{
    Preset, Codec, EncoderPreset, AudioSource, AudioCodec, Av1Config, Av1Tier, Av1Tune,
    ChromaFormat, MultipassMode, CaptureConfig, CursorMode, DefaultSettings, EncoderSettings,
    CameraSettings, AudioSettings, preset_from_lower, codec_from_lower, default_av1,
    preset_error, DEFAULT_CAMERA_NAME, audio_source_name,
};
use crate::gpu::{detect_rtx50_features, generation_of_name, GpuGeneration};
use crate::error::NitrogenError;
use crate::types::CaptureSource;
use crate::ipc::IpcMessage;

verus! {

/// What `parse_resolution` gives for a text.
pub open spec fn resolution_result(s: Seq<char>) -> Result<(u32, u32), Seq<char>> {
    let parts = split_char(s, 'x');
    if parts.len() != 2 {
        Err("Invalid resolution '"@ + s + "'. Use format WIDTHxHEIGHT (e.g., 1920x1080)"@)
    } else {
        match parse_unsigned(trimmed(parts[0]), u32::MAX as nat) {
            None => Err("Invalid width '"@ + parts[0] + "' in resolution"@),
            Some(w) => match parse_unsigned(trimmed(parts[1]), u32::MAX as nat) {
                None => Err("Invalid height '"@ + parts[1] + "' in resolution"@),
                Some(h) => if w == 0 || h == 0 {
                    Err("Resolution dimensions must be greater than 0"@)
                } else if w > 7680 || h > 4320 {
                    Err(
                        "Resolution "@ + decimal(w) + "x"@ + decimal(h)
                            + " exceeds maximum (7680x4320)"@,
                    )
                } else {
                    Ok(((w - w % 2) as u32, (h - h % 2) as u32))
                },
            },
        }
    }
}

fn even_down(v: u32) -> (r: u32)
    ensures
        r == v - v % 2,
{
    let r = v & !1u32;
    assert(v & !1u32 == v - v % 2) by (bit_vector);
    r
}

/// Parse a resolution string like "1920x1080" or "2560x1440": two numbers
/// separated by `x`, each at least 1, at most 7680 wide and 4320 high,
/// rounded down to even values.
pub fn parse_resolution(s: &str) -> (r: Result<(u32, u32), String>)
    ensures
        match resolution_result(s@) {
            Ok(v) => r == Ok::<(u32, u32), String>(v),
            Err(m) => r matches Err(e) && e@ == m,
        },
{
    let cs = chars_of(s);
    let parts = split_chars(&cs, 'x');
    if parts.len() != 2 {
        let mut m = owned("Invalid resolution '");
        push_text(&mut m, s);
        push_text(&mut m, "'. Use format WIDTHxHEIGHT (e.g., 1920x1080)");
        return Err(m);
    }
    let wt = trim_chars(&parts[0]);
    let width = match parse_unsigned_chars(&wt, u32::MAX as u64) {
        Some(w) => w as u32,
        None => {
            let mut m = owned("Invalid width '");
            let p = string_from_chars(&parts[0]);
            push_text(&mut m, p.as_str());
            push_text(&mut m, "' in resolution");
            return Err(m);
        },
    };
    let ht = trim_chars(&parts[1]);
    let height = match parse_unsigned_chars(&ht, u32::MAX as u64) {
        Some(h) => h as u32,
        None => {
            let mut m = owned("Invalid height '");
            let p = string_from_chars(&parts[1]);
            push_text(&mut m, p.as_str());
            push_text(&mut m, "' in resolution");
            return Err(m);
        },
    };
    if width == 0 || height == 0 {
        return Err(owned("Resolution dimensions must be greater than 0"));
    }
    if width > 7680 || height > 4320 {
        let mut m = owned("Resolution ");
        push_decimal(&mut m, width as u64);
        push_text(&mut m, "x");
        push_decimal(&mut m, height as u64);
        push_text(&mut m, " exceeds maximum (7680x4320)");
        return Err(m);
    }
    Ok((even_down(width), even_down(height)))
}

/// Shorten a name to at most `max` bytes: names that fit are kept, longer
/// ones are cut to their first `max - 3` bytes followed by `...`.
pub fn truncate(s: &str, max: usize) -> (r: String)
    requires
        encode_utf8(s@).len() > max ==> max >= 3 && vstd::utf8::is_char_boundary(
            encode_utf8(s@),
            max - 3,
        ),
    ensures
        encode_utf8(s@).len() <= max ==> r@ == s@,
        encode_utf8(s@).len() > max ==> exists|p: Seq<char>|
            #[trigger] encode_utf8(p) == encode_utf8(s@).subrange(0, max - 3) && r@ == p + "..."@,
{
    if s.as_bytes().len() <= max {
        owned(s)
    } else {
        let (head, _) = s.split_at(max - 3);
        let mut r = owned(head);
        push_text(&mut r, "...");
        assert(encode_utf8(head@) == encode_utf8(s@).subrange(0, max - 3));
        r
    }
}


/// Options of the `cast` command as given on the command line (flags that
/// were not given hold their defaults).
#[derive(Debug, Clone)]
pub struct CastArgs {
    /// Monitor ID to capture (e.g., "DP-2")
    pub monitor: Option<String>,
    /// Window ID to capture
    pub window: Option<String>,
    /// Output preset name
    pub preset: String,
    /// Custom resolution ("WxH"), overriding the preset's
    pub resolution: Option<String>,
    /// Custom framerate, overriding the preset's
    pub fps: Option<u32>,
    /// Video codec name
    pub codec: String,
    /// Bitrate in kbps (0 = auto)
    pub bitrate: u32,
    /// Encoder quality preset name
    pub quality: String,
    /// Virtual camera name
    pub camera_name: String,
    /// Disable low-latency mode
    pub no_low_latency: bool,
    /// GPU index (0 = first GPU)
    pub gpu: u32,
    /// File to record to
    pub record: Option<String>,
    /// Audio source name
    pub audio: String,
    /// Audio codec name
    pub audio_codec: String,
    /// Audio bitrate in kbps (0 = auto)
    pub audio_bitrate: u32,
    /// AV1: 10-bit color
    pub av1_10bit: bool,
    /// AV1: tier name
    pub av1_tier: String,
    /// AV1: tuning mode name
    pub av1_tune: String,
    /// AV1: lookahead
    pub av1_lookahead: bool,
    /// AV1: lookahead depth in frames
    pub av1_lookahead_depth: u32,
    /// AV1: spatial adaptive quantization
    pub av1_spatial_aq: bool,
    /// AV1: temporal adaptive quantization
    pub av1_temporal_aq: bool,
    /// AV1: chroma format ("420", "422" or "444")
    pub av1_chroma: String,
    /// AV1: B-frame reference mode
    pub av1_b_ref: bool,
    /// AV1: GOP length override
    pub av1_gop: Option<u32>,
    /// Detect the GPU and enable RTX 50 features when available
    pub av1_auto: bool,
}

impl Default for CastArgs {
    fn default() -> (o: Self)
        ensures
            o.monitor is None && o.window is None && o.resolution is None && o.fps is None,
            o.preset@ == "1080p60"@ && o.codec@ == "h264"@ && o.bitrate == 0,
            o.quality@ == "medium"@ && o.camera_name@ == DEFAULT_CAMERA_NAME@,
            !o.no_low_latency && o.gpu == 0 && o.record is None,
            o.audio@ == "none"@ && o.audio_codec@ == "aac"@ && o.audio_bitrate == 0,
            !o.av1_10bit && o.av1_tier@ == "main"@ && o.av1_tune@ == "hq"@,
            !o.av1_lookahead && o.av1_lookahead_depth == 20,
            !o.av1_spatial_aq && !o.av1_temporal_aq && o.av1_chroma@ == "420"@,
            !o.av1_b_ref && o.av1_gop is None && !o.av1_auto,
    {
        CastArgs {
            monitor: None,
            window: None,
            preset: owned("1080p60"),
            resolution: None,
            fps: None,
            codec: owned("h264"),
            bitrate: 0,
            quality: owned("medium"),
            camera_name: owned(DEFAULT_CAMERA_NAME),
            no_low_latency: false,
            gpu: 0,
            record: None,
            audio: owned("none"),
            audio_codec: owned("aac"),
            audio_bitrate: 0,
            av1_10bit: false,
            av1_tier: owned("main"),
            av1_tune: owned("hq"),
            av1_lookahead: false,
            av1_lookahead_depth: 20,
            av1_spatial_aq: false,
            av1_temporal_aq: false,
            av1_chroma: owned("420"),
            av1_b_ref: false,
            av1_gop: None,
            av1_auto: false,
        }
    }
}

/// A command-line text that was left at its default gives way to the
/// configuration file's value.
pub open spec fn pick_text(arg: Seq<char>, default_arg: Seq<char>, file: Seq<char>) -> Seq<char> {
    if arg == default_arg {
        file
    } else {
        arg
    }
}

/// A command-line number left at 0 gives way to the configuration file's value.
pub open spec fn pick_number(arg: u32, file: u32) -> u32 {
    if arg == 0 {
        file
    } else {
        arg
    }
}

fn pick<'a>(arg: &'a str, default_arg: &str, file: &'a str) -> (r: &'a str)
    ensures
        r@ == pick_text(arg@, default_arg@, file@),
{
    if same_text(arg, default_arg) {
        file
    } else {
        arg
    }
}

fn quoted_error(prefix: &str, s: &str, suffix: &str) -> (r: String)
    ensures
        r@ == prefix@ + s@ + suffix@,
{
    let mut r = owned(prefix);
    push_text(&mut r, s);
    push_text(&mut r, suffix);
    r
}

/// The presets named in the message for an unknown preset.
pub const PRESET_CHOICES: &'static str =
    "'. Valid options: 720p30, 720p60, 1080p30, 1080p60, 1440p30, 1440p60, 1440p120, 4k30, 4k60, 4k120";
pub const CODEC_CHOICES: &'static str = "'. Valid options: h264, hevc, av1";
pub const QUALITY_CHOICES: &'static str = "'. Valid options: fast, medium, slow, quality";
pub const AUDIO_SOURCE_CHOICES: &'static str = "'. Valid options: none, desktop, mic, both";
pub const AUDIO_CODEC_CHOICES: &'static str = "'. Valid options: aac, opus";
pub const TIER_CHOICES: &'static str = "'. Valid options: main, high";
pub const TUNE_CHOICES: &'static str = "'. Valid options: hq, uhq, ll, ull, lossless";
pub const CHROMA_CHOICES: &'static str = "'. Valid options: 420, 422, 444";

/// The encoder preset that a lowercased quality name stands for.
pub open spec fn quality_from_lower(l: Seq<char>) -> Option<EncoderPreset> {
    if l == "fast"@ {
        Some(EncoderPreset::Fast)
    } else if l == "medium"@ {
        Some(EncoderPreset::Medium)
    } else if l == "slow"@ {
        Some(EncoderPreset::Slow)
    } else if l == "quality"@ {
        Some(EncoderPreset::Quality)
    } else {
        None
    }
}

/// The audio source that a lowercased name stands for.
pub open spec fn audio_source_from_lower(l: Seq<char>) -> Option<AudioSource> {
    if l == "none"@ {
        Some(AudioSource::NoAudio)
    } else if l == "desktop"@ {
        Some(AudioSource::Desktop)
    } else if l == "mic"@ || l == "microphone"@ {
        Some(AudioSource::Microphone)
    } else if l == "both"@ {
        Some(AudioSource::Both)
    } else {
        None
    }
}

/// Every audio source reads back from its displayed name, and every name
/// that reads as a source is that source's displayed name or its beginning
/// (so `desktop` is desktop audio alone, and `mic` the microphone).
pub proof fn lemma_audio_source_names(a: AudioSource, l: Seq<char>)
    ensures
        audio_source_from_lower(audio_source_name(a)) == Some(a),
        audio_source_from_lower(l) matches Some(b) ==> has_prefix(audio_source_name(b), l),
{
    reveal_strlit("none");
    reveal_strlit("desktop");
    reveal_strlit("mic");
    reveal_strlit("microphone");
    reveal_strlit("both");
    assert("microphone"@.subrange(0, 3) =~= "mic"@);
    assert("none"@.subrange(0, 4) =~= "none"@);
    assert("desktop"@.subrange(0, 7) =~= "desktop"@);
    assert("microphone"@.subrange(0, 10) =~= "microphone"@);
    assert("both"@.subrange(0, 4) =~= "both"@);
    assert("both"@[0] != "none"@[0]);
    assert("both"@.len() != "desktop"@.len() && "both"@.len() != "mic"@.len()
        && "both"@.len() != "microphone"@.len());
    assert("microphone"@.len() != "none"@.len() && "microphone"@.len() != "desktop"@.len());
    assert("desktop"@.len() != "none"@.len());
}

/// The audio codec that a lowercased name stands for.
pub open spec fn audio_codec_from_lower(l: Seq<char>) -> Option<AudioCodec> {
    if l == "aac"@ {
        Some(AudioCodec::Aac)
    } else if l == "opus"@ {
        Some(AudioCodec::Opus)
    } else {
        None
    }
}

/// The AV1 tier that a lowercased name stands for.
pub open spec fn tier_from_lower(l: Seq<char>) -> Option<Av1Tier> {
    if l == "main"@ {
        Some(Av1Tier::Main)
    } else if l == "high"@ {
        Some(Av1Tier::High)
    } else {
        None
    }
}

/// The AV1 tuning mode that a lowercased name stands for.
pub open spec fn tune_from_lower(l: Seq<char>) -> Option<Av1Tune> {
    if l == "hq"@ {
        Some(Av1Tune::Hq)
    } else if l == "uhq"@ {
        Some(Av1Tune::Uhq)
    } else if l == "ll"@ {
        Some(Av1Tune::Ll)
    } else if l == "ull"@ {
        Some(Av1Tune::Ull)
    } else if l == "lossless"@ {
        Some(Av1Tune::Lossless)
    } else {
        None
    }
}

/// The chroma format that a text names (exactly, case included).
pub open spec fn chroma_from_text(t: Seq<char>) -> Option<ChromaFormat> {
    if t == "420"@ {
        Some(ChromaFormat::Yuv420)
    } else if t == "422"@ {
        Some(ChromaFormat::Yuv422)
    } else if t == "444"@ {
        Some(ChromaFormat::Yuv444)
    } else {
        None
    }
}

/// The encoder quality that an already lower-cased name stands for.
pub fn quality_from_lowered(l: &str) -> (r: Option<EncoderPreset>)
    ensures
        r == quality_from_lower(l@),
{
    if same_text(l, "fast") {
        Some(EncoderPreset::Fast)
    } else if same_text(l, "medium") {
        Some(EncoderPreset::Medium)
    } else if same_text(l, "slow") {
        Some(EncoderPreset::Slow)
    } else if same_text(l, "quality") {
        Some(EncoderPreset::Quality)
    } else {
        None
    }
}

/// Parse an encoder quality name, ignoring case.
pub fn parse_quality(s: &str) -> (r: Result<EncoderPreset, String>)
    ensures
        match quality_from_lower(lower_text(s@)) {
            Some(q) => r == Ok::<EncoderPreset, String>(q),
            None => r matches Err(m) && m@ == "Invalid quality '"@ + s@ + QUALITY_CHOICES@,
        },
{
    match quality_from_lowered(to_lower(s).as_str()) {
        Some(v) => Ok(v),
        None => Err(quoted_error("Invalid quality '", s, QUALITY_CHOICES)),
    }
}

/// The audio source that an already lower-cased name stands for.
pub fn audio_source_from_lowered(l: &str) -> (r: Option<AudioSource>)
    ensures
        r == audio_source_from_lower(l@),
{
    if same_text(l, "none") {
        Some(AudioSource::NoAudio)
    } else if same_text(l, "desktop") {
        Some(AudioSource::Desktop)
    } else if same_text(l, "mic") || same_text(l, "microphone") {
        Some(AudioSource::Microphone)
    } else if same_text(l, "both") {
        Some(AudioSource::Both)
    } else {
        None
    }
}

/// Parse an audio source name, ignoring case.
pub fn parse_audio_source(s: &str) -> (r: Result<AudioSource, String>)
    ensures
        match audio_source_from_lower(lower_text(s@)) {
            Some(a) => r == Ok::<AudioSource, String>(a),
            None => r matches Err(m) && m@ == "Invalid audio source '"@ + s@ + AUDIO_SOURCE_CHOICES@,
        },
{
    match audio_source_from_lowered(to_lower(s).as_str()) {
        Some(v) => Ok(v),
        None => Err(quoted_error("Invalid audio source '", s, AUDIO_SOURCE_CHOICES)),
    }
}

/// The audio codec that an already lower-cased name stands for.
pub fn audio_codec_from_lowered(l: &str) -> (r: Option<AudioCodec>)
    ensures
        r == audio_codec_from_lower(l@),
{
    if same_text(l, "aac") {
        Some(AudioCodec::Aac)
    } else if same_text(l, "opus") {
        Some(AudioCodec::Opus)
    } else {
        None
    }
}

/// Parse an audio codec name, ignoring case.
pub fn parse_audio_codec(s: &str) -> (r: Result<AudioCodec, String>)
    ensures
        match audio_codec_from_lower(lower_text(s@)) {
            Some(a) => r == Ok::<AudioCodec, String>(a),
            None => r matches Err(m) && m@ == "Invalid audio codec '"@ + s@ + AUDIO_CODEC_CHOICES@,
        },
{
    match audio_codec_from_lowered(to_lower(s).as_str()) {
        Some(v) => Ok(v),
        None => Err(quoted_error("Invalid audio codec '", s, AUDIO_CODEC_CHOICES)),
    }
}

/// The AV1 tier that an already lower-cased name stands for.
pub fn tier_from_lowered(l: &str) -> (r: Option<Av1Tier>)
    ensures
        r == tier_from_lower(l@),
{
    if same_text(l, "main") {
        Some(Av1Tier::Main)
    } else if same_text(l, "high") {
        Some(Av1Tier::High)
    } else {
        None
    }
}

/// Parse an AV1 tier name, ignoring case.
pub fn parse_av1_tier(s: &str) -> (r: Result<Av1Tier, String>)
    ensures
        match tier_from_lower(lower_text(s@)) {
            Some(t) => r == Ok::<Av1Tier, String>(t),
            None => r matches Err(m) && m@ == "Invalid AV1 tier '"@ + s@ + TIER_CHOICES@,
        },
{
    match tier_from_lowered(to_lower(s).as_str()) {
        Some(v) => Ok(v),
        None => Err(quoted_error("Invalid AV1 tier '", s, TIER_CHOICES)),
    }
}

/// The AV1 tuning mode that an already lower-cased name stands for.
pub fn tune_from_lowered(l: &str) -> (r: Option<Av1Tune>)
    ensures
        r == tune_from_lower(l@),
{
    if same_text(l, "hq") {
        Some(Av1Tune::Hq)
    } else if same_text(l, "uhq") {
        Some(Av1Tune::Uhq)
    } else if same_text(l, "ll") {
        Some(Av1Tune::Ll)
    } else if same_text(l, "ull") {
        Some(Av1Tune::Ull)
    } else if same_text(l, "lossless") {
        Some(Av1Tune::Lossless)
    } else {
        None
    }
}

/// Parse an AV1 tuning mode name, ignoring case.
pub fn parse_av1_tune(s: &str) -> (r: Result<Av1Tune, String>)
    ensures
        match tune_from_lower(lower_text(s@)) {
            Some(t) => r == Ok::<Av1Tune, String>(t),
            None => r matches Err(m) && m@ == "Invalid AV1 tune '"@ + s@ + TUNE_CHOICES@,
        },
{
    match tune_from_lowered(to_lower(s).as_str()) {
        Some(v) => Ok(v),
        None => Err(quoted_error("Invalid AV1 tune '", s, TUNE_CHOICES)),
    }
}

/// Parse an AV1 chroma format ("420", "422" or "444").
pub fn parse_av1_chroma(s: &str) -> (r: Result<ChromaFormat, String>)
    ensures
        match chroma_from_text(s@) {
            Some(c) => r == Ok::<ChromaFormat, String>(c),
            None => r matches Err(m) && m@ == "Invalid AV1 chroma format '"@ + s@ + CHROMA_CHOICES@,
        },
{
    if same_text(s, "420") {
        Ok(ChromaFormat::Yuv420)
    } else if same_text(s, "422") {
        Ok(ChromaFormat::Yuv422)
    } else if same_text(s, "444") {
        Ok(ChromaFormat::Yuv444)
    } else {
        Err(quoted_error("Invalid AV1 chroma format '", s, CHROMA_CHOICES))
    }
}

/// The preset that the `cast` command settles on, or why it cannot.
pub open spec fn preset_choice(o: CastArgs, d: DefaultSettings) -> Result<Preset, Seq<char>> {
    let ps = pick_text(o.preset@, "1080p60"@, d.preset@);
    let named = preset_from_lower(lower_text(ps));
    if o.resolution is Some || o.fps is Some {
        let base = match named {
            Some(p) => p,
            None => Preset::P1080_60,
        };
        let fps = match o.fps {
            Some(f) => f,
            None => base.spec_fps(),
        };
        match o.resolution {
            Some(res) => match resolution_result(res@) {
                Ok(wh) => Ok(Preset::Custom { width: wh.0, height: wh.1, fps }),
                Err(m) => Err(m),
            },
            None => Ok(Preset::Custom { width: base.spec_width(), height: base.spec_height(), fps }),
        }
    } else {
        match named {
            Some(p) => Ok(p),
            None => Err("Invalid preset '"@ + ps + PRESET_CHOICES@),
        }
    }
}

/// The AV1 settings after GPU detection: on a Blackwell GPU the UHQ tune,
/// temporal AQ, B-frame references and a lookahead of at least 100 frames;
/// on any other GPU no temporal AQ, no B-frame references and 4:2:0 chroma.
pub open spec fn rtx_adjusted(c: Av1Config, blackwell: bool) -> Av1Config {
    if blackwell {
        Av1Config {
            tune: Av1Tune::Uhq,
            temporal_aq: true,
            b_ref_mode: true,
            lookahead_depth: if c.lookahead_depth > 100 {
                c.lookahead_depth
            } else {
                100
            },
            ..c
        }
    } else {
        Av1Config { temporal_aq: false, chroma: ChromaFormat::Yuv420, b_ref_mode: false, ..c }
    }
}

/// The AV1 configuration that the `cast` command builds for an AV1 stream,
/// or why it cannot; `queried_gpu_name` is the outcome of asking for the
/// GPU's name, consulted only with `av1_auto`.
pub open spec fn av1_choice(o: CastArgs, queried_gpu_name: Result<String, NitrogenError>) -> Result<
    Av1Config,
    Seq<char>,
> {
    match tier_from_lower(lower_text(o.av1_tier@)) {
        None => Err("Invalid AV1 tier '"@ + o.av1_tier@ + TIER_CHOICES@),
        Some(tier) => match tune_from_lower(lower_text(o.av1_tune@)) {
            None => Err("Invalid AV1 tune '"@ + o.av1_tune@ + TUNE_CHOICES@),
            Some(tune) => match chroma_from_text(o.av1_chroma@) {
                None => Err("Invalid AV1 chroma format '"@ + o.av1_chroma@ + CHROMA_CHOICES@),
                Some(chroma) => {
                    let base = Av1Config {
                        ten_bit: o.av1_10bit,
                        tier,
                        gop_length: o.av1_gop,
                        lookahead: o.av1_lookahead,
                        lookahead_depth: o.av1_lookahead_depth,
                        spatial_aq: o.av1_spatial_aq,
                        temporal_aq: o.av1_temporal_aq,
                        tune,
                        chroma,
                        multipass: MultipassMode::Disabled,
                        b_ref_mode: o.av1_b_ref,
                    };
                    if o.av1_auto {
                        match queried_gpu_name {
                            Ok(n) => Ok(
                                rtx_adjusted(base, generation_of_name(n@) == GpuGeneration::Blackwell),
                            ),
                            Err(_) => Ok(base),
                        }
                    } else {
                        Ok(base)
                    }
                },
            },
        },
    }
}

/// The codec name that the `cast` command uses.
pub open spec fn codec_text(o: CastArgs, d: DefaultSettings) -> Seq<char> {
    pick_text(o.codec@, "h264"@, d.codec@)
}

/// The quality name that the `cast` command uses.
pub open spec fn quality_text(o: CastArgs, e: EncoderSettings) -> Seq<char> {
    pick_text(o.quality@, "medium"@, e.quality@)
}

/// The audio source name that the `cast` command uses.
pub open spec fn audio_source_text(o: CastArgs, a: AudioSettings) -> Seq<char> {
    pick_text(o.audio@, "none"@, a.source@)
}

/// The audio codec name that the `cast` command uses.
pub open spec fn audio_codec_text(o: CastArgs, a: AudioSettings) -> Seq<char> {
    pick_text(o.audio_codec@, "aac"@, a.codec@)
}

/// Why the `cast` command refuses its options, checked in this order:
/// preset, codec, quality, audio source, audio codec, the AV1 settings (for
/// an AV1 stream), then the resolution and framerate limits.
pub open spec fn cast_error(
    o: CastArgs,
    d: DefaultSettings,
    e: EncoderSettings,
    a: AudioSettings,
    queried_gpu_name: Result<String, NitrogenError>,
) -> Option<Seq<char>> {
    match preset_choice(o, d) {
        Err(m) => Some(m),
        Ok(p) => match codec_from_lower(lower_text(codec_text(o, d))) {
            None => Some("Invalid codec '"@ + codec_text(o, d) + CODEC_CHOICES@),
            Some(c) => if quality_from_lower(lower_text(quality_text(o, e))) is None {
                Some("Invalid quality '"@ + quality_text(o, e) + QUALITY_CHOICES@)
            } else if audio_source_from_lower(lower_text(audio_source_text(o, a))) is None {
                Some("Invalid audio source '"@ + audio_source_text(o, a) + AUDIO_SOURCE_CHOICES@)
            } else if audio_codec_from_lower(lower_text(audio_codec_text(o, a))) is None {
                Some("Invalid audio codec '"@ + audio_codec_text(o, a) + AUDIO_CODEC_CHOICES@)
            } else if c == Codec::Av1 && av1_choice(o, queried_gpu_name) is Err {
                Some(av1_choice(o, queried_gpu_name)->Err_0)
            } else {
                match preset_error(p) {
                    Some(m) => Some("Invalid configuration: "@ + m),
                    None => None,
                }
            },
        },
    }
}

/// The capture configuration that the `cast` command builds from accepted options.
pub open spec fn cast_built(
    c: CaptureConfig,
    o: CastArgs,
    d: DefaultSettings,
    e: EncoderSettings,
    cam: CameraSettings,
    a: AudioSettings,
    queried_gpu_name: Result<String, NitrogenError>,
) -> bool {
    &&& c.preset == preset_choice(o, d)->Ok_0
    &&& codec_from_lower(lower_text(codec_text(o, d))) == Some(c.codec)
    &&& c.bitrate == pick_number(o.bitrate, d.bitrate)
    &&& quality_from_lower(lower_text(quality_text(o, e))) == Some(c.encoder_preset)
    &&& c.camera_name@ == pick_text(o.camera_name@, DEFAULT_CAMERA_NAME@, cam.name@)
    &&& c.low_latency == (!o.no_low_latency && d.low_latency)
    &&& c.gpu == pick_number(o.gpu, e.gpu)
    &&& match o.record {
        Some(path) => c.record_path matches Some(x) && x@ == path@,
        None => c.record_path is None,
    }
    &&& c.cursor_mode == CursorMode::Embedded
    &&& audio_source_from_lower(lower_text(audio_source_text(o, a))) == Some(c.audio_source)
    &&& audio_codec_from_lower(lower_text(audio_codec_text(o, a))) == Some(c.audio_codec)
    &&& c.audio_bitrate == pick_number(o.audio_bitrate, a.bitrate)
    &&& c.av1 == (if c.codec == Codec::Av1 {
        av1_choice(o, queried_gpu_name)->Ok_0
    } else {
        default_av1()
    })
    &&& match o.monitor {
        Some(m) => c.source is Monitor && c.source.id_view() == m@,
        None => match o.window {
            Some(w) => c.source is Window && c.source.id_view() == w@,
            None => c.source is Monitor && c.source.id_view() == "portal"@,
        },
    }
}

/// The configuration file sets the defaults of the `cast` command and the
/// command line overrides them: in a configuration built from accepted
/// options, each setting given on the command line (one that differs from
/// its built-in default) is the command line's, and each setting left at
/// its default is the configuration file's.
pub proof fn lemma_command_line_overrides_file(
    c: CaptureConfig,
    o: CastArgs,
    d: DefaultSettings,
    e: EncoderSettings,
    cam: CameraSettings,
    a: AudioSettings,
    queried_gpu_name: Result<String, NitrogenError>,
)
    requires
        cast_error(o, d, e, a, queried_gpu_name) is None,
        cast_built(c, o, d, e, cam, a, queried_gpu_name),
    ensures
        c.bitrate == (if o.bitrate != 0 { o.bitrate } else { d.bitrate }),
        c.gpu == (if o.gpu != 0 { o.gpu } else { e.gpu }),
        c.audio_bitrate == (if o.audio_bitrate != 0 { o.audio_bitrate } else { a.bitrate }),
        c.camera_name@ == (if o.camera_name@ != DEFAULT_CAMERA_NAME@ {
            o.camera_name@
        } else {
            cam.name@
        }),
        Some(c.codec) == codec_from_lower(
            lower_text(if o.codec@ != "h264"@ { o.codec@ } else { d.codec@ }),
        ),
        Some(c.encoder_preset) == quality_from_lower(
            lower_text(if o.quality@ != "medium"@ { o.quality@ } else { e.quality@ }),
        ),
        Some(c.audio_source) == audio_source_from_lower(
            lower_text(if o.audio@ != "none"@ { o.audio@ } else { a.source@ }),
        ),
        Some(c.audio_codec) == audio_codec_from_lower(
            lower_text(if o.audio_codec@ != "aac"@ { o.audio_codec@ } else { a.codec@ }),
        ),
        o.resolution is None && o.fps is None ==> Some(c.preset) == preset_from_lower(
            lower_text(if o.preset@ != "1080p60"@ { o.preset@ } else { d.preset@ }),
        ),
{
}

/// The GPU index that the `cast` command encodes on.
pub fn cast_gpu(o: &CastArgs, e: &EncoderSettings) -> (g: u32)
    ensures
        g == pick_number(o.gpu, e.gpu),
{
    if o.gpu == 0 {
        e.gpu
    } else {
        o.gpu
    }
}

/// Whether the `cast` command asks for the GPU's name: only for an AV1
/// stream with `av1_auto`.
pub fn cast_wants_gpu_query(o: &CastArgs, d: &DefaultSettings) -> (b: bool)
    ensures
        b == (o.av1_auto && codec_from_lower(lower_text(codec_text(*o, *d))) == Some(
            Codec::Av1,
        )),
{
    if !o.av1_auto {
        return false;
    }
    let cs = pick(o.codec.as_str(), "h264", d.codec.as_str());
    match Codec::parse_name(cs) {
        Ok(c) => c == Codec::Av1,
        Err(_) => false,
    }
}

fn cast_preset(o: &CastArgs, d: &DefaultSettings) -> (r: Result<Preset, String>)
    ensures
        match preset_choice(*o, *d) {
            Ok(p) => r == Ok::<Preset, String>(p),
            Err(m) => r matches Err(x) && x@ == m,
        },
{
    let ps = pick(o.preset.as_str(), "1080p60", d.preset.as_str());
    let named = Preset::from_preset_str(ps);
    if o.resolution.is_some() || o.fps.is_some() {
        let base = match named {
            Some(p) => p,
            None => Preset::P1080_60,
        };
        let fps = match o.fps {
            Some(f) => f,
            None => base.fps(),
        };
        match &o.resolution {
            Some(res) => match parse_resolution(res.as_str()) {
                Ok((w, h)) => Ok(Preset::Custom { width: w, height: h, fps }),
                Err(m) => Err(m),
            },
            None => {
                let (w, h) = base.resolution();
                Ok(Preset::Custom { width: w, height: h, fps })
            },
        }
    } else {
        match named {
            Some(p) => Ok(p),
            None => Err(quoted_error("Invalid preset '", ps, PRESET_CHOICES)),
        }
    }
}

fn cast_av1(o: &CastArgs, queried_gpu_name: Result<String, NitrogenError>) -> (r: Result<
    Av1Config,
    String,
>)
    ensures
        match av1_choice(*o, queried_gpu_name) {
            Ok(c) => r == Ok::<Av1Config, String>(c),
            Err(m) => r matches Err(x) && x@ == m,
        },
{
    let tier = match parse_av1_tier(o.av1_tier.as_str()) {
        Ok(t) => t,
        Err(m) => return Err(m),
    };
    let tune = match parse_av1_tune(o.av1_tune.as_str()) {
        Ok(t) => t,
        Err(m) => return Err(m),
    };
    let chroma = match parse_av1_chroma(o.av1_chroma.as_str()) {
        Ok(c) => c,
        Err(m) => return Err(m),
    };
    let base = Av1Config {
        ten_bit: o.av1_10bit,
        tier,
        gop_length: o.av1_gop,
        lookahead: o.av1_lookahead,
        lookahead_depth: o.av1_lookahead_depth,
        spatial_aq: o.av1_spatial_aq,
        temporal_aq: o.av1_temporal_aq,
        tune,
        chroma,
        multipass: MultipassMode::Disabled,
        b_ref_mode: o.av1_b_ref,
    };
    if !o.av1_auto {
        return Ok(base);
    }
    match detect_rtx50_features(queried_gpu_name) {
        Ok(f) => {
            let depth = if f.extended_lookahead {
                if base.lookahead_depth > 100 {
                    base.lookahead_depth
                } else {
                    100
                }
            } else {
                base.lookahead_depth
            };
            Ok(
                Av1Config {
                    tune: if f.uhq_supported {
                        Av1Tune::Uhq
                    } else {
                        tune
                    },
                    temporal_aq: f.temporal_aq_supported,
                    chroma: if f.yuv422_supported {
                        chroma
                    } else {
                        ChromaFormat::Yuv420
                    },
                    b_ref_mode: f.b_ref_supported,
                    lookahead_depth: depth,
                    ..base
                },
            )
        },
        Err(_) => Ok(base),
    }
}

/// Turn the `cast` command's options and the configuration file's sections
/// into a validated capture configuration. Options left at their defaults
/// take the file's values; `queried_gpu_name` is the outcome of asking for
/// the GPU's name (see `cast_wants_gpu_query`), used with `av1_auto`.
pub fn cast_config(
    o: &CastArgs,
    d: &DefaultSettings,
    e: &EncoderSettings,
    cam: &CameraSettings,
    a: &AudioSettings,
    queried_gpu_name: Result<String, NitrogenError>,
) -> (r: Result<CaptureConfig, String>)
    ensures
        match cast_error(*o, *d, *e, *a, queried_gpu_name) {
            Some(m) => r matches Err(x) && x@ == m,
            None => r matches Ok(c) && cast_built(c, *o, *d, *e, *cam, *a, queried_gpu_name),
        },
{
    let preset = match cast_preset(o, d) {
        Ok(p) => p,
        Err(m) => return Err(m),
    };
    let cs = pick(o.codec.as_str(), "h264", d.codec.as_str());
    let codec = match Codec::parse_name(cs) {
        Ok(c) => c,
        Err(_) => return Err(quoted_error("Invalid codec '", cs, CODEC_CHOICES)),
    };
    let qs = pick(o.quality.as_str(), "medium", e.quality.as_str());
    let encoder_preset = match parse_quality(qs) {
        Ok(q) => q,
        Err(m) => return Err(m),
    };
    let ss = pick(o.audio.as_str(), "none", a.source.as_str());
    let audio_source = match parse_audio_source(ss) {
        Ok(x) => x,
        Err(m) => return Err(m),
    };
    let acs = pick(o.audio_codec.as_str(), "aac", a.codec.as_str());
    let audio_codec = match parse_audio_codec(acs) {
        Ok(x) => x,
        Err(m) => return Err(m),
    };
    let source = match &o.monitor {
        Some(m) => CaptureSource::monitor(m.as_str()),
        None => match &o.window {
            Some(w) => CaptureSource::window(w.as_str()),
            None => CaptureSource::monitor("portal"),
        },
    };
    let av1 = if codec == Codec::Av1 {
        match cast_av1(o, queried_gpu_name) {
            Ok(c) => c,
            Err(m) => return Err(m),
        }
    } else {
        Av1Config::default()
    };
    let camera_name = owned(pick(o.camera_name.as_str(), DEFAULT_CAMERA_NAME, cam.name.as_str()));
    let record_path = match &o.record {
        Some(p) => Some(owned(p.as_str())),
        None => None,
    };
    let config = CaptureConfig {
        source,
        preset,
        codec,
        bitrate: if o.bitrate == 0 {
            d.bitrate
        } else {
            o.bitrate
        },
        encoder_preset,
        camera_name,
        low_latency: !o.no_low_latency && d.low_latency,
        gpu: cast_gpu(o, e),
        record_path,
        cursor_mode: CursorMode::Embedded,
        audio_source,
        av1,
        audio_codec,
        audio_bitrate: if o.audio_bitrate == 0 {
            a.bitrate
        } else {
            o.audio_bitrate
        },
    };
    match config.validate_strict() {
        Ok(_) => Ok(config),
        Err(m) => {
            let mut x = owned("Invalid configuration: ");
            push_text(&mut x, m.as_str());
            Err(x)
        },
    }
}


pub const PERMISSION_HINT: &'static str =
    "Hint: Check file/device permissions. You may need to add your user to the 'video' group.";
pub const DAEMON_HINT: &'static str =
    "Hint: The nitrogen daemon may not be running. Start a capture session with: nitrogen cast";
pub const NVIDIA_HINT: &'static str =
    "Hint: Ensure NVIDIA drivers are installed and your GPU supports NVENC.\n  Try: nvidia-smi";

/// The hint for an error that carries none of its own, read from its
/// lowercased text.
pub open spec fn generic_hint_text(lower: Seq<char>) -> Option<Seq<char>> {
    if has_sub(lower, "permission denied"@) {
        Some(PERMISSION_HINT@)
    } else if has_sub(lower, "connection refused"@) || (has_sub(lower, "no such file"@) && has_sub(
        lower,
        "socket"@,
    )) {
        Some(DAEMON_HINT@)
    } else if has_sub(lower, "nvenc"@) || has_sub(lower, "nvidia"@) {
        Some(NVIDIA_HINT@)
    } else {
        None
    }
}

/// The generic hint for an already lower-cased error text.
pub fn hint_from_lowered(l: &str) -> (r: Option<&'static str>)
    ensures
        match generic_hint_text(l@) {
            Some(h) => r matches Some(x) && x@ == h,
            None => r is None,
        },
{
    if contains_text(l, "permission denied") {
        Some(PERMISSION_HINT)
    } else if contains_text(l, "connection refused") || (contains_text(l, "no such file")
        && contains_text(l, "socket")) {
        Some(DAEMON_HINT)
    } else if contains_text(l, "nvenc") || contains_text(l, "nvidia") {
        Some(NVIDIA_HINT)
    } else {
        None
    }
}

/// The hint printed under an error that carries none of its own: about
/// permissions, a daemon that is not running, or the NVIDIA driver,
/// recognised in the error's text regardless of case.
pub fn generic_hint(error_text: &str) -> (r: Option<&'static str>)
    ensures
        match generic_hint_text(lower_text(error_text@)) {
            Some(h) => r matches Some(x) && x@ == h,
            None => r is None,
        },
{
    hint_from_lowered(to_lower(error_text).as_str())
}


/// Arguments of the `stop` command.
#[derive(Debug, Clone, Copy)]
pub struct StopArgs {
    /// Force stop without waiting for cleanup
    pub force: bool,
}

/// The request that the `stop` command sends to the daemon.
pub fn stop_request(args: &StopArgs) -> (m: IpcMessage)
    ensures
        m == (if args.force {
            IpcMessage::ForceStop
        } else {
            IpcMessage::Stop
        }),
{
    if args.force {
        IpcMessage::ForceStop
    } else {
        IpcMessage::Stop
    }
}

/// Subcommands of the `config` command.
#[derive(Debug, Clone, Copy, PartialEq, Eq, Structural)]
pub enum ConfigCommand {
    /// Show the path to the config file
    Path,
    /// Show the current configuration
    Show,
    /// Generate a default config file (`force` overwrites an existing one)
    Init { force: bool },
    /// Print a sample configuration to stdout
    Sample,
}

/// Arguments of the `config` command.
#[derive(Debug, Clone, Copy)]
pub struct ConfigArgs {
    pub command: ConfigCommand,
}

/// Whether `config init` writes the sample configuration: where no file
/// exists yet, or with `force`.
pub fn init_writes(file_exists: bool, force: bool) -> (b: bool)
    ensures
        b == (!file_exists || force),
{
    !file_exists || force
}

} // verus!
