//! Configuration types: capture presets, codecs, encoder settings and the
//! complete capture configuration with its validation rules.

use vstd::prelude::*;
use crate::text::{owned, to_lower, same_text, push_text, push_decimal, decimal, lower_text,
    has_sub, has_prefix, occurs_at, lacks_char, lacks_pair, is_digit, lemma_lacks_char_no_sub,
    lemma_lacks_pair_no_sub, lemma_lacks_char_concat, lemma_sub_concat, lemma_decimal_lacks,
    lemma_decimal_digits, is_ascii_text, ascii_lower, ascii_upper, lemma_decimal_ascii,
    lemma_ascii_concat, lemma_ascii_upper_then_lower};
use crate::types::CaptureSource;
pub use crate::av1::{Av1Config, Av1Tier, Av1Tune, ChromaFormat, MultipassMode, default_av1};
pub use crate::settings::{
    sample_config, DefaultSettings, EncoderSettings, CameraSettings, AudioSettings,
    DetectionSettings, HdrSettings, PerformanceSettings, HotkeySettings, WebRTCSettings,
    Av1Settings,
};

verus! {

/// Video codec for encoding
#[derive(Debug, Clone, Copy, PartialEq, Eq, Hash, Structural)]
pub enum Codec {
    /// H.264 / AVC (most compatible)
    H264,
    /// H.265 / HEVC (better compression)
    Hevc,
    /// AV1 (best compression, newer GPUs only)
    Av1,
}

impl Default for Codec {
    fn default() -> (c: Self)
        ensures
            c == Codec::H264,
    {
        Codec::H264
    }
}

/// The codec that a lowercased name stands for.
pub open spec fn codec_from_lower(l: Seq<char>) -> Option<Codec> {
    if l == "h264"@ || l == "avc"@ || l == "264"@ {
        Some(Codec::H264)
    } else if l == "hevc"@ || l == "h265"@ || l == "265"@ {
        Some(Codec::Hevc)
    } else if l == "av1"@ {
        Some(Codec::Av1)
    } else {
        None
    }
}

impl Codec {
    /// Get the FFmpeg encoder name for NVENC
    pub fn nvenc_encoder(&self) -> (r: &'static str)
        ensures
            r@ == match *self {
                Codec::H264 => "h264_nvenc"@,
                Codec::Hevc => "hevc_nvenc"@,
                Codec::Av1 => "av1_nvenc"@,
            },
    {
        match self {
            Codec::H264 => "h264_nvenc",
            Codec::Hevc => "hevc_nvenc",
            Codec::Av1 => "av1_nvenc",
        }
    }

    /// Get the codec name for display
    pub fn display_name(&self) -> (r: &'static str)
        ensures
            r@ == match *self {
                Codec::H264 => "H.264"@,
                Codec::Hevc => "HEVC"@,
                Codec::Av1 => "AV1"@,
            },
    {
        match self {
            Codec::H264 => "H.264",
            Codec::Hevc => "HEVC",
            Codec::Av1 => "AV1",
        }
    }

    /// The codec that an already lower-cased name stands for.
    pub fn from_lowered(l: &str) -> (r: Option<Codec>)
        ensures
            r == codec_from_lower(l@),
    {
        if same_text(l, "h264") || same_text(l, "avc") || same_text(l, "264") {
            Some(Codec::H264)
        } else if same_text(l, "hevc") || same_text(l, "h265") || same_text(l, "265") {
            Some(Codec::Hevc)
        } else if same_text(l, "av1") {
            Some(Codec::Av1)
        } else {
            None
        }
    }

    /// Parse a codec name, ignoring case.
    pub fn parse_name(s: &str) -> (r: Result<Codec, String>)
        ensures
            match codec_from_lower(lower_text(s@)) {
                Some(c) => r == Ok::<Codec, String>(c),
                None => r matches Err(m) && m@ == "Unknown codec: "@ + s@,
            },
    {
        match Codec::from_lowered(to_lower(s).as_str()) {
            Some(v) => Ok(v),
            None => {
                let mut m = owned("Unknown codec: ");
                push_text(&mut m, s);
                Err(m)
            },
        }
    }
}

impl core::str::FromStr for Codec {
    type Err = String;

    fn from_str(s: &str) -> (r: core::result::Result<Codec, String>)
        ensures
            match codec_from_lower(lower_text(s@)) {
                Some(c) => r == Ok::<Codec, String>(c),
                None => r matches Err(m) && m@ == "Unknown codec: "@ + s@,
            },
    {
        Codec::parse_name(s)
    }
}

/// Cursor capture mode
#[derive(Debug, Clone, Copy, PartialEq, Eq, Hash, Structural)]
pub enum CursorMode {
    /// Hide cursor in capture
    Hidden,
    /// Show cursor embedded in capture frames
    Embedded,
    /// Cursor metadata only (compositor-dependent)
    Metadata,
}

impl Default for CursorMode {
    fn default() -> (m: Self)
        ensures
            m == CursorMode::Embedded,
    {
        CursorMode::Embedded
    }
}

/// Audio capture source
#[derive(Debug, Clone, Copy, PartialEq, Eq, Hash, Structural)]
pub enum AudioSource {
    /// No audio capture
    NoAudio,
    /// Capture desktop/system audio (what you hear)
    Desktop,
    /// Capture microphone input
    Microphone,
    /// Capture both desktop and microphone
    Both,
}

impl Default for AudioSource {
    fn default() -> (s: Self)
        ensures
            s == AudioSource::NoAudio,
    {
        AudioSource::NoAudio
    }
}

/// The name of an audio source, as it is displayed.
pub open spec fn audio_source_name(a: AudioSource) -> Seq<char> {
    match a {
        AudioSource::NoAudio => "none"@,
        AudioSource::Desktop => "desktop"@,
        AudioSource::Microphone => "microphone"@,
        AudioSource::Both => "both"@,
    }
}

impl AudioSource {
    /// The name of the source, as it is displayed.
    pub fn display_name(&self) -> (r: &'static str)
        ensures
            r@ == audio_source_name(*self),
    {
        match self {
            AudioSource::NoAudio => "none",
            AudioSource::Desktop => "desktop",
            AudioSource::Microphone => "microphone",
            AudioSource::Both => "both",
        }
    }
}

/// Audio codec for encoding
#[derive(Debug, Clone, Copy, PartialEq, Eq, Hash, Structural)]
pub enum AudioCodec {
    /// AAC (most compatible)
    Aac,
    /// Opus (better quality at low bitrates)
    Opus,
    /// Copy/passthrough (no re-encoding)
    Copy,
}

impl Default for AudioCodec {
    fn default() -> (c: Self)
        ensures
            c == AudioCodec::Aac,
    {
        AudioCodec::Aac
    }
}

/// Default bitrate of an audio codec in kbps.
pub open spec fn audio_default_bitrate(c: AudioCodec) -> u32 {
    match c {
        AudioCodec::Aac => 192,
        AudioCodec::Opus => 128,
        AudioCodec::Copy => 0,
    }
}

impl AudioCodec {
    /// Get the FFmpeg encoder name
    pub fn ffmpeg_encoder(&self) -> (r: &'static str)
        ensures
            r@ == match *self {
                AudioCodec::Aac => "aac"@,
                AudioCodec::Opus => "libopus"@,
                AudioCodec::Copy => "copy"@,
            },
    {
        match self {
            AudioCodec::Aac => "aac",
            AudioCodec::Opus => "libopus",
            AudioCodec::Copy => "copy",
        }
    }

    /// Get default bitrate for this codec in kbps
    pub fn default_bitrate(&self) -> (r: u32)
        ensures
            r == audio_default_bitrate(*self),
    {
        match self {
            AudioCodec::Aac => 192,
            AudioCodec::Opus => 128,
            AudioCodec::Copy => 0,
        }
    }

    /// The name of the codec, as it is displayed.
    pub fn display_name(&self) -> (r: &'static str)
        ensures
            r@ == match *self {
                AudioCodec::Aac => "AAC"@,
                AudioCodec::Opus => "Opus"@,
                AudioCodec::Copy => "Copy"@,
            },
    {
        match self {
            AudioCodec::Aac => "AAC",
            AudioCodec::Opus => "Opus",
            AudioCodec::Copy => "Copy",
        }
    }
}

/// Encoder quality preset
#[derive(Debug, Clone, Copy, PartialEq, Eq, Hash, Structural)]
pub enum EncoderPreset {
    /// Fast encoding, lower quality
    Fast,
    /// Balanced encoding (default)
    Medium,
    /// Slower encoding, better quality
    Slow,
    /// Best quality, slowest encoding
    Quality,
}

impl Default for EncoderPreset {
    fn default() -> (p: Self)
        ensures
            p == EncoderPreset::Medium,
    {
        EncoderPreset::Medium
    }
}

impl EncoderPreset {
    /// Get NVENC preset name
    pub fn nvenc_preset(&self) -> (r: &'static str)
        ensures
            r@ == match *self {
                EncoderPreset::Fast => "p1"@,
                EncoderPreset::Medium => "p4"@,
                EncoderPreset::Slow => "p6"@,
                EncoderPreset::Quality => "p7"@,
            },
    {
        match self {
            EncoderPreset::Fast => "p1",
            EncoderPreset::Medium => "p4",
            EncoderPreset::Slow => "p6",
            EncoderPreset::Quality => "p7",
        }
    }
}

/// Output resolution/framerate preset
#[derive(Debug, Clone, Copy, PartialEq, Eq, Hash, Structural)]
pub enum Preset {
    /// 1280x720 @ 30fps
    P720_30,
    /// 1280x720 @ 60fps
    P720_60,
    /// 1920x1080 @ 30fps
    P1080_30,
    /// 1920x1080 @ 60fps (default)
    P1080_60,
    /// 2560x1440 @ 30fps
    P1440_30,
    /// 2560x1440 @ 60fps
    P1440_60,
    /// 2560x1440 @ 120fps
    P1440_120,
    /// 3840x2160 @ 30fps
    P4k30,
    /// 3840x2160 @ 60fps
    P4k60,
    /// 3840x2160 @ 120fps
    P4k120,
    /// Custom resolution/framerate
    Custom { width: u32, height: u32, fps: u32 },
}

impl Default for Preset {
    fn default() -> (p: Self)
        ensures
            p == Preset::P1080_60,
    {
        Preset::P1080_60
    }
}

/// The preset that a lowercased name stands for.
pub open spec fn preset_from_lower(l: Seq<char>) -> Option<Preset> {
    if l == "720p30"@ {
        Some(Preset::P720_30)
    } else if l == "720p60"@ {
        Some(Preset::P720_60)
    } else if l == "1080p30"@ {
        Some(Preset::P1080_30)
    } else if l == "1080p60"@ {
        Some(Preset::P1080_60)
    } else if l == "1440p30"@ || l == "2k30"@ {
        Some(Preset::P1440_30)
    } else if l == "1440p60"@ || l == "2k60"@ {
        Some(Preset::P1440_60)
    } else if l == "1440p120"@ || l == "2k120"@ {
        Some(Preset::P1440_120)
    } else if l == "4k30"@ || l == "2160p30"@ {
        Some(Preset::P4k30)
    } else if l == "4k60"@ || l == "2160p60"@ {
        Some(Preset::P4k60)
    } else if l == "4k120"@ || l == "2160p120"@ {
        Some(Preset::P4k120)
    } else {
        None
    }
}

impl Preset {
    /// Width in pixels.
    pub open spec fn spec_width(self) -> u32 {
        match self {
            Preset::P720_30 | Preset::P720_60 => 1280,
            Preset::P1080_30 | Preset::P1080_60 => 1920,
            Preset::P1440_30 | Preset::P1440_60 | Preset::P1440_120 => 2560,
            Preset::P4k30 | Preset::P4k60 | Preset::P4k120 => 3840,
            Preset::Custom { width, .. } => width,
        }
    }

    /// Height in pixels.
    pub open spec fn spec_height(self) -> u32 {
        match self {
            Preset::P720_30 | Preset::P720_60 => 720,
            Preset::P1080_30 | Preset::P1080_60 => 1080,
            Preset::P1440_30 | Preset::P1440_60 | Preset::P1440_120 => 1440,
            Preset::P4k30 | Preset::P4k60 | Preset::P4k120 => 2160,
            Preset::Custom { height, .. } => height,
        }
    }

    /// Frames per second.
    pub open spec fn spec_fps(self) -> u32 {
        match self {
            Preset::P720_30 | Preset::P1080_30 | Preset::P1440_30 | Preset::P4k30 => 30,
            Preset::P720_60 | Preset::P1080_60 | Preset::P1440_60 | Preset::P4k60 => 60,
            Preset::P1440_120 | Preset::P4k120 => 120,
            Preset::Custom { fps, .. } => fps,
        }
    }

    /// Pixels per second.
    pub open spec fn pixel_rate(self) -> int {
        self.spec_width() * self.spec_height() * self.spec_fps()
    }

    /// The bitrate estimate of a custom preset is computable in 64 bits.
    pub open spec fn rate_in_range(self) -> bool {
        self.pixel_rate() * 7 <= u64::MAX
    }

    /// Suggested bitrate in kbps (0.07 bits per pixel for custom presets,
    /// truncated to 32 bits).
    pub open spec fn spec_suggested_bitrate(self) -> u32 {
        match self {
            Preset::P720_30 => 2500,
            Preset::P720_60 => 4000,
            Preset::P1080_30 => 4500,
            Preset::P1080_60 => 6000,
            Preset::P1440_30 => 9000,
            Preset::P1440_60 => 12000,
            Preset::P1440_120 => 18000,
            Preset::P4k30 => 20000,
            Preset::P4k60 => 35000,
            Preset::P4k120 => 50000,
            Preset::Custom { width, height, fps } => ((width * height * fps * 7) / 100000) as u32,
        }
    }

    /// The preset as it is displayed.
    pub open spec fn text(self) -> Seq<char> {
        match self {
            Preset::P720_30 => "720p30"@,
            Preset::P720_60 => "720p60"@,
            Preset::P1080_30 => "1080p30"@,
            Preset::P1080_60 => "1080p60"@,
            Preset::P1440_30 => "1440p30"@,
            Preset::P1440_60 => "1440p60"@,
            Preset::P1440_120 => "1440p120"@,
            Preset::P4k30 => "4K30"@,
            Preset::P4k60 => "4K60"@,
            Preset::P4k120 => "4K120"@,
            Preset::Custom { width, height, fps } => decimal(width as nat) + "x"@ + decimal(
                height as nat,
            ) + "@"@ + decimal(fps as nat) + "fps"@,
        }
    }

    /// Get width in pixels
    pub fn width(&self) -> (r: u32)
        ensures
            r == self.spec_width(),
    {
        match self {
            Preset::P720_30 | Preset::P720_60 => 1280,
            Preset::P1080_30 | Preset::P1080_60 => 1920,
            Preset::P1440_30 | Preset::P1440_60 | Preset::P1440_120 => 2560,
            Preset::P4k30 | Preset::P4k60 | Preset::P4k120 => 3840,
            Preset::Custom { width, .. } => *width,
        }
    }

    /// Get height in pixels
    pub fn height(&self) -> (r: u32)
        ensures
            r == self.spec_height(),
    {
        match self {
            Preset::P720_30 | Preset::P720_60 => 720,
            Preset::P1080_30 | Preset::P1080_60 => 1080,
            Preset::P1440_30 | Preset::P1440_60 | Preset::P1440_120 => 1440,
            Preset::P4k30 | Preset::P4k60 | Preset::P4k120 => 2160,
            Preset::Custom { height, .. } => *height,
        }
    }

    /// Get framerate
    pub fn fps(&self) -> (r: u32)
        ensures
            r == self.spec_fps(),
    {
        match self {
            Preset::P720_30 | Preset::P1080_30 | Preset::P1440_30 | Preset::P4k30 => 30,
            Preset::P720_60 | Preset::P1080_60 | Preset::P1440_60 | Preset::P4k60 => 60,
            Preset::P1440_120 | Preset::P4k120 => 120,
            Preset::Custom { fps, .. } => *fps,
        }
    }

    /// Get suggested bitrate in kbps
    pub fn suggested_bitrate(&self) -> (r: u32)
        requires
            self.rate_in_range(),
        ensures
            r == self.spec_suggested_bitrate(),
    {
        match self {
            Preset::P720_30 => 2500,
            Preset::P720_60 => 4000,
            Preset::P1080_30 => 4500,
            Preset::P1080_60 => 6000,
            Preset::P1440_30 => 9000,
            Preset::P1440_60 => 12000,
            Preset::P1440_120 => 18000,
            Preset::P4k30 => 20000,
            Preset::P4k60 => 35000,
            Preset::P4k120 => 50000,
            Preset::Custom { width, height, fps } => {
                let w = *width as u64;
                let h = *height as u64;
                let f = *fps as u64;
                proof {
                    assert(w * h <= u64::MAX) by (nonlinear_arith)
                        requires
                            w <= u32::MAX,
                            h <= u32::MAX,
                    ;
                    assert(w * h * f * 7 <= u64::MAX);
                    assert(w * h * f <= w * h * f * 7) by (nonlinear_arith)
                        requires
                            w >= 0,
                            h >= 0,
                            f >= 0,
                    ;
                }
                let pixels_per_second = w * h * f;
                ((pixels_per_second * 7) / 100_000) as u32
            },
        }
    }

    /// The preset that an already lower-cased name stands for.
    pub fn from_lowered(l: &str) -> (r: Option<Preset>)
        ensures
            r == preset_from_lower(l@),
    {
        if same_text(l, "720p30") {
            Some(Preset::P720_30)
        } else if same_text(l, "720p60") {
            Some(Preset::P720_60)
        } else if same_text(l, "1080p30") {
            Some(Preset::P1080_30)
        } else if same_text(l, "1080p60") {
            Some(Preset::P1080_60)
        } else if same_text(l, "1440p30") || same_text(l, "2k30") {
            Some(Preset::P1440_30)
        } else if same_text(l, "1440p60") || same_text(l, "2k60") {
            Some(Preset::P1440_60)
        } else if same_text(l, "1440p120") || same_text(l, "2k120") {
            Some(Preset::P1440_120)
        } else if same_text(l, "4k30") || same_text(l, "2160p30") {
            Some(Preset::P4k30)
        } else if same_text(l, "4k60") || same_text(l, "2160p60") {
            Some(Preset::P4k60)
        } else if same_text(l, "4k120") || same_text(l, "2160p120") {
            Some(Preset::P4k120)
        } else {
            None
        }
    }

    /// Parse a preset name, ignoring case.
    pub fn parse_name(s: &str) -> (r: Result<Preset, String>)
        ensures
            match preset_from_lower(lower_text(s@)) {
                Some(p) => r == Ok::<Preset, String>(p),
                None => r matches Err(m) && m@ == "Unknown preset: "@ + s@,
            },
    {
        match Preset::from_lowered(to_lower(s).as_str()) {
            Some(v) => Ok(v),
            None => {
                let mut m = owned("Unknown preset: ");
                push_text(&mut m, s);
                Err(m)
            },
        }
    }

    /// Parse from string, returning Option instead of Result
    pub fn from_preset_str(s: &str) -> (r: Option<Preset>)
        ensures
            r == preset_from_lower(lower_text(s@)),
    {
        match Preset::parse_name(s) {
            Ok(p) => Some(p),
            Err(_) => None,
        }
    }

    /// Get resolution as (width, height) tuple
    pub fn resolution(&self) -> (r: (u32, u32))
        ensures
            r == (self.spec_width(), self.spec_height()),
    {
        (self.width(), self.height())
    }

    /// The preset as it is displayed (e.g. `1080p60`, `4K60`, `2560x1600@100fps`).
    pub fn display_text(&self) -> (r: String)
        ensures
            r@ == self.text(),
    {
        match self {
            Preset::P720_30 => owned("720p30"),
            Preset::P720_60 => owned("720p60"),
            Preset::P1080_30 => owned("1080p30"),
            Preset::P1080_60 => owned("1080p60"),
            Preset::P1440_30 => owned("1440p30"),
            Preset::P1440_60 => owned("1440p60"),
            Preset::P1440_120 => owned("1440p120"),
            Preset::P4k30 => owned("4K30"),
            Preset::P4k60 => owned("4K60"),
            Preset::P4k120 => owned("4K120"),
            Preset::Custom { width, height, fps } => {
                let mut r = String::new();
                push_decimal(&mut r, *width as u64);
                push_text(&mut r, "x");
                push_decimal(&mut r, *height as u64);
                push_text(&mut r, "@");
                push_decimal(&mut r, *fps as u64);
                push_text(&mut r, "fps");
                r
            },
        }
    }
}

impl core::str::FromStr for Preset {
    type Err = String;

    fn from_str(s: &str) -> (r: core::result::Result<Preset, String>)
        ensures
            match preset_from_lower(lower_text(s@)) {
                Some(p) => r == Ok::<Preset, String>(p),
                None => r matches Err(m) && m@ == "Unknown preset: "@ + s@,
            },
    {
        Preset::parse_name(s)
    }
}


/// Name of the virtual camera unless configured otherwise.
pub const DEFAULT_CAMERA_NAME: &'static str = "Nitrogen Camera";

/// Complete capture configuration
#[derive(Debug, Clone)]
pub struct CaptureConfig {
    /// Capture source (monitor or window)
    pub source: CaptureSource,
    /// Output preset (resolution/framerate)
    pub preset: Preset,
    /// Video codec
    pub codec: Codec,
    /// Bitrate in kbps (0 = auto)
    pub bitrate: u32,
    /// Encoder quality preset
    pub encoder_preset: EncoderPreset,
    /// Virtual camera name
    pub camera_name: String,
    /// Enable low-latency mode
    pub low_latency: bool,
    /// GPU index for encoding
    pub gpu: u32,
    /// Optional recording file path
    pub record_path: Option<String>,
    /// Cursor capture mode
    pub cursor_mode: CursorMode,
    /// Audio capture source
    pub audio_source: AudioSource,
    /// AV1-specific configuration
    pub av1: Av1Config,
    /// Audio codec
    pub audio_codec: AudioCodec,
    /// Audio bitrate in kbps (0 = auto)
    pub audio_bitrate: u32,
}

/// Warning about a bitrate far below the suggestion.
pub open spec fn low_bitrate_warning(effective: u32, p: Preset, suggested: u32) -> Seq<char> {
    "Bitrate "@ + decimal(effective as nat) + " kbps is very low for "@ + p.text()
        + " (suggested: "@ + decimal(suggested as nat) + " kbps). Quality may suffer."@
}

/// Warning about a bitrate far above the suggestion.
pub open spec fn high_bitrate_warning(effective: u32, p: Preset, suggested: u32) -> Seq<char> {
    "Bitrate "@ + decimal(effective as nat) + " kbps is very high for "@ + p.text()
        + " (suggested: "@ + decimal(suggested as nat)
        + " kbps). May be wasteful without quality improvement."@
}

pub const BELOW_500_WARNING: &'static str =
    "Bitrate below 500 kbps will likely produce poor quality video.";
pub const ABOVE_100M_WARNING: &'static str = "Bitrate above 100 Mbps is excessive for streaming.";
pub const AV1_FPS_WARNING: &'static str =
    "AV1 encoding at high framerates may cause performance issues. Consider HEVC or H.264.";

/// Warning about a demanding resolution/framerate.
pub open spec fn heavy_warning(p: Preset) -> Seq<char> {
    "High resolution/framerate ("@ + p.text() + ") requires significant GPU encoding power."@
}

/// Warning about a framerate above what Discord accepts.
pub open spec fn discord_warning(fps: u32) -> Seq<char> {
    decimal(fps as nat) + "fps exceeds Discord's maximum of 60fps. Frames may be dropped by Discord."@
}

/// Appends `w` to `ws` when `cond` holds.
pub open spec fn push_if(ws: Seq<Seq<char>>, cond: bool, w: Seq<char>) -> Seq<Seq<char>> {
    if cond {
        ws.push(w)
    } else {
        ws
    }
}

/// What is wrong with a preset's resolution or framerate, if anything.
pub open spec fn preset_error(p: Preset) -> Option<Seq<char>> {
    let w = p.spec_width();
    let h = p.spec_height();
    let f = p.spec_fps();
    if w == 0 || h == 0 {
        Some("Resolution cannot be zero"@)
    } else if f == 0 {
        Some("Framerate cannot be zero"@)
    } else if w > 7680 || h > 4320 {
        Some(
            "Resolution "@ + decimal(w as nat) + "x"@ + decimal(h as nat)
                + " exceeds maximum supported (7680x4320)"@,
        )
    } else if f > 240 {
        Some("Framerate "@ + decimal(f as nat) + " exceeds maximum supported (240)"@)
    } else {
        None
    }
}

impl CaptureConfig {
    /// The bitrate used for encoding: the configured one, or the preset's suggestion.
    pub open spec fn spec_effective_bitrate(self) -> u32 {
        if self.bitrate > 0 {
            self.bitrate
        } else {
            self.preset.spec_suggested_bitrate()
        }
    }

    /// The audio bitrate used for encoding: the configured one, or the codec's default.
    pub open spec fn spec_effective_audio_bitrate(self) -> u32 {
        if self.audio_bitrate > 0 {
            self.audio_bitrate
        } else {
            audio_default_bitrate(self.audio_codec)
        }
    }

    /// The inputs on which `validate` computes without overflow: the bitrate
    /// estimate fits in 64 bits, and three times the suggestion fits in 32 bits
    /// where an explicit bitrate is compared against it.
    pub open spec fn validatable(self) -> bool {
        let s = self.preset.spec_suggested_bitrate();
        &&& self.preset.rate_in_range()
        &&& (self.bitrate > 0 && self.bitrate >= s / 4) ==> s * 3 <= u32::MAX
    }

    /// The warnings that `validate` reports, in order.
    pub open spec fn warnings(self) -> Seq<Seq<char>> {
        let p = self.preset;
        let e = self.spec_effective_bitrate();
        let s = p.spec_suggested_bitrate();
        let w0 = Seq::<Seq<char>>::empty();
        let w1 = if self.bitrate > 0 {
            let a = if e < s / 4 {
                w0.push(low_bitrate_warning(e, p, s))
            } else if e > s * 3 {
                w0.push(high_bitrate_warning(e, p, s))
            } else {
                w0
            };
            let b = push_if(a, e < 500, BELOW_500_WARNING@);
            push_if(b, e > 100_000, ABOVE_100M_WARNING@)
        } else {
            w0
        };
        let w2 = push_if(w1, p.pixel_rate() > 500_000_000, heavy_warning(p));
        let w3 = push_if(w2, self.codec == Codec::Av1 && p.spec_fps() > 60, AV1_FPS_WARNING@);
        push_if(w3, p.spec_fps() > 60, discord_warning(p.spec_fps()))
    }

    /// The error that `validate_strict` reports, if any.
    pub open spec fn strict_error(self) -> Option<Seq<char>> {
        preset_error(self.preset)
    }

    /// A configuration for the given source with every other field at its default.
    pub open spec fn defaults_for(self, source: CaptureSource) -> bool {
        &&& self.source == source
        &&& self.preset == Preset::P1080_60
        &&& self.codec == Codec::H264
        &&& self.bitrate == 0
        &&& self.encoder_preset == EncoderPreset::Medium
        &&& self.camera_name@ == DEFAULT_CAMERA_NAME@
        &&& self.low_latency
        &&& self.gpu == 0
        &&& self.record_path is None
        &&& self.cursor_mode == CursorMode::Embedded
        &&& self.audio_source == AudioSource::NoAudio
        &&& self.av1 == default_av1()
        &&& self.audio_codec == AudioCodec::Aac
        &&& self.audio_bitrate == 0
    }

    fn with_source(source: CaptureSource) -> (c: Self)
        ensures
            c.defaults_for(source),
    {
        CaptureConfig {
            source,
            preset: Preset::P1080_60,
            codec: Codec::H264,
            bitrate: 0,
            encoder_preset: EncoderPreset::Medium,
            camera_name: owned(DEFAULT_CAMERA_NAME),
            low_latency: true,
            gpu: 0,
            record_path: None,
            cursor_mode: CursorMode::Embedded,
            audio_source: AudioSource::NoAudio,
            av1: Av1Config::default(),
            audio_codec: AudioCodec::Aac,
            audio_bitrate: 0,
        }
    }

    /// Create a new config for monitor capture
    pub fn monitor(id: &str) -> (c: Self)
        ensures
            c.source is Monitor,
            c.source.id_view() == id@,
            c.defaults_for(c.source),
    {
        CaptureConfig::with_source(CaptureSource::monitor(id))
    }

    /// Create a new config for window capture
    pub fn window(id: &str) -> (c: Self)
        ensures
            c.source is Window,
            c.source.id_view() == id@,
            c.defaults_for(c.source),
    {
        CaptureConfig::with_source(CaptureSource::window(id))
    }

    /// Set the GPU index for encoding
    pub fn with_gpu(self, gpu: u32) -> (c: Self)
        ensures
            c == (CaptureConfig { gpu, ..self }),
    {
        CaptureConfig { gpu, ..self }
    }

    /// Set the output preset
    pub fn with_preset(self, preset: Preset) -> (c: Self)
        ensures
            c == (CaptureConfig { preset, ..self }),
    {
        CaptureConfig { preset, ..self }
    }

    /// Set the codec
    pub fn with_codec(self, codec: Codec) -> (c: Self)
        ensures
            c == (CaptureConfig { codec, ..self }),
    {
        CaptureConfig { codec, ..self }
    }

    /// Set the bitrate in kbps
    pub fn with_bitrate(self, bitrate: u32) -> (c: Self)
        ensures
            c == (CaptureConfig { bitrate, ..self }),
    {
        CaptureConfig { bitrate, ..self }
    }

    /// Set the encoder quality preset
    pub fn with_encoder_preset(self, preset: EncoderPreset) -> (c: Self)
        ensures
            c == (CaptureConfig { encoder_preset: preset, ..self }),
    {
        CaptureConfig { encoder_preset: preset, ..self }
    }

    /// Set the virtual camera name
    pub fn with_camera_name(self, name: &str) -> (c: Self)
        ensures
            c.camera_name@ == name@,
            c == (CaptureConfig { camera_name: c.camera_name, ..self }),
    {
        CaptureConfig { camera_name: owned(name), ..self }
    }

    /// Set the recording output path
    pub fn with_record_path(self, path: &str) -> (c: Self)
        ensures
            c.record_path matches Some(p) && p@ == path@,
            c == (CaptureConfig { record_path: c.record_path, ..self }),
    {
        CaptureConfig { record_path: Some(owned(path)), ..self }
    }

    /// Set the cursor capture mode
    pub fn with_cursor_mode(self, mode: CursorMode) -> (c: Self)
        ensures
            c == (CaptureConfig { cursor_mode: mode, ..self }),
    {
        CaptureConfig { cursor_mode: mode, ..self }
    }

    /// Set the audio capture source
    pub fn with_audio_source(self, source: AudioSource) -> (c: Self)
        ensures
            c == (CaptureConfig { audio_source: source, ..self }),
    {
        CaptureConfig { audio_source: source, ..self }
    }

    /// Set the audio codec
    pub fn with_audio_codec(self, codec: AudioCodec) -> (c: Self)
        ensures
            c == (CaptureConfig { audio_codec: codec, ..self }),
    {
        CaptureConfig { audio_codec: codec, ..self }
    }

    /// Set the audio bitrate in kbps
    pub fn with_audio_bitrate(self, bitrate: u32) -> (c: Self)
        ensures
            c == (CaptureConfig { audio_bitrate: bitrate, ..self }),
    {
        CaptureConfig { audio_bitrate: bitrate, ..self }
    }

    /// Set AV1-specific configuration
    pub fn with_av1(self, av1: Av1Config) -> (c: Self)
        ensures
            c == (CaptureConfig { av1, ..self }),
    {
        CaptureConfig { av1, ..self }
    }

    /// Set AV1 tier (main or high)
    pub fn with_av1_tier(self, tier: Av1Tier) -> (c: Self)
        ensures
            c == (CaptureConfig { av1: Av1Config { tier, ..self.av1 }, ..self }),
    {
        let av1 = Av1Config { tier, ..self.av1 };
        CaptureConfig { av1, ..self }
    }

    /// Enable 10-bit AV1 encoding
    pub fn with_av1_10bit(self, enabled: bool) -> (c: Self)
        ensures
            c == (CaptureConfig { av1: Av1Config { ten_bit: enabled, ..self.av1 }, ..self }),
    {
        let av1 = Av1Config { ten_bit: enabled, ..self.av1 };
        CaptureConfig { av1, ..self }
    }

    /// Enable AV1 lookahead
    pub fn with_av1_lookahead(self, enabled: bool) -> (c: Self)
        ensures
            c == (CaptureConfig { av1: Av1Config { lookahead: enabled, ..self.av1 }, ..self }),
    {
        let av1 = Av1Config { lookahead: enabled, ..self.av1 };
        CaptureConfig { av1, ..self }
    }

    /// Enable AV1 spatial adaptive quantization
    pub fn with_av1_spatial_aq(self, enabled: bool) -> (c: Self)
        ensures
            c == (CaptureConfig { av1: Av1Config { spatial_aq: enabled, ..self.av1 }, ..self }),
    {
        let av1 = Av1Config { spatial_aq: enabled, ..self.av1 };
        CaptureConfig { av1, ..self }
    }

    /// Check if audio capture is enabled
    pub fn has_audio(&self) -> (r: bool)
        ensures
            r == (self.audio_source != AudioSource::NoAudio),
    {
        match self.audio_source {
            AudioSource::NoAudio => false,
            _ => true,
        }
    }

    /// Get the effective audio bitrate (uses default if 0)
    pub fn effective_audio_bitrate(&self) -> (r: u32)
        ensures
            r == self.spec_effective_audio_bitrate(),
    {
        if self.audio_bitrate > 0 {
            self.audio_bitrate
        } else {
            self.audio_codec.default_bitrate()
        }
    }

    /// Get the effective bitrate (uses suggested if 0)
    pub fn effective_bitrate(&self) -> (r: u32)
        requires
            self.bitrate == 0 ==> self.preset.rate_in_range(),
        ensures
            r == self.spec_effective_bitrate(),
    {
        if self.bitrate > 0 {
            self.bitrate
        } else {
            self.preset.suggested_bitrate()
        }
    }

    /// Get output width
    pub fn width(&self) -> (r: u32)
        ensures
            r == self.preset.spec_width(),
    {
        self.preset.width()
    }

    /// Get output height
    pub fn height(&self) -> (r: u32)
        ensures
            r == self.preset.spec_height(),
    {
        self.preset.height()
    }

    /// Get output framerate
    pub fn fps(&self) -> (r: u32)
        ensures
            r == self.preset.spec_fps(),
    {
        self.preset.fps()
    }

    /// Validate the configuration and return any warnings.
    ///
    /// An empty list means the configuration looks good.
    pub fn validate(&self) -> (ws: Vec<String>)
        requires
            self.validatable(),
        ensures
            ws@.len() == self.warnings().len(),
            forall|i: int| 0 <= i < ws@.len() ==> #[trigger] ws@[i]@ == self.warnings()[i],
    {
        let mut ws: Vec<String> = Vec::new();
        let ghost p = self.preset;
        let suggested = self.preset.suggested_bitrate();
        let effective = self.effective_bitrate();
        if self.bitrate > 0 {
            if effective < suggested / 4 {
                let mut m = owned("Bitrate ");
                push_decimal(&mut m, effective as u64);
                push_text(&mut m, " kbps is very low for ");
                let pt = self.preset.display_text();
                push_text(&mut m, pt.as_str());
                push_text(&mut m, " (suggested: ");
                push_decimal(&mut m, suggested as u64);
                push_text(&mut m, " kbps). Quality may suffer.");
                ws.push(m);
            } else if effective > suggested * 3 {
                let mut m = owned("Bitrate ");
                push_decimal(&mut m, effective as u64);
                push_text(&mut m, " kbps is very high for ");
                let pt = self.preset.display_text();
                push_text(&mut m, pt.as_str());
                push_text(&mut m, " (suggested: ");
                push_decimal(&mut m, suggested as u64);
                push_text(&mut m, " kbps). May be wasteful without quality improvement.");
                ws.push(m);
            }
            if effective < 500 {
                ws.push(owned(BELOW_500_WARNING));
            }
            if effective > 100_000 {
                ws.push(owned(ABOVE_100M_WARNING));
            }
        }
        let w = self.width() as u64;
        let h = self.height() as u64;
        let f = self.fps() as u64;
        proof {
            assert(w * h <= u64::MAX) by (nonlinear_arith)
                requires
                    w <= u32::MAX,
                    h <= u32::MAX,
            ;
            assert(w * h * f <= w * h * f * 7) by (nonlinear_arith)
                requires
                    w >= 0,
                    h >= 0,
                    f >= 0,
            ;
        }
        let pixels_per_second = w * h * f;
        if pixels_per_second > 500_000_000 {
            let mut m = owned("High resolution/framerate (");
            let pt = self.preset.display_text();
            push_text(&mut m, pt.as_str());
            push_text(&mut m, ") requires significant GPU encoding power.");
            ws.push(m);
        }
        if self.codec == Codec::Av1 && self.fps() > 60 {
            ws.push(owned(AV1_FPS_WARNING));
        }
        if self.fps() > 60 {
            let mut m = String::new();
            push_decimal(&mut m, self.fps() as u64);
            push_text(&mut m, "fps exceeds Discord's maximum of 60fps. Frames may be dropped by Discord.");
            ws.push(m);
        }
        proof {
            let ghost target = self.warnings();
            assert(ws@.len() == target.len());
            assert forall|i: int| 0 <= i < ws@.len() implies #[trigger] ws@[i]@ == target[i] by {
            }
        }
        ws
    }

    /// Validate and return an error if the configuration cannot work.
    pub fn validate_strict(&self) -> (r: Result<(), String>)
        ensures
            match self.strict_error() {
                None => r is Ok,
                Some(m) => r matches Err(e) && e@ == m,
            },
    {
        let w = self.width();
        let h = self.height();
        let f = self.fps();
        if w == 0 || h == 0 {
            return Err(owned("Resolution cannot be zero"));
        }
        if f == 0 {
            return Err(owned("Framerate cannot be zero"));
        }
        if w > 7680 || h > 4320 {
            let mut m = owned("Resolution ");
            push_decimal(&mut m, w as u64);
            push_text(&mut m, "x");
            push_decimal(&mut m, h as u64);
            push_text(&mut m, " exceeds maximum supported (7680x4320)");
            return Err(m);
        }
        if f > 240 {
            let mut m = owned("Framerate ");
            push_decimal(&mut m, f as u64);
            push_text(&mut m, " exceeds maximum supported (240)");
            return Err(m);
        }
        Ok(())
    }
}

/// The pixel rate and the suggested bitrate of each named preset; the rates
/// are all well inside the range where the bitrate estimate is computable.
pub proof fn lemma_named_preset_rates(p: Preset)
    requires
        !(p is Custom),
    ensures
        p.rate_in_range(),
        p.pixel_rate() == match p {
            Preset::P720_30 => 27_648_000int,
            Preset::P720_60 => 55_296_000int,
            Preset::P1080_30 => 62_208_000int,
            Preset::P1080_60 => 124_416_000int,
            Preset::P1440_30 => 110_592_000int,
            Preset::P1440_60 => 221_184_000int,
            Preset::P1440_120 => 442_368_000int,
            Preset::P4k30 => 248_832_000int,
            Preset::P4k60 => 497_664_000int,
            Preset::P4k120 => 995_328_000int,
            Preset::Custom { .. } => p.pixel_rate(),
        },
        p.spec_suggested_bitrate() == match p {
            Preset::P720_30 => 2500u32,
            Preset::P720_60 => 4000u32,
            Preset::P1080_30 => 4500u32,
            Preset::P1080_60 => 6000u32,
            Preset::P1440_30 => 9000u32,
            Preset::P1440_60 => 12000u32,
            Preset::P1440_120 => 18000u32,
            Preset::P4k30 => 20000u32,
            Preset::P4k60 => 35000u32,
            Preset::P4k120 => 50000u32,
            Preset::Custom { .. } => p.spec_suggested_bitrate(),
        },
        p.spec_suggested_bitrate() <= 50_000,
{
    let w = p.spec_width() as int;
    let h = p.spec_height() as int;
    let f = p.spec_fps() as int;
    assert(p.pixel_rate() == w * h * f);
    match p {
        Preset::P720_30 => assert(1280int * 720 * 30 == 27_648_000),
        Preset::P720_60 => assert(1280int * 720 * 60 == 55_296_000),
        Preset::P1080_30 => assert(1920int * 1080 * 30 == 62_208_000),
        Preset::P1080_60 => assert(1920int * 1080 * 60 == 124_416_000),
        Preset::P1440_30 => assert(2560int * 1440 * 30 == 110_592_000),
        Preset::P1440_60 => assert(2560int * 1440 * 60 == 221_184_000),
        Preset::P1440_120 => assert(2560int * 1440 * 120 == 442_368_000),
        Preset::P4k30 => assert(3840int * 2160 * 30 == 248_832_000),
        Preset::P4k60 => assert(3840int * 2160 * 60 == 497_664_000),
        Preset::P4k120 => assert(3840int * 2160 * 120 == 995_328_000),
        Preset::Custom { .. } => {},
    }
}

/// The suggested bitrates of the named presets follow the load they put on
/// the encoder: at one resolution a higher framerate gets a higher bitrate,
/// at one framerate a higher resolution does, and every suggestion lies
/// between 0.04 and 0.1 bits per pixel (around the 0.07 used for custom
/// presets).
pub proof fn lemma_suggested_bitrate_order(p: Preset, q: Preset)
    requires
        !(p is Custom),
        !(q is Custom),
    ensures
        p.spec_width() == q.spec_width() && p.spec_height() == q.spec_height() && p.spec_fps()
            < q.spec_fps() ==> p.spec_suggested_bitrate() < q.spec_suggested_bitrate(),
        p.spec_fps() == q.spec_fps() && p.pixel_rate() < q.pixel_rate()
            ==> p.spec_suggested_bitrate() < q.spec_suggested_bitrate(),
        4 * p.pixel_rate() <= p.spec_suggested_bitrate() * 100_000 <= 10 * p.pixel_rate(),
{
    lemma_named_preset_rates(p);
    lemma_named_preset_rates(q);
}

/// A configuration with a named preset can always be validated, whatever
/// its bitrate.
pub proof fn lemma_named_preset_validatable(c: CaptureConfig)
    requires
        !(c.preset is Custom),
    ensures
        c.validatable(),
{
    lemma_named_preset_rates(c.preset);
}

/// The lower-cased display text of a named preset.
proof fn lemma_named_text_lower(p: Preset)
    requires
        !(p is Custom),
    ensures
        lower_text(p.text()) == match p {
            Preset::P4k30 => "4k30"@,
            Preset::P4k60 => "4k60"@,
            Preset::P4k120 => "4k120"@,
            _ => p.text(),
        },
{
    match p {
        Preset::P720_30 => {
            reveal_strlit("720p30");
            assert(is_ascii_text("720p30"@));
            assert(ascii_lower("720p30"@) =~= "720p30"@);
        },
        Preset::P720_60 => {
            reveal_strlit("720p60");
            assert(is_ascii_text("720p60"@));
            assert(ascii_lower("720p60"@) =~= "720p60"@);
        },
        Preset::P1080_30 => {
            reveal_strlit("1080p30");
            assert(is_ascii_text("1080p30"@));
            assert(ascii_lower("1080p30"@) =~= "1080p30"@);
        },
        Preset::P1080_60 => {
            reveal_strlit("1080p60");
            assert(is_ascii_text("1080p60"@));
            assert(ascii_lower("1080p60"@) =~= "1080p60"@);
        },
        Preset::P1440_30 => {
            reveal_strlit("1440p30");
            assert(is_ascii_text("1440p30"@));
            assert(ascii_lower("1440p30"@) =~= "1440p30"@);
        },
        Preset::P1440_60 => {
            reveal_strlit("1440p60");
            assert(is_ascii_text("1440p60"@));
            assert(ascii_lower("1440p60"@) =~= "1440p60"@);
        },
        Preset::P1440_120 => {
            reveal_strlit("1440p120");
            assert(is_ascii_text("1440p120"@));
            assert(ascii_lower("1440p120"@) =~= "1440p120"@);
        },
        Preset::P4k30 => {
            reveal_strlit("4K30");
            reveal_strlit("4k30");
            assert(is_ascii_text("4K30"@));
            assert(ascii_lower("4K30"@) =~= "4k30"@);
        },
        Preset::P4k60 => {
            reveal_strlit("4K60");
            reveal_strlit("4k60");
            assert(is_ascii_text("4K60"@));
            assert(ascii_lower("4K60"@) =~= "4k60"@);
        },
        Preset::P4k120 => {
            reveal_strlit("4K120");
            reveal_strlit("4k120");
            assert(is_ascii_text("4K120"@));
            assert(ascii_lower("4K120"@) =~= "4k120"@);
        },
        Preset::Custom { .. } => {},
    }
}

/// The lower-cased display text of a custom preset holds an `@`.
proof fn lemma_custom_text_has_at(p: Preset)
    requires
        p is Custom,
    ensures
        !lacks_char(lower_text(p.text()), '@'),
{
    reveal_strlit("x");
    reveal_strlit("@");
    reveal_strlit("fps");
    if let Preset::Custom { width, height, fps } = p {
        let t = p.text();
        let dw = decimal(width as nat);
        let dh = decimal(height as nat);
        let df = decimal(fps as nat);
        lemma_decimal_ascii(width as nat);
        lemma_decimal_ascii(height as nat);
        lemma_decimal_ascii(fps as nat);
        lemma_ascii_concat(dw, "x"@);
        lemma_ascii_concat(dw + "x"@, dh);
        lemma_ascii_concat(dw + "x"@ + dh, "@"@);
        lemma_ascii_concat(dw + "x"@ + dh + "@"@, df);
        lemma_ascii_concat(dw + "x"@ + dh + "@"@ + df, "fps"@);
        let k: int = dw.len() as int + 1 + dh.len() as int;
        assert(t[k] == '@');
        assert(lower_text(t)[k] == '@');
    }
}

/// No name that reads as a preset holds an `@`.
proof fn lemma_preset_names_lack_at(l: Seq<char>)
    requires
        !lacks_char(l, '@'),
    ensures
        preset_from_lower(l) is None,
{
    reveal_strlit("720p30");
    reveal_strlit("720p60");
    reveal_strlit("1080p30");
    reveal_strlit("1080p60");
    reveal_strlit("1440p30");
    reveal_strlit("1440p60");
    reveal_strlit("1440p120");
    reveal_strlit("4k30");
    reveal_strlit("4k60");
    reveal_strlit("4k120");
    reveal_strlit("2k30");
    reveal_strlit("2k60");
    reveal_strlit("2k120");
    reveal_strlit("2160p30");
    reveal_strlit("2160p60");
    reveal_strlit("2160p120");
}

/// Reading the display text of a named preset gives the preset back, and
/// the display text of a custom preset (which holds an `@`) reads as no
/// preset at all.
pub proof fn lemma_preset_text_round_trip(p: Preset)
    ensures
        !(p is Custom) ==> preset_from_lower(lower_text(p.text())) == Some(p),
        p is Custom ==> preset_from_lower(lower_text(p.text())) is None,
{
    if p is Custom {
        lemma_custom_text_has_at(p);
        lemma_preset_names_lack_at(lower_text(p.text()));
    } else {
        lemma_named_text_lower(p);
        reveal_strlit("720p30");
        reveal_strlit("720p60");
        reveal_strlit("1080p30");
        reveal_strlit("1080p60");
        reveal_strlit("1440p30");
        reveal_strlit("2k30");
        reveal_strlit("1440p60");
        reveal_strlit("2k60");
        reveal_strlit("1440p120");
        reveal_strlit("2k120");
        reveal_strlit("4k30");
        reveal_strlit("2160p30");
        reveal_strlit("4k60");
        reveal_strlit("2160p60");
        reveal_strlit("4k120");
        reveal_strlit("2160p120");
        assert("720p30"@.len() == 6 && "720p30"@[0] == '7' && "720p30"@[1] == '2'
            && "720p30"@[2] == '0' && "720p30"@[3] == 'p' && "720p30"@[4] == '3'
            && "720p30"@[5] == '0');
        assert("720p60"@.len() == 6 && "720p60"@[0] == '7' && "720p60"@[1] == '2'
            && "720p60"@[2] == '0' && "720p60"@[3] == 'p' && "720p60"@[4] == '6'
            && "720p60"@[5] == '0');
        assert("1080p30"@.len() == 7 && "1080p30"@[0] == '1' && "1080p30"@[1] == '0'
            && "1080p30"@[2] == '8' && "1080p30"@[3] == '0' && "1080p30"@[4] == 'p'
            && "1080p30"@[5] == '3' && "1080p30"@[6] == '0');
        assert("1080p60"@.len() == 7 && "1080p60"@[0] == '1' && "1080p60"@[1] == '0'
            && "1080p60"@[2] == '8' && "1080p60"@[3] == '0' && "1080p60"@[4] == 'p'
            && "1080p60"@[5] == '6' && "1080p60"@[6] == '0');
        assert("1440p30"@.len() == 7 && "1440p30"@[0] == '1' && "1440p30"@[1] == '4'
            && "1440p30"@[2] == '4' && "1440p30"@[3] == '0' && "1440p30"@[4] == 'p'
            && "1440p30"@[5] == '3' && "1440p30"@[6] == '0');
        assert("2k30"@.len() == 4 && "2k30"@[0] == '2' && "2k30"@[1] == 'k' && "2k30"@[2] == '3'
            && "2k30"@[3] == '0');
        assert("1440p60"@.len() == 7 && "1440p60"@[0] == '1' && "1440p60"@[1] == '4'
            && "1440p60"@[2] == '4' && "1440p60"@[3] == '0' && "1440p60"@[4] == 'p'
            && "1440p60"@[5] == '6' && "1440p60"@[6] == '0');
        assert("2k60"@.len() == 4 && "2k60"@[0] == '2' && "2k60"@[1] == 'k' && "2k60"@[2] == '6'
            && "2k60"@[3] == '0');
        assert("1440p120"@.len() == 8 && "1440p120"@[0] == '1' && "1440p120"@[1] == '4'
            && "1440p120"@[2] == '4' && "1440p120"@[3] == '0' && "1440p120"@[4] == 'p'
            && "1440p120"@[5] == '1' && "1440p120"@[6] == '2' && "1440p120"@[7] == '0');
        assert("2k120"@.len() == 5 && "2k120"@[0] == '2' && "2k120"@[1] == 'k'
            && "2k120"@[2] == '1' && "2k120"@[3] == '2' && "2k120"@[4] == '0');
        assert("4k30"@.len() == 4 && "4k30"@[0] == '4' && "4k30"@[1] == 'k' && "4k30"@[2] == '3'
            && "4k30"@[3] == '0');
        assert("2160p30"@.len() == 7 && "2160p30"@[0] == '2' && "2160p30"@[1] == '1'
            && "2160p30"@[2] == '6' && "2160p30"@[3] == '0' && "2160p30"@[4] == 'p'
            && "2160p30"@[5] == '3' && "2160p30"@[6] == '0');
        assert("4k60"@.len() == 4 && "4k60"@[0] == '4' && "4k60"@[1] == 'k' && "4k60"@[2] == '6'
            && "4k60"@[3] == '0');
        assert("2160p60"@.len() == 7 && "2160p60"@[0] == '2' && "2160p60"@[1] == '1'
            && "2160p60"@[2] == '6' && "2160p60"@[3] == '0' && "2160p60"@[4] == 'p'
            && "2160p60"@[5] == '6' && "2160p60"@[6] == '0');
        assert("4k120"@.len() == 5 && "4k120"@[0] == '4' && "4k120"@[1] == 'k'
            && "4k120"@[2] == '1' && "4k120"@[3] == '2' && "4k120"@[4] == '0');
        assert("2160p120"@.len() == 8 && "2160p120"@[0] == '2' && "2160p120"@[1] == '1'
            && "2160p120"@[2] == '6' && "2160p120"@[3] == '0' && "2160p120"@[4] == 'p'
            && "2160p120"@[5] == '1' && "2160p120"@[6] == '2' && "2160p120"@[7] == '0');
    }
}

/// Reading a preset name ignores the case of ASCII letters: an ASCII text
/// and its upper-case form name the same preset, or both none.
pub proof fn lemma_preset_name_ignores_case(s: Seq<char>)
    requires
        is_ascii_text(s),
    ensures
        preset_from_lower(lower_text(s)) == preset_from_lower(lower_text(ascii_upper(s))),
{
    lemma_ascii_upper_then_lower(s);
}

/// Some warning in `ws` contains `t`.
pub open spec fn any_warning_has(ws: Seq<Seq<char>>, t: Seq<char>) -> bool {
    exists|i: int| 0 <= i < ws.len() && has_sub(#[trigger] ws[i], t)
}

/// Whether some warning contains `t` after a conditional push.
proof fn lemma_push_if_has(ws: Seq<Seq<char>>, cond: bool, w: Seq<char>, t: Seq<char>)
    ensures
        any_warning_has(push_if(ws, cond, w), t) == (any_warning_has(ws, t) || (cond && has_sub(
            w,
            t,
        ))),
{
    if cond {
        let v = ws.push(w);
        if any_warning_has(ws, t) {
            let i = choose|i: int| 0 <= i < ws.len() && has_sub(#[trigger] ws[i], t);
            assert(v[i] == ws[i]);
        }
        if has_sub(w, t) {
            assert(v[ws.len() as int] == w);
        }
        if any_warning_has(v, t) {
            let i = choose|i: int| 0 <= i < v.len() && has_sub(#[trigger] v[i], t);
            if i < ws.len() {
                assert(v[i] == ws[i]);
            }
        }
    }
}

/// The characters that no preset's display text holds.
proof fn lemma_text_lacks(p: Preset, c: char)
    requires
        c == 'A' || c == 'D' || c == 'H' || c == 'B',
    ensures
        lacks_char(p.text(), c),
{
    reveal_strlit("720p30");
    reveal_strlit("720p60");
    reveal_strlit("1080p30");
    reveal_strlit("1080p60");
    reveal_strlit("1440p30");
    reveal_strlit("1440p60");
    reveal_strlit("1440p120");
    reveal_strlit("4K30");
    reveal_strlit("4K60");
    reveal_strlit("4K120");
    reveal_strlit("x");
    reveal_strlit("@");
    reveal_strlit("fps");
    if let Preset::Custom { width, height, fps } = p {
        lemma_decimal_lacks(width as nat, c);
        lemma_decimal_lacks(height as nat, c);
        lemma_decimal_lacks(fps as nat, c);
        let a = decimal(width as nat);
        lemma_lacks_char_concat(a, "x"@, c);
        lemma_lacks_char_concat(a + "x"@, decimal(height as nat), c);
        lemma_lacks_char_concat(a + "x"@ + decimal(height as nat), "@"@, c);
        lemma_lacks_char_concat(a + "x"@ + decimal(height as nat) + "@"@, decimal(fps as nat), c);
        lemma_lacks_char_concat(
            a + "x"@ + decimal(height as nat) + "@"@ + decimal(fps as nat),
            "fps"@,
            c,
        );
    }
}

/// The bitrate warnings hold none of the characters that begin the other
/// warnings' key words.
proof fn lemma_bitrate_warnings_lack(e: u32, p: Preset, s: u32, c: char)
    requires
        c == 'A' || c == 'D' || c == 'H',
    ensures
        lacks_char(low_bitrate_warning(e, p, s), c),
        lacks_char(high_bitrate_warning(e, p, s), c),
        lacks_char(BELOW_500_WARNING@, c),
        lacks_char(ABOVE_100M_WARNING@, c),
{
    reveal_strlit("Bitrate ");
    reveal_strlit(" kbps is very low for ");
    reveal_strlit(" kbps is very high for ");
    reveal_strlit(" (suggested: ");
    reveal_strlit(" kbps). Quality may suffer.");
    reveal_strlit(" kbps). May be wasteful without quality improvement.");
    reveal_strlit("Bitrate below 500 kbps will likely produce poor quality video.");
    reveal_strlit("Bitrate above 100 Mbps is excessive for streaming.");
    lemma_decimal_lacks(e as nat, c);
    lemma_decimal_lacks(s as nat, c);
    lemma_text_lacks(p, c);
    let de = decimal(e as nat);
    let ds = decimal(s as nat);
    let pt = p.text();
    let a0 = "Bitrate "@ + de;
    lemma_lacks_char_concat("Bitrate "@, de, c);
    lemma_lacks_char_concat(a0, " kbps is very low for "@, c);
    lemma_lacks_char_concat(a0 + " kbps is very low for "@, pt, c);
    lemma_lacks_char_concat(a0 + " kbps is very low for "@ + pt, " (suggested: "@, c);
    lemma_lacks_char_concat(a0 + " kbps is very low for "@ + pt + " (suggested: "@, ds, c);
    lemma_lacks_char_concat(
        a0 + " kbps is very low for "@ + pt + " (suggested: "@ + ds,
        " kbps). Quality may suffer."@,
        c,
    );
    lemma_lacks_char_concat(a0, " kbps is very high for "@, c);
    lemma_lacks_char_concat(a0 + " kbps is very high for "@, pt, c);
    lemma_lacks_char_concat(a0 + " kbps is very high for "@ + pt, " (suggested: "@, c);
    lemma_lacks_char_concat(a0 + " kbps is very high for "@ + pt + " (suggested: "@, ds, c);
    lemma_lacks_char_concat(
        a0 + " kbps is very high for "@ + pt + " (suggested: "@ + ds,
        " kbps). May be wasteful without quality improvement."@,
        c,
    );
}

/// What the three warnings after the bitrate checks hold: each has its own
/// key words, and lacks a character of the others'.
proof fn lemma_late_warnings(p: Preset, f: u32)
    ensures
        has_sub(heavy_warning(p), "High resolution"@),
        lacks_char(heavy_warning(p), 'A'),
        lacks_char(heavy_warning(p), 'D'),
        heavy_warning(p).len() > 0 && heavy_warning(p)[0] == 'H',
        has_sub(AV1_FPS_WARNING@, "AV1"@),
        lacks_char(AV1_FPS_WARNING@, 'D'),
        !has_sub(AV1_FPS_WARNING@, "High resolution"@),
        AV1_FPS_WARNING@.len() > 0 && AV1_FPS_WARNING@[0] == 'A',
        has_sub(discord_warning(f), "Discord"@),
        lacks_char(discord_warning(f), 'A'),
        lacks_char(discord_warning(f), 'H'),
        discord_warning(f).len() > 0 && is_digit(discord_warning(f)[0]),
{
    let h0 = "High resolution/framerate ("@;
    let h1 = ") requires significant GPU encoding power."@;
    let d1 = "fps exceeds Discord's maximum of 60fps. Frames may be dropped by Discord."@;
    reveal_strlit("High resolution/framerate (");
    reveal_strlit(") requires significant GPU encoding power.");
    reveal_strlit("fps exceeds Discord's maximum of 60fps. Frames may be dropped by Discord.");
    reveal_strlit("AV1 encoding at high framerates may cause performance issues. Consider HEVC or H.264.");
    reveal_strlit("High resolution");
    reveal_strlit("AV1");
    reveal_strlit("Discord");
    let pt = p.text();
    assert(h0.subrange(0, 15) =~= "High resolution"@);
    assert(occurs_at(h0, "High resolution"@, 0));
    lemma_sub_concat(h0, pt, "High resolution"@);
    lemma_sub_concat(h0 + pt, h1, "High resolution"@);
    assert((h0 + pt + h1)[0] == h0[0]);
    lemma_text_lacks(p, 'A');
    lemma_text_lacks(p, 'D');
    lemma_lacks_char_concat(h0, pt, 'A');
    lemma_lacks_char_concat(h0 + pt, h1, 'A');
    lemma_lacks_char_concat(h0, pt, 'D');
    lemma_lacks_char_concat(h0 + pt, h1, 'D');
    assert(AV1_FPS_WARNING@.subrange(0, 3) =~= "AV1"@);
    assert(occurs_at(AV1_FPS_WARNING@, "AV1"@, 0));
    assert(lacks_pair(AV1_FPS_WARNING@, 'H', 'i'));
    lemma_lacks_pair_no_sub(AV1_FPS_WARNING@, "High resolution"@);
    let df = decimal(f as nat);
    assert(d1.subrange(12, 19) =~= "Discord"@);
    assert(occurs_at(d1, "Discord"@, 12));
    lemma_sub_concat(df, d1, "Discord"@);
    lemma_decimal_lacks(f as nat, 'A');
    lemma_decimal_lacks(f as nat, 'H');
    lemma_lacks_char_concat(df, d1, 'A');
    lemma_lacks_char_concat(df, d1, 'H');
    lemma_decimal_digits(f as nat);
    assert((df + d1)[0] == df[0]);
}

/// Each warning of `validate` comes exactly when its condition holds: one
/// mentioning Discord when the framerate is above 60, one mentioning AV1
/// when the codec is AV1 and the framerate is above 60, one about high
/// resolution when more than 500 million pixels a second are encoded. With
/// the bitrate left automatic no warning speaks of the bitrate, and an
/// explicit bitrate below 500 kbps is warned about.
pub proof fn lemma_validate_warnings(c: CaptureConfig)
    ensures
        any_warning_has(c.warnings(), "Discord"@) <==> c.preset.spec_fps() > 60,
        any_warning_has(c.warnings(), "AV1"@) <==> (c.codec == Codec::Av1
            && c.preset.spec_fps() > 60),
        any_warning_has(c.warnings(), "High resolution"@) <==> c.preset.pixel_rate()
            > 500_000_000,
        c.bitrate == 0 ==> forall|i: int|
            0 <= i < c.warnings().len() ==> !has_prefix(#[trigger] c.warnings()[i], "Bitrate"@),
        0 < c.bitrate < 500 ==> any_warning_has(c.warnings(), "below 500 kbps"@),
{
    reveal_strlit("Discord");
    reveal_strlit("AV1");
    reveal_strlit("High resolution");
    reveal_strlit("Bitrate");
    reveal_strlit("below 500 kbps");
    reveal_strlit("Bitrate below 500 kbps will likely produce poor quality video.");
    let p = c.preset;
    let e = c.spec_effective_bitrate();
    let s = p.spec_suggested_bitrate();
    let f = p.spec_fps();
    let w0 = Seq::<Seq<char>>::empty();
    let a = if e < s / 4 {
        w0.push(low_bitrate_warning(e, p, s))
    } else if e > s * 3 {
        w0.push(high_bitrate_warning(e, p, s))
    } else {
        w0
    };
    let b = push_if(a, e < 500, BELOW_500_WARNING@);
    let w1 = if c.bitrate > 0 {
        push_if(b, e > 100_000, ABOVE_100M_WARNING@)
    } else {
        w0
    };
    let w2 = push_if(w1, p.pixel_rate() > 500_000_000, heavy_warning(p));
    let w3 = push_if(w2, c.codec == Codec::Av1 && f > 60, AV1_FPS_WARNING@);
    let w4 = push_if(w3, f > 60, discord_warning(f));
    assert(w4 == c.warnings());
    lemma_late_warnings(p, f);
    let keys = seq!["Discord"@, "AV1"@, "High resolution"@];
    let chars = seq!['D', 'A', 'H'];
    assert forall|k: int| 0 <= k < 3 implies !any_warning_has(w1, #[trigger] keys[k]) by {
        let t = keys[k];
        let ch = chars[k];
        assert(t[0] == ch);
        lemma_bitrate_warnings_lack(e, p, s, ch);
        lemma_lacks_char_no_sub(low_bitrate_warning(e, p, s), t, ch, 0);
        lemma_lacks_char_no_sub(high_bitrate_warning(e, p, s), t, ch, 0);
        lemma_lacks_char_no_sub(BELOW_500_WARNING@, t, ch, 0);
        lemma_lacks_char_no_sub(ABOVE_100M_WARNING@, t, ch, 0);
        lemma_push_if_has(w0, e < s / 4, low_bitrate_warning(e, p, s), t);
        lemma_push_if_has(w0, e > s * 3, high_bitrate_warning(e, p, s), t);
        lemma_push_if_has(a, e < 500, BELOW_500_WARNING@, t);
        lemma_push_if_has(b, e > 100_000, ABOVE_100M_WARNING@, t);
    }
    assert(!any_warning_has(w1, "Discord"@) && !any_warning_has(w1, "AV1"@)
        && !any_warning_has(w1, "High resolution"@)) by {
        assert(keys[0] == "Discord"@);
        assert(keys[1] == "AV1"@);
        assert(keys[2] == "High resolution"@);
    }
    lemma_lacks_char_no_sub(heavy_warning(p), "Discord"@, 'D', 0);
    lemma_lacks_char_no_sub(heavy_warning(p), "AV1"@, 'A', 0);
    lemma_lacks_char_no_sub(AV1_FPS_WARNING@, "Discord"@, 'D', 0);
    lemma_lacks_char_no_sub(discord_warning(f), "AV1"@, 'A', 0);
    lemma_lacks_char_no_sub(discord_warning(f), "High resolution"@, 'H', 0);
    lemma_push_if_has(w1, p.pixel_rate() > 500_000_000, heavy_warning(p), "Discord"@);
    lemma_push_if_has(w1, p.pixel_rate() > 500_000_000, heavy_warning(p), "AV1"@);
    lemma_push_if_has(w1, p.pixel_rate() > 500_000_000, heavy_warning(p), "High resolution"@);
    lemma_push_if_has(w2, c.codec == Codec::Av1 && f > 60, AV1_FPS_WARNING@, "Discord"@);
    lemma_push_if_has(w2, c.codec == Codec::Av1 && f > 60, AV1_FPS_WARNING@, "AV1"@);
    lemma_push_if_has(w2, c.codec == Codec::Av1 && f > 60, AV1_FPS_WARNING@, "High resolution"@);
    lemma_push_if_has(w3, f > 60, discord_warning(f), "Discord"@);
    lemma_push_if_has(w3, f > 60, discord_warning(f), "AV1"@);
    lemma_push_if_has(w3, f > 60, discord_warning(f), "High resolution"@);
    if c.bitrate == 0 {
        assert forall|i: int| 0 <= i < w4.len() implies !has_prefix(#[trigger] w4[i], "Bitrate"@) by {
            if has_prefix(w4[i], "Bitrate"@) {
                assert(w4[i].subrange(0, 7)[0] == w4[i][0]);
                assert("Bitrate"@[0] == 'B');
            }
        }
    }
    if 0 < c.bitrate < 500 {
        let t = "below 500 kbps"@;
        assert(BELOW_500_WARNING@.subrange(8, 22) =~= t);
        assert(occurs_at(BELOW_500_WARNING@, t, 8));
        lemma_push_if_has(a, e < 500, BELOW_500_WARNING@, t);
        lemma_push_if_has(b, e > 100_000, ABOVE_100M_WARNING@, t);
        lemma_push_if_has(w1, p.pixel_rate() > 500_000_000, heavy_warning(p), t);
        lemma_push_if_has(w2, c.codec == Codec::Av1 && f > 60, AV1_FPS_WARNING@, t);
        lemma_push_if_has(w3, f > 60, discord_warning(f), t);
    }
}

} // verus!
