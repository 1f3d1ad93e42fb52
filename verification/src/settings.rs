//! Sections of the configuration file and their defaults.

use vstd::prelude::*;
use crate::text::owned;

verus! {

/// Default capture settings
#[derive(Debug, Clone)]
pub struct DefaultSettings {
    /// Default output preset (e.g., "1080p60")
    pub preset: String,
    /// Default codec (h264, hevc, av1)
    pub codec: String,
    /// Default bitrate in kbps (0 = auto)
    pub bitrate: u32,
    /// Enable low latency mode by default
    pub low_latency: bool,
}

impl Default for DefaultSettings {
    fn default() -> (d: Self)
        ensures
            d.preset@ == "1080p60"@,
            d.codec@ == "h264"@,
            d.bitrate == 0,
            d.low_latency,
    {
        DefaultSettings {
            preset: owned("1080p60"),
            codec: owned("h264"),
            bitrate: 0,
            low_latency: true,
        }
    }
}

/// Encoder-specific settings
#[derive(Debug, Clone)]
pub struct EncoderSettings {
    /// Encoder quality preset (fast, medium, slow, quality)
    pub quality: String,
    /// GPU index to use (0 = first GPU)
    pub gpu: u32,
}

impl Default for EncoderSettings {
    fn default() -> (d: Self)
        ensures
            d.quality@ == "medium"@,
            d.gpu == 0,
    {
        EncoderSettings { quality: owned("medium"), gpu: 0 }
    }
}

/// Virtual camera settings
#[derive(Debug, Clone)]
pub struct CameraSettings {
    /// Virtual camera name
    pub name: String,
}

impl Default for CameraSettings {
    fn default() -> (d: Self)
        ensures
            d.name@ == "Nitrogen Camera"@,
    {
        CameraSettings { name: owned("Nitrogen Camera") }
    }
}

/// Audio capture and encoding settings
#[derive(Debug, Clone)]
pub struct AudioSettings {
    /// Audio source (none, desktop, mic, both)
    pub source: String,
    /// Audio codec (aac, opus)
    pub codec: String,
    /// Audio bitrate in kbps (0 = auto based on codec)
    pub bitrate: u32,
}

impl Default for AudioSettings {
    fn default() -> (d: Self)
        ensures
            d.source@ == "none"@,
            d.codec@ == "aac"@,
            d.bitrate == 0,
    {
        AudioSettings { source: owned("none"), codec: owned("aac"), bitrate: 0 }
    }
}

/// Environment detection settings
#[derive(Debug, Clone)]
pub struct DetectionSettings {
    /// Automatically detect and optimize for Gamescope
    pub auto_gamescope: bool,
    /// Automatically detect Steam Deck and apply optimizations
    pub auto_steam_deck: bool,
    /// Enable compositor-specific optimizations
    pub compositor_optimizations: bool,
}

impl Default for DetectionSettings {
    fn default() -> (d: Self)
        ensures
            d.auto_gamescope,
            d.auto_steam_deck,
            d.compositor_optimizations,
    {
        DetectionSettings { auto_gamescope: true, auto_steam_deck: true, compositor_optimizations: true }
    }
}

/// HDR tonemapping settings
#[derive(Debug, Clone)]
pub struct HdrSettings {
    /// Tonemapping mode: auto, on, off
    pub tonemap: String,
    /// Tonemapping algorithm: reinhard, aces, hable
    pub algorithm: String,
    /// Peak luminance in nits (for metadata fallback)
    pub peak_luminance: u32,
    /// Preserve HDR for file recording (only tonemap virtual camera)
    pub preserve_hdr_recording: bool,
}

impl Default for HdrSettings {
    fn default() -> (d: Self)
        ensures
            d.tonemap@ == "auto"@,
            d.algorithm@ == "reinhard"@,
            d.peak_luminance == 1000,
            !d.preserve_hdr_recording,
    {
        HdrSettings {
            tonemap: owned("auto"),
            algorithm: owned("reinhard"),
            peak_luminance: 1000,
            preserve_hdr_recording: false,
        }
    }
}

/// Performance monitoring settings
#[derive(Debug, Clone)]
pub struct PerformanceSettings {
    /// Log frame times to console/file
    pub log_frame_times: bool,
    /// Enable GPU temperature/power monitoring
    pub gpu_monitoring: bool,
    /// Frame time sample interval in milliseconds
    pub sample_interval_ms: u32,
    /// Number of samples to keep for rolling averages
    pub metrics_sample_count: usize,
}

impl Default for PerformanceSettings {
    fn default() -> (d: Self)
        ensures
            !d.log_frame_times,
            d.gpu_monitoring,
            d.sample_interval_ms == 100,
            d.metrics_sample_count == 120,
    {
        PerformanceSettings {
            log_frame_times: false,
            gpu_monitoring: true,
            sample_interval_ms: 100,
            metrics_sample_count: 120,
        }
    }
}

/// Hotkey bindings
#[derive(Debug, Clone)]
pub struct HotkeySettings {
    /// Toggle capture on/off
    pub toggle: String,
    /// Pause/resume capture
    pub pause: String,
    /// Toggle recording
    pub record: String,
    /// Toggle latency overlay
    pub overlay_toggle: String,
}

impl Default for HotkeySettings {
    fn default() -> (d: Self)
        ensures
            d.toggle@ == "ctrl+shift+f9"@,
            d.pause@ == "ctrl+shift+f10"@,
            d.record@ == "ctrl+shift+f11"@,
            d.overlay_toggle@ == "ctrl+shift+f12"@,
    {
        HotkeySettings {
            toggle: owned("ctrl+shift+f9"),
            pause: owned("ctrl+shift+f10"),
            record: owned("ctrl+shift+f11"),
            overlay_toggle: owned("ctrl+shift+f12"),
        }
    }
}

/// The STUN server used unless configured otherwise.
pub const DEFAULT_ICE_SERVER: &'static str = "stun:stun.l.google.com:19302";

/// WebRTC streaming settings
#[derive(Debug, Clone)]
pub struct WebRTCSettings {
    /// Enable WebRTC output
    pub enabled: bool,
    /// Signaling server URL (optional, for remote connections)
    pub signaling_url: String,
    /// ICE/STUN servers for NAT traversal
    pub ice_servers: Vec<String>,
    /// Preferred video codec for WebRTC: h264, vp8, vp9, av1
    pub video_codec: String,
    /// WebRTC listen port (0 = random)
    pub port: u16,
}

impl Default for WebRTCSettings {
    fn default() -> (d: Self)
        ensures
            !d.enabled,
            d.signaling_url@ == Seq::<char>::empty(),
            d.ice_servers@.len() == 1,
            d.ice_servers@[0]@ == DEFAULT_ICE_SERVER@,
            d.video_codec@ == "h264"@,
            d.port == 0,
    {
        let mut ice_servers: Vec<String> = Vec::new();
        ice_servers.push(owned(DEFAULT_ICE_SERVER));
        WebRTCSettings {
            enabled: false,
            signaling_url: String::new(),
            ice_servers,
            video_codec: owned("h264"),
            port: 0,
        }
    }
}

/// AV1 codec-specific settings (RTX 40/50 series)
#[derive(Debug, Clone)]
pub struct Av1Settings {
    /// Enable 10-bit encoding (main10 profile)
    pub ten_bit: bool,
    /// AV1 tier: main (default) or high
    pub tier: String,
    /// Tuning mode: hq (default), uhq (RTX 50 only), ll, ull
    pub tune: String,
    /// Enable lookahead for better quality
    pub lookahead: bool,
    /// Lookahead depth in frames
    pub lookahead_depth: u32,
    /// Enable spatial adaptive quantization
    pub spatial_aq: bool,
    /// Enable temporal AQ (RTX 50 series)
    pub temporal_aq: bool,
    /// Multipass encoding: disabled (default), quarter, full
    pub multipass: String,
    /// GOP length override (frames, 0 = auto = 2x FPS)
    pub gop_length: u32,
    /// B-frame reference mode (RTX 50 series)
    pub b_ref_mode: bool,
}

impl Default for Av1Settings {
    fn default() -> (d: Self)
        ensures
            !d.ten_bit,
            d.tier@ == "main"@,
            d.tune@ == "hq"@,
            !d.lookahead,
            d.lookahead_depth == 20,
            d.spatial_aq,
            !d.temporal_aq,
            d.multipass@ == "disabled"@,
            d.gop_length == 0,
            !d.b_ref_mode,
    {
        Av1Settings {
            ten_bit: false,
            tier: owned("main"),
            tune: owned("hq"),
            lookahead: false,
            lookahead_depth: 20,
            spatial_aq: true,
            temporal_aq: false,
            multipass: owned("disabled"),
            gop_length: 0,
            b_ref_mode: false,
        }
    }
}

/// The text of the sample configuration file.
pub const SAMPLE_CONFIG: &'static str = r#"# Nitrogen Configuration
# https://github.com/ghostkellz/nitrogen

[defaults]
# Output preset: 720p30, 720p60, 1080p30, 1080p60, 1440p30, 1440p60, 1440p120, 4k30, 4k60, 4k120
preset = "1080p60"

# Video codec: h264, hevc, av1
codec = "h264"

# Bitrate in kbps (0 = automatic based on preset)
bitrate = 0

# Enable low-latency mode (recommended for Discord)
low_latency = true

[encoder]
# Quality preset: fast, medium, slow, quality
quality = "medium"

# GPU index (0 = first NVIDIA GPU)
gpu = 0

[av1]
# AV1-specific settings (only used when codec = "av1")
# Supports RTX 40 series (Ada) and RTX 50 series (Blackwell) features

# Enable 10-bit encoding (main10 profile) for better color depth
ten_bit = false

# AV1 tier: "main" (default, broad compatibility) or "high" (RTX 40+ for higher bitrates)
tier = "main"

# Tuning mode:
#   "hq"  - High quality (default, good balance)
#   "uhq" - Ultra High Quality (RTX 50 only, ~5% better compression)
#   "ll"  - Low latency (for streaming)
#   "ull" - Ultra low latency
tune = "hq"

# Enable lookahead for better quality (ignored in low-latency mode)
lookahead = false

# Lookahead depth in frames (RTX 40: up to 32, RTX 50: up to 250)
lookahead_depth = 20

# Enable spatial adaptive quantization (better quality at same bitrate)
spatial_aq = true

# Enable temporal AQ (RTX 50 series only, ~4-5% efficiency improvement)
temporal_aq = false

# Multipass encoding: "disabled" (default), "quarter", "full" (best quality)
multipass = "disabled"

# GOP (keyframe interval) override in frames (0 = auto, defaults to 2x FPS)
gop_length = 0

# B-frame reference mode for better compression (RTX 50 series)
b_ref_mode = false

[camera]
# Virtual camera name shown in applications
name = "Nitrogen Camera"

[audio]
# Audio source: none, desktop, mic, both
source = "none"

# Audio codec: aac, opus
codec = "aac"

# Audio bitrate in kbps (0 = automatic based on codec)
bitrate = 0

[detection]
# Automatically detect and optimize for Gamescope
auto_gamescope = true

# Automatically detect Steam Deck and apply optimizations
auto_steam_deck = true

# Enable compositor-specific optimizations (KDE, Hyprland, etc.)
compositor_optimizations = true

[hdr]
# HDR tonemapping mode: auto (detect), on (always), off (never)
tonemap = "auto"

# Tonemapping algorithm: reinhard, aces, hable
algorithm = "reinhard"

# Peak luminance in nits (fallback when metadata unavailable)
peak_luminance = 1000

# Preserve HDR for file recording (only tonemap virtual camera output)
preserve_hdr_recording = false

[performance]
# Log frame times to console for debugging
log_frame_times = false

# Enable GPU temperature/power monitoring
gpu_monitoring = true

# Metrics sample interval in milliseconds
sample_interval_ms = 100

# Number of samples for rolling average calculations (higher = smoother stats)
metrics_sample_count = 120

[overlay]
# Enable on-screen latency overlay
enabled = false

# Overlay position: top-left, top-right, bottom-left, bottom-right
position = "top-left"

# Stats to display
show_capture_latency = true
show_encode_latency = true
show_fps = true
show_bitrate = true
show_drops = true

# Font scale (1.0 = normal)
font_scale = 1.0

[hotkeys]
# Toggle capture on/off
toggle = "ctrl+shift+f9"

# Pause/resume capture
pause = "ctrl+shift+f10"

# Toggle recording
record = "ctrl+shift+f11"

# Toggle latency overlay
overlay_toggle = "ctrl+shift+f12"

[webrtc]
# Enable WebRTC output for browser-based viewing
enabled = false

# Signaling server URL (leave empty for local-only)
signaling_url = ""

# ICE/STUN servers for NAT traversal
ice_servers = ["stun:stun.l.google.com:19302"]

# Video codec for WebRTC: h264, vp8, vp9, av1
video_codec = "h264"

# Listen port (0 = random available port)
port = 0
"#;

/// Generate a sample configuration file
pub fn sample_config() -> (r: String)
    ensures
        r@ == SAMPLE_CONFIG@,
{
    owned(SAMPLE_CONFIG)
}

} // verus!
