//! AV1-specific encoder configuration (RTX 40 / RTX 50 series features).

use vstd::prelude::*;

verus! {

/// NVENC AV1 tier selection
#[derive(Debug, Clone, Copy, PartialEq, Eq, Hash, Structural)]
pub enum Av1Tier {
    /// Main tier (broad compatibility)
    Main,
    /// High tier (allows higher bitrates/resolutions on Ada+)
    High,
}

impl Default for Av1Tier {
    fn default() -> (t: Self)
        ensures
            t == Av1Tier::Main,
    {
        Av1Tier::Main
    }
}

impl Av1Tier {
    /// Returns ffmpeg option string for NVENC
    pub fn ffmpeg_value(&self) -> (r: &'static str)
        ensures
            r@ == (if *self == Av1Tier::Main { "main"@ } else { "high"@ }),
    {
        match self {
            Av1Tier::Main => "main",
            Av1Tier::High => "high",
        }
    }
}

/// NVENC tuning mode for quality optimization
#[derive(Debug, Clone, Copy, PartialEq, Eq, Hash, Structural)]
pub enum Av1Tune {
    /// High quality (default, good balance)
    Hq,
    /// Ultra High Quality - RTX 50 series only
    Uhq,
    /// Low latency (for streaming)
    Ll,
    /// Ultra low latency (minimal latency)
    Ull,
    /// Lossless encoding
    Lossless,
}

impl Default for Av1Tune {
    fn default() -> (t: Self)
        ensures
            t == Av1Tune::Hq,
    {
        Av1Tune::Hq
    }
}

impl Av1Tune {
    /// Returns ffmpeg tune option string
    pub fn ffmpeg_value(&self) -> (r: &'static str)
        ensures
            r@ == match *self {
                Av1Tune::Hq => "hq"@,
                Av1Tune::Uhq => "uhq"@,
                Av1Tune::Ll => "ll"@,
                Av1Tune::Ull => "ull"@,
                Av1Tune::Lossless => "lossless"@,
            },
    {
        match self {
            Av1Tune::Hq => "hq",
            Av1Tune::Uhq => "uhq",
            Av1Tune::Ll => "ll",
            Av1Tune::Ull => "ull",
            Av1Tune::Lossless => "lossless",
        }
    }

    /// Check if this tune mode requires RTX 50 series
    pub fn requires_blackwell(&self) -> (r: bool)
        ensures
            r == (*self == Av1Tune::Uhq),
    {
        match self {
            Av1Tune::Uhq => true,
            _ => false,
        }
    }
}

/// Chroma subsampling format
#[derive(Debug, Clone, Copy, PartialEq, Eq, Hash, Structural)]
pub enum ChromaFormat {
    /// 4:2:0 - Standard, most compatible (default)
    Yuv420,
    /// 4:2:2 - RTX 50 series only
    Yuv422,
    /// 4:4:4 - Full chroma
    Yuv444,
}

impl Default for ChromaFormat {
    fn default() -> (c: Self)
        ensures
            c == ChromaFormat::Yuv420,
    {
        ChromaFormat::Yuv420
    }
}

impl ChromaFormat {
    /// Check if this format requires RTX 50 series
    pub fn requires_blackwell(&self) -> (r: bool)
        ensures
            r == (*self == ChromaFormat::Yuv422),
    {
        match self {
            ChromaFormat::Yuv422 => true,
            _ => false,
        }
    }
}

/// Multipass encoding mode
#[derive(Debug, Clone, Copy, PartialEq, Eq, Hash, Structural)]
pub enum MultipassMode {
    /// Disabled (fastest)
    Disabled,
    /// Quarter resolution first pass
    Quarter,
    /// Full resolution first pass (best quality)
    Full,
}

impl Default for MultipassMode {
    fn default() -> (m: Self)
        ensures
            m == MultipassMode::Disabled,
    {
        MultipassMode::Disabled
    }
}

impl MultipassMode {
    /// Returns ffmpeg multipass option string
    pub fn ffmpeg_value(&self) -> (r: Option<&'static str>)
        ensures
            match *self {
                MultipassMode::Disabled => r is None,
                MultipassMode::Quarter => r matches Some(v) && v@ == "qres"@,
                MultipassMode::Full => r matches Some(v) && v@ == "fullres"@,
            },
    {
        match self {
            MultipassMode::Disabled => None,
            MultipassMode::Quarter => Some("qres"),
            MultipassMode::Full => Some("fullres"),
        }
    }
}

/// AV1 tuning options with RTX 50 series enhancements
#[derive(Debug, Clone, Copy, PartialEq, Eq, Structural)]
pub struct Av1Config {
    /// Enable 10-bit surfaces (main10 profile)
    pub ten_bit: bool,
    /// Tier selection (main/high)
    pub tier: Av1Tier,
    /// GOP length override (frames)
    pub gop_length: Option<u32>,
    /// Enable lookahead (if supported)
    pub lookahead: bool,
    /// Lookahead depth (frames, RTX 50: up to 250, default 20)
    pub lookahead_depth: u32,
    /// Enable spatial AQ (adaptive quantization)
    pub spatial_aq: bool,
    /// Enable temporal AQ (RTX 50 series)
    pub temporal_aq: bool,
    /// Tuning mode
    pub tune: Av1Tune,
    /// Chroma subsampling format
    pub chroma: ChromaFormat,
    /// Multipass encoding mode
    pub multipass: MultipassMode,
    /// B-frame reference mode (RTX 50)
    pub b_ref_mode: bool,
}

/// The default AV1 configuration.
pub open spec fn default_av1() -> Av1Config {
    Av1Config {
        ten_bit: false,
        tier: Av1Tier::Main,
        gop_length: None,
        lookahead: false,
        lookahead_depth: 20,
        spatial_aq: true,
        temporal_aq: false,
        tune: Av1Tune::Hq,
        chroma: ChromaFormat::Yuv420,
        multipass: MultipassMode::Disabled,
        b_ref_mode: false,
    }
}

impl Default for Av1Config {
    fn default() -> (c: Self)
        ensures
            c == default_av1(),
    {
        Av1Config {
            ten_bit: false,
            tier: Av1Tier::Main,
            gop_length: None,
            lookahead: false,
            lookahead_depth: 20,
            spatial_aq: true,
            temporal_aq: false,
            tune: Av1Tune::Hq,
            chroma: ChromaFormat::Yuv420,
            multipass: MultipassMode::Disabled,
            b_ref_mode: false,
        }
    }
}

impl Av1Config {
    /// Whether the configuration uses RTX 50 series features.
    pub open spec fn spec_uses_blackwell(self) -> bool {
        self.tune == Av1Tune::Uhq || self.chroma == ChromaFormat::Yuv422 || self.temporal_aq
            || self.lookahead_depth > 32
    }

    /// Resolve GOP length (default 2x target FPS, minimum 1)
    pub fn resolved_gop(&self, fps: u32) -> (g: u32)
        requires
            self.gop_length is None ==> fps <= u32::MAX / 2,
        ensures
            g == match self.gop_length {
                Some(l) => l as int,
                None => (if fps == 0 { 1 } else { fps as int }) * 2,
            },
    {
        match self.gop_length {
            Some(l) => l,
            None => {
                let f = if fps == 0 { 1 } else { fps };
                f * 2
            },
        }
    }

    /// Create config optimized for RTX 50 series (Blackwell)
    pub fn blackwell_optimized() -> (c: Self)
        ensures
            c == (Av1Config {
                ten_bit: true,
                tier: Av1Tier::High,
                gop_length: None,
                lookahead: true,
                lookahead_depth: 250,
                spatial_aq: true,
                temporal_aq: true,
                tune: Av1Tune::Uhq,
                chroma: ChromaFormat::Yuv420,
                multipass: MultipassMode::Full,
                b_ref_mode: true,
            }),
    {
        Av1Config {
            ten_bit: true,
            tier: Av1Tier::High,
            gop_length: None,
            lookahead: true,
            lookahead_depth: 250,
            spatial_aq: true,
            temporal_aq: true,
            tune: Av1Tune::Uhq,
            chroma: ChromaFormat::Yuv420,
            multipass: MultipassMode::Full,
            b_ref_mode: true,
        }
    }

    /// Create config for low-latency streaming on RTX 50 series
    pub fn blackwell_streaming() -> (c: Self)
        ensures
            c == (Av1Config {
                ten_bit: false,
                tier: Av1Tier::Main,
                gop_length: Some(60),
                lookahead: false,
                lookahead_depth: 0,
                spatial_aq: true,
                temporal_aq: false,
                tune: Av1Tune::Ll,
                chroma: ChromaFormat::Yuv420,
                multipass: MultipassMode::Disabled,
                b_ref_mode: false,
            }),
    {
        Av1Config {
            ten_bit: false,
            tier: Av1Tier::Main,
            gop_length: Some(60),
            lookahead: false,
            lookahead_depth: 0,
            spatial_aq: true,
            temporal_aq: false,
            tune: Av1Tune::Ll,
            chroma: ChromaFormat::Yuv420,
            multipass: MultipassMode::Disabled,
            b_ref_mode: false,
        }
    }

    /// Check if this config uses RTX 50 series features
    pub fn uses_blackwell_features(&self) -> (r: bool)
        ensures
            r == self.spec_uses_blackwell(),
    {
        self.tune.requires_blackwell() || self.chroma.requires_blackwell() || self.temporal_aq
            || self.lookahead_depth > 32
    }
}

} // verus!
