//! Encoder-side decisions: encoder capability estimates, frame generation
//! modes, fixed-point frame blending, HDR tonemapping modes and NvOFFRUC
//! status codes.

use vstd::prelude::*;
use crate::config::Codec;
use crate::types::{HdrMetadata, TransferFunction, Frame, FrameData};
use crate::text::{
    owned, to_lower, same_text, push_text, lower_text, chars_of, trim_chars, trimmed,
    split_at_comma_space, split_comma_space, string_from_chars, parse_or_zero, number_or_zero,
    split_char, split_chars, parse_unsigned, parse_unsigned_chars, has_sub, contains_text,
    trim_text, lemma_split_char_nonempty, decimal,
};

verus! {

/// Encoder capabilities for a specific codec
#[derive(Debug, Clone)]
pub struct EncoderCapabilities {
    /// Supports B-frames
    pub b_frames: bool,
    /// Supports 10-bit encoding
    pub bit_10: bool,
    /// Supports lookahead
    pub lookahead: bool,
    /// Maximum width
    pub max_width: u32,
    /// Maximum height
    pub max_height: u32,
}

/// Encoder capabilities for a codec (estimates for NVENC), given whether the
/// codec's NVENC encoder is available; `None` when it is not.
pub fn get_encoder_capabilities(codec: Codec, codec_available: bool) -> (r: Option<
    EncoderCapabilities,
>)
    ensures
        !codec_available ==> r is None,
        codec_available ==> (r matches Some(c) && c.b_frames == (codec != Codec::Av1) && c.bit_10
            && c.lookahead && c.max_width == 8192 && c.max_height == 8192),
{
    if !codec_available {
        return None;
    }
    Some(
        EncoderCapabilities {
            b_frames: codec != Codec::Av1,
            bit_10: true,
            lookahead: true,
            max_width: 8192,
            max_height: 8192,
        },
    )
}

/// Names of the available NVENC encoders, given which of H.264, HEVC and AV1
/// are available, in that order.
pub fn available_encoders(h264: bool, hevc: bool, av1: bool) -> (r: Vec<String>)
    ensures
        r@.len() == (if h264 { 1int } else { 0 }) + (if hevc { 1int } else { 0 }) + (if av1 {
            1int
        } else {
            0
        }),
        h264 ==> r@[0]@ == "h264_nvenc"@,
        hevc ==> r@[if h264 { 1int } else { 0 }]@ == "hevc_nvenc"@,
        av1 ==> r@[r@.len() - 1]@ == "av1_nvenc"@,
{
    let mut r: Vec<String> = Vec::new();
    if h264 {
        r.push(owned(Codec::H264.nvenc_encoder()));
    }
    if hevc {
        r.push(owned(Codec::Hevc.nvenc_encoder()));
    }
    if av1 {
        r.push(owned(Codec::Av1.nvenc_encoder()));
    }
    r
}

/// GPU information
#[derive(Debug, Clone)]
pub struct GpuInfo {
    /// GPU model name
    pub name: String,
    /// Total VRAM in MB
    pub vram_mb: u64,
    /// Driver version
    pub driver_version: String,
}

/// GPU information read from the answer to a `name, memory.total,
/// driver_version` query of nvidia-smi (CSV without header or units):
/// `success` tells whether the query succeeded, `stdout` is its output.
pub fn gpu_info_from_query(success: bool, stdout: &str) -> (r: Option<GpuInfo>)
    ensures
        match r {
            None => !success || split_comma_space(trimmed(stdout@)).len() < 3,
            Some(g) => {
                let parts = split_comma_space(trimmed(stdout@));
                &&& success
                &&& parts.len() >= 3
                &&& g.name@ == parts[0]
                &&& g.vram_mb == number_or_zero(parts[1], u64::MAX as nat)
                &&& g.driver_version@ == parts[2]
            },
        },
{
    if !success {
        return None;
    }
    let cs = chars_of(stdout);
    let t = trim_chars(&cs);
    let parts = split_at_comma_space(&t);
    if parts.len() < 3 {
        return None;
    }
    Some(
        GpuInfo {
            name: string_from_chars(&parts[0]),
            vram_mb: parse_or_zero(&parts[1], u64::MAX),
            driver_version: string_from_chars(&parts[2]),
        },
    )
}

/// Frame generation mode
#[derive(Debug, Clone, Copy, PartialEq, Eq, Structural)]
pub enum FrameGenMode {
    /// No frame generation (passthrough)
    Off,
    /// 2x interpolation (30fps -> 60fps)
    Double,
    /// 3x interpolation (30fps -> 90fps)
    Triple,
    /// 4x interpolation (30fps -> 120fps)
    Quadruple,
    /// Adaptive - adjusts based on scene complexity
    Adaptive,
}

impl Default for FrameGenMode {
    fn default() -> (m: Self)
        ensures
            m == FrameGenMode::Off,
    {
        FrameGenMode::Off
    }
}

/// The frame generation mode that a lowercased name stands for (off when unknown).
pub open spec fn frame_gen_from_lower(l: Seq<char>) -> FrameGenMode {
    if l == "off"@ || l == "none"@ || l == "0"@ {
        FrameGenMode::Off
    } else if l == "double"@ || l == "2x"@ || l == "2"@ {
        FrameGenMode::Double
    } else if l == "triple"@ || l == "3x"@ || l == "3"@ {
        FrameGenMode::Triple
    } else if l == "quadruple"@ || l == "4x"@ || l == "4"@ {
        FrameGenMode::Quadruple
    } else if l == "adaptive"@ || l == "auto"@ {
        FrameGenMode::Adaptive
    } else {
        FrameGenMode::Off
    }
}

/// The name of a frame generation mode, as it is displayed.
pub open spec fn frame_gen_name(m: FrameGenMode) -> Seq<char> {
    match m {
        FrameGenMode::Off => "off"@,
        FrameGenMode::Double => "2x"@,
        FrameGenMode::Triple => "3x"@,
        FrameGenMode::Quadruple => "4x"@,
        FrameGenMode::Adaptive => "adaptive"@,
    }
}

/// The English word for `n` times as many, for `n` from 2 to 4.
pub open spec fn times_word(n: nat) -> Seq<char> {
    if n == 2 {
        "double"@
    } else if n == 3 {
        "triple"@
    } else {
        "quadruple"@
    }
}

impl FrameGenMode {
    /// The frame multiplier.
    pub open spec fn spec_multiplier(self) -> u32 {
        match self {
            FrameGenMode::Off => 1,
            FrameGenMode::Double => 2,
            FrameGenMode::Triple => 3,
            FrameGenMode::Quadruple => 4,
            FrameGenMode::Adaptive => 2,
        }
    }

    /// Get the frame multiplier
    pub fn multiplier(&self) -> (r: u32)
        ensures
            r == self.spec_multiplier(),
    {
        match self {
            FrameGenMode::Off => 1,
            FrameGenMode::Double => 2,
            FrameGenMode::Triple => 3,
            FrameGenMode::Quadruple => 4,
            FrameGenMode::Adaptive => 2,
        }
    }

    /// Get effective output FPS from input FPS
    pub fn output_fps(&self, input_fps: u32) -> (r: u32)
        requires
            input_fps * self.spec_multiplier() <= u32::MAX,
        ensures
            r == input_fps * self.spec_multiplier(),
    {
        input_fps * self.multiplier()
    }

    /// The mode that an already lower-cased name stands for; unknown names mean off.
    pub fn from_lowered(l: &str) -> (m: Self)
        ensures
            m == frame_gen_from_lower(l@),
    {
        if same_text(l, "off") || same_text(l, "none") || same_text(l, "0") {
            FrameGenMode::Off
        } else if same_text(l, "double") || same_text(l, "2x") || same_text(l, "2") {
            FrameGenMode::Double
        } else if same_text(l, "triple") || same_text(l, "3x") || same_text(l, "3") {
            FrameGenMode::Triple
        } else if same_text(l, "quadruple") || same_text(l, "4x") || same_text(l, "4") {
            FrameGenMode::Quadruple
        } else if same_text(l, "adaptive") || same_text(l, "auto") {
            FrameGenMode::Adaptive
        } else {
            FrameGenMode::Off
        }
    }

    /// Parse from string, ignoring case; unknown names mean off.
    pub fn from_str(s: &str) -> (m: Self)
        ensures
            m == frame_gen_from_lower(lower_text(s@)),
    {
        FrameGenMode::from_lowered(to_lower(s).as_str())
    }

    /// The mode as it is displayed.
    pub fn display_name(&self) -> (r: &'static str)
        ensures
            r@ == frame_gen_name(*self),
    {
        match self {
            FrameGenMode::Off => "off",
            FrameGenMode::Double => "2x",
            FrameGenMode::Triple => "3x",
            FrameGenMode::Quadruple => "4x",
            FrameGenMode::Adaptive => "adaptive",
        }
    }
}

/// Every frame generation mode reads back from its displayed name. For `n`
/// from 2 to 4, the names `n`, `nx` and the word for `n` times (double,
/// triple, quadruple) read as one mode, whose multiplier is `n`; the names
/// of no generation (`off`, `none`, `0`) read as a mode with multiplier 1,
/// and `auto` is the adaptive mode.
pub proof fn lemma_frame_gen_names(m: FrameGenMode, n: nat)
    ensures
        frame_gen_from_lower(frame_gen_name(m)) == m,
        2 <= n <= 4 ==> frame_gen_from_lower(decimal(n)).spec_multiplier() == n,
        2 <= n <= 4 ==> frame_gen_from_lower(decimal(n) + "x"@) == frame_gen_from_lower(
            decimal(n),
        ),
        2 <= n <= 4 ==> frame_gen_from_lower(times_word(n)) == frame_gen_from_lower(decimal(n)),
        frame_gen_from_lower("off"@).spec_multiplier() == 1,
        frame_gen_from_lower("none"@).spec_multiplier() == 1,
        frame_gen_from_lower(decimal(0)).spec_multiplier() == 1,
        frame_gen_from_lower("auto"@) == FrameGenMode::Adaptive,
{
    reveal_strlit("off");
    reveal_strlit("none");
    reveal_strlit("0");
    reveal_strlit("double");
    reveal_strlit("2x");
    reveal_strlit("2");
    reveal_strlit("triple");
    reveal_strlit("3x");
    reveal_strlit("3");
    reveal_strlit("quadruple");
    reveal_strlit("4x");
    reveal_strlit("4");
    reveal_strlit("adaptive");
    reveal_strlit("auto");
    reveal_strlit("x");
    assert(decimal(0) =~= "0"@);
    assert(decimal(2) =~= "2"@);
    assert(decimal(3) =~= "3"@);
    assert(decimal(4) =~= "4"@);
    assert(decimal(2) + "x"@ =~= "2x"@);
    assert(decimal(3) + "x"@ =~= "3x"@);
    assert(decimal(4) + "x"@ =~= "4x"@);
    assert("off"@.len() == 3 && "off"@[0] == 'o' && "off"@[2] == 'f');
    assert("none"@.len() == 4 && "none"@[0] == 'n' && "none"@[3] == 'e');
    assert("0"@.len() == 1 && "0"@[0] == '0' && "0"@[0] == '0');
    assert("double"@.len() == 6 && "double"@[0] == 'd' && "double"@[5] == 'e');
    assert("2x"@.len() == 2 && "2x"@[0] == '2' && "2x"@[1] == 'x');
    assert("2"@.len() == 1 && "2"@[0] == '2' && "2"@[0] == '2');
    assert("triple"@.len() == 6 && "triple"@[0] == 't' && "triple"@[5] == 'e');
    assert("3x"@.len() == 2 && "3x"@[0] == '3' && "3x"@[1] == 'x');
    assert("3"@.len() == 1 && "3"@[0] == '3' && "3"@[0] == '3');
    assert("quadruple"@.len() == 9 && "quadruple"@[0] == 'q' && "quadruple"@[8] == 'e');
    assert("4x"@.len() == 2 && "4x"@[0] == '4' && "4x"@[1] == 'x');
    assert("4"@.len() == 1 && "4"@[0] == '4' && "4"@[0] == '4');
    assert("adaptive"@.len() == 8 && "adaptive"@[0] == 'a' && "adaptive"@[7] == 'e');
    assert("auto"@.len() == 4 && "auto"@[0] == 'a' && "auto"@[3] == 'o');
}

/// One byte of a linear blend of two frames with an 8-bit fixed-point weight
/// `t` (0 = all `p`, 256 = all `c`).
pub open spec fn blend_byte(p: u8, c: u8, t: u16) -> u8 {
    ((p * (256 - t) + c * t) / 256) as u8
}

/// Blend two equally sized frames byte by byte: `(p * (256 - t) + c * t) >> 8`.
pub fn blend_frames(prev: &Vec<u8>, curr: &Vec<u8>, t_fixed: u16) -> (r: Vec<u8>)
    requires
        prev.len() == curr.len(),
        t_fixed <= 256,
    ensures
        r@.len() == prev@.len(),
        forall|i: int| 0 <= i < r@.len() ==> #[trigger] r@[i] == blend_byte(prev@[i], curr@[i], t_fixed),
{
    let inv_t_fixed: u16 = 256 - t_fixed;
    let mut r: Vec<u8> = Vec::new();
    let mut i: usize = 0;
    while i < prev.len()
        invariant
            prev.len() == curr.len(),
            t_fixed <= 256,
            inv_t_fixed == 256 - t_fixed,
            i <= prev.len(),
            r@.len() == i,
            forall|k: int| 0 <= k < i ==> #[trigger] r@[k] == blend_byte(prev@[k], curr@[k], t_fixed),
        decreases prev.len() - i,
    {
        let p = prev[i] as u16;
        let c = curr[i] as u16;
        proof {
            assert(p * inv_t_fixed <= 255 * inv_t_fixed) by (nonlinear_arith)
                requires
                    p <= 255,
            ;
            assert(c * t_fixed <= 255 * t_fixed) by (nonlinear_arith)
                requires
                    c <= 255,
            ;
        }
        let s: u16 = p * inv_t_fixed + c * t_fixed;
        let v: u16 = s >> 8;
        proof {
            assert(s >> 8u16 == s / 256) by (bit_vector);
            assert(s / 256 <= 255);
        }
        r.push(v as u8);
        i = i + 1;
    }
    r
}

/// Tonemapping algorithm selection
#[derive(Debug, Clone, Copy, PartialEq, Eq, Structural)]
pub enum TonemapAlgorithm {
    /// Reinhard tonemapping - simple and preserves colors
    Reinhard,
    /// ACES filmic tonemapping - cinematic look
    Aces,
    /// Hable/Uncharted 2 filmic curve
    Hable,
}

impl Default for TonemapAlgorithm {
    fn default() -> (a: Self)
        ensures
            a == TonemapAlgorithm::Reinhard,
    {
        TonemapAlgorithm::Reinhard
    }
}

/// The tonemapping algorithm that a lowercased name stands for.
pub open spec fn tonemap_algorithm_from_lower(l: Seq<char>) -> Option<TonemapAlgorithm> {
    if l == "reinhard"@ {
        Some(TonemapAlgorithm::Reinhard)
    } else if l == "aces"@ {
        Some(TonemapAlgorithm::Aces)
    } else if l == "hable"@ || l == "uncharted2"@ || l == "filmic"@ {
        Some(TonemapAlgorithm::Hable)
    } else {
        None
    }
}

impl TonemapAlgorithm {
    /// The algorithm that an already lower-cased name stands for.
    pub fn from_lowered(l: &str) -> (r: Option<TonemapAlgorithm>)
        ensures
            r == tonemap_algorithm_from_lower(l@),
    {
        if same_text(l, "reinhard") {
            Some(TonemapAlgorithm::Reinhard)
        } else if same_text(l, "aces") {
            Some(TonemapAlgorithm::Aces)
        } else if same_text(l, "hable") || same_text(l, "uncharted2") || same_text(l, "filmic") {
            Some(TonemapAlgorithm::Hable)
        } else {
            None
        }
    }

    /// Parse an algorithm name, ignoring case.
    pub fn parse_name(s: &str) -> (r: Result<TonemapAlgorithm, String>)
        ensures
            match tonemap_algorithm_from_lower(lower_text(s@)) {
                Some(a) => r == Ok::<TonemapAlgorithm, String>(a),
                None => r matches Err(m) && m@ == "Unknown tonemap algorithm: "@ + s@,
            },
    {
        match TonemapAlgorithm::from_lowered(to_lower(s).as_str()) {
            Some(v) => Ok(v),
            None => {
                let mut m = owned("Unknown tonemap algorithm: ");
                push_text(&mut m, s);
                Err(m)
            },
        }
    }

    /// The algorithm as it is displayed.
    pub fn display_name(&self) -> (r: &'static str)
        ensures
            r@ == match *self {
                TonemapAlgorithm::Reinhard => "Reinhard"@,
                TonemapAlgorithm::Aces => "ACES"@,
                TonemapAlgorithm::Hable => "Hable"@,
            },
    {
        match self {
            TonemapAlgorithm::Reinhard => "Reinhard",
            TonemapAlgorithm::Aces => "ACES",
            TonemapAlgorithm::Hable => "Hable",
        }
    }
}

impl core::str::FromStr for TonemapAlgorithm {
    type Err = String;

    fn from_str(s: &str) -> (r: core::result::Result<TonemapAlgorithm, String>)
        ensures
            match tonemap_algorithm_from_lower(lower_text(s@)) {
                Some(a) => r == Ok::<TonemapAlgorithm, String>(a),
                None => r matches Err(m) && m@ == "Unknown tonemap algorithm: "@ + s@,
            },
    {
        TonemapAlgorithm::parse_name(s)
    }
}

/// Tonemapping mode
#[derive(Debug, Clone, Copy, PartialEq, Eq, Structural)]
pub enum TonemapMode {
    /// Automatic: tonemap if HDR content detected
    Auto,
    /// Always apply tonemapping
    On,
    /// Never apply tonemapping (passthrough)
    Off,
}

impl Default for TonemapMode {
    fn default() -> (m: Self)
        ensures
            m == TonemapMode::Auto,
    {
        TonemapMode::Auto
    }
}

/// The tonemapping mode that a lowercased name stands for.
pub open spec fn tonemap_mode_from_lower(l: Seq<char>) -> Option<TonemapMode> {
    if l == "auto"@ {
        Some(TonemapMode::Auto)
    } else if l == "on"@ || l == "true"@ || l == "yes"@ || l == "1"@ {
        Some(TonemapMode::On)
    } else if l == "off"@ || l == "false"@ || l == "no"@ || l == "0"@ {
        Some(TonemapMode::Off)
    } else {
        None
    }
}

impl TonemapMode {
    /// The mode that an already lower-cased name stands for.
    pub fn from_lowered(l: &str) -> (r: Option<TonemapMode>)
        ensures
            r == tonemap_mode_from_lower(l@),
    {
        if same_text(l, "auto") {
            Some(TonemapMode::Auto)
        } else if same_text(l, "on") || same_text(l, "true") || same_text(l, "yes") || same_text(
            l,
            "1",
        ) {
            Some(TonemapMode::On)
        } else if same_text(l, "off") || same_text(l, "false") || same_text(l, "no") || same_text(
            l,
            "0",
        ) {
            Some(TonemapMode::Off)
        } else {
            None
        }
    }

    /// Parse a mode name, ignoring case.
    pub fn parse_name(s: &str) -> (r: Result<TonemapMode, String>)
        ensures
            match tonemap_mode_from_lower(lower_text(s@)) {
                Some(m) => r == Ok::<TonemapMode, String>(m),
                None => r matches Err(e) && e@ == "Unknown tonemap mode: "@ + s@,
            },
    {
        match TonemapMode::from_lowered(to_lower(s).as_str()) {
            Some(v) => Ok(v),
            None => {
                let mut m = owned("Unknown tonemap mode: ");
                push_text(&mut m, s);
                Err(m)
            },
        }
    }

    /// The mode as it is displayed.
    pub fn display_name(&self) -> (r: &'static str)
        ensures
            r@ == match *self {
                TonemapMode::Auto => "auto"@,
                TonemapMode::On => "on"@,
                TonemapMode::Off => "off"@,
            },
    {
        match self {
            TonemapMode::Auto => "auto",
            TonemapMode::On => "on",
            TonemapMode::Off => "off",
        }
    }
}

impl core::str::FromStr for TonemapMode {
    type Err = String;

    fn from_str(s: &str) -> (r: core::result::Result<TonemapMode, String>)
        ensures
            match tonemap_mode_from_lower(lower_text(s@)) {
                Some(m) => r == Ok::<TonemapMode, String>(m),
                None => r matches Err(e) && e@ == "Unknown tonemap mode: "@ + s@,
            },
    {
        TonemapMode::parse_name(s)
    }
}

/// Tonemapping configuration
#[derive(Debug, Clone, Copy, PartialEq, Eq, Structural)]
pub struct TonemapConfig {
    /// Tonemapping mode
    pub mode: TonemapMode,
    /// Algorithm to use
    pub algorithm: TonemapAlgorithm,
    /// Peak luminance override (nits) - used when metadata is unavailable
    pub peak_luminance: u32,
    /// Target SDR white point (nits), typically 100-203
    pub sdr_white_point: u32,
}

impl Default for TonemapConfig {
    fn default() -> (c: Self)
        ensures
            c == (TonemapConfig {
                mode: TonemapMode::Auto,
                algorithm: TonemapAlgorithm::Reinhard,
                peak_luminance: 1000,
                sdr_white_point: 100,
            }),
    {
        TonemapConfig {
            mode: TonemapMode::Auto,
            algorithm: TonemapAlgorithm::Reinhard,
            peak_luminance: 1000,
            sdr_white_point: 100,
        }
    }
}

impl TonemapConfig {
    /// Whether a frame with the given metadata is tonemapped: never when off,
    /// always when on, and in auto mode only for HDR metadata.
    pub fn should_tonemap(&self, metadata: Option<&HdrMetadata>) -> (r: bool)
        ensures
            r == match self.mode {
                TonemapMode::Off => false,
                TonemapMode::On => true,
                TonemapMode::Auto => metadata matches Some(m) && m.transfer
                    != TransferFunction::Sdr,
            },
    {
        match self.mode {
            TonemapMode::Off => false,
            TonemapMode::On => true,
            TonemapMode::Auto => match metadata {
                Some(m) => m.is_hdr(),
                None => false,
            },
        }
    }

    /// The peak luminance used for a frame: the larger of the metadata's peak
    /// (or its default when there is no metadata) and the configured override.
    pub fn effective_peak_luminance(&self, metadata: Option<&HdrMetadata>) -> (r: u32)
        ensures
            ({
                let meta_peak = match metadata {
                    Some(m) => match m.max_cll {
                        Some(c) => c,
                        None => match m.mastering_max_luminance {
                            Some(x) => x,
                            None => 1000u32,
                        },
                    },
                    None => 1000u32,
                };
                r == if meta_peak >= self.peak_luminance { meta_peak } else { self.peak_luminance }
            }),
    {
        let meta_peak = match metadata {
            Some(m) => m.peak_luminance(),
            None => HdrMetadata::sdr().peak_luminance(),
        };
        if meta_peak >= self.peak_luminance {
            meta_peak
        } else {
            self.peak_luminance
        }
    }
}

/// FRUC API return status codes
#[allow(non_camel_case_types)]
#[derive(Debug, Clone, Copy, PartialEq, Eq, Structural)]
pub enum NvOFFRUC_STATUS {
    SUCCESS,
    ERR_NOT_SUPPORTED,
    ERR_INVALID_PTR,
    ERR_INVALID_PARAM,
    ERR_INVALID_HANDLE,
    ERR_OUT_OF_SYSTEM_MEMORY,
    ERR_OUT_OF_VIDEO_MEMORY,
    ERR_OPENCV_NOT_AVAILABLE,
    ERR_UNIMPLEMENTED,
    ERR_OF_FAILURE,
    ERR_DUPLICATE_RESOURCE,
    ERR_UNREGISTERED_RESOURCE,
    ERR_INCORRECT_API_SEQUENCE,
    ERR_WRITE_TODISK_FAILED,
    ERR_PIPELINE_EXECUTION_FAILURE,
    ERR_SYNC_WRITE_FAILED,
    ERR_GENERIC,
}

/// Human-readable text of a FRUC status.
pub open spec fn fruc_status_text(s: NvOFFRUC_STATUS) -> Seq<char> {
    match s {
        NvOFFRUC_STATUS::SUCCESS => "Success"@,
        NvOFFRUC_STATUS::ERR_NOT_SUPPORTED => "Optical flow not supported on this hardware"@,
        NvOFFRUC_STATUS::ERR_INVALID_PTR => "Invalid pointer"@,
        NvOFFRUC_STATUS::ERR_INVALID_PARAM => "Invalid parameter"@,
        NvOFFRUC_STATUS::ERR_INVALID_HANDLE => "Invalid handle"@,
        NvOFFRUC_STATUS::ERR_OUT_OF_SYSTEM_MEMORY => "Out of system memory"@,
        NvOFFRUC_STATUS::ERR_OUT_OF_VIDEO_MEMORY => "Out of video memory"@,
        NvOFFRUC_STATUS::ERR_OPENCV_NOT_AVAILABLE => "OpenCV not available"@,
        NvOFFRUC_STATUS::ERR_UNIMPLEMENTED => "Feature not implemented"@,
        NvOFFRUC_STATUS::ERR_OF_FAILURE => "Optical flow failure"@,
        NvOFFRUC_STATUS::ERR_DUPLICATE_RESOURCE => "Resource already registered"@,
        NvOFFRUC_STATUS::ERR_UNREGISTERED_RESOURCE => "Resource not registered"@,
        NvOFFRUC_STATUS::ERR_INCORRECT_API_SEQUENCE => "Incorrect API call sequence"@,
        NvOFFRUC_STATUS::ERR_WRITE_TODISK_FAILED => "Failed to write to disk"@,
        NvOFFRUC_STATUS::ERR_PIPELINE_EXECUTION_FAILURE => "Pipeline execution failed"@,
        NvOFFRUC_STATUS::ERR_SYNC_WRITE_FAILED => "Sync write failed"@,
        NvOFFRUC_STATUS::ERR_GENERIC => "Generic error"@,
    }
}

impl NvOFFRUC_STATUS {
    /// Check if status indicates success
    pub fn is_success(&self) -> (r: bool)
        ensures
            r == (*self == NvOFFRUC_STATUS::SUCCESS),
    {
        match self {
            NvOFFRUC_STATUS::SUCCESS => true,
            _ => false,
        }
    }

    /// Convert to a human-readable error message
    pub fn to_error_string(&self) -> (r: &'static str)
        ensures
            r@ == fruc_status_text(*self),
    {
        match self {
            NvOFFRUC_STATUS::SUCCESS => "Success",
            NvOFFRUC_STATUS::ERR_NOT_SUPPORTED => "Optical flow not supported on this hardware",
            NvOFFRUC_STATUS::ERR_INVALID_PTR => "Invalid pointer",
            NvOFFRUC_STATUS::ERR_INVALID_PARAM => "Invalid parameter",
            NvOFFRUC_STATUS::ERR_INVALID_HANDLE => "Invalid handle",
            NvOFFRUC_STATUS::ERR_OUT_OF_SYSTEM_MEMORY => "Out of system memory",
            NvOFFRUC_STATUS::ERR_OUT_OF_VIDEO_MEMORY => "Out of video memory",
            NvOFFRUC_STATUS::ERR_OPENCV_NOT_AVAILABLE => "OpenCV not available",
            NvOFFRUC_STATUS::ERR_UNIMPLEMENTED => "Feature not implemented",
            NvOFFRUC_STATUS::ERR_OF_FAILURE => "Optical flow failure",
            NvOFFRUC_STATUS::ERR_DUPLICATE_RESOURCE => "Resource already registered",
            NvOFFRUC_STATUS::ERR_UNREGISTERED_RESOURCE => "Resource not registered",
            NvOFFRUC_STATUS::ERR_INCORRECT_API_SEQUENCE => "Incorrect API call sequence",
            NvOFFRUC_STATUS::ERR_WRITE_TODISK_FAILED => "Failed to write to disk",
            NvOFFRUC_STATUS::ERR_PIPELINE_EXECUTION_FAILURE => "Pipeline execution failed",
            NvOFFRUC_STATUS::ERR_SYNC_WRITE_FAILED => "Sync write failed",
            NvOFFRUC_STATUS::ERR_GENERIC => "Generic error",
        }
    }

    /// The code of a status in the C API.
    pub open spec fn code(self) -> int {
        match self {
            NvOFFRUC_STATUS::SUCCESS => 0,
            NvOFFRUC_STATUS::ERR_NOT_SUPPORTED => 1,
            NvOFFRUC_STATUS::ERR_INVALID_PTR => 2,
            NvOFFRUC_STATUS::ERR_INVALID_PARAM => 3,
            NvOFFRUC_STATUS::ERR_INVALID_HANDLE => 4,
            NvOFFRUC_STATUS::ERR_OUT_OF_SYSTEM_MEMORY => 5,
            NvOFFRUC_STATUS::ERR_OUT_OF_VIDEO_MEMORY => 6,
            NvOFFRUC_STATUS::ERR_OPENCV_NOT_AVAILABLE => 7,
            NvOFFRUC_STATUS::ERR_UNIMPLEMENTED => 8,
            NvOFFRUC_STATUS::ERR_OF_FAILURE => 9,
            NvOFFRUC_STATUS::ERR_DUPLICATE_RESOURCE => 10,
            NvOFFRUC_STATUS::ERR_UNREGISTERED_RESOURCE => 11,
            NvOFFRUC_STATUS::ERR_INCORRECT_API_SEQUENCE => 12,
            NvOFFRUC_STATUS::ERR_WRITE_TODISK_FAILED => 13,
            NvOFFRUC_STATUS::ERR_PIPELINE_EXECUTION_FAILURE => 14,
            NvOFFRUC_STATUS::ERR_SYNC_WRITE_FAILED => 15,
            NvOFFRUC_STATUS::ERR_GENERIC => 16,
        }
    }

    /// The status with the given code of the C API, if the code is one.
    pub fn from_code(code: i32) -> (r: Option<NvOFFRUC_STATUS>)
        ensures
            (0 <= code <= 16) == (r is Some),
            r matches Some(st) ==> st.code() == code,
    {
        match code {
            0 => Some(NvOFFRUC_STATUS::SUCCESS),
            1 => Some(NvOFFRUC_STATUS::ERR_NOT_SUPPORTED),
            2 => Some(NvOFFRUC_STATUS::ERR_INVALID_PTR),
            3 => Some(NvOFFRUC_STATUS::ERR_INVALID_PARAM),
            4 => Some(NvOFFRUC_STATUS::ERR_INVALID_HANDLE),
            5 => Some(NvOFFRUC_STATUS::ERR_OUT_OF_SYSTEM_MEMORY),
            6 => Some(NvOFFRUC_STATUS::ERR_OUT_OF_VIDEO_MEMORY),
            7 => Some(NvOFFRUC_STATUS::ERR_OPENCV_NOT_AVAILABLE),
            8 => Some(NvOFFRUC_STATUS::ERR_UNIMPLEMENTED),
            9 => Some(NvOFFRUC_STATUS::ERR_OF_FAILURE),
            10 => Some(NvOFFRUC_STATUS::ERR_DUPLICATE_RESOURCE),
            11 => Some(NvOFFRUC_STATUS::ERR_UNREGISTERED_RESOURCE),
            12 => Some(NvOFFRUC_STATUS::ERR_INCORRECT_API_SEQUENCE),
            13 => Some(NvOFFRUC_STATUS::ERR_WRITE_TODISK_FAILED),
            14 => Some(NvOFFRUC_STATUS::ERR_PIPELINE_EXECUTION_FAILURE),
            15 => Some(NvOFFRUC_STATUS::ERR_SYNC_WRITE_FAILED),
            16 => Some(NvOFFRUC_STATUS::ERR_GENERIC),
            _ => None,
        }
    }
}


/// Pixel formats that frames are handed to the encoder in.
#[derive(Debug, Clone, Copy, PartialEq, Eq, Structural)]
pub enum EncoderPixelFormat {
    /// 32-bit BGRA
    Bgra,
    /// 32-bit RGBA
    Rgba,
    /// 24-bit RGB
    Rgb24,
    /// 24-bit BGR
    Bgr24,
    /// Packed YUV 4:2:2
    Yuyv422,
    /// Semi-planar YUV 4:2:0
    Nv12,
}

/// The encoder pixel format for a DRM fourcc; unknown formats are treated as BGRA.
pub fn pixel_format_from_fourcc(fourcc: u32) -> (r: EncoderPixelFormat)
    ensures
        r == (if fourcc == 0x34324241 || fourcc == 0x34324258 {
            EncoderPixelFormat::Rgba
        } else if fourcc == 0x20424752 {
            EncoderPixelFormat::Rgb24
        } else if fourcc == 0x20524742 {
            EncoderPixelFormat::Bgr24
        } else if fourcc == 0x56595559 {
            EncoderPixelFormat::Yuyv422
        } else if fourcc == 0x3231564E {
            EncoderPixelFormat::Nv12
        } else {
            EncoderPixelFormat::Bgra
        }),
{
    if fourcc == 0x34325258 || fourcc == 0x34325842 || fourcc == 0x34325241 || fourcc
        == 0x34324142 {
        EncoderPixelFormat::Bgra
    } else if fourcc == 0x34324241 || fourcc == 0x34324258 {
        EncoderPixelFormat::Rgba
    } else if fourcc == 0x20424752 {
        EncoderPixelFormat::Rgb24
    } else if fourcc == 0x20524742 {
        EncoderPixelFormat::Bgr24
    } else if fourcc == 0x56595559 {
        EncoderPixelFormat::Yuyv422
    } else if fourcc == 0x3231564E {
        EncoderPixelFormat::Nv12
    } else {
        EncoderPixelFormat::Bgra
    }
}


/// A copy of a frame: a memory frame gets its own copy of the bytes, a
/// DMA-BUF frame refers to the same buffer.
pub open spec fn duplicates(r: Frame, f: Frame) -> bool {
    &&& r.format == f.format
    &&& r.pts == f.pts
    &&& r.hdr_metadata == f.hdr_metadata
    &&& match f.data {
        FrameData::Memory(b) => r.data matches FrameData::Memory(c) && c@ == b@,
        FrameData::DmaBuf { fd, offset, modifier } => r.data == (FrameData::DmaBuf {
            fd,
            offset,
            modifier,
        }),
    }
}

fn copy_bytes(b: &Vec<u8>) -> (r: Vec<u8>)
    ensures
        r@ == b@,
{
    let mut r: Vec<u8> = Vec::new();
    let mut i: usize = 0;
    while i < b.len()
        invariant
            i <= b.len(),
            r@ == b@.subrange(0, i as int),
        decreases b.len() - i,
    {
        r.push(b[i]);
        i += 1;
    }
    r
}

/// Duplicate a frame (the fallback where interpolation is not possible).
pub fn duplicate_frame(frame: &Frame) -> (r: Frame)
    ensures
        duplicates(r, *frame),
{
    let data = match &frame.data {
        FrameData::Memory(bytes) => FrameData::Memory(copy_bytes(bytes)),
        FrameData::DmaBuf { fd, offset, modifier } => FrameData::DmaBuf {
            fd: *fd,
            offset: *offset,
            modifier: *modifier,
        },
    };
    Frame { format: frame.format, data, pts: frame.pts, hdr_metadata: frame.hdr_metadata }
}

/// Two memory frames of one size and pixel format, holding as many bytes, can be blended.
pub open spec fn blendable(prev: Frame, curr: Frame) -> bool {
    &&& prev.data is Memory
    &&& curr.data is Memory
    &&& prev.format.width == curr.format.width
    &&& prev.format.height == curr.format.height
    &&& prev.format.fourcc == curr.format.fourcc
    &&& prev.data->Memory_0@.len() == curr.data->Memory_0@.len()
}

/// One frame that frame generation sends for an input frame.
#[derive(Debug, Clone, Copy, PartialEq, Eq, Structural)]
pub enum MotionSlot {
    /// A frame interpolated at `step / of` of the way from the previous
    /// input frame to the new one
    Interpolated { step: u32, of: u32 },
    /// The new frame again, in place of an interpolated one (scene change)
    Repeat,
    /// The new input frame itself
    Input,
}

/// The frames sent for an input frame: with frame generation off, or for
/// the first frame, the frame alone; else `multiplier - 1` frames between
/// the previous and the new one (repeats of the new one on a scene change),
/// then the new one.
pub open spec fn motion_slots_of(mode: FrameGenMode, has_prev: bool, scene_change: bool) -> Seq<
    MotionSlot,
> {
    if mode == FrameGenMode::Off || !has_prev {
        seq![MotionSlot::Input]
    } else {
        slots_between(mode.spec_multiplier(), scene_change).push(MotionSlot::Input)
    }
}

/// The `m - 1` frames between two input frames: steps 1 to `m - 1` of `m`,
/// or repeats of the new frame on a scene change.
pub open spec fn slots_between(m: u32, scene_change: bool) -> Seq<MotionSlot> {
    Seq::new(
        (m - 1) as nat,
        |i: int|
            if scene_change {
                MotionSlot::Repeat
            } else {
                MotionSlot::Interpolated { step: (i + 1) as u32, of: m }
            },
    )
}

/// Plan the frames sent for an input frame.
pub fn motion_slots(mode: FrameGenMode, has_prev: bool, scene_change: bool) -> (r: Vec<MotionSlot>)
    ensures
        r@ == motion_slots_of(mode, has_prev, scene_change),
{
    let mut r: Vec<MotionSlot> = Vec::new();
    if mode == FrameGenMode::Off || !has_prev {
        r.push(MotionSlot::Input);
        assert(r@ =~= seq![MotionSlot::Input]);
        return r;
    }
    let m = mode.multiplier();
    let ghost between = slots_between(m, scene_change);
    let mut i: u32 = 1;
    while i < m
        invariant
            1 <= i <= m,
            m == mode.spec_multiplier(),
            m <= 4,
            between == slots_between(m, scene_change),
            r@ == between.take(i - 1),
        decreases m - i,
    {
        if scene_change {
            r.push(MotionSlot::Repeat);
        } else {
            r.push(MotionSlot::Interpolated { step: i, of: m });
        }
        assert(r@ =~= between.take(i as int));
        i = i + 1;
    }
    r.push(MotionSlot::Input);
    assert(r@ =~= between.push(MotionSlot::Input));
    r
}

/// Frame generation multiplies the frame rate exactly: once a previous
/// frame exists, every input frame gives `multiplier` frames, the last of
/// which is the input itself; the first input gives only itself.
pub proof fn lemma_motion_multiplies_frames(mode: FrameGenMode, has_prev: bool, scene_change: bool)
    ensures
        motion_slots_of(mode, has_prev, scene_change).len() == (if has_prev {
            mode.spec_multiplier() as int
        } else {
            1
        }),
        motion_slots_of(mode, has_prev, scene_change).last() == MotionSlot::Input,
{
}

/// Interpolate on the CPU between two frames at time `t_fixed / 256` by
/// blending their bytes; the result carries the later frame's format and
/// HDR metadata and the given timestamp. Frames that cannot be blended
/// give a copy of the later frame.
pub fn cpu_interpolate(prev: &Frame, curr: &Frame, t_fixed: u16, pts: u64) -> (r: Frame)
    requires
        t_fixed <= 256,
    ensures
        blendable(*prev, *curr) ==> {
            &&& r.format == curr.format
            &&& r.pts == pts
            &&& r.hdr_metadata == curr.hdr_metadata
            &&& r.data matches FrameData::Memory(b) && b@.len() == curr.data->Memory_0@.len()
                && forall|i: int|
                0 <= i < b@.len() ==> #[trigger] b@[i] == blend_byte(
                    prev.data->Memory_0@[i],
                    curr.data->Memory_0@[i],
                    t_fixed,
                )
        },
        !blendable(*prev, *curr) ==> duplicates(r, *curr),
{
    let prev_data = match &prev.data {
        FrameData::Memory(d) => d,
        FrameData::DmaBuf { .. } => {
            return duplicate_frame(curr);
        },
    };
    let curr_data = match &curr.data {
        FrameData::Memory(d) => d,
        FrameData::DmaBuf { .. } => {
            return duplicate_frame(curr);
        },
    };
    if prev.format.width != curr.format.width || prev.format.height != curr.format.height
        || prev.format.fourcc != curr.format.fourcc || prev_data.len() != curr_data.len() {
        return duplicate_frame(curr);
    }
    let blended = blend_frames(prev_data, curr_data, t_fixed);
    Frame {
        format: curr.format,
        data: FrameData::Memory(blended),
        pts,
        hdr_metadata: curr.hdr_metadata,
    }
}


/// Encoded video packet
#[derive(Debug, Clone)]
pub struct EncodedPacket {
    /// Encoded data
    pub data: Vec<u8>,
    /// Presentation timestamp
    pub pts: i64,
    /// Decode timestamp
    pub dts: i64,
    /// Is this a keyframe?
    pub keyframe: bool,
}

/// Encoded audio packet
#[derive(Debug, Clone)]
pub struct EncodedAudioPacket {
    /// Encoded data
    pub data: Vec<u8>,
    /// Presentation timestamp
    pub pts: i64,
    /// Decode timestamp
    pub dts: i64,
    /// Duration in time base units
    pub duration: i64,
}

/// Audio encoder parameters
#[derive(Debug, Clone, Copy)]
pub struct AudioEncoderInfo {
    /// Sample rate
    pub sample_rate: u32,
    /// Number of channels
    pub channels: u32,
    /// Samples per frame
    pub frame_size: u32,
}

/// CUDA resource type of the frame-interpolation interface
#[derive(Debug, Clone, Copy, PartialEq, Eq, Structural)]
pub enum NvOFFRUCCUDAResourceType {
    Undefined,
    CuDevicePtr,
    CuArray,
}

/// Resource type of the frame-interpolation interface
#[derive(Debug, Clone, Copy, PartialEq, Eq, Structural)]
pub enum NvOFFRUCResourceType {
    Undefined,
    CudaResource,
    DirectX11Resource,
}

/// Surface format of the frame-interpolation interface
#[derive(Debug, Clone, Copy, PartialEq, Eq, Structural)]
pub enum NvOFFRUCSurfaceFormat {
    Undefined,
    NV12,
    ARGB,
}

impl NvOFFRUCCUDAResourceType {
    /// The value the C interface uses for this type.
    pub fn raw(&self) -> (r: i32)
        ensures
            r == match *self {
                NvOFFRUCCUDAResourceType::Undefined => -1int,
                NvOFFRUCCUDAResourceType::CuDevicePtr => 0,
                NvOFFRUCCUDAResourceType::CuArray => 1,
            },
    {
        match self {
            NvOFFRUCCUDAResourceType::Undefined => -1,
            NvOFFRUCCUDAResourceType::CuDevicePtr => 0,
            NvOFFRUCCUDAResourceType::CuArray => 1,
        }
    }
}

impl NvOFFRUCResourceType {
    /// The value the C interface uses for this type.
    pub fn raw(&self) -> (r: i32)
        ensures
            r == match *self {
                NvOFFRUCResourceType::Undefined => -1int,
                NvOFFRUCResourceType::CudaResource => 0,
                NvOFFRUCResourceType::DirectX11Resource => 1,
            },
    {
        match self {
            NvOFFRUCResourceType::Undefined => -1,
            NvOFFRUCResourceType::CudaResource => 0,
            NvOFFRUCResourceType::DirectX11Resource => 1,
        }
    }
}

impl NvOFFRUCSurfaceFormat {
    /// The value the C interface uses for this format.
    pub fn raw(&self) -> (r: i32)
        ensures
            r == match *self {
                NvOFFRUCSurfaceFormat::Undefined => -1int,
                NvOFFRUCSurfaceFormat::NV12 => 0,
                NvOFFRUCSurfaceFormat::ARGB => 1,
            },
    {
        match self {
            NvOFFRUCSurfaceFormat::Undefined => -1,
            NvOFFRUCSurfaceFormat::NV12 => 0,
            NvOFFRUCSurfaceFormat::ARGB => 1,
        }
    }
}


/// Whether the answer to an nvidia-smi `driver_version` query shows a
/// driver with optical flow support: its major version (the text before
/// the first dot, once trimmed) is at least 418.
pub open spec fn optical_flow_driver(success: bool, stdout: Seq<char>) -> bool {
    success && match parse_unsigned(split_char(trimmed(stdout), '.')[0], u32::MAX as nat) {
        Some(major) => major >= 418,
        None => false,
    }
}

/// Read the answer to an nvidia-smi driver version query: does the driver
/// support optical flow?
pub fn optical_flow_from_driver_query(success: bool, stdout: &str) -> (b: bool)
    ensures
        b == optical_flow_driver(success, stdout@),
{
    if !success {
        return false;
    }
    let cs = chars_of(stdout);
    let t = trim_chars(&cs);
    let parts = split_chars(&t, '.');
    proof {
        lemma_split_char_nonempty(t@, '.');
    }
    match parse_unsigned_chars(&parts[0], u32::MAX as u64) {
        Some(major) => major >= 418,
        None => false,
    }
}

/// Read the answer to an nvidia-smi name query: is it an RTX GPU, which
/// supports Smooth Motion?
pub fn smooth_motion_from_name_query(success: bool, stdout: &str) -> (b: bool)
    ensures
        b == (success && has_sub(trimmed(stdout@), "RTX"@)),
{
    if !success {
        return false;
    }
    let name = trim_text(stdout);
    contains_text(name.as_str(), "RTX")
}

} // verus!
