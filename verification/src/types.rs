//! Core types: session handles, capture sources, frames, audio formats and
//! HDR metadata.

use vstd::prelude::*;
use crate::text::{owned, push_text};

verus! {

/// Opaque handle for a capture session.
#[derive(Debug, Clone, Copy, PartialEq, Eq, Hash, Structural)]
pub struct Handle(pub u64);

impl Handle {
    /// A handle with the given raw value.
    pub fn from_raw(value: u64) -> (h: Self)
        ensures
            h.0 == value,
    {
        Handle(value)
    }

    /// Get the raw handle value
    pub fn as_u64(&self) -> (r: u64)
        ensures
            r == self.0,
    {
        self.0
    }
}

/// Kind of capture source
#[derive(Debug, Clone, Copy, PartialEq, Eq, Hash, Structural)]
pub enum SourceKind {
    /// Full monitor/display capture
    Monitor,
    /// Individual window capture
    Window,
    /// Virtual source (e.g., from another application)
    Virtual,
}

impl SourceKind {
    /// The name of the kind, as it is displayed.
    pub fn display_name(&self) -> (r: &'static str)
        ensures
            r@ == match *self {
                SourceKind::Monitor => "Monitor"@,
                SourceKind::Window => "Window"@,
                SourceKind::Virtual => "Virtual"@,
            },
    {
        match self {
            SourceKind::Monitor => "Monitor",
            SourceKind::Window => "Window",
            SourceKind::Virtual => "Virtual",
        }
    }
}

/// What to capture
#[derive(Debug, Clone, PartialEq, Eq, Hash)]
pub enum CaptureSource {
    /// Capture a monitor by its ID (e.g., "DP-2", "HDMI-1")
    Monitor { id: String },
    /// Capture a specific window
    Window { id: String },
}

impl CaptureSource {
    /// The identifier of the source.
    pub open spec fn id_view(self) -> Seq<char> {
        match self {
            CaptureSource::Monitor { id } => id@,
            CaptureSource::Window { id } => id@,
        }
    }

    /// Create a monitor capture source
    pub fn monitor(id: &str) -> (s: Self)
        ensures
            s is Monitor,
            s.id_view() == id@,
    {
        CaptureSource::Monitor { id: owned(id) }
    }

    /// Create a window capture source
    pub fn window(id: &str) -> (s: Self)
        ensures
            s is Window,
            s.id_view() == id@,
    {
        CaptureSource::Window { id: owned(id) }
    }

    /// Get the source kind
    pub fn kind(&self) -> (k: SourceKind)
        ensures
            k == (if *self is Monitor { SourceKind::Monitor } else { SourceKind::Window }),
    {
        match self {
            CaptureSource::Monitor { .. } => SourceKind::Monitor,
            CaptureSource::Window { .. } => SourceKind::Window,
        }
    }

    /// Get the source ID
    pub fn id(&self) -> (r: &str)
        ensures
            r@ == self.id_view(),
    {
        match self {
            CaptureSource::Monitor { id } => id.as_str(),
            CaptureSource::Window { id } => id.as_str(),
        }
    }

    /// The source as it is displayed: `Monitor(id)` or `Window(id)`.
    pub fn display_text(&self) -> (r: String)
        ensures
            r@ == (if *self is Monitor { "Monitor("@ } else { "Window("@ }) + self.id_view() + ")"@,
    {
        let mut r = String::new();
        match self {
            CaptureSource::Monitor { id } => {
                push_text(&mut r, "Monitor(");
                push_text(&mut r, id.as_str());
            },
            CaptureSource::Window { id } => {
                push_text(&mut r, "Window(");
                push_text(&mut r, id.as_str());
            },
        }
        push_text(&mut r, ")");
        r
    }
}

/// Frame format information
#[derive(Debug, Clone, Copy, PartialEq, Eq, Structural)]
pub struct FrameFormat {
    /// Width in pixels
    pub width: u32,
    /// Height in pixels
    pub height: u32,
    /// Pixel format (DRM fourcc)
    pub fourcc: u32,
    /// Stride in bytes
    pub stride: u32,
}

/// Electro-optical transfer function of video content
#[derive(Debug, Clone, Copy, PartialEq, Eq, Structural)]
pub enum TransferFunction {
    /// Standard dynamic range (BT.709 / sRGB gamma)
    Sdr,
    /// SMPTE ST 2084 perceptual quantizer (HDR10)
    Pq,
    /// Hybrid log-gamma
    Hlg,
}

/// Color primaries of video content
#[derive(Debug, Clone, Copy, PartialEq, Eq, Structural)]
pub enum ColorPrimaries {
    /// BT.709 (SDR)
    Bt709,
    /// BT.2020 (HDR / wide color gamut)
    Bt2020,
    /// DCI-P3 (Display P3)
    DciP3,
}

/// HDR metadata attached to a frame
#[derive(Debug, Clone, Copy, PartialEq, Eq, Structural)]
pub struct HdrMetadata {
    /// Transfer function
    pub transfer: TransferFunction,
    /// Color primaries
    pub primaries: ColorPrimaries,
    /// Maximum content light level in nits
    pub max_cll: Option<u32>,
    /// Maximum frame-average light level in nits
    pub max_fall: Option<u32>,
    /// Mastering display maximum luminance in nits
    pub mastering_max_luminance: Option<u32>,
}

/// Peak luminance assumed when metadata gives none.
pub const DEFAULT_PEAK_LUMINANCE: u32 = 1000;

impl HdrMetadata {
    /// Metadata for SDR content
    pub fn sdr() -> (m: Self)
        ensures
            m.transfer == TransferFunction::Sdr,
            m.primaries == ColorPrimaries::Bt709,
            m.max_cll is None,
            m.max_fall is None,
            m.mastering_max_luminance is None,
    {
        HdrMetadata {
            transfer: TransferFunction::Sdr,
            primaries: ColorPrimaries::Bt709,
            max_cll: None,
            max_fall: None,
            mastering_max_luminance: None,
        }
    }

    /// Metadata for HDR10 content (PQ transfer, BT.2020 primaries)
    pub fn hdr10() -> (m: Self)
        ensures
            m.transfer == TransferFunction::Pq,
            m.primaries == ColorPrimaries::Bt2020,
            m.max_cll is None,
            m.max_fall is None,
            m.mastering_max_luminance is None,
    {
        HdrMetadata {
            transfer: TransferFunction::Pq,
            primaries: ColorPrimaries::Bt2020,
            max_cll: None,
            max_fall: None,
            mastering_max_luminance: None,
        }
    }

    /// Metadata for HLG content (HLG transfer, BT.2020 primaries)
    pub fn hlg() -> (m: Self)
        ensures
            m.transfer == TransferFunction::Hlg,
            m.primaries == ColorPrimaries::Bt2020,
            m.max_cll is None,
            m.max_fall is None,
            m.mastering_max_luminance is None,
    {
        HdrMetadata {
            transfer: TransferFunction::Hlg,
            primaries: ColorPrimaries::Bt2020,
            max_cll: None,
            max_fall: None,
            mastering_max_luminance: None,
        }
    }

    /// Whether the content is HDR (its transfer function is not SDR)
    pub fn is_hdr(&self) -> (r: bool)
        ensures
            r == (self.transfer != TransferFunction::Sdr),
    {
        match self.transfer {
            TransferFunction::Sdr => false,
            _ => true,
        }
    }

    /// Peak luminance in nits: the content light level if known, else the
    /// mastering display maximum, else 1000.
    pub fn peak_luminance(&self) -> (r: u32)
        ensures
            r == match self.max_cll {
                Some(c) => c,
                None => match self.mastering_max_luminance {
                    Some(m) => m,
                    None => DEFAULT_PEAK_LUMINANCE,
                },
            },
    {
        match self.max_cll {
            Some(c) => c,
            None => match self.mastering_max_luminance {
                Some(m) => m,
                None => DEFAULT_PEAK_LUMINANCE,
            },
        }
    }
}

impl Default for HdrMetadata {
    fn default() -> (m: Self)
        ensures
            m.transfer == TransferFunction::Sdr,
            m.primaries == ColorPrimaries::Bt709,
            m.max_cll is None,
            m.max_fall is None,
            m.mastering_max_luminance is None,
    {
        HdrMetadata::sdr()
    }
}

/// Frame data storage
#[derive(Debug)]
pub enum FrameData {
    /// DMA-BUF file descriptor for zero-copy GPU access
    DmaBuf {
        /// File descriptor
        fd: i32,
        /// Offset into the buffer
        offset: u32,
        /// Modifier for tiled formats
        modifier: u64,
    },
    /// CPU-accessible memory
    Memory(Vec<u8>),
}

impl FrameData {
    /// Check if this is a DMA-BUF frame
    pub fn is_dmabuf(&self) -> (r: bool)
        ensures
            r == (*self is DmaBuf),
    {
        match self {
            FrameData::DmaBuf { .. } => true,
            FrameData::Memory(_) => false,
        }
    }

    /// Get the memory data if this is a Memory variant
    pub fn as_memory(&self) -> (r: Option<&[u8]>)
        ensures
            match *self {
                FrameData::Memory(v) => r matches Some(d) && d@ == v@,
                FrameData::DmaBuf { .. } => r is None,
            },
    {
        match self {
            FrameData::Memory(data) => Some(data.as_slice()),
            FrameData::DmaBuf { .. } => None,
        }
    }
}

/// Video frame data
#[derive(Debug)]
pub struct Frame {
    /// Frame format
    pub format: FrameFormat,
    /// Frame data (may be DMA-BUF fd or CPU buffer)
    pub data: FrameData,
    /// Presentation timestamp in nanoseconds
    pub pts: u64,
    /// HDR metadata, if the source provided any
    pub hdr_metadata: Option<HdrMetadata>,
}

/// Audio sample format
#[derive(Debug, Clone, Copy, PartialEq, Eq, Structural)]
pub enum AudioSampleFormat {
    /// 32-bit floating point, little-endian (interleaved)
    F32LE,
    /// 16-bit signed integer, little-endian (interleaved)
    S16LE,
    /// 32-bit signed integer, little-endian (interleaved)
    S32LE,
}

impl AudioSampleFormat {
    /// Bytes per sample
    pub fn bytes_per_sample(&self) -> (r: usize)
        ensures
            r == (if *self == AudioSampleFormat::S16LE { 2usize } else { 4usize }),
    {
        match self {
            AudioSampleFormat::F32LE => 4,
            AudioSampleFormat::S16LE => 2,
            AudioSampleFormat::S32LE => 4,
        }
    }
}

impl Default for AudioSampleFormat {
    fn default() -> (f: Self)
        ensures
            f == AudioSampleFormat::F32LE,
    {
        AudioSampleFormat::F32LE
    }
}

/// Audio format information
#[derive(Debug, Clone, Copy, PartialEq, Eq, Structural)]
pub struct AudioFormat {
    /// Sample rate in Hz (e.g., 48000)
    pub sample_rate: u32,
    /// Number of channels (1=mono, 2=stereo)
    pub channels: u32,
    /// Audio sample format
    pub format: AudioSampleFormat,
}

impl Default for AudioFormat {
    fn default() -> (f: Self)
        ensures
            f.sample_rate == 48000,
            f.channels == 2,
            f.format == AudioSampleFormat::F32LE,
    {
        AudioFormat { sample_rate: 48000, channels: 2, format: AudioSampleFormat::F32LE }
    }
}

impl AudioFormat {
    /// Samples per channel in `total` interleaved samples, truncated to 32 bits.
    pub fn samples_per_channel(&self, total: usize) -> (r: u32)
        requires
            self.channels > 0,
        ensures
            r == ((total / (self.channels as usize)) as u32),
    {
        (total / (self.channels as usize)) as u32
    }

    /// Duration in nanoseconds of `sample_count` samples per channel, rounded down.
    pub fn duration_ns(&self, sample_count: u32) -> (r: u64)
        requires
            self.sample_rate > 0,
        ensures
            r == sample_count as int * 1_000_000_000 / self.sample_rate as int,
    {
        (sample_count as u64 * 1_000_000_000) / self.sample_rate as u64
    }
}

} // verus!
