//! Capture-side types: portal capture types, session information and the
//! DRM capture entry points (not available yet).

use vstd::prelude::*;
use crate::error::NitrogenError;
use crate::types::{CaptureSource, SourceKind};
use crate::text::owned;

verus! {

/// Type of sources to capture
#[derive(Debug, Clone, Copy, PartialEq, Eq, Structural)]
pub enum CaptureType {
    /// Only monitors/displays
    Monitor,
    /// Only windows
    Window,
    /// Both monitors and windows
    Both,
}

/// The portal capture type that a configured source asks for.
pub fn capture_type_for(source: &CaptureSource) -> (t: CaptureType)
    ensures
        t == (if *source is Monitor { CaptureType::Monitor } else { CaptureType::Window }),
{
    match source {
        CaptureSource::Monitor { .. } => CaptureType::Monitor,
        CaptureSource::Window { .. } => CaptureType::Window,
    }
}

/// Information about a started session
#[derive(Debug, Clone, Copy, PartialEq, Eq, Structural)]
pub struct SessionInfo {
    /// PipeWire node ID for the stream
    pub node_id: u32,
    /// Stream width
    pub width: u32,
    /// Stream height
    pub height: u32,
    /// Type of source that was selected
    pub source_type: SourceKind,
}

/// The message of the error that DRM capture reports.
pub const DRM_UNSUPPORTED: &'static str =
    "DRM capture is not yet implemented. Use portal capture (default) instead.";

/// DRM capture source (not implemented yet)
pub struct DrmCapture {
    device_path: String,
}

impl DrmCapture {
    /// Create a new DRM capture source: always an `Unsupported` error.
    pub fn new(device_path: &str) -> (r: Result<DrmCapture, NitrogenError>)
        ensures
            r matches Err(NitrogenError::Unsupported(m)) && m@ == DRM_UNSUPPORTED@,
    {
        Err(NitrogenError::Unsupported(owned(DRM_UNSUPPORTED)))
    }

    /// Check if DRM capture is available on this system: never, for now.
    pub fn is_available() -> (r: bool)
        ensures
            !r,
    {
        false
    }

    /// Get list of available DRM devices: none, for now.
    pub fn list_devices() -> (r: Vec<String>)
        ensures
            r@.len() == 0,
    {
        Vec::new()
    }
}


/// Video formats that a screen-capture stream negotiates.
#[derive(Debug, Clone, Copy, PartialEq, Eq, Structural)]
pub enum CaptureVideoFormat {
    Bgrx,
    Bgra,
    Rgbx,
    Rgba,
    Xrgb,
    Argb,
    Xbgr,
    Abgr,
    Rgb,
    Bgr,
    Yuy2,
    Nv12,
    /// Any other format
    Other,
}

/// Parsed video format information of a capture stream.
#[derive(Debug, Clone, Copy)]
pub struct VideoInfo {
    pub format: CaptureVideoFormat,
    pub width: u32,
    pub height: u32,
    pub framerate_num: u32,
    pub framerate_denom: u32,
}

/// The DRM fourcc of a capture video format (XR24 for formats without one).
pub open spec fn format_fourcc(f: CaptureVideoFormat) -> u32 {
    match f {
        CaptureVideoFormat::Bgrx => 0x34325258,
        CaptureVideoFormat::Bgra => 0x34324142,
        CaptureVideoFormat::Rgbx => 0x34325842,
        CaptureVideoFormat::Rgba => 0x34324241,
        CaptureVideoFormat::Xrgb => 0x34325258,
        CaptureVideoFormat::Argb => 0x34325241,
        CaptureVideoFormat::Xbgr => 0x34324258,
        CaptureVideoFormat::Abgr => 0x34324241,
        CaptureVideoFormat::Rgb => 0x20424752,
        CaptureVideoFormat::Bgr => 0x20524742,
        CaptureVideoFormat::Yuy2 => 0x56595559,
        CaptureVideoFormat::Nv12 => 0x3231564E,
        CaptureVideoFormat::Other => 0x34325258,
    }
}

impl VideoInfo {
    /// Convert the stream's video format to a DRM fourcc
    pub fn to_fourcc(&self) -> (r: u32)
        ensures
            r == format_fourcc(self.format),
    {
        match self.format {
            CaptureVideoFormat::Bgrx => 0x34325258,
            CaptureVideoFormat::Bgra => 0x34324142,
            CaptureVideoFormat::Rgbx => 0x34325842,
            CaptureVideoFormat::Rgba => 0x34324241,
            CaptureVideoFormat::Xrgb => 0x34325258,
            CaptureVideoFormat::Argb => 0x34325241,
            CaptureVideoFormat::Xbgr => 0x34324258,
            CaptureVideoFormat::Abgr => 0x34324241,
            CaptureVideoFormat::Rgb => 0x20424752,
            CaptureVideoFormat::Bgr => 0x20524742,
            CaptureVideoFormat::Yuy2 => 0x56595559,
            CaptureVideoFormat::Nv12 => 0x3231564E,
            CaptureVideoFormat::Other => 0x34325258,
        }
    }
}

} // verus!
