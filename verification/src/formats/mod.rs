//! Pixel format helpers keyed by DRM fourcc codes.

use vstd::prelude::*;

pub mod fourcc;

use self::fourcc::{
    XRGB8888, XBGR8888, ARGB8888, ABGR8888, RGBA8888, RGBX8888, BGRX8888, BGRA8888, RGB888,
    BGR888, NV12, YUY2, P010,
};

verus! {

/// Pixel layouts of the streaming backend that frames are handed to.
#[derive(Debug, Clone, Copy, PartialEq, Eq, Structural)]
pub enum StreamPixelFormat {
    /// 8-bit BGRA (also used for XRGB and ARGB inputs)
    Bgra,
    /// 8-bit RGBA
    Rgba,
    /// YUV 4:2:0 semi-planar
    Nv12,
}

/// Bytes per pixel of a fourcc format (4 for unknown formats).
pub open spec fn spec_bytes_per_pixel(f: u32) -> u32 {
    if f == RGB888 || f == BGR888 {
        3
    } else if f == NV12 || f == YUY2 || f == P010 {
        2
    } else {
        4
    }
}

/// Get the bytes per pixel for a fourcc format
///
/// Returns the number of bytes per pixel, or 4 as a safe default for unknown formats.
pub fn bytes_per_pixel(fourcc: u32) -> (r: u32)
    ensures
        r == spec_bytes_per_pixel(fourcc),
{
    if fourcc == XRGB8888 || fourcc == XBGR8888 || fourcc == ARGB8888 || fourcc == ABGR8888
        || fourcc == RGBA8888 || fourcc == RGBX8888 || fourcc == BGRX8888 || fourcc == BGRA8888 {
        4
    } else if fourcc == RGB888 || fourcc == BGR888 {
        3
    } else if fourcc == NV12 {
        2
    } else if fourcc == YUY2 {
        2
    } else if fourcc == P010 {
        2
    } else {
        4
    }
}

/// Check if a fourcc format is HDR-capable (10-bit or higher)
pub fn is_hdr_format(fourcc: u32) -> (r: bool)
    ensures
        r == (fourcc == P010),
{
    fourcc == P010
}

/// The streaming pixel layout for a fourcc format (BGRA for unknown formats).
pub open spec fn spec_stream_format(f: u32) -> StreamPixelFormat {
    if f == RGBA8888 || f == RGBX8888 {
        StreamPixelFormat::Rgba
    } else if f == NV12 {
        StreamPixelFormat::Nv12
    } else {
        StreamPixelFormat::Bgra
    }
}

/// Convert DRM fourcc to the streaming backend's pixel layout
pub fn fourcc_to_gs_format(fourcc: u32) -> (r: StreamPixelFormat)
    ensures
        r == spec_stream_format(fourcc),
{
    if fourcc == XRGB8888 || fourcc == XBGR8888 || fourcc == BGRX8888 {
        StreamPixelFormat::Bgra
    } else if fourcc == ARGB8888 || fourcc == ABGR8888 || fourcc == BGRA8888 {
        StreamPixelFormat::Bgra
    } else if fourcc == RGBA8888 || fourcc == RGBX8888 {
        StreamPixelFormat::Rgba
    } else if fourcc == NV12 {
        StreamPixelFormat::Nv12
    } else {
        StreamPixelFormat::Bgra
    }
}

/// The name of a fourcc format.
pub open spec fn spec_format_name(f: u32) -> Seq<char> {
    if f == XRGB8888 {
        "XRGB8888"@
    } else if f == XBGR8888 {
        "XBGR8888"@
    } else if f == ARGB8888 {
        "ARGB8888"@
    } else if f == ABGR8888 {
        "ABGR8888"@
    } else if f == RGBA8888 {
        "RGBA8888"@
    } else if f == RGBX8888 {
        "RGBX8888"@
    } else if f == BGRX8888 {
        "BGRX8888"@
    } else if f == BGRA8888 {
        "BGRA8888"@
    } else if f == RGB888 {
        "RGB888"@
    } else if f == BGR888 {
        "BGR888"@
    } else if f == NV12 {
        "NV12"@
    } else if f == YUY2 {
        "YUY2"@
    } else if f == P010 {
        "P010"@
    } else {
        "Unknown"@
    }
}

/// Format information for debugging
pub fn format_name(fourcc: u32) -> (r: &'static str)
    ensures
        r@ == spec_format_name(fourcc),
{
    if fourcc == XRGB8888 {
        "XRGB8888"
    } else if fourcc == XBGR8888 {
        "XBGR8888"
    } else if fourcc == ARGB8888 {
        "ARGB8888"
    } else if fourcc == ABGR8888 {
        "ABGR8888"
    } else if fourcc == RGBA8888 {
        "RGBA8888"
    } else if fourcc == RGBX8888 {
        "RGBX8888"
    } else if fourcc == BGRX8888 {
        "BGRX8888"
    } else if fourcc == BGRA8888 {
        "BGRA8888"
    } else if fourcc == RGB888 {
        "RGB888"
    } else if fourcc == BGR888 {
        "BGR888"
    } else if fourcc == NV12 {
        "NV12"
    } else if fourcc == YUY2 {
        "YUY2"
    } else if fourcc == P010 {
        "P010"
    } else {
        "Unknown"
    }
}

} // verus!
