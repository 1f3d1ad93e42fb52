//! DRM format fourcc constants (see the kernel's `drm_fourcc.h`).

use vstd::prelude::*;

verus! {

/// XRGB8888 - 32-bit RGB with unused alpha (X = ignored)
pub const XRGB8888: u32 = 0x34325258;
/// XBGR8888 - 32-bit BGR with unused alpha
pub const XBGR8888: u32 = 0x34324258;
/// ARGB8888 - 32-bit RGB with alpha
pub const ARGB8888: u32 = 0x34325241;
/// ABGR8888 - 32-bit BGR with alpha
pub const ABGR8888: u32 = 0x34324142;
/// RGBA8888 - 32-bit RGBA
pub const RGBA8888: u32 = 0x34324241;
/// RGBX8888 - 32-bit RGB with padding
pub const RGBX8888: u32 = 0x34324152;
/// BGRX8888 - 32-bit BGR with padding
pub const BGRX8888: u32 = 0x34325842;
/// BGRA8888 - 32-bit BGRA
pub const BGRA8888: u32 = 0x41524742;
/// RGB888 - 24-bit RGB
pub const RGB888: u32 = 0x20424752;
/// BGR888 - 24-bit BGR
pub const BGR888: u32 = 0x20524742;
/// NV12 - YUV 4:2:0 semi-planar
pub const NV12: u32 = 0x3231564E;
/// YUY2/YUYV - YUV 4:2:2 packed
pub const YUY2: u32 = 0x56595559;
/// P010 - 10-bit YUV 4:2:0 (HDR)
pub const P010: u32 = 0x30313050;

} // verus!
