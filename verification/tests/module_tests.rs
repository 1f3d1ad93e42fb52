use evdev::KeyCode;
use nitrogen_core::capture::{CaptureType, CaptureVideoFormat, DrmCapture, VideoInfo};
use nitrogen_core::encode::{
    cpu_interpolate, pixel_format_from_fourcc, EncoderPixelFormat, FrameGenMode, NvOFFRUC_STATUS,
    TonemapAlgorithm, TonemapConfig, TonemapMode,
};
use nitrogen_core::env::{GamescopeInfo, RuntimeEnvironment, WaylandInfo};
use nitrogen_core::formats::{bytes_per_pixel, fourcc, format_name, fourcc_to_gs_format, is_hdr_format, StreamPixelFormat};
use nitrogen_core::gpu::{detect_generation, GpuGeneration};
use nitrogen_core::hotkeys::{check_hotkey, parse_key, Hotkey, HotkeyAction};
use nitrogen_core::output::{
    safe_url, CameraFrame, StreamConfig, StreamProtocol, WebRTCConfig, DEFAULT_VIRTUAL_MIC_NAME,
};
use nitrogen_core::overlay::{get_char_bitmap, OverlayPosition};
use nitrogen_core::performance::{PerformanceMetrics, RollingAverage};
use nitrogen_core::types::{Frame, FrameData, FrameFormat, HdrMetadata};

#[test]
fn test_capture_type() {
    assert_eq!(CaptureType::Monitor, CaptureType::Monitor);
    assert_ne!(CaptureType::Monitor, CaptureType::Window);
}

#[test]
fn test_drm_not_available() {
    assert!(!DrmCapture::is_available());
}

#[test]
fn test_drm_returns_not_implemented() {
    let result = DrmCapture::new("/dev/dri/card0");
    assert!(result.is_err());
}

#[test]
fn test_frame_gen_mode() {
    assert_eq!(FrameGenMode::Off.multiplier(), 1);
    assert_eq!(FrameGenMode::Double.multiplier(), 2);
    assert_eq!(FrameGenMode::Triple.multiplier(), 3);
    assert_eq!(FrameGenMode::Quadruple.multiplier(), 4);
}

#[test]
fn test_output_fps() {
    assert_eq!(FrameGenMode::Double.output_fps(30), 60);
    assert_eq!(FrameGenMode::Quadruple.output_fps(30), 120);
}

#[test]
fn test_from_str() {
    assert_eq!(FrameGenMode::from_str("2x"), FrameGenMode::Double);
    assert_eq!(FrameGenMode::from_str("off"), FrameGenMode::Off);
    assert_eq!(FrameGenMode::from_str("adaptive"), FrameGenMode::Adaptive);
}

#[test]
fn test_status_error_strings() {
    assert_eq!(NvOFFRUC_STATUS::SUCCESS.to_error_string(), "Success");
    assert_eq!(NvOFFRUC_STATUS::ERR_GENERIC.to_error_string(), "Generic error");
    assert_eq!(
        NvOFFRUC_STATUS::ERR_NOT_SUPPORTED.to_error_string(),
        "Optical flow not supported on this hardware"
    );
}

#[test]
fn test_status_is_success() {
    assert!(NvOFFRUC_STATUS::SUCCESS.is_success());
    assert!(!NvOFFRUC_STATUS::ERR_GENERIC.is_success());
}

#[test]
fn test_tonemap_algorithm_from_str() {
    assert_eq!("reinhard".parse::<TonemapAlgorithm>().unwrap(), TonemapAlgorithm::Reinhard);
    assert_eq!("aces".parse::<TonemapAlgorithm>().unwrap(), TonemapAlgorithm::Aces);
    assert_eq!("hable".parse::<TonemapAlgorithm>().unwrap(), TonemapAlgorithm::Hable);
    assert_eq!("filmic".parse::<TonemapAlgorithm>().unwrap(), TonemapAlgorithm::Hable);
    assert!("invalid".parse::<TonemapAlgorithm>().is_err());
}

#[test]
fn test_tonemap_mode_from_str() {
    assert_eq!("auto".parse::<TonemapMode>().unwrap(), TonemapMode::Auto);
    assert_eq!("on".parse::<TonemapMode>().unwrap(), TonemapMode::On);
    assert_eq!("off".parse::<TonemapMode>().unwrap(), TonemapMode::Off);
    assert_eq!("true".parse::<TonemapMode>().unwrap(), TonemapMode::On);
    assert_eq!("false".parse::<TonemapMode>().unwrap(), TonemapMode::Off);
}

#[test]
fn test_should_tonemap() {
    let config = TonemapConfig::default();
    let sdr_meta = HdrMetadata::sdr();
    assert!(!config.should_tonemap(Some(&sdr_meta)));
    let hdr_meta = HdrMetadata::hdr10();
    assert!(config.should_tonemap(Some(&hdr_meta)));
    assert!(!config.should_tonemap(None));
}

#[test]
fn test_should_tonemap_forced() {
    let mut config = TonemapConfig::default();
    config.mode = TonemapMode::On;
    assert!(config.should_tonemap(None));
    assert!(config.should_tonemap(Some(&HdrMetadata::sdr())));
}

#[test]
fn test_hdr_metadata_peak_luminance() {
    let mut meta = HdrMetadata::hdr10();
    assert_eq!(meta.peak_luminance(), 1000);

    meta.max_cll = Some(500);
    assert_eq!(meta.peak_luminance(), 500);

    meta.max_cll = None;
    meta.mastering_max_luminance = Some(4000);
    assert_eq!(meta.peak_luminance(), 4000);
}

#[test]
fn test_environment_optimizations() {
    let gamescope = RuntimeEnvironment::Gamescope(GamescopeInfo {
        steam_deck: true,
        display: None,
        nested: false,
    });
    let opts = gamescope.optimizations();
    assert!(opts.reduce_latency);
    assert!(opts.fsr_compatible_res);
}

#[test]
fn test_is_gamescope() {
    let gamescope = RuntimeEnvironment::Gamescope(GamescopeInfo {
        steam_deck: false,
        display: None,
        nested: true,
    });
    assert!(gamescope.is_gamescope());

    let wayland = RuntimeEnvironment::NativeWayland(WaylandInfo {
        compositor: "KDE".to_string(),
        display: None,
    });
    assert!(!wayland.is_gamescope());
}

#[test]
fn test_environment_description() {
    let deck = RuntimeEnvironment::Gamescope(GamescopeInfo {
        steam_deck: true,
        display: None,
        nested: false,
    });
    assert!(deck.description().contains("Steam Deck"));

    let kde = RuntimeEnvironment::NativeWayland(WaylandInfo {
        compositor: "KDE Plasma".to_string(),
        display: Some("wayland-0".to_string()),
    });
    assert!(kde.description().contains("KDE"));
}

#[test]
fn test_bytes_per_pixel() {
    assert_eq!(bytes_per_pixel(fourcc::XRGB8888), 4);
    assert_eq!(bytes_per_pixel(fourcc::RGB888), 3);
    assert_eq!(bytes_per_pixel(fourcc::NV12), 2);
}

#[test]
fn test_fourcc_to_gs_format() {
    assert_eq!(fourcc_to_gs_format(fourcc::XRGB8888), StreamPixelFormat::Bgra);
    assert_eq!(fourcc_to_gs_format(fourcc::NV12), StreamPixelFormat::Nv12);
}

#[test]
fn test_is_hdr_format() {
    assert!(!is_hdr_format(fourcc::XRGB8888));
    assert!(is_hdr_format(fourcc::P010));
}

#[test]
fn test_format_name() {
    assert_eq!(format_name(fourcc::XRGB8888), "XRGB8888");
    assert_eq!(format_name(0xDEADBEEF), "Unknown");
}

#[test]
fn test_detect_generation() {
    assert_eq!(detect_generation("NVIDIA GeForce RTX 5090"), GpuGeneration::Blackwell);
    assert_eq!(detect_generation("NVIDIA GeForce RTX 4090"), GpuGeneration::AdaLovelace);
    assert_eq!(detect_generation("NVIDIA GeForce RTX 3080"), GpuGeneration::Ampere);
    assert_eq!(detect_generation("NVIDIA GeForce RTX 2080 Ti"), GpuGeneration::Turing);
    assert_eq!(detect_generation("NVIDIA GeForce GTX 1080"), GpuGeneration::Legacy);
}

#[test]
fn test_generation_capabilities() {
    assert!(GpuGeneration::Blackwell.supports_av1());
    assert!(GpuGeneration::AdaLovelace.supports_av1());
    assert!(!GpuGeneration::Ampere.supports_av1());
    assert!(GpuGeneration::Blackwell.supports_uhq());
    assert!(!GpuGeneration::AdaLovelace.supports_uhq());
}

#[test]
fn test_camera_frame() {
    let frame = CameraFrame {
        data: vec![0; 1920 * 1080 * 4],
        width: 1920,
        height: 1080,
        stride: 1920 * 4,
    };
    assert_eq!(frame.width, 1920);
    assert_eq!(frame.height, 1080);
}

#[test]
fn test_protocol_detection() {
    assert_eq!(
        StreamProtocol::from_url("rtmp://live.twitch.tv/app/key"),
        Some(StreamProtocol::Rtmp)
    );
    assert_eq!(
        StreamProtocol::from_url("rtmps://live.youtube.com/app/key"),
        Some(StreamProtocol::Rtmp)
    );
    assert_eq!(
        StreamProtocol::from_url("srt://localhost:9999"),
        Some(StreamProtocol::Srt)
    );
    assert_eq!(StreamProtocol::from_url("http://example.com"), None);
}

#[test]
fn test_safe_url_masking() {
    assert_eq!(
        safe_url("rtmp://live.twitch.tv/app/secretkey123"),
        "rtmp://live.twitch.tv/app/****"
    );
    assert_eq!(safe_url("srt://localhost:9999"), "srt://localhost:9999");
}

#[test]
fn test_stream_config_default() {
    let config = StreamConfig::default();
    assert_eq!(config.width, 1920);
    assert_eq!(config.height, 1080);
    assert_eq!(config.fps, 30);
    assert!(config.audio_codec.is_some());
}

#[test]
fn test_protocol_format_name() {
    assert_eq!(StreamProtocol::Rtmp.format_name(), "flv");
    assert_eq!(StreamProtocol::Srt.format_name(), "mpegts");
}

#[test]
fn test_default_name() {
    assert_eq!(DEFAULT_VIRTUAL_MIC_NAME, "Nitrogen Audio");
}

#[test]
fn test_webrtc_config_default() {
    let config = WebRTCConfig::default();
    assert!(!config.ice_servers.is_empty());
    assert_eq!(config.video_codec, "h264");
    assert!(config.audio_enabled);
}

#[test]
fn test_overlay_position_parse() {
    assert_eq!(OverlayPosition::from_str("top-left"), OverlayPosition::TopLeft);
    assert_eq!(OverlayPosition::from_str("top-right"), OverlayPosition::TopRight);
    assert_eq!(OverlayPosition::from_str("bottom-left"), OverlayPosition::BottomLeft);
    assert_eq!(OverlayPosition::from_str("br"), OverlayPosition::BottomRight);
    assert_eq!(OverlayPosition::from_str("invalid"), OverlayPosition::TopLeft);
}

#[test]
fn test_char_bitmap() {
    for c in '0'..='9' {
        let bitmap = get_char_bitmap(c);
        assert!(bitmap.iter().any(|&b| b != 0), "Digit {} has empty bitmap", c);
    }
    for c in 'A'..='Z' {
        let bitmap = get_char_bitmap(c);
        assert!(bitmap.iter().any(|&b| b != 0), "Letter {} has empty bitmap", c);
    }
}

#[test]
fn test_parse_hotkey() {
    let hotkey = Hotkey::parse("ctrl+shift+f9", HotkeyAction::Toggle).unwrap();
    assert_eq!(hotkey.key, KeyCode::KEY_F9.code());
    assert!(hotkey.modifiers.contains(&KeyCode::KEY_LEFTCTRL.code()));
    assert!(hotkey.modifiers.contains(&KeyCode::KEY_LEFTSHIFT.code()));
    assert_eq!(hotkey.action, HotkeyAction::Toggle);
}

#[test]
fn test_parse_simple_key() {
    let hotkey = Hotkey::parse("f5", HotkeyAction::Start).unwrap();
    assert_eq!(hotkey.key, KeyCode::KEY_F5.code());
    assert!(hotkey.modifiers.is_empty());
}

#[test]
fn test_parse_key() {
    assert_eq!(parse_key("f9").unwrap(), KeyCode::KEY_F9.code());
    assert_eq!(parse_key("a").unwrap(), KeyCode::KEY_A.code());
    assert_eq!(parse_key("space").unwrap(), KeyCode::KEY_SPACE.code());
    assert!(parse_key("invalid").is_err());
}

#[test]
fn test_check_hotkey() {
    let hotkey = Hotkey::new(
        vec![KeyCode::KEY_LEFTCTRL.code(), KeyCode::KEY_LEFTSHIFT.code()],
        KeyCode::KEY_F9.code(),
        HotkeyAction::Toggle,
    );

    let pressed = vec![KeyCode::KEY_LEFTCTRL.code(), KeyCode::KEY_F9.code()];
    assert!(!check_hotkey(&pressed, &hotkey));

    let pressed = vec![
        KeyCode::KEY_LEFTCTRL.code(),
        KeyCode::KEY_LEFTSHIFT.code(),
        KeyCode::KEY_F9.code(),
    ];
    assert!(check_hotkey(&pressed, &hotkey));

    let pressed = vec![
        KeyCode::KEY_RIGHTCTRL.code(),
        KeyCode::KEY_LEFTSHIFT.code(),
        KeyCode::KEY_F9.code(),
    ];
    assert!(check_hotkey(&pressed, &hotkey));
}

#[test]
fn test_video_info_fourcc() {
    let info = VideoInfo {
        format: CaptureVideoFormat::Bgrx,
        width: 1920,
        height: 1080,
        framerate_num: 60,
        framerate_denom: 1,
    };
    assert_eq!(info.to_fourcc(), 0x34325258);
}

#[test]
fn test_pixel_format_conversion() {
    assert_eq!(pixel_format_from_fourcc(0x34325258), EncoderPixelFormat::Bgra);
    assert_eq!(pixel_format_from_fourcc(0x3231564E), EncoderPixelFormat::Nv12);
}

#[test]
fn test_rolling_average() {
    let mut avg = RollingAverage::new(3);
    avg.add(10_000_000);
    avg.add(20_000_000);
    avg.add(30_000_000);

    assert!((avg.average() as f64 / 1_000_000.0 - 20.0).abs() < 0.1);

    avg.add(40_000_000);
    assert!((avg.average() as f64 / 1_000_000.0 - 30.0).abs() < 0.1);
}

#[test]
fn test_performance_metrics() {
    let mut metrics = PerformanceMetrics::new();

    metrics.record_capture(5_000_000);
    metrics.record_encode(10_000_000);
    metrics.record_output(2_000_000);
    metrics.record_frame_processed();

    assert!(metrics.capture_latency_ns() > 0);
    assert!(metrics.encode_latency_ns() > 0);
    assert_eq!(metrics.frames_processed(), 1);
    assert_eq!(metrics.frames_dropped(), 0);
}

#[test]
fn test_frame_dropping() {
    let mut metrics = PerformanceMetrics::new();

    metrics.record_frame_dropped();
    metrics.record_frame_dropped();
    metrics.record_frame_processed();

    assert_eq!(metrics.frames_dropped(), 2);
    assert_eq!(metrics.frames_processed(), 1);
}

#[test]
fn test_reset() {
    let mut metrics = PerformanceMetrics::new();
    metrics.record_frame_processed();
    metrics.record_frame_dropped();

    metrics.reset();

    assert_eq!(metrics.frames_processed(), 0);
    assert_eq!(metrics.frames_dropped(), 0);
}

fn test_frame(width: u32, height: u32, color: u8) -> Frame {
    let stride = width * 4;
    let size = (stride * height) as usize;
    Frame {
        format: FrameFormat {
            width,
            height,
            fourcc: 0x34325258,
            stride,
        },
        data: FrameData::Memory(vec![color; size]),
        pts: 0,
        hdr_metadata: None,
    }
}

#[test]
fn test_cpu_interpolation_midpoint() {
    let frame1 = test_frame(100, 100, 0);
    let frame2 = test_frame(100, 100, 255);

    let interp = cpu_interpolate(&frame1, &frame2, 128, 0);

    if let FrameData::Memory(data) = &interp.data {
        assert!(data[0] >= 126 && data[0] <= 130, "Expected ~128, got {}", data[0]);
    } else {
        panic!("Expected Memory frame data");
    }
}

#[test]
fn test_cpu_interpolation_quarter() {
    let frame1 = test_frame(100, 100, 0);
    let frame2 = test_frame(100, 100, 200);

    let interp = cpu_interpolate(&frame1, &frame2, 64, 0);

    if let FrameData::Memory(data) = &interp.data {
        assert!(data[0] >= 48 && data[0] <= 52, "Expected ~50, got {}", data[0]);
    } else {
        panic!("Expected Memory frame data");
    }
}
