use nitrogen_core::config::{CaptureConfig, Codec, EncoderPreset, Preset};
use nitrogen_core::formats::StreamPixelFormat;
use nitrogen_core::pipeline::{fourcc_to_gs_format, PipelineState};

#[test]
fn test_capture_config_for_discord_1440p60() {
    let config = CaptureConfig::monitor("portal")
        .with_preset(Preset::P1440_60)
        .with_codec(Codec::H264)
        .with_encoder_preset(EncoderPreset::Fast);

    let (width, height) = config.preset.resolution();
    assert_eq!(width, 2560);
    assert_eq!(height, 1440);
    assert_eq!(config.preset.fps(), 60);

    let bitrate = config.effective_bitrate();
    assert!(bitrate >= 8000);
    assert!(bitrate <= 20000);

    assert!(config.validate_strict().is_ok());
}

#[test]
fn test_capture_config_for_discord_1440p30() {
    let config = CaptureConfig::monitor("portal")
        .with_preset(Preset::P1440_30)
        .with_codec(Codec::H264);

    let (width, height) = config.preset.resolution();
    assert_eq!(width, 2560);
    assert_eq!(height, 1440);
    assert_eq!(config.preset.fps(), 30);

    let bitrate = config.effective_bitrate();
    assert!(bitrate >= 4000);
    assert!(bitrate <= 12000);
}

#[test]
fn test_capture_config_for_discord_1080p60() {
    let config = CaptureConfig::monitor("portal")
        .with_preset(Preset::P1080_60)
        .with_codec(Codec::H264);

    let (width, height) = config.preset.resolution();
    assert_eq!(width, 1920);
    assert_eq!(height, 1080);
    assert_eq!(config.preset.fps(), 60);

    let warnings = config.validate();
    assert!(!warnings
        .iter()
        .any(|w| w.contains("Discord") && w.contains("720p")));
}

#[test]
fn test_capture_config_with_recording() {
    let config = CaptureConfig::monitor("portal")
        .with_preset(Preset::P1080_60)
        .with_record_path("/tmp/test.mp4");

    assert!(config.record_path.is_some());
    assert_eq!(config.record_path.as_deref(), Some("/tmp/test.mp4"));
}

#[test]
fn test_all_preset_bitrates_reasonable() {
    let presets = [
        Preset::P720_30,
        Preset::P720_60,
        Preset::P1080_30,
        Preset::P1080_60,
        Preset::P1440_30,
        Preset::P1440_60,
        Preset::P1440_120,
        Preset::P4k30,
        Preset::P4k60,
        Preset::P4k120,
    ];

    for preset in presets {
        let bitrate = preset.suggested_bitrate();
        let (width, height) = preset.resolution();
        let fps = preset.fps();

        assert!(bitrate > 0, "Preset {:?} should have positive bitrate", preset);
        assert!(
            bitrate <= 100_000,
            "Preset {:?} bitrate {} seems unreasonably high",
            preset,
            bitrate
        );

        if width <= 1280 {
            assert!(bitrate >= 2000 && bitrate <= 10000, "720p bitrate should be 2-10 Mbps");
        } else if width <= 1920 {
            assert!(bitrate >= 4000 && bitrate <= 15000, "1080p bitrate should be 4-15 Mbps");
        } else if width <= 2560 {
            assert!(bitrate >= 6000 && bitrate <= 30000, "1440p bitrate should be 6-30 Mbps");
        } else {
            assert!(bitrate >= 10000, "4K bitrate should be at least 10 Mbps");
        }

        println!("Preset {:?}: {}x{} @ {}fps = {} kbps", preset, width, height, fps, bitrate);
    }
}

#[test]
fn test_codec_recommendations() {
    let config = CaptureConfig::monitor("test").with_codec(Codec::H264);
    let warnings = config.validate();
    assert!(!warnings
        .iter()
        .any(|w| w.contains("codec") && w.contains("compatible")));

    let config = CaptureConfig::monitor("test").with_codec(Codec::Av1);
    let _ = config.validate();
}

#[test]
fn test_encoder_preset_quality_tradeoff() {
    let fast_preset = EncoderPreset::Fast.nvenc_preset();
    assert_eq!(fast_preset, "p1");

    let quality_preset = EncoderPreset::Quality.nvenc_preset();
    assert_eq!(quality_preset, "p7");

    let fast_num: i32 = fast_preset.trim_start_matches('p').parse().unwrap();
    let quality_num: i32 = quality_preset.trim_start_matches('p').parse().unwrap();
    assert!(quality_num > fast_num);
}

#[test]
fn test_pipeline_state() {
    assert_eq!(PipelineState::Idle, PipelineState::Idle);
    assert_ne!(PipelineState::Idle, PipelineState::Running);
}

#[test]
fn test_fourcc_conversion() {
    assert_eq!(fourcc_to_gs_format(0x34325258), StreamPixelFormat::Bgra);
    assert_eq!(fourcc_to_gs_format(0x3231564E), StreamPixelFormat::Nv12);
}
