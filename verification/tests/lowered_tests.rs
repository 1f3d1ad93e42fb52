use nitrogen_core::cli::{
    audio_codec_from_lowered, audio_source_from_lowered, hint_from_lowered, quality_from_lowered,
    tier_from_lowered, tune_from_lowered, DAEMON_HINT, PERMISSION_HINT,
};
use nitrogen_core::config::{
    AudioCodec, AudioSource, Av1Tier, Av1Tune, CaptureConfig, Codec, EncoderPreset, Preset,
};
use nitrogen_core::encode::{FrameGenMode, TonemapAlgorithm, TonemapMode};
use nitrogen_core::gpu::{detect_generation, GpuGeneration};
use nitrogen_core::env::{compositor_from_lowered, low_latency_from_lowered};
use nitrogen_core::hotkeys::{key_from_lowered, Hotkey, HotkeyAction, KEY_F9, KEY_LEFTCTRL};
use nitrogen_core::output::StreamProtocol;
use nitrogen_core::overlay::OverlayPosition;

const NAMED_PRESETS: [Preset; 10] = [
    Preset::P720_30,
    Preset::P720_60,
    Preset::P1080_30,
    Preset::P1080_60,
    Preset::P1440_30,
    Preset::P1440_60,
    Preset::P1440_120,
    Preset::P4k30,
    Preset::P4k60,
    Preset::P4k120,
];

#[test]
fn lowered_codec_and_preset_names() {
    assert_eq!(Codec::from_lowered("hevc"), Some(Codec::Hevc));
    assert_eq!(Codec::from_lowered("avc"), Some(Codec::H264));
    assert_eq!(Codec::from_lowered("HEVC"), None);
    assert_eq!(Preset::from_lowered("2k120"), Some(Preset::P1440_120));
    assert_eq!(Preset::from_lowered("2160p60"), Some(Preset::P4k60));
    assert_eq!(Preset::from_lowered("4K60"), None);
}

#[test]
fn lowered_cli_names() {
    assert_eq!(quality_from_lowered("slow"), Some(EncoderPreset::Slow));
    assert_eq!(quality_from_lowered("Slow"), None);
    assert_eq!(audio_source_from_lowered("microphone"), Some(AudioSource::Microphone));
    assert_eq!(audio_source_from_lowered("speaker"), None);
    assert_eq!(audio_codec_from_lowered("opus"), Some(AudioCodec::Opus));
    assert_eq!(audio_codec_from_lowered("OPUS"), None);
    assert_eq!(tier_from_lowered("high"), Some(Av1Tier::High));
    assert_eq!(tier_from_lowered("HIGH"), None);
    assert_eq!(tune_from_lowered("ull"), Some(Av1Tune::Ull));
    assert_eq!(tune_from_lowered("fast"), None);
}

#[test]
fn lowered_encode_and_overlay_names() {
    assert_eq!(FrameGenMode::from_lowered("3x"), FrameGenMode::Triple);
    assert_eq!(FrameGenMode::from_lowered("TRIPLE"), FrameGenMode::Off);
    assert_eq!(TonemapAlgorithm::from_lowered("filmic"), Some(TonemapAlgorithm::Hable));
    assert_eq!(TonemapAlgorithm::from_lowered("ACES"), None);
    assert_eq!(TonemapMode::from_lowered("yes"), Some(TonemapMode::On));
    assert_eq!(TonemapMode::from_lowered("maybe"), None);
    assert_eq!(OverlayPosition::from_lowered("br"), OverlayPosition::BottomRight);
    assert_eq!(OverlayPosition::from_lowered("BR"), OverlayPosition::TopLeft);
}

#[test]
fn lowered_url_key_hint_and_compositor() {
    assert_eq!(StreamProtocol::from_lowered_url("rtmps://live.example"), Some(StreamProtocol::Rtmp));
    assert_eq!(StreamProtocol::from_lowered_url("srt://host:9000"), Some(StreamProtocol::Srt));
    assert_eq!(StreamProtocol::from_lowered_url("SRT://host:9000"), None);
    assert_eq!(StreamProtocol::from_url("SRT://host:9000"), Some(StreamProtocol::Srt));
    assert_eq!(key_from_lowered("f9"), Some(KEY_F9));
    assert_eq!(key_from_lowered("F9"), None);
    assert_eq!(hint_from_lowered("permission denied on /dev/video10"), Some(PERMISSION_HINT));
    assert_eq!(hint_from_lowered("connection refused"), Some(DAEMON_HINT));
    assert_eq!(hint_from_lowered("Permission denied"), None);
    assert_eq!(compositor_from_lowered("kde").as_deref(), Some("KDE Plasma"));
    assert_eq!(compositor_from_lowered("ubuntu:gnome").as_deref(), Some("GNOME"));
    assert_eq!(compositor_from_lowered("KDE"), None);
    assert_eq!(compositor_from_lowered("xfce"), None);
    assert!(low_latency_from_lowered("kwin"));
    assert!(!low_latency_from_lowered("gnome"));
    assert!(!low_latency_from_lowered("Hyprland"));
}

#[test]
fn lowered_hotkey_string() {
    let h = Hotkey::from_lowered("ctrl + f9", HotkeyAction::Toggle).unwrap();
    assert_eq!(h.key, KEY_F9);
    assert_eq!(h.modifiers, vec![KEY_LEFTCTRL]);
    assert!(Hotkey::from_lowered("ctrl", HotkeyAction::Toggle).is_err());
}

#[test]
fn preset_display_text_reads_back() {
    for p in NAMED_PRESETS {
        assert_eq!(Preset::from_preset_str(&p.display_text()), Some(p));
        assert_eq!(Preset::from_preset_str(&p.display_text().to_ascii_uppercase()), Some(p));
    }
    let custom = Preset::Custom { width: 2560, height: 1600, fps: 100 };
    assert_eq!(custom.display_text(), "2560x1600@100fps");
    assert_eq!(Preset::from_preset_str(&custom.display_text()), None);
    for s in ["1080p60", "2K30", "4k120", "nope", "2160P30"] {
        assert_eq!(Preset::from_preset_str(s), Preset::from_preset_str(&s.to_ascii_uppercase()));
    }
}

#[test]
fn named_preset_rates() {
    let rates: [u64; 10] = [
        27_648_000,
        55_296_000,
        62_208_000,
        124_416_000,
        110_592_000,
        221_184_000,
        442_368_000,
        248_832_000,
        497_664_000,
        995_328_000,
    ];
    for (p, r) in NAMED_PRESETS.iter().zip(rates) {
        assert_eq!(p.width() as u64 * p.height() as u64 * p.fps() as u64, r);
        assert!(p.suggested_bitrate() <= 50_000);
    }
}

fn has(ws: &[String], t: &str) -> bool {
    ws.iter().any(|w| w.contains(t))
}

#[test]
fn validate_warnings_follow_their_conditions() {
    let heavy = CaptureConfig::monitor("m").with_preset(Preset::P4k120).with_codec(Codec::Av1);
    let ws = heavy.validate();
    assert!(has(&ws, "High resolution"));
    assert!(has(&ws, "AV1"));
    assert!(has(&ws, "Discord"));
    assert!(!ws.iter().any(|w| w.starts_with("Bitrate")));

    let fast_hevc = CaptureConfig::monitor("m").with_preset(Preset::P1440_120).with_codec(Codec::Hevc);
    let ws = fast_hevc.validate();
    assert!(!has(&ws, "High resolution"));
    assert!(!has(&ws, "AV1"));
    assert!(has(&ws, "Discord"));

    let low = CaptureConfig::monitor("m").with_preset(Preset::P4k60).with_bitrate(400);
    let ws = low.validate();
    assert!(has(&ws, "below 500 kbps"));
    assert!(!has(&ws, "Discord"));
    assert!(!has(&ws, "High resolution"));
}

#[test]
fn generation_detection_ignores_ascii_case() {
    for (name, g) in [
        ("NVIDIA GeForce RTX 5090", GpuGeneration::Blackwell),
        ("NVIDIA GeForce RTX 4070 Ti", GpuGeneration::AdaLovelace),
        ("nvidia geforce gtx 1660", GpuGeneration::Turing),
        ("Quadro RTX 6000", GpuGeneration::AdaLovelace),
        ("Radeon RX 7900", GpuGeneration::Unknown),
    ] {
        assert_eq!(detect_generation(name), g);
        assert_eq!(detect_generation(&name.to_ascii_lowercase()), g);
        assert_eq!(detect_generation(&name.to_ascii_uppercase()), g);
    }
}
