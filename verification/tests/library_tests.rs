use evdev::KeyCode;
use nitrogen_core::config::{Av1Config, CaptureConfig};
use nitrogen_core::encode::EncoderPixelFormat;
use nitrogen_core::frame_copy::copy_frame_data;
use nitrogen_core::gpu::get_recommended_av1_settings;
use nitrogen_core::mixer::{
    mix_route, mixer_inputs, MixBuffers, MixEvent, MixOutput, MixRoute, MIXER_NEEDS_SOURCE,
};
use nitrogen_core::nvenc::nvenc_plan;
use nitrogen_core::output::{
    connection_lost, fill_mic_buffer, stream_audio_format, AvChannels, StreamProtocol, StreamSampleFormat,
    COPY_AUDIO_REFUSED,
};
use nitrogen_core::overlay::{box_origin, draw_rect, OverlayPosition};
use nitrogen_core::performance::{GpuStats, PerformanceMetrics};
use nitrogen_core::audio_encoder::{
    audio_encoder_plan, channel_layout, frame_size_or_default, ChannelLayout, COPY_NOT_ENCODABLE,
};
use nitrogen_core::cli::{
    cast_config, cast_gpu, cast_wants_gpu_query, generic_hint, init_writes, parse_audio_codec,
    parse_audio_source, parse_av1_chroma, parse_av1_tier, parse_av1_tune, parse_quality,
    parse_resolution, stop_request, truncate, CastArgs, StopArgs, DAEMON_HINT, NVIDIA_HINT,
    PERMISSION_HINT,
};
use nitrogen_core::config::{
    AudioCodec, AudioSettings, AudioSource, Av1Tier, Av1Tune, CameraSettings, ChromaFormat, Codec,
    CursorMode, DefaultSettings, EncoderPreset, EncoderSettings, Preset,
};
use nitrogen_core::encode::{
    blend_frames, duplicate_frame, gpu_info_from_query, motion_slots, FrameGenMode, MotionSlot,
};
use nitrogen_core::error::NitrogenError;
use nitrogen_core::gpu::{detect_generation, detect_rtx50_features, gpu_name_from_query, GpuGeneration};
use nitrogen_core::hotkeys::{
    check_hotkey, default_hotkeys, key_event, Hotkey, HotkeyAction, KEY_F10, KEY_F9, KEY_LEFTCTRL,
    KEY_RIGHTSHIFT,
};
use nitrogen_core::ipc::{
    frame_line, line_payload, read_reply, reply_to, socket_path_for, IpcMessage, ReplyKind,
};
use nitrogen_core::performance::{gpu_stats_from_query, RollingAverage};
use nitrogen_core::pipeline::{receive_transition, start_transition, stop_transition, PipelineState, RecvOutcome};
use nitrogen_core::scene::luma_histograms;
use nitrogen_core::text::{split_at_comma_space, string_from_chars};
use nitrogen_core::types::{AudioFormat, AudioSampleFormat, CaptureSource, Frame, FrameData, FrameFormat};

fn file_sections() -> (DefaultSettings, EncoderSettings, CameraSettings, AudioSettings) {
    (
        DefaultSettings::default(),
        EncoderSettings::default(),
        CameraSettings::default(),
        AudioSettings::default(),
    )
}

fn not_queried() -> Result<String, NitrogenError> {
    Err(NitrogenError::nvenc("not queried"))
}

#[test]
fn cast_with_defaults_builds_default_configuration() {
    let (d, e, c, a) = file_sections();
    let cfg = cast_config(&CastArgs::default(), &d, &e, &c, &a, not_queried()).unwrap();
    assert_eq!(cfg.preset, Preset::P1080_60);
    assert_eq!(cfg.codec, Codec::H264);
    assert_eq!(cfg.bitrate, 0);
    assert_eq!(cfg.encoder_preset, EncoderPreset::Medium);
    assert_eq!(cfg.camera_name, "Nitrogen Camera");
    assert!(cfg.low_latency);
    assert_eq!(cfg.gpu, 0);
    assert!(cfg.record_path.is_none());
    assert_eq!(cfg.cursor_mode, CursorMode::Embedded);
    assert_eq!(cfg.audio_source, AudioSource::NoAudio);
    assert_eq!(cfg.audio_codec, AudioCodec::Aac);
    assert_eq!(cfg.source, CaptureSource::monitor("portal"));
}

#[test]
fn cast_takes_file_values_for_options_left_at_default() {
    let (mut d, mut e, mut c, mut a) = file_sections();
    d.preset = "720p30".to_string();
    d.codec = "hevc".to_string();
    d.bitrate = 4000;
    d.low_latency = false;
    e.quality = "slow".to_string();
    e.gpu = 2;
    c.name = "Desk Cam".to_string();
    a.source = "mic".to_string();
    a.codec = "opus".to_string();
    a.bitrate = 96;
    let cfg = cast_config(&CastArgs::default(), &d, &e, &c, &a, not_queried()).unwrap();
    assert_eq!(cfg.preset, Preset::P720_30);
    assert_eq!(cfg.codec, Codec::Hevc);
    assert_eq!(cfg.bitrate, 4000);
    assert!(!cfg.low_latency);
    assert_eq!(cfg.encoder_preset, EncoderPreset::Slow);
    assert_eq!(cfg.gpu, 2);
    assert_eq!(cfg.camera_name, "Desk Cam");
    assert_eq!(cfg.audio_source, AudioSource::Microphone);
    assert_eq!(cfg.audio_codec, AudioCodec::Opus);
    assert_eq!(cfg.audio_bitrate, 96);

    let mut o = CastArgs::default();
    o.preset = "4k30".to_string();
    o.gpu = 1;
    o.window = Some("firefox".to_string());
    let cfg = cast_config(&o, &d, &e, &c, &a, not_queried()).unwrap();
    assert_eq!(cfg.preset, Preset::P4k30);
    assert_eq!(cfg.gpu, 1);
    assert_eq!(cfg.source, CaptureSource::window("firefox"));
    assert_eq!(cast_gpu(&o, &e), 1);
}

#[test]
fn cast_custom_resolution_and_fps() {
    let (d, e, c, a) = file_sections();
    let mut o = CastArgs::default();
    o.resolution = Some("2561x1601".to_string());
    o.fps = Some(100);
    let cfg = cast_config(&o, &d, &e, &c, &a, not_queried()).unwrap();
    assert_eq!(cfg.preset, Preset::Custom { width: 2560, height: 1600, fps: 100 });

    let mut o = CastArgs::default();
    o.preset = "720p30".to_string();
    o.fps = Some(45);
    let cfg = cast_config(&o, &d, &e, &c, &a, not_queried()).unwrap();
    assert_eq!(cfg.preset, Preset::Custom { width: 1280, height: 720, fps: 45 });
}

#[test]
fn cast_errors_come_in_order() {
    let (d, e, c, a) = file_sections();
    let mut o = CastArgs::default();
    o.preset = "8k".to_string();
    o.codec = "vp9".to_string();
    let err = cast_config(&o, &d, &e, &c, &a, not_queried()).unwrap_err();
    assert_eq!(
        err,
        "Invalid preset '8k'. Valid options: 720p30, 720p60, 1080p30, 1080p60, 1440p30, 1440p60, 1440p120, 4k30, 4k60, 4k120"
    );

    o.preset = "1080p30".to_string();
    let err = cast_config(&o, &d, &e, &c, &a, not_queried()).unwrap_err();
    assert_eq!(err, "Invalid codec 'vp9'. Valid options: h264, hevc, av1");

    let mut o = CastArgs::default();
    o.quality = "best".to_string();
    let err = cast_config(&o, &d, &e, &c, &a, not_queried()).unwrap_err();
    assert_eq!(err, "Invalid quality 'best'. Valid options: fast, medium, slow, quality");

    let mut o = CastArgs::default();
    o.audio = "speakers".to_string();
    let err = cast_config(&o, &d, &e, &c, &a, not_queried()).unwrap_err();
    assert_eq!(err, "Invalid audio source 'speakers'. Valid options: none, desktop, mic, both");

    let mut o = CastArgs::default();
    o.audio_codec = "mp3".to_string();
    let err = cast_config(&o, &d, &e, &c, &a, not_queried()).unwrap_err();
    assert_eq!(err, "Invalid audio codec 'mp3'. Valid options: aac, opus");

    let mut o = CastArgs::default();
    o.fps = Some(500);
    let err = cast_config(&o, &d, &e, &c, &a, not_queried()).unwrap_err();
    assert_eq!(err, "Invalid configuration: Framerate 500 exceeds maximum supported (240)");

    let mut o = CastArgs::default();
    o.resolution = Some("wide".to_string());
    let err = cast_config(&o, &d, &e, &c, &a, not_queried()).unwrap_err();
    assert_eq!(err, "Invalid resolution 'wide'. Use format WIDTHxHEIGHT (e.g., 1920x1080)");
}

#[test]
fn cast_av1_settings_and_detection() {
    let (d, e, c, a) = file_sections();
    let mut o = CastArgs::default();
    o.codec = "AV1".to_string();
    o.av1_tier = "high".to_string();
    o.av1_tune = "ULL".to_string();
    o.av1_chroma = "444".to_string();
    o.av1_gop = Some(90);
    let cfg = cast_config(&o, &d, &e, &c, &a, not_queried()).unwrap();
    assert_eq!(cfg.codec, Codec::Av1);
    assert_eq!(cfg.av1.tier, Av1Tier::High);
    assert_eq!(cfg.av1.tune, Av1Tune::Ull);
    assert_eq!(cfg.av1.chroma, ChromaFormat::Yuv444);
    assert_eq!(cfg.av1.gop_length, Some(90));
    assert!(!cast_wants_gpu_query(&o, &d));

    o.av1_chroma = "4:2:0".to_string();
    let err = cast_config(&o, &d, &e, &c, &a, not_queried()).unwrap_err();
    assert_eq!(err, "Invalid AV1 chroma format '4:2:0'. Valid options: 420, 422, 444");

    let mut o = CastArgs::default();
    o.codec = "av1".to_string();
    o.av1_auto = true;
    o.av1_chroma = "422".to_string();
    assert!(cast_wants_gpu_query(&o, &d));
    let cfg = cast_config(&o, &d, &e, &c, &a, Ok("NVIDIA GeForce RTX 5080".to_string())).unwrap();
    assert_eq!(cfg.av1.tune, Av1Tune::Uhq);
    assert!(cfg.av1.temporal_aq);
    assert!(cfg.av1.b_ref_mode);
    assert_eq!(cfg.av1.chroma, ChromaFormat::Yuv422);
    assert_eq!(cfg.av1.lookahead_depth, 100);

    let cfg = cast_config(&o, &d, &e, &c, &a, Ok("NVIDIA GeForce RTX 4070".to_string())).unwrap();
    assert_eq!(cfg.av1.tune, Av1Tune::Hq);
    assert_eq!(cfg.av1.chroma, ChromaFormat::Yuv420);
    assert_eq!(cfg.av1.lookahead_depth, 20);

    let cfg = cast_config(&o, &d, &e, &c, &a, not_queried()).unwrap();
    assert_eq!(cfg.av1.chroma, ChromaFormat::Yuv422);
    assert_eq!(cfg.av1.tune, Av1Tune::Hq);

    let mut o = CastArgs::default();
    o.av1_tier = "ultra".to_string();
    assert!(cast_config(&o, &d, &e, &c, &a, not_queried()).is_ok());
}

#[test]
fn option_parsers_ignore_case_and_report_the_text() {
    assert_eq!(parse_quality("QUALITY").unwrap(), EncoderPreset::Quality);
    assert_eq!(parse_audio_source("Microphone").unwrap(), AudioSource::Microphone);
    assert_eq!(parse_audio_source("both").unwrap(), AudioSource::Both);
    assert_eq!(parse_audio_codec("Opus").unwrap(), AudioCodec::Opus);
    assert_eq!(parse_av1_tier("Main").unwrap(), Av1Tier::Main);
    assert_eq!(parse_av1_tune("lossless").unwrap(), Av1Tune::Lossless);
    assert_eq!(parse_av1_chroma("420").unwrap(), ChromaFormat::Yuv420);
    assert_eq!(
        parse_av1_tier("Low").unwrap_err(),
        "Invalid AV1 tier 'Low'. Valid options: main, high"
    );
    assert_eq!(
        parse_av1_tune("x").unwrap_err(),
        "Invalid AV1 tune 'x'. Valid options: hq, uhq, ll, ull, lossless"
    );
}

#[test]
fn resolution_parsing() {
    assert_eq!(parse_resolution("1920x1080").unwrap(), (1920, 1080));
    assert_eq!(parse_resolution(" 1921 x 1081 ").unwrap(), (1920, 1080));
    assert_eq!(
        parse_resolution("1920").unwrap_err(),
        "Invalid resolution '1920'. Use format WIDTHxHEIGHT (e.g., 1920x1080)"
    );
    assert_eq!(parse_resolution("ax1080").unwrap_err(), "Invalid width 'a' in resolution");
    assert_eq!(parse_resolution("1920xb").unwrap_err(), "Invalid height 'b' in resolution");
    assert_eq!(
        parse_resolution("0x1080").unwrap_err(),
        "Resolution dimensions must be greater than 0"
    );
    assert_eq!(
        parse_resolution("8000x1000").unwrap_err(),
        "Resolution 8000x1000 exceeds maximum (7680x4320)"
    );
}

#[test]
fn truncation_keeps_short_names_and_cuts_long_ones() {
    assert_eq!(truncate("DP-1", 10), "DP-1");
    assert_eq!(truncate("0123456789", 10), "0123456789");
    assert_eq!(truncate("Very long monitor name", 10), "Very lo...");
}

#[test]
fn generic_hints() {
    assert_eq!(generic_hint("Permission Denied (os error 13)"), Some(PERMISSION_HINT));
    assert_eq!(generic_hint("Connection refused"), Some(DAEMON_HINT));
    assert_eq!(generic_hint("No such file: socket"), Some(DAEMON_HINT));
    assert_eq!(generic_hint("NVENC init failed"), Some(NVIDIA_HINT));
    assert_eq!(generic_hint("something else"), None);
}

#[test]
fn stop_and_init_decisions() {
    assert_eq!(stop_request(&StopArgs { force: true }), IpcMessage::ForceStop);
    assert_eq!(stop_request(&StopArgs { force: false }), IpcMessage::Stop);
    assert!(init_writes(false, false));
    assert!(!init_writes(true, false));
    assert!(init_writes(true, true));
}

#[test]
fn hotkey_parsing_and_matching() {
    let h = Hotkey::parse(" Control + ALT + Win + Home ", HotkeyAction::Pause).unwrap();
    assert_eq!(h.key, KeyCode::KEY_HOME.code());
    assert_eq!(h.modifiers.len(), 3);
    let pressed = vec![
        KeyCode::KEY_RIGHTCTRL.code(),
        KeyCode::KEY_RIGHTALT.code(),
        KeyCode::KEY_RIGHTMETA.code(),
        KeyCode::KEY_HOME.code(),
    ];
    assert!(check_hotkey(&pressed, &h));
    let pressed = vec![KeyCode::KEY_LEFTCTRL.code(), KeyCode::KEY_HOME.code()];
    assert!(!check_hotkey(&pressed, &h));

    let h = Hotkey::parse("ctrl+ctrl+kp5", HotkeyAction::Stop).unwrap();
    assert_eq!(h.modifiers, vec![KeyCode::KEY_LEFTCTRL.code()]);
    assert_eq!(h.key, KeyCode::KEY_KP5.code());

    match Hotkey::parse("ctrl+shift", HotkeyAction::Toggle) {
        Err(NitrogenError::Config(m)) => assert_eq!(m, "No key specified in hotkey"),
        _ => panic!("expected a configuration error"),
    }
    match Hotkey::parse("ctrl+hyper+f1", HotkeyAction::Toggle) {
        Err(NitrogenError::Config(m)) => assert_eq!(m, "Unknown key: hyper"),
        _ => panic!("expected a configuration error"),
    }

    let defaults = default_hotkeys();
    assert_eq!(defaults.len(), 3);
    assert_eq!(defaults[0].key, KeyCode::KEY_F9.code());
    assert_eq!(defaults[1].action, HotkeyAction::Pause);
    assert_eq!(defaults[2].key, KeyCode::KEY_F11.code());
    let own = vec![KeyCode::KEY_LEFTCTRL.code(), KeyCode::KEY_LEFTSHIFT.code(), KeyCode::KEY_F11.code()];
    assert!(check_hotkey(&own, &defaults[2]));
}

#[test]
fn ipc_socket_paths() {
    assert_eq!(socket_path_for(Some("/run/user/1000"), 7), "/run/user/1000/nitrogen.sock");
    assert_eq!(socket_path_for(Some("/run/user/1000/"), 7), "/run/user/1000/nitrogen.sock");
    assert_eq!(socket_path_for(Some(""), 7), "nitrogen.sock");
    assert_eq!(socket_path_for(None, 1000), "/tmp/nitrogen-1000.sock");
}

#[test]
fn ipc_daemon_answers_as_client_expects() {
    for msg in [IpcMessage::Ping, IpcMessage::Status, IpcMessage::Stats, IpcMessage::Stop, IpcMessage::ForceStop] {
        let (reply, stops) = reply_to(msg, true);
        assert_eq!(read_reply(msg, reply).unwrap(), true);
        assert_eq!(stops, matches!(msg, IpcMessage::Stop | IpcMessage::ForceStop));
    }
    let (reply, stops) = reply_to(IpcMessage::Stats, false);
    assert!(!stops);
    match read_reply(IpcMessage::Stats, reply) {
        Err(NitrogenError::Config(m)) => assert_eq!(m, "No active pipeline"),
        _ => panic!("expected the daemon's error"),
    }
    assert_eq!(read_reply(IpcMessage::Ping, ReplyKind::Ack).unwrap(), false);
    match read_reply(IpcMessage::Stop, ReplyKind::Pong) {
        Err(NitrogenError::Config(m)) => assert_eq!(m, "Unexpected response"),
        _ => panic!("expected an unexpected-response error"),
    }
}

#[test]
fn gpu_queries_are_read_from_nvidia_smi_output() {
    let info = gpu_info_from_query(true, "NVIDIA GeForce RTX 4090, 24564, 550.54.14\n").unwrap();
    assert_eq!(info.name, "NVIDIA GeForce RTX 4090");
    assert_eq!(info.vram_mb, 24564);
    assert_eq!(info.driver_version, "550.54.14");
    assert!(gpu_info_from_query(false, "a, 1, b").is_none());
    assert!(gpu_info_from_query(true, "a,1,b").is_none());
    let info = gpu_info_from_query(true, "a, lots, b").unwrap();
    assert_eq!(info.vram_mb, 0);

    let (stats, power) = gpu_stats_from_query(true, "61, 215.37, 40, 3000, 24564, 12").unwrap();
    assert_eq!(stats.temperature, 61);
    assert_eq!(power, "215.37");
    assert_eq!(stats.utilization, 40);
    assert_eq!(stats.vram_used_mb, 3000);
    assert_eq!(stats.vram_total_mb, 24564);
    assert_eq!(stats.encoder_utilization, 12);
    assert!(gpu_stats_from_query(true, "61, 215.37").is_none());

    assert_eq!(gpu_name_from_query(true, "  NVIDIA RTX 5090 \n").unwrap(), "NVIDIA RTX 5090");
    assert!(gpu_name_from_query(true, "   ").is_err());
    assert!(gpu_name_from_query(false, "NVIDIA").is_err());
    let f = detect_rtx50_features(Ok("nvidia geforce rtx 5070".to_string())).unwrap();
    assert!(f.is_rtx50 && f.uhq_supported && f.extended_lookahead);
    assert_eq!(detect_generation("geforce rtx 4060"), GpuGeneration::AdaLovelace);
}

#[test]
fn comma_space_splitting() {
    let cs: Vec<char> = "a, b,c, , d".chars().collect();
    let parts: Vec<String> = split_at_comma_space(&cs).iter().map(|p| string_from_chars(p)).collect();
    assert_eq!(parts, vec!["a", "b,c", "", "d"]);
}

#[test]
fn luma_histograms_count_every_sample_once() {
    let white = vec![255u8; 64 * 64 * 4];
    let black = vec![0u8; 64 * 64 * 4];
    let h = luma_histograms(&black, &white, 64, 64, 256, 0x34325258).unwrap();
    assert_eq!(h.samples, 256);
    assert_eq!(h.prev[0], 256);
    assert_eq!(h.curr[63], 256);
    assert_eq!(h.prev.iter().sum::<u32>(), h.samples);
    assert_eq!(h.curr.iter().sum::<u32>(), h.samples);

    let same = luma_histograms(&white, &white, 64, 64, 256, 0x41524742).unwrap();
    assert_eq!(same.prev, same.curr);

    assert!(luma_histograms(&white, &white, 64, 64, 256, 0x3231564E).is_none());

    let short = vec![128u8; 100];
    let h = luma_histograms(&short, &white, 64, 64, 256, 0x34325258).unwrap();
    assert_eq!(h.samples, 7);
    assert_eq!(h.prev[32], 7);
}

#[test]
fn rolling_window_keeps_most_recent_samples() {
    let mut avg = RollingAverage::new(2);
    assert_eq!(avg.average(), 0);
    avg.add(1);
    avg.add(2);
    avg.add(10);
    assert_eq!(avg.len(), 2);
    assert_eq!(avg.average(), 6);
    avg.clear();
    assert_eq!(avg.len(), 0);
}

#[test]
fn blending_and_duplication() {
    let prev = vec![0u8, 100, 255];
    let curr = vec![255u8, 100, 0];
    assert_eq!(blend_frames(&prev, &curr, 128), vec![127, 100, 127]);
    assert_eq!(blend_frames(&prev, &curr, 0), prev);
    assert_eq!(blend_frames(&prev, &curr, 256), curr);

    let frame = Frame {
        format: FrameFormat { width: 1, height: 1, fourcc: 0x34325258, stride: 4 },
        data: FrameData::DmaBuf { fd: 7, offset: 0, modifier: 3 },
        pts: 42,
        hdr_metadata: None,
    };
    let dup = duplicate_frame(&frame);
    assert_eq!(dup.pts, 42);
    assert!(matches!(dup.data, FrameData::DmaBuf { fd: 7, offset: 0, modifier: 3 }));
    assert_eq!(FrameGenMode::Triple.output_fps(25), 75);
}

#[test]
fn pipeline_transitions() {
    assert_eq!(start_transition(PipelineState::Idle).unwrap(), PipelineState::SelectingSource);
    assert!(matches!(
        start_transition(PipelineState::Running),
        Err(NitrogenError::SessionAlreadyRunning)
    ));
    assert_eq!(stop_transition(PipelineState::Running), Some((PipelineState::Stopping, PipelineState::Stopped)));
    assert_eq!(stop_transition(PipelineState::Stopped), None);
    assert_eq!(receive_transition(PipelineState::Running, RecvOutcome::Lagged(3)), (PipelineState::Running, true, 3));
    assert_eq!(receive_transition(PipelineState::Running, RecvOutcome::Closed), (PipelineState::Stopped, false, 0));
}

#[test]
fn codec_names_are_read_regardless_of_case() {
    assert_eq!(Codec::parse_name("HEVC").unwrap(), Codec::Hevc);
    assert_eq!(Codec::parse_name("Av1").unwrap(), Codec::Av1);
    assert_eq!(Codec::parse_name("VP8").unwrap_err(), "Unknown codec: VP8");
    assert_eq!(Preset::from_preset_str("1440P120"), Some(Preset::P1440_120));
}

#[test]
fn every_error_variant_displays_its_text() {
    assert_eq!(NitrogenError::pipewire("x").message(), "PipeWire error: x");
    assert_eq!(NitrogenError::nvenc("x").message(), "NVENC error: x");
    assert_eq!(NitrogenError::config("x").message(), "Configuration error: x");
    assert_eq!(NitrogenError::SourceNotFound("x".to_string()).message(), "Source not found: x");
    assert_eq!(NitrogenError::Unsupported("x".to_string()).message(), "Unsupported: x");
    assert_eq!(NitrogenError::io("x").message(), "I/O error: x");
    assert_eq!(
        NitrogenError::encoder("x").with_context("ctx").message(),
        "ctx: Encoder error: x"
    );
    assert!(NitrogenError::encoder("x").user_hint().is_none());
}

#[test]
fn audio_plan_aac_defaults() {
    let plan = audio_encoder_plan(AudioCodec::Aac, 48000, 2, 0).unwrap();
    assert_eq!(plan.encoder_name, "aac");
    assert_eq!(plan.sample_rate, 48000);
    assert_eq!(plan.bit_rate, 192_000);
    assert_eq!(plan.layout, ChannelLayout::Stereo);
    assert_eq!(plan.options, vec![("aac_coder".to_string(), "twoloop".to_string())]);
}

#[test]
fn audio_plan_opus_layouts() {
    let plan = audio_encoder_plan(AudioCodec::Opus, 44100, 6, 96).unwrap();
    assert_eq!(plan.encoder_name, "libopus");
    assert_eq!(plan.bit_rate, 96_000);
    assert_eq!(plan.layout, ChannelLayout::Surround51);
    assert_eq!(
        plan.options,
        vec![
            ("application".to_string(), "audio".to_string()),
            ("vbr".to_string(), "on".to_string())
        ]
    );
    assert_eq!(channel_layout(1), ChannelLayout::Mono);
    assert_eq!(channel_layout(8), ChannelLayout::Surround71);
    assert_eq!(channel_layout(3), ChannelLayout::Stereo);
}

#[test]
fn audio_plan_refuses_copy() {
    match audio_encoder_plan(AudioCodec::Copy, 48000, 2, 0) {
        Err(NitrogenError::Config(m)) => assert_eq!(m, COPY_NOT_ENCODABLE),
        _ => panic!("the pass-through codec has no encoder"),
    }
    assert_eq!(frame_size_or_default(0), 1024);
    assert_eq!(frame_size_or_default(960), 960);
}

fn option_list(pairs: &[(&str, &str)]) -> Vec<(String, String)> {
    pairs.iter().map(|(k, v)| (k.to_string(), v.to_string())).collect()
}

#[test]
fn nvenc_plan_default_h264() {
    let config = CaptureConfig::monitor("0");
    let plan = nvenc_plan(&config);
    assert_eq!((plan.width, plan.height, plan.fps), (1920, 1080, 60));
    assert!(!plan.ten_bit);
    assert_eq!(plan.bit_rate, 6_000_000);
    assert_eq!(plan.max_bit_rate, 9_000_000);
    assert_eq!(
        plan.options,
        option_list(&[
            ("preset", "p4"),
            ("tune", "ll"),
            ("zerolatency", "1"),
            ("delay", "0"),
            ("rc", "cbr"),
            ("gpu", "0"),
            ("surfaces", "8"),
            ("profile", "high"),
            ("level", "auto"),
            ("bf", "0"),
        ])
    );
}

#[test]
fn nvenc_plan_av1_quality() {
    let mut config = CaptureConfig::monitor("0")
        .with_codec(Codec::Av1)
        .with_preset(Preset::P1440_60)
        .with_encoder_preset(EncoderPreset::Quality)
        .with_gpu(1)
        .with_av1(Av1Config::blackwell_optimized());
    config.low_latency = false;
    let plan = nvenc_plan(&config);
    assert_eq!((plan.width, plan.height, plan.fps), (2560, 1440, 60));
    assert!(plan.ten_bit);
    assert_eq!(plan.bit_rate, 12_000_000);
    assert_eq!(plan.max_bit_rate, 18_000_000);
    assert_eq!(
        plan.options,
        option_list(&[
            ("preset", "p7"),
            ("rc", "vbr"),
            ("gpu", "1"),
            ("surfaces", "8"),
            ("tier", "high"),
            ("profile", "main10"),
            ("g", "120"),
            ("tune", "uhq"),
            ("rc-lookahead", "250"),
            ("spatial_aq", "1"),
            ("temporal_aq", "1"),
            ("multipass", "fullres"),
            ("b_ref_mode", "middle"),
            ("bf", "0"),
        ])
    );
}

#[test]
fn stream_url_and_audio_format() {
    assert_eq!(StreamProtocol::require_from_url("RTMP://live.example/app").unwrap(), StreamProtocol::Rtmp);
    match StreamProtocol::require_from_url("http://example.com") {
        Err(NitrogenError::Config(m)) => assert_eq!(
            m,
            "Invalid stream URL 'http://example.com'. Must start with rtmp://, rtmps://, or srt://"
        ),
        _ => panic!("an http URL is no stream URL"),
    }
    assert_eq!(stream_audio_format(AudioCodec::Aac).unwrap(), StreamSampleFormat::FloatPlanar);
    assert_eq!(stream_audio_format(AudioCodec::Opus).unwrap(), StreamSampleFormat::S16);
    match stream_audio_format(AudioCodec::Copy) {
        Err(NitrogenError::Config(m)) => assert_eq!(m, COPY_AUDIO_REFUSED),
        _ => panic!("copy cannot be streamed"),
    }
}

#[test]
fn recommended_av1_by_generation() {
    let rtx50 = get_recommended_av1_settings(Ok("NVIDIA GeForce RTX 5080".to_string())).unwrap();
    assert_eq!(rtx50.tune, "uhq");
    assert!(rtx50.temporal_aq && rtx50.b_ref_mode);
    assert_eq!(rtx50.lookahead_depth, 100);
    assert_eq!(rtx50.chroma, "444");
    let rtx40 = get_recommended_av1_settings(Ok("NVIDIA GeForce RTX 4070".to_string())).unwrap();
    assert_eq!(rtx40.tune, "hq");
    assert!(!rtx40.temporal_aq && !rtx40.b_ref_mode);
    assert_eq!(rtx40.lookahead_depth, 20);
    assert_eq!(rtx40.chroma, "420");
    assert!(get_recommended_av1_settings(Err(NitrogenError::nvenc("no GPU"))).is_err());
    assert!(Av1Config::blackwell_optimized().uses_blackwell_features());
    assert!(!Av1Config::blackwell_streaming().uses_blackwell_features());
}

#[test]
fn gpu_stats_line() {
    let stats = GpuStats {
        temperature: 65,
        power_watts: 210,
        utilization: 87,
        vram_used_mb: 4096,
        vram_total_mb: 16384,
        encoder_utilization: 42,
    };
    assert_eq!(stats.format_line(), "GPU: 65°C 210W 87% | VRAM: 4096/16384MB | Enc: 42%");
}

#[test]
fn overlay_box_and_rect() {
    assert_eq!(box_origin(OverlayPosition::TopLeft, 1920, 1080, 200, 100, 10), (10, 10));
    assert_eq!(box_origin(OverlayPosition::BottomRight, 1920, 1080, 200, 100, 10), (1710, 970));
    assert_eq!(box_origin(OverlayPosition::TopRight, 100, 50, 200, 100, 10), (0, 10));
    // A 4x2 frame; an opaque red pixel at (1, 0) and nothing else.
    let mut frame = vec![0u8; 4 * 2 * 4];
    draw_rect(&mut frame, 4, 2, 1, 0, 1, 1, [0, 0, 255, 255]);
    assert_eq!(&frame[4..8], &[0, 0, 255, 0]);
    assert!(frame[..4].iter().all(|b| *b == 0));
    assert!(frame[8..].iter().all(|b| *b == 0));
    // Half-transparent white over black gives about half intensity.
    let mut frame = vec![0u8; 4];
    draw_rect(&mut frame, 1, 1, 0, 0, 1, 1, [255, 255, 255, 128]);
    assert_eq!(frame, vec![128, 128, 128, 0]);
}

#[test]
fn framed_line_reads_back() {
    let json = "{\"type\":\"Status\"}";
    let line = frame_line(json);
    assert_eq!(line, "{\"type\":\"Status\"}\n");
    assert_eq!(line_payload(&line), Some(json.to_string()));
    assert_eq!(line_payload("  {\"type\":\"Ping\"}\r\n"), Some("{\"type\":\"Ping\"}".to_string()));
    assert_eq!(line_payload(" \t\n"), None);
    assert_eq!(line_payload(""), None);
}

#[test]
fn metrics_averages_bytes_and_reset() {
    let mut m = PerformanceMetrics::new();
    m.record_capture(2_000_000);
    m.record_capture(4_000_000);
    m.record_output(1_000_001);
    m.record_output(1_000_000);
    m.record_frame_time(16_000_000);
    m.record_bytes_encoded(1000);
    m.record_bytes_encoded(500);
    assert_eq!(m.capture_latency_ns(), 3_000_000);
    assert_eq!(m.output_latency_ns(), 1_000_000);
    assert_eq!(m.encode_latency_ns(), 0);
    assert_eq!(m.frame_time_ns(), 16_000_000);
    assert_eq!(m.frames_processed(), 1);
    assert_eq!(m.take_bytes_encoded(), 1500);
    assert_eq!(m.take_bytes_encoded(), 0);
    m.set_bitrate_kbps(6000);
    assert_eq!(m.bitrate_kbps(), 6000);
    // Only the latest 120 samples count.
    for _ in 0..120 {
        m.record_encode(10);
    }
    m.record_encode(250);
    assert_eq!(m.encode_latency_ns(), (119 * 10 + 250) / 120);
    m.reset();
    assert_eq!(m.capture_latency_ns(), 0);
    assert_eq!(m.frame_time_ns(), 0);
    assert_eq!(m.bitrate_kbps(), 0);
    assert_eq!(m.take_bytes_encoded(), 0);
    assert_eq!((m.frames_processed(), m.frames_dropped()), (0, 0));
}

fn format_of(width: u32, height: u32, stride: u32) -> FrameFormat {
    FrameFormat { width, height, fourcc: 0x34325258, stride }
}

#[test]
fn frame_copy_pads_rows_to_plane_stride() {
    let data: Vec<u8> = (0..16).collect();
    let mut plane = vec![0xAAu8; 24];
    copy_frame_data(&mut plane, 12, &data, &format_of(2, 2, 8), EncoderPixelFormat::Bgra);
    let mut expected = vec![0xAAu8; 24];
    expected[0..8].copy_from_slice(&data[0..8]);
    expected[12..20].copy_from_slice(&data[8..16]);
    assert_eq!(plane, expected);
}

#[test]
fn frame_copy_drops_source_padding_and_cuts_short_rows() {
    // RGB24, 2 pixels per row: 6 bytes of each 8-byte source row.
    let data: Vec<u8> = (0..16).collect();
    let mut plane = vec![0u8; 12];
    copy_frame_data(&mut plane, 6, &data, &format_of(2, 2, 8), EncoderPixelFormat::Rgb24);
    assert_eq!(plane, vec![0, 1, 2, 3, 4, 5, 8, 9, 10, 11, 12, 13]);
    // A source that ends inside the second row: only what is there is copied.
    let short: Vec<u8> = (0..11).collect();
    let mut plane = vec![0xFFu8; 12];
    copy_frame_data(&mut plane, 6, &short, &format_of(2, 2, 8), EncoderPixelFormat::Rgb24);
    assert_eq!(plane, vec![0, 1, 2, 3, 4, 5, 8, 9, 10, 0xFF, 0xFF, 0xFF]);
}

#[test]
fn frame_copy_other_formats_as_one_block() {
    let data: Vec<u8> = vec![1, 2, 3, 4, 5, 6];
    let mut plane = vec![0u8; 4];
    copy_frame_data(&mut plane, 4, &data, &format_of(2, 2, 2), EncoderPixelFormat::Nv12);
    assert_eq!(plane, vec![1, 2, 3, 4]);
    let mut plane = vec![9u8; 8];
    copy_frame_data(&mut plane, 4, &data, &format_of(2, 2, 2), EncoderPixelFormat::Yuyv422);
    assert_eq!(plane, vec![1, 2, 3, 4, 5, 6, 9, 9]);
}

#[test]
fn mixer_sources_and_routes() {
    match mixer_inputs(AudioSource::NoAudio) {
        Err(NitrogenError::Config(m)) => assert_eq!(m, MIXER_NEEDS_SOURCE),
        _ => panic!("a mixer needs a source"),
    }
    assert_eq!(mixer_inputs(AudioSource::Desktop).unwrap(), (true, false));
    assert_eq!(mixer_inputs(AudioSource::Microphone).unwrap(), (false, true));
    assert_eq!(mixer_inputs(AudioSource::Both).unwrap(), (true, true));
    assert_eq!(mix_route(true, true), MixRoute::MixBoth);
    assert_eq!(mix_route(true, false), MixRoute::ForwardDesktop);
    assert_eq!(mix_route(false, true), MixRoute::ForwardMic);
    assert_eq!(mix_route(false, false), MixRoute::Nothing);
}

fn outputs(v: Vec<MixOutput<u32>>) -> Vec<(char, u32, u32)> {
    v.into_iter()
        .map(|o| match o {
            MixOutput::Mixed(a, b) => ('x', a, b),
            MixOutput::Desktop(a) => ('d', a, 0),
            MixOutput::Mic(b) => ('m', 0, b),
        })
        .collect()
}

#[test]
fn mixer_pairs_frames_in_order_and_drains_after_close() {
    let mut b: MixBuffers<u32> = MixBuffers::new();
    assert!(outputs(b.step(MixEvent::Desktop(1))).is_empty());
    assert!(outputs(b.step(MixEvent::Desktop(2))).is_empty());
    assert_eq!(outputs(b.step(MixEvent::Mic(10))), vec![('x', 1, 10)]);
    assert!(outputs(b.step(MixEvent::Idle)).is_empty());
    // The microphone closes: the desktop frame left goes out alone.
    assert_eq!(outputs(b.step(MixEvent::MicClosed)), vec![('d', 2, 0)]);
    assert!(!b.mic_open() && b.desktop_open() && !b.finished());
    assert_eq!(outputs(b.step(MixEvent::Desktop(3))), vec![('d', 3, 0)]);
    assert!(outputs(b.step(MixEvent::DesktopClosed)).is_empty());
    assert!(b.finished());
}

#[test]
fn mixer_drains_microphone_when_desktop_closes() {
    let mut b: MixBuffers<u32> = MixBuffers::new();
    b.step(MixEvent::Mic(7));
    b.step(MixEvent::Mic(8));
    assert_eq!(outputs(b.step(MixEvent::Desktop(1))), vec![('x', 1, 7)]);
    assert_eq!(outputs(b.step(MixEvent::DesktopClosed)), vec![('m', 0, 8)]);
    assert_eq!(outputs(b.step(MixEvent::Mic(9))), vec![('m', 0, 9)]);
    assert!(!b.finished());
}

#[test]
fn audio_format_counts_and_durations() {
    let f = AudioFormat { sample_rate: 48000, channels: 2, format: AudioSampleFormat::F32LE };
    assert_eq!(f.samples_per_channel(1920), 960);
    assert_eq!(f.samples_per_channel(1921), 960);
    assert_eq!(f.duration_ns(960), 20_000_000);
    let g = AudioFormat { sample_rate: 44100, channels: 1, format: AudioSampleFormat::S16LE };
    assert_eq!(g.duration_ns(1), 22675);
}

#[test]
fn motion_slots_multiply_frames() {
    assert_eq!(motion_slots(FrameGenMode::Off, true, false), vec![MotionSlot::Input]);
    assert_eq!(motion_slots(FrameGenMode::Triple, false, false), vec![MotionSlot::Input]);
    assert_eq!(
        motion_slots(FrameGenMode::Triple, true, false),
        vec![
            MotionSlot::Interpolated { step: 1, of: 3 },
            MotionSlot::Interpolated { step: 2, of: 3 },
            MotionSlot::Input
        ]
    );
    assert_eq!(
        motion_slots(FrameGenMode::Double, true, true),
        vec![MotionSlot::Repeat, MotionSlot::Input]
    );
    assert_eq!(motion_slots(FrameGenMode::Quadruple, true, false).len(), 4);
    assert_eq!(motion_slots(FrameGenMode::Adaptive, true, false).len(), 2);
}

#[test]
fn av_loop_ends_on_close_or_lost_connection() {
    assert!(connection_lost("Error writing packet: Broken pipe (os error 32)"));
    assert!(connection_lost("Connection reset by peer"));
    assert!(!connection_lost("Invalid data found when processing input"));
    let mut c = AvChannels::new(true);
    assert!(!c.finished());
    c.video_done = true;
    assert!(!c.finished());
    c.audio_done = true;
    assert!(c.finished());
    let mut v = AvChannels::new(false);
    assert!(v.audio_done && !v.finished());
    v.write_failed("Invalid argument");
    assert!(!v.finished());
    v.write_failed("Broken pipe");
    assert!(v.finished());
}

#[test]
fn mic_buffer_takes_whole_samples_then_silence() {
    // Room for 2 samples (8 bytes) and a stray byte; 1 sample given.
    let mut buf = vec![7u8; 9];
    let one: Vec<u8> = 0.5f32.to_le_bytes().to_vec();
    assert_eq!(fill_mic_buffer(&mut buf, Some(&one)), (1, 4));
    let mut expected = one.clone();
    expected.extend_from_slice(&[0, 0, 0, 0, 7]);
    assert_eq!(buf, expected);
    // More samples than fit: only the first two.
    let three: Vec<u8> = [1.0f32, 2.0, 3.0].iter().flat_map(|f| f.to_le_bytes()).collect();
    let mut buf = vec![0u8; 8];
    assert_eq!(fill_mic_buffer(&mut buf, Some(&three)), (2, 8));
    assert_eq!(buf, three[..8].to_vec());
    // No frame: silence, and the whole buffer is the chunk.
    let mut buf = vec![9u8; 6];
    assert_eq!(fill_mic_buffer(&mut buf, None), (0, 6));
    assert_eq!(buf, vec![0u8; 6]);
}

#[test]
fn key_events_track_held_keys_and_fire_hotkeys() {
    let hotkeys = default_hotkeys();
    let mut pressed: Vec<u16> = Vec::new();
    assert!(key_event(&mut pressed, KEY_LEFTCTRL, 1, &hotkeys).is_empty());
    assert!(key_event(&mut pressed, KEY_RIGHTSHIFT, 1, &hotkeys).is_empty());
    let fired = key_event(&mut pressed, KEY_F9, 1, &hotkeys);
    assert_eq!(fired, vec![HotkeyAction::Toggle]);
    // A repeat changes nothing and fires nothing.
    assert!(key_event(&mut pressed, KEY_F9, 2, &hotkeys).is_empty());
    // Releasing undoes the press.
    assert!(key_event(&mut pressed, KEY_F9, 0, &hotkeys).is_empty());
    let mut held = pressed.clone();
    held.sort();
    let mut expected = vec![KEY_LEFTCTRL, KEY_RIGHTSHIFT];
    expected.sort();
    assert_eq!(held, expected);
    // Without Shift, F10 fires nothing.
    key_event(&mut pressed, KEY_RIGHTSHIFT, 0, &hotkeys);
    assert!(key_event(&mut pressed, KEY_F10, 1, &hotkeys).is_empty());
}
