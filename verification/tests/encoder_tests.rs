use nitrogen_core::config::Codec;
use nitrogen_core::encode;

#[test]
fn test_codec_encoder_names() {
    assert_eq!(Codec::H264.nvenc_encoder(), "h264_nvenc");
    assert_eq!(Codec::Hevc.nvenc_encoder(), "hevc_nvenc");
    assert_eq!(Codec::Av1.nvenc_encoder(), "av1_nvenc");
}

#[test]
fn test_encoder_capability_estimates() {
    for codec in [Codec::H264, Codec::Hevc, Codec::Av1] {
        let caps = encode::get_encoder_capabilities(codec, true);
        assert!(caps.is_some(), "Should have capabilities for available codec");

        let caps = caps.unwrap();
        assert!(caps.max_width >= 1920);
        assert!(caps.max_height >= 1080);
        assert!(encode::get_encoder_capabilities(codec, false).is_none());
    }
}

#[test]
fn test_available_encoders_format() {
    let encoders = encode::available_encoders(true, true, true);
    for encoder in encoders {
        assert!(!encoder.is_empty());
        let lower = encoder.to_lowercase();
        assert!(
            lower.contains("nvenc")
                || lower.contains("264")
                || lower.contains("265")
                || lower.contains("hevc")
                || lower.contains("av1"),
            "Encoder name should be descriptive: {}",
            encoder
        );
    }
}
