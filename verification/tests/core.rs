//! Codec, capability, configuration, pixel and VA-API value tests.

use std::time::Duration;

use vidcodec::capability::CodecCapabilityBuilder;
use vidcodec::util::pixel::{copy_nv12_tight, i420_to_nv12};
use vidcodec::util::profile::default_h264_profiles;
use vidcodec::vaapi::{status_ok, VAProfile_VAProfileH264Main, VA_STATUS_SUCCESS};
use vidcodec::{
    BackendId, BitstreamFormat, CodecCapability, CodecId, DecoderConfig, Direction, EncoderConfig,
    Error, PixelFormat, Profile, VideoFrame,
};

#[test]
fn success_constant() {
    assert!(status_ok(0));
    assert!(!status_ok(-1));
}

#[test]
fn h264_profile_constant_exists() {
    assert_eq!(VAProfile_VAProfileH264Main, 6);
}

#[test]
fn va_success_is_zero() {
    assert_eq!(VA_STATUS_SUCCESS, 0);
    assert!(status_ok(VA_STATUS_SUCCESS));
    assert!(!status_ok(1));
}

#[test]
fn capability_supports_profile_and_size() {
    let cap = CodecCapability::builder(CodecId::H264, BackendId::Vaapi, Direction::Encode)
        .profile(Profile::H264Main)
        .max_resolution(1920, 1080)
        .build();

    assert!(cap.supports(Profile::H264Main, 1280, 720));
    assert!(!cap.supports(Profile::HevcMain, 1280, 720));
    assert!(!cap.supports(Profile::H264Main, 3840, 2160));
}

#[test]
fn backend_preference_order() {
    assert!(BackendId::VideoToolbox < BackendId::Vaapi);
    assert!(BackendId::Nvenc < BackendId::Vaapi);
}

#[test]
fn parses_wire_names() {
    assert_eq!(CodecId::parse_wire_name("H264"), Some(CodecId::H264));
    assert_eq!(CodecId::parse_wire_name("av01"), Some(CodecId::Av1));
    assert_eq!(CodecId::parse_wire_name("vp9"), None);
}

#[test]
fn profile_codec_family() {
    assert_eq!(Profile::HevcMain10.codec(), CodecId::Hevc);
}

#[test]
fn nv12_1080p_size() {
    assert_eq!(PixelFormat::Nv12.frame_size(1920, 1080).unwrap(), 3_110_400);
}

#[test]
fn wire_names_round_trip() {
    for codec in [CodecId::H264, CodecId::Hevc, CodecId::Av1] {
        assert_eq!(CodecId::parse_wire_name(codec.wire_name()), Some(codec));
    }
    assert_eq!(CodecId::parse_wire_name("H.265"), Some(CodecId::Hevc));
    assert_eq!(CodecId::parse_wire_name("AVC"), Some(CodecId::H264));
    assert_eq!(CodecId::parse_wire_name(""), None);
    assert_eq!(CodecId::H264.mime_type(), "video/avc");
    assert_eq!(CodecId::Av1.mime_type(), "video/av01");
}

#[test]
fn profile_names_and_families() {
    assert_eq!(Profile::H264ConstrainedBaseline.codec(), CodecId::H264);
    assert_eq!(Profile::Av1Professional.codec(), CodecId::Av1);
    assert_eq!(Profile::H264High.wire_name(), "high");
    assert_eq!(BackendId::MediaFoundation.name(), "media-foundation");
    assert_eq!(BackendId::Nvenc.name(), "nvenc");
}

#[test]
fn builder_defaults_and_no_duplicate_profiles() {
    let cap = CodecCapability::builder(CodecId::Av1, BackendId::Nvenc, Direction::Decode)
        .profile(Profile::Av1Main)
        .profile(Profile::Av1High)
        .profile(Profile::Av1Main)
        .build();
    assert_eq!(cap.profiles, vec![Profile::Av1Main, Profile::Av1High]);
    assert_eq!((cap.max_width, cap.max_height), (3840, 2160));
    assert_eq!(cap.bitstream_formats, vec![BitstreamFormat::Av1Obu]);
    assert!(cap.low_latency);
    let _b: CodecCapabilityBuilder =
        CodecCapability::builder(CodecId::H264, BackendId::Vaapi, Direction::Encode).low_latency(false);
    assert!(!_b.build().low_latency);
}

#[test]
fn bitstream_formats_for_codecs() {
    assert_eq!(
        BitstreamFormat::for_codec(CodecId::Hevc),
        &[BitstreamFormat::AnnexB, BitstreamFormat::LengthPrefixed]
    );
    assert_eq!(BitstreamFormat::for_codec(CodecId::Av1), &[BitstreamFormat::Av1Obu]);
    assert_eq!(BitstreamFormat::default(), BitstreamFormat::AnnexB);
}

#[test]
fn encoder_config_defaults_validate() {
    let config = EncoderConfig::new(1280, 720, (30, 1));
    assert_eq!(config.codec, CodecId::H264);
    assert_eq!(config.bitrate, 2_000_000);
    assert_eq!(config.gop_size, 60);
    assert_eq!(config.max_inflight_frames, 2);
    assert_eq!(config.validate(), Ok(()));
    let av1 = config.with_codec(CodecId::Av1);
    assert_eq!(av1.profile, Profile::Av1Main);
    assert_eq!(av1.bitstream, BitstreamFormat::Av1Obu);
    assert_eq!(av1.validate(), Ok(()));
}

#[test]
fn encoder_config_errors() {
    let base = EncoderConfig::new(1280, 720, (30, 1));
    assert_eq!(
        EncoderConfig::new(1280, 0, (30, 1)).validate(),
        Err(Error::InvalidConfig("width and height must be non-zero"))
    );
    assert_eq!(
        EncoderConfig::new(1280, 720, (30, 0)).validate(),
        Err(Error::InvalidConfig("frame_rate must be non-zero"))
    );
    assert_eq!(
        base.with_bitrate(0).validate(),
        Err(Error::InvalidConfig("bitrate must be non-zero"))
    );
    assert_eq!(
        base.with_profile(Profile::HevcMain).validate(),
        Err(Error::InvalidConfig("profile does not match codec"))
    );
    assert_eq!(
        base.with_bitstream(BitstreamFormat::Av1Obu).validate(),
        Err(Error::InvalidConfig("bitstream format invalid for codec"))
    );
    let mut no_gop = base;
    no_gop.gop_size = 0;
    assert_eq!(no_gop.validate(), Err(Error::InvalidConfig("gop_size must be non-zero")));
    assert_eq!(base.with_max_bitrate(3_000_000).max_bitrate, Some(3_000_000));
    assert_eq!(base.with_input_format(PixelFormat::I420).input_format, PixelFormat::I420);
}

#[test]
fn decoder_config_defaults_and_validation() {
    let config = DecoderConfig::new(CodecId::Av1);
    assert_eq!(config.bitstream, BitstreamFormat::Av1Obu);
    assert_eq!(config.output_format, PixelFormat::Nv12);
    assert!(config.low_latency);
    assert_eq!(config.validate(), Ok(()));
    let bad = DecoderConfig::new(CodecId::H264).with_bitstream(BitstreamFormat::Av1Obu);
    assert_eq!(bad.validate(), Err(Error::InvalidConfig("bitstream format invalid for codec")));
    let with_extra = DecoderConfig::new(CodecId::H264)
        .with_output_format(PixelFormat::I420)
        .with_extradata(vec![0, 0, 0, 1, 0x67]);
    assert_eq!(with_extra.extradata, Some(vec![0, 0, 0, 1, 0x67]));
    assert_eq!(with_extra.output_format, PixelFormat::I420);
}

#[test]
fn frame_size_and_buffer_checks() {
    assert_eq!(PixelFormat::I420.frame_size(4, 2), Ok(12));
    assert_eq!(PixelFormat::Nv12.frame_size(3, 3), Ok(13));
    assert_eq!(
        PixelFormat::Nv12.frame_size(0, 10),
        Err(Error::InvalidConfig("width and height must be non-zero"))
    );
    assert_eq!(PixelFormat::I420.validate_buffer(&[0u8; 12], 4, 2), Ok(()));
    assert_eq!(
        PixelFormat::I420.validate_buffer(&[0u8; 11], 4, 2),
        Err(Error::PixelBufferMismatch { expected: 12, actual: 11 })
    );
    let frame = VideoFrame {
        pixels: &[0u8; 12],
        width: 4,
        height: 2,
        format: PixelFormat::Nv12,
        pts: Duration::from_millis(5),
    };
    assert_eq!(frame.validate(), Ok(()));
}

#[test]
fn i420_to_nv12_interleaves_chroma() {
    // 4x2: Y = 0..8, U = [100, 101], V = [200, 201]
    let mut i420: Vec<u8> = (0..8).collect();
    i420.extend_from_slice(&[100, 101, 200, 201]);
    let nv12 = i420_to_nv12(&i420, 4, 2).unwrap();
    assert_eq!(nv12, vec![0, 1, 2, 3, 4, 5, 6, 7, 100, 200, 101, 201]);
    assert_eq!(
        i420_to_nv12(&i420[..11], 4, 2),
        Err(Error::PixelBufferMismatch { expected: 12, actual: 11 })
    );
}

#[test]
fn copy_nv12_tight_drops_padding() {
    // 2x2 visible, stride 3, slice height 3: Y rows at 0 and 3, UV at 9.
    let src = [1u8, 2, 9, 3, 4, 9, 9, 9, 9, 5, 6, 9];
    let mut dst = [0u8; 6];
    copy_nv12_tight(&src, &mut dst, 2, 2, 3, 3);
    assert_eq!(dst, [1, 2, 3, 4, 5, 6]);
}

#[test]
fn default_h264_profile_set() {
    assert_eq!(
        default_h264_profiles(),
        &[Profile::H264Baseline, Profile::H264Main, Profile::H264High]
    );
}

#[test]
fn error_backend_wraps_message() {
    assert_eq!(
        Error::backend("boom".to_string()),
        Error::Backend { message: "boom".to_string() }
    );
}

#[test]
fn error_messages() {
    assert_eq!(Error::backend("boom".to_string()).message(), "backend error: boom");
    assert_eq!(
        Error::NoBackend { codec: CodecId::H264, backend: BackendId::Vaapi, direction: Direction::Encode }
            .message(),
        "no backend available for H264 via Vaapi (Encode)"
    );
    assert_eq!(
        Error::NoCapabilities { direction: Direction::Decode }.message(),
        "no Decode capabilities found on this host"
    );
    assert_eq!(
        Error::PixelBufferMismatch { expected: 3110400, actual: 0 }.message(),
        "pixel buffer mismatch: expected 3110400 bytes, got 0"
    );
    assert_eq!(Error::InvalidConfig("width").message(), "invalid configuration: width");
    assert_eq!(Error::InvalidBitstream("sps").message(), "invalid bitstream: sps");
    assert_eq!(Error::Backpressure.message(), "encoder backpressure");
    assert_eq!(Error::NotImplemented("av1").message(), "not implemented: av1");
}

#[test]
fn wire_name_parsing_ignores_case() {
    for (a, b) in [("h264", "H264"), ("Avc", "aVC"), ("HEVC", "hevc"), ("AV01", "av01"), ("Vp9", "VP9")] {
        assert_eq!(CodecId::parse_wire_name(a), CodecId::parse_wire_name(b));
    }
}

#[test]
fn encoded_unit_clone_keeps_timestamps() {
    let unit = vidcodec::EncodedUnit::new(vec![1, 2], true, Duration::from_millis(40), BitstreamFormat::AnnexB);
    let copy = unit.clone();
    assert_eq!(copy.pts, Duration::from_millis(40));
    assert_eq!(copy, unit);
}
