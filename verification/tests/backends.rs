//! MediaCodec, Media Foundation and NVENC backends over fake device runtimes.

use std::time::Duration;

use vidcodec::mediacodec::backend::{MediaCodecBackend, MediaCodecRuntime};
use vidcodec::mediacodec::h264::{
    bitrate_parameter, build_decoder_format, build_encoder_format, check_decode_input,
    classify_decoder_output, classify_encoder_output, input_buffer_flags, output_pts_micros,
    validate_encoder_config, DecoderOutput, EncoderOutput,
};
use vidcodec::mediacodec::profile::is_supported;
use vidcodec::mf::backend::MediaFoundationRuntime;
use vidcodec::mf::h264::load_sequence_header;
use vidcodec::mf::media_type::{h264_output_type, pack_u32_pair, unpack_u32_pair};
use vidcodec::mf::profile::profile_to_mf;
use vidcodec::nvenc::backend::NvencRuntime;
use vidcodec::nvenc::h264::{encode_settings, NvencH264Profile, RateControl};
use vidcodec::nvenc::probe::{codec_capability, encode_profiles, h264_decode_capability};
use vidcodec::platform::{
    check_encode_frame, keyframe_parameter_sets, output_is_keyframe, package_h264_output,
    should_emit_idr, unit_to_annex_b, unit_to_length_prefixed,
};
use vidcodec::{
    enumerate, reset_registry, Backend, BackendId, BitstreamFormat, CodecCapability, CodecId,
    DecoderConfig, Direction, EncodedUnit, EncoderConfig, Error, PixelFormat, Profile, Registry,
    VideoDecoder, VideoEncoder, VideoFrame,
};

struct FakeMediaCodec {
    encoder: bool,
    decoder: bool,
}

impl MediaCodecRuntime for FakeMediaCodec {
    fn codec_available(&self, mime: &str, is_encoder: bool) -> bool {
        mime == "video/avc" && if is_encoder { self.encoder } else { self.decoder }
    }

    fn open_h264_encoder(
        &self,
        _capability: CodecCapability,
        _config: EncoderConfig,
    ) -> Result<Box<dyn VideoEncoder>, Error> {
        Err(Error::backend("no device".to_string()))
    }

    fn open_h264_decoder(
        &self,
        _capability: CodecCapability,
        _config: DecoderConfig,
    ) -> Result<Box<dyn VideoDecoder>, Error> {
        Err(Error::backend("no device".to_string()))
    }
}

struct FakeMf {
    ready: bool,
}

impl MediaFoundationRuntime for FakeMf {
    fn initialize(&self) -> Result<(), Error> {
        if self.ready {
            Ok(())
        } else {
            Err(Error::backend("CoInitializeEx failed".to_string()))
        }
    }

    fn h264_encoder_available(&self) -> bool {
        true
    }

    fn h264_decoder_available(&self) -> bool {
        true
    }

    fn open_h264_encoder(
        &self,
        _capability: CodecCapability,
        _config: EncoderConfig,
    ) -> Result<Box<dyn VideoEncoder>, Error> {
        Err(Error::backend("no transform".to_string()))
    }

    fn open_h264_decoder(
        &self,
        _capability: CodecCapability,
        _config: DecoderConfig,
    ) -> Result<Box<dyn VideoDecoder>, Error> {
        Err(Error::backend("no transform".to_string()))
    }
}

struct FakeGpu {
    encoder: bool,
    codecs: Vec<CodecId>,
    h264_profiles: Vec<Profile>,
    decode: Option<(u32, u32)>,
}

impl NvencRuntime for FakeGpu {
    fn encoder_available(&self) -> bool {
        self.encoder
    }

    fn encode_codec_listed(&self, codec: CodecId) -> Result<bool, Error> {
        Ok(self.codecs.contains(&codec))
    }

    fn encode_profiles(&self, codec: CodecId) -> Result<Vec<Profile>, Error> {
        match codec {
            CodecId::H264 => Ok(self.h264_profiles.clone()),
            _ => Ok(Vec::new()),
        }
    }

    fn h264_decode_caps(&self) -> Result<Option<(u32, u32)>, Error> {
        Ok(self.decode)
    }

    fn open_h264_encoder(
        &self,
        _capability: CodecCapability,
        _config: EncoderConfig,
    ) -> Result<Box<dyn VideoEncoder>, Error> {
        Err(Error::backend("no session".to_string()))
    }

    fn open_h264_decoder(
        &self,
        _capability: CodecCapability,
        _config: DecoderConfig,
    ) -> Result<Box<dyn VideoDecoder>, Error> {
        Err(Error::backend("no session".to_string()))
    }
}

#[test]
fn probe_registers_mediacodec_capabilities() {
    let mut registry = Registry::new();
    reset_registry(&mut registry);
    vidcodec::mediacodec::backend::try_register(
        &mut registry,
        FakeMediaCodec { encoder: true, decoder: true },
    )
    .expect("MediaCodec should be available on this Android device");

    let encode = enumerate(&registry, Direction::Encode);
    assert!(
        encode
            .iter()
            .any(|c| c.backend == BackendId::MediaCodec && c.codec == CodecId::H264),
        "expected H.264 encode via MediaCodec: {encode:?}"
    );

    let decode = enumerate(&registry, Direction::Decode);
    assert!(
        decode
            .iter()
            .any(|c| c.backend == BackendId::MediaCodec && c.codec == CodecId::H264),
        "expected H.264 decode via MediaCodec: {decode:?}"
    );

    reset_registry(&mut registry);
}

#[test]
fn probe_registers_mf_capabilities() {
    let mut registry = Registry::new();
    reset_registry(&mut registry);
    vidcodec::mf::backend::try_register(&mut registry, FakeMf { ready: true })
        .expect("Media Foundation should be available on this host");

    let encode = enumerate(&registry, Direction::Encode);
    assert!(
        encode
            .iter()
            .any(|c| c.backend == BackendId::MediaFoundation && c.codec == CodecId::H264),
        "expected H.264 encode via Media Foundation: {encode:?}"
    );

    let decode = enumerate(&registry, Direction::Decode);
    assert!(
        decode
            .iter()
            .any(|c| c.backend == BackendId::MediaFoundation && c.codec == CodecId::H264),
        "expected H.264 decode via Media Foundation: {decode:?}"
    );

    reset_registry(&mut registry);
}

#[test]
fn probe_registers_nvenc_capabilities() {
    let mut registry = Registry::new();
    reset_registry(&mut registry);
    let gpu = FakeGpu {
        encoder: true,
        codecs: vec![CodecId::H264, CodecId::Av1],
        h264_profiles: vec![Profile::H264High, Profile::H264Main, Profile::H264High],
        decode: Some((4096, 16384)),
    };
    vidcodec::nvenc::backend::try_register(&mut registry, gpu)
        .expect("NVENC/NVDEC should be available on this host");

    let encode = enumerate(&registry, Direction::Encode);
    assert!(
        encode
            .iter()
            .any(|c| c.backend == BackendId::Nvenc && c.codec == CodecId::H264),
        "expected H.264 encode via NVENC: {encode:?}"
    );

    let decode = enumerate(&registry, Direction::Decode);
    assert!(
        decode
            .iter()
            .any(|c| c.backend == BackendId::Nvenc && c.codec == CodecId::H264),
        "expected H.264 decode via NVDEC: {decode:?}"
    );

    reset_registry(&mut registry);
}

#[test]
fn nvenc_probe_contents() {
    let mut registry = Registry::new();
    let gpu = FakeGpu {
        encoder: true,
        codecs: vec![CodecId::H264, CodecId::Av1],
        h264_profiles: vec![Profile::H264High, Profile::H264Main, Profile::H264High],
        decode: Some((4096, 16384)),
    };
    vidcodec::nvenc::backend::try_register(&mut registry, gpu).unwrap();
    let encode = enumerate(&registry, Direction::Encode);
    assert_eq!(encode.len(), 2);
    assert_eq!(encode[0].codec, CodecId::H264);
    assert_eq!(encode[0].profiles, vec![Profile::H264High, Profile::H264Main]);
    assert_eq!((encode[0].max_width, encode[0].max_height), (8192, 8192));
    assert_eq!(encode[1].codec, CodecId::Av1);
    assert_eq!(
        encode[1].profiles,
        vec![Profile::Av1Main, Profile::Av1High, Profile::Av1Professional]
    );
    assert_eq!(encode[1].bitstream_formats, vec![BitstreamFormat::Av1Obu]);
    let decode = enumerate(&registry, Direction::Decode);
    assert_eq!(decode.len(), 1);
    assert_eq!((decode[0].max_width, decode[0].max_height), (8192, 16384));
    assert_eq!(
        decode[0].profiles,
        vec![Profile::H264Baseline, Profile::H264Main, Profile::H264High]
    );
}

#[test]
fn nvenc_without_capabilities_is_refused() {
    let mut registry = Registry::new();
    let gpu = FakeGpu { encoder: false, codecs: vec![], h264_profiles: vec![], decode: None };
    assert_eq!(
        vidcodec::nvenc::backend::try_register(&mut registry, gpu),
        Err(Error::Backend { message: "NVENC/NVDEC: no capabilities found".to_string() })
    );
    assert_eq!(registry.len(), 0);
}

#[test]
fn nvenc_profile_fallbacks() {
    assert_eq!(encode_profiles(CodecId::H264, vec![]), vec![Profile::H264Main]);
    assert_eq!(encode_profiles(CodecId::Hevc, vec![]), vec![Profile::HevcMain]);
    assert_eq!(
        encode_profiles(CodecId::Hevc, vec![Profile::HevcMain10]),
        vec![Profile::HevcMain10]
    );
    let cap = h264_decode_capability(100, 9000);
    assert_eq!((cap.max_width, cap.max_height), (8192, 9000));
}

#[test]
fn mediacodec_probe_without_codecs_is_refused() {
    let mut registry = Registry::new();
    assert_eq!(
        vidcodec::mediacodec::backend::try_register(
            &mut registry,
            FakeMediaCodec { encoder: false, decoder: false },
        ),
        Err(Error::Backend { message: "MediaCodec: no H.264 capabilities found".to_string() })
    );
    assert_eq!(registry.len(), 0);
}

#[test]
fn mediacodec_encoder_only_probe() {
    let backend = MediaCodecBackend::new(FakeMediaCodec { encoder: true, decoder: false }).unwrap();
    assert_eq!(backend.id(), BackendId::MediaCodec);
    let encode = backend.enumerate(Direction::Encode);
    assert_eq!(encode.len(), 1);
    assert_eq!(encode[0].max_width, 4096);
    assert_eq!(
        encode[0].bitstream_formats,
        vec![BitstreamFormat::AnnexB, BitstreamFormat::LengthPrefixed]
    );
    assert!(backend.enumerate(Direction::Decode).is_empty());
}

#[test]
fn mediacodec_open_checks() {
    let backend = MediaCodecBackend::new(FakeMediaCodec { encoder: true, decoder: true }).unwrap();
    let enc = backend.enumerate(Direction::Encode).remove(0);
    let dec = backend.enumerate(Direction::Decode).remove(0);
    let config = EncoderConfig::new(1280, 720, (30, 1));
    match backend.open_encoder(&dec, config) {
        Err(e) => assert_eq!(e, Error::InvalidConfig("capability mismatch")),
        Ok(_) => panic!("decode capability opened an encoder"),
    }
    let mut hevc = enc.clone();
    hevc.codec = CodecId::Hevc;
    match backend.open_encoder(&hevc, config) {
        Err(e) => assert_eq!(e, Error::NotImplemented("MediaCodec encoder for this codec")),
        Ok(_) => panic!("HEVC encoder opened"),
    }
    match backend.open_encoder(&enc, config.with_input_format(PixelFormat::I420).with_bitrate(0)) {
        Err(e) => assert_eq!(e, Error::InvalidConfig("bitrate must be non-zero")),
        Ok(_) => panic!("invalid config opened"),
    }
    match backend.open_encoder(&enc, config) {
        Err(e) => assert_eq!(e, Error::Backend { message: "no device".to_string() }),
        Ok(_) => panic!("fake runtime opened an encoder"),
    }
    match backend.open_decoder(&dec, DecoderConfig::new(CodecId::H264).with_output_format(PixelFormat::I420)) {
        Err(e) => assert_eq!(e, Error::InvalidConfig("MediaCodec H.264 decoder outputs NV12")),
        Ok(_) => panic!("I420 decoder opened"),
    }
}

#[test]
fn mediacodec_encoder_config_checks() {
    let backend = MediaCodecBackend::new(FakeMediaCodec { encoder: true, decoder: true }).unwrap();
    let cap = backend.enumerate(Direction::Encode).remove(0);
    let config = EncoderConfig::new(1280, 720, (30, 1));
    assert_eq!(validate_encoder_config(&config, &cap), Ok(()));
    assert_eq!(
        validate_encoder_config(&config.with_input_format(PixelFormat::I420), &cap),
        Ok(())
    );
    assert_eq!(
        validate_encoder_config(&EncoderConfig::new(8192, 720, (30, 1)), &cap),
        Err(Error::InvalidConfig("capability does not support config"))
    );
    assert_eq!(
        validate_encoder_config(&config.with_codec(CodecId::Hevc), &cap),
        Err(Error::InvalidConfig("H264Encoder requires H.264"))
    );
    assert_eq!(
        validate_encoder_config(&config.with_profile(Profile::H264ConstrainedBaseline), &cap),
        Err(Error::InvalidConfig("capability does not support config"))
    );
    assert!(is_supported(Profile::H264ConstrainedBaseline));
    assert!(is_supported(Profile::H264High));
    assert!(!is_supported(Profile::HevcMain));
}

#[test]
fn mediacodec_encoder_format_values() {
    let config = EncoderConfig::new(1920, 1080, (60, 1));
    let fmt = build_encoder_format(&config);
    assert_eq!((fmt.width, fmt.height), (1920, 1080));
    assert_eq!(fmt.bitrate, 2_000_000);
    assert_eq!(fmt.frame_rate, 60);
    assert_eq!(fmt.i_frame_interval, 1);
    assert_eq!(fmt.color_format, 21);
    assert_eq!(fmt.max_input_size, Some(3_110_400));
    let mut odd = EncoderConfig::new(640, 480, (1, 2)).with_bitrate(u32::MAX);
    odd.gop_size = 300;
    let fmt = build_encoder_format(&odd);
    assert_eq!(fmt.frame_rate, 1);
    assert_eq!(fmt.i_frame_interval, 300);
    assert_eq!(fmt.bitrate, i32::MAX);
}

#[test]
fn mediacodec_decoder_format_from_extradata() {
    let extradata = vec![0, 0, 0, 1, 0x67, 0x42, 0, 0, 0, 1, 0x68, 0xce, 0, 0, 0, 1, 0x67, 0x4d];
    let (fmt, has_csd0) =
        build_decoder_format(&DecoderConfig::new(CodecId::H264).with_extradata(extradata));
    assert!(has_csd0);
    assert_eq!(fmt.csd0, Some(vec![0x67, 0x4d]));
    assert_eq!(fmt.csd1, Some(vec![0x68, 0xce]));
    let (fmt, has_csd0) = build_decoder_format(&DecoderConfig::new(CodecId::H264));
    assert!(!has_csd0);
    assert_eq!(fmt.csd0, None);
    assert_eq!(fmt.csd1, None);
}

#[test]
fn mediacodec_decode_input_checks() {
    let empty = EncodedUnit::new(vec![], false, Duration::ZERO, BitstreamFormat::AnnexB);
    assert_eq!(
        check_decode_input(&empty, true),
        Err(Error::InvalidBitstream("empty access unit"))
    );
    let unit = EncodedUnit::new(vec![0, 0, 0, 1, 0x65], true, Duration::ZERO, BitstreamFormat::AnnexB);
    assert_eq!(
        check_decode_input(&unit, false),
        Err(Error::InvalidBitstream(
            "decoder needs extradata before first decode; pass SPS/PPS via DecoderConfig::with_extradata"
        ))
    );
    assert_eq!(check_decode_input(&unit, true), Ok(()));
}

#[test]
fn mf_probe_failure_leaves_registry() {
    let mut registry = Registry::new();
    assert_eq!(
        vidcodec::mf::backend::try_register(&mut registry, FakeMf { ready: false }),
        Err(Error::Backend { message: "CoInitializeEx failed".to_string() })
    );
    assert_eq!(registry.len(), 0);
}

#[test]
fn mf_media_type_values() {
    assert_eq!(profile_to_mf(Profile::H264Baseline), Some(66));
    assert_eq!(profile_to_mf(Profile::H264Main), Some(77));
    assert_eq!(profile_to_mf(Profile::H264High), Some(100));
    assert_eq!(profile_to_mf(Profile::H264ConstrainedBaseline), None);
    assert_eq!(pack_u32_pair(1920, 1080), (1920u64 << 32) | 1080);
    assert_eq!(unpack_u32_pair(pack_u32_pair(30000, 1001)), (30000, 1001));
    let t = h264_output_type(&EncoderConfig::new(1280, 720, (30, 1))).unwrap();
    assert_eq!(t.mpeg2_profile, 77);
    assert_eq!(t.frame_size, (1280u64 << 32) | 720);
    assert_eq!(t.frame_rate, (30u64 << 32) | 1);
    assert_eq!(t.avg_bitrate, 2_000_000);
    assert!(matches!(
        h264_output_type(&EncoderConfig::new(1280, 720, (30, 1)).with_profile(Profile::H264ConstrainedBaseline)),
        Err(Error::InvalidConfig("unsupported H.264 profile"))
    ));
}

#[test]
fn mf_sequence_header() {
    let ps = vec![0, 0, 0, 1, 0x67, 0x42, 0xc0, 0x1e, 0, 0, 0, 1, 0x68, 0xce];
    let header = load_sequence_header(&DecoderConfig::new(CodecId::H264).with_extradata(ps)).unwrap();
    assert_eq!(header.unwrap()[0], 1);
    assert_eq!(load_sequence_header(&DecoderConfig::new(CodecId::H264)), Ok(None));
    assert_eq!(
        load_sequence_header(&DecoderConfig::new(CodecId::H264).with_extradata(vec![0, 0, 0, 1, 0x68])),
        Err(Error::Backend {
            message: "invalid bitstream data: missing SPS or PPS for AVCC".to_string()
        })
    );
}

#[test]
fn nvenc_session_settings() {
    let cbr = encode_settings(&EncoderConfig::new(1280, 720, (30, 1))).unwrap();
    assert_eq!(cbr.profile, NvencH264Profile::Main);
    assert_eq!(cbr.rate_control, RateControl::Cbr);
    assert_eq!((cbr.average_bitrate, cbr.max_bitrate), (2_000_000, 2_000_000));
    assert_eq!((cbr.gop_length, cbr.idr_period, cbr.frame_interval_p), (60, 60, 1));
    assert!(!cbr.disable_deblocking);
    let vbr = encode_settings(
        &EncoderConfig::new(1280, 720, (30, 1))
            .with_profile(Profile::H264ConstrainedBaseline)
            .with_max_bitrate(4_000_000),
    )
    .unwrap();
    assert_eq!(vbr.profile, NvencH264Profile::Baseline);
    assert!(vbr.disable_deblocking);
    assert_eq!(vbr.rate_control, RateControl::Vbr);
    assert_eq!(vbr.max_bitrate, 4_000_000);
    assert_eq!(
        encode_settings(&EncoderConfig::new(1280, 720, (30, 1)).with_codec(CodecId::Hevc)),
        Err(Error::InvalidConfig("unsupported H.264 profile"))
    );
}

#[test]
fn keyframe_schedule() {
    assert!(should_emit_idr(false, 0, 30));
    assert!(!should_emit_idr(false, 1, 30));
    assert!(should_emit_idr(false, 60, 30));
    assert!(should_emit_idr(true, 7, 30));
    assert!(!should_emit_idr(false, 59, 30));
}

#[test]
fn encode_frame_checks() {
    let config = EncoderConfig::new(4, 2, (30, 1));
    let pixels = [0u8; 12];
    let frame = VideoFrame {
        pixels: &pixels,
        width: 4,
        height: 2,
        format: PixelFormat::Nv12,
        pts: Duration::ZERO,
    };
    assert_eq!(check_encode_frame(&frame, &config), Ok(()));
    let i420 = VideoFrame { format: PixelFormat::I420, ..frame };
    assert_eq!(
        check_encode_frame(&i420, &config),
        Err(Error::InvalidConfig("frame format does not match encoder config"))
    );
    let short = VideoFrame { pixels: &pixels[..10], ..frame };
    assert_eq!(
        check_encode_frame(&short, &config),
        Err(Error::PixelBufferMismatch { expected: 12, actual: 10 })
    );
    let other = VideoFrame { pixels: &pixels, width: 2, height: 4, ..frame };
    assert_eq!(
        check_encode_frame(&other, &config),
        Err(Error::InvalidConfig("frame dimensions mismatch"))
    );
}

#[test]
fn encoder_output_packaging() {
    let au = [0, 0, 0, 1, 0x67, 0x42, 0, 0, 0, 1, 0x65, 0x88];
    assert_eq!(package_h264_output(&au, BitstreamFormat::AnnexB), Ok(au.to_vec()));
    assert_eq!(
        package_h264_output(&au, BitstreamFormat::LengthPrefixed),
        Ok(vec![0, 0, 0, 2, 0x67, 0x42, 0, 0, 0, 2, 0x65, 0x88])
    );
    assert_eq!(
        package_h264_output(&au, BitstreamFormat::Av1Obu),
        Err(Error::InvalidConfig("AV1 OBU output invalid for H.264"))
    );
    assert!(output_is_keyframe(false, &au));
    assert!(output_is_keyframe(true, &[0, 0, 0, 1, 0x41]));
    assert!(!output_is_keyframe(false, &[0, 0, 0, 1, 0x41]));
    assert_eq!(keyframe_parameter_sets(&au), Some(vec![0, 0, 0, 1, 0x67, 0x42]));
    assert_eq!(keyframe_parameter_sets(&[0, 0, 0, 1, 0x41]), None);
}

#[test]
fn decoder_input_framing() {
    let lp = EncodedUnit::new(vec![0, 0, 0, 1, 0x65], true, Duration::ZERO, BitstreamFormat::LengthPrefixed);
    assert_eq!(unit_to_annex_b(&lp), Ok(vec![0, 0, 0, 1, 0x65]));
    let bad = EncodedUnit::new(vec![0, 0, 0, 7, 0x65], true, Duration::ZERO, BitstreamFormat::LengthPrefixed);
    assert_eq!(
        unit_to_annex_b(&bad),
        Err(Error::Backend { message: "invalid bitstream data: length-prefixed NAL overrun".to_string() })
    );
    let av1 = EncodedUnit::new(vec![1], true, Duration::ZERO, BitstreamFormat::Av1Obu);
    assert_eq!(unit_to_annex_b(&av1), Err(Error::InvalidBitstream("AV1 bitstream in H.264 decoder")));
    let annex = EncodedUnit::new(vec![0, 0, 1, 0x65, 0x88], true, Duration::ZERO, BitstreamFormat::AnnexB);
    assert_eq!(unit_to_length_prefixed(&annex), Ok(vec![0, 0, 0, 2, 0x65, 0x88]));
    assert_eq!(unit_to_length_prefixed(&lp), Ok(vec![0, 0, 0, 1, 0x65]));
}

#[test]
fn platform_fallback_registration() {
    assert_eq!(
        vidcodec::mediacodec::try_register(),
        Err(Error::Backend { message: "MediaCodec backend is only available on Android".to_string() })
    );
    assert_eq!(
        vidcodec::mf::try_register(),
        Err(Error::Backend { message: "Media Foundation backend is only available on Windows".to_string() })
    );
    assert_eq!(
        vidcodec::nvenc::try_register(),
        Err(Error::Backend { message: "NVENC/NVDEC is only available on Linux and Windows".to_string() })
    );
}

#[test]
fn mediacodec_buffer_classification() {
    assert_eq!(classify_encoder_output(2), EncoderOutput::CodecConfig);
    assert_eq!(classify_encoder_output(3), EncoderOutput::CodecConfig);
    assert_eq!(classify_encoder_output(1), EncoderOutput::AccessUnit { keyframe_flag: true });
    assert_eq!(classify_encoder_output(0), EncoderOutput::AccessUnit { keyframe_flag: false });
    assert_eq!(classify_decoder_output(4, 100), DecoderOutput::EndOfStream);
    assert_eq!(classify_decoder_output(0, 0), DecoderOutput::Empty);
    assert_eq!(classify_decoder_output(1, 10), DecoderOutput::Picture);
    assert_eq!(input_buffer_flags(true), 1);
    assert_eq!(input_buffer_flags(false), 0);
    assert_eq!(output_pts_micros(-5), 0);
    assert_eq!(output_pts_micros(33_000), 33_000);
    assert_eq!(bitrate_parameter(3_000_000_000), i32::MAX);
    assert_eq!(bitrate_parameter(64_000), 64_000);
}

#[test]
fn nvenc_codec_capability_from_answers() {
    assert!(codec_capability(CodecId::Hevc, false, vec![Profile::HevcMain]).is_none());
    let cap = codec_capability(CodecId::Hevc, true, vec![]).unwrap();
    assert_eq!(cap.profiles, vec![Profile::HevcMain]);
    assert_eq!(cap.backend, BackendId::Nvenc);
    assert_eq!(cap.direction, Direction::Encode);
    let av1 = codec_capability(CodecId::Av1, true, vec![Profile::H264Main]).unwrap();
    assert_eq!(av1.profiles, vec![Profile::Av1Main, Profile::Av1High, Profile::Av1Professional]);
}

struct IdleDecoder;

impl VideoDecoder for IdleDecoder {
    fn capability(&self) -> &CodecCapability {
        unreachable!()
    }

    fn decode(&mut self, _unit: &EncodedUnit) -> Result<Vec<vidcodec::DecodedFrame>, Error> {
        Ok(Vec::new())
    }
}

#[test]
fn default_session_methods() {
    let mut d = IdleDecoder;
    assert_eq!(d.flush(), Ok(Vec::new()));
    assert_eq!(d.reset(), Ok(()));
}
