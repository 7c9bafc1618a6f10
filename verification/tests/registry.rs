//! Registry, enumeration order and session opening through the public API.

use std::time::Duration;

use vidcodec::{
    enumerate, enumerate_codec, open_decoder, open_encoder, register, reset_registry, Backend,
    BackendId, BitstreamFormat, CodecCapability, CodecId, DecoderConfig, Direction, EncodedUnit,
    EncoderConfig, Error, PixelFormat, Profile, Registry, VideoDecoder, VideoEncoder, VideoFrame,
};

struct MockBackend {
    id: BackendId,
}

impl Backend for MockBackend {
    fn id(&self) -> BackendId {
        self.id
    }

    fn enumerate(&self, direction: Direction) -> Vec<CodecCapability> {
        vec![CodecCapability::builder(CodecId::H264, self.id, direction)
            .profile(Profile::H264Main)
            .build()]
    }

    fn open_encoder(
        &self,
        cap: &CodecCapability,
        config: EncoderConfig,
    ) -> Result<Box<dyn VideoEncoder>, Error> {
        Ok(Box::new(MockEncoder {
            cap: cap.clone(),
            config,
        }))
    }

    fn open_decoder(
        &self,
        cap: &CodecCapability,
        _config: DecoderConfig,
    ) -> Result<Box<dyn VideoDecoder>, Error> {
        let _ = cap;
        Err(Error::NotImplemented("mock decoder"))
    }
}

struct MockEncoder {
    cap: CodecCapability,
    config: EncoderConfig,
}

impl VideoEncoder for MockEncoder {
    fn capability(&self) -> &CodecCapability {
        &self.cap
    }

    fn reconfigure(&mut self, config: EncoderConfig) -> Result<(), Error> {
        config.validate()?;
        self.config = config;
        Ok(())
    }

    fn set_bitrate(&mut self, bitrate_bps: u32) {
        self.config.bitrate = bitrate_bps;
    }

    fn force_keyframe(&mut self) {}

    fn encode(&mut self, frame: VideoFrame<'_>) -> Result<Vec<EncodedUnit>, Error> {
        frame.validate()?;
        Ok(vec![EncodedUnit::new(
            b"\x00\x00\x00\x01mock".to_vec(),
            true,
            frame.pts,
            self.config.bitstream,
        )])
    }
}

/// A backend offering one capability per codec in reverse codec order.
struct MultiCodecBackend {
    id: BackendId,
}

impl Backend for MultiCodecBackend {
    fn id(&self) -> BackendId {
        self.id
    }

    fn enumerate(&self, direction: Direction) -> Vec<CodecCapability> {
        vec![
            CodecCapability::builder(CodecId::Av1, self.id, direction)
                .profile(Profile::Av1Main)
                .build(),
            CodecCapability::builder(CodecId::Hevc, self.id, direction)
                .profile(Profile::HevcMain)
                .build(),
            CodecCapability::builder(CodecId::H264, self.id, direction)
                .profile(Profile::H264High)
                .build(),
        ]
    }

    fn open_encoder(
        &self,
        _cap: &CodecCapability,
        _config: EncoderConfig,
    ) -> Result<Box<dyn VideoEncoder>, Error> {
        Err(Error::NotImplemented("multi encoder"))
    }

    fn open_decoder(
        &self,
        _cap: &CodecCapability,
        _config: DecoderConfig,
    ) -> Result<Box<dyn VideoDecoder>, Error> {
        Err(Error::NotImplemented("multi decoder"))
    }
}

fn setup_vaapi() -> Registry<MockBackend> {
    let mut registry = Registry::new();
    reset_registry(&mut registry);
    register(&mut registry, MockBackend { id: BackendId::Vaapi });
    registry
}

#[test]
fn enumerate_returns_registered_capabilities() {
    let registry = setup_vaapi();
    let caps = enumerate(&registry, Direction::Encode);
    assert_eq!(caps.len(), 1);
    assert_eq!(caps[0].codec, CodecId::H264);
    assert_eq!(caps[0].backend, BackendId::Vaapi);
}

#[test]
fn enumerate_sorts_by_backend_preference() {
    let mut registry = Registry::new();
    reset_registry(&mut registry);
    register(&mut registry, MockBackend { id: BackendId::Vaapi });
    register(&mut registry, MockBackend { id: BackendId::Nvenc });

    let caps = enumerate_codec(&registry, CodecId::H264, Direction::Encode);
    assert_eq!(caps.len(), 2);
    assert_eq!(caps[0].backend, BackendId::Nvenc);
    assert_eq!(caps[1].backend, BackendId::Vaapi);
}

#[test]
fn open_encoder_roundtrip() {
    let registry = setup_vaapi();
    let cap = enumerate_codec(&registry, CodecId::H264, Direction::Encode)
        .into_iter()
        .next()
        .unwrap();
    let config = EncoderConfig::new(640, 480, (30, 1)).with_codec(CodecId::H264);
    let mut encoder = open_encoder(&registry, &cap, config).unwrap();
    encoder.set_bitrate(1_000_000);
    encoder.force_keyframe();

    let frame = VideoFrame {
        pixels: &vec![0u8; PixelFormat::Nv12.frame_size(640, 480).unwrap()],
        width: 640,
        height: 480,
        format: PixelFormat::Nv12,
        pts: Duration::ZERO,
    };
    let units = encoder.encode(frame).unwrap();
    assert_eq!(units.len(), 1);
    assert!(units[0].is_keyframe);
}

#[test]
fn enumerate_orders_backend_then_codec_and_keeps_all() {
    let mut registry = Registry::new();
    register(&mut registry, MultiCodecBackend { id: BackendId::MediaFoundation });
    register(&mut registry, MultiCodecBackend { id: BackendId::VideoToolbox });
    register(&mut registry, MultiCodecBackend { id: BackendId::Vaapi });
    let caps = enumerate(&registry, Direction::Decode);
    let order: Vec<(BackendId, CodecId)> = caps.iter().map(|c| (c.backend, c.codec)).collect();
    assert_eq!(
        order,
        vec![
            (BackendId::VideoToolbox, CodecId::H264),
            (BackendId::VideoToolbox, CodecId::Hevc),
            (BackendId::VideoToolbox, CodecId::Av1),
            (BackendId::Vaapi, CodecId::H264),
            (BackendId::Vaapi, CodecId::Hevc),
            (BackendId::Vaapi, CodecId::Av1),
            (BackendId::MediaFoundation, CodecId::H264),
            (BackendId::MediaFoundation, CodecId::Hevc),
            (BackendId::MediaFoundation, CodecId::Av1),
        ]
    );
    assert!(caps.iter().all(|c| c.direction == Direction::Decode));
}

#[test]
fn enumerate_keeps_registration_order_for_equal_keys() {
    let mut registry = Registry::new();
    register(&mut registry, MultiCodecBackend { id: BackendId::Nvenc });
    register(&mut registry, MultiCodecBackend { id: BackendId::Nvenc });
    let caps = enumerate_codec(&registry, CodecId::Hevc, Direction::Encode);
    assert_eq!(caps.len(), 2);
    assert!(caps.iter().all(|c| c.backend == BackendId::Nvenc && c.codec == CodecId::Hevc));
}

#[test]
fn enumerate_empty_registry_is_empty() {
    let registry: Registry<MockBackend> = Registry::new();
    assert!(enumerate(&registry, Direction::Encode).is_empty());
    assert_eq!(registry.len(), 0);
}

#[test]
fn reset_registry_removes_backends() {
    let mut registry = setup_vaapi();
    assert_eq!(registry.len(), 1);
    reset_registry(&mut registry);
    assert_eq!(registry.len(), 0);
    assert!(enumerate(&registry, Direction::Encode).is_empty());
}

#[test]
fn open_encoder_rejects_decode_capability() {
    let registry = setup_vaapi();
    let cap = enumerate(&registry, Direction::Decode).remove(0);
    let config = EncoderConfig::new(640, 480, (30, 1));
    match open_encoder(&registry, &cap, config) {
        Err(e) => assert_eq!(e, Error::InvalidConfig("capability is not an encoder")),
        Ok(_) => panic!("decode capability opened an encoder"),
    }
}

#[test]
fn open_encoder_rejects_codec_mismatch() {
    let registry = setup_vaapi();
    let cap = enumerate(&registry, Direction::Encode).remove(0);
    let config = EncoderConfig::new(640, 480, (30, 1)).with_codec(CodecId::Hevc);
    match open_encoder(&registry, &cap, config) {
        Err(e) => assert_eq!(e, Error::InvalidConfig("config codec does not match capability")),
        Ok(_) => panic!("codec mismatch accepted"),
    }
}

#[test]
fn open_encoder_reports_invalid_config() {
    let registry = setup_vaapi();
    let cap = enumerate(&registry, Direction::Encode).remove(0);
    let config = EncoderConfig::new(0, 480, (30, 1));
    match open_encoder(&registry, &cap, config) {
        Err(e) => assert_eq!(e, Error::InvalidConfig("width and height must be non-zero")),
        Ok(_) => panic!("invalid config accepted"),
    }
}

#[test]
fn open_encoder_without_backend_is_no_backend() {
    let registry = setup_vaapi();
    let cap = CodecCapability::builder(CodecId::H264, BackendId::Nvenc, Direction::Encode)
        .profile(Profile::H264Main)
        .build();
    let config = EncoderConfig::new(640, 480, (30, 1));
    match open_encoder(&registry, &cap, config) {
        Err(e) => assert_eq!(
            e,
            Error::NoBackend {
                codec: CodecId::H264,
                backend: BackendId::Nvenc,
                direction: Direction::Encode,
            }
        ),
        Ok(_) => panic!("opened through a backend that is not registered"),
    }
}

#[test]
fn open_decoder_checks_then_delegates() {
    let registry = setup_vaapi();
    let enc_cap = enumerate(&registry, Direction::Encode).remove(0);
    match open_decoder(&registry, &enc_cap, DecoderConfig::new(CodecId::H264)) {
        Err(e) => assert_eq!(e, Error::InvalidConfig("capability is not a decoder")),
        Ok(_) => panic!("encode capability opened a decoder"),
    }
    let dec_cap = enumerate(&registry, Direction::Decode).remove(0);
    match open_decoder(&registry, &dec_cap, DecoderConfig::new(CodecId::Av1)) {
        Err(e) => assert_eq!(e, Error::InvalidConfig("config codec does not match capability")),
        Ok(_) => panic!("codec mismatch accepted"),
    }
    let bad = DecoderConfig::new(CodecId::H264).with_bitstream(BitstreamFormat::Av1Obu);
    match open_decoder(&registry, &dec_cap, bad) {
        Err(e) => assert_eq!(e, Error::InvalidConfig("bitstream format invalid for codec")),
        Ok(_) => panic!("invalid framing accepted"),
    }
    match open_decoder(&registry, &dec_cap, DecoderConfig::new(CodecId::H264)) {
        Err(e) => assert_eq!(e, Error::NotImplemented("mock decoder")),
        Ok(_) => panic!("mock decoder opened"),
    }
}
