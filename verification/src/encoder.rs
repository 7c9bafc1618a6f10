//! Video encoder configuration and trait.

use core::time::Duration;

use vstd::prelude::*;

use crate::bitstream::{
    default_bitstream, format_valid_for_codec, formats_for_codec, spec_default_bitstream,
    BitstreamFormat,
};
use crate::capability::CodecCapability;
use crate::codec::{profile_codec, CodecId, Profile};
use crate::error::Error;
use crate::frame::{EncodedUnit, VideoFrame};
use crate::pixel::PixelFormat;

verus! {

/// Parameters for opening or reconfiguring a hardware encoder.
#[derive(Debug, Clone, Copy, PartialEq, Eq)]
pub struct EncoderConfig {
    /// Target video codec.
    pub codec: CodecId,
    /// Picture width in pixels.
    pub width: u32,
    /// Picture height in pixels.
    pub height: u32,
    /// Frame rate as `(numerator, denominator)` — e.g. `(30, 1)` for 30 fps.
    pub frame_rate: (u32, u32),
    /// Target bitrate in bits per second.
    pub bitrate: u32,
    /// Optional peak bitrate cap (VBR).
    pub max_bitrate: Option<u32>,
    /// Negotiated profile.
    pub profile: Profile,
    /// Expected uncompressed input layout.
    pub input_format: PixelFormat,
    /// How encoded units are emitted.
    pub bitstream: BitstreamFormat,
    /// Prefer low-latency presets (no B-frames, short GOP).
    pub low_latency: bool,
    /// Maximum interval between keyframes in frames (`1` = all-intra).
    pub gop_size: u32,
    /// Maximum encoder buffering before [`Error::Backpressure`] is returned.
    pub max_inflight_frames: u32,
}

/// The profile a codec uses unless told otherwise.
pub open spec fn spec_default_profile(codec: CodecId) -> Profile {
    match codec {
        CodecId::H264 => Profile::H264Main,
        CodecId::Hevc => Profile::HevcMain,
        CodecId::Av1 => Profile::Av1Main,
    }
}

/// What `EncoderConfig::validate` returns for `c`.
pub open spec fn spec_validate_encoder_config(c: EncoderConfig) -> Result<(), Error> {
    if c.width == 0 || c.height == 0 {
        Err(Error::InvalidConfig("width and height must be non-zero"))
    } else if c.frame_rate.0 == 0 || c.frame_rate.1 == 0 {
        Err(Error::InvalidConfig("frame_rate must be non-zero"))
    } else if c.bitrate == 0 {
        Err(Error::InvalidConfig("bitrate must be non-zero"))
    } else if profile_codec(c.profile) != c.codec {
        Err(Error::InvalidConfig("profile does not match codec"))
    } else if !formats_for_codec(c.codec).contains(c.bitstream) {
        Err(Error::InvalidConfig("bitstream format invalid for codec"))
    } else if c.gop_size == 0 {
        Err(Error::InvalidConfig("gop_size must be non-zero"))
    } else {
        Ok(())
    }
}

/// The config [`EncoderConfig::new`] makes for `width × height` at
/// `frame_rate`.
pub open spec fn default_encoder_config(width: u32, height: u32, frame_rate: (u32, u32)) -> EncoderConfig {
    EncoderConfig {
        codec: CodecId::H264,
        width,
        height,
        frame_rate,
        bitrate: 2_000_000,
        max_bitrate: None,
        profile: Profile::H264Main,
        input_format: PixelFormat::Nv12,
        bitstream: BitstreamFormat::AnnexB,
        low_latency: true,
        gop_size: 60,
        max_inflight_frames: 2,
    }
}

/// A config made by [`EncoderConfig::new`] is valid exactly when its
/// picture size and both parts of its frame rate are non-zero.
pub proof fn law_new_config_valid(width: u32, height: u32, frame_rate: (u32, u32))
    ensures
        spec_validate_encoder_config(default_encoder_config(width, height, frame_rate)) is Ok <==> (width > 0
            && height > 0 && frame_rate.0 > 0 && frame_rate.1 > 0),
{
    assert(formats_for_codec(CodecId::H264)[0] == BitstreamFormat::AnnexB);
}

/// Switching a valid config to another codec (with that codec's default
/// profile and framing, as [`EncoderConfig::with_codec`] does) keeps it
/// valid.
pub proof fn law_with_codec_keeps_valid(config: EncoderConfig, codec: CodecId)
    requires
        spec_validate_encoder_config(config) is Ok,
    ensures
        spec_validate_encoder_config(
            EncoderConfig {
                codec,
                profile: spec_default_profile(codec),
                bitstream: spec_default_bitstream(codec),
                ..config
            },
        ) is Ok,
{
    assert(formats_for_codec(codec)[0] == spec_default_bitstream(codec));
}

impl EncoderConfig {
    /// Creates a config with real-time defaults for `width × height` at
    /// `frame_rate`: H.264 Main, NV12 input, Annex-B output, 2 Mbps, GOP 60,
    /// two frames in flight, low latency.
    pub fn new(width: u32, height: u32, frame_rate: (u32, u32)) -> (r: Self)
        ensures
            r == default_encoder_config(width, height, frame_rate),
    {
        EncoderConfig {
            codec: CodecId::H264,
            width,
            height,
            frame_rate,
            bitrate: 2_000_000,
            max_bitrate: None,
            profile: Profile::H264Main,
            input_format: PixelFormat::Nv12,
            bitstream: BitstreamFormat::AnnexB,
            low_latency: true,
            gop_size: 60,
            max_inflight_frames: 2,
        }
    }

    /// Sets the codec family with its default profile and framing.
    pub fn with_codec(self, codec: CodecId) -> (r: Self)
        ensures
            r == (EncoderConfig {
                codec,
                profile: spec_default_profile(codec),
                bitstream: spec_default_bitstream(codec),
                ..self
            }),
    {
        let mut s = self;
        s.codec = codec;
        s.profile = default_profile(codec);
        s.bitstream = default_bitstream(codec);
        s
    }

    /// Sets target bitrate (bits per second).
    pub fn with_bitrate(self, bitrate: u32) -> (r: Self)
        ensures
            r == (EncoderConfig { bitrate, ..self }),
    {
        let mut s = self;
        s.bitrate = bitrate;
        s
    }

    /// Sets optional peak bitrate for VBR encoders.
    pub fn with_max_bitrate(self, max_bitrate: u32) -> (r: Self)
        ensures
            r == (EncoderConfig { max_bitrate: Some(max_bitrate), ..self }),
    {
        let mut s = self;
        s.max_bitrate = Some(max_bitrate);
        s
    }

    /// Sets negotiated profile (must match [`Self::codec`]).
    pub fn with_profile(self, profile: Profile) -> (r: Self)
        ensures
            r == (EncoderConfig { profile, ..self }),
    {
        let mut s = self;
        s.profile = profile;
        s
    }

    /// Sets expected input pixel format.
    pub fn with_input_format(self, format: PixelFormat) -> (r: Self)
        ensures
            r == (EncoderConfig { input_format: format, ..self }),
    {
        let mut s = self;
        s.input_format = format;
        s
    }

    /// Sets output bitstream framing.
    pub fn with_bitstream(self, bitstream: BitstreamFormat) -> (r: Self)
        ensures
            r == (EncoderConfig { bitstream, ..self }),
    {
        let mut s = self;
        s.bitstream = bitstream;
        s
    }

    /// Validates fields.
    ///
    /// Fails with [`Error::InvalidConfig`] when values are inconsistent.
    pub fn validate(&self) -> (r: Result<(), Error>)
        ensures
            r == spec_validate_encoder_config(*self),
    {
        if self.width == 0 || self.height == 0 {
            return Err(Error::InvalidConfig("width and height must be non-zero"));
        }
        if self.frame_rate.0 == 0 || self.frame_rate.1 == 0 {
            return Err(Error::InvalidConfig("frame_rate must be non-zero"));
        }
        if self.bitrate == 0 {
            return Err(Error::InvalidConfig("bitrate must be non-zero"));
        }
        if self.profile.codec() != self.codec {
            return Err(Error::InvalidConfig("profile does not match codec"));
        }
        if !format_valid_for_codec(self.codec, self.bitstream) {
            return Err(Error::InvalidConfig("bitstream format invalid for codec"));
        }
        if self.gop_size == 0 {
            return Err(Error::InvalidConfig("gop_size must be non-zero"));
        }
        Ok(())
    }
}

/// The profile a codec uses unless told otherwise.
pub fn default_profile(codec: CodecId) -> (r: Profile)
    ensures
        r == spec_default_profile(codec),
{
    match codec {
        CodecId::H264 => Profile::H264Main,
        CodecId::Hevc => Profile::HevcMain,
        CodecId::Av1 => Profile::Av1Main,
    }
}

/// Hardware video encoder instance.
pub trait VideoEncoder: Send {
    /// Active capability descriptor for this instance.
    fn capability(&self) -> &CodecCapability;

    /// Applies a new configuration without tearing down the session when possible.
    fn reconfigure(&mut self, config: EncoderConfig) -> Result<(), Error>;

    /// Updates target bitrate without a full reconfigure (for congestion control).
    fn set_bitrate(&mut self, bitrate_bps: u32);

    /// Requests the next output access unit to be a keyframe / sync sample.
    fn force_keyframe(&mut self);

    /// Encodes one uncompressed frame; [`Error::Backpressure`] when the
    /// internal queue is full.
    fn encode(&mut self, frame: VideoFrame<'_>) -> Result<Vec<EncodedUnit>, Error>;

    /// Drains any delayed access units (end-of-stream or flush).
    fn drain(&mut self) -> (r: Result<Vec<EncodedUnit>, Error>)
        default_ensures
            r matches Ok(units) && units@.len() == 0,
    {
        Ok(Vec::new())
    }

    /// Returns the timestamp of the last successfully encoded frame, if any.
    fn last_encoded_pts(&self) -> (r: Option<Duration>)
        default_ensures
            r is None,
    {
        None
    }

    /// Returns cached SPS/PPS (Annex-B) after the most recent IDR, when available.
    fn parameter_sets(&self) -> (r: Option<Vec<u8>>)
        default_ensures
            r is None,
    {
        None
    }
}

} // verus!
