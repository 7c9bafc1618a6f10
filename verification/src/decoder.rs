//! Video decoder configuration and trait.

use vstd::prelude::*;

use crate::bitstream::{
    default_bitstream, format_valid_for_codec, formats_for_codec, spec_default_bitstream,
    BitstreamFormat,
};
use crate::capability::CodecCapability;
use crate::codec::CodecId;
use crate::error::Error;
use crate::frame::{DecodedFrame, EncodedUnit};
use crate::pixel::PixelFormat;

verus! {

/// Parameters for opening a hardware decoder.
#[derive(Debug, Clone, PartialEq, Eq)]
pub struct DecoderConfig {
    /// Expected video codec.
    pub codec: CodecId,
    /// How incoming [`EncodedUnit`] payloads are framed.
    pub bitstream: BitstreamFormat,
    /// Preferred output pixel layout.
    pub output_format: PixelFormat,
    /// Low-latency decode tuning when supported by the backend.
    pub low_latency: bool,
    /// Optional out-of-band SPS/PPS (Annex-B) supplied at session start.
    pub extradata: Option<Vec<u8>>,
}

/// What `DecoderConfig::validate` returns for `c`.
pub open spec fn spec_validate_decoder_config(c: DecoderConfig) -> Result<(), Error> {
    if !formats_for_codec(c.codec).contains(c.bitstream) {
        Err(Error::InvalidConfig("bitstream format invalid for codec"))
    } else {
        Ok(())
    }
}

/// A decoder config that uses its codec's default framing (as
/// [`DecoderConfig::new`] makes it) is valid.
pub proof fn law_default_framing_valid(config: DecoderConfig)
    requires
        config.bitstream == spec_default_bitstream(config.codec),
    ensures
        spec_validate_decoder_config(config) is Ok,
{
    assert(formats_for_codec(config.codec)[0] == spec_default_bitstream(config.codec));
}

impl DecoderConfig {
    /// Creates a decoder config with real-time defaults for `codec`: the
    /// codec's default framing, NV12 output, low latency, no extradata.
    pub fn new(codec: CodecId) -> (r: Self)
        ensures
            r.codec == codec,
            r.bitstream == spec_default_bitstream(codec),
            r.output_format == PixelFormat::Nv12,
            r.low_latency,
            r.extradata is None,
    {
        DecoderConfig {
            codec,
            bitstream: default_bitstream(codec),
            output_format: PixelFormat::Nv12,
            low_latency: true,
            extradata: None,
        }
    }

    /// Sets expected bitstream framing.
    pub fn with_bitstream(self, bitstream: BitstreamFormat) -> (r: Self)
        ensures
            r == (DecoderConfig { bitstream, ..self }),
    {
        let mut s = self;
        s.bitstream = bitstream;
        s
    }

    /// Sets preferred decoded pixel format.
    pub fn with_output_format(self, format: PixelFormat) -> (r: Self)
        ensures
            r == (DecoderConfig { output_format: format, ..self }),
    {
        let mut s = self;
        s.output_format = format;
        s
    }

    /// Sets out-of-band codec parameter sets (Annex-B SPS/PPS for H.264).
    pub fn with_extradata(self, extradata: Vec<u8>) -> (r: Self)
        ensures
            r == (DecoderConfig { extradata: Some(extradata), ..self }),
    {
        let mut s = self;
        s.extradata = Some(extradata);
        s
    }

    /// Validates fields.
    ///
    /// Fails with [`Error::InvalidConfig`] when the framing does not suit the codec.
    pub fn validate(&self) -> (r: Result<(), Error>)
        ensures
            r == spec_validate_decoder_config(*self),
    {
        if !format_valid_for_codec(self.codec, self.bitstream) {
            return Err(Error::InvalidConfig("bitstream format invalid for codec"));
        }
        Ok(())
    }
}

/// Hardware video decoder instance.
pub trait VideoDecoder: Send {
    /// Active capability descriptor for this instance.
    fn capability(&self) -> &CodecCapability;

    /// Feeds one compressed access unit; may return zero frames when more
    /// input is required (codec delay).
    fn decode(&mut self, unit: &EncodedUnit) -> Result<Vec<DecodedFrame>, Error>;

    /// Flushes internal delay buffers at end-of-stream.
    fn flush(&mut self) -> (r: Result<Vec<DecodedFrame>, Error>)
        default_ensures
            r matches Ok(frames) && frames@.len() == 0,
    {
        Ok(Vec::new())
    }

    /// Resets decoder state after a keyframe request or large gap.
    fn reset(&mut self) -> (r: Result<(), Error>)
        default_ensures
            r is Ok,
    {
        Ok(())
    }
}

} // verus!
