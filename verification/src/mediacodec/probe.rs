//! Capability probing via Android MediaCodec.

use vstd::prelude::*;

use crate::capability::{BackendId, CapabilityModel, CodecCapability};
use crate::codec::{CodecId, Direction, Profile};
use crate::error::Error;
use crate::mediacodec::backend::MediaCodecRuntime;
use crate::platform::{h264_probe_capability, h264_probe_model, law_probe_advertises_default_profiles};
use crate::registry::models;

verus! {

/// Conservative upper bound when per-codec caps are not queried.
pub const DEFAULT_MAX_DIMENSION: u32 = 4096;

/// The capabilities advertised when the device has (or lacks) an H.264
/// encoder and decoder: encode first, then decode.
pub open spec fn probe_models(encoder_available: bool, decoder_available: bool) -> Seq<CapabilityModel> {
    (if encoder_available {
        seq![h264_probe_model(BackendId::MediaCodec, Direction::Encode, DEFAULT_MAX_DIMENSION)]
    } else {
        Seq::empty()
    }) + (if decoder_available {
        seq![h264_probe_model(BackendId::MediaCodec, Direction::Decode, DEFAULT_MAX_DIMENSION)]
    } else {
        Seq::empty()
    })
}

/// Builds the capability list of [`probe_models`] from the device's answers.
pub fn probe_capabilities(encoder_available: bool, decoder_available: bool) -> (r: Vec<CodecCapability>)
    ensures
        models(r@) == probe_models(encoder_available, decoder_available),
{
    let mut caps: Vec<CodecCapability> = Vec::new();
    if encoder_available {
        caps.push(h264_probe_capability(BackendId::MediaCodec, Direction::Encode, DEFAULT_MAX_DIMENSION));
    }
    if decoder_available {
        caps.push(h264_probe_capability(BackendId::MediaCodec, Direction::Decode, DEFAULT_MAX_DIMENSION));
    }
    assert(models(caps@) =~= probe_models(encoder_available, decoder_available));
    caps
}

/// Probes H.264 encode/decode support on the device: asks the runtime
/// whether a `video/avc` encoder and decoder can be created.
pub fn probe<R: MediaCodecRuntime>(runtime: &R) -> (r: Result<Vec<CodecCapability>, Error>)
    ensures
        r matches Ok(caps) && exists|e: bool, d: bool|
            #![trigger probe_models(e, d)]
            call_ensures(R::codec_available, (runtime, "video/avc", true), e) && call_ensures(
                R::codec_available,
                (runtime, "video/avc", false),
                d,
            ) && models(caps@) == probe_models(e, d),
{
    let encoder_available = runtime.codec_available("video/avc", true);
    let decoder_available = runtime.codec_available("video/avc", false);
    let caps = probe_capabilities(encoder_available, decoder_available);
    assert(models(caps@) == probe_models(encoder_available, decoder_available));
    Ok(caps)
}

/// The probe advertises one H.264 capability per available direction,
/// encode first, each with the Baseline, Main and High profiles.
pub proof fn law_probe_profiles(encoder_available: bool, decoder_available: bool)
    ensures
        probe_models(encoder_available, decoder_available).len() == (if encoder_available { 1int } else { 0 }) + (
        if decoder_available { 1int } else { 0 }),
        forall|i: int|
            0 <= i < probe_models(encoder_available, decoder_available).len() ==> {
                &&& (#[trigger] probe_models(encoder_available, decoder_available)[i]).profiles == seq![
                    Profile::H264Baseline,
                    Profile::H264Main,
                    Profile::H264High,
                ]
                &&& probe_models(encoder_available, decoder_available)[i].codec == CodecId::H264
                &&& probe_models(encoder_available, decoder_available)[i].max_width == 4096
                &&& probe_models(encoder_available, decoder_available)[i].max_height == 4096
                &&& probe_models(encoder_available, decoder_available)[i].backend == BackendId::MediaCodec
            },
        encoder_available ==> probe_models(encoder_available, decoder_available)[0].direction == Direction::Encode,
        decoder_available ==> probe_models(encoder_available, decoder_available).last().direction == Direction::Decode,
{
    let m = probe_models(encoder_available, decoder_available);
    assert forall|i: int| 0 <= i < m.len() implies {
        &&& (#[trigger] m[i]).profiles == seq![Profile::H264Baseline, Profile::H264Main, Profile::H264High]
        &&& m[i].codec == CodecId::H264
        &&& m[i].max_width == 4096
        &&& m[i].max_height == 4096
        &&& m[i].backend == BackendId::MediaCodec
    } by {
        if encoder_available && i == 0 {
            law_probe_advertises_default_profiles(BackendId::MediaCodec, Direction::Encode, DEFAULT_MAX_DIMENSION, 0, 0);
        } else {
            law_probe_advertises_default_profiles(BackendId::MediaCodec, Direction::Decode, DEFAULT_MAX_DIMENSION, 0, 0);
        }
    }
}

} // verus!
