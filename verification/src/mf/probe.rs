//! Capability probing via Media Foundation transform availability.

use vstd::prelude::*;

use crate::capability::{BackendId, CapabilityModel, CodecCapability};
use crate::codec::{CodecId, Direction, Profile};
use crate::error::Error;
use crate::mf::backend::MediaFoundationRuntime;
use crate::platform::{h264_probe_capability, h264_probe_model, law_probe_advertises_default_profiles};
use crate::registry::models;

verus! {

/// Conservative upper bound when per-codec caps are not queried.
pub const DEFAULT_MAX_DIMENSION: u32 = 4096;

/// The capabilities advertised when an H.264 encoder and decoder transform
/// can (or cannot) be created: encode first, then decode.
pub open spec fn probe_models(encoder_available: bool, decoder_available: bool) -> Seq<CapabilityModel> {
    (if encoder_available {
        seq![h264_probe_model(BackendId::MediaFoundation, Direction::Encode, DEFAULT_MAX_DIMENSION)]
    } else {
        Seq::empty()
    }) + (if decoder_available {
        seq![h264_probe_model(BackendId::MediaFoundation, Direction::Decode, DEFAULT_MAX_DIMENSION)]
    } else {
        Seq::empty()
    })
}

/// Builds the capability list of [`probe_models`] from the host's answers.
pub fn probe_capabilities(encoder_available: bool, decoder_available: bool) -> (r: Vec<CodecCapability>)
    ensures
        models(r@) == probe_models(encoder_available, decoder_available),
{
    let mut caps: Vec<CodecCapability> = Vec::new();
    if encoder_available {
        caps.push(h264_probe_capability(BackendId::MediaFoundation, Direction::Encode, DEFAULT_MAX_DIMENSION));
    }
    if decoder_available {
        caps.push(h264_probe_capability(BackendId::MediaFoundation, Direction::Decode, DEFAULT_MAX_DIMENSION));
    }
    assert(models(caps@) =~= probe_models(encoder_available, decoder_available));
    caps
}

/// Probes H.264 encode/decode transform availability; fails when Media
/// Foundation cannot be initialized.
pub fn probe<R: MediaFoundationRuntime>(runtime: &R) -> (r: Result<Vec<CodecCapability>, Error>)
    ensures
        r matches Err(e) ==> call_ensures(R::initialize, (runtime,), Err::<(), Error>(e)),
        r matches Ok(caps) ==> {
            &&& call_ensures(R::initialize, (runtime,), Ok::<(), Error>(()))
            &&& exists|e: bool, d: bool|
                #![trigger probe_models(e, d)]
                call_ensures(R::h264_encoder_available, (runtime,), e) && call_ensures(
                    R::h264_decoder_available,
                    (runtime,),
                    d,
                ) && models(caps@) == probe_models(e, d)
        },
{
    let init = runtime.initialize();
    match init {
        Ok(u) => {
            assert(u == ());
        },
        Err(e) => return Err(e),
    }
    assert(init == Ok::<(), Error>(()));
    let encoder_available = runtime.h264_encoder_available();
    let decoder_available = runtime.h264_decoder_available();
    let caps = probe_capabilities(encoder_available, decoder_available);
    assert(models(caps@) == probe_models(encoder_available, decoder_available));
    Ok(caps)
}

/// The probe advertises one H.264 capability per available direction,
/// encode first, each with the Baseline, Main and High profiles.
pub proof fn law_probe_profiles(encoder_available: bool, decoder_available: bool)
    ensures
        probe_models(encoder_available, decoder_available).len() == (if encoder_available { 1int } else { 0 }) + (
        if decoder_available { 1int } else { 0 }),
        forall|i: int|
            0 <= i < probe_models(encoder_available, decoder_available).len() ==> {
                &&& (#[trigger] probe_models(encoder_available, decoder_available)[i]).profiles == seq![
                    Profile::H264Baseline,
                    Profile::H264Main,
                    Profile::H264High,
                ]
                &&& probe_models(encoder_available, decoder_available)[i].codec == CodecId::H264
                &&& probe_models(encoder_available, decoder_available)[i].max_width == 4096
                &&& probe_models(encoder_available, decoder_available)[i].max_height == 4096
                &&& probe_models(encoder_available, decoder_available)[i].backend == BackendId::MediaFoundation
            },
        encoder_available ==> probe_models(encoder_available, decoder_available)[0].direction == Direction::Encode,
        decoder_available ==> probe_models(encoder_available, decoder_available).last().direction == Direction::Decode,
{
    let m = probe_models(encoder_available, decoder_available);
    assert forall|i: int| 0 <= i < m.len() implies {
        &&& (#[trigger] m[i]).profiles == seq![Profile::H264Baseline, Profile::H264Main, Profile::H264High]
        &&& m[i].codec == CodecId::H264
        &&& m[i].max_width == 4096
        &&& m[i].max_height == 4096
        &&& m[i].backend == BackendId::MediaFoundation
    } by {
        if encoder_available && i == 0 {
            law_probe_advertises_default_profiles(BackendId::MediaFoundation, Direction::Encode, DEFAULT_MAX_DIMENSION, 0, 0);
        } else {
            law_probe_advertises_default_profiles(BackendId::MediaFoundation, Direction::Decode, DEFAULT_MAX_DIMENSION, 0, 0);
        }
    }
}

} // verus!
