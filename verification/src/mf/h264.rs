//! Decisions of the Media Foundation H.264 encoder and decoder sessions.

use vstd::prelude::*;

use crate::capability::{CapabilityModel, CodecCapability};
use crate::decoder::DecoderConfig;
use crate::encoder::EncoderConfig;
use crate::error::Error;
use crate::h264::{
    annex_b_nal_units, annex_b_parameter_sets_to_avcc, error_text, result_view, spec_avcc_record,
};
use crate::platform::{bitstream_err, check_h264_decoder, check_h264_encoder, spec_check_h264_decoder, spec_check_h264_encoder};

verus! {

/// What opening an MF H.264 encoder checks `config` to.
pub open spec fn spec_validate_encoder_config(config: EncoderConfig, cap: CapabilityModel) -> Result<(), Error> {
    spec_check_h264_encoder(config, cap, "MF H.264 expects NV12 or I420 input")
}

/// Checks an encoder config before an MF H.264 encoder is opened.
pub fn validate_encoder_config(config: &EncoderConfig, capability: &CodecCapability) -> (r: Result<(), Error>)
    ensures
        r == spec_validate_encoder_config(*config, capability@),
{
    check_h264_encoder(config, capability, "MF H.264 expects NV12 or I420 input")
}

/// What opening an MF H.264 decoder checks `config` to.
pub open spec fn spec_validate_decoder_config(config: DecoderConfig) -> Result<(), Error> {
    spec_check_h264_decoder(config, "MF H.264 decoder outputs NV12")
}

/// Checks a decoder config before an MF H.264 decoder is opened.
pub fn validate_decoder_config(config: &DecoderConfig) -> (r: Result<(), Error>)
    ensures
        r == spec_validate_decoder_config(*config),
{
    check_h264_decoder(config, "MF H.264 decoder outputs NV12")
}

/// The `MF_MT_MPEG_SEQUENCE_HEADER` an MF decoder is given: the
/// configuration record built from the Annex-B SPS/PPS extradata, if any.
/// A record that cannot be built fails with a backend error carrying the
/// bitstream error's text.
pub fn load_sequence_header(config: &DecoderConfig) -> (r: Result<Option<Vec<u8>>, Error>)
    ensures
        config.extradata is None ==> (r matches Ok(h) && h is None),
        config.extradata matches Some(x) ==> match spec_avcc_record(annex_b_nal_units(x@)) {
            Ok(record) => r matches Ok(Some(h)) && h@ == record,
            Err(f) => r matches Err(Error::Backend { message }) && message@ == error_text(f),
        },
{
    match &config.extradata {
        None => Ok(None),
        Some(extradata) => {
            let built = annex_b_parameter_sets_to_avcc(extradata.as_slice());
            assert(result_view(built) == spec_avcc_record(annex_b_nal_units(extradata@)));
            match built {
                Ok(avcc) => Ok(Some(avcc)),
                Err(e) => Err(bitstream_err(e)),
            }
        },
    }
}

/// How many times a session asks whether the transform accepts input
/// before giving up with backpressure.
pub const INPUT_READY_POLLS: u32 = 100;

/// What a session does after asking the transform for its input status.
#[derive(Debug, Clone, Copy, PartialEq, Eq)]
pub enum InputWait {
    /// The transform accepts data: submit the sample.
    Ready,
    /// Sleep a millisecond and ask again.
    PollAgain,
}

/// Decides after the answer to poll number `polls_done` (counting from 0)
/// whether the transform is ready, is asked again, or the session gives
/// up with backpressure after [`INPUT_READY_POLLS`] refusals.
pub fn input_wait_step(polls_done: u32, accepts_data: bool) -> (r: Result<InputWait, Error>)
    ensures
        accepts_data ==> r == Ok::<InputWait, Error>(InputWait::Ready),
        !accepts_data && polls_done + 1 < INPUT_READY_POLLS ==> r == Ok::<InputWait, Error>(InputWait::PollAgain),
        !accepts_data && polls_done + 1 >= INPUT_READY_POLLS ==> r == Err::<InputWait, Error>(Error::Backpressure),
{
    if accepts_data {
        Ok(InputWait::Ready)
    } else if polls_done < INPUT_READY_POLLS - 1 {
        Ok(InputWait::PollAgain)
    } else {
        Err(Error::Backpressure)
    }
}

} // verus!
