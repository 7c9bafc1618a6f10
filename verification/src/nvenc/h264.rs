//! Decisions of the NVENC H.264 encoder and NVDEC H.264 decoder sessions.

use vstd::prelude::*;

use crate::capability::{CapabilityModel, CodecCapability};
use crate::codec::{CodecId, Profile};
use crate::decoder::DecoderConfig;
use crate::encoder::EncoderConfig;
use crate::error::Error;
use crate::platform::{check_h264_decoder, check_h264_encoder, spec_check_h264_decoder, spec_check_h264_encoder};

verus! {

/// What opening an NVENC H.264 encoder checks `config` to.
pub open spec fn spec_validate_encoder_config(config: EncoderConfig, cap: CapabilityModel) -> Result<(), Error> {
    spec_check_h264_encoder(config, cap, "NVENC H.264 expects NV12 or I420 input")
}

/// Checks an encoder config before an NVENC H.264 session is opened.
pub fn validate_encoder_config(config: &EncoderConfig, capability: &CodecCapability) -> (r: Result<(), Error>)
    ensures
        r == spec_validate_encoder_config(*config, capability@),
{
    check_h264_encoder(config, capability, "NVENC H.264 expects NV12 or I420 input")
}

/// What opening an NVDEC H.264 decoder checks `config` to.
pub open spec fn spec_validate_decoder_config(config: DecoderConfig) -> Result<(), Error> {
    spec_check_h264_decoder(config, "NVDEC H.264 outputs NV12")
}

/// Checks a decoder config before an NVDEC H.264 session is opened.
pub fn validate_decoder_config(config: &DecoderConfig) -> (r: Result<(), Error>)
    ensures
        r == spec_validate_decoder_config(*config),
{
    check_h264_decoder(config, "NVDEC H.264 outputs NV12")
}

/// The NVENC H.264 profile GUIDs a session can be configured with.
#[derive(Debug, Clone, Copy, PartialEq, Eq, Structural)]
pub enum NvencH264Profile {
    /// `NV_ENC_H264_PROFILE_BASELINE_GUID`.
    Baseline,
    /// `NV_ENC_H264_PROFILE_MAIN_GUID`.
    Main,
    /// `NV_ENC_H264_PROFILE_HIGH_GUID`.
    High,
}

/// The NVENC profile GUID for an H.264 profile, if there is one.
pub open spec fn spec_profile_to_h264(profile: Profile) -> Option<NvencH264Profile> {
    match profile {
        Profile::H264Baseline | Profile::H264ConstrainedBaseline => Some(NvencH264Profile::Baseline),
        Profile::H264Main => Some(NvencH264Profile::Main),
        Profile::H264High => Some(NvencH264Profile::High),
        _ => None,
    }
}

/// Maps [`Profile`] to an H.264 NVENC profile GUID.
pub fn profile_to_h264_guid(profile: Profile) -> (r: Option<NvencH264Profile>)
    ensures
        r == spec_profile_to_h264(profile),
{
    match profile {
        Profile::H264Baseline | Profile::H264ConstrainedBaseline => Some(NvencH264Profile::Baseline),
        Profile::H264Main => Some(NvencH264Profile::Main),
        Profile::H264High => Some(NvencH264Profile::High),
        _ => None,
    }
}

/// NVENC rate-control modes used by the H.264 sessions.
#[derive(Debug, Clone, Copy, PartialEq, Eq, Structural)]
pub enum RateControl {
    /// Constant bitrate (no peak given).
    Cbr,
    /// Variable bitrate up to a peak.
    Vbr,
}

/// The values an NVENC H.264 session is configured with on top of the
/// P4 / ultra-low-latency preset.
#[derive(Debug, Clone, Copy, PartialEq, Eq, Structural)]
pub struct EncodeSettings {
    /// `profileGUID`.
    pub profile: NvencH264Profile,
    /// `gopLength`.
    pub gop_length: u32,
    /// `frameIntervalP` (1: no B-frames).
    pub frame_interval_p: u32,
    /// `h264Config.idrPeriod`.
    pub idr_period: u32,
    /// `h264Config.repeatSPSPPS`.
    pub repeat_sps_pps: bool,
    /// `h264Config.outputAUD`.
    pub output_aud: bool,
    /// `h264Config.disableDeblockingFilterIDC` set (baseline only).
    pub disable_deblocking: bool,
    /// `rcParams.rateControlMode`.
    pub rate_control: RateControl,
    /// `rcParams.averageBitRate`.
    pub average_bitrate: u32,
    /// `rcParams.maxBitRate`.
    pub max_bitrate: u32,
}

/// The settings of an NVENC H.264 session for `config` with profile `p`.
pub open spec fn spec_encode_settings(config: EncoderConfig, p: NvencH264Profile) -> EncodeSettings {
    EncodeSettings {
        profile: p,
        gop_length: config.gop_size,
        frame_interval_p: 1,
        idr_period: config.gop_size,
        repeat_sps_pps: true,
        output_aud: true,
        disable_deblocking: p == NvencH264Profile::Baseline,
        rate_control: if config.max_bitrate is Some { RateControl::Vbr } else { RateControl::Cbr },
        average_bitrate: config.bitrate,
        max_bitrate: match config.max_bitrate {
            Some(m) => m,
            None => config.bitrate,
        },
    }
}

/// Computes the session settings for `config`; fails with `InvalidConfig`
/// when NVENC has no profile GUID for the profile.
pub fn encode_settings(config: &EncoderConfig) -> (r: Result<EncodeSettings, Error>)
    ensures
        spec_profile_to_h264(config.profile) is None ==> r == Err::<EncodeSettings, Error>(
            Error::InvalidConfig("unsupported H.264 profile"),
        ),
        spec_profile_to_h264(config.profile) matches Some(p) ==> r == Ok::<EncodeSettings, Error>(
            spec_encode_settings(*config, p),
        ),
{
    let profile = match profile_to_h264_guid(config.profile) {
        Some(p) => p,
        None => return Err(Error::InvalidConfig("unsupported H.264 profile")),
    };
    let max_bitrate = match config.max_bitrate {
        Some(m) => m,
        None => config.bitrate,
    };
    Ok(EncodeSettings {
        profile,
        gop_length: config.gop_size,
        frame_interval_p: 1,
        idr_period: config.gop_size,
        repeat_sps_pps: true,
        output_aud: true,
        disable_deblocking: profile == NvencH264Profile::Baseline,
        rate_control: if config.max_bitrate.is_some() { RateControl::Vbr } else { RateControl::Cbr },
        average_bitrate: config.bitrate,
        max_bitrate,
    })
}

/// The NVENC session settings carry the config's target bitrate as the
/// average bitrate, whatever peak is given; a peak makes the session VBR
/// with that peak as its maximum, and without one the session is CBR at
/// the target. GOP and IDR period are the config's GOP, with no B-frames.
pub proof fn law_encode_settings_rates(config: EncoderConfig, p: NvencH264Profile)
    ensures
        spec_encode_settings(config, p).average_bitrate == config.bitrate,
        spec_encode_settings(config, p).profile == p,
        config.max_bitrate matches Some(peak) ==> spec_encode_settings(config, p).rate_control == RateControl::Vbr
            && spec_encode_settings(config, p).max_bitrate == peak,
        config.max_bitrate is None ==> spec_encode_settings(config, p).rate_control == RateControl::Cbr
            && spec_encode_settings(config, p).max_bitrate == config.bitrate,
        spec_encode_settings(config, p).gop_length == config.gop_size,
        spec_encode_settings(config, p).idr_period == config.gop_size,
        spec_encode_settings(config, p).frame_interval_p == 1,
        spec_encode_settings(config, p).repeat_sps_pps,
        spec_encode_settings(config, p).output_aud,
        spec_encode_settings(config, p).disable_deblocking == (p == NvencH264Profile::Baseline),
{
}

/// Each H.264 profile has its NVENC profile GUID (constrained baseline
/// shares Baseline's); profiles of other codecs have none.
pub proof fn law_h264_profile_guids(profile: Profile)
    ensures
        profile == Profile::H264Baseline || profile == Profile::H264ConstrainedBaseline ==> spec_profile_to_h264(profile)
            == Some(NvencH264Profile::Baseline),
        profile == Profile::H264Main ==> spec_profile_to_h264(profile) == Some(NvencH264Profile::Main),
        profile == Profile::H264High ==> spec_profile_to_h264(profile) == Some(NvencH264Profile::High),
        crate::codec::profile_codec(profile) != CodecId::H264 ==> spec_profile_to_h264(profile) is None,
{
}

} // verus!
