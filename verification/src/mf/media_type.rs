//! Attribute values of the Media Foundation media types.

use vstd::prelude::*;

use crate::encoder::EncoderConfig;
use crate::error::Error;
use crate::mf::profile::{profile_to_mf, spec_profile_to_mf};

verus! {

/// Packs two 32-bit values into one 64-bit attribute (`MF_MT_FRAME_SIZE`,
/// `MF_MT_FRAME_RATE`): `high` in the upper half.
pub fn pack_u32_pair(high: u32, low: u32) -> (r: u64)
    ensures
        r == high * 0x1_0000_0000 + low,
{
    let r: u64 = (high as u64) << 32u64 | low as u64;
    assert(((high as u64) << 32u64 | low as u64) == high * 0x1_0000_0000 + low) by (bit_vector);
    r
}

/// Splits a packed 64-bit attribute into `(high, low)`.
pub fn unpack_u32_pair(packed: u64) -> (r: (u32, u32))
    ensures
        packed == r.0 * 0x1_0000_0000 + r.1,
{
    let high: u32 = (packed >> 32u64) as u32;
    let low: u32 = packed as u32;
    assert(packed == ((packed >> 32u64) as u32) * 0x1_0000_0000 + (packed as u32)) by (bit_vector);
    (high, low)
}

/// A packed pair determines both halves: unpacking what was packed gives
/// the pair back.
pub proof fn law_pack_round_trip(high: u32, low: u32, h2: u32, l2: u32)
    requires
        h2 * 0x1_0000_0000 + l2 == high * 0x1_0000_0000 + low,
    ensures
        h2 == high,
        l2 == low,
{
}

/// The attribute values of the H.264 output type of an MF encoder (besides
/// major type video, subtype H.264, progressive, all samples independent).
pub struct H264OutputType {
    /// `MF_MT_AVG_BITRATE`.
    pub avg_bitrate: u32,
    /// `MF_MT_MPEG2_PROFILE`.
    pub mpeg2_profile: u32,
    /// `MF_MT_FRAME_SIZE`: width in the upper half, height in the lower.
    pub frame_size: u64,
    /// `MF_MT_FRAME_RATE`: numerator in the upper half, denominator in the lower.
    pub frame_rate: u64,
}

/// Computes the H.264 output type of an encoder for `config`; fails with
/// `InvalidConfig` when MF has no value for the profile.
pub fn h264_output_type(config: &EncoderConfig) -> (r: Result<H264OutputType, Error>)
    ensures
        spec_profile_to_mf(config.profile) is None ==> r == Err::<H264OutputType, Error>(
            Error::InvalidConfig("unsupported H.264 profile"),
        ),
        spec_profile_to_mf(config.profile) matches Some(p) ==> (r matches Ok(t) && t == (H264OutputType {
            avg_bitrate: config.bitrate,
            mpeg2_profile: p,
            frame_size: (config.width * 0x1_0000_0000 + config.height) as u64,
            frame_rate: (config.frame_rate.0 * 0x1_0000_0000 + config.frame_rate.1) as u64,
        })),
{
    let profile = match profile_to_mf(config.profile) {
        Some(p) => p,
        None => return Err(Error::InvalidConfig("unsupported H.264 profile")),
    };
    Ok(H264OutputType {
        avg_bitrate: config.bitrate,
        mpeg2_profile: profile,
        frame_size: pack_u32_pair(config.width, config.height),
        frame_rate: pack_u32_pair(config.frame_rate.0, config.frame_rate.1),
    })
}

} // verus!
