//! vidcodec profile ↔ Media Foundation attribute mapping.

use vstd::prelude::*;

use crate::codec::Profile;

verus! {

/// `eAVEncH264VProfile_Base`.
pub const MF_H264_PROFILE_BASE: u32 = 66;
/// `eAVEncH264VProfile_Main`.
pub const MF_H264_PROFILE_MAIN: u32 = 77;
/// `eAVEncH264VProfile_High`.
pub const MF_H264_PROFILE_HIGH: u32 = 100;

/// The `MF_MT_MPEG2_PROFILE` value of an H.264 profile, if MF has one.
pub open spec fn spec_profile_to_mf(profile: Profile) -> Option<u32> {
    match profile {
        Profile::H264Baseline => Some(MF_H264_PROFILE_BASE),
        Profile::H264Main => Some(MF_H264_PROFILE_MAIN),
        Profile::H264High => Some(MF_H264_PROFILE_HIGH),
        _ => None,
    }
}

/// Maps a vidcodec H.264 profile to `MF_MT_MPEG2_PROFILE`.
pub fn profile_to_mf(profile: Profile) -> (r: Option<u32>)
    ensures
        r == spec_profile_to_mf(profile),
{
    match profile {
        Profile::H264Baseline => Some(MF_H264_PROFILE_BASE),
        Profile::H264Main => Some(MF_H264_PROFILE_MAIN),
        Profile::H264High => Some(MF_H264_PROFILE_HIGH),
        _ => None,
    }
}

} // verus!
