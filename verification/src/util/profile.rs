//! Default H.264 profiles shared across backends.

use vstd::prelude::*;

use crate::codec::Profile;

verus! {

/// The H.264 profiles most hardware backends advertise when per-codec
/// capability probing is not available: Baseline, Main, High.
pub open spec fn spec_default_h264_profiles() -> Seq<Profile> {
    seq![Profile::H264Baseline, Profile::H264Main, Profile::H264High]
}

/// Returns the default set of H.264 profiles advertised by most hardware
/// backends when per-codec capability probing is not available.
pub fn default_h264_profiles() -> (r: &'static [Profile])
    ensures
        r@ == spec_default_h264_profiles(),
{
    let r: &'static [Profile] = &[Profile::H264Baseline, Profile::H264Main, Profile::H264High];
    r
}

} // verus!
