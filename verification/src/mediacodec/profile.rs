//! Profile mapping between vidcodec and MediaCodec.

use vstd::prelude::*;

use crate::codec::Profile;
use crate::util::profile::{default_h264_profiles, spec_default_h264_profiles};

verus! {

/// The H.264 profiles MediaCodec sessions accept: the default H.264
/// profiles and Constrained Baseline.
pub open spec fn spec_is_supported(profile: Profile) -> bool {
    spec_default_h264_profiles().contains(profile) || profile == Profile::H264ConstrainedBaseline
}

/// MediaCodec does not negotiate profiles — it accepts any stream the
/// hardware handles — so profiles are checked against what devices
/// typically handle.
pub fn is_supported(profile: Profile) -> (r: bool)
    ensures
        r == spec_is_supported(profile),
{
    let defaults = default_h264_profiles();
    let mut i: usize = 0;
    while i < defaults.len()
        invariant
            i <= defaults@.len(),
            defaults@ == spec_default_h264_profiles(),
            forall|j: int| 0 <= j < i ==> defaults@[j] != profile,
        decreases defaults@.len() - i,
    {
        if defaults[i] == profile {
            assert(defaults@[i as int] == profile);
            return true;
        }
        i = i + 1;
    }
    profile == Profile::H264ConstrainedBaseline
}

} // verus!
