//! Platform backend and capability descriptors.

use vstd::prelude::*;

use crate::bitstream::{formats_for_codec, BitstreamFormat};
use crate::codec::{profile_codec, CodecId, Direction, Profile};

verus! {

/// Platform-specific video engine that implements a codec.
///
/// Variants are declared **most-preferred first**. `enumerate` sorts
/// capabilities by this order (then by [`CodecId`]), so the first matching
/// entry is the best local path for that codec.
#[derive(Debug, Clone, Copy, PartialEq, Eq, Structural, Hash, PartialOrd, Ord)]
pub enum BackendId {
    /// Apple VideoToolbox (macOS, iOS) — fixed-function block on Apple Silicon / T2.
    VideoToolbox,
    /// NVIDIA NVENC / NVDEC — dedicated video engine on GeForce / Quadro / RTX.
    Nvenc,
    /// Linux VA-API (Intel/AMD iGPU, Mesa, `nvidia-vaapi-driver` for decode).
    Vaapi,
    /// Android NDK MediaCodec — SoC video block.
    MediaCodec,
    /// Windows Media Foundation — routes to GPU vendor codecs via D3D.
    MediaFoundation,
}

/// Preference rank of a backend: its position in declaration order.
pub open spec fn backend_rank(b: BackendId) -> nat {
    match b {
        BackendId::VideoToolbox => 0,
        BackendId::Nvenc => 1,
        BackendId::Vaapi => 2,
        BackendId::MediaCodec => 3,
        BackendId::MediaFoundation => 4,
    }
}

/// Rank of a codec: its position in declaration order.
pub open spec fn codec_rank(c: CodecId) -> nat {
    match c {
        CodecId::H264 => 0,
        CodecId::Hevc => 1,
        CodecId::Av1 => 2,
    }
}

/// The stable name of a backend.
pub open spec fn spec_backend_name(b: BackendId) -> Seq<char> {
    match b {
        BackendId::VideoToolbox => "videotoolbox"@,
        BackendId::Nvenc => "nvenc"@,
        BackendId::Vaapi => "vaapi"@,
        BackendId::MediaCodec => "mediacodec"@,
        BackendId::MediaFoundation => "media-foundation"@,
    }
}

impl BackendId {
    /// Stable string identifier for logging.
    pub fn name(self) -> (r: &'static str)
        ensures
            r@ == spec_backend_name(self),
    {
        match self {
            BackendId::VideoToolbox => "videotoolbox",
            BackendId::Nvenc => "nvenc",
            BackendId::Vaapi => "vaapi",
            BackendId::MediaCodec => "mediacodec",
            BackendId::MediaFoundation => "media-foundation",
        }
    }

    /// Preference rank (declaration order).
    pub fn rank(self) -> (r: u8)
        ensures
            r == backend_rank(self),
    {
        match self {
            BackendId::VideoToolbox => 0,
            BackendId::Nvenc => 1,
            BackendId::Vaapi => 2,
            BackendId::MediaCodec => 3,
            BackendId::MediaFoundation => 4,
        }
    }
}

/// Rank of a codec (declaration order).
pub fn codec_rank_of(codec: CodecId) -> (r: u8)
    ensures
        r == codec_rank(codec),
{
    match codec {
        CodecId::H264 => 0,
        CodecId::Hevc => 1,
        CodecId::Av1 => 2,
    }
}

/// The mathematical content of a capability descriptor (or of a builder).
#[verifier::ext_equal]
pub struct CapabilityModel {
    pub codec: CodecId,
    pub backend: BackendId,
    pub direction: Direction,
    pub profiles: Seq<Profile>,
    pub max_width: u32,
    pub max_height: u32,
    pub bitstream_formats: Seq<BitstreamFormat>,
    pub low_latency: bool,
}

/// One encoder or decoder the host can open via a specific backend.
#[derive(Debug, Clone, PartialEq, Eq)]
pub struct CodecCapability {
    /// Video codec family.
    pub codec: CodecId,
    /// Platform engine that provides this capability.
    pub backend: BackendId,
    /// Encode or decode.
    pub direction: Direction,
    /// Profiles supported on this path.
    pub profiles: Vec<Profile>,
    /// Maximum picture width in pixels (inclusive).
    pub max_width: u32,
    /// Maximum picture height in pixels (inclusive).
    pub max_height: u32,
    /// Bitstream layouts this backend accepts or emits.
    pub bitstream_formats: Vec<BitstreamFormat>,
    /// Whether the backend is tuned for real-time / low-latency use.
    pub low_latency: bool,
}

impl View for CodecCapability {
    type V = CapabilityModel;

    open spec fn view(&self) -> CapabilityModel {
        CapabilityModel {
            codec: self.codec,
            backend: self.backend,
            direction: self.direction,
            profiles: self.profiles@,
            max_width: self.max_width,
            max_height: self.max_height,
            bitstream_formats: self.bitstream_formats@,
            low_latency: self.low_latency,
        }
    }
}

/// Whether a capability with model `c` supports `profile` at `width × height`.
pub open spec fn spec_supports(c: CapabilityModel, profile: Profile, width: u32, height: u32) -> bool {
    &&& profile_codec(profile) == c.codec
    &&& c.profiles.contains(profile)
    &&& width <= c.max_width
    &&& height <= c.max_height
}

/// Whether `p` occurs in `v`.
pub fn contains_profile(v: &Vec<Profile>, p: Profile) -> (r: bool)
    ensures
        r == v@.contains(p),
{
    let mut i: usize = 0;
    while i < v.len()
        invariant
            i <= v@.len(),
            forall|j: int| 0 <= j < i ==> v@[j] != p,
        decreases v@.len() - i,
    {
        if v[i] == p {
            assert(v@[i as int] == p);
            return true;
        }
        i = i + 1;
    }
    false
}

/// A copy of a profile list.
pub fn copy_profiles(v: &Vec<Profile>) -> (r: Vec<Profile>)
    ensures
        r@ == v@,
{
    let mut out: Vec<Profile> = Vec::new();
    let mut i: usize = 0;
    while i < v.len()
        invariant
            i <= v@.len(),
            out@ == v@.subrange(0, i as int),
        decreases v@.len() - i,
    {
        out.push(v[i]);
        i = i + 1;
    }
    assert(v@.subrange(0, v@.len() as int) =~= v@);
    out
}

/// A copy of a bitstream-format list.
pub fn copy_formats(v: &[BitstreamFormat]) -> (r: Vec<BitstreamFormat>)
    ensures
        r@ == v@,
{
    let mut out: Vec<BitstreamFormat> = Vec::new();
    let mut i: usize = 0;
    while i < v.len()
        invariant
            i <= v@.len(),
            out@ == v@.subrange(0, i as int),
        decreases v@.len() - i,
    {
        out.push(v[i]);
        i = i + 1;
    }
    assert(v@.subrange(0, v@.len() as int) =~= v@);
    out
}

impl CodecCapability {
    /// Returns whether this capability supports `profile` at `width × height`.
    pub fn supports(&self, profile: Profile, width: u32, height: u32) -> (r: bool)
        ensures
            r == spec_supports(self@, profile, width, height),
    {
        profile.codec() == self.codec && contains_profile(&self.profiles, profile) && width
            <= self.max_width && height <= self.max_height
    }

    /// An exact copy of this descriptor.
    pub fn duplicate(&self) -> (r: CodecCapability)
        ensures
            r@ == self@,
    {
        CodecCapability {
            codec: self.codec,
            backend: self.backend,
            direction: self.direction,
            profiles: copy_profiles(&self.profiles),
            max_width: self.max_width,
            max_height: self.max_height,
            bitstream_formats: copy_formats(self.bitstream_formats.as_slice()),
            low_latency: self.low_latency,
        }
    }

    /// Builder for backend crates registering capabilities: no profiles,
    /// 3840 × 2160 maximum, the codec's valid framings, low latency.
    pub fn builder(codec: CodecId, backend: BackendId, direction: Direction) -> (r:
        CodecCapabilityBuilder)
        ensures
            r@ == initial_builder_model(codec, backend, direction),
    {
        CodecCapabilityBuilder {
            codec,
            backend,
            direction,
            profiles: Vec::new(),
            max_width: 3840,
            max_height: 2160,
            bitstream_formats: copy_formats(BitstreamFormat::for_codec(codec)),
            low_latency: true,
        }
    }
}

/// The model of a freshly created builder.
pub open spec fn initial_builder_model(codec: CodecId, backend: BackendId, direction: Direction) -> CapabilityModel {
    CapabilityModel {
        codec,
        backend,
        direction,
        profiles: Seq::empty(),
        max_width: 3840,
        max_height: 2160,
        bitstream_formats: formats_for_codec(codec),
        low_latency: true,
    }
}

/// Adds `p` to a profile list unless it is already there.
pub open spec fn add_profile(s: Seq<Profile>, p: Profile) -> Seq<Profile> {
    if s.contains(p) { s } else { s.push(p) }
}

/// Adding a profile through the builder keeps the list free of repeats,
/// keeps what was there, and makes the profile present.
pub proof fn law_add_profile_distinct(s: Seq<Profile>, p: Profile)
    requires
        s.no_duplicates(),
    ensures
        add_profile(s, p).no_duplicates(),
        add_profile(s, p).contains(p),
        forall|q: Profile| s.contains(q) ==> add_profile(s, p).contains(q),
{
    if !s.contains(p) {
        let t = s.push(p);
        assert(t[s.len() as int] == p);
        assert forall|i: int, j: int| 0 <= i < t.len() && 0 <= j < t.len() && i != j implies t[i] != t[j] by {
            if i < s.len() && j < s.len() {
                assert(t[i] == s[i] && t[j] == s[j]);
            } else if i < s.len() {
                assert(t[i] == s[i]);
            } else {
                assert(t[j] == s[j]);
            }
        }
        assert forall|q: Profile| s.contains(q) implies t.contains(q) by {
            let k = choose|k: int| 0 <= k < s.len() && s[k] == q;
            assert(t[k] == q);
        }
    }
}

/// Fluent builder for [`CodecCapability`].
#[derive(Debug, Clone)]
pub struct CodecCapabilityBuilder {
    codec: CodecId,
    backend: BackendId,
    direction: Direction,
    profiles: Vec<Profile>,
    max_width: u32,
    max_height: u32,
    bitstream_formats: Vec<BitstreamFormat>,
    low_latency: bool,
}

impl View for CodecCapabilityBuilder {
    type V = CapabilityModel;

    closed spec fn view(&self) -> CapabilityModel {
        CapabilityModel {
            codec: self.codec,
            backend: self.backend,
            direction: self.direction,
            profiles: self.profiles@,
            max_width: self.max_width,
            max_height: self.max_height,
            bitstream_formats: self.bitstream_formats@,
            low_latency: self.low_latency,
        }
    }
}

impl CodecCapabilityBuilder {
    /// Adds a supported profile (no duplicates; insertion order kept).
    pub fn profile(self, profile: Profile) -> (r: Self)
        ensures
            r@ == (CapabilityModel { profiles: add_profile(self@.profiles, profile), ..self@ }),
    {
        let mut s = self;
        if !contains_profile(&s.profiles, profile) {
            s.profiles.push(profile);
        }
        s
    }

    /// Sets maximum picture dimensions.
    pub fn max_resolution(self, width: u32, height: u32) -> (r: Self)
        ensures
            r@ == (CapabilityModel { max_width: width, max_height: height, ..self@ }),
    {
        let mut s = self;
        s.max_width = width;
        s.max_height = height;
        s
    }

    /// Overrides supported bitstream formats.
    pub fn bitstream_formats(self, formats: Vec<BitstreamFormat>) -> (r: Self)
        ensures
            r@ == (CapabilityModel { bitstream_formats: formats@, ..self@ }),
    {
        let mut s = self;
        s.bitstream_formats = formats;
        s
    }

    /// Marks whether this path is low-latency capable.
    pub fn low_latency(self, low_latency: bool) -> (r: Self)
        ensures
            r@ == (CapabilityModel { low_latency, ..self@ }),
    {
        let mut s = self;
        s.low_latency = low_latency;
        s
    }

    /// Builds the capability descriptor.
    pub fn build(self) -> (r: CodecCapability)
        ensures
            r@ == self@,
    {
        CodecCapability {
            codec: self.codec,
            backend: self.backend,
            direction: self.direction,
            profiles: self.profiles,
            max_width: self.max_width,
            max_height: self.max_height,
            bitstream_formats: self.bitstream_formats,
            low_latency: self.low_latency,
        }
    }
}

/// A capability supports a profile at a size exactly when the profile is
/// of its codec and among its profiles and the size is within both of its
/// limits; so it never supports a size past either limit, and supporting a
/// size means supporting every smaller one.
pub proof fn law_supports_limits(c: CapabilityModel, profile: Profile, width: u32, height: u32, w2: u32, h2: u32)
    ensures
        spec_supports(c, profile, width, height) ==> width <= c.max_width && height <= c.max_height,
        spec_supports(c, profile, width, height) ==> c.profiles.contains(profile) && profile_codec(profile) == c.codec,
        width > c.max_width || height > c.max_height ==> !spec_supports(c, profile, width, height),
        c.profiles.contains(profile) && profile_codec(profile) == c.codec && width <= c.max_width && height
            <= c.max_height ==> spec_supports(c, profile, width, height),
        spec_supports(c, profile, width, height) && w2 <= width && h2 <= height ==> spec_supports(c, profile, w2, h2),
{
}

} // verus!
