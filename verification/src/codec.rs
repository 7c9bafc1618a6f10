//! Video codec identifiers, directions and profiles.

use vstd::prelude::*;

verus! {

/// Supported video codec families.
#[derive(Debug, Clone, Copy, PartialEq, Eq, Structural, Hash, PartialOrd, Ord)]
pub enum CodecId {
    /// H.264 / AVC.
    H264,
    /// H.265 / HEVC.
    Hevc,
    /// AV1.
    Av1,
}

/// Lower-cases an ASCII letter; every other character is left alone.
pub open spec fn ascii_lower(c: char) -> char {
    if 'A' <= c && c <= 'Z' {
        ((c as u32) + 32) as char
    } else {
        c
    }
}

/// `a` and `b` are equal up to ASCII case.
pub open spec fn eq_ignore_ascii_case(a: Seq<char>, b: Seq<char>) -> bool {
    &&& a.len() == b.len()
    &&& forall|i: int| 0 <= i < a.len() ==> #[trigger] ascii_lower(a[i]) == ascii_lower(b[i])
}

/// `name` equals one of `options` up to ASCII case.
pub open spec fn matches_any_ignore_case(name: Seq<char>, options: Seq<Seq<char>>) -> bool {
    exists|i: int| 0 <= i < options.len() && eq_ignore_ascii_case(name, #[trigger] options[i])
}

/// The codec that a wire/signaling name denotes.
pub open spec fn spec_parse_wire_name(name: Seq<char>) -> Option<CodecId> {
    if matches_any_ignore_case(name, seq!["h264"@, "avc"@, "h.264"@]) {
        Some(CodecId::H264)
    } else if matches_any_ignore_case(name, seq!["hevc"@, "h265"@, "h.265"@]) {
        Some(CodecId::Hevc)
    } else if matches_any_ignore_case(name, seq!["av1"@, "av01"@]) {
        Some(CodecId::Av1)
    } else {
        None
    }
}

/// The short wire name of a codec.
pub open spec fn spec_codec_wire_name(codec: CodecId) -> Seq<char> {
    match codec {
        CodecId::H264 => "h264"@,
        CodecId::Hevc => "hevc"@,
        CodecId::Av1 => "av1"@,
    }
}

impl CodecId {
    /// MIME-style type string used in signaling (e.g. `"video/avc"`).
    pub fn mime_type(self) -> (r: &'static str)
        ensures
            r@ == (match self {
                CodecId::H264 => "video/avc"@,
                CodecId::Hevc => "video/hevc"@,
                CodecId::Av1 => "video/av01"@,
            }),
    {
        match self {
            CodecId::H264 => "video/avc",
            CodecId::Hevc => "video/hevc",
            CodecId::Av1 => "video/av01",
        }
    }

    /// Short wire name used in session descriptions (e.g. `"h264"`).
    pub fn wire_name(self) -> (r: &'static str)
        ensures
            r@ == spec_codec_wire_name(self),
    {
        match self {
            CodecId::H264 => "h264",
            CodecId::Hevc => "hevc",
            CodecId::Av1 => "av1",
        }
    }

    /// Parses a wire/signaling name (`h264`, `avc`, `hevc`, `h265`, `av1`, …),
    /// ignoring ASCII case.
    pub fn parse_wire_name(name: &str) -> (r: Option<CodecId>)
        ensures
            r == spec_parse_wire_name(name@),
    {
        let h264: [&str; 3] = ["h264", "avc", "h.264"];
        let hevc: [&str; 3] = ["hevc", "h265", "h.265"];
        let av1: [&str; 2] = ["av1", "av01"];
        proof {
            assert(h264@.map_values(|s: &str| s@) =~= seq!["h264"@, "avc"@, "h.264"@]);
            assert(hevc@.map_values(|s: &str| s@) =~= seq!["hevc"@, "h265"@, "h.265"@]);
            assert(av1@.map_values(|s: &str| s@) =~= seq!["av1"@, "av01"@]);
        }
        if matches_ignore_ascii_case(name, &h264) {
            Some(CodecId::H264)
        } else if matches_ignore_ascii_case(name, &hevc) {
            Some(CodecId::Hevc)
        } else if matches_ignore_ascii_case(name, &av1) {
            Some(CodecId::Av1)
        } else {
            None
        }
    }
}

fn lower_code(c: char) -> (r: u32)
    ensures
        r == ascii_lower(c) as u32,
{
    if 'A' <= c && c <= 'Z' {
        (c as u32) + 32
    } else {
        c as u32
    }
}

fn str_eq_ignore_ascii_case(a: &str, b: &str) -> (r: bool)
    ensures
        r == eq_ignore_ascii_case(a@, b@),
{
    let n = a.unicode_len();
    if n != b.unicode_len() {
        return false;
    }
    let mut i: usize = 0;
    while i < n
        invariant
            n == a@.len(),
            n == b@.len(),
            i <= n,
            forall|j: int| 0 <= j < i ==> #[trigger] ascii_lower(a@[j]) == ascii_lower(b@[j]),
        decreases n - i,
    {
        let ca = a.get_char(i);
        let cb = b.get_char(i);
        if lower_code(ca) != lower_code(cb) {
            proof {
                assert(ascii_lower(a@[i as int]) != ascii_lower(b@[i as int]));
            }
            return false;
        }
        i = i + 1;
    }
    true
}

/// `name` equals one of `options` up to ASCII case.
fn matches_ignore_ascii_case(name: &str, options: &[&str]) -> (r: bool)
    ensures
        r == matches_any_ignore_case(name@, options@.map_values(|s: &str| s@)),
{
    let ghost opts = options@.map_values(|s: &str| s@);
    let mut i: usize = 0;
    while i < options.len()
        invariant
            i <= options@.len(),
            opts == options@.map_values(|s: &str| s@),
            forall|j: int| 0 <= j < i ==> !eq_ignore_ascii_case(name@, #[trigger] opts[j]),
        decreases options@.len() - i,
    {
        if str_eq_ignore_ascii_case(name, options[i]) {
            assert(eq_ignore_ascii_case(name@, opts[i as int]));
            return true;
        }
        i = i + 1;
    }
    false
}

/// Parsing a codec's wire name gives the codec back.
pub proof fn law_wire_name_round_trip(codec: CodecId)
    ensures
        spec_parse_wire_name(spec_codec_wire_name(codec)) == Some(codec),
{
    reveal_strlit("h264");
    reveal_strlit("avc");
    reveal_strlit("h.264");
    reveal_strlit("hevc");
    reveal_strlit("h265");
    reveal_strlit("h.265");
    reveal_strlit("av1");
    reveal_strlit("av01");
    let name = spec_codec_wire_name(codec);
    let h264 = seq!["h264"@, "avc"@, "h.264"@];
    let hevc = seq!["hevc"@, "h265"@, "h.265"@];
    let av1 = seq!["av1"@, "av01"@];
    match codec {
        CodecId::H264 => {
            assert(eq_ignore_ascii_case(name, h264[0]));
        },
        CodecId::Hevc => {
            assert(ascii_lower(name[1]) != ascii_lower(h264[0][1]));
            assert(!eq_ignore_ascii_case(name, h264[0]));
            assert(!eq_ignore_ascii_case(name, h264[1]));
            assert(!eq_ignore_ascii_case(name, h264[2]));
            assert(!matches_any_ignore_case(name, h264));
            assert(eq_ignore_ascii_case(name, hevc[0]));
        },
        CodecId::Av1 => {
            assert(ascii_lower(name[2]) != ascii_lower(h264[1][2]));
            assert(!eq_ignore_ascii_case(name, h264[1]));
            assert(!matches_any_ignore_case(name, h264));
            assert(!matches_any_ignore_case(name, hevc));
            assert(eq_ignore_ascii_case(name, av1[0]));
        },
    }
}

/// Names equal up to ASCII case match the same options.
proof fn lemma_matches_any_case(a: Seq<char>, b: Seq<char>, options: Seq<Seq<char>>)
    requires
        eq_ignore_ascii_case(a, b),
    ensures
        matches_any_ignore_case(a, options) == matches_any_ignore_case(b, options),
{
    if matches_any_ignore_case(a, options) {
        let i = choose|i: int| 0 <= i < options.len() && eq_ignore_ascii_case(a, #[trigger] options[i]);
        assert forall|j: int| 0 <= j < b.len() implies #[trigger] ascii_lower(b[j]) == ascii_lower(options[i][j]) by {
            assert(ascii_lower(a[j]) == ascii_lower(b[j]));
            assert(ascii_lower(a[j]) == ascii_lower(options[i][j]));
        }
        assert(eq_ignore_ascii_case(b, options[i]));
    }
    if matches_any_ignore_case(b, options) {
        let i = choose|i: int| 0 <= i < options.len() && eq_ignore_ascii_case(b, #[trigger] options[i]);
        assert forall|j: int| 0 <= j < a.len() implies #[trigger] ascii_lower(a[j]) == ascii_lower(options[i][j]) by {
            assert(ascii_lower(a[j]) == ascii_lower(b[j]));
            assert(ascii_lower(b[j]) == ascii_lower(options[i][j]));
        }
        assert(eq_ignore_ascii_case(a, options[i]));
    }
}

/// Parsing a wire name ignores ASCII case: names that differ only in the
/// case of ASCII letters parse to the same codec (or both to none).
pub proof fn law_parse_ignores_case(a: Seq<char>, b: Seq<char>)
    requires
        eq_ignore_ascii_case(a, b),
    ensures
        spec_parse_wire_name(a) == spec_parse_wire_name(b),
{
    lemma_matches_any_case(a, b, seq!["h264"@, "avc"@, "h.264"@]);
    lemma_matches_any_case(a, b, seq!["hevc"@, "h265"@, "h.265"@]);
    lemma_matches_any_case(a, b, seq!["av1"@, "av01"@]);
}

/// Encode or decode direction.
#[derive(Debug, Clone, Copy, PartialEq, Eq, Structural, Hash)]
pub enum Direction {
    /// Compression (raw frames → encoded units).
    Encode,
    /// Decompression (encoded units → raw frames).
    Decode,
}

/// Codec profile negotiated for a session.
#[derive(Debug, Clone, Copy, PartialEq, Eq, Structural, Hash)]
pub enum Profile {
    /// H.264 Baseline.
    H264Baseline,
    /// H.264 Main.
    H264Main,
    /// H.264 High.
    H264High,
    /// H.264 Constrained Baseline.
    H264ConstrainedBaseline,
    /// HEVC Main (8-bit).
    HevcMain,
    /// HEVC Main 10 (10-bit).
    HevcMain10,
    /// AV1 Main.
    Av1Main,
    /// AV1 High.
    Av1High,
    /// AV1 Professional.
    Av1Professional,
}

/// The codec family that owns a profile.
pub open spec fn profile_codec(p: Profile) -> CodecId {
    match p {
        Profile::H264Baseline | Profile::H264Main | Profile::H264High
        | Profile::H264ConstrainedBaseline => CodecId::H264,
        Profile::HevcMain | Profile::HevcMain10 => CodecId::Hevc,
        Profile::Av1Main | Profile::Av1High | Profile::Av1Professional => CodecId::Av1,
    }
}

pub open spec fn spec_profile_wire_name(p: Profile) -> Seq<char> {
    match p {
        Profile::H264Baseline => "baseline"@,
        Profile::H264Main => "main"@,
        Profile::H264High => "high"@,
        Profile::H264ConstrainedBaseline => "constrained_baseline"@,
        Profile::HevcMain => "main"@,
        Profile::HevcMain10 => "main10"@,
        Profile::Av1Main => "main"@,
        Profile::Av1High => "high"@,
        Profile::Av1Professional => "professional"@,
    }
}

impl Profile {
    /// Returns the owning codec family.
    pub fn codec(self) -> (r: CodecId)
        ensures
            r == profile_codec(self),
    {
        match self {
            Profile::H264Baseline | Profile::H264Main | Profile::H264High
            | Profile::H264ConstrainedBaseline => CodecId::H264,
            Profile::HevcMain | Profile::HevcMain10 => CodecId::Hevc,
            Profile::Av1Main | Profile::Av1High | Profile::Av1Professional => CodecId::Av1,
        }
    }

    /// Stable wire name for signaling.
    pub fn wire_name(self) -> (r: &'static str)
        ensures
            r@ == spec_profile_wire_name(self),
    {
        match self {
            Profile::H264Baseline => "baseline",
            Profile::H264Main => "main",
            Profile::H264High => "high",
            Profile::H264ConstrainedBaseline => "constrained_baseline",
            Profile::HevcMain => "main",
            Profile::HevcMain10 => "main10",
            Profile::Av1Main => "main",
            Profile::Av1High => "high",
            Profile::Av1Professional => "professional",
        }
    }
}

} // verus!
