//! Capability probing from the NVENC codec/profile lists and NVDEC caps.

use vstd::prelude::*;

use crate::bitstream::{formats_for_codec, BitstreamFormat};
use crate::capability::{add_profile, BackendId, CapabilityModel, CodecCapability};
use crate::codec::{CodecId, Direction, Profile};
use crate::error::Error;
use crate::nvenc::backend::NvencRuntime;
use crate::platform::added_profiles;
use crate::registry::models;

verus! {

/// Conservative upper bound when per-codec caps are not queried.
pub const DEFAULT_MAX_DIMENSION: u32 = 8192;

/// The profiles of an encode capability for `codec`, given the profiles the
/// encoder lists for it: H.264 and HEVC fall back to their Main profile
/// when none is recognised; AV1 always has Main, High and Professional.
pub open spec fn spec_encode_profiles(codec: CodecId, listed: Seq<Profile>) -> Seq<Profile> {
    match codec {
        CodecId::H264 => if listed.len() == 0 {
            seq![Profile::H264Main]
        } else {
            listed
        },
        CodecId::Hevc => if listed.len() == 0 {
            seq![Profile::HevcMain]
        } else {
            listed
        },
        CodecId::Av1 => seq![Profile::Av1Main, Profile::Av1High, Profile::Av1Professional],
    }
}

/// Applies the fallbacks of [`spec_encode_profiles`] to the listed profiles.
pub fn encode_profiles(codec: CodecId, listed: Vec<Profile>) -> (r: Vec<Profile>)
    ensures
        r@ == spec_encode_profiles(codec, listed@),
{
    match codec {
        CodecId::H264 => if listed.len() == 0 {
            vec![Profile::H264Main]
        } else {
            listed
        },
        CodecId::Hevc => if listed.len() == 0 {
            vec![Profile::HevcMain]
        } else {
            listed
        },
        CodecId::Av1 => vec![Profile::Av1Main, Profile::Av1High, Profile::Av1Professional],
    }
}

/// The encode capability NVENC advertises for `codec` with `profiles`
/// (repeats dropped, first occurrence kept).
pub open spec fn encode_model(codec: CodecId, profiles: Seq<Profile>) -> CapabilityModel {
    CapabilityModel {
        codec,
        backend: BackendId::Nvenc,
        direction: Direction::Encode,
        profiles: added_profiles(Seq::empty(), profiles),
        max_width: DEFAULT_MAX_DIMENSION,
        max_height: DEFAULT_MAX_DIMENSION,
        bitstream_formats: formats_for_codec(codec),
        low_latency: true,
    }
}

/// Builds the encode capability for `codec`, or `None` without profiles.
pub fn encode_capability(codec: CodecId, profiles: &Vec<Profile>) -> (r: Option<CodecCapability>)
    ensures
        profiles@.len() == 0 ==> r is None,
        profiles@.len() > 0 ==> (r matches Some(c) && c@ == encode_model(codec, profiles@)),
{
    if profiles.len() == 0 {
        return None;
    }
    let mut builder = CodecCapability::builder(codec, BackendId::Nvenc, Direction::Encode).max_resolution(
        DEFAULT_MAX_DIMENSION,
        DEFAULT_MAX_DIMENSION,
    ).bitstream_formats(crate::capability::copy_formats(BitstreamFormat::for_codec(codec))).low_latency(
        true,
    );
    let ghost start = builder@;
    let mut i: usize = 0;
    while i < profiles.len()
        invariant
            i <= profiles@.len(),
            builder@ == (CapabilityModel {
                profiles: added_profiles(Seq::empty(), profiles@.subrange(0, i as int)),
                ..start
            }),
        decreases profiles@.len() - i,
    {
        assert(profiles@.subrange(0, i + 1).drop_last() =~= profiles@.subrange(0, i as int));
        builder = builder.profile(profiles[i]);
        i = i + 1;
    }
    assert(profiles@.subrange(0, profiles@.len() as int) =~= profiles@);
    Some(builder.build())
}

/// What probing `codec` adds: its capability when the encoder lists it,
/// with the profiles the encoder lists for it (after the fallbacks of
/// [`spec_encode_profiles`]); nothing otherwise.
pub open spec fn encode_part(codec: CodecId, listed: bool, profiles: Seq<Profile>) -> Seq<CapabilityModel> {
    if listed {
        seq![encode_model(codec, spec_encode_profiles(codec, profiles))]
    } else {
        Seq::empty()
    }
}

/// The encode capability for `codec` given the encoder's answers: whether
/// it lists the codec and the profiles it lists for it (see
/// [`encode_part`]).
pub fn codec_capability(codec: CodecId, listed: bool, mapped: Vec<Profile>) -> (r: Option<CodecCapability>)
    ensures
        !listed ==> r is None,
        listed ==> (r matches Some(c) && seq![c@] == encode_part(codec, listed, mapped@)),
{
    if !listed {
        return None;
    }
    let profiles = encode_profiles(codec, mapped);
    encode_capability(codec, &profiles)
}

/// `listed` is what `runtime` may answer when asked whether the encoder
/// lists `codec`, and, where it is listed and not AV1, `profiles` is the
/// profile list it may answer for `codec`.
pub open spec fn codec_answer<R: NvencRuntime>(runtime: &R, codec: CodecId, listed: bool, profiles: Seq<Profile>) -> bool {
    &&& call_ensures(R::encode_codec_listed, (runtime, codec), Ok::<bool, Error>(listed))
    &&& listed && codec != CodecId::Av1 ==> exists|v: Vec<Profile>|
        v@ == profiles && #[trigger] call_ensures(R::encode_profiles, (runtime, codec), Ok::<Vec<Profile>, Error>(v))
}

/// `e` is an error that one of the capability queries of `runtime` may give.
pub open spec fn query_error<R: NvencRuntime>(runtime: &R, e: Error) -> bool {
    ||| exists|c: CodecId| #[trigger] call_ensures(R::encode_codec_listed, (runtime, c), Err::<bool, Error>(e))
    ||| exists|c: CodecId| #[trigger] call_ensures(R::encode_profiles, (runtime, c), Err::<Vec<Profile>, Error>(e))
    ||| call_ensures(R::h264_decode_caps, (runtime,), Err::<Option<(u32, u32)>, Error>(e))
}

/// Probes one codec: when the encoder lists it, appends its capability
/// (see [`encode_part`]). Query failures are returned.
pub fn probe_codec<R: NvencRuntime>(runtime: &R, codec: CodecId, caps: &mut Vec<CodecCapability>) -> (r: Result<(), Error>)
    ensures
        r is Ok ==> exists|listed: bool, profiles: Seq<Profile>|
            #[trigger] codec_answer(runtime, codec, listed, profiles) && models(final(caps)@) == models(old(caps)@)
                + encode_part(codec, listed, profiles),
        r matches Err(e) ==> query_error(runtime, e),
{
    let answer = runtime.encode_codec_listed(codec);
    let listed = match answer {
        Ok(b) => b,
        Err(e) => return Err(e),
    };
    if !listed {
        assert(codec_answer(runtime, codec, false, Seq::empty()));
        assert(models(caps@) =~= models(caps@) + encode_part(codec, false, Seq::empty()));
        return Ok(());
    }
    let mapped: Vec<Profile> = match codec {
        CodecId::Av1 => Vec::new(),
        _ => {
            let listed_profiles = runtime.encode_profiles(codec);
            match listed_profiles {
                Ok(p) => {
                    assert(call_ensures(R::encode_profiles, (runtime, codec), Ok::<Vec<Profile>, Error>(p)));
                    p
                },
                Err(e) => return Err(e),
            }
        },
    };
    let ghost mapped_view = mapped@;
    assert(codec_answer(runtime, codec, true, mapped_view));
    let ghost before = models(caps@);
    match codec_capability(codec, true, mapped) {
        Some(c) => {
            caps.push(c);
            assert(models(caps@) =~= before + encode_part(codec, true, mapped_view));
        },
        None => {},
    }
    Ok(())
}

/// What probing H.264, HEVC and AV1 encoding adds, given whether the
/// encoder lists each and the profiles it lists for H.264 and HEVC.
pub open spec fn encode_parts(
    h264_listed: bool,
    h264_profiles: Seq<Profile>,
    hevc_listed: bool,
    hevc_profiles: Seq<Profile>,
    av1_listed: bool,
) -> Seq<CapabilityModel> {
    encode_part(CodecId::H264, h264_listed, h264_profiles) + encode_part(CodecId::Hevc, hevc_listed, hevc_profiles)
        + encode_part(CodecId::Av1, av1_listed, Seq::empty())
}

/// `runtime` may give these answers for H.264, HEVC and AV1.
pub open spec fn encode_answers<R: NvencRuntime>(
    runtime: &R,
    h264_listed: bool,
    h264_profiles: Seq<Profile>,
    hevc_listed: bool,
    hevc_profiles: Seq<Profile>,
    av1_listed: bool,
) -> bool {
    &&& codec_answer(runtime, CodecId::H264, h264_listed, h264_profiles)
    &&& codec_answer(runtime, CodecId::Hevc, hevc_listed, hevc_profiles)
    &&& codec_answer(runtime, CodecId::Av1, av1_listed, Seq::empty())
}

/// Probes H.264, HEVC and AV1 encoding, in that order.
pub fn probe_encode<R: NvencRuntime>(runtime: &R, caps: &mut Vec<CodecCapability>) -> (r: Result<(), Error>)
    ensures
        r is Ok ==> exists|l1: bool, p1: Seq<Profile>, l2: bool, p2: Seq<Profile>, l3: bool|
            #[trigger] encode_answers(runtime, l1, p1, l2, p2, l3) && models(final(caps)@) == models(old(caps)@)
                + encode_parts(l1, p1, l2, p2, l3),
        r matches Err(e) ==> query_error(runtime, e),
{
    let ghost start = models(caps@);
    match probe_codec(runtime, CodecId::H264, caps) {
        Ok(()) => {},
        Err(e) => return Err(e),
    }
    let ghost (l1, p1) = choose|l: bool, p: Seq<Profile>|
        #[trigger] codec_answer(runtime, CodecId::H264, l, p) && models(caps@) == start + encode_part(CodecId::H264, l, p);
    let ghost mid1 = models(caps@);
    match probe_codec(runtime, CodecId::Hevc, caps) {
        Ok(()) => {},
        Err(e) => return Err(e),
    }
    let ghost (l2, p2) = choose|l: bool, p: Seq<Profile>|
        #[trigger] codec_answer(runtime, CodecId::Hevc, l, p) && models(caps@) == mid1 + encode_part(CodecId::Hevc, l, p);
    let ghost mid2 = models(caps@);
    match probe_codec(runtime, CodecId::Av1, caps) {
        Ok(()) => {},
        Err(e) => return Err(e),
    }
    let ghost (l3, p3) = choose|l: bool, p: Seq<Profile>|
        #[trigger] codec_answer(runtime, CodecId::Av1, l, p) && models(caps@) == mid2 + encode_part(CodecId::Av1, l, p);
    assert(encode_part(CodecId::Av1, l3, p3) == encode_part(CodecId::Av1, l3, Seq::empty()));
    assert(codec_answer(runtime, CodecId::Av1, l3, Seq::empty()));
    assert(encode_answers(runtime, l1, p1, l2, p2, l3));
    assert(models(caps@) =~= start + encode_parts(l1, p1, l2, p2, l3));
    Ok(())
}

/// `a`, or `b` when it is larger.
pub open spec fn max_u32(a: u32, b: u32) -> u32 {
    if a >= b { a } else { b }
}

/// The H.264 decode capability NVDEC advertises when its caps report
/// support with maximum size `max_width × max_height`: at least
/// 8192 × 8192, Baseline/Main/High, Annex-B and length-prefixed input.
pub open spec fn h264_decode_model(max_width: u32, max_height: u32) -> CapabilityModel {
    CapabilityModel {
        codec: CodecId::H264,
        backend: BackendId::Nvenc,
        direction: Direction::Decode,
        profiles: seq![Profile::H264Baseline, Profile::H264Main, Profile::H264High],
        max_width: max_u32(max_width, DEFAULT_MAX_DIMENSION),
        max_height: max_u32(max_height, DEFAULT_MAX_DIMENSION),
        bitstream_formats: seq![BitstreamFormat::AnnexB, BitstreamFormat::LengthPrefixed],
        low_latency: true,
    }
}

/// Builds the capability of [`h264_decode_model`].
pub fn h264_decode_capability(max_width: u32, max_height: u32) -> (r: CodecCapability)
    ensures
        r@ == h264_decode_model(max_width, max_height),
{
    let max_w: u32 = if max_width >= DEFAULT_MAX_DIMENSION { max_width } else { DEFAULT_MAX_DIMENSION };
    let max_h: u32 = if max_height >= DEFAULT_MAX_DIMENSION { max_height } else { DEFAULT_MAX_DIMENSION };
    let b0 = CodecCapability::builder(CodecId::H264, BackendId::Nvenc, Direction::Decode);
    let b1 = b0.profile(Profile::H264Baseline);
    assert(b1@.profiles =~= seq![Profile::H264Baseline]);
    let b2 = b1.profile(Profile::H264Main);
    assert(!seq![Profile::H264Baseline].contains(Profile::H264Main)) by {
        assert(seq![Profile::H264Baseline][0] != Profile::H264Main);
    }
    assert(b2@.profiles =~= seq![Profile::H264Baseline, Profile::H264Main]);
    let b3 = b2.profile(Profile::H264High);
    assert(!seq![Profile::H264Baseline, Profile::H264Main].contains(Profile::H264High)) by {
        let s = seq![Profile::H264Baseline, Profile::H264Main];
        assert(s[0] != Profile::H264High && s[1] != Profile::H264High);
    }
    assert(b3@.profiles =~= seq![Profile::H264Baseline, Profile::H264Main, Profile::H264High]);
    b3.max_resolution(max_w, max_h).bitstream_formats(
        vec![BitstreamFormat::AnnexB, BitstreamFormat::LengthPrefixed],
    ).low_latency(true).build()
}

/// Probes H.264 decoding from the NVDEC caps; `None` when unsupported.
pub fn probe_h264_decode<R: NvencRuntime>(runtime: &R) -> (r: Result<Option<CodecCapability>, Error>)
    ensures
        r matches Ok(Some(c)) ==> exists|w: u32, h: u32|
            #[trigger] h264_decode_model(w, h) == c@ && call_ensures(
                R::h264_decode_caps,
                (runtime,),
                Ok::<Option<(u32, u32)>, Error>(Some((w, h))),
            ),
        r is Ok && r->Ok_0 is None ==> call_ensures(
            R::h264_decode_caps,
            (runtime,),
            Ok::<Option<(u32, u32)>, Error>(None),
        ),
        r matches Err(e) ==> call_ensures(R::h264_decode_caps, (runtime,), Err::<Option<(u32, u32)>, Error>(e)),
{
    let answer = runtime.h264_decode_caps();
    match answer {
        Ok(Some((w, h))) => {
            let c = h264_decode_capability(w, h);
            Ok(Some(c))
        },
        Ok(None) => Ok(None),
        Err(e) => Err(e),
    }
}

/// What probing H.264 decoding adds for the NVDEC caps answer `caps`.
pub open spec fn decode_part(caps: Option<(u32, u32)>) -> Seq<CapabilityModel> {
    match caps {
        Some((w, h)) => seq![h264_decode_model(w, h)],
        None => Seq::empty(),
    }
}

/// The capabilities NVENC/NVDEC probing yields for the GPU's answers:
/// encode capabilities (when an encoder session could be initialized),
/// then the H.264 decode capability.
pub open spec fn nvenc_models(
    encoder_available: bool,
    h264_listed: bool,
    h264_profiles: Seq<Profile>,
    hevc_listed: bool,
    hevc_profiles: Seq<Profile>,
    av1_listed: bool,
    decode_caps: Option<(u32, u32)>,
) -> Seq<CapabilityModel> {
    (if encoder_available {
        encode_parts(h264_listed, h264_profiles, hevc_listed, hevc_profiles, av1_listed)
    } else {
        Seq::empty()
    }) + decode_part(decode_caps)
}

/// `runtime` may give these answers to the NVENC and NVDEC capability
/// queries.
pub open spec fn nvenc_answers<R: NvencRuntime>(
    runtime: &R,
    encoder_available: bool,
    h264_listed: bool,
    h264_profiles: Seq<Profile>,
    hevc_listed: bool,
    hevc_profiles: Seq<Profile>,
    av1_listed: bool,
    decode_caps: Option<(u32, u32)>,
) -> bool {
    &&& call_ensures(R::encoder_available, (runtime,), encoder_available)
    &&& encoder_available ==> encode_answers(runtime, h264_listed, h264_profiles, hevc_listed, hevc_profiles, av1_listed)
    &&& call_ensures(R::h264_decode_caps, (runtime,), Ok::<Option<(u32, u32)>, Error>(decode_caps))
}

/// Appends the H.264 decode capability when NVDEC supports it.
pub fn probe_decode<R: NvencRuntime>(runtime: &R, caps: &mut Vec<CodecCapability>) -> (r: Result<(), Error>)
    ensures
        r is Ok ==> exists|d: Option<(u32, u32)>|
            call_ensures(R::h264_decode_caps, (runtime,), Ok::<Option<(u32, u32)>, Error>(d)) && models(
                final(caps)@,
            ) == models(old(caps)@) + #[trigger] decode_part(d),
        r matches Err(e) ==> call_ensures(R::h264_decode_caps, (runtime,), Err::<Option<(u32, u32)>, Error>(e)),
{
    let ghost before = models(caps@);
    match probe_h264_decode(runtime) {
        Ok(Some(c)) => {
            let ghost (w, h) = choose|w: u32, h: u32|
                #[trigger] h264_decode_model(w, h) == c@ && call_ensures(
                    R::h264_decode_caps,
                    (runtime,),
                    Ok::<Option<(u32, u32)>, Error>(Some((w, h))),
                );
            caps.push(c);
            assert(models(caps@) =~= before + decode_part(Some((w, h))));
            Ok(())
        },
        Ok(None) => {
            assert(models(caps@) =~= before + decode_part(None));
            Ok(())
        },
        Err(e) => Err(e),
    }
}

/// Probes NVENC encode capabilities (when an encoder session can be
/// initialized) and then NVDEC decode capabilities.
pub fn probe<R: NvencRuntime>(runtime: &R) -> (r: Result<Vec<CodecCapability>, Error>)
    ensures
        r matches Ok(caps) ==> exists|
            e: bool,
            l1: bool,
            p1: Seq<Profile>,
            l2: bool,
            p2: Seq<Profile>,
            l3: bool,
            d: Option<(u32, u32)>,
        |
            #[trigger] nvenc_answers(runtime, e, l1, p1, l2, p2, l3, d) && models(caps@) == nvenc_models(
                e,
                l1,
                p1,
                l2,
                p2,
                l3,
                d,
            ),
        r matches Err(e) ==> query_error(runtime, e),
{
    let mut caps: Vec<CodecCapability> = Vec::new();
    assert(models(caps@) =~= Seq::<CapabilityModel>::empty());
    let encoder_available = runtime.encoder_available();
    if encoder_available {
        match probe_encode(runtime, &mut caps) {
            Ok(()) => {},
            Err(e) => return Err(e),
        }
    }
    let ghost (l1, p1, l2, p2, l3) = if encoder_available {
        choose|l1: bool, p1: Seq<Profile>, l2: bool, p2: Seq<Profile>, l3: bool|
            #[trigger] encode_answers(runtime, l1, p1, l2, p2, l3) && models(caps@) == Seq::<CapabilityModel>::empty()
                + encode_parts(l1, p1, l2, p2, l3)
    } else {
        (false, Seq::<Profile>::empty(), false, Seq::<Profile>::empty(), false)
    };
    let ghost mid = models(caps@);
    assert(mid =~= if encoder_available {
        encode_parts(l1, p1, l2, p2, l3)
    } else {
        Seq::<CapabilityModel>::empty()
    });
    match probe_decode(runtime, &mut caps) {
        Ok(()) => {},
        Err(e) => return Err(e),
    }
    let ghost d = choose|d: Option<(u32, u32)>|
        call_ensures(R::h264_decode_caps, (runtime,), Ok::<Option<(u32, u32)>, Error>(d)) && models(caps@) == mid
            + #[trigger] decode_part(d);
    assert(nvenc_answers(runtime, encoder_available, l1, p1, l2, p2, l3, d));
    assert(models(caps@) =~= nvenc_models(encoder_available, l1, p1, l2, p2, l3, d));
    Ok(caps)
}

} // verus!
