//! Decisions shared by the hardware H.264 backends: capability lists,
//! configuration checks, keyframe scheduling and output framing.

use vstd::prelude::*;

use crate::bitstream::BitstreamFormat;
use crate::capability::{
    add_profile, initial_builder_model, spec_supports, BackendId, CapabilityModel, CodecCapability,
};
use crate::codec::{CodecId, Direction, Profile};
use crate::decoder::{spec_validate_decoder_config, DecoderConfig};
use crate::encoder::{spec_validate_encoder_config, EncoderConfig};
use crate::error::Error;
use crate::frame::{EncodedUnit, VideoFrame};
use crate::h264::{
    annex_b_nal_units, annex_b_to_length_prefixed, collect_parameter_sets_annex_b, contains_idr,
    BitstreamError,
    copy_slice, error_text, frame_kept, frame_length_prefixed, has_unit_of_type,
    keep_parameter_sets, length_prefixed_to_annex_b, spec_length_prefixed_to_annex_b,
};
use crate::pixel::{spec_validate_buffer, PixelFormat};
use crate::registry::models;
use crate::util::profile::{default_h264_profiles, spec_default_h264_profiles};

verus! {

/// The capabilities in `s` whose direction is `d`, in order.
pub open spec fn with_direction(s: Seq<CapabilityModel>, d: Direction) -> Seq<CapabilityModel>
    decreases s.len(),
{
    if s.len() == 0 {
        Seq::empty()
    } else {
        with_direction(s.drop_last(), d) + if s.last().direction == d {
            seq![s.last()]
        } else {
            Seq::empty()
        }
    }
}

/// Copies of the capabilities in `caps` whose direction is `direction`.
pub fn capabilities_for_direction(caps: &Vec<CodecCapability>, direction: Direction) -> (r: Vec<CodecCapability>)
    ensures
        models(r@) == with_direction(models(caps@), direction),
{
    let ghost s = models(caps@);
    let mut out: Vec<CodecCapability> = Vec::new();
    let mut i: usize = 0;
    while i < caps.len()
        invariant
            i <= caps@.len(),
            s == models(caps@),
            models(out@) == with_direction(s.subrange(0, i as int), direction),
        decreases caps@.len() - i,
    {
        assert(s.subrange(0, i + 1).drop_last() =~= s.subrange(0, i as int));
        assert(s.subrange(0, i + 1).last() == caps@[i as int]@);
        let ghost before = models(out@);
        if caps[i].direction == direction {
            let c = caps[i].duplicate();
            out.push(c);
            assert(models(out@) =~= before + seq![c@]);
        } else {
            assert(models(out@) =~= before + Seq::<CapabilityModel>::empty());
        }
        i = i + 1;
    }
    assert(s.subrange(0, caps@.len() as int) =~= s);
    out
}

/// `profiles` added one by one to an empty list, skipping repeats.
pub open spec fn added_profiles(start: Seq<Profile>, profiles: Seq<Profile>) -> Seq<Profile>
    decreases profiles.len(),
{
    if profiles.len() == 0 {
        start
    } else {
        add_profile(added_profiles(start, profiles.drop_last()), profiles.last())
    }
}

/// The capability a hardware backend advertises for H.264 when the codec is
/// present: the default H.264 profiles, `max_dim × max_dim`, Annex-B and
/// length-prefixed output, low latency.
pub open spec fn h264_probe_model(backend: BackendId, direction: Direction, max_dim: u32) -> CapabilityModel {
    CapabilityModel {
        codec: CodecId::H264,
        backend,
        direction,
        profiles: spec_default_h264_profiles(),
        max_width: max_dim,
        max_height: max_dim,
        bitstream_formats: seq![BitstreamFormat::AnnexB, BitstreamFormat::LengthPrefixed],
        low_latency: true,
    }
}

/// Builds the capability of [`h264_probe_model`].
pub fn h264_probe_capability(backend: BackendId, direction: Direction, max_dim: u32) -> (r: CodecCapability)
    ensures
        r@ == h264_probe_model(backend, direction, max_dim),
{
    let mut builder = CodecCapability::builder(CodecId::H264, backend, direction).max_resolution(
        max_dim,
        max_dim,
    ).bitstream_formats(vec![BitstreamFormat::AnnexB, BitstreamFormat::LengthPrefixed]).low_latency(
        true,
    );
    let defaults = default_h264_profiles();
    let ghost start = builder@;
    let mut i: usize = 0;
    while i < defaults.len()
        invariant
            i <= defaults@.len(),
            defaults@ == spec_default_h264_profiles(),
            builder@ == (CapabilityModel {
                profiles: added_profiles(Seq::empty(), defaults@.subrange(0, i as int)),
                ..start
            }),
        decreases defaults@.len() - i,
    {
        assert(defaults@.subrange(0, i + 1).drop_last() =~= defaults@.subrange(0, i as int));
        builder = builder.profile(defaults[i]);
        i = i + 1;
    }
    proof {
        let d = spec_default_h264_profiles();
        assert(d.subrange(0, 3) =~= d);
        assert(d.subrange(0, 2).drop_last() =~= d.subrange(0, 1));
        assert(d.subrange(0, 1).drop_last() =~= d.subrange(0, 0));
        assert(added_profiles(Seq::empty(), d.subrange(0, 0)) =~= Seq::<Profile>::empty());
        assert(added_profiles(Seq::empty(), d.subrange(0, 1)) =~= seq![Profile::H264Baseline]);
        assert(added_profiles(Seq::empty(), d.subrange(0, 2)) =~= seq![Profile::H264Baseline, Profile::H264Main]);
        assert(added_profiles(Seq::empty(), d) =~= d);
    }
    builder.build()
}

/// What the H.264 encoder open checks return for `config` on a capability
/// with model `cap`; `input_message` is the backend's text for an input
/// format other than NV12 or I420.
pub open spec fn spec_check_h264_encoder(
    config: EncoderConfig,
    cap: CapabilityModel,
    input_message: &'static str,
) -> Result<(), Error> {
    if spec_validate_encoder_config(config) is Err {
        spec_validate_encoder_config(config)
    } else if config.codec != CodecId::H264 {
        Err(Error::InvalidConfig("H264Encoder requires H.264"))
    } else if config.input_format != PixelFormat::Nv12 && config.input_format != PixelFormat::I420 {
        Err(Error::InvalidConfig(input_message))
    } else if config.bitstream != BitstreamFormat::AnnexB && config.bitstream
        != BitstreamFormat::LengthPrefixed {
        Err(Error::InvalidConfig("unsupported H.264 bitstream output format"))
    } else if !spec_supports(cap, config.profile, config.width, config.height) {
        Err(Error::InvalidConfig("capability does not support config"))
    } else {
        Ok(())
    }
}

/// Checks an encoder config against an H.264 hardware capability: the
/// config must validate, target H.264 with NV12 or I420 input and Annex-B or
/// length-prefixed output, and fit the capability.
pub fn check_h264_encoder(config: &EncoderConfig, capability: &CodecCapability, input_message: &'static str) -> (r:
    Result<(), Error>)
    ensures
        r == spec_check_h264_encoder(*config, capability@, input_message),
{
    match config.validate() {
        Ok(()) => {},
        Err(e) => return Err(e),
    }
    if config.codec != CodecId::H264 {
        return Err(Error::InvalidConfig("H264Encoder requires H.264"));
    }
    if config.input_format != PixelFormat::Nv12 && config.input_format != PixelFormat::I420 {
        return Err(Error::InvalidConfig(input_message));
    }
    if config.bitstream != BitstreamFormat::AnnexB && config.bitstream != BitstreamFormat::LengthPrefixed {
        return Err(Error::InvalidConfig("unsupported H.264 bitstream output format"));
    }
    if !capability.supports(config.profile, config.width, config.height) {
        return Err(Error::InvalidConfig("capability does not support config"));
    }
    Ok(())
}

/// What the H.264 decoder open checks return for `config`; `output_message`
/// is the backend's text for an output format other than NV12.
pub open spec fn spec_check_h264_decoder(config: DecoderConfig, output_message: &'static str) -> Result<(), Error> {
    if spec_validate_decoder_config(config) is Err {
        spec_validate_decoder_config(config)
    } else if config.codec != CodecId::H264 {
        Err(Error::InvalidConfig("H264Decoder requires H.264"))
    } else if config.output_format != PixelFormat::Nv12 {
        Err(Error::InvalidConfig(output_message))
    } else if config.bitstream != BitstreamFormat::AnnexB && config.bitstream
        != BitstreamFormat::LengthPrefixed {
        Err(Error::InvalidConfig("unsupported H.264 bitstream format"))
    } else {
        Ok(())
    }
}

/// Checks a decoder config for an H.264 hardware decoder: it must validate,
/// target H.264, produce NV12 and take Annex-B or length-prefixed input.
pub fn check_h264_decoder(config: &DecoderConfig, output_message: &'static str) -> (r: Result<(), Error>)
    ensures
        r == spec_check_h264_decoder(*config, output_message),
{
    match config.validate() {
        Ok(()) => {},
        Err(e) => return Err(e),
    }
    if config.codec != CodecId::H264 {
        return Err(Error::InvalidConfig("H264Decoder requires H.264"));
    }
    if config.output_format != PixelFormat::Nv12 {
        return Err(Error::InvalidConfig(output_message));
    }
    if !crate::bitstream::format_valid_for_codec(config.codec, config.bitstream) {
        return Err(Error::InvalidConfig("unsupported H.264 bitstream format"));
    }
    Ok(())
}

/// Whether the next input frame must be coded as an IDR picture: when one
/// was requested, for the first frame, and at every multiple of the GOP.
pub open spec fn spec_should_emit_idr(force_idr: bool, frame_count: u64, gop_size: u32) -> bool {
    force_idr || frame_count == 0 || frame_count % (gop_size as u64) == 0
}

/// Decides whether the next input frame is coded as an IDR picture.
pub fn should_emit_idr(force_idr: bool, frame_count: u64, gop_size: u32) -> (r: bool)
    requires
        gop_size > 0,
    ensures
        r == spec_should_emit_idr(force_idr, frame_count, gop_size),
{
    force_idr || frame_count == 0 || frame_count % (gop_size as u64) == 0
}

/// Keyframe schedule: unless one is requested, a frame is an IDR picture
/// exactly when its count is a multiple of the GOP (so the first frame
/// always is).
pub proof fn law_idr_schedule(force_idr: bool, frame_count: u64, gop_size: u32)
    requires
        gop_size > 0,
    ensures
        spec_should_emit_idr(force_idr, frame_count, gop_size) == (force_idr || frame_count % (gop_size as u64)
            == 0),
        spec_should_emit_idr(false, 0, gop_size),
{
}

/// What the per-frame checks of an encoder return for a frame of `len`
/// bytes in `format` at `width × height`, given the encoder's config.
pub open spec fn spec_check_encode_frame(
    len: nat,
    width: u32,
    height: u32,
    format: PixelFormat,
    config: EncoderConfig,
) -> Result<(), Error> {
    if spec_validate_buffer(len, width, height) is Err {
        spec_validate_buffer(len, width, height)
    } else if format != config.input_format {
        Err(Error::InvalidConfig("frame format does not match encoder config"))
    } else if width != config.width || height != config.height {
        Err(Error::InvalidConfig("frame dimensions mismatch"))
    } else {
        Ok(())
    }
}

/// Checks an input frame before encoding: its buffer must fit its
/// declared layout, and layout and size must match the encoder's config.
pub fn check_encode_frame(frame: &VideoFrame, config: &EncoderConfig) -> (r: Result<(), Error>)
    ensures
        r == spec_check_encode_frame(frame.pixels@.len(), frame.width, frame.height, frame.format, *config),
{
    match frame.validate() {
        Ok(()) => {},
        Err(e) => return Err(e),
    }
    if frame.format != config.input_format {
        return Err(Error::InvalidConfig("frame format does not match encoder config"));
    }
    if frame.width != config.width || frame.height != config.height {
        return Err(Error::InvalidConfig("frame dimensions mismatch"));
    }
    Ok(())
}

/// The payload an H.264 encoder emits for an Annex-B access unit under the
/// configured output framing.
pub open spec fn spec_package_h264_output(annex_b: Seq<u8>, bitstream: BitstreamFormat) -> Result<Seq<u8>, Error> {
    match bitstream {
        BitstreamFormat::AnnexB => Ok(annex_b),
        BitstreamFormat::LengthPrefixed => Ok(frame_length_prefixed(annex_b_nal_units(annex_b))),
        BitstreamFormat::Av1Obu => Err(Error::InvalidConfig("AV1 OBU output invalid for H.264")),
    }
}

/// `r` as a result over byte sequences.
pub open spec fn bytes_result(r: Result<Vec<u8>, Error>) -> Result<Seq<u8>, Error> {
    match r {
        Ok(v) => Ok(v@),
        Err(e) => Err(e),
    }
}

/// Frames an Annex-B access unit as the configured output framing.
pub fn package_h264_output(annex_b: &[u8], bitstream: BitstreamFormat) -> (r: Result<Vec<u8>, Error>)
    ensures
        bytes_result(r) == spec_package_h264_output(annex_b@, bitstream),
{
    match bitstream {
        BitstreamFormat::AnnexB => Ok(copy_slice(annex_b)),
        BitstreamFormat::LengthPrefixed => Ok(annex_b_to_length_prefixed(annex_b)),
        BitstreamFormat::Av1Obu => Err(Error::InvalidConfig("AV1 OBU output invalid for H.264")),
    }
}

/// An output access unit is a keyframe when the hardware flagged it so or
/// when it holds an IDR slice.
pub fn output_is_keyframe(keyframe_flag: bool, annex_b: &[u8]) -> (r: bool)
    ensures
        r == (keyframe_flag || has_unit_of_type(annex_b_nal_units(annex_b@), 5)),
{
    keyframe_flag || contains_idr(annex_b)
}

/// The SPS/PPS of a keyframe access unit, re-framed with start codes, or
/// `None` when it carries none.
pub fn keyframe_parameter_sets(annex_b: &[u8]) -> (r: Option<Vec<u8>>)
    ensures
        frame_kept(annex_b_nal_units(annex_b@), keep_parameter_sets()).len() == 0 ==> r is None,
        frame_kept(annex_b_nal_units(annex_b@), keep_parameter_sets()).len() > 0 ==> (r matches Some(v)
            && v@ == frame_kept(annex_b_nal_units(annex_b@), keep_parameter_sets())),
{
    let ps = collect_parameter_sets_annex_b(annex_b);
    if ps.len() == 0 {
        None
    } else {
        Some(ps)
    }
}

/// A bitstream failure reported as a backend error carrying its text.
pub fn bitstream_err(e: BitstreamError) -> (r: Error)
    ensures
        r matches Error::Backend { message } && message@ == error_text(e@),
{
    Error::backend(e.message())
}

/// Converts an encoded unit's payload to Annex-B for an H.264 decoder.
pub fn unit_to_annex_b(unit: &EncodedUnit) -> (r: Result<Vec<u8>, Error>)
    ensures
        match unit.bitstream {
            BitstreamFormat::AnnexB => r matches Ok(v) && v@ == unit.data@,
            BitstreamFormat::LengthPrefixed => match spec_length_prefixed_to_annex_b(unit.data@) {
                Ok(s) => r matches Ok(v) && v@ == s,
                Err(f) => r matches Err(Error::Backend { message }) && message@ == error_text(f),
            },
            BitstreamFormat::Av1Obu => r matches Err(e) && e == Error::InvalidBitstream(
                "AV1 bitstream in H.264 decoder",
            ),
        },
{
    match unit.bitstream {
        BitstreamFormat::AnnexB => Ok(copy_slice(unit.data.as_slice())),
        BitstreamFormat::LengthPrefixed => match length_prefixed_to_annex_b(unit.data.as_slice()) {
            Ok(v) => Ok(v),
            Err(e) => Err(bitstream_err(e)),
        },
        BitstreamFormat::Av1Obu => Err(Error::InvalidBitstream("AV1 bitstream in H.264 decoder")),
    }
}

/// The payload a Media Foundation decoder takes for an encoded unit:
/// length-prefixed NAL units.
pub fn unit_to_length_prefixed(unit: &EncodedUnit) -> (r: Result<Vec<u8>, Error>)
    ensures
        match unit.bitstream {
            BitstreamFormat::AnnexB => r matches Ok(v) && v@ == frame_length_prefixed(
                annex_b_nal_units(unit.data@),
            ),
            BitstreamFormat::LengthPrefixed => r matches Ok(v) && v@ == unit.data@,
            BitstreamFormat::Av1Obu => r matches Err(e) && e == Error::InvalidBitstream(
                "AV1 bitstream in H.264 decoder",
            ),
        },
{
    match unit.bitstream {
        BitstreamFormat::AnnexB => Ok(annex_b_to_length_prefixed(unit.data.as_slice())),
        BitstreamFormat::LengthPrefixed => Ok(copy_slice(unit.data.as_slice())),
        BitstreamFormat::Av1Obu => Err(Error::InvalidBitstream("AV1 bitstream in H.264 decoder")),
    }
}

/// A probed H.264 capability advertises Baseline, Main and High, in that
/// order, for the probing backend and direction, up to `max_dim` in both
/// dimensions, so it supports each of them at any size within that bound.
pub proof fn law_probe_advertises_default_profiles(backend: BackendId, direction: Direction, max_dim: u32, width: u32, height: u32)
    ensures
        h264_probe_model(backend, direction, max_dim).profiles == seq![
            Profile::H264Baseline,
            Profile::H264Main,
            Profile::H264High,
        ],
        h264_probe_model(backend, direction, max_dim).codec == CodecId::H264,
        h264_probe_model(backend, direction, max_dim).backend == backend,
        h264_probe_model(backend, direction, max_dim).direction == direction,
        h264_probe_model(backend, direction, max_dim).max_width == max_dim,
        h264_probe_model(backend, direction, max_dim).max_height == max_dim,
        h264_probe_model(backend, direction, max_dim).bitstream_formats == seq![
            BitstreamFormat::AnnexB,
            BitstreamFormat::LengthPrefixed,
        ],
        h264_probe_model(backend, direction, max_dim).low_latency,
        width <= max_dim && height <= max_dim ==> {
            &&& spec_supports(h264_probe_model(backend, direction, max_dim), Profile::H264Baseline, width, height)
            &&& spec_supports(h264_probe_model(backend, direction, max_dim), Profile::H264Main, width, height)
            &&& spec_supports(h264_probe_model(backend, direction, max_dim), Profile::H264High, width, height)
        },
{
    let s = seq![Profile::H264Baseline, Profile::H264Main, Profile::H264High];
    assert(s[0] == Profile::H264Baseline && s[1] == Profile::H264Main && s[2] == Profile::H264High);
}

} // verus!
