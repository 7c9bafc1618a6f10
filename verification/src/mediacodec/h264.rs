//! Decisions of the MediaCodec H.264 encoder and decoder sessions: config
//! checks, the media formats they are configured with, and input checks.

use core::time::Duration;

use vstd::prelude::*;

use crate::capability::{CapabilityModel, CodecCapability};
use crate::decoder::DecoderConfig;
use crate::encoder::EncoderConfig;
use crate::error::Error;
use crate::h264::{annex_b_nal_units, nal_type_of, NAL_TYPE_PPS, NAL_TYPE_SPS};
use crate::mediacodec::profile::{is_supported, spec_is_supported};
use crate::frame::{DecodedFrame, EncodedUnit};
use crate::pixel::{spec_frame_size, yuv420_bytes, PixelFormat};
use crate::util::pixel::{copy_nv12_tight, copy_nv12_tight_fits, tight_nv12_byte};
use crate::session::{next_parameter_sets, EncoderSession, EncoderSessionModel};
use crate::h264::has_unit_of_type;
use crate::platform::spec_package_h264_output;
use crate::error::is_backend_error;
use crate::platform::{check_h264_decoder, check_h264_encoder, spec_check_h264_decoder, spec_check_h264_encoder};

verus! {

/// What opening a MediaCodec H.264 encoder checks `config` to: the shared
/// H.264 checks, then a profile MediaCodec accepts.
pub open spec fn spec_validate_encoder_config(config: EncoderConfig, cap: CapabilityModel) -> Result<(), Error> {
    let shared = spec_check_h264_encoder(config, cap, "MediaCodec H.264 expects NV12 or I420 input");
    if shared is Err {
        shared
    } else if !spec_is_supported(config.profile) {
        Err(Error::InvalidConfig("unsupported H.264 profile"))
    } else {
        Ok(())
    }
}

/// Checks an encoder config before a MediaCodec H.264 session is opened.
pub fn validate_encoder_config(config: &EncoderConfig, capability: &CodecCapability) -> (r: Result<(), Error>)
    ensures
        r == spec_validate_encoder_config(*config, capability@),
{
    match check_h264_encoder(config, capability, "MediaCodec H.264 expects NV12 or I420 input") {
        Ok(()) => {},
        Err(e) => return Err(e),
    }
    if !is_supported(config.profile) {
        return Err(Error::InvalidConfig("unsupported H.264 profile"));
    }
    Ok(())
}

/// What opening a MediaCodec H.264 decoder checks `config` to.
pub open spec fn spec_validate_decoder_config(config: DecoderConfig) -> Result<(), Error> {
    spec_check_h264_decoder(config, "MediaCodec H.264 decoder outputs NV12")
}

/// Checks a decoder config before a MediaCodec H.264 session is opened.
pub fn validate_decoder_config(config: &DecoderConfig) -> (r: Result<(), Error>)
    ensures
        r == spec_validate_decoder_config(*config),
{
    check_h264_decoder(config, "MediaCodec H.264 decoder outputs NV12")
}

/// `BUFFER_FLAG_KEY_FRAME`.
pub const BUFFER_FLAG_KEY_FRAME: u32 = 1;
/// `BUFFER_FLAG_CODEC_CONFIG`.
pub const BUFFER_FLAG_CODEC_CONFIG: u32 = 2;
/// `BUFFER_FLAG_END_OF_STREAM`.
pub const BUFFER_FLAG_END_OF_STREAM: u32 = 4;

/// What an encoder output buffer carries.
#[derive(Debug, Clone, Copy, PartialEq, Eq)]
pub enum EncoderOutput {
    /// Codec configuration (SPS/PPS) to keep as parameter sets.
    CodecConfig,
    /// An access unit; `keyframe_flag` is the hardware's key-frame flag.
    AccessUnit {
        /// Whether the buffer carries the key-frame flag.
        keyframe_flag: bool,
    },
}

/// Classifies an encoder output buffer by its flags.
pub fn classify_encoder_output(flags: u32) -> (r: EncoderOutput)
    ensures
        flags & BUFFER_FLAG_CODEC_CONFIG != 0 ==> r == EncoderOutput::CodecConfig,
        flags & BUFFER_FLAG_CODEC_CONFIG == 0 ==> r == (EncoderOutput::AccessUnit {
            keyframe_flag: flags & BUFFER_FLAG_KEY_FRAME != 0,
        }),
{
    if flags & BUFFER_FLAG_CODEC_CONFIG != 0 {
        EncoderOutput::CodecConfig
    } else {
        EncoderOutput::AccessUnit { keyframe_flag: flags & BUFFER_FLAG_KEY_FRAME != 0 }
    }
}

/// The flags an input frame is queued with: the key-frame flag for an IDR
/// picture.
pub fn input_buffer_flags(idr: bool) -> (r: u32)
    ensures
        r == if idr { BUFFER_FLAG_KEY_FRAME } else { 0 },
{
    if idr { BUFFER_FLAG_KEY_FRAME } else { 0 }
}

/// What a decoder output buffer carries.
#[derive(Debug, Clone, Copy, PartialEq, Eq)]
pub enum DecoderOutput {
    /// End of stream: draining stops.
    EndOfStream,
    /// No payload: the buffer is released and skipped.
    Empty,
    /// A decoded picture.
    Picture,
}

/// Classifies a decoder output buffer by its flags and payload size.
pub fn classify_decoder_output(flags: u32, size: i32) -> (r: DecoderOutput)
    ensures
        flags & BUFFER_FLAG_END_OF_STREAM != 0 ==> r == DecoderOutput::EndOfStream,
        flags & BUFFER_FLAG_END_OF_STREAM == 0 && size <= 0 ==> r == DecoderOutput::Empty,
        flags & BUFFER_FLAG_END_OF_STREAM == 0 && size > 0 ==> r == DecoderOutput::Picture,
{
    if flags & BUFFER_FLAG_END_OF_STREAM != 0 {
        DecoderOutput::EndOfStream
    } else if size <= 0 {
        DecoderOutput::Empty
    } else {
        DecoderOutput::Picture
    }
}

/// A presentation time in microseconds as reported by MediaCodec, clamped
/// at zero.
pub fn output_pts_micros(presentation_time_us: i64) -> (r: u64)
    ensures
        r == if presentation_time_us > 0 { presentation_time_us as u64 } else { 0 },
{
    if presentation_time_us > 0 { presentation_time_us as u64 } else { 0 }
}

/// The `bitrate` parameter for a bitrate in bits per second, saturated to
/// `i32::MAX`.
pub fn bitrate_parameter(bitrate_bps: u32) -> (r: i32)
    ensures
        r == (if bitrate_bps > 0x7fff_ffffu32 { 0x7fff_ffffu32 } else { bitrate_bps }) as i32,
{
    let b: u32 = if bitrate_bps > 0x7fff_ffffu32 { 0x7fff_ffffu32 } else { bitrate_bps };
    b as i32
}

/// MediaCodec's `COLOR_FormatYUV420SemiPlanar` (NV12).
pub const COLOR_FORMAT_NV12: i32 = 21;

/// The media-format entries a MediaCodec H.264 encoder is configured with
/// (besides its MIME type, `video/avc`).
pub struct EncoderFormat {
    /// `width`.
    pub width: i32,
    /// `height`.
    pub height: i32,
    /// `bitrate`, saturated to `i32::MAX`.
    pub bitrate: i32,
    /// `frame-rate`, at least 1.
    pub frame_rate: i32,
    /// `i-frame-interval` in seconds, at least 1.
    pub i_frame_interval: i32,
    /// `color-format`.
    pub color_format: i32,
    /// `max-input-size`: one NV12 frame, when its size is representable.
    pub max_input_size: Option<i32>,
}

/// Whole frames per second of `config` (30 when the denominator is zero).
pub open spec fn spec_fps(config: EncoderConfig) -> i32 {
    if config.frame_rate.1 > 0 {
        (config.frame_rate.0 / config.frame_rate.1) as i32
    } else {
        30
    }
}

/// `x`, or 1 when `x` is smaller.
pub open spec fn at_least_one(x: i32) -> i32 {
    if x >= 1 { x } else { 1 }
}

/// The `i-frame-interval` for `config`: the GOP in seconds, at least 1.
pub open spec fn spec_i_frame_interval(config: EncoderConfig) -> i32 {
    if config.gop_size > 0 {
        let q = config.gop_size / (at_least_one(spec_fps(config)) as u32);
        (if q >= 1 { q } else { 1u32 }) as i32
    } else {
        1
    }
}

/// The media format of a MediaCodec H.264 encoder for `config`.
pub open spec fn spec_encoder_format(config: EncoderConfig) -> EncoderFormat {
    EncoderFormat {
        width: config.width as i32,
        height: config.height as i32,
        bitrate: (if config.bitrate > 0x7fff_ffffu32 { 0x7fff_ffffu32 } else { config.bitrate }) as i32,
        frame_rate: at_least_one(spec_fps(config)),
        i_frame_interval: spec_i_frame_interval(config),
        color_format: COLOR_FORMAT_NV12,
        max_input_size: match spec_frame_size(config.width, config.height) {
            Ok(n) => Some((if n > 0x7fff_ffffusize { 0x7fff_ffffusize } else { n }) as i32),
            Err(_) => None,
        },
    }
}

/// Computes the media format a MediaCodec H.264 encoder is configured with.
pub fn build_encoder_format(config: &EncoderConfig) -> (r: EncoderFormat)
    ensures
        r == spec_encoder_format(*config),
{
    let fps: i32 = if config.frame_rate.1 > 0 {
        (config.frame_rate.0 / config.frame_rate.1) as i32
    } else {
        30
    };
    let fps_at_least_one: i32 = if fps >= 1 { fps } else { 1 };
    let i_frame_interval: i32 = if config.gop_size > 0 {
        let q: u32 = config.gop_size / (fps_at_least_one as u32);
        (if q >= 1 { q } else { 1u32 }) as i32
    } else {
        1
    };
    let max_input_size = match PixelFormat::Nv12.frame_size(config.width, config.height) {
        Ok(n) => {
            let capped: usize = if n > 0x7fff_ffffusize { 0x7fff_ffffusize } else { n };
            Some(capped as i32)
        },
        Err(_) => None,
    };
    EncoderFormat {
        width: config.width as i32,
        height: config.height as i32,
        bitrate: bitrate_parameter(config.bitrate),
        frame_rate: fps_at_least_one,
        i_frame_interval,
        color_format: COLOR_FORMAT_NV12,
        max_input_size,
    }
}

/// The last non-empty unit of `units` whose NAL type is `t`.
pub open spec fn last_unit_of_type(units: Seq<Seq<u8>>, t: u8) -> Option<Seq<u8>>
    decreases units.len(),
{
    if units.len() == 0 {
        None
    } else if units.last().len() > 0 && nal_type_of(units.last()[0]) == t {
        Some(units.last())
    } else {
        last_unit_of_type(units.drop_last(), t)
    }
}

/// The codec-specific data a MediaCodec H.264 decoder is configured with.
pub struct DecoderFormat {
    /// `csd-0`: the sequence parameter set.
    pub csd0: Option<Vec<u8>>,
    /// `csd-1`: the picture parameter set.
    pub csd1: Option<Vec<u8>>,
}

/// `o` over byte sequences.
pub open spec fn bytes_option(o: Option<Vec<u8>>) -> Option<Seq<u8>> {
    match o {
        Some(v) => Some(v@),
        None => None,
    }
}

/// Takes `csd-0` (SPS) and `csd-1` (PPS) from Annex-B extradata — the last
/// of each kind wins — and reports whether `csd-0` was set.
pub fn build_decoder_format(config: &DecoderConfig) -> (r: (DecoderFormat, bool))
    ensures
        config.extradata is None ==> bytes_option(r.0.csd0) is None && bytes_option(r.0.csd1) is None,
        config.extradata matches Some(x) ==> bytes_option(r.0.csd0) == last_unit_of_type(
            annex_b_nal_units(x@),
            7,
        ) && bytes_option(r.0.csd1) == last_unit_of_type(annex_b_nal_units(x@), 8),
        r.1 == r.0.csd0 is Some,
{
    match &config.extradata {
        None => (DecoderFormat { csd0: None, csd1: None }, false),
        Some(extradata) => {
            let nals = oxideav_bitstream::h264::split_annex_b(extradata.as_slice());
            let ghost all = nals@.map_values(|s: &[u8]| s@);
            let mut csd0: Option<Vec<u8>> = None;
            let mut csd1: Option<Vec<u8>> = None;
            let mut i: usize = 0;
            while i < nals.len()
                invariant
                    i <= nals@.len(),
                    all == nals@.map_values(|s: &[u8]| s@),
                    bytes_option(csd0) == last_unit_of_type(all.subrange(0, i as int), 7),
                    bytes_option(csd1) == last_unit_of_type(all.subrange(0, i as int), 8),
                decreases nals@.len() - i,
            {
                let nal = nals[i];
                assert(all.subrange(0, i + 1).drop_last() =~= all.subrange(0, i as int));
                assert(all.subrange(0, i + 1).last() == nal@);
                if nal.len() > 0 {
                    let (_, _, nal_type) = oxideav_bitstream::h264::nal_header(nal[0]);
                    if nal_type == NAL_TYPE_SPS {
                        csd0 = Some(crate::h264::copy_slice(nal));
                    } else if nal_type == NAL_TYPE_PPS {
                        csd1 = Some(crate::h264::copy_slice(nal));
                    }
                }
                i = i + 1;
            }
            assert(all.subrange(0, nals@.len() as int) =~= all);
            let has_csd0 = csd0.is_some();
            (DecoderFormat { csd0, csd1 }, has_csd0)
        },
    }
}

/// What a MediaCodec H.264 decoder checks an input unit to before feeding
/// it: the unit must be non-empty and the SPS/PPS must have been loaded.
pub fn check_decode_input(unit: &EncodedUnit, extradata_loaded: bool) -> (r: Result<(), Error>)
    ensures
        unit.data@.len() == 0 ==> r == Err::<(), Error>(Error::InvalidBitstream("empty access unit")),
        unit.data@.len() > 0 && !extradata_loaded ==> r == Err::<(), Error>(
            Error::InvalidBitstream(
                "decoder needs extradata before first decode; pass SPS/PPS via DecoderConfig::with_extradata",
            ),
        ),
        unit.data@.len() > 0 && extradata_loaded ==> r is Ok,
{
    if unit.data.len() == 0 {
        return Err(Error::InvalidBitstream("empty access unit"));
    }
    if !extradata_loaded {
        return Err(
            Error::InvalidBitstream(
                "decoder needs extradata before first decode; pass SPS/PPS via DecoderConfig::with_extradata",
            ),
        );
    }
    Ok(())
}

/// The picture layout of a MediaCodec decoder's output buffers.
#[derive(Debug, Clone, Copy, PartialEq, Eq)]
pub struct OutputLayout {
    /// Visible width.
    pub width: u32,
    /// Visible height.
    pub height: u32,
    /// Luma row stride in bytes.
    pub stride: u32,
    /// Luma plane allocation height in rows.
    pub slice_height: u32,
}

/// A format value clamped at zero.
pub open spec fn non_negative(x: i32) -> u32 {
    if x > 0 { x as u32 } else { 0 }
}

/// The layout after an output-format change reporting the given entries:
/// reported sizes replace the old ones; a missing stride or slice height
/// defaults to the (new) width or height.
pub open spec fn spec_updated_layout(
    old: OutputLayout,
    width: Option<i32>,
    height: Option<i32>,
    stride: Option<i32>,
    slice_height: Option<i32>,
) -> OutputLayout {
    let w = match width {
        Some(x) => non_negative(x),
        None => old.width,
    };
    let h = match height {
        Some(x) => non_negative(x),
        None => old.height,
    };
    OutputLayout {
        width: w,
        height: h,
        stride: match stride {
            Some(x) => non_negative(x),
            None => w,
        },
        slice_height: match slice_height {
            Some(x) => non_negative(x),
            None => h,
        },
    }
}

fn clamp_non_negative(x: i32) -> (r: u32)
    ensures
        r == non_negative(x),
{
    if x > 0 { x as u32 } else { 0 }
}

/// Applies an output-format change to `layout`; returns whether the
/// picture size changed (the decoder then keeps draining).
pub fn update_output_dimensions(
    layout: &mut OutputLayout,
    width: Option<i32>,
    height: Option<i32>,
    stride: Option<i32>,
    slice_height: Option<i32>,
) -> (changed: bool)
    ensures
        *final(layout) == spec_updated_layout(*old(layout), width, height, stride, slice_height),
        changed == (final(layout).width != old(layout).width || final(layout).height != old(layout).height),
{
    let old_width = layout.width;
    let old_height = layout.height;
    match width {
        Some(x) => {
            layout.width = clamp_non_negative(x);
        },
        None => {},
    }
    match height {
        Some(x) => {
            layout.height = clamp_non_negative(x);
        },
        None => {},
    }
    layout.stride = match stride {
        Some(x) => clamp_non_negative(x),
        None => layout.width,
    };
    layout.slice_height = match slice_height {
        Some(x) => clamp_non_negative(x),
        None => layout.height,
    };
    layout.width != old_width || layout.height != old_height
}

/// `x`, or 1 when it is 0.
pub open spec fn at_least_one_u32(x: u32) -> u32 {
    if x >= 1 { x } else { 1 }
}

/// The inputs on which [`tight_frame`] can copy `raw_len` bytes of output
/// laid out as `layout`: the tight NV12 size fits `usize` and the strided
/// source covers every row it reads.
pub open spec fn tight_frame_fits(raw_len: nat, layout: OutputLayout) -> bool {
    let w = at_least_one_u32(layout.width);
    let h = at_least_one_u32(layout.height);
    &&& spec_frame_size(w, h) is Ok
    &&& copy_nv12_tight_fits(
        raw_len,
        yuv420_bytes(w, h) as nat,
        w as nat,
        h as nat,
        at_least_one_u32(layout.stride) as nat,
        at_least_one_u32(layout.slice_height) as nat,
    )
}

/// Whether [`tight_frame`] can copy `raw` laid out as `layout`.
pub fn tight_frame_fits_exec(raw: &[u8], layout: &OutputLayout) -> (r: bool)
    ensures
        r == tight_frame_fits(raw@.len(), *layout),
{
    let w: u32 = if layout.width >= 1 { layout.width } else { 1 };
    let h: u32 = if layout.height >= 1 { layout.height } else { 1 };
    let stride: u32 = if layout.stride >= 1 { layout.stride } else { 1 };
    let slice_h: u32 = if layout.slice_height >= 1 { layout.slice_height } else { 1 };
    let size = match PixelFormat::Nv12.frame_size(w, h) {
        Ok(n) => n,
        Err(_) => return false,
    };
    copy_fits(raw.len() as u64, size as u64, w as u64, h as u64, stride as u64, slice_h as u64)
}

/// `copy_nv12_tight_fits` on 64-bit values, checked without overflow.
fn copy_fits(src_len: u64, dst_len: u64, w: u64, h: u64, stride: u64, slice_height: u64) -> (r: bool)
    requires
        src_len <= usize::MAX,
        dst_len <= usize::MAX,
        w <= u32::MAX,
        h <= u32::MAX,
        stride <= u32::MAX,
        slice_height <= u32::MAX,
    ensures
        r == copy_nv12_tight_fits(src_len as nat, dst_len as nat, w as nat, h as nat, stride as nat, slice_height as nat),
{
    assert(stride * slice_height <= 0xffff_ffffu64 * 0xffff_ffffu64) by (nonlinear_arith)
        requires
            stride <= 0xffff_ffffu64,
            slice_height <= 0xffff_ffffu64,
    ;
    assert(w * h <= 0xffff_ffffu64 * 0xffff_ffffu64) by (nonlinear_arith)
        requires
            w <= 0xffff_ffffu64,
            h <= 0xffff_ffffu64,
    ;
    assert(h * w == w * h) by (nonlinear_arith);
    let plane: u64 = stride * slice_height;
    if plane as u128 > usize::MAX as u128 {
        return false;
    }
    let pixels: u64 = w * h;
    if pixels as u128 > usize::MAX as u128 {
        return false;
    }
    if h > 0 {
        assert((h - 1) * stride <= 0xffff_ffffu64 * 0xffff_ffffu64) by (nonlinear_arith)
            requires
                h <= 0xffff_ffffu64,
                h > 0,
                stride <= 0xffff_ffffu64,
        ;
        let luma_end: u128 = (h as u128 - 1) * stride as u128 + w as u128;
        if luma_end > src_len as u128 || pixels as u128 > dst_len as u128 {
            return false;
        }
    }
    let half = h / 2;
    if half > 0 {
        assert((half - 1) * stride <= 0xffff_ffffu64 * 0xffff_ffffu64) by (nonlinear_arith)
            requires
                half <= 0xffff_ffffu64,
                half > 0,
                stride <= 0xffff_ffffu64,
        ;
        assert(half * w <= 0xffff_ffffu64 * 0xffff_ffffu64) by (nonlinear_arith)
            requires
                half <= 0xffff_ffffu64,
                w <= 0xffff_ffffu64,
        ;
        let chroma_end: u128 = plane as u128 + (half as u128 - 1) * stride as u128 + w as u128;
        let dst_end: u128 = pixels as u128 + (half as u128) * (w as u128);
        if chroma_end > src_len as u128 || dst_end > dst_len as u128 {
            return false;
        }
    }
    true
}

/// `f` is the output buffer `raw`, laid out as `layout`, copied into a
/// tight NV12 frame of at least 1 × 1 pixels in `format` at `pts`.
pub open spec fn is_tight_frame(f: DecodedFrame, raw: Seq<u8>, layout: OutputLayout, format: PixelFormat, pts: Duration) -> bool {
    &&& f.width == at_least_one_u32(layout.width)
    &&& f.height == at_least_one_u32(layout.height)
    &&& f.format == format
    &&& f.pts == pts
    &&& f.pixels@ == Seq::new(
        yuv420_bytes(f.width, f.height) as nat,
        |k: int|
            tight_nv12_byte(
                Seq::new(yuv420_bytes(f.width, f.height) as nat, |i: int| 0u8),
                raw,
                f.width as nat,
                f.height as nat,
                at_least_one_u32(layout.stride) as nat,
                at_least_one_u32(layout.slice_height) as nat,
                k as nat,
            ),
    )
}

/// Copies one decoded output buffer into a tight NV12 frame of at least
/// 1 × 1 pixels.
pub fn tight_frame(raw: &[u8], layout: &OutputLayout, format: PixelFormat, pts: Duration) -> (r: DecodedFrame)
    requires
        tight_frame_fits(raw@.len(), *layout),
    ensures
        is_tight_frame(r, raw@, *layout, format, pts),
{
    let w: u32 = if layout.width >= 1 { layout.width } else { 1 };
    let h: u32 = if layout.height >= 1 { layout.height } else { 1 };
    let stride: u32 = if layout.stride >= 1 { layout.stride } else { 1 };
    let slice_h: u32 = if layout.slice_height >= 1 { layout.slice_height } else { 1 };
    let size = match PixelFormat::Nv12.frame_size(w, h) {
        Ok(n) => n,
        Err(_) => 0,
    };
    let mut pixels: Vec<u8> = vec![0u8; size];
    let ghost zeros = pixels@;
    assert(zeros =~= Seq::new(yuv420_bytes(w, h) as nat, |i: int| 0u8));
    copy_nv12_tight(raw, pixels.as_mut_slice(), w as usize, h as usize, stride as usize, slice_h as usize);
    DecodedFrame { pixels, width: w, height: h, format, pts }
}

/// The time at `micros` microseconds, as `Duration::from_micros` gives it.
pub uninterp spec fn micros_duration(micros: u64) -> Duration;

/// Trusted: `core::time::Duration::from_micros` is a function of its
/// argument alone; which duration it builds is only named.
pub assume_specification[ core::time::Duration::from_micros ](micros: u64) -> (r: Duration)
    ensures
        r == micros_duration(micros),
;

/// One event of a MediaCodec decoder's output port, as the host reads it.
#[derive(Debug)]
pub enum OutputEvent {
    /// An output buffer: its flags, its payload size, the payload bytes
    /// (`offset .. offset + size` of the buffer; empty when the size is not
    /// positive) and its presentation time.
    Buffer { flags: u32, size: i32, payload: Vec<u8>, presentation_time_us: i64 },
    /// `OutputFormatChanged` or `OutputBuffersChanged`, with the entries of
    /// the output format as it now reads.
    FormatChanged { width: Option<i32>, height: Option<i32>, stride: Option<i32>, slice_height: Option<i32> },
    /// `TryAgainLater`, or a dequeue that would block.
    TryAgain,
}

/// What draining does after an output event.
#[derive(Debug)]
pub enum DrainAction {
    /// Hand on this decoded frame and keep draining.
    Emit(DecodedFrame),
    /// Keep draining without a frame.
    Skip,
    /// Stop draining.
    Stop,
}

/// One step of draining a decoder's output port: whether the dequeued
/// buffer is released (not rendered) first, then what follows.
#[derive(Debug)]
pub struct DrainStep {
    /// Release the dequeued output buffer before acting.
    pub release: bool,
    /// What draining does next.
    pub action: DrainAction,
}

/// Decides one step of draining decoded frames: every dequeued buffer is
/// released once; end of stream stops; an empty buffer is skipped; a
/// picture becomes a tight NV12 frame of the current layout, stamped with
/// its presentation time clamped at zero; a format change updates `layout`
/// and keeps draining only when the picture size changed; try-again stops.
pub fn decoder_output_step(layout: &mut OutputLayout, event: OutputEvent, format: PixelFormat) -> (r: DrainStep)
    requires
        event matches OutputEvent::Buffer { flags, size, payload, .. } ==> (flags & BUFFER_FLAG_END_OF_STREAM == 0
            && size > 0 ==> tight_frame_fits(payload@.len(), *old(layout))),
    ensures
        event matches OutputEvent::Buffer { flags, size, payload, presentation_time_us } ==> {
            &&& r.release
            &&& *final(layout) == *old(layout)
            &&& flags & BUFFER_FLAG_END_OF_STREAM != 0 ==> r.action is Stop
            &&& flags & BUFFER_FLAG_END_OF_STREAM == 0 && size <= 0 ==> r.action is Skip
            &&& flags & BUFFER_FLAG_END_OF_STREAM == 0 && size > 0 ==> (r.action matches DrainAction::Emit(f)
                && is_tight_frame(
                f,
                payload@,
                *old(layout),
                format,
                micros_duration(if presentation_time_us > 0 { presentation_time_us as u64 } else { 0 }),
            ))
        },
        event matches OutputEvent::FormatChanged { width, height, stride, slice_height } ==> {
            &&& !r.release
            &&& *final(layout) == spec_updated_layout(*old(layout), width, height, stride, slice_height)
            &&& if final(layout).width != old(layout).width || final(layout).height != old(layout).height {
                r.action is Skip
            } else {
                r.action is Stop
            }
        },
        event is TryAgain ==> !r.release && r.action is Stop && *final(layout) == *old(layout),
{
    match event {
        OutputEvent::Buffer { flags, size, payload, presentation_time_us } => {
            match classify_decoder_output(flags, size) {
                DecoderOutput::EndOfStream => DrainStep { release: true, action: DrainAction::Stop },
                DecoderOutput::Empty => DrainStep { release: true, action: DrainAction::Skip },
                DecoderOutput::Picture => {
                    let pts = Duration::from_micros(output_pts_micros(presentation_time_us));
                    let frame = tight_frame(payload.as_slice(), layout, format, pts);
                    DrainStep { release: true, action: DrainAction::Emit(frame) }
                },
            }
        },
        OutputEvent::FormatChanged { width, height, stride, slice_height } => {
            if update_output_dimensions(layout, width, height, stride, slice_height) {
                DrainStep { release: false, action: DrainAction::Skip }
            } else {
                DrainStep { release: false, action: DrainAction::Stop }
            }
        },
        OutputEvent::TryAgain => DrainStep { release: false, action: DrainAction::Stop },
    }
}

/// One event of a MediaCodec encoder's output port, as the host reads it.
#[derive(Debug)]
pub enum EncoderOutputEvent {
    /// An output buffer: its flags, its bytes, the payload's offset and
    /// size within them, and its presentation time.
    Buffer { flags: u32, buffer: Vec<u8>, offset: i32, size: i32, presentation_time_us: i64 },
    /// `TryAgainLater`, `OutputFormatChanged`, `OutputBuffersChanged`, or a
    /// dequeue that would block.
    Idle,
}

/// What draining an encoder does after an output event.
#[derive(Debug)]
pub enum EncoderDrainAction {
    /// Hand on this encoded unit and keep draining.
    Emit(EncodedUnit),
    /// Keep draining without a unit.
    Skip,
    /// Stop draining.
    Stop,
    /// Fail the drain with this error.
    Fail(Error),
}

/// One step of draining an encoder's output port: whether the dequeued
/// buffer is released (not rendered) first, then what follows.
#[derive(Debug)]
pub struct EncoderDrainStep {
    /// Release the dequeued output buffer before acting.
    pub release: bool,
    /// What draining does next.
    pub action: EncoderDrainAction,
}

/// Decides one step of draining encoded units: every dequeued buffer is
/// released once; a codec-config buffer (all its bytes) becomes the
/// session's parameter sets; any other buffer's payload becomes an encoded
/// unit as [`EncoderSession::output_unit`] makes it, stamped with its
/// presentation time clamped at zero; an idle port stops the drain.
pub fn encoder_output_step(session: &mut EncoderSession, event: EncoderOutputEvent) -> (r: EncoderDrainStep)
    requires
        event matches EncoderOutputEvent::Buffer { flags, buffer, offset, size, .. } ==> (flags
            & BUFFER_FLAG_CODEC_CONFIG == 0 ==> 0 <= offset && 0 <= size && offset + size <= buffer@.len()),
    ensures
        event is Idle ==> !r.release && r.action is Stop && final(session)@ == old(session)@,
        event matches EncoderOutputEvent::Buffer { flags, buffer, offset, size, presentation_time_us } ==> {
            &&& r.release
            &&& flags & BUFFER_FLAG_CODEC_CONFIG != 0 ==> r.action is Skip && final(session)@ == (EncoderSessionModel {
                parameter_sets: Some(buffer@),
                ..old(session)@
            })
            &&& flags & BUFFER_FLAG_CODEC_CONFIG == 0 ==> {
                let annex_b = buffer@.subrange(offset as int, offset + size);
                let pts = micros_duration(if presentation_time_us > 0 { presentation_time_us as u64 } else { 0 });
                match spec_package_h264_output(annex_b, old(session)@.config.bitstream) {
                    Err(e) => r.action matches EncoderDrainAction::Fail(e2) && e2 == e && final(session)@ == old(
                        session,
                    )@,
                    Ok(data) => {
                        let keyframe = flags & BUFFER_FLAG_KEY_FRAME != 0 || has_unit_of_type(
                            annex_b_nal_units(annex_b),
                            5,
                        );
                        &&& r.action matches EncoderDrainAction::Emit(u) && u.data@ == data && u.is_keyframe
                            == keyframe && u.pts == pts && u.dts is None && u.bitstream == old(
                            session,
                        )@.config.bitstream
                        &&& final(session)@ == (EncoderSessionModel {
                            parameter_sets: next_parameter_sets(old(session)@.parameter_sets, annex_b, keyframe),
                            ..old(session)@
                        })
                    },
                }
            }
        },
{
    match event {
        EncoderOutputEvent::Idle => EncoderDrainStep { release: false, action: EncoderDrainAction::Stop },
        EncoderOutputEvent::Buffer { flags, buffer, offset, size, presentation_time_us } => {
            match classify_encoder_output(flags) {
                EncoderOutput::CodecConfig => {
                    session.record_codec_config(buffer);
                    EncoderDrainStep { release: true, action: EncoderDrainAction::Skip }
                },
                EncoderOutput::AccessUnit { keyframe_flag } => {
                    let start = offset as usize;
                    let end = start + size as usize;
                    let annex_b = vstd::slice::slice_subrange(buffer.as_slice(), start, end);
                    let pts = Duration::from_micros(output_pts_micros(presentation_time_us));
                    match session.output_unit(annex_b, keyframe_flag, pts) {
                        Ok(u) => EncoderDrainStep { release: true, action: EncoderDrainAction::Emit(u) },
                        Err(e) => EncoderDrainStep { release: true, action: EncoderDrainAction::Fail(e) },
                    }
                },
            }
        },
    }
}

/// One event of a MediaCodec encoder's input port.
#[derive(Debug, Clone, Copy, PartialEq, Eq)]
pub enum InputEvent {
    /// An input buffer with room for `capacity` bytes.
    Buffer { capacity: usize },
    /// `TryAgainLater`, or a dequeue that would block.
    TryAgain,
}

/// What the encoder does with an input event for a frame of `frame_len`
/// bytes.
#[derive(Debug, Clone, Copy, PartialEq, Eq)]
pub enum InputAction {
    /// Ask for an input buffer again.
    Retry,
    /// Copy the frame into the buffer and queue it.
    Fill,
}

/// Decides what to do with an input-port event: ask again until a buffer
/// comes; a buffer smaller than the frame fails with a backend error.
pub fn input_step(event: InputEvent, frame_len: usize) -> (r: Result<InputAction, Error>)
    ensures
        event is TryAgain ==> r == Ok::<InputAction, Error>(InputAction::Retry),
        event matches InputEvent::Buffer { capacity } ==> if capacity < frame_len {
            r matches Err(e) && is_backend_error(e, "input buffer too small for frame"@)
        } else {
            r == Ok::<InputAction, Error>(InputAction::Fill)
        },
{
    match event {
        InputEvent::TryAgain => Ok(InputAction::Retry),
        InputEvent::Buffer { capacity } => if capacity < frame_len {
            Err(Error::backend_str("input buffer too small for frame"))
        } else {
            Ok(InputAction::Fill)
        },
    }
}

/// The `frame-rate` entry is the whole number of frames per second of the
/// config's rate (at least 1; 30 without a denominator), and the
/// `i-frame-interval` entry is the whole number of such seconds in a GOP
/// (at least 1).
pub proof fn law_encoder_format_rates(config: EncoderConfig)
    ensures
        spec_encoder_format(config).frame_rate >= 1,
        config.frame_rate.1 == 0 ==> spec_encoder_format(config).frame_rate == 30,
        0 < config.frame_rate.1 <= config.frame_rate.0 <= 0x7fff_ffff ==> {
            let f = spec_encoder_format(config).frame_rate as int;
            f * config.frame_rate.1 <= config.frame_rate.0 < (f + 1) * config.frame_rate.1
        },
        0 < config.frame_rate.1 && config.frame_rate.0 < config.frame_rate.1 ==> spec_encoder_format(config).frame_rate
            == 1,
        config.gop_size <= 0x7fff_ffff ==> spec_encoder_format(config).i_frame_interval >= 1,
        config.gop_size == 0 ==> spec_encoder_format(config).i_frame_interval == 1,
        spec_encoder_format(config).frame_rate <= config.gop_size <= 0x7fff_ffff ==> {
            let f = spec_encoder_format(config).frame_rate as int;
            let k = spec_encoder_format(config).i_frame_interval as int;
            k * f <= config.gop_size < (k + 1) * f
        },
        0 < config.gop_size < spec_encoder_format(config).frame_rate ==> spec_encoder_format(config).i_frame_interval
            == 1,
        config.width <= 0x7fff_ffff ==> spec_encoder_format(config).width == config.width,
        config.height <= 0x7fff_ffff ==> spec_encoder_format(config).height == config.height,
        config.bitrate <= 0x7fff_ffff ==> spec_encoder_format(config).bitrate == config.bitrate,
        config.bitrate > 0x7fff_ffff ==> spec_encoder_format(config).bitrate == 0x7fff_ffff,
        spec_encoder_format(config).color_format == 21,
{
    let num = config.frame_rate.0 as int;
    let den = config.frame_rate.1 as int;
    if den > 0 {
        vstd::arithmetic::div_mod::lemma_fundamental_div_mod(num, den);
        vstd::arithmetic::div_mod::lemma_mod_bound(num, den);
        vstd::arithmetic::div_mod::lemma_div_pos_is_pos(num, den);
        vstd::arithmetic::div_mod::lemma_div_is_ordered_by_denominator(num, 1, den);
        let q = num / den;
        assert(q <= num);
        if num < den {
            vstd::arithmetic::div_mod::lemma_basic_div(num, den);
        }
        if 0 < den <= num <= 0x7fff_ffff {
            assert(q * den <= num && num < (q + 1) * den) by (nonlinear_arith)
                requires
                    num == den * q + num % den,
                    0 <= num % den < den,
            ;
        }
    }
    let f = spec_encoder_format(config).frame_rate as int;
    let g = config.gop_size as int;
    assert(at_least_one(spec_fps(config)) as u32 == f);
    if g > 0 {
        vstd::arithmetic::div_mod::lemma_fundamental_div_mod(g, f);
        vstd::arithmetic::div_mod::lemma_mod_bound(g, f);
        let k = g / f;
        if g >= f {
            vstd::arithmetic::div_mod::lemma_div_pos_is_pos(g, f);
            vstd::arithmetic::div_mod::lemma_div_non_zero(g, f);
            assert(k * f <= g && g < (k + 1) * f) by (nonlinear_arith)
                requires
                    g == f * k + g % f,
                    0 <= g % f < f,
            ;
        } else {
            vstd::arithmetic::div_mod::lemma_basic_div(g, f);
        }
    }
}

} // verus!
