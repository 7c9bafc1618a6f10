//! Decisions of the NVDEC H.264 decoder: the decode surfaces created for a
//! new sequence, and what becomes of each picture the parser displays.

use core::time::Duration;

use vstd::prelude::*;

use crate::frame::DecodedFrame;
use crate::pixel::PixelFormat;

verus! {

/// How NVDEC decode surfaces are created for a sequence.
#[derive(Debug, Clone, Copy, PartialEq, Eq)]
pub struct SurfaceLayout {
    /// `ulWidth` / `ulMaxWidth`: the coded width.
    pub coded_width: u32,
    /// `ulHeight` / `ulMaxHeight`: the coded height.
    pub coded_height: u32,
    /// `ulTargetWidth`: the display width, or the coded width without a
    /// display area.
    pub target_width: u32,
    /// `ulTargetHeight`: the display height, or the coded height without a
    /// display area.
    pub target_height: u32,
    /// `ulNumDecodeSurfaces`: the parser's minimum, at least 4.
    pub num_decode_surfaces: u8,
    /// What the sequence callback answers the parser once the decoder is
    /// created: the parser's minimum, at least 1.
    pub parser_surfaces: u8,
}

/// An extent of a display area, clamped at zero.
pub open spec fn extent(low: i32, high: i32) -> u32 {
    if high - low > 0 { (high - low) as u32 } else { 0 }
}

/// The surfaces for a sequence of `coded_width × coded_height` with the
/// given display area and minimum surface count.
pub open spec fn spec_surface_layout(
    coded_width: u32,
    coded_height: u32,
    left: i32,
    top: i32,
    right: i32,
    bottom: i32,
    min_surfaces: u8,
) -> SurfaceLayout {
    SurfaceLayout {
        coded_width,
        coded_height,
        target_width: if extent(left, right) > 0 { extent(left, right) } else { coded_width },
        target_height: if extent(top, bottom) > 0 { extent(top, bottom) } else { coded_height },
        num_decode_surfaces: if min_surfaces >= 4 { min_surfaces } else { 4 },
        parser_surfaces: if min_surfaces >= 1 { min_surfaces } else { 1 },
    }
}

/// Computes the decode surfaces for a new sequence.
pub fn surface_layout(
    coded_width: u32,
    coded_height: u32,
    left: i32,
    top: i32,
    right: i32,
    bottom: i32,
    min_surfaces: u8,
) -> (r: SurfaceLayout)
    requires
        i32::MIN <= right - left <= i32::MAX,
        i32::MIN <= bottom - top <= i32::MAX,
    ensures
        r == spec_surface_layout(coded_width, coded_height, left, top, right, bottom, min_surfaces),
{
    let dw: i32 = right - left;
    let dh: i32 = bottom - top;
    let display_w: u32 = if dw > 0 { dw as u32 } else { 0 };
    let display_h: u32 = if dh > 0 { dh as u32 } else { 0 };
    SurfaceLayout {
        coded_width,
        coded_height,
        target_width: if display_w > 0 { display_w } else { coded_width },
        target_height: if display_h > 0 { display_h } else { coded_height },
        num_decode_surfaces: if min_surfaces >= 4 { min_surfaces } else { 4 },
        parser_surfaces: if min_surfaces >= 1 { min_surfaces } else { 1 },
    }
}

/// What the picture-display callback does with a picture the parser hands
/// it.
#[derive(Debug, Clone, Copy, PartialEq, Eq)]
pub enum DisplayAction {
    /// Queue nothing and answer the parser with 0.
    Drop,
    /// Map the picture and copy its NV12 pixels from the device.
    MapAndCopy,
}

/// The first decision of the display callback: a picture is mapped only
/// once a decoder exists and the sequence has a non-zero size.
pub fn display_action(has_decoder: bool, width: u32, height: u32) -> (r: DisplayAction)
    ensures
        r == (if has_decoder && width != 0 && height != 0 {
            DisplayAction::MapAndCopy
        } else {
            DisplayAction::Drop
        }),
{
    if !has_decoder || width == 0 || height == 0 {
        DisplayAction::Drop
    } else {
        DisplayAction::MapAndCopy
    }
}

/// What became of a picture the display callback set out to map and copy.
#[derive(Debug, Clone, PartialEq, Eq)]
pub enum MappedPicture {
    /// `cuvidMapVideoFrame64` failed: nothing is mapped.
    MapFailed,
    /// The picture was mapped, but copying it from the device failed.
    CopyFailed,
    /// The picture was mapped and its NV12 pixels copied.
    Copied(Vec<u8>),
}

/// What the display callback answers the parser, and whether it unmaps the
/// picture (`cuvidUnmapVideoFrame64`) before answering.
#[derive(Debug, Clone, Copy, PartialEq, Eq)]
pub struct DisplayAnswer {
    /// The callback's return value: 1 when a frame was queued, else 0.
    pub answer: i32,
    /// The picture was mapped and is unmapped, once.
    pub unmap: bool,
}

/// The end of the display callback for a picture that `display_action`
/// chose to map: a copied picture is queued at the end of `frames` as a
/// `width × height` frame in `format`, stamped with the last submitted
/// timestamp, and answered with 1; a failed map or copy queues nothing and
/// is answered with 0. Whatever was mapped is unmapped exactly once.
pub fn display_result(
    frames: &mut Vec<DecodedFrame>,
    picture: MappedPicture,
    width: u32,
    height: u32,
    format: PixelFormat,
    last_pts: Duration,
) -> (r: DisplayAnswer)
    ensures
        r.unmap == !(picture is MapFailed),
        picture is MapFailed || picture is CopyFailed ==> r.answer == 0 && final(frames)@ == old(frames)@,
        picture matches MappedPicture::Copied(p) ==> r.answer == 1 && final(frames)@ == old(frames)@.push(
            (DecodedFrame { pixels: p, width, height, format, pts: last_pts }),
        ),
{
    match picture {
        MappedPicture::MapFailed => DisplayAnswer { answer: 0, unmap: false },
        MappedPicture::CopyFailed => DisplayAnswer { answer: 0, unmap: true },
        MappedPicture::Copied(pixels) => {
            frames.push(DecodedFrame { pixels, width, height, format, pts: last_pts });
            DisplayAnswer { answer: 1, unmap: true }
        },
    }
}

} // verus!
