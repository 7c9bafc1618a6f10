//! Raw and encoded video frame types.

use core::time::Duration;

use vstd::prelude::*;

use crate::bitstream::BitstreamFormat;
use crate::error::Error;
use crate::pixel::{spec_validate_buffer, PixelFormat};

verus! {

/// Trusted: cloning a `core::time::Duration` (a `Copy` value) yields the
/// same duration.
pub assume_specification[ <core::time::Duration as Clone>::clone ](d: &Duration) -> (r: Duration)
    ensures
        r == *d,
;

/// Uncompressed input to a [`crate::encoder::VideoEncoder`].
#[derive(Debug, Clone, Copy, PartialEq, Eq)]
pub struct VideoFrame<'a> {
    /// Packed pixel bytes in [`Self::format`].
    pub pixels: &'a [u8],
    /// Picture width in pixels.
    pub width: u32,
    /// Picture height in pixels.
    pub height: u32,
    /// Pixel layout of [`Self::pixels`].
    pub format: PixelFormat,
    /// Presentation timestamp relative to the stream origin.
    pub pts: Duration,
}

impl<'a> VideoFrame<'a> {
    /// Validates buffer size against format and dimensions.
    ///
    /// Fails as [`PixelFormat::validate_buffer`] does.
    pub fn validate(&self) -> (r: Result<(), Error>)
        ensures
            r == spec_validate_buffer(self.pixels@.len(), self.width, self.height),
    {
        self.format.validate_buffer(self.pixels, self.width, self.height)
    }
}

/// One compressed access unit from an encoder (or wire input to a decoder).
#[derive(Debug, Clone, PartialEq, Eq)]
pub struct EncodedUnit {
    /// Compressed bitstream bytes.
    pub data: Vec<u8>,
    /// `true` when the unit is a keyframe / sync sample (IDR, AV1 key frame, …).
    pub is_keyframe: bool,
    /// Presentation timestamp.
    pub pts: Duration,
    /// Decode timestamp when it differs from [`Self::pts`].
    pub dts: Option<Duration>,
    /// How [`Self::data`] is framed.
    pub bitstream: BitstreamFormat,
}

impl EncodedUnit {
    /// Creates a unit with `dts = None`.
    pub fn new(data: Vec<u8>, is_keyframe: bool, pts: Duration, bitstream: BitstreamFormat) -> (r: Self)
        ensures
            r.data@ == data@,
            r.is_keyframe == is_keyframe,
            r.pts == pts,
            r.dts is None,
            r.bitstream == bitstream,
    {
        EncodedUnit { data, is_keyframe, pts, dts: None, bitstream }
    }
}

/// Uncompressed output from a [`crate::decoder::VideoDecoder`].
#[derive(Debug, Clone, PartialEq, Eq)]
pub struct DecodedFrame {
    /// Packed pixel bytes in [`Self::format`].
    pub pixels: Vec<u8>,
    /// Picture width in pixels.
    pub width: u32,
    /// Picture height in pixels.
    pub height: u32,
    /// Pixel layout of [`Self::pixels`].
    pub format: PixelFormat,
    /// Presentation timestamp carried from the bitstream.
    pub pts: Duration,
}

} // verus!
