//! Raw pixel formats and layout helpers.

use vstd::prelude::*;

use crate::error::Error;

verus! {

/// Uncompressed video pixel layout accepted by encoders and produced by decoders.
#[derive(Debug, Clone, Copy, PartialEq, Eq, Structural, Hash)]
pub enum PixelFormat {
    /// 4:2:0 planar Y, U, V (I420 / YUV420P).
    I420,
    /// 4:2:0 semi-planar Y + interleaved UV (NV12).
    Nv12,
}

/// Bytes in a 4:2:0 picture of `width × height`: a full-resolution luma
/// plane and half as many chroma bytes.
pub open spec fn yuv420_bytes(width: u32, height: u32) -> int {
    width * height + (width * height) / 2
}

/// What `frame_size` returns for `width × height`.
pub open spec fn spec_frame_size(width: u32, height: u32) -> Result<usize, Error> {
    if width == 0 || height == 0 {
        Err(Error::InvalidConfig("width and height must be non-zero"))
    } else if yuv420_bytes(width, height) > u64::MAX {
        Err(Error::InvalidConfig("dimension overflow"))
    } else if yuv420_bytes(width, height) > usize::MAX {
        Err(Error::InvalidConfig("frame too large"))
    } else {
        Ok(yuv420_bytes(width, height) as usize)
    }
}

/// What `validate_buffer` returns for a buffer of `len` bytes.
pub open spec fn spec_validate_buffer(len: nat, width: u32, height: u32) -> Result<(), Error> {
    match spec_frame_size(width, height) {
        Err(e) => Err(e),
        Ok(expected) => if len != expected {
            Err(Error::PixelBufferMismatch { expected, actual: len as usize })
        } else {
            Ok(())
        },
    }
}

impl PixelFormat {
    /// Number of bytes required for `width × height` in this format.
    ///
    /// Fails with [`Error::InvalidConfig`] when dimensions are zero or the
    /// size overflows.
    pub fn frame_size(self, width: u32, height: u32) -> (r: Result<usize, Error>)
        ensures
            r == spec_frame_size(width, height),
    {
        if width == 0 || height == 0 {
            return Err(Error::InvalidConfig("width and height must be non-zero"));
        }
        let w = width as u64;
        let h = height as u64;
        assert(w * h <= u32::MAX * u32::MAX) by (nonlinear_arith)
            requires
                w <= u32::MAX,
                h <= u32::MAX,
        ;
        let y = w * h;
        let uv = y / 2;
        let total = match y.checked_add(uv) {
            Some(t) => t,
            None => return Err(Error::InvalidConfig("dimension overflow")),
        };
        if total > usize::MAX as u64 {
            return Err(Error::InvalidConfig("frame too large"));
        }
        Ok(total as usize)
    }

    /// Validates that `pixels` matches `width`, `height`, and this format.
    ///
    /// Fails with the `frame_size` error, or with
    /// [`Error::PixelBufferMismatch`] on a size mismatch.
    pub fn validate_buffer(self, pixels: &[u8], width: u32, height: u32) -> (r: Result<(), Error>)
        ensures
            r == spec_validate_buffer(pixels@.len(), width, height),
    {
        let expected = match self.frame_size(width, height) {
            Ok(e) => e,
            Err(e) => return Err(e),
        };
        if pixels.len() != expected {
            return Err(Error::PixelBufferMismatch { expected, actual: pixels.len() });
        }
        Ok(())
    }
}

} // verus!
