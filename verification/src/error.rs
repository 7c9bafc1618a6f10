//! Error types for codec operations.

use vstd::prelude::*;

use crate::capability::BackendId;
use crate::codec::{CodecId, Direction};
use crate::text::{decimal_string, decimal_text};

verus! {

/// Codec operation failure.
#[derive(Debug, Clone, PartialEq, Eq)]
pub enum Error {
    /// No backend registered or none matched the requested capability.
    NoBackend {
        /// Requested video codec.
        codec: CodecId,
        /// Requested platform backend.
        backend: BackendId,
        /// Encode or decode direction.
        direction: Direction,
    },
    /// The host does not expose any encoder/decoder for this direction.
    NoCapabilities {
        /// Encode or decode direction.
        direction: Direction,
    },
    /// Encoder/decoder configuration is invalid or unsupported.
    InvalidConfig(&'static str),
    /// Pixel buffer size or layout does not match the declared format and resolution.
    PixelBufferMismatch {
        /// Expected byte length.
        expected: usize,
        /// Actual byte length.
        actual: usize,
    },
    /// Encoded bitstream could not be parsed or is unsupported.
    InvalidBitstream(&'static str),
    /// Internal encoder queue is full; caller should retry or drop a frame.
    Backpressure,
    /// Backend returned a platform-specific failure.
    Backend {
        /// Human-readable message from the backend.
        message: String,
    },
    /// Operation is not implemented by this backend build.
    NotImplemented(&'static str),
}

/// `e` is `InvalidConfig` carrying the message `msg`.
pub open spec fn is_invalid_config(e: Error, msg: Seq<char>) -> bool {
    e matches Error::InvalidConfig(m) && m@ == msg
}

/// `e` is `InvalidBitstream` carrying the message `msg`.
pub open spec fn is_invalid_bitstream(e: Error, msg: Seq<char>) -> bool {
    e matches Error::InvalidBitstream(m) && m@ == msg
}

/// `e` is `NotImplemented` carrying the message `msg`.
pub open spec fn is_not_implemented(e: Error, msg: Seq<char>) -> bool {
    e matches Error::NotImplemented(m) && m@ == msg
}

/// `e` is a `Backend` error carrying the message `msg`.
pub open spec fn is_backend_error(e: Error, msg: Seq<char>) -> bool {
    e matches Error::Backend { message } && message@ == msg
}

/// The `Debug` name of a codec.
pub open spec fn codec_name(c: CodecId) -> Seq<char> {
    match c {
        CodecId::H264 => "H264"@,
        CodecId::Hevc => "Hevc"@,
        CodecId::Av1 => "Av1"@,
    }
}

/// The `Debug` name of a backend.
pub open spec fn backend_name(b: BackendId) -> Seq<char> {
    match b {
        BackendId::VideoToolbox => "VideoToolbox"@,
        BackendId::Nvenc => "Nvenc"@,
        BackendId::Vaapi => "Vaapi"@,
        BackendId::MediaCodec => "MediaCodec"@,
        BackendId::MediaFoundation => "MediaFoundation"@,
    }
}

/// The `Debug` name of a direction.
pub open spec fn direction_name(d: Direction) -> Seq<char> {
    match d {
        Direction::Encode => "Encode"@,
        Direction::Decode => "Decode"@,
    }
}

/// The human-readable text of an error.
pub open spec fn error_text(e: Error) -> Seq<char> {
    match e {
        Error::NoBackend { codec, backend, direction } => "no backend available for "@ + codec_name(codec)
            + " via "@ + backend_name(backend) + " ("@ + direction_name(direction) + ")"@,
        Error::NoCapabilities { direction } => "no "@ + direction_name(direction)
            + " capabilities found on this host"@,
        Error::InvalidConfig(m) => "invalid configuration: "@ + m@,
        Error::PixelBufferMismatch { expected, actual } => "pixel buffer mismatch: expected "@ + decimal_text(
            expected as nat,
        ) + " bytes, got "@ + decimal_text(actual as nat),
        Error::InvalidBitstream(m) => "invalid bitstream: "@ + m@,
        Error::Backpressure => "encoder backpressure"@,
        Error::Backend { message } => "backend error: "@ + message@,
        Error::NotImplemented(m) => "not implemented: "@ + m@,
    }
}

fn codec_name_str(c: CodecId) -> (r: &'static str)
    ensures
        r@ == codec_name(c),
{
    match c {
        CodecId::H264 => "H264",
        CodecId::Hevc => "Hevc",
        CodecId::Av1 => "Av1",
    }
}

fn backend_name_str(b: BackendId) -> (r: &'static str)
    ensures
        r@ == backend_name(b),
{
    match b {
        BackendId::VideoToolbox => "VideoToolbox",
        BackendId::Nvenc => "Nvenc",
        BackendId::Vaapi => "Vaapi",
        BackendId::MediaCodec => "MediaCodec",
        BackendId::MediaFoundation => "MediaFoundation",
    }
}

fn direction_name_str(d: Direction) -> (r: &'static str)
    ensures
        r@ == direction_name(d),
{
    match d {
        Direction::Encode => "Encode",
        Direction::Decode => "Decode",
    }
}

impl Error {
    /// Wraps a backend-specific message.
    pub fn backend(message: String) -> (r: Error)
        ensures
            r == (Error::Backend { message }),
    {
        Error::Backend { message }
    }

    /// Wraps a backend-specific message given as a string slice.
    pub fn backend_str(message: &str) -> (r: Error)
        ensures
            is_backend_error(r, message@),
    {
        Error::Backend { message: String::from_str(message) }
    }

    /// Human-readable text of this error (the form it is displayed in).
    pub fn message(&self) -> (r: String)
        ensures
            r@ == error_text(*self),
    {
        match self {
            Error::NoBackend { codec, backend, direction } => String::from_str("no backend available for ").concat(
                codec_name_str(*codec),
            ).concat(" via ").concat(backend_name_str(*backend)).concat(" (").concat(
                direction_name_str(*direction),
            ).concat(")"),
            Error::NoCapabilities { direction } => String::from_str("no ").concat(
                direction_name_str(*direction),
            ).concat(" capabilities found on this host"),
            Error::InvalidConfig(m) => String::from_str("invalid configuration: ").concat(m),
            Error::PixelBufferMismatch { expected, actual } => {
                let e = decimal_string(*expected as u64);
                let a = decimal_string(*actual as u64);
                String::from_str("pixel buffer mismatch: expected ").concat(e.as_str()).concat(" bytes, got ").concat(
                    a.as_str(),
                )
            },
            Error::InvalidBitstream(m) => String::from_str("invalid bitstream: ").concat(m),
            Error::Backpressure => String::from_str("encoder backpressure"),
            Error::Backend { message } => String::from_str("backend error: ").concat(message.as_str()),
            Error::NotImplemented(m) => String::from_str("not implemented: ").concat(m),
        }
    }
}

} // verus!
