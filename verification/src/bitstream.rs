//! Encoded bitstream framing conventions.

use vstd::prelude::*;

use crate::codec::CodecId;

verus! {

/// How encoded access units are delimited on the wire.
#[derive(Debug, Clone, Copy, PartialEq, Eq, Structural, Hash)]
pub enum BitstreamFormat {
    /// H.264/HEVC Annex-B (`0x00 0x00 0x00 0x01` start codes).
    AnnexB,
    /// H.264/HEVC AVCC-style length-prefixed NAL units (4-byte big-endian size).
    LengthPrefixed,
    /// AV1 low-overhead bitstream format (OBU sequence).
    Av1Obu,
}

impl Default for BitstreamFormat {
    fn default() -> (r: Self)
        ensures
            r == BitstreamFormat::AnnexB,
    {
        BitstreamFormat::AnnexB
    }
}

/// The framings that are valid for a codec.
pub open spec fn formats_for_codec(codec: CodecId) -> Seq<BitstreamFormat> {
    match codec {
        CodecId::H264 | CodecId::Hevc => seq![BitstreamFormat::AnnexB, BitstreamFormat::LengthPrefixed],
        CodecId::Av1 => seq![BitstreamFormat::Av1Obu],
    }
}

/// The framing a codec uses unless told otherwise.
pub open spec fn spec_default_bitstream(codec: CodecId) -> BitstreamFormat {
    match codec {
        CodecId::H264 | CodecId::Hevc => BitstreamFormat::AnnexB,
        CodecId::Av1 => BitstreamFormat::Av1Obu,
    }
}

impl BitstreamFormat {
    /// Returns formats valid for a given codec.
    pub fn for_codec(codec: CodecId) -> (r: &'static [BitstreamFormat])
        ensures
            r@ == formats_for_codec(codec),
    {
        match codec {
            CodecId::H264 | CodecId::Hevc => {
                let r: &'static [BitstreamFormat] = &[BitstreamFormat::AnnexB, BitstreamFormat::LengthPrefixed];
                r
            },
            CodecId::Av1 => {
                let r: &'static [BitstreamFormat] = &[BitstreamFormat::Av1Obu];
                r
            },
        }
    }
}

/// Whether `format` is one of the framings valid for `codec`.
pub fn format_valid_for_codec(codec: CodecId, format: BitstreamFormat) -> (r: bool)
    ensures
        r == formats_for_codec(codec).contains(format),
{
    let formats = BitstreamFormat::for_codec(codec);
    let mut i: usize = 0;
    while i < formats.len()
        invariant
            formats@ == formats_for_codec(codec),
            i <= formats@.len(),
            forall|j: int| 0 <= j < i ==> formats@[j] != format,
        decreases formats@.len() - i,
    {
        if formats[i] == format {
            assert(formats@[i as int] == format);
            return true;
        }
        i = i + 1;
    }
    false
}

/// The framing a codec uses unless told otherwise.
pub fn default_bitstream(codec: CodecId) -> (r: BitstreamFormat)
    ensures
        r == spec_default_bitstream(codec),
{
    match codec {
        CodecId::H264 | CodecId::Hevc => BitstreamFormat::AnnexB,
        CodecId::Av1 => BitstreamFormat::Av1Obu,
    }
}

} // verus!
