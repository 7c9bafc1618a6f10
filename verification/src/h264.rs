//! H.264 Annex-B / AVCC framing helpers and the slice-header parse used to
//! fill VA-API decode buffers, built on `oxideav_bitstream`.

use vstd::prelude::*;

use crate::bitstream::BitstreamFormat;
use crate::text::{decimal_string, decimal_text};

verus! {

// ───────────────────────────── Errors ─────────────────────────────

/// Bitstream parse/framing failure.
#[derive(Debug, Clone, PartialEq, Eq)]
pub enum BitstreamError {
    /// The byte stream ended in the middle of a header.
    UnexpectedEnd(String),
    /// Syntax error inside an otherwise well-framed header.
    InvalidData(String),
    /// The input uses a feature that is deliberately not handled.
    Unsupported(String),
}

/// The mathematical content of a [`BitstreamError`].
pub enum BitstreamFailure {
    UnexpectedEnd(Seq<char>),
    InvalidData(Seq<char>),
    Unsupported(Seq<char>),
}

impl View for BitstreamError {
    type V = BitstreamFailure;

    open spec fn view(&self) -> BitstreamFailure {
        match self {
            BitstreamError::UnexpectedEnd(m) => BitstreamFailure::UnexpectedEnd(m@),
            BitstreamError::InvalidData(m) => BitstreamFailure::InvalidData(m@),
            BitstreamError::Unsupported(m) => BitstreamFailure::Unsupported(m@),
        }
    }
}

impl BitstreamError {
    /// Syntax error with message `msg`.
    pub fn invalid(msg: &str) -> (r: BitstreamError)
        ensures
            r@ == BitstreamFailure::InvalidData(msg@),
    {
        BitstreamError::InvalidData(String::from_str(msg))
    }

    /// Unsupported feature with message `msg`.
    pub fn unsupported(msg: &str) -> (r: BitstreamError)
        ensures
            r@ == BitstreamFailure::Unsupported(msg@),
    {
        BitstreamError::Unsupported(String::from_str(msg))
    }

    /// Truncated input with message `msg`.
    pub fn unexpected_end(msg: &str) -> (r: BitstreamError)
        ensures
            r@ == BitstreamFailure::UnexpectedEnd(msg@),
    {
        BitstreamError::UnexpectedEnd(String::from_str(msg))
    }

    /// Human-readable text of this error (the form it is displayed in).
    pub fn message(&self) -> (r: String)
        ensures
            r@ == error_text(self@),
    {
        match self {
            BitstreamError::UnexpectedEnd(m) => String::from_str("unexpected end of stream: ").concat(m.as_str()),
            BitstreamError::InvalidData(m) => String::from_str("invalid bitstream data: ").concat(m.as_str()),
            BitstreamError::Unsupported(m) => String::from_str("unsupported bitstream feature: ").concat(m.as_str()),
        }
    }
}

/// The display text of a bitstream failure.
pub open spec fn error_text(e: BitstreamFailure) -> Seq<char> {
    match e {
        BitstreamFailure::UnexpectedEnd(m) => "unexpected end of stream: "@ + m,
        BitstreamFailure::InvalidData(m) => "invalid bitstream data: "@ + m,
        BitstreamFailure::Unsupported(m) => "unsupported bitstream feature: "@ + m,
    }
}

// ─────────────────────── NAL unit types and framing ───────────────────────

/// H.264 NAL unit type 5 — coded slice of an IDR picture.
pub const NAL_TYPE_IDR: u8 = 5;
/// H.264 NAL unit type 7 — sequence parameter set.
pub const NAL_TYPE_SPS: u8 = 7;
/// H.264 NAL unit type 8 — picture parameter set.
pub const NAL_TYPE_PPS: u8 = 8;
/// H.264 NAL unit type 1 — coded slice of a non-IDR picture.
pub const NAL_TYPE_NON_IDR_SLICE: u8 = 1;
/// H.264 NAL unit type 9 — access unit delimiter.
pub const NAL_TYPE_AUD: u8 = 9;

/// Length of the start code at `i`: 4 for `00 00 00 01`, 3 for `00 00 01`,
/// 0 where none begins.
pub open spec fn start_code_at(data: Seq<u8>, i: int) -> int {
    if i + 3 < data.len() && data[i] == 0 && data[i + 1] == 0 && data[i + 2] == 0 && data[i + 3] == 1 {
        4
    } else if i + 2 < data.len() && data[i] == 0 && data[i + 1] == 0 && data[i + 2] == 1 {
        3
    } else {
        0
    }
}

/// The units of `data` found by scanning from `i`, where the unit being
/// read (if any) began at `start`: each start code ends the open unit and
/// opens the next; the end of the data ends the last one.
pub open spec fn units_from(data: Seq<u8>, i: int, start: Option<int>) -> Seq<Seq<u8>>
    decreases data.len() - i,
{
    if i >= data.len() || i < 0 {
        match start {
            Some(s) => seq![data.subrange(s, data.len() as int)],
            None => Seq::empty(),
        }
    } else if start_code_at(data, i) > 0 {
        let next = i + start_code_at(data, i);
        (match start {
            Some(s) => seq![data.subrange(s, i)],
            None => Seq::<Seq<u8>>::empty(),
        }) + units_from(data, next, Some(next))
    } else {
        units_from(data, i + 1, start)
    }
}

/// The NAL unit bodies of an Annex-B byte stream, in order: the bytes
/// between consecutive start codes and after the last one (start codes
/// removed, emulation bytes kept; bytes before the first start code are
/// not a unit).
#[verifier::opaque]
pub open spec fn annex_b_nal_units(data: Seq<u8>) -> Seq<Seq<u8>> {
    units_from(data, 0, None)
}

/// The RBSP of an EBSP, scanned from the front: each `00 00 03` triple
/// becomes `00 00` (its emulation-prevention byte dropped); every other
/// byte is kept.
#[verifier::opaque]
pub open spec fn rbsp_of_ebsp(ebsp: Seq<u8>) -> Seq<u8>
    decreases ebsp.len(),
{
    if ebsp.len() == 0 {
        Seq::empty()
    } else if ebsp.len() >= 3 && ebsp[0] == 0 && ebsp[1] == 0 && ebsp[2] == 3 {
        seq![0u8, 0u8] + rbsp_of_ebsp(ebsp.subrange(3, ebsp.len() as int))
    } else {
        seq![ebsp[0]] + rbsp_of_ebsp(ebsp.subrange(1, ebsp.len() as int))
    }
}

/// Removing emulation-prevention bytes never makes the data longer.
pub proof fn lemma_rbsp_not_longer(ebsp: Seq<u8>)
    ensures
        rbsp_of_ebsp(ebsp).len() <= ebsp.len(),
    decreases ebsp.len(),
{
    reveal(rbsp_of_ebsp);
    if ebsp.len() >= 3 && ebsp[0] == 0 && ebsp[1] == 0 && ebsp[2] == 3 {
        lemma_rbsp_not_longer(ebsp.subrange(3, ebsp.len() as int));
    } else if ebsp.len() > 0 {
        lemma_rbsp_not_longer(ebsp.subrange(1, ebsp.len() as int));
    }
}

/// Trusted: `oxideav_bitstream::h264::split_annex_b` returns the NAL bodies
/// of an Annex-B stream as `annex_b_nal_units` states: scanning from the
/// front, each 4- or 3-byte start code closes the open unit and opens the
/// next, and the end of the buffer closes the last.
pub assume_specification[ oxideav_bitstream::h264::split_annex_b ](buf: &[u8]) -> (r: Vec<&[u8]>)
    ensures
        r@.map_values(|s: &[u8]| s@) == annex_b_nal_units(buf@),
;

/// Trusted: `oxideav_bitstream::h264::nal_header` splits a NAL header byte
/// into `(forbidden_zero_bit, nal_ref_idc, nal_unit_type)`.
pub assume_specification[ oxideav_bitstream::h264::nal_header ](byte: u8) -> (r: (u8, u8, u8))
    ensures
        r == ((byte >> 7u8) & 1u8, (byte >> 5u8) & 3u8, byte & 0x1fu8),
;

/// Trusted: `oxideav_bitstream::nal::ebsp_to_rbsp` strips emulation-prevention
/// bytes as `rbsp_of_ebsp` states: scanning from the front, a `00 00 03`
/// triple is emitted as `00 00`, any other byte as itself.
pub assume_specification[ oxideav_bitstream::nal::ebsp_to_rbsp ](ebsp: &[u8]) -> (r: Vec<u8>)
    ensures
        r@ == rbsp_of_ebsp(ebsp@),
;

/// The NAL unit type in the low five bits of a header byte.
pub open spec fn nal_type_of(b: u8) -> u8 {
    b & 0x1fu8
}

/// The Annex-B start code used for emitted NAL units.
pub open spec fn start_code() -> Seq<u8> {
    seq![0u8, 0u8, 0u8, 1u8]
}

/// Concatenation of `start_code() + u` for every unit `u` that `keep` accepts.
pub open spec fn frame_kept(units: Seq<Seq<u8>>, keep: spec_fn(Seq<u8>) -> bool) -> Seq<u8>
    decreases units.len(),
{
    if units.len() == 0 {
        Seq::empty()
    } else {
        frame_kept(units.drop_last(), keep) + if keep(units.last()) {
            start_code() + units.last()
        } else {
            Seq::empty()
        }
    }
}

/// Every unit, framed with a 4-byte start code.
pub open spec fn keep_all() -> spec_fn(Seq<u8>) -> bool {
    |u: Seq<u8>| true
}

/// Non-empty SPS or PPS units.
pub open spec fn keep_parameter_sets() -> spec_fn(Seq<u8>) -> bool {
    |u: Seq<u8>| u.len() > 0 && (nal_type_of(u[0]) == 7 || nal_type_of(u[0]) == 8)
}

/// Non-empty units other than SPS, PPS and access unit delimiters.
pub open spec fn keep_slice_data() -> spec_fn(Seq<u8>) -> bool {
    |u: Seq<u8>| u.len() > 0 && !(nal_type_of(u[0]) == 7 || nal_type_of(u[0]) == 8 || nal_type_of(u[0]) == 9)
}

/// Non-empty units of NAL type `t`.
pub open spec fn keep_type(t: u8) -> spec_fn(Seq<u8>) -> bool {
    |u: Seq<u8>| u.len() > 0 && nal_type_of(u[0]) == t
}

/// The units that `keep` accepts, in order.
pub open spec fn units_kept(units: Seq<Seq<u8>>, keep: spec_fn(Seq<u8>) -> bool) -> Seq<Seq<u8>>
    decreases units.len(),
{
    if units.len() == 0 {
        Seq::empty()
    } else {
        units_kept(units.drop_last(), keep) + if keep(units.last()) {
            seq![units.last()]
        } else {
            Seq::empty()
        }
    }
}

/// Big-endian 4-byte encoding of `n`.
pub open spec fn be32(n: u32) -> Seq<u8> {
    seq![(n >> 24u32) as u8, (n >> 16u32) as u8, (n >> 8u32) as u8, n as u8]
}

/// Big-endian 2-byte encoding of `n`.
pub open spec fn be16(n: u16) -> Seq<u8> {
    seq![(n >> 8u16) as u8, n as u8]
}

/// Each unit prefixed by its length as a 4-byte big-endian number
/// (the length taken modulo 2^32, as a `u32` holds it).
pub open spec fn frame_length_prefixed(units: Seq<Seq<u8>>) -> Seq<u8>
    decreases units.len(),
{
    if units.len() == 0 {
        Seq::empty()
    } else {
        frame_length_prefixed(units.drop_last()) + be32(units.last().len() as u32) + units.last()
    }
}

/// Each unit prefixed by its length as a 2-byte big-endian number.
pub open spec fn frame_length16(units: Seq<Seq<u8>>) -> Seq<u8>
    decreases units.len(),
{
    if units.len() == 0 {
        Seq::empty()
    } else {
        frame_length16(units.drop_last()) + be16(units.last().len() as u16) + units.last()
    }
}

/// The value of four big-endian bytes.
pub open spec fn be32_value(b0: u8, b1: u8, b2: u8, b3: u8) -> nat {
    b0 as nat * 0x1000000 + b1 as nat * 0x10000 + b2 as nat * 0x100 + b3 as nat
}

/// Length-prefixed (4-byte big-endian) NAL units re-framed as Annex-B.
pub open spec fn spec_length_prefixed_to_annex_b(rest: Seq<u8>) -> Result<Seq<u8>, BitstreamFailure>
    decreases rest.len(),
{
    if rest.len() < 4 {
        if rest.len() == 0 {
            Ok(Seq::empty())
        } else {
            Err(BitstreamFailure::InvalidData("trailing length-prefixed bytes"@))
        }
    } else {
        let n: int = be32_value(rest[0], rest[1], rest[2], rest[3]) as int;
        if n > rest.len() - 4 {
            Err(BitstreamFailure::InvalidData("length-prefixed NAL overrun"@))
        } else {
            match spec_length_prefixed_to_annex_b(rest.subrange(4 + n, rest.len() as int)) {
                Ok(tail) => Ok(start_code() + rest.subrange(4, 4 + n) + tail),
                Err(e) => Err(e),
            }
        }
    }
}

fn append_bytes(out: &mut Vec<u8>, src: &[u8])
    ensures
        final(out)@ == old(out)@ + src@,
{
    let mut i: usize = 0;
    while i < src.len()
        invariant
            i <= src@.len(),
            out@ == old(out)@ + src@.subrange(0, i as int),
        decreases src@.len() - i,
    {
        out.push(src[i]);
        i = i + 1;
        assert(out@ =~= old(out)@ + src@.subrange(0, i as int));
    }
    assert(src@.subrange(0, src@.len() as int) =~= src@);
}

fn append_start_code(out: &mut Vec<u8>)
    ensures
        final(out)@ == old(out)@ + start_code(),
{
    out.push(0);
    out.push(0);
    out.push(0);
    out.push(1);
    assert(out@ =~= old(out)@ + start_code());
}

/// Frames the units `keep` accepts; `mode` selects the predicate.
fn frame_units_where(units: &Vec<&[u8]>, keep: Ghost<spec_fn(Seq<u8>) -> bool>, mode: u8) -> (r: Vec<u8>)
    requires
        mode <= 1,
        mode == 0 ==> keep@ == keep_parameter_sets(),
        mode == 1 ==> keep@ == keep_slice_data(),
    ensures
        r@ == frame_kept(units@.map_values(|s: &[u8]| s@), keep@),
{
    let ghost all = units@.map_values(|s: &[u8]| s@);
    let mut out: Vec<u8> = Vec::new();
    let mut i: usize = 0;
    while i < units.len()
        invariant
            i <= units@.len(),
            all == units@.map_values(|s: &[u8]| s@),
            mode <= 1,
            mode == 0 ==> keep@ == keep_parameter_sets(),
            mode == 1 ==> keep@ == keep_slice_data(),
            out@ == frame_kept(all.subrange(0, i as int), keep@),
        decreases units@.len() - i,
    {
        let nal: &[u8] = units[i];
        let ghost prev = all.subrange(0, i as int);
        assert(all.subrange(0, i + 1).drop_last() =~= prev);
        assert(all.subrange(0, i + 1).last() == nal@);
        let mut take = false;
        if nal.len() > 0 {
            let (_, _, nal_type) = oxideav_bitstream::h264::nal_header(nal[0]);
            if mode == 0 {
                take = nal_type == NAL_TYPE_SPS || nal_type == NAL_TYPE_PPS;
            } else {
                take = !(nal_type == NAL_TYPE_SPS || nal_type == NAL_TYPE_PPS || nal_type == NAL_TYPE_AUD);
            }
        }
        assert(take == keep@(nal@));
        if take {
            append_start_code(&mut out);
            append_bytes(&mut out, nal);
        }
        i = i + 1;
    }
    assert(all.subrange(0, units@.len() as int) =~= all);
    out
}

/// Collects Annex-B SPS+PPS NAL units from an access unit, each re-framed
/// with a 4-byte start code.
pub fn collect_parameter_sets_annex_b(annex_b: &[u8]) -> (r: Vec<u8>)
    ensures
        r@ == frame_kept(annex_b_nal_units(annex_b@), keep_parameter_sets()),
{
    let units = oxideav_bitstream::h264::split_annex_b(annex_b);
    frame_units_where(&units, Ghost(keep_parameter_sets()), 0)
}

/// Returns `annex_b` with SPS/PPS/AUD NAL units removed, keeping slice data only.
pub fn strip_parameter_sets_annex_b(annex_b: &[u8]) -> (r: Vec<u8>)
    ensures
        r@ == frame_kept(annex_b_nal_units(annex_b@), keep_slice_data()),
{
    let units = oxideav_bitstream::h264::split_annex_b(annex_b);
    frame_units_where(&units, Ghost(keep_slice_data()), 1)
}


fn append_be32(out: &mut Vec<u8>, n: u32)
    ensures
        final(out)@ == old(out)@ + be32(n),
{
    out.push((n >> 24u32) as u8);
    out.push((n >> 16u32) as u8);
    out.push((n >> 8u32) as u8);
    out.push(n as u8);
    assert(out@ =~= old(out)@ + be32(n));
}

fn append_be16(out: &mut Vec<u8>, n: u16)
    ensures
        final(out)@ == old(out)@ + be16(n),
{
    out.push((n >> 8u16) as u8);
    out.push(n as u8);
    assert(out@ =~= old(out)@ + be16(n));
}

/// Converts Annex-B NAL units to 4-byte big-endian length-prefixed form (AVCC).
pub fn annex_b_to_length_prefixed(data: &[u8]) -> (r: Vec<u8>)
    ensures
        r@ == frame_length_prefixed(annex_b_nal_units(data@)),
{
    let units = oxideav_bitstream::h264::split_annex_b(data);
    let ghost all = units@.map_values(|s: &[u8]| s@);
    let mut out: Vec<u8> = Vec::new();
    let mut i: usize = 0;
    while i < units.len()
        invariant
            i <= units@.len(),
            all == units@.map_values(|s: &[u8]| s@),
            out@ == frame_length_prefixed(all.subrange(0, i as int)),
        decreases units@.len() - i,
    {
        let nal: &[u8] = units[i];
        assert(all.subrange(0, i + 1).drop_last() =~= all.subrange(0, i as int));
        assert(all.subrange(0, i + 1).last() == nal@);
        let len = nal.len() as u32;
        append_be32(&mut out, len);
        append_bytes(&mut out, nal);
        i = i + 1;
    }
    assert(all.subrange(0, units@.len() as int) =~= all);
    out
}

/// Result of re-framing with `prefix` already emitted.
pub open spec fn after_prefix(prefix: Seq<u8>, r: Result<Seq<u8>, BitstreamFailure>) -> Result<Seq<u8>, BitstreamFailure> {
    match r {
        Ok(t) => Ok(prefix + t),
        Err(e) => Err(e),
    }
}

/// Converts length-prefixed NALs to Annex-B.
///
/// Fails with `InvalidData` when a declared length overruns the input or
/// when bytes that cannot hold a length prefix are left at the end.
pub fn length_prefixed_to_annex_b(data: &[u8]) -> (r: Result<Vec<u8>, BitstreamError>)
    ensures
        match r {
            Ok(v) => spec_length_prefixed_to_annex_b(data@) == Ok::<Seq<u8>, BitstreamFailure>(v@),
            Err(e) => spec_length_prefixed_to_annex_b(data@) == Err::<Seq<u8>, BitstreamFailure>(e@),
        },
{
    let mut out: Vec<u8> = Vec::new();
    let mut offset: usize = 0;
    assert(data@.subrange(0, data@.len() as int) =~= data@);
    while data.len() - offset >= 4
        invariant
            offset <= data@.len(),
            spec_length_prefixed_to_annex_b(data@) == after_prefix(
                out@,
                spec_length_prefixed_to_annex_b(data@.subrange(offset as int, data@.len() as int)),
            ),
        decreases data@.len() - offset,
    {
        let ghost rest = data@.subrange(offset as int, data@.len() as int);
        let len: usize = ((data[offset] as u32) * 0x1000000 + (data[offset + 1] as u32) * 0x10000
            + (data[offset + 2] as u32) * 0x100 + (data[offset + 3] as u32)) as usize;
        assert(len == be32_value(rest[0], rest[1], rest[2], rest[3]));
        offset = offset + 4;
        if len > data.len() - offset {
            return Err(BitstreamError::invalid("length-prefixed NAL overrun"));
        }
        let ghost old_out = out@;
        append_start_code(&mut out);
        let mut j: usize = offset;
        let end: usize = offset + len;
        while j < end
            invariant
                end == offset + len,
                offset <= j <= offset + len <= data@.len(),
                out@ == old_out + start_code() + data@.subrange(offset as int, j as int),
            decreases offset + len - j,
        {
            out.push(data[j]);
            j = j + 1;
            assert(out@ =~= old_out + start_code() + data@.subrange(offset as int, j as int));
        }
        assert(rest.subrange(4, 4 + len) =~= data@.subrange(offset as int, (offset + len) as int));
        assert(rest.subrange(4 + len, rest.len() as int) =~= data@.subrange((offset + len) as int, data@.len() as int));
        offset = offset + len;
        assert(old_out + (start_code() + rest.subrange(4, 4 + len)) =~= out@);
        proof {
            let tail = spec_length_prefixed_to_annex_b(data@.subrange(offset as int, data@.len() as int));
            match tail {
                Ok(t) => {
                    assert(old_out + (start_code() + rest.subrange(4, 4 + len) + t) =~= out@ + t);
                },
                Err(_) => {},
            }
        }
    }
    if offset != data.len() {
        return Err(BitstreamError::invalid("trailing length-prefixed bytes"));
    }
    assert(out@ + Seq::<u8>::empty() =~= out@);
    Ok(out)
}

/// Whether some non-empty NAL unit has type `t`.
pub open spec fn has_unit_of_type(units: Seq<Seq<u8>>, t: u8) -> bool {
    exists|i: int| 0 <= i < units.len() && units[i].len() > 0 && #[trigger] nal_type_of(units[i][0]) == t
}

/// Returns `true` when `annex_b` contains an IDR NAL (type 5).
pub fn contains_idr(annex_b: &[u8]) -> (r: bool)
    ensures
        r == has_unit_of_type(annex_b_nal_units(annex_b@), 5),
{
    let units = oxideav_bitstream::h264::split_annex_b(annex_b);
    let ghost all = units@.map_values(|s: &[u8]| s@);
    let mut i: usize = 0;
    while i < units.len()
        invariant
            i <= units@.len(),
            all == units@.map_values(|s: &[u8]| s@),
            all == annex_b_nal_units(annex_b@),
            forall|j: int| 0 <= j < i ==> !(all[j].len() > 0 && #[trigger] nal_type_of(all[j][0]) == 5),
        decreases units@.len() - i,
    {
        let nal: &[u8] = units[i];
        assert(all[i as int] == nal@);
        if nal.len() > 0 && (nal[0] & 0x1F) == NAL_TYPE_IDR {
            assert(0 <= i < all.len() && all[i as int].len() > 0 && nal_type_of(all[i as int][0]) == 5);
            assert(has_unit_of_type(all, 5));
            return true;
        }
        i = i + 1;
    }
    false
}

/// A copy of a byte slice.
pub fn copy_slice(src: &[u8]) -> (r: Vec<u8>)
    ensures
        r@ == src@,
{
    let mut out: Vec<u8> = Vec::new();
    append_bytes(&mut out, src);
    assert(Seq::<u8>::empty() + src@ =~= src@);
    out
}

/// The Annex-B form of `data` given its framing.
pub open spec fn spec_to_annex_b(data: Seq<u8>, source: BitstreamFormat) -> Result<Seq<u8>, BitstreamFailure> {
    match source {
        BitstreamFormat::AnnexB => Ok(data),
        BitstreamFormat::LengthPrefixed => spec_length_prefixed_to_annex_b(data),
        BitstreamFormat::Av1Obu => Err(BitstreamFailure::Unsupported("AV1 OBU in H.264 context"@)),
    }
}

/// Annex-B data re-framed as `target`.
pub open spec fn spec_from_annex_b(annex_b: Seq<u8>, target: BitstreamFormat) -> Result<Seq<u8>, BitstreamFailure> {
    match target {
        BitstreamFormat::AnnexB => Ok(annex_b),
        BitstreamFormat::LengthPrefixed => Ok(frame_length_prefixed(annex_b_nal_units(annex_b))),
        BitstreamFormat::Av1Obu => Err(BitstreamFailure::Unsupported("AV1 OBU in H.264 context"@)),
    }
}

/// `r` as a result over views.
pub open spec fn result_view(r: Result<Vec<u8>, BitstreamError>) -> Result<Seq<u8>, BitstreamFailure> {
    match r {
        Ok(v) => Ok(v@),
        Err(e) => Err(e@),
    }
}

/// Converts data from a given bitstream format to Annex-B.
///
/// Fails with `Unsupported` when `source` is [`BitstreamFormat::Av1Obu`]
/// (not valid for H.264).
pub fn to_annex_b(data: &[u8], source: BitstreamFormat) -> (r: Result<Vec<u8>, BitstreamError>)
    ensures
        result_view(r) == spec_to_annex_b(data@, source),
{
    match source {
        BitstreamFormat::AnnexB => Ok(copy_slice(data)),
        BitstreamFormat::LengthPrefixed => length_prefixed_to_annex_b(data),
        BitstreamFormat::Av1Obu => Err(BitstreamError::unsupported("AV1 OBU in H.264 context")),
    }
}

/// Converts Annex-B data to a target bitstream format.
///
/// Fails with `Unsupported` when `target` is [`BitstreamFormat::Av1Obu`]
/// (not valid for H.264).
pub fn from_annex_b(annex_b: &[u8], target: BitstreamFormat) -> (r: Result<Vec<u8>, BitstreamError>)
    ensures
        result_view(r) == spec_from_annex_b(annex_b@, target),
{
    match target {
        BitstreamFormat::AnnexB => Ok(copy_slice(annex_b)),
        BitstreamFormat::LengthPrefixed => Ok(annex_b_to_length_prefixed(annex_b)),
        BitstreamFormat::Av1Obu => Err(BitstreamError::unsupported("AV1 OBU in H.264 context")),
    }
}


/// Some unit in `units` is longer than `max` bytes.
pub open spec fn some_longer_than(units: Seq<Seq<u8>>, max: nat) -> bool {
    exists|i: int| 0 <= i < units.len() && #[trigger] units[i].len() > max
}

/// Byte `i` of `unit`, or 0 past its end.
pub open spec fn byte_or_zero(unit: Seq<u8>, i: int) -> u8 {
    if 0 <= i < unit.len() { unit[i] } else { 0u8 }
}

/// The ISO/IEC 14496-15 `AVCDecoderConfigurationRecord` built from the SPS
/// and PPS units of an Annex-B stream.
///
/// The profile, compatibility and level bytes are bytes 1 to 3 of the first
/// SPS; a truncated SPS gives 0 for those it lacks.
pub open spec fn spec_avcc_record(units: Seq<Seq<u8>>) -> Result<Seq<u8>, BitstreamFailure> {
    let sps = units_kept(units, keep_type(7));
    let pps = units_kept(units, keep_type(8));
    if sps.len() == 0 || pps.len() == 0 {
        Err(BitstreamFailure::InvalidData("missing SPS or PPS for AVCC"@))
    } else if sps.len() > 255 {
        Err(BitstreamFailure::InvalidData("too many SPS NALs for AVCC"@))
    } else if some_longer_than(sps, 65535) {
        Err(BitstreamFailure::InvalidData("SPS NAL too large for AVCC"@))
    } else if pps.len() > 255 {
        Err(BitstreamFailure::InvalidData("too many PPS NALs for AVCC"@))
    } else if some_longer_than(pps, 65535) {
        Err(BitstreamFailure::InvalidData("PPS NAL too large for AVCC"@))
    } else {
        Ok(seq![1u8, byte_or_zero(sps[0], 1), byte_or_zero(sps[0], 2), byte_or_zero(sps[0], 3),
            0xFFu8, 0xE0u8 | (sps.len() as u8)]
            + frame_length16(sps) + seq![pps.len() as u8] + frame_length16(pps))
    }
}

/// The copies of the non-empty units of NAL type `t`, in order.
fn units_of_type(units: &Vec<&[u8]>, t: u8) -> (r: Vec<Vec<u8>>)
    ensures
        r@.map_values(|v: Vec<u8>| v@) == units_kept(units@.map_values(|s: &[u8]| s@), keep_type(t)),
{
    let ghost all = units@.map_values(|s: &[u8]| s@);
    let mut out: Vec<Vec<u8>> = Vec::new();
    let mut i: usize = 0;
    while i < units.len()
        invariant
            i <= units@.len(),
            all == units@.map_values(|s: &[u8]| s@),
            out@.map_values(|v: Vec<u8>| v@) == units_kept(all.subrange(0, i as int), keep_type(t)),
        decreases units@.len() - i,
    {
        let nal: &[u8] = units[i];
        assert(all.subrange(0, i + 1).drop_last() =~= all.subrange(0, i as int));
        assert(all.subrange(0, i + 1).last() == nal@);
        let ghost before = out@.map_values(|v: Vec<u8>| v@);
        if nal.len() > 0 {
            let (_, _, nal_type) = oxideav_bitstream::h264::nal_header(nal[0]);
            if nal_type == t {
                out.push(copy_slice(nal));
                assert(out@.map_values(|v: Vec<u8>| v@) =~= before + seq![nal@]);
            } else {
                assert(out@.map_values(|v: Vec<u8>| v@) =~= before + Seq::<Seq<u8>>::empty());
            }
        } else {
            assert(out@.map_values(|v: Vec<u8>| v@) =~= before + Seq::<Seq<u8>>::empty());
        }
        i = i + 1;
    }
    assert(all.subrange(0, units@.len() as int) =~= all);
    out
}

/// Appends each unit with a 2-byte big-endian length, failing when a unit
/// does not fit in 16 bits.
fn append_length16_units(out: &mut Vec<u8>, list: &Vec<Vec<u8>>) -> (ok: bool)
    ensures
        ok == !some_longer_than(list@.map_values(|v: Vec<u8>| v@), 65535),
        ok ==> final(out)@ == old(out)@ + frame_length16(list@.map_values(|v: Vec<u8>| v@)),
{
    let ghost all = list@.map_values(|v: Vec<u8>| v@);
    let ghost start = out@;
    let mut i: usize = 0;
    while i < list.len()
        invariant
            i <= list@.len(),
            all == list@.map_values(|v: Vec<u8>| v@),
            !some_longer_than(all.subrange(0, i as int), 65535),
            out@ == start + frame_length16(all.subrange(0, i as int)),
        decreases list@.len() - i,
    {
        let unit: &Vec<u8> = &list[i];
        assert(all[i as int] == unit@);
        if unit.len() > 65535 {
            assert(all[i as int].len() > 65535);
            return false;
        }
        assert(all.subrange(0, i + 1).drop_last() =~= all.subrange(0, i as int));
        assert(all.subrange(0, i + 1).last() == unit@);
        let len = unit.len() as u16;
        append_be16(out, len);
        append_bytes(out, unit.as_slice());
        i = i + 1;
        assert(out@ =~= start + frame_length16(all.subrange(0, i as int)));
        assert forall|j: int| 0 <= j < all.subrange(0, i as int).len() implies !(#[trigger] all.subrange(0, i as int)[j].len() > 65535) by {
            if j < i - 1 {
                assert(all.subrange(0, i as int)[j] == all.subrange(0, i - 1)[j]);
            }
        }
    }
    assert(all.subrange(0, list@.len() as int) =~= all);
    true
}

/// Byte `i` of `unit`, or 0 past its end.
fn byte_or_zero_exec(unit: &Vec<u8>, i: usize) -> (b: u8)
    ensures
        b == byte_or_zero(unit@, i as int),
{
    if i < unit.len() { unit[i] } else { 0 }
}

/// Builds an ISO/IEC 14496-15 `AVCDecoderConfigurationRecord` from Annex-B SPS/PPS.
///
/// Fails with `InvalidData` when parameter sets are missing or malformed.
pub fn annex_b_parameter_sets_to_avcc(annex_b_ps: &[u8]) -> (r: Result<Vec<u8>, BitstreamError>)
    ensures
        result_view(r) == spec_avcc_record(annex_b_nal_units(annex_b_ps@)),
{
    let units = oxideav_bitstream::h264::split_annex_b(annex_b_ps);
    let sps_list = units_of_type(&units, NAL_TYPE_SPS);
    let pps_list = units_of_type(&units, NAL_TYPE_PPS);
    let ghost sps = sps_list@.map_values(|v: Vec<u8>| v@);
    let ghost pps = pps_list@.map_values(|v: Vec<u8>| v@);
    if sps_list.len() == 0 || pps_list.len() == 0 {
        return Err(BitstreamError::invalid("missing SPS or PPS for AVCC"));
    }
    let first: &Vec<u8> = &sps_list[0];
    assert(first@ == sps[0]);
    if sps_list.len() > 255 {
        return Err(BitstreamError::invalid("too many SPS NALs for AVCC"));
    }
    let mut out: Vec<u8> = Vec::new();
    out.push(1);
    out.push(byte_or_zero_exec(first, 1));
    out.push(byte_or_zero_exec(first, 2));
    out.push(byte_or_zero_exec(first, 3));
    out.push(0xFC | 3);
    out.push(0xE0 | (sps_list.len() as u8));
    let ghost header = out@;
    if !append_length16_units(&mut out, &sps_list) {
        return Err(BitstreamError::invalid("SPS NAL too large for AVCC"));
    }
    if pps_list.len() > 255 {
        return Err(BitstreamError::invalid("too many PPS NALs for AVCC"));
    }
    out.push(pps_list.len() as u8);
    let ghost mid = out@;
    if !append_length16_units(&mut out, &pps_list) {
        return Err(BitstreamError::invalid("PPS NAL too large for AVCC"));
    }
    assert(0xFCu8 | 3u8 == 0xFFu8) by (bit_vector);
    assert(header =~= seq![1u8, byte_or_zero(sps[0], 1), byte_or_zero(sps[0], 2), byte_or_zero(sps[0], 3),
        0xFFu8, 0xE0u8 | (sps.len() as u8)]);
    assert(out@ =~= header + frame_length16(sps) + seq![pps.len() as u8] + frame_length16(pps));
    Ok(out)
}


// ───────────────────────────── Bit reading ─────────────────────────────

/// 2 to the power `n`.
pub open spec fn two_pow(n: nat) -> nat
    decreases n,
{
    if n == 0 { 1 } else { 2 * two_pow((n - 1) as nat) }
}

/// Number of bits in `data`.
pub open spec fn total_bits(data: Seq<u8>) -> nat {
    data.len() * 8
}

/// Bit `pos` of `data`, most significant bit of each byte first; bits past
/// the end read as zero.
pub open spec fn bit_at(data: Seq<u8>, pos: nat) -> nat {
    if pos / 8 < data.len() {
        ((data[(pos / 8) as int] >> ((7 - pos % 8) as u8)) & 1u8) as nat
    } else {
        0
    }
}

/// The `n` bits starting at `pos`, read most significant first.
pub open spec fn bits_value(data: Seq<u8>, pos: nat, n: nat) -> nat
    decreases n,
{
    if n == 0 {
        0
    } else {
        bits_value(data, pos, (n - 1) as nat) * 2 + bit_at(data, (pos + n - 1) as nat)
    }
}

/// Leading zero bits counted by `ue(v)` from `pos`, starting the count at
/// `k`: stops at a one bit, at the end of the data, or at 32.
pub open spec fn ue_zeros(data: Seq<u8>, pos: nat, k: nat) -> nat
    decreases 32 - k,
{
    if k >= 32 {
        32
    } else if pos + k >= total_bits(data) {
        k
    } else if bit_at(data, pos + k) == 1 {
        k
    } else {
        ue_zeros(data, pos, k + 1)
    }
}

/// Unsigned Exp-Golomb `ue(v)` read at `pos` (H.264 §9.1): the value and the
/// position after it. A run of 32 zero bits is rejected; at the end of the
/// data the zero run stops without consuming a one bit and the suffix bits
/// read as zero.
pub open spec fn spec_ue(data: Seq<u8>, pos: nat) -> Result<(u32, nat), BitstreamFailure> {
    let z = ue_zeros(data, pos, 0);
    if z >= 32 {
        Err(BitstreamFailure::InvalidData("ue(v): 32 or more leading zero bits"@))
    } else {
        let p1: nat = if pos + z < total_bits(data) { pos + z + 1 } else { pos + z };
        if z == 0 {
            Ok((0u32, p1))
        } else {
            Ok(((two_pow(z) - 1 + bits_value(data, p1, z)) as u32, p1 + z))
        }
    }
}

/// The signed value that an Exp-Golomb code number maps to (H.264 §9.1.1).
pub open spec fn se_of_code(code: u32) -> i32 {
    if code == 0 {
        0
    } else if code % 2 == 1 {
        ((code as int + 1) / 2) as i32
    } else {
        (-((code / 2) as int)) as i32
    }
}

/// Signed Exp-Golomb `se(v)` read at `pos`.
pub open spec fn spec_se(data: Seq<u8>, pos: nat) -> Result<(i32, nat), BitstreamFailure> {
    match spec_ue(data, pos) {
        Ok((code, p)) => Ok((se_of_code(code), p)),
        Err(e) => Err(e),
    }
}

/// Trusted: `oxideav_bitstream::bit_reader::BitReader::u` reads `n ≤ 32`
/// bits MSB-first, past-the-end bits as zero, and advances by `n`. The
/// reader is created over `data` and moved to `pos` first.
#[verifier::external_body]
fn read_bits(data: &[u8], pos: usize, n: u32) -> (r: (u32, usize))
    requires
        n <= 32,
        pos + n <= usize::MAX,
    ensures
        r.0 as nat == bits_value(data@, pos as nat, n as nat),
        r.1 == pos + n,
{
    let mut reader = oxideav_bitstream::bit_reader::BitReader::new(data);
    reader.skip(pos);
    let value = reader.u(n);
    (value, reader.bit_pos())
}

/// Trusted: `oxideav_bitstream::bit_reader::BitReader::ue` decodes one
/// unsigned Exp-Golomb code at `pos` as `spec_ue` states, failing with
/// `InvalidData` on 32 leading zero bits.
#[verifier::external_body]
fn read_ue(data: &[u8], pos: usize) -> (r: Result<(u32, usize), BitstreamError>)
    requires
        pos + 64 <= usize::MAX,
        total_bits(data@) <= usize::MAX,
    ensures
        match r {
            Ok((v, p)) => spec_ue(data@, pos as nat) == Ok::<(u32, nat), BitstreamFailure>((v, p as nat)),
            Err(e) => spec_ue(data@, pos as nat) == Err::<(u32, nat), BitstreamFailure>(e@),
        },
{
    let mut reader = oxideav_bitstream::bit_reader::BitReader::new(data);
    reader.skip(pos);
    match reader.ue() {
        Ok(v) => Ok((v, reader.bit_pos())),
        Err(oxideav_bitstream::BitstreamError::UnexpectedEnd(m)) => Err(BitstreamError::UnexpectedEnd(m)),
        Err(oxideav_bitstream::BitstreamError::InvalidData(m)) => Err(BitstreamError::InvalidData(m)),
        Err(oxideav_bitstream::BitstreamError::Unsupported(m)) => Err(BitstreamError::Unsupported(m)),
    }
}

/// Trusted: `oxideav_bitstream::bit_reader::BitReader::se` decodes one signed
/// Exp-Golomb code at `pos`: the `ue(v)` code number mapped by `se_of_code`.
#[verifier::external_body]
fn read_se(data: &[u8], pos: usize) -> (r: Result<(i32, usize), BitstreamError>)
    requires
        pos + 64 <= usize::MAX,
        total_bits(data@) <= usize::MAX,
    ensures
        match r {
            Ok((v, p)) => spec_se(data@, pos as nat) == Ok::<(i32, nat), BitstreamFailure>((v, p as nat)),
            Err(e) => spec_se(data@, pos as nat) == Err::<(i32, nat), BitstreamFailure>(e@),
        },
{
    let mut reader = oxideav_bitstream::bit_reader::BitReader::new(data);
    reader.skip(pos);
    match reader.se() {
        Ok(v) => Ok((v, reader.bit_pos())),
        Err(oxideav_bitstream::BitstreamError::UnexpectedEnd(m)) => Err(BitstreamError::UnexpectedEnd(m)),
        Err(oxideav_bitstream::BitstreamError::InvalidData(m)) => Err(BitstreamError::InvalidData(m)),
        Err(oxideav_bitstream::BitstreamError::Unsupported(m)) => Err(BitstreamError::Unsupported(m)),
    }
}

pub proof fn lemma_ue_zeros(data: Seq<u8>, pos: nat, k: nat)
    requires
        k <= 32,
    ensures
        k <= ue_zeros(data, pos, k) <= 32,
        ue_zeros(data, pos, k) > k ==> pos + ue_zeros(data, pos, k) - 1 < total_bits(data),
        pos >= total_bits(data) ==> ue_zeros(data, pos, k) == k,
    decreases 32 - k,
{
    if k < 32 && pos + k < total_bits(data) && bit_at(data, pos + k) != 1 {
        lemma_ue_zeros(data, pos, k + 1);
    }
}

/// Where an Exp-Golomb read may end: never before `pos`, at most 31 bits
/// past the end of the data, strictly after `pos` when `pos` is inside the
/// data, and not at all when `pos` is past the end.
pub proof fn lemma_ue_advance(data: Seq<u8>, pos: nat)
    ensures
        spec_ue(data, pos) matches Ok((v, p)) ==> {
            &&& pos <= p
            &&& p <= pos || p <= total_bits(data) + 31
            &&& pos < total_bits(data) ==> p > pos
            &&& pos >= total_bits(data) ==> (v == 0 && p == pos)
        },
        spec_se(data, pos) matches Ok((v, p)) ==> {
            &&& pos <= p
            &&& p <= pos || p <= total_bits(data) + 31
            &&& pos < total_bits(data) ==> p > pos
            &&& pos >= total_bits(data) ==> (v == 0 && p == pos)
        },
{
    lemma_ue_zeros(data, pos, 0);
}


// ─────────────────────────── Slice header parse ───────────────────────────

/// Sequence parameter set fields that the slice-header parse reads
/// (H.264 §7.3.2.1.1).
#[derive(Debug, Clone, Copy, PartialEq, Eq, Default)]
pub struct H264Sps {
    pub separate_colour_plane_flag: bool,
    pub log2_max_frame_num_minus4: u8,
    pub frame_mbs_only_flag: bool,
    pub pic_order_cnt_type: u8,
    pub log2_max_pic_order_cnt_lsb_minus4: u8,
    pub delta_pic_order_always_zero_flag: bool,
}

/// Picture parameter set fields that the slice-header parse reads
/// (H.264 §7.3.2.2).
#[derive(Debug, Clone, Copy, PartialEq, Eq, Default)]
pub struct H264Pps {
    pub entropy_coding_mode_flag: bool,
    pub bottom_field_pic_order_in_frame_present_flag: bool,
    pub num_slice_groups_minus1: u32,
    pub weighted_pred_flag: bool,
    pub weighted_bipred_idc: u8,
    pub deblocking_filter_control_present_flag: bool,
    pub redundant_pic_cnt_present_flag: bool,
}

/// Minimal slice header (H.264 §7.3.3).
#[derive(Debug, Clone, Copy, PartialEq, Eq, Default)]
pub struct H264SliceHeader {
    pub first_mb_in_slice: u32,
    /// `slice_type` value as emitted; not modulo 5.
    pub slice_type: u8,
    pub pic_parameter_set_id: u8,
    pub frame_num: u32,
    pub field_pic_flag: bool,
    pub bottom_field_flag: bool,
    /// Present only when this is an IDR slice (NAL type 5).
    pub idr_pic_id: Option<u32>,
    pub pic_order_cnt_lsb: u32,
}

/// Slice header fields required to populate VA-API decode buffers.
#[derive(Debug, Clone, Copy, PartialEq, Eq)]
pub struct H264SliceVaInfo {
    /// Minimal slice header fields.
    pub header: H264SliceHeader,
    /// Bit offset from the NAL start to the first slice-data bit.
    pub slice_data_bit_offset: u16,
    /// Parsed `slice_qp_delta`.
    pub slice_qp_delta: i8,
    /// Parsed or defaulted `disable_deblocking_filter_idc`.
    pub disable_deblocking_filter_idc: u8,
    /// Parsed or defaulted `cabac_init_idc`.
    pub cabac_init_idc: u8,
}

/// The field-pair flags of a slice header read at `pos`:
/// `(field_pic_flag, bottom_field_flag, position after)`.
pub open spec fn spec_field_flags(d: Seq<u8>, pos: nat, sps: H264Sps) -> (bool, bool, nat) {
    if !sps.frame_mbs_only_flag {
        if bit_at(d, pos) != 0 {
            (true, bit_at(d, pos + 1) != 0, pos + 2)
        } else {
            (false, false, pos + 1)
        }
    } else {
        (false, false, pos)
    }
}

/// Position after `first_mb_in_slice`, `slice_type` and
/// `pic_parameter_set_id` read from the start of `d`, where all three read.
pub open spec fn header_ids_end(d: Seq<u8>) -> Option<nat> {
    match spec_ue(d, 0) {
        Ok((_, p1)) => match spec_ue(d, p1) {
            Ok((_, p2)) => match spec_ue(d, p2) {
                Ok((_, p3)) => Some(p3),
                Err(_) => None,
            },
            Err(_) => None,
        },
        Err(_) => None,
    }
}

/// The slice-header parse of `d` comes to read `pic_order_cnt_lsb`: the
/// identifiers (and, in an IDR slice, `idr_pic_id`) read, and the SPS uses
/// picture-order-count type 0.
pub open spec fn reaches_poc_lsb(d: Seq<u8>, nal_type: u8, sps: H264Sps) -> bool {
    sps.pic_order_cnt_type == 0 && match header_ids_end(d) {
        Some(p3) => {
            let p4: nat = if sps.separate_colour_plane_flag { p3 + 2 } else { p3 };
            let (_, _, p6) = spec_field_flags(d, p4 + sps.log2_max_frame_num_minus4 as nat + 4, sps);
            nal_type != 5 || spec_ue(d, p6) is Ok
        },
        None => false,
    }
}

/// The slice header of a slice NAL: the bytes after its header byte, with
/// emulation-prevention bytes removed.
pub open spec fn slice_rbsp(nal: Seq<u8>) -> Seq<u8> {
    rbsp_of_ebsp(nal.subrange(1, nal.len() as int))
}

/// Parsing the slice NAL `nal` comes to read `frame_num`.
pub open spec fn slice_reads_frame_num(nal: Seq<u8>) -> bool {
    nal.len() > 0 && header_ids_end(slice_rbsp(nal)) is Some
}

/// Parsing the slice NAL `nal` comes to read `pic_order_cnt_lsb`.
pub open spec fn slice_reads_poc_lsb(nal: Seq<u8>, sps: H264Sps) -> bool {
    nal.len() > 0 && reaches_poc_lsb(slice_rbsp(nal), nal[0] & 0x1fu8, sps)
}

/// The picture-order-count fields read at `pos`: `(pic_order_cnt_lsb,
/// position after)`.
pub open spec fn spec_poc_fields(d: Seq<u8>, pos: nat, sps: H264Sps, pps: H264Pps, field_pic: bool) -> Result<(u32, nat), BitstreamFailure> {
    if sps.pic_order_cnt_type == 0 {
        let n: nat = sps.log2_max_pic_order_cnt_lsb_minus4 as nat + 4;
        let lsb = bits_value(d, pos, n) as u32;
        if pps.bottom_field_pic_order_in_frame_present_flag && !field_pic {
            match spec_se(d, pos + n) {
                Ok((_, p)) => Ok((lsb, p)),
                Err(e) => Err(e),
            }
        } else {
            Ok((lsb, pos + n))
        }
    } else if sps.pic_order_cnt_type == 1 && !sps.delta_pic_order_always_zero_flag {
        match spec_se(d, pos) {
            Ok((_, p)) => if pps.bottom_field_pic_order_in_frame_present_flag && !field_pic {
                match spec_se(d, p) {
                    Ok((_, q)) => Ok((0u32, q)),
                    Err(e) => Err(e),
                }
            } else {
                Ok((0u32, p))
            },
            Err(e) => Err(e),
        }
    } else {
        Ok((0u32, pos))
    }
}

/// The slice header fields from `first_mb_in_slice` through the picture
/// order count, read from the start of the RBSP, and the position after them.
pub open spec fn spec_header_fields(d: Seq<u8>, nal_type: u8, sps: H264Sps, pps: H264Pps) -> Result<(H264SliceHeader, nat), BitstreamFailure> {
    match spec_ue(d, 0) {
        Err(e) => Err(e),
        Ok((first_mb, p1)) => match spec_ue(d, p1) {
            Err(e) => Err(e),
            Ok((slice_type, p2)) => match spec_ue(d, p2) {
                Err(e) => Err(e),
                Ok((pps_id, p3)) => {
                    let p4: nat = if sps.separate_colour_plane_flag { p3 + 2 } else { p3 };
                    let nf: nat = sps.log2_max_frame_num_minus4 as nat + 4;
                    let frame_num = bits_value(d, p4, nf) as u32;
                    let (field, bottom, p6) = spec_field_flags(d, p4 + nf, sps);
                    let idr: Result<(Option<u32>, nat), BitstreamFailure> = if nal_type == 5 {
                        match spec_ue(d, p6) {
                            Ok((v, p)) => Ok((Some(v), p)),
                            Err(e) => Err(e),
                        }
                    } else {
                        Ok((None, p6))
                    };
                    match idr {
                        Err(e) => Err(e),
                        Ok((idr_pic_id, p7)) => match spec_poc_fields(d, p7, sps, pps, field) {
                            Err(e) => Err(e),
                            Ok((lsb, p8)) => Ok((
                                H264SliceHeader {
                                    first_mb_in_slice: first_mb,
                                    slice_type: slice_type as u8,
                                    pic_parameter_set_id: pps_id as u8,
                                    frame_num,
                                    field_pic_flag: field,
                                    bottom_field_flag: bottom,
                                    idr_pic_id,
                                    pic_order_cnt_lsb: lsb,
                                },
                                p8,
                            )),
                        },
                    }
                },
            },
        },
    }
}

/// Measure that shrinks with every Exp-Golomb read made inside the data.
pub open spec fn bits_left_measure(d: Seq<u8>, pos: nat) -> nat {
    if pos <= total_bits(d) { (total_bits(d) - pos + 1) as nat } else { 0 }
}

/// The `memory_management_control_operation` loop of
/// `dec_ref_pic_marking()` (H.264 §7.3.3.3) from `pos`: the position after it.
/// Operations 1, 2, 4 and 6 carry one Exp-Golomb operand, operation 3 two
/// (`difference_of_pic_nums_minus1`, `long_term_frame_idx`), operation 5
/// none; 0 ends the loop.
pub open spec fn spec_mmco_loop(d: Seq<u8>, pos: nat) -> Result<nat, BitstreamFailure>
    decreases bits_left_measure(d, pos),
{
    match spec_ue(d, pos) {
        Err(e) => Err(e),
        Ok((op, p1)) => {
            if op == 0 {
                Ok(p1)
            } else if op == 1 || op == 2 || op == 4 || op == 6 {
                match spec_ue(d, p1) {
                    Err(e) => Err(e),
                    Ok((_, p2)) => {
                        proof {
                            lemma_ue_advance(d, pos);
                            lemma_ue_advance(d, p1);
                        }
                        spec_mmco_loop(d, p2)
                    },
                }
            } else if op == 3 {
                match spec_ue(d, p1) {
                    Err(e) => Err(e),
                    Ok((_, p2)) => match spec_ue(d, p2) {
                        Err(e) => Err(e),
                        Ok((_, p3)) => {
                            proof {
                                lemma_ue_advance(d, pos);
                                lemma_ue_advance(d, p1);
                                lemma_ue_advance(d, p2);
                            }
                            spec_mmco_loop(d, p3)
                        },
                    },
                }
            } else if op == 5 {
                proof {
                    lemma_ue_advance(d, pos);
                }
                spec_mmco_loop(d, p1)
            } else {
                Err(BitstreamFailure::InvalidData(
                    "unknown memory_management_control_operation "@ + decimal_text(op as nat),
                ))
            }
        },
    }
}

/// `dec_ref_pic_marking()` (H.264 §7.3.3.3) skipped from `pos`.
pub open spec fn spec_dec_ref_pic_marking(d: Seq<u8>, pos: nat, nal_type: u8, nal_ref_idc: u8) -> Result<nat, BitstreamFailure> {
    if nal_type == 5 || nal_type == 20 {
        Ok(pos + 2)
    } else if nal_ref_idc == 0 {
        Ok(pos)
    } else if bit_at(d, pos) == 0 {
        Ok(pos + 1)
    } else {
        spec_mmco_loop(d, pos + 1)
    }
}

/// The `modification_of_pic_nums_idc` loop of `ref_pic_list_modification()`
/// (H.264 §7.3.3.1) from `pos`. Reaching the loop head at or past the end
/// of the data is reported as truncation: every further code there reads as
/// zero, so the list could never be closed.
pub open spec fn spec_rplm_loop(d: Seq<u8>, pos: nat) -> Result<nat, BitstreamFailure>
    decreases bits_left_measure(d, pos),
{
    if pos >= total_bits(d) {
        Err(BitstreamFailure::UnexpectedEnd("ref_pic_list_modification runs past the end of the slice"@))
    } else {
        match spec_ue(d, pos) {
            Err(e) => Err(e),
            Ok((idc, p1)) => {
                if idc == 3 {
                    Ok(p1)
                } else if idc == 0 || idc == 1 || idc == 2 {
                    match spec_ue(d, p1) {
                        Err(e) => Err(e),
                        Ok((_, p2)) => {
                            proof {
                                lemma_ue_advance(d, pos);
                                lemma_ue_advance(d, p1);
                            }
                            spec_rplm_loop(d, p2)
                        },
                    }
                } else {
                    Err(BitstreamFailure::InvalidData(
                        "unknown modification_of_pic_nums_idc "@ + decimal_text(idc as nat),
                    ))
                }
            },
        }
    }
}

/// One `ref_pic_list_modification()` list skipped from `pos`.
pub open spec fn spec_ref_pic_list_modification(d: Seq<u8>, pos: nat) -> Result<nat, BitstreamFailure> {
    if bit_at(d, pos) == 0 {
        Ok(pos + 1)
    } else {
        spec_rplm_loop(d, pos + 1)
    }
}



/// `redundant_pic_cnt`, `direct_spatial_mv_pred_flag` and the
/// `num_ref_idx_active_override_flag` fields read from `pos`, for a slice
/// of type `st5` (0 P, 1 B, 2 I, 3 SP, 4 SI): the position after them.
pub open spec fn spec_pre_list_fields(d: Seq<u8>, pos: nat, st5: u8, pps: H264Pps) -> Result<nat, BitstreamFailure> {
    let redundant: Result<nat, BitstreamFailure> = if pps.redundant_pic_cnt_present_flag {
        match spec_ue(d, pos) {
            Ok((_, p)) => Ok(p),
            Err(e) => Err(e),
        }
    } else {
        Ok(pos)
    };
    match redundant {
        Err(e) => Err(e),
        Ok(p1) => {
            let p2: nat = if st5 == 1 { p1 + 1 } else { p1 };
            if st5 == 0 || st5 == 1 || st5 == 3 {
                if bit_at(d, p2) == 0 {
                    Ok(p2 + 1)
                } else {
                    match spec_ue(d, p2 + 1) {
                        Err(e) => Err(e),
                        Ok((_, p3)) => if st5 == 1 {
                            match spec_ue(d, p3) {
                                Ok((_, p4)) => Ok(p4),
                                Err(e) => Err(e),
                            }
                        } else {
                            Ok(p3)
                        },
                    }
                }
            } else {
                Ok(p2)
            }
        },
    }
}

/// `ref_pic_list_modification()` read from `pos` for a slice of type `st5`:
/// list 0 for P, SP and B slices, then list 1 for B slices.
pub open spec fn spec_list_modifications(d: Seq<u8>, pos: nat, st5: u8) -> Result<nat, BitstreamFailure> {
    if st5 == 2 || st5 == 4 {
        Ok(pos)
    } else {
        match spec_ref_pic_list_modification(d, pos) {
            Err(e) => Err(e),
            Ok(p) => if st5 == 1 {
                spec_ref_pic_list_modification(d, p)
            } else {
                Ok(p)
            },
        }
    }
}

/// The slice uses explicit weighted prediction (`pred_weight_table()`).
pub open spec fn uses_weighted_prediction(pps: H264Pps, st5: u8) -> bool {
    (pps.weighted_pred_flag && (st5 == 0 || st5 == 3)) || (pps.weighted_bipred_idc == 1 && st5 == 1)
}

/// The slice header from `redundant_pic_cnt` on, read from `pos`, packaged
/// with the header fields read before it (H.264 §7.3.3): slice groups on
/// P, I and SP slices and explicit weighted prediction are refused.
pub open spec fn spec_slice_tail(d: Seq<u8>, pos: nat, nal_type: u8, nal_ref_idc: u8, header: H264SliceHeader, pps: H264Pps) -> Result<H264SliceVaInfo, BitstreamFailure> {
    let st5 = header.slice_type % 5;
    if nal_type != 20 && pps.num_slice_groups_minus1 > 0 && (st5 == 0 || st5 == 2 || st5 == 3) {
        Err(BitstreamFailure::Unsupported("slice groups not supported for VA slice parse"@))
    } else {
        match spec_pre_list_fields(d, pos, st5, pps) {
            Err(e) => Err(e),
            Ok(p1) => match spec_list_modifications(d, p1, st5) {
                Err(e) => Err(e),
                Ok(p2) => if uses_weighted_prediction(pps, st5) {
                    Err(BitstreamFailure::Unsupported("weighted prediction not supported for VA slice parse"@))
                } else {
                    let marking = if nal_ref_idc != 0 {
                        spec_dec_ref_pic_marking(d, p2, nal_type, nal_ref_idc)
                    } else {
                        Ok(p2)
                    };
                    match marking {
                        Err(e) => Err(e),
                        Ok(p3) => spec_slice_trailer(d, p3, header, pps),
                    }
                },
            },
        }
    }
}

/// `disable_deblocking_filter_idc` read from `pos` where the PPS signals it
/// (0 otherwise), followed by `slice_alpha_c0_offset_div2` and
/// `slice_beta_offset_div2` for any value other than 1: the value and the
/// position after the fields.
pub open spec fn spec_deblocking_fields(d: Seq<u8>, pos: nat, pps: H264Pps) -> Result<(u8, nat), BitstreamFailure> {
    if pps.deblocking_filter_control_present_flag {
        match spec_ue(d, pos) {
            Ok((v, p)) => if v != 1 {
                match spec_se(d, p) {
                    Ok((_, pa)) => match spec_se(d, pa) {
                        Ok((_, pb)) => Ok((v as u8, pb)),
                        Err(e) => Err(e),
                    },
                    Err(e) => Err(e),
                }
            } else {
                Ok((v as u8, p))
            },
            Err(e) => Err(e),
        }
    } else {
        Ok((0u8, pos))
    }
}

/// `sp_for_switch_flag` (SP slices) and `slice_qs_delta` (SP and SI
/// slices) read from `pos`: the position after them.
pub open spec fn spec_switching_fields(d: Seq<u8>, pos: nat, st5: u8) -> Result<nat, BitstreamFailure> {
    if st5 == 3 || st5 == 4 {
        let p: nat = if st5 == 3 { pos + 1 } else { pos };
        match spec_se(d, p) {
            Ok((_, q)) => Ok(q),
            Err(e) => Err(e),
        }
    } else {
        Ok(pos)
    }
}

/// `cabac_init_idc` (CABAC, neither I nor SI), `slice_qp_delta`, the
/// switching-slice fields and the deblocking fields read from `pos`, then
/// the slice-data bit offset (counting the one-byte NAL header).
pub open spec fn spec_slice_trailer(d: Seq<u8>, pos: nat, header: H264SliceHeader, pps: H264Pps) -> Result<H264SliceVaInfo, BitstreamFailure> {
    let st5 = header.slice_type % 5;
    let cabac: Result<(u8, nat), BitstreamFailure> = if pps.entropy_coding_mode_flag && st5 != 2 && st5 != 4 {
        match spec_ue(d, pos) {
            Ok((v, p)) => Ok((v as u8, p)),
            Err(e) => Err(e),
        }
    } else {
        Ok((0u8, pos))
    };
    match cabac {
        Err(e) => Err(e),
        Ok((cabac_init_idc, p5)) => match spec_se(d, p5) {
            Err(e) => Err(e),
            Ok((qp, p6)) => match spec_switching_fields(d, p6, st5) {
                Err(e) => Err(e),
                Ok(p7) => match spec_deblocking_fields(d, p7, pps) {
                    Err(e) => Err(e),
                    Ok((disable_deblocking_filter_idc, p8)) => if 8 + p8 > 65535 {
                        Err(BitstreamFailure::InvalidData("slice_data_bit_offset exceeds u16::MAX"@))
                    } else {
                        Ok(H264SliceVaInfo {
                            header,
                            slice_data_bit_offset: (8 + p8) as u16,
                            slice_qp_delta: qp as i8,
                            disable_deblocking_filter_idc,
                            cabac_init_idc,
                        })
                    },
                },
            },
        },
    }
}

/// What parsing a slice NAL for VA-API yields: the header byte gives
/// `nal_ref_idc` and the NAL type; the rest, with emulation-prevention bytes
/// removed, holds the slice header.
pub open spec fn spec_parse_slice_for_va(nal: Seq<u8>, sps: H264Sps, pps: H264Pps) -> Result<H264SliceVaInfo, BitstreamFailure> {
    if nal.len() == 0 {
        Err(BitstreamFailure::UnexpectedEnd("empty slice NAL"@))
    } else {
        let nal_ref_idc = (nal[0] >> 5u8) & 3u8;
        let nal_type = nal[0] & 0x1fu8;
        let d = rbsp_of_ebsp(nal.subrange(1, nal.len() as int));
        match spec_header_fields(d, nal_type, sps, pps) {
            Err(e) => Err(e),
            Ok((header, p)) => spec_slice_tail(d, p, nal_type, nal_ref_idc, header, pps),
        }
    }
}


/// Upper bound on positions reached while parsing `d`.
pub open spec fn pos_ok(d: Seq<u8>, pos: nat, slack: nat) -> bool {
    pos <= total_bits(d) + slack
}

fn ue_at(d: &[u8], pos: usize) -> (r: Result<(u32, usize), BitstreamError>)
    requires
        pos <= total_bits(d@) + 192,
        total_bits(d@) + 512 <= usize::MAX,
    ensures
        match r {
            Ok((v, p)) => spec_ue(d@, pos as nat) == Ok::<(u32, nat), BitstreamFailure>((v, p as nat)) && pos <= p
                && (p <= pos || p <= total_bits(d@) + 31),
            Err(e) => spec_ue(d@, pos as nat) == Err::<(u32, nat), BitstreamFailure>(e@),
        },
{
    proof {
        lemma_ue_advance(d@, pos as nat);
    }
    read_ue(d, pos)
}

fn se_at(d: &[u8], pos: usize) -> (r: Result<(i32, usize), BitstreamError>)
    requires
        pos <= total_bits(d@) + 192,
        total_bits(d@) + 512 <= usize::MAX,
    ensures
        match r {
            Ok((v, p)) => spec_se(d@, pos as nat) == Ok::<(i32, nat), BitstreamFailure>((v, p as nat)) && pos <= p
                && (p <= pos || p <= total_bits(d@) + 31),
            Err(e) => spec_se(d@, pos as nat) == Err::<(i32, nat), BitstreamFailure>(e@),
        },
{
    proof {
        lemma_ue_advance(d@, pos as nat);
    }
    read_se(d, pos)
}

/// Position result as a view.
pub open spec fn pos_result_view(r: Result<usize, BitstreamError>) -> Result<nat, BitstreamFailure> {
    match r {
        Ok(p) => Ok(p as nat),
        Err(e) => Err(e@),
    }
}

fn skip_mmco_loop(d: &[u8], pos: usize) -> (r: Result<usize, BitstreamError>)
    requires
        pos <= total_bits(d@) + 160,
        total_bits(d@) + 512 <= usize::MAX,
    ensures
        pos_result_view(r) == spec_mmco_loop(d@, pos as nat),
        r matches Ok(p) ==> (p <= pos || p <= total_bits(d@) + 31),
{
    let mut p: usize = pos;
    loop
        invariant
            pos <= total_bits(d@) + 160,
            total_bits(d@) + 512 <= usize::MAX,
            p <= pos || p <= total_bits(d@) + 31,
            spec_mmco_loop(d@, pos as nat) == spec_mmco_loop(d@, p as nat),
        decreases bits_left_measure(d@, p as nat),
    {
        proof {
            lemma_ue_advance(d@, p as nat);
        }
        let (op, p1) = match ue_at(d, p) {
            Ok(x) => x,
            Err(e) => return Err(e),
        };
        if op == 0 {
            return Ok(p1);
        }
        if op == 1 || op == 2 || op == 4 || op == 6 {
            proof {
                lemma_ue_advance(d@, p1 as nat);
            }
            let (_, p2) = match ue_at(d, p1) {
                Ok(x) => x,
                Err(e) => return Err(e),
            };
            p = p2;
        } else if op == 3 {
            proof {
                lemma_ue_advance(d@, p1 as nat);
            }
            let (_, p2) = match ue_at(d, p1) {
                Ok(x) => x,
                Err(e) => return Err(e),
            };
            proof {
                lemma_ue_advance(d@, p2 as nat);
            }
            let (_, p3) = match ue_at(d, p2) {
                Ok(x) => x,
                Err(e) => return Err(e),
            };
            p = p3;
        } else if op == 5 {
            p = p1;
        } else {
            let msg = String::from_str("unknown memory_management_control_operation ").concat(
                decimal_string(op as u64).as_str(),
            );
            return Err(BitstreamError::InvalidData(msg));
        }
    }
}

fn skip_dec_ref_pic_marking(d: &[u8], pos: usize, nal_type: u8, nal_ref_idc: u8) -> (r: Result<usize, BitstreamError>)
    requires
        pos <= total_bits(d@) + 128,
        total_bits(d@) + 512 <= usize::MAX,
    ensures
        pos_result_view(r) == spec_dec_ref_pic_marking(d@, pos as nat, nal_type, nal_ref_idc),
        r matches Ok(p) ==> (p <= pos + 2 || p <= total_bits(d@) + 31),
{
    if nal_type == NAL_TYPE_IDR || nal_type == 20 {
        let (_, p1) = read_bits(d, pos, 1);
        let (_, p2) = read_bits(d, p1, 1);
        return Ok(p2);
    }
    if nal_ref_idc == 0 {
        return Ok(pos);
    }
    let (flag, p1) = read_bits(d, pos, 1);
    assert(flag == bit_at(d@, pos as nat)) by {
        reveal_with_fuel(bits_value, 2);
    }
    if flag == 0 {
        return Ok(p1);
    }
    skip_mmco_loop(d, p1)
}

fn skip_rplm_loop(d: &[u8], pos: usize) -> (r: Result<usize, BitstreamError>)
    requires
        pos <= total_bits(d@) + 160,
        total_bits(d@) + 512 <= usize::MAX,
    ensures
        pos_result_view(r) == spec_rplm_loop(d@, pos as nat),
        r matches Ok(p) ==> (p <= pos || p <= total_bits(d@) + 31),
{
    let mut p: usize = pos;
    loop
        invariant
            pos <= total_bits(d@) + 160,
            total_bits(d@) + 512 <= usize::MAX,
            p <= pos || p <= total_bits(d@) + 31,
            spec_rplm_loop(d@, pos as nat) == spec_rplm_loop(d@, p as nat),
        decreases bits_left_measure(d@, p as nat),
    {
        if p >= d.len() * 8 {
            return Err(BitstreamError::unexpected_end("ref_pic_list_modification runs past the end of the slice"));
        }
        proof {
            lemma_ue_advance(d@, p as nat);
        }
        let (idc, p1) = match ue_at(d, p) {
            Ok(x) => x,
            Err(e) => return Err(e),
        };
        if idc == 3 {
            return Ok(p1);
        }
        if idc == 0 || idc == 1 || idc == 2 {
            proof {
                lemma_ue_advance(d@, p1 as nat);
            }
            let (_, p2) = match ue_at(d, p1) {
                Ok(x) => x,
                Err(e) => return Err(e),
            };
            p = p2;
        } else {
            let msg = String::from_str("unknown modification_of_pic_nums_idc ").concat(
                decimal_string(idc as u64).as_str(),
            );
            return Err(BitstreamError::InvalidData(msg));
        }
    }
}

fn skip_ref_pic_list_modification(d: &[u8], pos: usize) -> (r: Result<usize, BitstreamError>)
    requires
        pos <= total_bits(d@) + 128,
        total_bits(d@) + 512 <= usize::MAX,
    ensures
        pos_result_view(r) == spec_ref_pic_list_modification(d@, pos as nat),
        r matches Ok(p) ==> (p <= pos + 1 || p <= total_bits(d@) + 31),
{
    let (flag, p1) = read_bits(d, pos, 1);
    assert(flag == bit_at(d@, pos as nat)) by {
        reveal_with_fuel(bits_value, 2);
    }
    if flag == 0 {
        return Ok(p1);
    }
    skip_rplm_loop(d, p1)
}


/// Header-fields result as a view.
pub open spec fn header_result_view(r: Result<(H264SliceHeader, usize), BitstreamError>) -> Result<(H264SliceHeader, nat), BitstreamFailure> {
    match r {
        Ok((h, p)) => Ok((h, p as nat)),
        Err(e) => Err(e@),
    }
}

fn read_flag(d: &[u8], pos: usize) -> (r: (bool, usize))
    requires
        pos + 1 <= usize::MAX,
    ensures
        r.0 == (bit_at(d@, pos as nat) != 0),
        r.1 == pos + 1,
{
    let (v, p) = read_bits(d, pos, 1);
    assert(v == bit_at(d@, pos as nat)) by {
        reveal_with_fuel(bits_value, 2);
    }
    (v != 0, p)
}

#[verifier::rlimit(40)]
fn parse_header_fields(d: &[u8], nal_type: u8, sps: &H264Sps, pps: &H264Pps) -> (r: Result<(H264SliceHeader, usize), BitstreamError>)
    requires
        total_bits(d@) + 512 <= usize::MAX,
        header_ids_end(d@) is Some ==> sps.log2_max_frame_num_minus4 <= 28,
        reaches_poc_lsb(d@, nal_type, *sps) ==> sps.log2_max_pic_order_cnt_lsb_minus4 <= 28,
    ensures
        header_result_view(r) == spec_header_fields(d@, nal_type, *sps, *pps),
        r matches Ok((_, p)) ==> p <= total_bits(d@) + 100,
{
    let (first_mb, p1) = match ue_at(d, 0) {
        Ok(x) => x,
        Err(e) => return Err(e),
    };
    let (slice_type, p2) = match ue_at(d, p1) {
        Ok(x) => x,
        Err(e) => return Err(e),
    };
    let (pps_id, p3) = match ue_at(d, p2) {
        Ok(x) => x,
        Err(e) => return Err(e),
    };
    let mut p = p3;
    if sps.separate_colour_plane_flag {
        let (_, q) = read_bits(d, p, 2);
        p = q;
    }
    let nf: u32 = sps.log2_max_frame_num_minus4 as u32 + 4;
    let (frame_num, q) = read_bits(d, p, nf);
    p = q;
    let mut field_pic_flag = false;
    let mut bottom_field_flag = false;
    if !sps.frame_mbs_only_flag {
        let (f, q1) = read_flag(d, p);
        field_pic_flag = f;
        p = q1;
        if f {
            let (b, q2) = read_flag(d, p);
            bottom_field_flag = b;
            p = q2;
        }
    }
    let mut idr_pic_id: Option<u32> = None;
    if nal_type == NAL_TYPE_IDR {
        let (v, q) = match ue_at(d, p) {
            Ok(x) => x,
            Err(e) => return Err(e),
        };
        idr_pic_id = Some(v);
        p = q;
    }
    let mut pic_order_cnt_lsb: u32 = 0;
    if sps.pic_order_cnt_type == 0 {
        let np: u32 = sps.log2_max_pic_order_cnt_lsb_minus4 as u32 + 4;
        let (lsb, q) = read_bits(d, p, np);
        pic_order_cnt_lsb = lsb;
        p = q;
        if pps.bottom_field_pic_order_in_frame_present_flag && !field_pic_flag {
            let (_, q2) = match se_at(d, p) {
                Ok(x) => x,
                Err(e) => return Err(e),
            };
            p = q2;
        }
    } else if sps.pic_order_cnt_type == 1 && !sps.delta_pic_order_always_zero_flag {
        let (_, q) = match se_at(d, p) {
            Ok(x) => x,
            Err(e) => return Err(e),
        };
        p = q;
        if pps.bottom_field_pic_order_in_frame_present_flag && !field_pic_flag {
            let (_, q2) = match se_at(d, p) {
                Ok(x) => x,
                Err(e) => return Err(e),
            };
            p = q2;
        }
    }
    let header = H264SliceHeader {
        first_mb_in_slice: first_mb,
        slice_type: slice_type as u8,
        pic_parameter_set_id: pps_id as u8,
        frame_num,
        field_pic_flag,
        bottom_field_flag,
        idr_pic_id,
        pic_order_cnt_lsb,
    };
    Ok((header, p))
}

/// Slice-info result as a view.
pub open spec fn info_result_view(r: Result<H264SliceVaInfo, BitstreamError>) -> Result<H264SliceVaInfo, BitstreamFailure> {
    match r {
        Ok(i) => Ok(i),
        Err(e) => Err(e@),
    }
}

fn deblocking_fields(d: &[u8], pos: usize, pps: &H264Pps) -> (r: Result<(u8, usize), BitstreamError>)
    requires
        total_bits(d@) + 512 <= usize::MAX,
        pos <= total_bits(d@) + 128,
    ensures
        match r {
            Ok((v, p)) => spec_deblocking_fields(d@, pos as nat, *pps) == Ok::<(u8, nat), BitstreamFailure>((v, p as nat))
                && pos <= p && (p <= pos || p <= total_bits(d@) + 31),
            Err(e) => spec_deblocking_fields(d@, pos as nat, *pps) == Err::<(u8, nat), BitstreamFailure>(e@),
        },
{
    if !pps.deblocking_filter_control_present_flag {
        return Ok((0, pos));
    }
    let (v, p) = match ue_at(d, pos) {
        Ok(x) => x,
        Err(e) => return Err(e),
    };
    if v == 1 {
        return Ok((1, p));
    }
    let (_, pa) = match se_at(d, p) {
        Ok(x) => x,
        Err(e) => return Err(e),
    };
    let (_, pb) = match se_at(d, pa) {
        Ok(x) => x,
        Err(e) => return Err(e),
    };
    Ok((v as u8, pb))
}

fn skip_switching_fields(d: &[u8], pos: usize, st5: u8) -> (r: Result<usize, BitstreamError>)
    requires
        total_bits(d@) + 512 <= usize::MAX,
        pos <= total_bits(d@) + 128,
    ensures
        pos_result_view(r) == spec_switching_fields(d@, pos as nat, st5),
        r matches Ok(p) ==> pos <= p && (p <= pos + 1 || p <= total_bits(d@) + 31),
{
    if st5 != 3 && st5 != 4 {
        return Ok(pos);
    }
    let p: usize = if st5 == 3 { pos + 1 } else { pos };
    match se_at(d, p) {
        Ok((_, q)) => Ok(q),
        Err(e) => Err(e),
    }
}

#[verifier::spinoff_prover]
#[verifier::rlimit(30)]
fn parse_slice_trailer(d: &[u8], pos: usize, header: H264SliceHeader, pps: &H264Pps) -> (r: Result<H264SliceVaInfo, BitstreamError>)
    requires
        total_bits(d@) + 512 <= usize::MAX,
        pos <= total_bits(d@) + 110,
    ensures
        info_result_view(r) == spec_slice_trailer(d@, pos as nat, header, *pps),
{
    let st5 = header.slice_type % 5;
    let mut p = pos;
    let mut cabac_init_idc: u8 = 0;
    if pps.entropy_coding_mode_flag && st5 != 2 && st5 != 4 {
        let (v, q) = match ue_at(d, p) {
            Ok(x) => x,
            Err(e) => return Err(e),
        };
        cabac_init_idc = v as u8;
        p = q;
    }
    let (qp, q) = match se_at(d, p) {
        Ok(x) => x,
        Err(e) => return Err(e),
    };
    p = q;
    p = match skip_switching_fields(d, p, st5) {
        Ok(x) => x,
        Err(e) => return Err(e),
    };
    let (disable_deblocking_filter_idc, q2) = match deblocking_fields(d, p, pps) {
        Ok(x) => x,
        Err(e) => return Err(e),
    };
    p = q2;
    let offset: usize = 8 + p;
    if offset > 65535 {
        return Err(BitstreamError::invalid("slice_data_bit_offset exceeds u16::MAX"));
    }
    Ok(H264SliceVaInfo {
        header,
        slice_data_bit_offset: offset as u16,
        slice_qp_delta: qp as i8,
        disable_deblocking_filter_idc,
        cabac_init_idc,
    })
}

fn skip_pre_list_fields(d: &[u8], pos: usize, st5: u8, pps: &H264Pps) -> (r: Result<usize, BitstreamError>)
    requires
        total_bits(d@) + 512 <= usize::MAX,
        pos <= total_bits(d@) + 100,
    ensures
        pos_result_view(r) == spec_pre_list_fields(d@, pos as nat, st5, *pps),
        r matches Ok(p) ==> p <= total_bits(d@) + 102,
{
    let mut p = pos;
    if pps.redundant_pic_cnt_present_flag {
        p = match ue_at(d, p) {
            Ok((_, q)) => q,
            Err(e) => return Err(e),
        };
    }
    if st5 == 1 {
        p = p + 1;
    }
    if st5 != 0 && st5 != 1 && st5 != 3 {
        return Ok(p);
    }
    let (overridden, q) = read_flag(d, p);
    if !overridden {
        return Ok(q);
    }
    let q1 = match ue_at(d, q) {
        Ok((_, x)) => x,
        Err(e) => return Err(e),
    };
    if st5 != 1 {
        return Ok(q1);
    }
    match ue_at(d, q1) {
        Ok((_, x)) => Ok(x),
        Err(e) => Err(e),
    }
}

fn skip_list_modifications(d: &[u8], pos: usize, st5: u8) -> (r: Result<usize, BitstreamError>)
    requires
        total_bits(d@) + 512 <= usize::MAX,
        pos <= total_bits(d@) + 102,
    ensures
        pos_result_view(r) == spec_list_modifications(d@, pos as nat, st5),
        r matches Ok(p) ==> p <= total_bits(d@) + 104,
{
    if st5 == 2 || st5 == 4 {
        return Ok(pos);
    }
    let p = match skip_ref_pic_list_modification(d, pos) {
        Ok(x) => x,
        Err(e) => return Err(e),
    };
    if st5 != 1 {
        return Ok(p);
    }
    skip_ref_pic_list_modification(d, p)
}

#[verifier::spinoff_prover]
#[verifier::rlimit(30)]
fn parse_slice_tail(d: &[u8], pos: usize, nal_type: u8, nal_ref_idc: u8, header: H264SliceHeader, pps: &H264Pps) -> (r: Result<H264SliceVaInfo, BitstreamError>)
    requires
        total_bits(d@) + 512 <= usize::MAX,
        pos <= total_bits(d@) + 100,
    ensures
        info_result_view(r) == spec_slice_tail(d@, pos as nat, nal_type, nal_ref_idc, header, *pps),
{
    let st5 = header.slice_type % 5;
    if nal_type != 20 && pps.num_slice_groups_minus1 > 0 && (st5 == 0 || st5 == 2 || st5 == 3) {
        return Err(BitstreamError::unsupported("slice groups not supported for VA slice parse"));
    }
    let p1 = match skip_pre_list_fields(d, pos, st5, pps) {
        Ok(x) => x,
        Err(e) => return Err(e),
    };
    let p2 = match skip_list_modifications(d, p1, st5) {
        Ok(x) => x,
        Err(e) => return Err(e),
    };
    if (pps.weighted_pred_flag && (st5 == 0 || st5 == 3)) || (pps.weighted_bipred_idc == 1 && st5 == 1) {
        return Err(BitstreamError::unsupported("weighted prediction not supported for VA slice parse"));
    }
    let mut p3 = p2;
    if nal_ref_idc != 0 {
        p3 = match skip_dec_ref_pic_marking(d, p2, nal_type, nal_ref_idc) {
            Ok(x) => x,
            Err(e) => return Err(e),
        };
    }
    parse_slice_trailer(d, p3, header, pps)
}

/// Parses a slice NAL for VA-API decode buffer population.
///
/// Fails with a [`BitstreamError`] when the slice header cannot be parsed,
/// when it uses slice groups or weighted prediction, or when the slice data
/// would start beyond bit 65535.
pub fn parse_slice_for_va(nal: &[u8], sps: &H264Sps, pps: &H264Pps) -> (r: Result<H264SliceVaInfo, BitstreamError>)
    requires
        nal@.len() * 8 + 512 <= usize::MAX,
        slice_reads_frame_num(nal@) ==> sps.log2_max_frame_num_minus4 <= 28,
        slice_reads_poc_lsb(nal@, *sps) ==> sps.log2_max_pic_order_cnt_lsb_minus4 <= 28,
    ensures
        info_result_view(r) == spec_parse_slice_for_va(nal@, *sps, *pps),
{
    if nal.len() == 0 {
        return Err(BitstreamError::unexpected_end("empty slice NAL"));
    }
    let (_, nal_ref_idc, nal_type) = oxideav_bitstream::h264::nal_header(nal[0]);
    let body = vstd::slice::slice_subrange(nal, 1, nal.len());
    let rbsp = oxideav_bitstream::nal::ebsp_to_rbsp(body);
    proof {
        lemma_rbsp_not_longer(body@);
    }
    let d: &[u8] = rbsp.as_slice();
    assert(d@ == rbsp_of_ebsp(nal@.subrange(1, nal@.len() as int)));
    let (header, p0) = match parse_header_fields(d, nal_type, sps, pps) {
        Ok(x) => x,
        Err(e) => return Err(e),
    };
    parse_slice_tail(d, p0, nal_type, nal_ref_idc, header, pps)
}

/// Bit offset from the start of a slice NAL (including the NAL header byte)
/// to the first bit of slice data, per VA-API `slice_data_bit_offset`.
pub fn slice_data_bit_offset(nal: &[u8], sps: &H264Sps, pps: &H264Pps) -> (r: Result<u16, BitstreamError>)
    requires
        nal@.len() * 8 + 512 <= usize::MAX,
        slice_reads_frame_num(nal@) ==> sps.log2_max_frame_num_minus4 <= 28,
        slice_reads_poc_lsb(nal@, *sps) ==> sps.log2_max_pic_order_cnt_lsb_minus4 <= 28,
    ensures
        match r {
            Ok(off) => spec_parse_slice_for_va(nal@, *sps, *pps) matches Ok(info) && info.slice_data_bit_offset == off
                && off >= 8,
            Err(e) => spec_parse_slice_for_va(nal@, *sps, *pps) == Err::<H264SliceVaInfo, BitstreamFailure>(e@),
        },
{
    proof {
        law_offset_counts_header_byte(nal@, *sps, *pps);
    }
    match parse_slice_for_va(nal, sps, pps) {
        Ok(info) => Ok(info.slice_data_bit_offset),
        Err(e) => Err(e),
    }
}

// ─────────────────────── framing laws ───────────────────────

/// Four big-endian bytes of `n` read back give `n`.
proof fn lemma_be32_value(n: u32)
    ensures
        be32_value(be32(n)[0], be32(n)[1], be32(n)[2], be32(n)[3]) == n,
{
    let b0 = (n >> 24u32) as u8;
    let b1 = (n >> 16u32) as u8;
    let b2 = (n >> 8u32) as u8;
    let b3 = n as u8;
    assert(b0 as u32 * 0x1000000u32 + b1 as u32 * 0x10000u32 + b2 as u32 * 0x100u32 + b3 as u32 == n) by (bit_vector)
        requires
            b0 == (n >> 24u32) as u8,
            b1 == (n >> 16u32) as u8,
            b2 == (n >> 8u32) as u8,
            b3 == n as u8,
    ;
}

/// Length-prefixed framing read from the front: the first unit's prefix
/// and body, then the framing of the others.
proof fn lemma_length_prefixed_front(units: Seq<Seq<u8>>)
    requires
        units.len() > 0,
    ensures
        frame_length_prefixed(units) == be32(units[0].len() as u32) + units[0] + frame_length_prefixed(
            units.drop_first(),
        ),
    decreases units.len(),
{
    if units.len() == 1 {
        assert(units.drop_last() =~= Seq::<Seq<u8>>::empty());
        assert(units.drop_first() =~= Seq::<Seq<u8>>::empty());
        assert(frame_length_prefixed(units) =~= be32(units[0].len() as u32) + units[0]
            + frame_length_prefixed(units.drop_first()));
    } else {
        lemma_length_prefixed_front(units.drop_last());
        assert(units.drop_last().drop_first() =~= units.drop_first().drop_last());
        assert(units.drop_first().last() == units.last());
        assert(units.drop_last()[0] == units[0]);
        assert(frame_length_prefixed(units) =~= be32(units[0].len() as u32) + units[0]
            + frame_length_prefixed(units.drop_first()));
    }
}

/// Start-code framing read from the front: the first unit with its start
/// code, then the framing of the others.
proof fn lemma_frame_all_front(units: Seq<Seq<u8>>)
    requires
        units.len() > 0,
    ensures
        frame_kept(units, keep_all()) == start_code() + units[0] + frame_kept(units.drop_first(), keep_all()),
    decreases units.len(),
{
    if units.len() == 1 {
        assert(units.drop_last() =~= Seq::<Seq<u8>>::empty());
        assert(units.drop_first() =~= Seq::<Seq<u8>>::empty());
        assert(frame_kept(units, keep_all()) =~= start_code() + units[0] + frame_kept(units.drop_first(), keep_all()));
    } else {
        lemma_frame_all_front(units.drop_last());
        assert(units.drop_last().drop_first() =~= units.drop_first().drop_last());
        assert(units.drop_first().last() == units.last());
        assert(units.drop_last()[0] == units[0]);
        assert(frame_kept(units, keep_all()) =~= start_code() + units[0] + frame_kept(units.drop_first(), keep_all()));
    }
}

/// Length-prefixed framing undone: re-framing length-prefixed units as
/// Annex-B gives every unit behind a 4-byte start code, in order. Units
/// must fit a 4-byte length.
pub proof fn law_length_prefixed_to_annex_b(units: Seq<Seq<u8>>)
    requires
        forall|i: int| 0 <= i < units.len() ==> #[trigger] units[i].len() <= u32::MAX,
    ensures
        spec_length_prefixed_to_annex_b(frame_length_prefixed(units)) == Ok::<Seq<u8>, BitstreamFailure>(
            frame_kept(units, keep_all()),
        ),
    decreases units.len(),
{
    if units.len() == 0 {
        assert(frame_length_prefixed(units) =~= Seq::<u8>::empty());
        assert(frame_kept(units, keep_all()) =~= Seq::<u8>::empty());
    } else {
        let u0 = units[0];
        let rest = units.drop_first();
        assert forall|i: int| 0 <= i < rest.len() implies #[trigger] rest[i].len() <= u32::MAX by {
            assert(rest[i] == units[i + 1]);
        }
        law_length_prefixed_to_annex_b(rest);
        lemma_length_prefixed_front(units);
        lemma_frame_all_front(units);
        lemma_be32_value(u0.len() as u32);
        let s = frame_length_prefixed(units);
        let n = u0.len() as int;
        assert(s[0] == be32(u0.len() as u32)[0] && s[1] == be32(u0.len() as u32)[1]);
        assert(s[2] == be32(u0.len() as u32)[2] && s[3] == be32(u0.len() as u32)[3]);
        assert(s.subrange(4, 4 + n) =~= u0);
        assert(s.subrange(4 + n, s.len() as int) =~= frame_length_prefixed(rest));
        assert(start_code() + s.subrange(4, 4 + n) + frame_kept(rest, keep_all()) =~= frame_kept(units, keep_all()));
    }
}

/// Converting Annex-B data to length-prefixed form and back re-frames each
/// of its NAL units behind a 4-byte start code (units must fit a 4-byte
/// length).
pub proof fn law_annex_b_round_trip(data: Seq<u8>)
    requires
        forall|i: int|
            0 <= i < annex_b_nal_units(data).len() ==> #[trigger] annex_b_nal_units(data)[i].len() <= u32::MAX,
    ensures
        spec_from_annex_b(data, BitstreamFormat::LengthPrefixed) matches Ok(lp) && spec_to_annex_b(
            lp,
            BitstreamFormat::LengthPrefixed,
        ) == Ok::<Seq<u8>, BitstreamFailure>(frame_kept(annex_b_nal_units(data), keep_all())),
{
    law_length_prefixed_to_annex_b(annex_b_nal_units(data));
}

/// A parsed slice's data offset counts the one-byte NAL header: it is at
/// least 8.
pub proof fn law_offset_counts_header_byte(nal: Seq<u8>, sps: H264Sps, pps: H264Pps)
    ensures
        spec_parse_slice_for_va(nal, sps, pps) matches Ok(info) ==> info.slice_data_bit_offset >= 8,
{
    if nal.len() > 0 {
        let d = slice_rbsp(nal);
        let nal_ref_idc = (nal[0] >> 5u8) & 3u8;
        let nal_type = nal[0] & 0x1fu8;
        if let Ok((header, p)) = spec_header_fields(d, nal_type, sps, pps) {
            let st5 = header.slice_type % 5;
            if let Ok(p1) = spec_pre_list_fields(d, p, st5, pps) {
                if let Ok(p2) = spec_list_modifications(d, p1, st5) {
                    let marking = if nal_ref_idc != 0 {
                        spec_dec_ref_pic_marking(d, p2, nal_type, nal_ref_idc)
                    } else {
                        Ok(p2)
                    };
                    if let Ok(p3) = marking {
                        lemma_trailer_offset(d, p3, header, pps);
                    }
                }
            }
        }
    }
}

proof fn lemma_trailer_offset(d: Seq<u8>, pos: nat, header: H264SliceHeader, pps: H264Pps)
    ensures
        spec_slice_trailer(d, pos, header, pps) matches Ok(info) ==> info.slice_data_bit_offset >= 8,
{
}

} // verus!
