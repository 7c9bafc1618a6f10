//! Book-keeping of the hardware H.264 encoder sessions, separated from the
//! hardware calls: keyframe scheduling, input preparation, output framing
//! and the cached parameter sets. A backend's session calls these around
//! its own queueing and dequeueing of hardware buffers.

use core::time::Duration;

use vstd::prelude::*;

use crate::encoder::EncoderConfig;
use crate::error::{is_backend_error, Error};
use crate::frame::{EncodedUnit, VideoFrame};
use crate::h264::{
    annex_b_nal_units, error_text, frame_kept, has_unit_of_type, keep_parameter_sets,
    length_prefixed_to_annex_b, spec_length_prefixed_to_annex_b,
};
use crate::pixel::PixelFormat;
use crate::platform::{
    bitstream_err, check_encode_frame, keyframe_parameter_sets, output_is_keyframe, package_h264_output,
    should_emit_idr, spec_check_encode_frame, spec_package_h264_output, spec_should_emit_idr,
};
use crate::util::pixel::{i420_to_nv12, i420_to_nv12_result};

verus! {

/// The state of an encoder session as its contracts speak of it.
pub struct EncoderSessionModel {
    /// The active configuration.
    pub config: EncoderConfig,
    /// Whether the next frame must be an IDR picture.
    pub force_idr: bool,
    /// Frames counted towards the GOP so far.
    pub frame_count: u64,
    /// Timestamp of the last encoded frame.
    pub last_pts: Option<Duration>,
    /// SPS/PPS (Annex-B) captured from the latest keyframe or codec config.
    pub parameter_sets: Option<Seq<u8>>,
}

/// An input frame ready for the hardware: NV12 pixels and whether it is to
/// be coded as an IDR picture.
pub struct PreparedFrame {
    /// NV12 pixels (I420 input converted).
    pub pixels: Vec<u8>,
    /// Whether the frame is to be coded as an IDR picture.
    pub idr: bool,
}

/// Book-keeping of one hardware H.264 encoder session.
pub struct EncoderSession {
    config: EncoderConfig,
    force_idr: bool,
    frame_count: u64,
    last_pts: Option<Duration>,
    parameter_sets: Option<Vec<u8>>,
}

/// `o` over byte sequences.
pub open spec fn opt_bytes(o: Option<Vec<u8>>) -> Option<Seq<u8>> {
    match o {
        Some(v) => Some(v@),
        None => None,
    }
}

/// The parameter sets kept after an output access unit: those of a
/// keyframe that carries some, otherwise the previous ones.
pub open spec fn next_parameter_sets(previous: Option<Seq<u8>>, annex_b: Seq<u8>, keyframe: bool) -> Option<
    Seq<u8>,
> {
    if keyframe && frame_kept(annex_b_nal_units(annex_b), keep_parameter_sets()).len() > 0 {
        Some(frame_kept(annex_b_nal_units(annex_b), keep_parameter_sets()))
    } else {
        previous
    }
}

/// What one Media Foundation output sample gives in session state `m`:
/// the unit's bytes and keyframe flag, and the next state; `None` where the
/// sample fails (see [`sample_failure`]).
pub open spec fn sample_outcome(m: EncoderSessionModel, sample: Seq<u8>, idr_requested: bool, pts: Duration) -> Option<
    ((Seq<u8>, bool), EncoderSessionModel),
> {
    match spec_length_prefixed_to_annex_b(sample) {
        Err(_) => None,
        Ok(annex_b) => match spec_package_h264_output(annex_b, m.config.bitstream) {
            Err(_) => None,
            Ok(data) => {
                let keyframe = idr_requested || has_unit_of_type(annex_b_nal_units(annex_b), 5);
                Some((
                    (data, keyframe),
                    EncoderSessionModel {
                        parameter_sets: next_parameter_sets(m.parameter_sets, annex_b, keyframe),
                        frame_count: (m.frame_count + 1) as u64,
                        last_pts: Some(pts),
                        ..m
                    },
                ))
            },
        },
    }
}

/// `e` is the error a failing output sample gives in session state `m`: a
/// backend error with the framing error's text, or the packaging error.
pub open spec fn sample_failure(e: Error, m: EncoderSessionModel, sample: Seq<u8>) -> bool {
    match spec_length_prefixed_to_annex_b(sample) {
        Err(f) => e matches Error::Backend { message } && message@ == error_text(f),
        Ok(annex_b) => spec_package_h264_output(annex_b, m.config.bitstream) == Err::<Seq<u8>, Error>(e),
    }
}

/// The samples handled in order from state `m` until the first failure:
/// the units made, the state reached, and the position of the failing
/// sample, if any.
pub open spec fn samples_outcome(m: EncoderSessionModel, samples: Seq<Seq<u8>>, idr_requested: bool, pts: Duration) -> (
    Seq<(Seq<u8>, bool)>,
    EncoderSessionModel,
    Option<int>,
)
    decreases samples.len(),
{
    if samples.len() == 0 {
        (Seq::empty(), m, None)
    } else {
        let (units, reached, failed) = samples_outcome(m, samples.drop_last(), idr_requested, pts);
        if failed is Some {
            (units, reached, failed)
        } else {
            match sample_outcome(reached, samples.last(), idr_requested, pts) {
                None => (units, reached, Some(samples.len() - 1)),
                Some((u, next)) => (units.push(u), next, None),
            }
        }
    }
}

impl View for EncoderSession {
    type V = EncoderSessionModel;

    closed spec fn view(&self) -> EncoderSessionModel {
        EncoderSessionModel {
            config: self.config,
            force_idr: self.force_idr,
            frame_count: self.frame_count,
            last_pts: self.last_pts,
            parameter_sets: opt_bytes(self.parameter_sets),
        }
    }
}

impl EncoderSession {
    /// The GOP of a session is never zero.
    #[verifier::type_invariant]
    spec fn gop_non_zero(self) -> bool {
        self.config.gop_size > 0
    }

    /// A fresh session for a validated config: the first frame will be an
    /// IDR picture, nothing encoded yet, no parameter sets.
    pub fn new(config: EncoderConfig) -> (r: Self)
        requires
            config.gop_size > 0,
        ensures
            r@ == (EncoderSessionModel {
                config,
                force_idr: true,
                frame_count: 0,
                last_pts: None,
                parameter_sets: None,
            }),
    {
        EncoderSession { config, force_idr: true, frame_count: 0, last_pts: None, parameter_sets: None }
    }

    /// The active configuration.
    pub fn config(&self) -> (r: EncoderConfig)
        ensures
            r == self@.config,
    {
        self.config
    }

    /// Requests the next frame to be an IDR picture.
    pub fn force_keyframe(&mut self)
        ensures
            final(self)@ == (EncoderSessionModel { force_idr: true, ..old(self)@ }),
    {
        proof { use_type_invariant(&*self); }
        self.force_idr = true;
    }

    /// Records a new target bitrate.
    pub fn set_bitrate(&mut self, bitrate_bps: u32)
        ensures
            final(self)@ == (EncoderSessionModel {
                config: EncoderConfig { bitrate: bitrate_bps, ..old(self)@.config },
                ..old(self)@
            }),
    {
        proof { use_type_invariant(&*self); }
        self.config = EncoderConfig { bitrate: bitrate_bps, ..self.config };
    }

    /// Switches to a validated config in a rebuilt hardware session: the
    /// next frame is an IDR picture, the GOP count and the parameter sets
    /// start over; the last timestamp is kept.
    pub fn reconfigure(&mut self, config: EncoderConfig)
        requires
            config.gop_size > 0,
        ensures
            final(self)@ == (EncoderSessionModel {
                config,
                force_idr: true,
                frame_count: 0,
                parameter_sets: None,
                ..old(self)@
            }),
    {
        self.config = config;
        self.force_idr = true;
        self.frame_count = 0;
        self.parameter_sets = None;
    }

    /// Switches to a validated config keeping the GOP count and the
    /// parameter sets; the next frame is an IDR picture.
    pub fn reconfigure_keep_count(&mut self, config: EncoderConfig)
        requires
            config.gop_size > 0,
        ensures
            final(self)@ == (EncoderSessionModel { config, force_idr: true, ..old(self)@ }),
    {
        self.config = config;
        self.force_idr = true;
    }

    /// Checks an input frame against the config, decides whether it is an
    /// IDR picture (clearing a pending keyframe request) and converts I420
    /// input to NV12. A frame that fails the checks leaves the session
    /// unchanged.
    pub fn prepare_frame(&mut self, frame: &VideoFrame) -> (r: Result<PreparedFrame, Error>)
        ensures
            spec_check_encode_frame(frame.pixels@.len(), frame.width, frame.height, frame.format, old(self)@.config)
                matches Err(e) ==> (r matches Err(e2) && e2 == e && final(self)@ == old(self)@),
            spec_check_encode_frame(frame.pixels@.len(), frame.width, frame.height, frame.format, old(self)@.config)
                is Ok ==> {
                &&& final(self)@ == (EncoderSessionModel { force_idr: false, ..old(self)@ })
                &&& frame.format == PixelFormat::Nv12 ==> (r matches Ok(p) && p.pixels@ == frame.pixels@ && p.idr
                    == spec_should_emit_idr(
                    old(self)@.force_idr,
                    old(self)@.frame_count,
                    old(self)@.config.gop_size,
                ))
                &&& frame.format == PixelFormat::I420 ==> match i420_to_nv12_result(
                    frame.pixels@,
                    frame.width,
                    frame.height,
                ) {
                    Ok(nv12) => r matches Ok(p) && p.pixels@ == nv12 && p.idr == spec_should_emit_idr(
                        old(self)@.force_idr,
                        old(self)@.frame_count,
                        old(self)@.config.gop_size,
                    ),
                    Err(e) => r matches Err(e2) && e2 == e,
                }
            },
    {
        proof { use_type_invariant(&*self); }
        match check_encode_frame(frame, &self.config) {
            Ok(()) => {},
            Err(e) => return Err(e),
        }
        let idr = should_emit_idr(self.force_idr, self.frame_count, self.config.gop_size);
        self.force_idr = false;
        let pixels = match frame.format {
            PixelFormat::I420 => match i420_to_nv12(frame.pixels, frame.width, frame.height) {
                Ok(v) => v,
                Err(e) => return Err(e),
            },
            PixelFormat::Nv12 => crate::h264::copy_slice(frame.pixels),
        };
        Ok(PreparedFrame { pixels, idr })
    }

    /// Records that a frame with timestamp `pts` went to the hardware.
    pub fn record_frame(&mut self, pts: Duration)
        requires
            old(self)@.frame_count < u64::MAX,
        ensures
            final(self)@ == (EncoderSessionModel {
                frame_count: (old(self)@.frame_count + 1) as u64,
                last_pts: Some(pts),
                ..old(self)@
            }),
    {
        proof { use_type_invariant(&*self); }
        self.frame_count = self.frame_count + 1;
        self.last_pts = Some(pts);
    }

    /// Records codec-config output (SPS/PPS) as the parameter sets.
    pub fn record_codec_config(&mut self, data: Vec<u8>)
        ensures
            final(self)@ == (EncoderSessionModel { parameter_sets: Some(data@), ..old(self)@ }),
    {
        proof { use_type_invariant(&*self); }
        self.parameter_sets = Some(data);
    }

    /// Turns an Annex-B access unit from the hardware into an encoded unit
    /// in the configured framing. It is a keyframe when the hardware flagged
    /// it or it holds an IDR slice; a keyframe's SPS/PPS, when present,
    /// become the parameter sets.
    pub fn output_unit(&mut self, annex_b: &[u8], keyframe_flag: bool, pts: Duration) -> (r: Result<
        EncodedUnit,
        Error,
    >)
        ensures
            spec_package_h264_output(annex_b@, old(self)@.config.bitstream) matches Err(e) ==> (r matches Err(
                e2,
            ) && e2 == e && final(self)@ == old(self)@),
            spec_package_h264_output(annex_b@, old(self)@.config.bitstream) matches Ok(data) ==> {
                let keyframe = keyframe_flag || has_unit_of_type(annex_b_nal_units(annex_b@), 5);
                &&& r matches Ok(u) && u.data@ == data && u.is_keyframe == keyframe && u.pts == pts && u.dts is None
                    && u.bitstream == old(self)@.config.bitstream
                &&& final(self)@ == (EncoderSessionModel {
                    parameter_sets: next_parameter_sets(old(self)@.parameter_sets, annex_b@, keyframe),
                    ..old(self)@
                })
            },
    {
        proof { use_type_invariant(&*self); }
        let data = match package_h264_output(annex_b, self.config.bitstream) {
            Ok(d) => d,
            Err(e) => return Err(e),
        };
        let keyframe = output_is_keyframe(keyframe_flag, annex_b);
        if keyframe {
            match keyframe_parameter_sets(annex_b) {
                Some(ps) => {
                    self.parameter_sets = Some(ps);
                },
                None => {},
            }
        }
        Ok(EncodedUnit::new(data, keyframe, pts, self.config.bitstream))
    }

    /// Handles one length-prefixed output sample of a Media Foundation
    /// encoder for the frame with timestamp `pts`: re-frames it as Annex-B
    /// (a sample that does not parse fails with a backend error carrying
    /// the parse error's text), makes the encoded unit as
    /// [`Self::output_unit`] does, and counts the frame.
    pub fn output_sample(&mut self, sample: &[u8], idr_requested: bool, pts: Duration) -> (r: Result<
        EncodedUnit,
        Error,
    >)
        requires
            old(self)@.frame_count < u64::MAX,
        ensures
            spec_length_prefixed_to_annex_b(sample@) matches Err(f) ==> (r matches Err(Error::Backend { message })
                && message@ == error_text(f) && final(self)@ == old(self)@),
            spec_length_prefixed_to_annex_b(sample@) matches Ok(annex_b) ==> {
                &&& spec_package_h264_output(annex_b, old(self)@.config.bitstream) matches Err(e) ==> (r matches Err(
                    e2,
                ) && e2 == e && final(self)@ == old(self)@)
                &&& spec_package_h264_output(annex_b, old(self)@.config.bitstream) matches Ok(data) ==> {
                    let keyframe = idr_requested || has_unit_of_type(annex_b_nal_units(annex_b), 5);
                    &&& r matches Ok(u) && u.data@ == data && u.is_keyframe == keyframe && u.pts == pts
                        && u.bitstream == old(self)@.config.bitstream
                    &&& final(self)@ == (EncoderSessionModel {
                        parameter_sets: next_parameter_sets(old(self)@.parameter_sets, annex_b, keyframe),
                        frame_count: (old(self)@.frame_count + 1) as u64,
                        last_pts: Some(pts),
                        ..old(self)@
                    })
                }
            },
    {
        let annex_b = match length_prefixed_to_annex_b(sample) {
            Ok(v) => v,
            Err(e) => return Err(bitstream_err(e)),
        };
        let unit = match self.output_unit(annex_b.as_slice(), idr_requested, pts) {
            Ok(u) => u,
            Err(e) => return Err(e),
        };
        self.record_frame(pts);
        Ok(unit)
    }

    /// Handles every output sample a Media Foundation encoder produced for
    /// the frame with timestamp `pts`, in order, as
    /// [`Self::output_sample`] does; the first failing sample ends it with
    /// its error. No sample at all fails with a backend error.
    pub fn output_samples(&mut self, samples: &Vec<Vec<u8>>, idr_requested: bool, pts: Duration) -> (r: Result<
        Vec<EncodedUnit>,
        Error,
    >)
        requires
            old(self)@.frame_count + samples@.len() <= u64::MAX,
        ensures
            samples@.len() == 0 ==> final(self)@ == old(self)@ && (r matches Err(e) && is_backend_error(
                e,
                "encoder produced no output samples"@,
            )),
            samples@.len() > 0 ==> {
                let (units, reached, failed) = samples_outcome(
                    old(self)@,
                    samples@.map_values(|v: Vec<u8>| v@),
                    idr_requested,
                    pts,
                );
                &&& final(self)@ == reached
                &&& failed matches Some(k) ==> (r matches Err(e) && sample_failure(e, reached, samples@[k]@))
                &&& failed is None ==> (r matches Ok(v) && v@.len() == units.len() && forall|i: int|
                    0 <= i < units.len() ==> {
                        &&& (#[trigger] v@[i]).data@ == units[i].0
                        &&& v@[i].is_keyframe == units[i].1
                        &&& v@[i].pts == pts
                        &&& v@[i].bitstream == old(self)@.config.bitstream
                    })
            },
    {
        if samples.len() == 0 {
            return Err(Error::backend_str("encoder produced no output samples"));
        }
        let ghost all = samples@.map_values(|v: Vec<u8>| v@);
        let ghost start = self@;
        let mut out: Vec<EncodedUnit> = Vec::new();
        let mut i: usize = 0;
        while i < samples.len()
            invariant
                i <= samples@.len(),
                all == samples@.map_values(|v: Vec<u8>| v@),
                start == old(self)@,
                start.frame_count + samples@.len() <= u64::MAX,
                ({
                    let (units, reached, failed) = samples_outcome(start, all.subrange(0, i as int), idr_requested, pts);
                    &&& failed is None
                    &&& self@ == reached
                    &&& self@.frame_count == start.frame_count + i
                    &&& self@.config == start.config
                    &&& out@.len() == units.len()
                    &&& forall|j: int|
                        0 <= j < units.len() ==> {
                            &&& (#[trigger] out@[j]).data@ == units[j].0
                            &&& out@[j].is_keyframe == units[j].1
                            &&& out@[j].pts == pts
                            &&& out@[j].bitstream == start.config.bitstream
                        }
                }),
            decreases samples@.len() - i,
        {
            let ghost prefix = all.subrange(0, i as int);
            let ghost next = all.subrange(0, i + 1);
            assert(next.drop_last() =~= prefix);
            assert(next.last() == samples@[i as int]@);
            let ghost before = self@;
            let ghost before_units = samples_outcome(start, prefix, idr_requested, pts).0;
            match self.output_sample(samples[i].as_slice(), idr_requested, pts) {
                Ok(u) => {
                    assert(sample_outcome(before, next.last(), idr_requested, pts) == Some::<
                        ((Seq<u8>, bool), EncoderSessionModel),
                    >(((u.data@, u.is_keyframe), self@)));
                    assert(samples_outcome(start, next, idr_requested, pts) == (before_units.push(
                        (u.data@, u.is_keyframe),
                    ), self@, None::<int>));
                    let ghost out_before = out@;
                    out.push(u);
                    assert forall|j: int| 0 <= j < out@.len() implies {
                        let units = samples_outcome(start, next, idr_requested, pts).0;
                        &&& (#[trigger] out@[j]).data@ == units[j].0
                        &&& out@[j].is_keyframe == units[j].1
                        &&& out@[j].pts == pts
                        &&& out@[j].bitstream == start.config.bitstream
                    } by {
                        if j < before_units.len() {
                            assert(samples_outcome(start, next, idr_requested, pts).0[j] == before_units[j]);
                            assert(out@[j] == out_before[j]);
                        }
                    }
                },
                Err(e) => {
                    assert(self@ == before);
                    assert(sample_outcome(before, next.last(), idr_requested, pts) is None);
                    assert(sample_failure(e, before, samples@[i as int]@));
                    assert(samples_outcome(start, next, idr_requested, pts) == (before_units, before, Some(i as int)));
                    proof {
                        lemma_samples_failed_stays(start, all, idr_requested, pts, i as int);
                        assert(next == all.subrange(0, i as int + 1));
                        assert(samples_outcome(start, all, idr_requested, pts) == (before_units, before, Some(i as int)));
                        assert(all[i as int] == samples@[i as int]@);
                    }
                    return Err(e);
                },
            }
            i = i + 1;
        }
        assert(all.subrange(0, samples@.len() as int) =~= all);
        Ok(out)
    }

    /// Timestamp of the last encoded frame.
    pub fn last_encoded_pts(&self) -> (r: Option<Duration>)
        ensures
            r == self@.last_pts,
    {
        self.last_pts
    }

    /// The cached SPS/PPS, if any.
    pub fn parameter_sets(&self) -> (r: Option<Vec<u8>>)
        ensures
            opt_bytes(r) == self@.parameter_sets,
    {
        match &self.parameter_sets {
            Some(ps) => Some(crate::h264::copy_slice(ps.as_slice())),
            None => None,
        }
    }
}

/// Once a sample has failed, handling more samples changes nothing.
proof fn lemma_samples_failed_stays(m: EncoderSessionModel, all: Seq<Seq<u8>>, idr_requested: bool, pts: Duration, k: int)
    requires
        0 <= k < all.len(),
        samples_outcome(m, all.subrange(0, k + 1), idr_requested, pts).2 == Some(k),
    ensures
        samples_outcome(m, all, idr_requested, pts) == samples_outcome(m, all.subrange(0, k + 1), idr_requested, pts),
    decreases all.len(),
{
    if all.len() > k + 1 {
        assert(all.drop_last().subrange(0, k + 1) =~= all.subrange(0, k + 1));
        lemma_samples_failed_stays(m, all.drop_last(), idr_requested, pts, k);
    } else {
        assert(all.subrange(0, k + 1) =~= all);
    }
}

} // verus!
