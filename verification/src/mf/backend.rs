//! [`Backend`] implementation for Windows Media Foundation.

use vstd::prelude::*;

use crate::backend::Backend;
use crate::capability::{BackendId, CapabilityModel, CodecCapability};
use crate::codec::{CodecId, Direction};
use crate::decoder::{DecoderConfig, VideoDecoder};
use crate::encoder::{EncoderConfig, VideoEncoder};
use crate::error::{is_backend_error, Error};
use crate::mf::h264::{
    spec_validate_decoder_config, spec_validate_encoder_config, validate_decoder_config,
    validate_encoder_config,
};
use crate::mf::probe::{probe, probe_models};
use crate::platform::{capabilities_for_direction, with_direction};
use crate::registry::{models, Registry};

verus! {

/// The host side of Media Foundation: COM/MF start-up, transform discovery
/// and the hardware H.264 sessions. Implemented over the Windows API by the
/// host application.
pub trait MediaFoundationRuntime: Send + Sync {
    /// Initializes COM and Media Foundation for the calling thread.
    fn initialize(&self) -> Result<(), Error>;

    /// Whether an H.264 encoder transform can be created.
    fn h264_encoder_available(&self) -> bool;

    /// Whether an H.264 decoder transform can be created.
    fn h264_decoder_available(&self) -> bool;

    /// Starts a hardware H.264 encoder session for a config that passed
    /// [`validate_encoder_config`].
    fn open_h264_encoder(&self, capability: CodecCapability, config: EncoderConfig) -> Result<Box<dyn VideoEncoder>, Error>;

    /// Starts a hardware H.264 decoder session for a config that passed
    /// [`validate_decoder_config`].
    fn open_h264_decoder(&self, capability: CodecCapability, config: DecoderConfig) -> Result<Box<dyn VideoDecoder>, Error>;
}

/// Media Foundation backend with the capabilities probed at creation.
pub struct MfBackend<R: MediaFoundationRuntime> {
    runtime: R,
    capabilities: Vec<CodecCapability>,
}

impl<R: MediaFoundationRuntime> MfBackend<R> {
    /// The probed capabilities.
    pub closed spec fn capability_models(&self) -> Seq<CapabilityModel> {
        models(self.capabilities@)
    }

    /// The host runtime the backend opens sessions through.
    pub closed spec fn runtime_of(&self) -> R {
        self.runtime
    }

    /// Initializes Media Foundation and probes the host through `runtime`.
    ///
    /// An initialization failure is handed on; otherwise the backend holds
    /// `runtime` and the capabilities of the transforms it reports.
    pub fn new(runtime: R) -> (r: Result<Self, Error>)
        ensures
            r matches Err(e) ==> call_ensures(R::initialize, (&runtime,), Err::<(), Error>(e)),
            r matches Ok(b) ==> b.runtime_of() == runtime && exists|e: bool, d: bool|
                #![trigger probe_models(e, d)]
                call_ensures(R::h264_encoder_available, (&runtime,), e) && call_ensures(
                    R::h264_decoder_available,
                    (&runtime,),
                    d,
                ) && b.capability_models() == probe_models(e, d),
    {
        match runtime.initialize() {
            Ok(()) => {},
            Err(e) => return Err(e),
        }
        match probe(&runtime) {
            Ok(capabilities) => Ok(MfBackend { runtime, capabilities }),
            Err(e) => Err(e),
        }
    }

    /// Whether the probe found no capability at all.
    pub fn has_no_capabilities(&self) -> (r: bool)
        ensures
            r == (self.capability_models().len() == 0),
    {
        self.capabilities.len() == 0
    }
}

impl<R: MediaFoundationRuntime> Backend for MfBackend<R> {
    fn id(&self) -> (r: BackendId)
        ensures
            r == BackendId::MediaFoundation,
    {
        BackendId::MediaFoundation
    }

    fn enumerate(&self, direction: Direction) -> (r: Vec<CodecCapability>)
        ensures
            models(r@) == with_direction(self.capability_models(), direction),
    {
        capabilities_for_direction(&self.capabilities, direction)
    }

    fn open_encoder(&self, cap: &CodecCapability, config: EncoderConfig) -> (r: Result<Box<dyn VideoEncoder>, Error>)
        ensures
            cap.backend != BackendId::MediaFoundation || cap.direction != Direction::Encode ==> (r matches Err(e)
                && e == Error::InvalidConfig("capability mismatch")),
            cap.backend == BackendId::MediaFoundation && cap.direction == Direction::Encode && cap.codec
                != CodecId::H264 ==> (r matches Err(e) && e == Error::NotImplemented(
                "MF encoder for this codec",
            )),
            cap.backend == BackendId::MediaFoundation && cap.direction == Direction::Encode && cap.codec
                == CodecId::H264 ==> (spec_validate_encoder_config(config, cap@) matches Err(e) ==> (r matches Err(
                e2,
            ) && e2 == e)),
            cap.backend == BackendId::MediaFoundation && cap.direction == Direction::Encode && cap.codec
                == CodecId::H264 && spec_validate_encoder_config(config, cap@) is Ok ==> exists|c: CodecCapability|
                c@ == cap@ && call_ensures(R::open_h264_encoder, (&self.runtime_of(), c, config), r),
    {
        if cap.backend != BackendId::MediaFoundation || cap.direction != Direction::Encode {
            return Err(Error::InvalidConfig("capability mismatch"));
        }
        match cap.codec {
            CodecId::H264 => {
                match validate_encoder_config(&config, cap) {
                    Ok(()) => {},
                    Err(e) => return Err(e),
                }
                let c = cap.duplicate();
                self.runtime.open_h264_encoder(c, config)
            },
            _ => Err(Error::NotImplemented("MF encoder for this codec")),
        }
    }

    fn open_decoder(&self, cap: &CodecCapability, config: DecoderConfig) -> (r: Result<Box<dyn VideoDecoder>, Error>)
        ensures
            cap.backend != BackendId::MediaFoundation || cap.direction != Direction::Decode ==> (r matches Err(e)
                && e == Error::InvalidConfig("capability mismatch")),
            cap.backend == BackendId::MediaFoundation && cap.direction == Direction::Decode && cap.codec
                != CodecId::H264 ==> (r matches Err(e) && e == Error::NotImplemented(
                "MF decoder for this codec",
            )),
            cap.backend == BackendId::MediaFoundation && cap.direction == Direction::Decode && cap.codec
                == CodecId::H264 ==> (spec_validate_decoder_config(config) matches Err(e) ==> (r matches Err(
                e2,
            ) && e2 == e)),
            cap.backend == BackendId::MediaFoundation && cap.direction == Direction::Decode && cap.codec
                == CodecId::H264 && spec_validate_decoder_config(config) is Ok ==> exists|c: CodecCapability|
                c@ == cap@ && call_ensures(R::open_h264_decoder, (&self.runtime_of(), c, config), r),
    {
        if cap.backend != BackendId::MediaFoundation || cap.direction != Direction::Decode {
            return Err(Error::InvalidConfig("capability mismatch"));
        }
        match cap.codec {
            CodecId::H264 => {
                match validate_decoder_config(&config) {
                    Ok(()) => {},
                    Err(e) => return Err(e),
                }
                let c = cap.duplicate();
                self.runtime.open_h264_decoder(c, config)
            },
            _ => Err(Error::NotImplemented("MF decoder for this codec")),
        }
    }
}

/// Registers a probed backend when it found an H.264 encoder or decoder;
/// otherwise fails with a backend error and leaves `registry` unchanged.
pub fn register_probed<R: MediaFoundationRuntime>(registry: &mut Registry<MfBackend<R>>, backend: MfBackend<R>) -> (r: Result<
    (),
    Error,
>)
    ensures
        backend.capability_models().len() > 0 ==> r is Ok && final(registry)@ == old(registry)@.push(
            BackendId::MediaFoundation,
        ) && final(registry).backends() == old(registry).backends().push(backend),
        backend.capability_models().len() == 0 ==> final(registry)@ == old(registry)@ && final(registry).backends()
            == old(registry).backends() && (r matches Err(e) && is_backend_error(
            e,
            "Media Foundation: no H.264 capabilities found"@,
        )),
{
    if backend.has_no_capabilities() {
        return Err(Error::backend_str("Media Foundation: no H.264 capabilities found"));
    }
    let id = backend.id();
    registry.insert(id, backend);
    Ok(())
}

/// Probes Media Foundation through `runtime` and registers the backend when
/// the host has an H.264 encoder or decoder (see [`register_probed`]).
pub fn try_register<R: MediaFoundationRuntime>(registry: &mut Registry<MfBackend<R>>, runtime: R) -> (r: Result<(), Error>)
    ensures
        r is Ok ==> final(registry)@ == old(registry)@.push(BackendId::MediaFoundation) && exists|b: MfBackend<R>|
            #![trigger old(registry).backends().push(b)]
            final(registry).backends() == old(registry).backends().push(b) && b.runtime_of() == runtime && exists|
                e: bool,
                d: bool,
            |
                #![trigger probe_models(e, d)]
                call_ensures(R::h264_encoder_available, (&runtime,), e) && call_ensures(
                    R::h264_decoder_available,
                    (&runtime,),
                    d,
                ) && b.capability_models() == probe_models(e, d) && probe_models(e, d).len() > 0,
        r matches Err(err) ==> final(registry)@ == old(registry)@ && final(registry).backends() == old(
            registry,
        ).backends() && (call_ensures(R::initialize, (&runtime,), Err::<(), Error>(err)) || (is_backend_error(
            err,
            "Media Foundation: no H.264 capabilities found"@,
        ) && exists|e: bool, d: bool|
            #![trigger probe_models(e, d)]
            call_ensures(R::h264_encoder_available, (&runtime,), e) && call_ensures(
                R::h264_decoder_available,
                (&runtime,),
                d,
            ) && probe_models(e, d).len() == 0)),
{
    let backend = match MfBackend::new(runtime) {
        Ok(b) => b,
        Err(e) => return Err(e),
    };
    register_probed(registry, backend)
}

} // verus!
