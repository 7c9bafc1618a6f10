//! [`Backend`] implementation for NVIDIA NVENC/NVDEC.

use vstd::prelude::*;

use crate::backend::Backend;
use crate::capability::{BackendId, CapabilityModel, CodecCapability};
use crate::codec::{CodecId, Direction, Profile};
use crate::decoder::{DecoderConfig, VideoDecoder};
use crate::encoder::{EncoderConfig, VideoEncoder};
use crate::error::{is_backend_error, Error};
use crate::nvenc::h264::{
    spec_validate_decoder_config, spec_validate_encoder_config, validate_decoder_config,
    validate_encoder_config,
};
use crate::nvenc::probe::{nvenc_answers, nvenc_models, probe, query_error};
use crate::platform::{capabilities_for_direction, with_direction};
use crate::registry::{models, Registry};

verus! {

/// The GPU side of NVENC/NVDEC on one CUDA device: encoder and decoder
/// capability queries and the hardware H.264 sessions. Implemented over the
/// CUDA and Video Codec SDK bindings by the host application.
pub trait NvencRuntime: Send + Sync {
    /// Whether an NVENC encoder session can be initialized on the device.
    fn encoder_available(&self) -> bool;

    /// Whether the encoder lists `codec` among its codec GUIDs.
    fn encode_codec_listed(&self, codec: CodecId) -> Result<bool, Error>;

    /// The profiles of the encoder's profile GUIDs for `codec` that have a
    /// vidcodec counterpart, in the encoder's order.
    fn encode_profiles(&self, codec: CodecId) -> Result<Vec<Profile>, Error>;

    /// NVDEC's H.264 4:2:0 8-bit decode caps: `None` when unsupported,
    /// otherwise the maximum width and height it reports.
    fn h264_decode_caps(&self) -> Result<Option<(u32, u32)>, Error>;

    /// Starts a hardware H.264 encoder session for a config that passed
    /// [`validate_encoder_config`].
    fn open_h264_encoder(&self, capability: CodecCapability, config: EncoderConfig) -> Result<Box<dyn VideoEncoder>, Error>;

    /// Starts a hardware H.264 decoder session for a config that passed
    /// [`validate_decoder_config`].
    fn open_h264_decoder(&self, capability: CodecCapability, config: DecoderConfig) -> Result<Box<dyn VideoDecoder>, Error>;
}

/// NVENC/NVDEC backend with the capabilities probed at creation.
pub struct NvencBackend<R: NvencRuntime> {
    runtime: R,
    capabilities: Vec<CodecCapability>,
}

impl<R: NvencRuntime> NvencBackend<R> {
    /// The probed capabilities.
    pub closed spec fn capability_models(&self) -> Seq<CapabilityModel> {
        models(self.capabilities@)
    }

    /// The GPU runtime the backend opens sessions through.
    pub closed spec fn runtime_of(&self) -> R {
        self.runtime
    }

    /// Probes the GPU through `runtime`. A query failure is handed on;
    /// otherwise the backend holds `runtime` and the capabilities of its
    /// answers.
    pub fn new(runtime: R) -> (r: Result<Self, Error>)
        ensures
            r matches Err(e) ==> query_error(&runtime, e),
            r matches Ok(b) ==> b.runtime_of() == runtime && exists|
                e: bool,
                l1: bool,
                p1: Seq<Profile>,
                l2: bool,
                p2: Seq<Profile>,
                l3: bool,
                d: Option<(u32, u32)>,
            |
                #[trigger] nvenc_answers(&runtime, e, l1, p1, l2, p2, l3, d) && b.capability_models()
                    == nvenc_models(e, l1, p1, l2, p2, l3, d),
    {
        match probe(&runtime) {
            Ok(capabilities) => Ok(NvencBackend { runtime, capabilities }),
            Err(e) => Err(e),
        }
    }

    /// Whether the probe found no capability at all.
    pub fn has_no_capabilities(&self) -> (r: bool)
        ensures
            r == (self.capability_models().len() == 0),
    {
        self.capabilities.len() == 0
    }
}

impl<R: NvencRuntime> Backend for NvencBackend<R> {
    fn id(&self) -> (r: BackendId)
        ensures
            r == BackendId::Nvenc,
    {
        BackendId::Nvenc
    }

    fn enumerate(&self, direction: Direction) -> (r: Vec<CodecCapability>)
        ensures
            models(r@) == with_direction(self.capability_models(), direction),
    {
        capabilities_for_direction(&self.capabilities, direction)
    }

    fn open_encoder(&self, cap: &CodecCapability, config: EncoderConfig) -> (r: Result<Box<dyn VideoEncoder>, Error>)
        ensures
            cap.backend != BackendId::Nvenc || cap.direction != Direction::Encode ==> (r matches Err(e)
                && e == Error::InvalidConfig("capability mismatch")),
            cap.backend == BackendId::Nvenc && cap.direction == Direction::Encode && cap.codec
                != CodecId::H264 ==> (r matches Err(e) && e == Error::NotImplemented(
                "NVENC encoder for this codec",
            )),
            cap.backend == BackendId::Nvenc && cap.direction == Direction::Encode && cap.codec
                == CodecId::H264 ==> (spec_validate_encoder_config(config, cap@) matches Err(e) ==> (r matches Err(
                e2,
            ) && e2 == e)),
            cap.backend == BackendId::Nvenc && cap.direction == Direction::Encode && cap.codec
                == CodecId::H264 && spec_validate_encoder_config(config, cap@) is Ok ==> exists|c: CodecCapability|
                c@ == cap@ && call_ensures(R::open_h264_encoder, (&self.runtime_of(), c, config), r),
    {
        if cap.backend != BackendId::Nvenc || cap.direction != Direction::Encode {
            return Err(Error::InvalidConfig("capability mismatch"));
        }
        match cap.codec {
            CodecId::H264 => {
                match validate_encoder_config(&config, cap) {
                    Ok(()) => {},
                    Err(e) => return Err(e),
                }
                let c = cap.duplicate();
                self.runtime.open_h264_encoder(c, config)
            },
            _ => Err(Error::NotImplemented("NVENC encoder for this codec")),
        }
    }

    fn open_decoder(&self, cap: &CodecCapability, config: DecoderConfig) -> (r: Result<Box<dyn VideoDecoder>, Error>)
        ensures
            cap.backend != BackendId::Nvenc || cap.direction != Direction::Decode ==> (r matches Err(e)
                && e == Error::InvalidConfig("capability mismatch")),
            cap.backend == BackendId::Nvenc && cap.direction == Direction::Decode && cap.codec
                != CodecId::H264 ==> (r matches Err(e) && e == Error::NotImplemented(
                "NVDEC decoder for this codec",
            )),
            cap.backend == BackendId::Nvenc && cap.direction == Direction::Decode && cap.codec
                == CodecId::H264 ==> (spec_validate_decoder_config(config) matches Err(e) ==> (r matches Err(
                e2,
            ) && e2 == e)),
            cap.backend == BackendId::Nvenc && cap.direction == Direction::Decode && cap.codec
                == CodecId::H264 && spec_validate_decoder_config(config) is Ok ==> exists|c: CodecCapability|
                c@ == cap@ && call_ensures(R::open_h264_decoder, (&self.runtime_of(), c, config), r),
    {
        if cap.backend != BackendId::Nvenc || cap.direction != Direction::Decode {
            return Err(Error::InvalidConfig("capability mismatch"));
        }
        match cap.codec {
            CodecId::H264 => {
                match validate_decoder_config(&config) {
                    Ok(()) => {},
                    Err(e) => return Err(e),
                }
                let c = cap.duplicate();
                self.runtime.open_h264_decoder(c, config)
            },
            _ => Err(Error::NotImplemented("NVDEC decoder for this codec")),
        }
    }
}

/// Registers a probed backend when it found any capability;
/// otherwise fails with a backend error and leaves `registry` unchanged.
pub fn register_probed<R: NvencRuntime>(registry: &mut Registry<NvencBackend<R>>, backend: NvencBackend<R>) -> (r: Result<
    (),
    Error,
>)
    ensures
        backend.capability_models().len() > 0 ==> r is Ok && final(registry)@ == old(registry)@.push(
            BackendId::Nvenc,
        ) && final(registry).backends() == old(registry).backends().push(backend),
        backend.capability_models().len() == 0 ==> final(registry)@ == old(registry)@ && final(registry).backends()
            == old(registry).backends() && (r matches Err(e) && is_backend_error(
            e,
            "NVENC/NVDEC: no capabilities found"@,
        )),
{
    if backend.has_no_capabilities() {
        return Err(Error::backend_str("NVENC/NVDEC: no capabilities found"));
    }
    let id = backend.id();
    registry.insert(id, backend);
    Ok(())
}

/// Probes NVENC/NVDEC through `runtime` and registers the backend when the
/// GPU has any encode or decode capability (see [`register_probed`]).
pub fn try_register<R: NvencRuntime>(registry: &mut Registry<NvencBackend<R>>, runtime: R) -> (r: Result<(), Error>)
    ensures
        r is Ok ==> final(registry)@ == old(registry)@.push(BackendId::Nvenc) && exists|b: NvencBackend<R>|
            #![trigger old(registry).backends().push(b)]
            final(registry).backends() == old(registry).backends().push(b) && b.runtime_of() == runtime && exists|
                e: bool,
                l1: bool,
                p1: Seq<Profile>,
                l2: bool,
                p2: Seq<Profile>,
                l3: bool,
                d: Option<(u32, u32)>,
            |
                #[trigger] nvenc_answers(&runtime, e, l1, p1, l2, p2, l3, d) && b.capability_models()
                    == nvenc_models(e, l1, p1, l2, p2, l3, d) && nvenc_models(e, l1, p1, l2, p2, l3, d).len() > 0,
        r matches Err(err) ==> final(registry)@ == old(registry)@ && final(registry).backends() == old(
            registry,
        ).backends() && (query_error(&runtime, err) || (is_backend_error(err, "NVENC/NVDEC: no capabilities found"@)
            && exists|
            e: bool,
            l1: bool,
            p1: Seq<Profile>,
            l2: bool,
            p2: Seq<Profile>,
            l3: bool,
            d: Option<(u32, u32)>,
        |
            #[trigger] nvenc_answers(&runtime, e, l1, p1, l2, p2, l3, d) && nvenc_models(e, l1, p1, l2, p2, l3, d).len()
                == 0)),
{
    let backend = match NvencBackend::new(runtime) {
        Ok(b) => b,
        Err(e) => return Err(e),
    };
    register_probed(registry, backend)
}

} // verus!
