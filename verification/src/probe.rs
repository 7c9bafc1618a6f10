//! Capability probing and codec session opening over a backend registry.

use vstd::prelude::*;

use crate::backend::Backend;
use crate::capability::CodecCapability;
use crate::codec::{CodecId, Direction};
use crate::decoder::{spec_validate_decoder_config, DecoderConfig, VideoDecoder};
use crate::encoder::{spec_validate_encoder_config, EncoderConfig, VideoEncoder};
use crate::error::Error;
use crate::registry::{answers_enumerate, first_with, for_codec, gathered, models, sorted_capabilities, Registry};

verus! {

/// Lists all encode or decode capabilities exposed by the registered
/// backends, sorted by backend preference (declaration order of
/// [`crate::BackendId`]) and then by [`CodecId`].
pub fn enumerate<B: Backend>(registry: &Registry<B>, direction: Direction) -> (r: Vec<CodecCapability>)
    ensures
        exists|lists: Seq<Vec<CodecCapability>>|
            answers_enumerate(registry.backends(), direction, lists) && models(r@) == sorted_capabilities(
                #[trigger] gathered(lists),
            ),
{
    registry.enumerate(direction)
}

/// Lists capabilities for one codec family and direction, in the order of
/// [`enumerate`].
pub fn enumerate_codec<B: Backend>(registry: &Registry<B>, codec: CodecId, direction: Direction) -> (r: Vec<CodecCapability>)
    ensures
        exists|lists: Seq<Vec<CodecCapability>>|
            answers_enumerate(registry.backends(), direction, lists) && models(r@) == for_codec(
                sorted_capabilities(#[trigger] gathered(lists)),
                codec,
            ),
{
    registry.enumerate_codec(codec, direction)
}

/// Opens an encoder for the given capability descriptor.
///
/// Fails with `InvalidConfig` when `cap` is not an encode capability or its
/// codec differs from `config.codec`, with the error of
/// [`EncoderConfig::validate`] when the config is invalid, and with
/// `NoBackend` when no registered backend has `cap.backend` as identifier.
pub fn open_encoder<B: Backend>(registry: &Registry<B>, cap: &CodecCapability, config: EncoderConfig) -> (r: Result<
    Box<dyn VideoEncoder>,
    Error,
>)
    ensures
        cap.direction != Direction::Encode ==> (r matches Err(e) && e == Error::InvalidConfig(
            "capability is not an encoder",
        )),
        cap.direction == Direction::Encode && config.codec != cap.codec ==> (r matches Err(e) && e
            == Error::InvalidConfig("config codec does not match capability")),
        cap.direction == Direction::Encode && config.codec == cap.codec ==> {
            &&& spec_validate_encoder_config(config) matches Err(e) ==> (r matches Err(e2) && e2 == e)
            &&& spec_validate_encoder_config(config) is Ok && !registry@.contains(cap.backend) ==> (r matches Err(
                e2,
            ) && e2 == (Error::NoBackend {
                codec: cap.codec,
                backend: cap.backend,
                direction: cap.direction,
            }))
       
            &&& spec_validate_encoder_config(config) is Ok && registry@.contains(cap.backend) ==> exists|i: int|
                first_with(registry@, cap.backend, i) && call_ensures(
                    B::open_encoder,
                    (&#[trigger] registry.backends()[i], cap, config),
                    r,
                )
        },
{
    if cap.direction != Direction::Encode {
        return Err(Error::InvalidConfig("capability is not an encoder"));
    }
    if config.codec != cap.codec {
        return Err(Error::InvalidConfig("config codec does not match capability"));
    }
    registry.open_encoder(cap, config)
}

/// Opens a decoder for the given capability descriptor.
///
/// Fails with `InvalidConfig` when `cap` is not a decode capability or its
/// codec differs from `config.codec`, with the error of
/// [`DecoderConfig::validate`] when the config is invalid, and with
/// `NoBackend` when no registered backend has `cap.backend` as identifier.
pub fn open_decoder<B: Backend>(registry: &Registry<B>, cap: &CodecCapability, config: DecoderConfig) -> (r: Result<
    Box<dyn VideoDecoder>,
    Error,
>)
    ensures
        cap.direction != Direction::Decode ==> (r matches Err(e) && e == Error::InvalidConfig(
            "capability is not a decoder",
        )),
        cap.direction == Direction::Decode && config.codec != cap.codec ==> (r matches Err(e) && e
            == Error::InvalidConfig("config codec does not match capability")),
        cap.direction == Direction::Decode && config.codec == cap.codec ==> {
            &&& spec_validate_decoder_config(config) matches Err(e) ==> (r matches Err(e2) && e2 == e)
            &&& spec_validate_decoder_config(config) is Ok && !registry@.contains(cap.backend) ==> (r matches Err(
                e2,
            ) && e2 == (Error::NoBackend {
                codec: cap.codec,
                backend: cap.backend,
                direction: cap.direction,
            }))
       
            &&& spec_validate_decoder_config(config) is Ok && registry@.contains(cap.backend) ==> exists|i: int|
                first_with(registry@, cap.backend, i) && call_ensures(
                    B::open_decoder,
                    (&#[trigger] registry.backends()[i], cap, config),
                    r,
                )
        },
{
    if cap.direction != Direction::Decode {
        return Err(Error::InvalidConfig("capability is not a decoder"));
    }
    if config.codec != cap.codec {
        return Err(Error::InvalidConfig("config codec does not match capability"));
    }
    registry.open_decoder(cap, config)
}

/// Clears all registered backends.
pub fn reset_registry<B: Backend>(registry: &mut Registry<B>)
    ensures
        final(registry)@ == Seq::<crate::capability::BackendId>::empty(),
        final(registry).backends() == Seq::<B>::empty(),
{
    registry.clear();
}

} // verus!
