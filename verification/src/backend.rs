//! Backend registration for platform crates.

use vstd::prelude::*;

use crate::capability::{BackendId, CodecCapability};
use crate::codec::Direction;
use crate::decoder::{DecoderConfig, VideoDecoder};
use crate::encoder::{EncoderConfig, VideoEncoder};
use crate::error::Error;
use crate::registry::Registry;

verus! {

/// Platform backend that enumerates and opens codec instances.
pub trait Backend: Send + Sync {
    /// Stable backend identifier.
    fn id(&self) -> BackendId;

    /// Lists capabilities this backend exposes on the current host.
    fn enumerate(&self, direction: Direction) -> Vec<CodecCapability>;

    /// Opens an encoder for `cap` (must match [`Self::enumerate`] output).
    fn open_encoder(&self, cap: &CodecCapability, config: EncoderConfig) -> Result<Box<dyn VideoEncoder>, Error>;

    /// Opens a decoder for `cap`.
    fn open_decoder(&self, cap: &CodecCapability, config: DecoderConfig) -> Result<Box<dyn VideoDecoder>, Error>;
}

/// Registers a platform backend in `registry`, after the ones already there.
///
/// `enumerate` returns capabilities sorted by [`BackendId`] declaration order
/// (most-preferred backend first), then by [`crate::CodecId`].
pub fn register<B: Backend>(registry: &mut Registry<B>, backend: B)
    ensures
        final(registry)@.len() == old(registry)@.len() + 1,
        final(registry)@.subrange(0, old(registry)@.len() as int) == old(registry)@,
        call_ensures(B::id, (&backend,), final(registry)@.last()),
        final(registry).backends() == old(registry).backends().push(backend),
{
    registry.register(backend);
}

} // verus!
