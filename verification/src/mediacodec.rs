//! Android MediaCodec backend: capability probing, configuration checks and
//! the decisions of its H.264 encoder and decoder sessions. The device
//! itself is reached through [`backend::MediaCodecRuntime`].

use vstd::prelude::*;

use crate::error::{is_backend_error, Error};

pub mod backend;
pub mod h264;
pub mod probe;
pub mod profile;

verus! {

/// Registration on hosts without Android MediaCodec: always fails with a
/// backend error saying so.
pub fn try_register() -> (r: Result<(), Error>)
    ensures
        r matches Err(e) && is_backend_error(e, "MediaCodec backend is only available on Android"@),
{
    Err(Error::backend_str("MediaCodec backend is only available on Android"))
}

} // verus!
