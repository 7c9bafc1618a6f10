//! NVIDIA NVENC/NVDEC backend: capability probing from the encoder's codec
//! and profile lists and the decoder's caps, configuration checks and the
//! encode-session settings. The GPU is reached through
//! [`backend::NvencRuntime`].

use vstd::prelude::*;

use crate::error::{is_backend_error, Error};

pub mod backend;
pub mod decode;
pub mod h264;
pub mod probe;

verus! {

/// Registration on hosts other than Linux and Windows: always fails with a
/// backend error saying so.
pub fn try_register() -> (r: Result<(), Error>)
    ensures
        r matches Err(e) && is_backend_error(e, "NVENC/NVDEC is only available on Linux and Windows"@),
{
    Err(Error::backend_str("NVENC/NVDEC is only available on Linux and Windows"))
}

} // verus!
