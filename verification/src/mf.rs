//! Windows Media Foundation backend: capability probing, configuration
//! checks, media-type attributes and the decisions of its H.264 sessions.
//! The transforms themselves are reached through
//! [`backend::MediaFoundationRuntime`].

use vstd::prelude::*;

use crate::error::{is_backend_error, Error};

pub mod backend;
pub mod h264;
pub mod media_type;
pub mod probe;
pub mod profile;

verus! {

/// Registration on hosts without Media Foundation: always fails with a
/// backend error saying so.
pub fn try_register() -> (r: Result<(), Error>)
    ensures
        r matches Err(e) && is_backend_error(e, "Media Foundation backend is only available on Windows"@),
{
    Err(Error::backend_str("Media Foundation backend is only available on Windows"))
}

} // verus!
