//! VA-API (`libva`) status and profile values used by the Linux backend.

use vstd::prelude::*;

verus! {

/// `VA_STATUS_SUCCESS`.
pub const VA_STATUS_SUCCESS: i32 = 0;

/// `VAProfileH264Main`.
#[allow(non_upper_case_globals)]
pub const VAProfile_VAProfileH264Main: i32 = 6;

/// `VAProfileH264High`.
#[allow(non_upper_case_globals)]
pub const VAProfile_VAProfileH264High: i32 = 7;

/// `VAProfileH264ConstrainedBaseline`.
#[allow(non_upper_case_globals)]
pub const VAProfile_VAProfileH264ConstrainedBaseline: i32 = 13;

/// Returns `true` when `status` (a `VAStatus`) is success
/// ([`VA_STATUS_SUCCESS`]).
pub fn status_ok(status: i32) -> (r: bool)
    ensures
        r == (status == VA_STATUS_SUCCESS),
{
    status == VA_STATUS_SUCCESS
}

} // verus!
