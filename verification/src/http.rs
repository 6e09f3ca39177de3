//! The slice of HTTP that the cycle decisions read: a status code and
//! whether the response set a cookie, or a transport-level failure.

use vstd::prelude::*;

verus! {

/// An HTTP status code counts as a success exactly when it lies in the
/// 2xx range.
pub open spec fn spec_is_success(status: u16) -> bool {
    200 <= status < 300
}

/// Executable test for a 2xx status code.
pub fn is_success_status(status: u16) -> (r: bool)
    ensures
        r == spec_is_success(status),
{
    200 <= status && status < 300
}

/// What one outbound POST produced, as far as the cycle decisions care:
/// a response with its status code and whether any cookie was set, or a
/// transport-level failure described by its cause.
pub enum HttpResult {
    Response { status: u16, had_cookie: bool },
    Failed { cause: String },
}

} // verus!
