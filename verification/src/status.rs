//! Classification of HTTP status codes.

use vstd::prelude::*;

verus! {

/// A status code counts as a success exactly when it lies in `200..=299`.
pub open spec fn spec_is_success(status: u16) -> bool {
    200 <= status && status < 300
}

/// Tells whether an HTTP status code reports success.
pub fn is_success(status: u16) -> (ok: bool)
    ensures
        ok == spec_is_success(status),
{
    200 <= status && status < 300
}

} // verus!
