//! Judging the status code of a response.

use vstd::prelude::*;

verus! {

/// The status codes that count as success: 200 up to and including 299.
pub open spec fn success(code: u32) -> bool {
    200 <= code < 300
}

/// Whether a response with this status code lets the run go on.
pub fn is_success(code: u32) -> (ok: bool)
    ensures
        ok == success(code),
{
    !(code < 200 || code >= 300)
}

} // verus!
