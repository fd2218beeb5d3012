//! Status codes of the C-callable entry points.
use vstd::prelude::*;

verus! {

/// Status code for success.
pub const STATUS_OK: i32 = 1;

/// Status code for failure.
pub const STATUS_FAILED: i32 = 0;

/// The two-valued status code of an outcome: 1 for success, 0 for failure.
pub fn status_code(ok: bool) -> (r: i32)
    ensures
        r == (if ok { STATUS_OK } else { STATUS_FAILED }),
        r == 0 || r == 1,
{
    if ok {
        STATUS_OK
    } else {
        STATUS_FAILED
    }
}

} // verus!
