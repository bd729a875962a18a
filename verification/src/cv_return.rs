use vstd::prelude::*;

verus! {

/// Status code returned by every fallible CoreVideo entry point.
///
/// One fixed value means success; every other value is surfaced to the
/// caller unchanged, as an opaque failure code.
pub type CVReturn = i32;

/// The single status value that means success.
pub const KCV_RETURN_SUCCESS: CVReturn = 0;

/// True exactly when `status` reports success.
pub fn is_success(status: CVReturn) -> (r: bool)
    ensures
        r == (status == KCV_RETURN_SUCCESS),
{
    status == KCV_RETURN_SUCCESS
}

} // verus!
