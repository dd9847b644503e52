//! Status codes of the native library as typed errors.

use vstd::prelude::*;

verus! {

/// A failure that the native library reported.
#[derive(Clone, Copy, Debug, PartialEq, Eq, Structural)]
pub enum Error {
    /// The status code of a native call that did not return zero.
    Raw(i32),
}

/// What a native call that returned `err` means for a caller who would otherwise get `ret`.
pub open spec fn spec_mpv_err<T>(ret: T, err: i32) -> Result<T, Error> {
    if err == 0 {
        Ok(ret)
    } else {
        Err(Error::Raw(err))
    }
}

/// Turns the status code of a native call into a `Result`: `ret` for zero, the code itself for
/// anything else.
pub fn mpv_err<T>(ret: T, err: i32) -> (res: Result<T, Error>)
    ensures
        res == spec_mpv_err(ret, err),
{
    if err == 0 {
        Ok(ret)
    } else {
        Err(Error::Raw(err))
    }
}

} // verus!
