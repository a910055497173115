//! The safe-call-wrapper logic around the native conversion primitive:
//! validating buffer lengths against the primitive's signed 32-bit size
//! parameters, and translating its ambiguous zero return into a typed
//! error.  The native call itself is the caller's to perform; every
//! decision around it is made and proved here.

use vstd::prelude::*;

use crate::codes::ERROR_INVALID_PARAMETER;
use crate::codes::NATIVE_LEN_MAX;
use crate::codes::OsResult;

verus! {

/// Check that a buffer length fits the native calls' signed 32-bit size
/// parameter.  A length that does not fit fails with "invalid parameter"
/// before any native call is made; an unchecked cast is never handed down.
pub fn check_buffer_len(len: usize) -> (r: OsResult<i32>)
    ensures
        len <= NATIVE_LEN_MAX ==> r == Ok::<i32, u32>(len as i32),
        len > NATIVE_LEN_MAX ==> r == Err::<i32, u32>(ERROR_INVALID_PARAMETER),
{
    if len <= NATIVE_LEN_MAX {
        Ok(len as i32)
    } else {
        Err(ERROR_INVALID_PARAMETER)
    }
}

/// Translate the native calls' return convention: a zero return means the
/// call failed and the platform's last-error code - which the caller must
/// read immediately after the failing call - is the error; a positive
/// return is the number of units written or required.  The native calls
/// never report a negative count, so that case is excluded here.
pub fn interpret_native_return(ret: i32, last_error: u32) -> (r: OsResult<usize>)
    requires
        ret >= 0,
    ensures
        ret == 0 ==> r == Err::<usize, u32>(last_error),
        ret > 0 ==> r == Ok::<usize, u32>(ret as usize),
{
    if ret == 0 {
        Err(last_error)
    } else {
        Ok(ret as usize)
    }
}

} // verus!
