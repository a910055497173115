//! The public conversion entry points.
//!
//! `utf8_to_wide` is the multibyte-to-wide path under the universal UTF-8
//! code page: for valid UTF-8 - which every `&str` is - the conversion is
//! total and lossless, so it is computed directly and proved against the
//! UTF-16 encoding; the only failure left is a source whose byte length
//! does not fit the native size parameter.  `wide_to_mb` and
//! `wide_to_mb_lossy` must consult the target code page's tables, which
//! only the native primitive knows: they validate and normalize the input
//! and hand back a [`WideToMb`] driver that decides the rest of the
//! protocol call by call.

use vstd::prelude::*;

use crate::codes::ERROR_INVALID_PARAMETER;
use crate::codes::NATIVE_LEN_MAX;
use crate::codes::OsResult;
use crate::codes::WC_NO_BEST_FIT_CHARS;
use crate::driver::normalized_wide;
use crate::driver::WideToMb;
use crate::wide::encode_wide_units;
use crate::wide::utf16_seq;

verus! {

/// Convert a UTF-8 string to a wide (UTF-16) unit sequence.
///
/// The conversion is lossless and total for valid UTF-8: an empty source
/// is normalized to a single NUL byte and so yields exactly one NUL unit,
/// and any other source yields its UTF-16 encoding.  The one remaining
/// failure is a byte length beyond the native calls' signed 32-bit size
/// parameter, rejected as "invalid parameter" before any conversion.
pub fn utf8_to_wide(x: &str) -> (r: OsResult<Vec<u16>>)
    ensures
        vstd::utf8::encode_utf8(x@).len() <= NATIVE_LEN_MAX ==> (r matches Ok(v) && v@ == (
        if x@.len() == 0 {
            seq![0u16]
        } else {
            utf16_seq(x@)
        })),
        vstd::utf8::encode_utf8(x@).len() > NATIVE_LEN_MAX ==> r == Err::<Vec<u16>, u32>(
            ERROR_INVALID_PARAMETER,
        ),
{
    let bytes: &[u8] = x.as_bytes();
    if bytes.len() > NATIVE_LEN_MAX {
        Err(ERROR_INVALID_PARAMETER)
    } else if x.is_empty() {
        let mut v: Vec<u16> = Vec::new();
        v.push(0u16);
        proof {
            assert(v@ =~= seq![0u16]);
        }
        Ok(v)
    } else {
        Ok(encode_wide_units(x))
    }
}

/// Begin a strict wide-to-multibyte conversion under the given code page:
/// best-fit substitution is disabled and the driver fails with "no unicode
/// translation" if any character had no exact representation.  The caller
/// runs the returned driver against the native primitive.
pub fn wide_to_mb(code_page: u32, x: &[u16]) -> (r: OsResult<WideToMb>)
    ensures
        normalized_wide(x@).len() * 4 <= NATIVE_LEN_MAX ==> (r matches Ok(s) && {
            &&& s.code_page == code_page
            &&& s.flags == WC_NO_BEST_FIT_CHARS
            &&& s.strict
            &&& s.source@ == normalized_wide(x@)
            &&& s.phase is Fast
            &&& s.wf()
        }),
        normalized_wide(x@).len() * 4 > NATIVE_LEN_MAX ==> r == Err::<WideToMb, u32>(
            ERROR_INVALID_PARAMETER,
        ),
{
    WideToMb::begin(code_page, WC_NO_BEST_FIT_CHARS, x, true)
}

/// Begin a lossy wide-to-multibyte conversion under the given code page:
/// best-fit substitution is still disabled, but a substituted default
/// character is accepted silently and never fails the conversion.
pub fn wide_to_mb_lossy(code_page: u32, x: &[u16]) -> (r: OsResult<WideToMb>)
    ensures
        normalized_wide(x@).len() * 4 <= NATIVE_LEN_MAX ==> (r matches Ok(s) && {
            &&& s.code_page == code_page
            &&& s.flags == WC_NO_BEST_FIT_CHARS
            &&& !s.strict
            &&& s.source@ == normalized_wide(x@)
            &&& s.phase is Fast
            &&& s.wf()
        }),
        normalized_wide(x@).len() * 4 > NATIVE_LEN_MAX ==> r == Err::<WideToMb, u32>(
            ERROR_INVALID_PARAMETER,
        ),
{
    WideToMb::begin(code_page, WC_NO_BEST_FIT_CHARS, x, false)
}

} // verus!
