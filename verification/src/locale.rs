//! Resolution of the process's default single-byte code page.
//!
//! The platform can silently present UTF-8 as the apparent process code
//! page; the resolver instead queries the locale subsystem for the system
//! default locale's ANSI code page, so that "ANSI" conversions stay
//! faithful to what the user's system displays.  The query itself is a
//! native call; everything around it - the locale name, the property
//! selector, and the reading of the answer - is decided and proved here.

use vstd::prelude::*;

use crate::codes::LOCALE_IDEFAULTANSICODEPAGE;
use crate::codes::LOCALE_RETURN_NUMBER;
use crate::codes::OsResult;
use crate::wide::utf16_seq;
use crate::wide::to_utf16;

verus! {

/// The pseudo-locale name naming the system default locale, as a
/// NUL-terminated wide string ready for the native locale query.
pub fn system_default_locale_name() -> (r: Vec<u16>)
    ensures
        r@ == utf16_seq("!x-sys-default-locale"@).push(0u16),
{
    to_utf16("!x-sys-default-locale")
}

/// The locale property the resolver asks for: the default ANSI code page,
/// returned as a number rather than as digit text.
pub fn locale_acp_query() -> (r: u32)
    ensures
        r == (LOCALE_IDEFAULTANSICODEPAGE | LOCALE_RETURN_NUMBER),
{
    LOCALE_IDEFAULTANSICODEPAGE | LOCALE_RETURN_NUMBER
}

/// The identifier resolved from the locale query's answer: a zero return
/// surfaces the last-error code read right after the call; any other
/// return accepts the value the query wrote.
pub open spec fn resolved_acp(ret: i32, value: u32, last_error: u32) -> OsResult<u32> {
    if ret == 0 {
        Err(last_error)
    } else {
        Ok(value)
    }
}

/// Resolve the system default ANSI code page from the native locale
/// query's answer: `ret` is the query's return, `value` the number it
/// wrote, `last_error` the platform error code read immediately after a
/// failing call.
pub fn get_system_default_acp(ret: i32, value: u32, last_error: u32) -> (r: OsResult<u32>)
    ensures
        r == resolved_acp(ret, value, last_error),
        ret == 0 ==> r == Err::<u32, u32>(last_error),
        ret != 0 ==> r == Ok::<u32, u32>(value),
{
    if ret == 0 {
        Err(last_error)
    } else {
        Ok(value)
    }
}

/// The resolver keeps no state of its own: whenever the platform answers
/// two consecutive queries alike, the resolved identifiers are alike too.
/// That the locale subsystem does answer consistently within one process
/// session is the platform's own guarantee, not established here.
pub proof fn lemma_resolution_stable(
    ret1: i32,
    value1: u32,
    err1: u32,
    ret2: i32,
    value2: u32,
    err2: u32,
)
    requires
        ret1 == ret2,
        value1 == value2,
        err1 == err2,
    ensures
        resolved_acp(ret1, value1, err1) == resolved_acp(ret2, value2, err2),
{
}

} // verus!
