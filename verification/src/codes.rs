//! The numeric vocabulary of the native text subsystem: code page
//! identifiers, conversion flags, and the platform error codes the
//! engine distinguishes.

use vstd::prelude::*;

verus! {

/// Result of a fallible operation: the value, or a 32-bit platform error code.
pub type OsResult<T> = Result<T, u32>;

/// Code page identifier of the universal UTF-8 encoding.
pub const CP_UTF8: u32 = 65001;

/// Flag for the multibyte-to-wide direction: reject malformed source
/// sequences instead of substituting a replacement character.
pub const MB_ERR_INVALID_CHARS: u32 = 0x8;

/// Flag for the wide-to-multibyte direction: disable heuristic best-fit
/// substitution, forcing a literal default character for any unmappable one.
pub const WC_NO_BEST_FIT_CHARS: u32 = 0x400;

/// Platform error: a parameter was invalid; raised locally whenever a buffer
/// length cannot be represented in the native calls' signed 32-bit width.
pub const ERROR_INVALID_PARAMETER: u32 = 0x57;

/// Platform error: the destination buffer was too small.  The drivers always
/// recover from it by falling back to the exact two-pass protocol.
pub const ERROR_INSUFFICIENT_BUFFER: u32 = 0x7a;

/// Error raised by the strict wide-to-multibyte policy when some character
/// had no exact representation in the target code page.
pub const ERROR_NO_UNICODE_TRANSLATION: u32 = 0x459;

/// Locale property selector: the locale's default ANSI code page.
pub const LOCALE_IDEFAULTANSICODEPAGE: u32 = 0x1004;

/// Locale query flag: return the property as a number, not as digit text.
pub const LOCALE_RETURN_NUMBER: u32 = 0x20000000;

/// The largest buffer length the native calls can be handed: their size
/// parameters are signed 32-bit integers.
pub const NATIVE_LEN_MAX: usize = 0x7fff_ffff;

} // verus!
