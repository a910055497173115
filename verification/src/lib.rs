//! A text-encoding conversion engine in the style of a host platform's
//! native text subsystem: it bridges UTF-8 strings, UTF-16 "wide" unit
//! sequences, and single/multi-byte sequences under a legacy code page.
//!
//! The UTF-8 to wide direction is total for valid UTF-8 and is computed
//! and proved here directly.  The wide to multibyte direction needs the
//! platform's code-page tables, which only a native conversion call can
//! consult; for that direction the library provides sizing-retry drivers
//! that make every decision of the protocol - buffer sizing, the fast
//! path and its exact two-pass fallback, and the strict versus lossy
//! substitution policy - while the caller performs the native calls and
//! reports each outcome back.

pub mod codes;
pub mod convert;
pub mod driver;
pub mod locale;
pub mod native;
pub mod wide;

pub use codes::OsResult;
pub use convert::utf8_to_wide;
pub use convert::wide_to_mb;
pub use convert::wide_to_mb_lossy;
pub use locale::get_system_default_acp;
pub use wide::to_utf16;
