//! Tests for the locale resolver's decision logic and the safe-call
//! wrapper helpers.

use wideconv::codes::ERROR_INVALID_PARAMETER;
use wideconv::codes::LOCALE_IDEFAULTANSICODEPAGE;
use wideconv::codes::LOCALE_RETURN_NUMBER;
use wideconv::get_system_default_acp;
use wideconv::locale::locale_acp_query;
use wideconv::locale::system_default_locale_name;
use wideconv::native::check_buffer_len;
use wideconv::native::interpret_native_return;
use wideconv::to_utf16;

#[test]
fn acp_accepts_the_platform_value() {
    assert_eq!(get_system_default_acp(1, 1252, 0), Ok(1252));
}

#[test]
fn acp_surfaces_the_last_error_on_failure() {
    assert_eq!(get_system_default_acp(0, 0, 87), Err(87));
}

#[test]
fn acp_resolution_is_stable_within_a_session() {
    // The resolver keeps no state: two consecutive resolutions of the
    // same platform answer give the same identifier.
    let first = get_system_default_acp(2, 932, 0);
    let second = get_system_default_acp(2, 932, 0);
    assert_eq!(first, second);
    assert_eq!(first, Ok(932));
}

#[test]
fn locale_name_is_the_system_default_pseudo_locale() {
    let name = system_default_locale_name();
    assert_eq!(name, to_utf16("!x-sys-default-locale"));
    assert_eq!(name[0], b'!' as u16);
    assert_eq!(*name.last().unwrap(), 0u16);
    assert_eq!(name.len(), "!x-sys-default-locale".len() + 1);
}

#[test]
fn locale_query_asks_for_the_ansi_code_page_as_a_number() {
    assert_eq!(locale_acp_query(), LOCALE_IDEFAULTANSICODEPAGE | LOCALE_RETURN_NUMBER);
    assert_eq!(locale_acp_query(), 0x2000_1004);
}

#[test]
fn small_lengths_pass_validation() {
    assert_eq!(check_buffer_len(0), Ok(0));
    assert_eq!(check_buffer_len(5), Ok(5));
    assert_eq!(check_buffer_len(0x7fff_ffff), Ok(0x7fff_ffff));
}

#[test]
fn oversized_lengths_fail_before_any_native_call() {
    assert_eq!(check_buffer_len(0x8000_0000usize), Err(ERROR_INVALID_PARAMETER));
}

#[test]
fn zero_return_surfaces_the_last_error() {
    assert_eq!(interpret_native_return(0, 122), Err(122));
}

#[test]
fn positive_return_is_the_unit_count() {
    assert_eq!(interpret_native_return(7, 0), Ok(7));
}
