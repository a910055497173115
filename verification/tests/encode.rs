//! Tests for the UTF-8 to wide direction, which the engine computes
//! directly.

use wideconv::to_utf16;
use wideconv::utf8_to_wide;

#[test]
fn to_utf16_appends_nul() {
    assert_eq!(to_utf16("test"), vec![0x74u16, 0x65, 0x73, 0x74, 0x00]);
}

#[test]
fn to_utf16_empty_is_single_nul() {
    assert_eq!(to_utf16(""), vec![0u16]);
}

#[test]
fn to_utf16_mixed_scripts() {
    // ASCII, three katakana, and one supplementary-plane character that
    // needs a surrogate pair.
    let v = to_utf16("test\u{30c6}\u{30b9}\u{30c8}\u{1f363}");
    assert_eq!(
        v,
        vec![0x74u16, 0x65, 0x73, 0x74, 0x30c6, 0x30b9, 0x30c8, 0xd83c, 0xdf63, 0x0000]
    );
}

#[test]
fn to_utf16_digits() {
    assert_eq!(to_utf16("4649"), vec![0x34u16, 0x36, 0x34, 0x39, 0x00]);
}

#[test]
fn utf8_to_wide_empty_yields_one_terminating_unit() {
    assert_eq!(utf8_to_wide(""), Ok(vec![0u16]));
}

#[test]
fn utf8_to_wide_ascii() {
    assert_eq!(utf8_to_wide("test"), Ok(vec![0x74u16, 0x65, 0x73, 0x74]));
}

#[test]
fn utf8_to_wide_supplementary_pair() {
    assert_eq!(utf8_to_wide("\u{1f363}"), Ok(vec![0xd83cu16, 0xdf63]));
}

#[test]
fn utf8_to_wide_matches_std_encoding() {
    let samples = ["test2", "3.14", "true", "test\u{30c6}\u{30b9}\u{30c8}\u{1f363}"];
    for s in samples {
        let expected: Vec<u16> = s.encode_utf16().collect();
        assert_eq!(utf8_to_wide(s), Ok(expected));
    }
}
